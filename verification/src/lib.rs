//! Authenticated decryption of packed story envelopes.
//!
//! An envelope is the base64 text of `nonce || tag || ciphertext`, sealed with
//! AES-256-GCM under a key that producer and consumer share. This crate opens
//! such an envelope into UTF-8 text, or says which step refused it.

pub mod cipher;
pub mod codec;
pub mod decrypt;
pub mod envelope;
pub mod error;
pub mod guarantees;
