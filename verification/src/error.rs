//! The ways in which opening an envelope can fail.

use vstd::prelude::*;

verus! {

/// Why an envelope could not be opened.
#[derive(Clone, Copy, Debug, PartialEq, Eq, Structural)]
pub enum DecryptError {
    /// The text is not base64, or the opened bytes are not UTF-8.
    Encoding,
    /// Fewer bytes than a nonce and a tag take.
    Malformed,
    /// The cipher rejected the key.
    CipherInit,
    /// The tag does not match ciphertext, nonce and key.
    AuthenticationFailed,
}

impl DecryptError {
    /// A short description for the person who asked for the story.
    pub fn message(&self) -> (text: &'static str)
        ensures
            text@ == self.spec_message(),
    {
        match self {
            DecryptError::Encoding => "Encoding error: not base64 or not UTF-8",
            DecryptError::Malformed => "Invalid encrypted data: too short",
            DecryptError::CipherInit => "Cipher init error: invalid key length",
            DecryptError::AuthenticationFailed => "Decryption error: authentication failed",
        }
    }

    /// The description as a sequence of characters.
    pub open spec fn spec_message(&self) -> Seq<char> {
        match self {
            DecryptError::Encoding => "Encoding error: not base64 or not UTF-8"@,
            DecryptError::Malformed => "Invalid encrypted data: too short"@,
            DecryptError::CipherInit => "Cipher init error: invalid key length"@,
            DecryptError::AuthenticationFailed => "Decryption error: authentication failed"@,
        }
    }
}

} // verus!
