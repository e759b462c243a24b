//! From the text of an envelope to the text of a story.

use vstd::prelude::*;
use vstd::utf8::{decode_utf8, encode_utf8, valid_utf8};

use crate::cipher::{unseal, unsealed};
use crate::codec::{decode_envelope_text, decoded_bytes, plaintext_to_string};
use crate::envelope::{Envelope, HEADER_LEN};
use crate::error::DecryptError;

verus! {

/// The key that the producer of the stories seals them with.
pub const STORY_KEY: [u8; 32] = [
    0x42, 0x34, 0x72, 0x64, 0x30, 0x45, 0x6e, 0x67, 0x31, 0x6e, 0x33, 0x5f, 0x53, 0x33, 0x63, 0x72,
    0x33, 0x74, 0x5f, 0x4b, 0x33, 0x79, 0x5f, 0x32, 0x30, 0x32, 0x34, 0x5f, 0x21, 0x40, 0x23, 0x24,
];

/// The characters of a decrypted text, for contracts.
pub open spec fn text_view(outcome: Result<String, DecryptError>) -> Result<
    Seq<char>,
    DecryptError,
> {
    match outcome {
        Ok(text) => Ok(text@),
        Err(refusal) => Err(refusal),
    }
}

/// Plaintext bytes read as UTF-8.
pub open spec fn read_text(plain: Seq<u8>) -> Result<Seq<char>, DecryptError> {
    if valid_utf8(plain) {
        Ok(decode_utf8(plain))
    } else {
        Err(DecryptError::Encoding)
    }
}

/// What opening decoded envelope bytes under a key gives: the length is
/// looked at first, then the key, then the tag, then the plaintext.
pub open spec fn opened_text(key: Seq<u8>, bytes: Seq<u8>) -> Result<Seq<char>, DecryptError> {
    if bytes.len() < HEADER_LEN {
        Err(DecryptError::Malformed)
    } else {
        match unsealed(key, bytes) {
            Ok(plain) => read_text(plain),
            Err(refusal) => Err(refusal),
        }
    }
}

/// What decrypting the base64 text of an envelope under a key gives.
pub open spec fn decrypted(key: Seq<u8>, text: Seq<char>) -> Result<Seq<char>, DecryptError> {
    match decoded_bytes(text) {
        Some(bytes) => opened_text(key, bytes),
        None => Err(DecryptError::Encoding),
    }
}

/// Opens decoded envelope bytes under a key and reads the plaintext as text.
///
/// The text takes as many bytes as the ciphertext: an envelope of nothing
/// but nonce and tag opens to the empty string.
pub fn open_envelope_bytes(key: &[u8], combined: Vec<u8>) -> (outcome: Result<String, DecryptError>)
    ensures
        text_view(outcome) == opened_text(key@, combined@),
        outcome matches Ok(text) ==> encode_utf8(text@).len() + HEADER_LEN == combined@.len(),
{
    let envelope = match Envelope::parse(combined) {
        Ok(envelope) => envelope,
        Err(refusal) => {
            return Err(refusal);
        },
    };
    match unseal(key, &envelope) {
        Ok(plain) => plaintext_to_string(plain),
        Err(refusal) => Err(refusal),
    }
}

/// Decrypts the base64 text of an envelope under a key of the caller.
pub fn decrypt_with_key(key: &[u8], encrypted_base64: &str) -> (outcome: Result<
    String,
    DecryptError,
>)
    ensures
        text_view(outcome) == decrypted(key@, encrypted_base64@),
        outcome matches Ok(text) ==> decoded_bytes(encrypted_base64@) matches Some(bytes)
            && encode_utf8(text@).len() + HEADER_LEN == bytes.len(),
{
    match decode_envelope_text(encrypted_base64) {
        Ok(combined) => open_envelope_bytes(key, combined),
        Err(refusal) => Err(refusal),
    }
}

/// Decrypts the base64 text of a story envelope under [`STORY_KEY`].
///
/// The key has the length that the cipher asks for, so the cipher is never
/// the one to refuse.
pub fn decrypt_story_content(encrypted_base64: &str) -> (outcome: Result<String, DecryptError>)
    ensures
        text_view(outcome) == decrypted(STORY_KEY@, encrypted_base64@),
        outcome matches Err(refusal) ==> refusal != DecryptError::CipherInit,
        outcome matches Ok(text) ==> decoded_bytes(encrypted_base64@) matches Some(bytes)
            && encode_utf8(text@).len() + HEADER_LEN == bytes.len(),
{
    let key = STORY_KEY;
    decrypt_with_key(key.as_slice(), encrypted_base64)
}

} // verus!
