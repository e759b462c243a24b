//! What holds of every envelope, key and text: the round trip, what
//! tampering and a wrong key lead to, and where the refusals begin.
//!
//! Each statement is over the spec functions that the contracts of
//! [`crate::decrypt`] use, so it holds of what those functions return.

use vstd::prelude::*;
use vstd::utf8::{decode_utf8, encode_utf8, valid_utf8};

use crate::cipher::{
    aes256_gcm_tag, apply_keystream, authentic, lemma_open_sealed, lemma_other_tag_is_refused,
    lemma_sealed_parts, sealed_text, unsealed, KEY_LEN, MAX_CIPHERTEXT_LEN,
};
use crate::codec::{all_base64_symbols, decoded_bytes, is_base64_symbol};
use crate::decrypt::decrypted;
use crate::envelope::{
    ciphertext_of, lemma_pack_fields, nonce_of, pack, sealed_of, tag_of, HEADER_LEN, NONCE_LEN,
    TAG_LEN,
};
use crate::error::DecryptError;

verus! {

/// The envelope bytes that a producer makes of a text under a key and a
/// nonce: the nonce, the tag of the ciphertext, and the ciphertext, which is
/// the text's UTF-8 bytes under the keystream.
pub open spec fn sealed_envelope(key: Seq<u8>, nonce: Seq<u8>, text: Seq<char>) -> Seq<u8> {
    let ciphertext = apply_keystream(key, nonce, encode_utf8(text));
    pack(nonce, aes256_gcm_tag(key, nonce, ciphertext), ciphertext)
}

/// Envelope bytes with one bit of one byte inverted.
pub open spec fn flip_bit(bytes: Seq<u8>, index: int, bit: u8) -> Seq<u8>
    recommends
        0 <= index < bytes.len(),
        bit < 8,
{
    bytes.update(index, bytes[index] ^ (1u8 << bit))
}

/// The base64 text of an envelope that was sealed from a text, under a
/// 32-byte key and any 12-byte nonce, decrypts to that text under the same
/// key. The text is one that the cipher can take, and the tag has the 16
/// bytes that the envelope gives it.
pub proof fn lemma_round_trip(
    key: Seq<u8>,
    nonce: Seq<u8>,
    text: Seq<char>,
    encrypted_base64: Seq<char>,
)
    requires
        key.len() == KEY_LEN,
        nonce.len() == NONCE_LEN,
        encode_utf8(text).len() <= MAX_CIPHERTEXT_LEN,
        aes256_gcm_tag(key, nonce, apply_keystream(key, nonce, encode_utf8(text))).len()
            == TAG_LEN,
        decoded_bytes(encrypted_base64) == Some(sealed_envelope(key, nonce, text)),
    ensures
        decrypted(key, encrypted_base64) == Ok::<Seq<char>, DecryptError>(text),
{
    let plain = encode_utf8(text);
    let ciphertext = apply_keystream(key, nonce, plain);
    let tag = aes256_gcm_tag(key, nonce, ciphertext);
    lemma_pack_fields(nonce, tag, ciphertext);
    lemma_open_sealed(key, nonce, plain, tag);
    vstd::utf8::encode_utf8_valid_utf8(text);
    vstd::utf8::encode_utf8_decode_utf8(text);
}

/// Where an envelope authenticates under a key, the text of the same
/// envelope with any one bit of its tag inverted fails authentication under
/// that key.
pub proof fn lemma_flipped_tag_bit_fails(
    key: Seq<u8>,
    bytes: Seq<u8>,
    index: int,
    bit: u8,
    encrypted_base64: Seq<char>,
)
    requires
        bytes.len() >= HEADER_LEN,
        unsealed(key, bytes) is Ok,
        NONCE_LEN <= index < HEADER_LEN,
        bit < 8,
        decoded_bytes(encrypted_base64) == Some(flip_bit(bytes, index, bit)),
    ensures
        decrypted(key, encrypted_base64) == Err::<Seq<char>, DecryptError>(
            DecryptError::AuthenticationFailed,
        ),
{
    let flipped = flip_bit(bytes, index, bit);
    let old_byte = bytes[index];
    assert(old_byte ^ (1u8 << bit) != old_byte) by (bit_vector)
        requires
            bit < 8,
    ;
    assert(tag_of(flipped)[index - NONCE_LEN] == flipped[index]);
    assert(tag_of(bytes)[index - NONCE_LEN] == bytes[index]);
    assert(nonce_of(flipped) =~= nonce_of(bytes));
    assert(ciphertext_of(flipped) =~= ciphertext_of(bytes));
    lemma_other_tag_is_refused(
        key,
        nonce_of(bytes),
        ciphertext_of(bytes),
        tag_of(bytes),
        tag_of(flipped),
    );
}

/// Where an envelope authenticates under a key, the text of the same
/// envelope with one bit of its ciphertext inverted fails authentication
/// under that key, provided that the cipher gives the changed ciphertext
/// another tag than the unchanged one.
pub proof fn lemma_flipped_ciphertext_bit_fails(
    key: Seq<u8>,
    bytes: Seq<u8>,
    index: int,
    bit: u8,
    encrypted_base64: Seq<char>,
)
    requires
        bytes.len() >= HEADER_LEN,
        unsealed(key, bytes) is Ok,
        HEADER_LEN <= index < bytes.len(),
        bit < 8,
        aes256_gcm_tag(key, nonce_of(bytes), ciphertext_of(flip_bit(bytes, index, bit)))
            != aes256_gcm_tag(key, nonce_of(bytes), ciphertext_of(bytes)),
        decoded_bytes(encrypted_base64) == Some(flip_bit(bytes, index, bit)),
    ensures
        decrypted(key, encrypted_base64) == Err::<Seq<char>, DecryptError>(
            DecryptError::AuthenticationFailed,
        ),
{
    let flipped = flip_bit(bytes, index, bit);
    assert(nonce_of(flipped) =~= nonce_of(bytes));
    assert(tag_of(flipped) =~= tag_of(bytes));
    lemma_sealed_parts(ciphertext_of(bytes), tag_of(bytes));
    lemma_sealed_parts(ciphertext_of(flipped), tag_of(flipped));
}

/// The text of an envelope that was sealed under one 32-byte key fails
/// authentication under another, provided that the two keys give the
/// ciphertext different tags.
pub proof fn lemma_other_key_fails(
    key: Seq<u8>,
    other: Seq<u8>,
    nonce: Seq<u8>,
    text: Seq<char>,
    encrypted_base64: Seq<char>,
)
    requires
        key.len() == KEY_LEN,
        other.len() == KEY_LEN,
        nonce.len() == NONCE_LEN,
        aes256_gcm_tag(other, nonce, apply_keystream(other, nonce, encode_utf8(text))).len()
            == TAG_LEN,
        aes256_gcm_tag(key, nonce, apply_keystream(other, nonce, encode_utf8(text)))
            != aes256_gcm_tag(other, nonce, apply_keystream(other, nonce, encode_utf8(text))),
        decoded_bytes(encrypted_base64) == Some(sealed_envelope(other, nonce, text)),
    ensures
        decrypted(key, encrypted_base64) == Err::<Seq<char>, DecryptError>(
            DecryptError::AuthenticationFailed,
        ),
{
    let ciphertext = apply_keystream(other, nonce, encode_utf8(text));
    let tag = aes256_gcm_tag(other, nonce, ciphertext);
    lemma_pack_fields(nonce, tag, ciphertext);
    lemma_sealed_parts(ciphertext, tag);
}

/// Text that decodes to fewer bytes than nonce and tag take, such as 27, is
/// malformed, whatever the key.
pub proof fn lemma_short_is_malformed(key: Seq<u8>, bytes: Seq<u8>, encrypted_base64: Seq<char>)
    requires
        bytes.len() < HEADER_LEN,
        decoded_bytes(encrypted_base64) == Some(bytes),
    ensures
        decrypted(key, encrypted_base64) == Err::<Seq<char>, DecryptError>(
            DecryptError::Malformed,
        ),
{
}

/// Text that decodes to exactly a nonce and the tag which belongs to the
/// empty ciphertext decrypts to the empty text.
pub proof fn lemma_bare_header_is_empty_text(
    key: Seq<u8>,
    bytes: Seq<u8>,
    encrypted_base64: Seq<char>,
)
    requires
        key.len() == KEY_LEN,
        bytes.len() == HEADER_LEN,
        authentic(key, nonce_of(bytes), sealed_of(bytes)),
        decoded_bytes(encrypted_base64) == Some(bytes),
    ensures
        decrypted(key, encrypted_base64) == Ok::<Seq<char>, DecryptError>(Seq::empty()),
{
    let plain = apply_keystream(key, nonce_of(bytes), sealed_text(sealed_of(bytes)));
    assert(plain =~= Seq::<u8>::empty());
    assert(valid_utf8(plain));
    assert(decode_utf8(plain) =~= Seq::<char>::empty());
}

/// Text that holds a character which is neither of the base64 alphabet nor
/// the padding sign is an encoding error, whatever the key.
pub proof fn lemma_foreign_symbol_is_encoding_error(
    key: Seq<u8>,
    encrypted_base64: Seq<char>,
    index: int,
)
    requires
        0 <= index < encrypted_base64.len(),
        !is_base64_symbol(encrypted_base64[index]),
    ensures
        decrypted(key, encrypted_base64) == Err::<Seq<char>, DecryptError>(
            DecryptError::Encoding,
        ),
{
    assert(!all_base64_symbols(encrypted_base64));
}

/// Any text with an exclamation mark behind it is an encoding error.
pub proof fn lemma_trailing_mark_is_encoding_error(key: Seq<u8>, encrypted_base64: Seq<char>)
    ensures
        decrypted(key, encrypted_base64.push('!')) == Err::<Seq<char>, DecryptError>(
            DecryptError::Encoding,
        ),
{
    lemma_foreign_symbol_is_encoding_error(
        key,
        encrypted_base64.push('!'),
        encrypted_base64.len() as int,
    );
}

} // verus!
