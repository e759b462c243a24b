//! AES-256-GCM with a 96-bit nonce, a 128-bit tag and no associated data.
//!
//! The cipher itself comes from the `aes-gcm` crate. What this module proves
//! is how its answers become the answers of this library; the tag and the
//! keystream that the cipher computes are named here, not defined.

use vstd::prelude::*;

use crate::envelope::{ciphertext_of, nonce_of, sealed_of, Envelope, HEADER_LEN, NONCE_LEN, TAG_LEN};
use crate::error::DecryptError;

verus! {

/// Bytes of an AES-256 key.
pub const KEY_LEN: usize = 32;

/// The longest ciphertext, in bytes, that the cipher agrees to authenticate.
pub const MAX_CIPHERTEXT_LEN: u64 = 0x10_0000_0010;

/// `crypto_common::InvalidLength`, as `aes-gcm` hands it on: the cipher's
/// refusal of a key. Nothing is read from it.
#[verifier::external_type_specification]
#[verifier::external_body]
pub struct ExInvalidLength(aes_gcm::aes::cipher::InvalidLength);

/// `aes_gcm::Error`: the cipher's refusal of a payload. It holds nothing.
#[verifier::external_type_specification]
#[verifier::external_body]
pub struct ExAeadError(aes_gcm::Error);

/// The 16-byte tag that AES-256-GCM computes over a ciphertext, without
/// associated data, under a key and a nonce.
pub uninterp spec fn aes256_gcm_tag(key: Seq<u8>, nonce: Seq<u8>, ciphertext: Seq<u8>) -> Seq<u8>;

/// The first `len` bytes of the keystream that AES-256-GCM's counter mode
/// lays over a message under a key and a nonce.
pub uninterp spec fn aes256_gcm_keystream(key: Seq<u8>, nonce: Seq<u8>, len: nat) -> Seq<u8>;

/// Each byte of `data` combined by exclusive or with the byte of `pad` at the
/// same place.
pub open spec fn xor_bytes(data: Seq<u8>, pad: Seq<u8>) -> Seq<u8> {
    Seq::new(data.len(), |i: int| data[i] ^ pad[i])
}

/// A message under the keystream of key and nonce: the ciphertext of a
/// plaintext, and the plaintext of a ciphertext.
pub open spec fn apply_keystream(key: Seq<u8>, nonce: Seq<u8>, message: Seq<u8>) -> Seq<u8> {
    xor_bytes(message, aes256_gcm_keystream(key, nonce, message.len()))
}

/// The ciphertext part of a sealed payload: all but its last 16 bytes.
pub open spec fn sealed_text(sealed: Seq<u8>) -> Seq<u8>
    recommends
        sealed.len() >= TAG_LEN,
{
    sealed.subrange(0, sealed.len() - TAG_LEN)
}

/// The tag part of a sealed payload: its last 16 bytes.
pub open spec fn sealed_tag(sealed: Seq<u8>) -> Seq<u8>
    recommends
        sealed.len() >= TAG_LEN,
{
    sealed.subrange(sealed.len() - TAG_LEN, sealed.len() as int)
}

/// A sealed payload that holds a tag and a ciphertext within the limit.
pub open spec fn well_sized(sealed: Seq<u8>) -> bool {
    TAG_LEN <= sealed.len() <= TAG_LEN + MAX_CIPHERTEXT_LEN
}

/// Whether the cipher authenticates a sealed payload: it is well sized, and
/// its tag is the one that key, nonce and ciphertext give.
pub open spec fn authentic(key: Seq<u8>, nonce: Seq<u8>, sealed: Seq<u8>) -> bool {
    &&& well_sized(sealed)
    &&& sealed_tag(sealed) == aes256_gcm_tag(key, nonce, sealed_text(sealed))
}

/// The plaintext of a sealed payload, where the cipher authenticates it.
pub open spec fn aes256_gcm_open(key: Seq<u8>, nonce: Seq<u8>, sealed: Seq<u8>) -> Option<Seq<u8>> {
    if authentic(key, nonce, sealed) {
        Some(apply_keystream(key, nonce, sealed_text(sealed)))
    } else {
        None
    }
}

/// Laying the keystream over a message twice gives the message back.
pub proof fn lemma_keystream_twice(key: Seq<u8>, nonce: Seq<u8>, message: Seq<u8>)
    ensures
        apply_keystream(key, nonce, message).len() == message.len(),
        apply_keystream(key, nonce, apply_keystream(key, nonce, message)) == message,
{
    let pad = aes256_gcm_keystream(key, nonce, message.len());
    let once = xor_bytes(message, pad);
    assert forall|i: int| 0 <= i < message.len() implies (#[trigger] once[i]) ^ pad[i]
        == message[i] by {
        let m = message[i];
        let k = pad[i];
        assert((m ^ k) ^ k == m) by (bit_vector);
    }
    assert(xor_bytes(once, pad) =~= message);
}

/// A ciphertext with a 16-byte tag behind it is split into just these two.
pub proof fn lemma_sealed_parts(ciphertext: Seq<u8>, tag: Seq<u8>)
    requires
        tag.len() == TAG_LEN,
    ensures
        sealed_text(ciphertext + tag) == ciphertext,
        sealed_tag(ciphertext + tag) == tag,
{
    assert(sealed_text(ciphertext + tag) =~= ciphertext);
    assert(sealed_tag(ciphertext + tag) =~= tag);
}

/// A plaintext that was put under the keystream and followed by the tag of
/// the resulting ciphertext opens to that plaintext, under the same key and
/// nonce.
pub proof fn lemma_open_sealed(key: Seq<u8>, nonce: Seq<u8>, plain: Seq<u8>, tag: Seq<u8>)
    requires
        plain.len() <= MAX_CIPHERTEXT_LEN,
        tag.len() == TAG_LEN,
        tag == aes256_gcm_tag(key, nonce, apply_keystream(key, nonce, plain)),
    ensures
        aes256_gcm_open(key, nonce, apply_keystream(key, nonce, plain) + tag) == Some(plain),
{
    let ciphertext = apply_keystream(key, nonce, plain);
    lemma_keystream_twice(key, nonce, plain);
    lemma_sealed_parts(ciphertext, tag);
}

/// A ciphertext is authentic with one tag only: with any other 16 bytes in
/// the tag's place the cipher refuses the payload.
pub proof fn lemma_other_tag_is_refused(
    key: Seq<u8>,
    nonce: Seq<u8>,
    ciphertext: Seq<u8>,
    tag: Seq<u8>,
    other: Seq<u8>,
)
    requires
        tag.len() == TAG_LEN,
        other.len() == TAG_LEN,
        other != tag,
        authentic(key, nonce, ciphertext + tag),
    ensures
        aes256_gcm_open(key, nonce, ciphertext + other) is None,
{
    lemma_sealed_parts(ciphertext, tag);
    lemma_sealed_parts(ciphertext, other);
}

/// Calls `KeyInit::new_from_slice` of `aes_gcm::Aes256Gcm` on the key and, if
/// the key is accepted, `Aead::decrypt` of that cipher on the nonce and on a
/// ciphertext that is followed by its tag.
///
/// Not proved: that a key is accepted exactly when it has 32 bytes; that the
/// cipher then opens the payload exactly when it holds a tag, the ciphertext
/// is within the limit and the tag equals the one computed over the
/// ciphertext; and that the plaintext is the ciphertext with the keystream
/// laid over it, byte by byte.
#[verifier::external_body]
pub(crate) fn aes256_gcm_decrypt(key: &[u8], nonce: &[u8], sealed: &[u8]) -> (answer: Result<
    Result<Vec<u8>, aes_gcm::Error>,
    aes_gcm::aes::cipher::InvalidLength,
>)
    requires
        nonce@.len() == NONCE_LEN,
    ensures
        answer is Ok <==> key@.len() == KEY_LEN,
        answer matches Ok(opened) ==> (opened is Ok <==> (well_sized(sealed@) && sealed_tag(sealed@)
            == aes256_gcm_tag(key@, nonce@, sealed_text(sealed@)))),
        answer matches Ok(Ok(plain)) ==> plain@ == xor_bytes(
            sealed_text(sealed@),
            aes256_gcm_keystream(key@, nonce@, sealed_text(sealed@).len()),
        ),
{
    let cipher = <aes_gcm::Aes256Gcm as aes_gcm::KeyInit>::new_from_slice(key)?;
    Ok(aes_gcm::aead::Aead::decrypt(&cipher, aes_gcm::Nonce::from_slice(nonce), sealed))
}

/// What [`unseal`] returns for a key and the bytes of an envelope.
pub open spec fn unsealed(key: Seq<u8>, bytes: Seq<u8>) -> Result<Seq<u8>, DecryptError>
    recommends
        bytes.len() >= HEADER_LEN,
{
    if key.len() != KEY_LEN {
        Err(DecryptError::CipherInit)
    } else {
        match aes256_gcm_open(key, nonce_of(bytes), sealed_of(bytes)) {
            Some(plain) => Ok(plain),
            None => Err(DecryptError::AuthenticationFailed),
        }
    }
}

/// The plaintext bytes of an outcome, for contracts.
pub open spec fn bytes_view(outcome: Result<Vec<u8>, DecryptError>) -> Result<
    Seq<u8>,
    DecryptError,
> {
    match outcome {
        Ok(bytes) => Ok(bytes@),
        Err(refusal) => Err(refusal),
    }
}

/// Opens an envelope under a key: the plaintext bytes where the tag matches.
///
/// A key of another length than 32 bytes is refused, whatever the envelope
/// holds. The plaintext is as long as the ciphertext.
pub fn unseal(key: &[u8], envelope: &Envelope) -> (outcome: Result<Vec<u8>, DecryptError>)
    ensures
        bytes_view(outcome) == unsealed(key@, envelope@),
        outcome matches Ok(plain) ==> plain@.len() == ciphertext_of(envelope@).len(),
{
    let sealed = envelope.sealed_payload();
    match aes256_gcm_decrypt(key, envelope.nonce(), sealed.as_slice()) {
        Err(_) => Err(DecryptError::CipherInit),
        Ok(Err(_)) => Err(DecryptError::AuthenticationFailed),
        Ok(Ok(plain)) => Ok(plain),
    }
}

} // verus!
