//! The byte layout of an envelope: a nonce, then the tag, then the ciphertext.
//!
//! The tag travels in front of the ciphertext, while AES-GCM takes it behind:
//! [`sealed_of`] is the reordering, and it is part of the format.

use vstd::prelude::*;
use vstd::slice::{slice_subrange, slice_to_vec};

use crate::error::DecryptError;

verus! {

/// Bytes of the GCM nonce at the start of an envelope.
pub const NONCE_LEN: usize = 12;

/// Bytes of the GCM authentication tag that follows the nonce.
pub const TAG_LEN: usize = 16;

/// Bytes of nonce and tag together: the least an envelope can hold.
pub const HEADER_LEN: usize = 28;

/// The nonce field of envelope bytes.
pub open spec fn nonce_of(bytes: Seq<u8>) -> Seq<u8>
    recommends
        bytes.len() >= HEADER_LEN,
{
    bytes.subrange(0, NONCE_LEN as int)
}

/// The tag field of envelope bytes.
pub open spec fn tag_of(bytes: Seq<u8>) -> Seq<u8>
    recommends
        bytes.len() >= HEADER_LEN,
{
    bytes.subrange(NONCE_LEN as int, HEADER_LEN as int)
}

/// The ciphertext field of envelope bytes: all that follows the tag.
pub open spec fn ciphertext_of(bytes: Seq<u8>) -> Seq<u8>
    recommends
        bytes.len() >= HEADER_LEN,
{
    bytes.subrange(HEADER_LEN as int, bytes.len() as int)
}

/// What the cipher is given: the ciphertext with the tag moved behind it.
pub open spec fn sealed_of(bytes: Seq<u8>) -> Seq<u8>
    recommends
        bytes.len() >= HEADER_LEN,
{
    ciphertext_of(bytes) + tag_of(bytes)
}

/// The envelope bytes that hold the three fields.
pub open spec fn pack(nonce: Seq<u8>, tag: Seq<u8>, ciphertext: Seq<u8>) -> Seq<u8> {
    nonce + tag + ciphertext
}

/// Decoded envelope bytes that are long enough to hold a nonce and a tag.
pub struct Envelope {
    bytes: Vec<u8>,
}

impl View for Envelope {
    type V = Seq<u8>;

    closed spec fn view(&self) -> Seq<u8> {
        self.bytes@
    }
}

impl Envelope {
    #[verifier::type_invariant]
    spec fn holds_header(&self) -> bool {
        self.bytes@.len() >= HEADER_LEN
    }

    /// Accepts decoded bytes as an envelope when they can hold nonce and tag.
    pub fn parse(bytes: Vec<u8>) -> (parsed: Result<Envelope, DecryptError>)
        ensures
            parsed is Ok <==> bytes@.len() >= HEADER_LEN,
            parsed matches Ok(envelope) ==> envelope@ == bytes@,
            parsed matches Err(refusal) ==> refusal == DecryptError::Malformed,
    {
        if bytes.len() < HEADER_LEN {
            Err(DecryptError::Malformed)
        } else {
            Ok(Envelope { bytes })
        }
    }

    /// All bytes of the envelope.
    pub fn as_bytes(&self) -> (bytes: &[u8])
        ensures
            bytes@ == self@,
            bytes@.len() >= HEADER_LEN,
    {
        proof {
            use_type_invariant(self);
        }
        self.bytes.as_slice()
    }

    /// The GCM nonce.
    pub fn nonce(&self) -> (field: &[u8])
        ensures
            field@ == nonce_of(self@),
            field@.len() == NONCE_LEN,
    {
        proof {
            use_type_invariant(self);
        }
        slice_subrange(self.bytes.as_slice(), 0, NONCE_LEN)
    }

    /// The GCM authentication tag.
    pub fn auth_tag(&self) -> (field: &[u8])
        ensures
            field@ == tag_of(self@),
            field@.len() == TAG_LEN,
    {
        proof {
            use_type_invariant(self);
        }
        slice_subrange(self.bytes.as_slice(), NONCE_LEN, HEADER_LEN)
    }

    /// The ciphertext, which may be empty.
    pub fn ciphertext(&self) -> (field: &[u8])
        ensures
            field@ == ciphertext_of(self@),
            field@.len() == self@.len() - HEADER_LEN,
    {
        proof {
            use_type_invariant(self);
        }
        let all = self.bytes.as_slice();
        slice_subrange(all, HEADER_LEN, all.len())
    }

    /// The ciphertext followed by the tag, as the cipher takes them.
    pub fn sealed_payload(&self) -> (sealed: Vec<u8>)
        ensures
            sealed@ == sealed_of(self@),
            sealed@.len() == self@.len() - NONCE_LEN,
    {
        let mut sealed = slice_to_vec(self.ciphertext());
        sealed.extend_from_slice(self.auth_tag());
        sealed
    }
}

/// Packing three fields and reading them back returns the same fields, and
/// the cipher is given the ciphertext before the tag.
pub proof fn lemma_pack_fields(nonce: Seq<u8>, tag: Seq<u8>, ciphertext: Seq<u8>)
    requires
        nonce.len() == NONCE_LEN,
        tag.len() == TAG_LEN,
    ensures
        pack(nonce, tag, ciphertext).len() == HEADER_LEN + ciphertext.len(),
        nonce_of(pack(nonce, tag, ciphertext)) == nonce,
        tag_of(pack(nonce, tag, ciphertext)) == tag,
        ciphertext_of(pack(nonce, tag, ciphertext)) == ciphertext,
        sealed_of(pack(nonce, tag, ciphertext)) == ciphertext + tag,
{
    let bytes = pack(nonce, tag, ciphertext);
    assert(nonce_of(bytes) =~= nonce);
    assert(tag_of(bytes) =~= tag);
    assert(ciphertext_of(bytes) =~= ciphertext);
}

/// Envelope bytes are their three fields in order.
pub proof fn lemma_fields_pack(bytes: Seq<u8>)
    requires
        bytes.len() >= HEADER_LEN,
    ensures
        pack(nonce_of(bytes), tag_of(bytes), ciphertext_of(bytes)) == bytes,
        nonce_of(bytes).len() == NONCE_LEN,
        tag_of(bytes).len() == TAG_LEN,
        ciphertext_of(bytes).len() == bytes.len() - HEADER_LEN,
{
    assert(pack(nonce_of(bytes), tag_of(bytes), ciphertext_of(bytes)) =~= bytes);
}

} // verus!
