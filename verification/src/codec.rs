//! Text on both sides of the cipher: base64 going in, UTF-8 coming out.

use vstd::prelude::*;
use vstd::utf8::{decode_utf8, encode_utf8, valid_utf8};

use crate::error::DecryptError;

verus! {

/// `base64::DecodeError`: why the decoder refused a text. Nothing is read
/// from it.
#[verifier::external_type_specification]
#[verifier::external_body]
pub struct ExDecodeError(base64::DecodeError);

/// `std::string::FromUtf8Error`: where bytes stopped being UTF-8. Nothing is
/// read from it.
#[verifier::external_type_specification]
#[verifier::external_body]
pub struct ExFromUtf8Error(std::string::FromUtf8Error);

/// A character of the standard base64 alphabet, or the padding sign.
pub open spec fn is_base64_symbol(c: char) -> bool {
    ||| 'A' <= c <= 'Z'
    ||| 'a' <= c <= 'z'
    ||| '0' <= c <= '9'
    ||| c == '+'
    ||| c == '/'
    ||| c == '='
}

/// Text made of nothing but base64 symbols.
pub open spec fn all_base64_symbols(text: Seq<char>) -> bool {
    forall|i: int| 0 <= i < text.len() ==> is_base64_symbol(#[trigger] text[i])
}

/// What the `base64` crate's standard engine (standard alphabet, canonical
/// padding required) decodes a text to, and `None` where it refuses the text.
pub uninterp spec fn base64_standard_decode(text: Seq<char>) -> Option<Seq<u8>>;

/// The bytes that a base64 text stands for. Text with a character outside
/// the alphabet stands for none; of other text the decoder decides.
pub open spec fn decoded_bytes(text: Seq<char>) -> Option<Seq<u8>> {
    if all_base64_symbols(text) {
        base64_standard_decode(text)
    } else {
        None
    }
}

/// Calls `base64::Engine::decode` on `base64::engine::general_purpose::STANDARD`.
///
/// Not proved: that the call succeeds exactly where [`base64_standard_decode`]
/// is `Some`, then with those bytes, and that it refuses every text that holds
/// a character which is neither in the alphabet nor the padding sign.
#[verifier::external_body]
pub(crate) fn base64_decode(text: &str) -> (decoded: Result<Vec<u8>, base64::DecodeError>)
    ensures
        decoded is Ok <==> base64_standard_decode(text@) is Some,
        decoded matches Ok(bytes) ==> base64_standard_decode(text@) == Some(bytes@),
        decoded is Ok ==> all_base64_symbols(text@),
{
    base64::Engine::decode(&base64::engine::general_purpose::STANDARD, text)
}

/// The contract of `String::from_utf8`.
///
/// Not proved: that it succeeds on well-formed UTF-8 and on nothing else, and
/// that the string then holds the characters which the bytes encode.
pub assume_specification[ String::from_utf8 ](bytes: Vec<u8>) -> (text: Result<
    String,
    std::string::FromUtf8Error,
>)
    ensures
        text is Ok <==> valid_utf8(bytes@),
        text matches Ok(s) ==> s@ == decode_utf8(bytes@),
;

/// Decodes the base64 text of an envelope into its bytes.
pub fn decode_envelope_text(text: &str) -> (decoded: Result<Vec<u8>, DecryptError>)
    ensures
        decoded is Ok <==> decoded_bytes(text@) is Some,
        decoded matches Ok(bytes) ==> decoded_bytes(text@) == Some(bytes@),
        decoded matches Err(refusal) ==> refusal == DecryptError::Encoding,
{
    match base64_decode(text) {
        Ok(bytes) => Ok(bytes),
        Err(_) => Err(DecryptError::Encoding),
    }
}

/// Reads opened bytes as UTF-8 text.
pub fn plaintext_to_string(plain: Vec<u8>) -> (text: Result<String, DecryptError>)
    ensures
        text is Ok <==> valid_utf8(plain@),
        text matches Ok(s) ==> s@ == decode_utf8(plain@) && encode_utf8(s@) == plain@,
        text matches Err(refusal) ==> refusal == DecryptError::Encoding,
{
    proof {
        if valid_utf8(plain@) {
            vstd::utf8::decode_utf8_encode_utf8(plain@);
        }
    }
    match String::from_utf8(plain) {
        Ok(s) => Ok(s),
        Err(_) => Err(DecryptError::Encoding),
    }
}

} // verus!
