use vstd::prelude::*;
use base64::Engine;

verus! {

use crate::errors::ToolError;
use crate::textutil::{str_bytes, bytes_to_string, utf8_decoded};
use vstd::string::StringSliceAdditionalSpecFns;

/// The standard, padded Base64 encoding of a byte sequence.
pub uninterp spec fn b64_of(b: Seq<u8>) -> Seq<char>;

/// What standard Base64 decoding returns on a character sequence: the decoded
/// bytes, or nothing when the input is not well-formed Base64.
pub uninterp spec fn b64_decoded(s: Seq<char>) -> Option<Seq<u8>>;

/// Relies on `base64::engine::general_purpose::STANDARD.encode` (standard
/// alphabet, padded): decoding the encoding gives back the input bytes.
#[verifier::external_body]
fn b64_encode_bytes(b: &[u8]) -> (r: String)
    ensures
        r@ == b64_of(b@),
        b64_decoded(r@) == Some(b@),
{
    base64::engine::general_purpose::STANDARD.encode(b)
}

/// Relies on `base64::engine::general_purpose::STANDARD.decode`: succeeds
/// exactly on well-formed standard Base64; the error message is the
/// library's diagnostic.
#[verifier::external_body]
fn b64_decode_str(s: &str) -> (r: Result<Vec<u8>, String>)
    ensures
        r is Ok <==> b64_decoded(s@) is Some,
        r matches Ok(b) ==> b64_decoded(s@) == Some(b@),
{
    match base64::engine::general_purpose::STANDARD.decode(s) {
        Ok(b) => Ok(b),
        Err(e) => Err(e.to_string()),
    }
}

/// Base64-encode the UTF-8 bytes of `input` (standard alphabet, with
/// padding). Never fails, and decoding the result restores `input`.
pub fn encode_base64(input: &str) -> (r: String)
    ensures
        r@ == b64_of(input.spec_bytes()),
        b64_decoded(r@) == Some(input.spec_bytes()),
        utf8_decoded(input.spec_bytes()) == Some(input@),
{
    let b = str_bytes(input);
    b64_encode_bytes(b.as_slice())
}

/// Decode `input` from standard Base64 and interpret the decoded bytes as
/// UTF-8 text. Fails with `Base64DecodeError` when `input` is not
/// well-formed Base64, and with `EncodingError` when the decoded bytes are
/// not valid text.
pub fn decode_base64(input: &str) -> (r: Result<String, ToolError>)
    ensures
        r is Ok <==> b64_decoded(input@) is Some && utf8_decoded(b64_decoded(input@)->0) is Some,
        r matches Ok(t) ==> utf8_decoded(b64_decoded(input@)->0) == Some(t@),
        b64_decoded(input@) is None ==> (r matches Err(e) && e is Base64DecodeError),
        b64_decoded(input@) is Some && utf8_decoded(b64_decoded(input@)->0) is None ==> (
            r matches Err(e) && e is EncodingError
        ),
{
    match b64_decode_str(input) {
        Ok(bytes) => match bytes_to_string(bytes) {
            Ok(text) => Ok(text),
            Err(msg) => Err(ToolError::EncodingError(msg)),
        },
        Err(msg) => Err(ToolError::Base64DecodeError(msg)),
    }
}

/// Law: decoding the Base64 encoding of any text succeeds and yields the
/// text itself.
pub fn base64_round_trip(s: &str) -> (r: Result<String, ToolError>)
    ensures
        r matches Ok(t) && t@ == s@,
{
    let encoded = encode_base64(s);
    decode_base64(encoded.as_str())
}

} // verus!
