use vstd::prelude::*;

verus! {

use crate::errors::ToolError;

/// The percent-encoding of a text: every byte outside the unreserved set
/// (alphanumerics and `-`, `_`, `.`, `~`) written as `%XX`.
pub uninterp spec fn url_encoded(s: Seq<char>) -> Seq<char>;

/// What percent-decoding returns on a text: the decoded text, or nothing
/// when the decoded bytes are not valid UTF-8.
pub uninterp spec fn url_decoded(s: Seq<char>) -> Option<Seq<char>>;

/// Relies on `urlencoding::encode`: percent-encodes every byte outside the
/// unreserved set, and `urlencoding::decode` of the result restores the
/// input.
#[verifier::external_body]
fn url_encode_str(s: &str) -> (r: String)
    ensures
        r@ == url_encoded(s@),
        url_decoded(r@) == Some(s@),
{
    urlencoding::encode(s).into_owned()
}

/// Relies on `urlencoding::decode`: succeeds exactly when the decoded bytes
/// are valid UTF-8; the error message is the library's diagnostic.
#[verifier::external_body]
fn url_decode_str(s: &str) -> (r: Result<String, String>)
    ensures
        r is Ok <==> url_decoded(s@) is Some,
        r matches Ok(t) ==> url_decoded(s@) == Some(t@),
{
    match urlencoding::decode(s) {
        Ok(t) => Ok(t.into_owned()),
        Err(e) => Err(e.to_string()),
    }
}

/// Percent-encode `input`. Never fails, and decoding the result restores
/// `input`.
pub fn encode_url(input: &str) -> (r: String)
    ensures
        r@ == url_encoded(input@),
        url_decoded(r@) == Some(input@),
{
    url_encode_str(input)
}

/// Percent-decode `input`. Fails with `UrlDecodeError` when the decoded
/// bytes are not valid text.
pub fn decode_url(input: &str) -> (r: Result<String, ToolError>)
    ensures
        r is Ok <==> url_decoded(input@) is Some,
        r matches Ok(t) ==> url_decoded(input@) == Some(t@),
        r matches Err(e) ==> e is UrlDecodeError,
{
    match url_decode_str(input) {
        Ok(text) => Ok(text),
        Err(msg) => Err(ToolError::UrlDecodeError(msg)),
    }
}

/// Law: decoding the percent-encoding of any text succeeds and yields the
/// text itself.
pub fn url_round_trip(s: &str) -> (r: Result<String, ToolError>)
    ensures
        r matches Ok(t) && t@ == s@,
{
    let encoded = encode_url(s);
    decode_url(encoded.as_str())
}

} // verus!
