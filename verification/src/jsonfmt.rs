use vstd::prelude::*;

verus! {

use crate::errors::ToolError;

/// The pretty-printed (multi-line, indented) serialization of the
/// structured-data document held in a text, or nothing when the text is not
/// a well-formed document.
pub uninterp spec fn json_pretty_of(s: Seq<char>) -> Option<Seq<char>>;

/// The minified (no insignificant whitespace) serialization of the
/// structured-data document held in a text, or nothing when the text is not
/// a well-formed document. Two texts hold equal document trees exactly when
/// their minified serializations are equal, so this also serves as the
/// canonical form of a document.
pub uninterp spec fn json_min_of(s: Seq<char>) -> Option<Seq<char>>;

/// Relies on `serde_json::from_str::<serde_json::Value>` and
/// `serde_json::to_string_pretty`: serializing a `Value` cannot fail, the
/// output parses back to the same `Value`, and hence has the same minified
/// form as the input. The error message is the parser's diagnostic.
#[verifier::external_body]
fn pretty_json_str(s: &str) -> (r: Result<String, String>)
    ensures
        r is Ok <==> json_pretty_of(s@) is Some,
        r is Ok <==> json_min_of(s@) is Some,
        r matches Ok(t) ==> json_pretty_of(s@) == Some(t@),
        r matches Ok(t) ==> json_min_of(t@) == json_min_of(s@),
{
    match serde_json::from_str::<serde_json::Value>(s) {
        Ok(v) => match serde_json::to_string_pretty(&v) {
            Ok(t) => Ok(t),
            Err(e) => Err(e.to_string()),
        },
        Err(e) => Err(e.to_string()),
    }
}

/// Relies on `serde_json::from_str::<serde_json::Value>` and
/// `serde_json::to_string`: serializing a `Value` cannot fail, the output
/// parses back to the same `Value`, and minifying an already minified text
/// returns it unchanged. The error message is the parser's diagnostic.
#[verifier::external_body]
fn minify_json_str(s: &str) -> (r: Result<String, String>)
    ensures
        r is Ok <==> json_min_of(s@) is Some,
        r matches Ok(t) ==> json_min_of(s@) == Some(t@),
        r matches Ok(t) ==> json_min_of(t@) == Some(t@),
{
    match serde_json::from_str::<serde_json::Value>(s) {
        Ok(v) => match serde_json::to_string(&v) {
            Ok(t) => Ok(t),
            Err(e) => Err(e.to_string()),
        },
        Err(e) => Err(e.to_string()),
    }
}

/// Parse `input` as a structured-data document and re-serialize it with a
/// multi-line, indented layout. Fails with `ParseError` exactly when `input`
/// is not well-formed; on success the output holds the same document tree as
/// the input (their minified forms are equal).
pub fn format_json(input: &str) -> (r: Result<String, ToolError>)
    ensures
        r is Ok <==> json_min_of(input@) is Some,
        r matches Ok(t) ==> json_pretty_of(input@) == Some(t@),
        r matches Ok(t) ==> json_min_of(t@) == json_min_of(input@),
        r matches Err(e) ==> e is ParseError,
{
    match pretty_json_str(input) {
        Ok(text) => Ok(text),
        Err(msg) => Err(ToolError::ParseError(msg)),
    }
}

/// Parse `input` as a structured-data document and re-serialize it with no
/// insignificant whitespace. Fails with `ParseError` exactly when `input` is
/// not well-formed; on success the output holds the same document tree as
/// the input (its minified form is the output itself).
pub fn minify_json(input: &str) -> (r: Result<String, ToolError>)
    ensures
        r is Ok <==> json_min_of(input@) is Some,
        r matches Ok(t) ==> json_min_of(input@) == Some(t@),
        r matches Ok(t) ==> json_min_of(t@) == json_min_of(input@),
        r matches Err(e) ==> e is ParseError,
{
    match minify_json_str(input) {
        Ok(text) => Ok(text),
        Err(msg) => Err(ToolError::ParseError(msg)),
    }
}

} // verus!
