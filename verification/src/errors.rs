use vstd::prelude::*;

verus! {

/// The failure cases of the operations library. Every failure is local to a
/// single call and carries a human-readable message; where an underlying
/// library produced a diagnostic, the message holds that diagnostic.
#[derive(Debug)]
pub enum ToolError {
    /// The input is not a well-formed structured-data document.
    ParseError(String),
    /// The input is not valid standard Base64.
    Base64DecodeError(String),
    /// Decoded bytes are not valid text.
    EncodingError(String),
    /// A percent-escape sequence could not be decoded to text.
    UrlDecodeError(String),
    /// The timestamp lies outside the representable calendar range.
    InvalidTimestampError(String),
    /// The time unit is neither "seconds" nor "milliseconds".
    UnsupportedUnitError(String),
    /// The date string matches none of the accepted formats.
    DateParseError(String),
    /// The regular-expression pattern does not compile.
    PatternCompileError(String),
    /// The hash algorithm name is not in the supported set.
    UnsupportedAlgorithmError(String),
}

impl ToolError {
    /// The message carried by this error, as a sequence of characters.
    pub open spec fn message_view(self) -> Seq<char> {
        match self {
            ToolError::ParseError(m) => m@,
            ToolError::Base64DecodeError(m) => m@,
            ToolError::EncodingError(m) => m@,
            ToolError::UrlDecodeError(m) => m@,
            ToolError::InvalidTimestampError(m) => m@,
            ToolError::UnsupportedUnitError(m) => m@,
            ToolError::DateParseError(m) => m@,
            ToolError::PatternCompileError(m) => m@,
            ToolError::UnsupportedAlgorithmError(m) => m@,
        }
    }

    /// The human-readable message carried by this error.
    pub fn message(&self) -> (r: &String)
        ensures
            r@ == self.message_view(),
    {
        match self {
            ToolError::ParseError(m) => m,
            ToolError::Base64DecodeError(m) => m,
            ToolError::EncodingError(m) => m,
            ToolError::UrlDecodeError(m) => m,
            ToolError::InvalidTimestampError(m) => m,
            ToolError::UnsupportedUnitError(m) => m,
            ToolError::DateParseError(m) => m,
            ToolError::PatternCompileError(m) => m,
            ToolError::UnsupportedAlgorithmError(m) => m,
        }
    }
}

} // verus!
