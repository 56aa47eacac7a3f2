use vstd::prelude::*;
use sha2::Digest;

verus! {

use crate::errors::ToolError;
use crate::textutil::{is_hex_lower, str_bytes, str_eq};
use vstd::string::StringExecFns;
use vstd::string::StringSliceAdditionalSpecFns;

/// What `str::to_lowercase` returns: the lowercase form of a text, a
/// function of its characters alone.
pub uninterp spec fn lower_of(s: Seq<char>) -> Seq<char>;

/// The 128-bit MD5 digest of a byte sequence, as 32 lowercase hexadecimal
/// characters.
pub uninterp spec fn md5_hex(b: Seq<u8>) -> Seq<char>;

/// The 256-bit SHA-256 digest of a byte sequence, as 64 lowercase
/// hexadecimal characters.
pub uninterp spec fn sha256_hex(b: Seq<u8>) -> Seq<char>;

/// Relies on `str::to_lowercase`: the result depends on the characters
/// alone.
#[verifier::external_body]
fn to_lower(s: &str) -> (r: String)
    ensures
        r@ == lower_of(s@),
{
    s.to_lowercase()
}

/// Relies on `md5::compute` and the `LowerHex` of its digest: each of the 16
/// digest bytes printed as two lowercase hexadecimal characters.
#[verifier::external_body]
fn md5_hex_str(b: &[u8]) -> (r: String)
    ensures
        r@ == md5_hex(b@),
        r@.len() == 32,
        forall|i: int| 0 <= i < r@.len() ==> is_hex_lower(#[trigger] r@[i]),
{
    format!("{:x}", md5::compute(b))
}

/// Relies on `sha2::Sha256` (`new`, `update`, `finalize`) and the `LowerHex`
/// of its output: each of the 32 digest bytes printed as two lowercase
/// hexadecimal characters.
#[verifier::external_body]
fn sha256_hex_str(b: &[u8]) -> (r: String)
    ensures
        r@ == sha256_hex(b@),
        r@.len() == 64,
        forall|i: int| 0 <= i < r@.len() ==> is_hex_lower(#[trigger] r@[i]),
{
    let mut hasher = sha2::Sha256::new();
    hasher.update(b);
    format!("{:x}", hasher.finalize())
}

/// Compute the digest of the raw bytes of `input` under the named algorithm
/// and return it as lowercase hexadecimal. The algorithm name is matched
/// case-insensitively against `"md5"` and `"sha256"`; any other name fails
/// with `UnsupportedAlgorithmError`.
pub fn calculate_hash(input: &str, algorithm: &str) -> (r: Result<String, ToolError>)
    ensures
        lower_of(algorithm@) == "md5"@ ==> (
            r matches Ok(d) && d@ == md5_hex(input.spec_bytes()) && d@.len() == 32
        ),
        lower_of(algorithm@) == "sha256"@ ==> (
            r matches Ok(d) && d@ == sha256_hex(input.spec_bytes()) && d@.len() == 64
        ),
        lower_of(algorithm@) != "md5"@ && lower_of(algorithm@) != "sha256"@ ==> (
            r matches Err(e) && e is UnsupportedAlgorithmError
        ),
        r matches Ok(d) ==> forall|i: int| 0 <= i < d@.len() ==> is_hex_lower(#[trigger] d@[i]),
{
    proof {
        reveal_strlit("md5");
        reveal_strlit("sha256");
        assert("md5"@.len() == 3);
        assert("sha256"@.len() == 6);
        assert("md5"@ != "sha256"@);
    }
    let lower = to_lower(algorithm);
    if str_eq(lower.as_str(), "md5") {
        let bytes = str_bytes(input);
        Ok(md5_hex_str(bytes.as_slice()))
    } else if str_eq(lower.as_str(), "sha256") {
        let bytes = str_bytes(input);
        Ok(sha256_hex_str(bytes.as_slice()))
    } else {
        Err(ToolError::UnsupportedAlgorithmError(String::from_str("unsupported hash algorithm")))
    }
}

} // verus!
