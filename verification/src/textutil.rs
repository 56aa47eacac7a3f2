use vstd::prelude::*;

verus! {

use vstd::string::StrSliceExecFns;
use vstd::string::StringSliceAdditionalSpecFns;

/// A lowercase hexadecimal digit.
pub open spec fn is_hex_lower(c: char) -> bool {
    ('0' <= c && c <= '9') || ('a' <= c && c <= 'f')
}

/// What `String::from_utf8` returns on a byte sequence: the decoded text,
/// or nothing when the bytes are not valid UTF-8.
pub uninterp spec fn utf8_decoded(b: Seq<u8>) -> Option<Seq<char>>;

/// Relies on `str::as_bytes` and `String::from_utf8`: a `str`'s UTF-8 bytes
/// are valid UTF-8 and decode back to the same text.
#[verifier::external_body]
pub(crate) fn str_bytes(s: &str) -> (r: Vec<u8>)
    ensures
        r@ == s.spec_bytes(),
        utf8_decoded(r@) == Some(s@),
{
    s.as_bytes().to_vec()
}

/// Relies on `String::from_utf8`: succeeds exactly on valid UTF-8 and returns
/// the decoded text; the error message is the library's diagnostic.
#[verifier::external_body]
pub(crate) fn bytes_to_string(b: Vec<u8>) -> (r: Result<String, String>)
    ensures
        r is Ok <==> utf8_decoded(b@) is Some,
        r matches Ok(t) ==> utf8_decoded(b@) == Some(t@),
{
    match String::from_utf8(b) {
        Ok(t) => Ok(t),
        Err(e) => Err(e.to_string()),
    }
}

/// Whether two string slices hold the same characters.
pub fn str_eq(a: &str, b: &str) -> (r: bool)
    ensures
        r == (a@ == b@),
{
    let an = a.unicode_len();
    let bn = b.unicode_len();
    if an != bn {
        return false;
    }
    let mut i: usize = 0;
    while i < an
        invariant
            an == a@.len(),
            bn == b@.len(),
            an == bn,
            i <= an,
            forall|j: int| 0 <= j < i ==> a@[j] == b@[j],
        decreases an - i,
    {
        if a.get_char(i) != b.get_char(i) {
            return false;
        }
        i += 1;
    }
    proof {
        assert(a@ =~= b@);
    }
    true
}

/// Whether `s` contains the character `c`.
pub fn has_char(s: &str, c: char) -> (r: bool)
    ensures
        r == s@.contains(c),
{
    let n = s.unicode_len();
    let mut i: usize = 0;
    while i < n
        invariant
            n == s@.len(),
            i <= n,
            forall|j: int| 0 <= j < i ==> s@[j] != c,
        decreases n - i,
    {
        if s.get_char(i) == c {
            proof {
                assert(s@[i as int] == c);
            }
            return true;
        }
        i += 1;
    }
    false
}

} // verus!
