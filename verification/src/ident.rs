use vstd::prelude::*;

verus! {

use crate::textutil::is_hex_lower;

/// The shape of a hyphenated version-4 identifier: 36 characters, lowercase
/// hexadecimal digits in five groups of 8, 4, 4, 4 and 12, separated by
/// dashes at fixed positions, with the version nibble `4` and a variant
/// nibble in `8`..`b`.
pub open spec fn is_uuid_v4_text(s: Seq<char>) -> bool {
    &&& s.len() == 36
    &&& forall|i: int|
        0 <= i < 36 ==> if i == 8 || i == 13 || i == 18 || i == 23 {
            (#[trigger] s[i]) == '-'
        } else {
            is_hex_lower(s[i])
        }
    &&& s[14] == '4'
    &&& (s[19] == '8' || s[19] == '9' || s[19] == 'a' || s[19] == 'b')
}

/// Relies on `uuid::Uuid::new_v4` and the `Display` of `Uuid`: a random
/// 128-bit identifier with the version and variant bits of a version-4
/// identifier, printed as the 36-character lowercase hyphenated form.
/// Nothing relates one call's result to another's.
#[verifier::external_body]
fn new_v4_text() -> (r: String)
    ensures
        is_uuid_v4_text(r@),
{
    uuid::Uuid::new_v4().to_string()
}

/// Generate a random version-4 identifier in the standard 8-4-4-4-12
/// lowercase hexadecimal grouping. Never fails; every result has the
/// version-4 shape, and no two calls are related by contract.
pub fn generate_uuid() -> (r: String)
    ensures
        is_uuid_v4_text(r@),
{
    new_v4_text()
}

} // verus!
