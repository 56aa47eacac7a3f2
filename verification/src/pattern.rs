use vstd::prelude::*;

verus! {

use crate::errors::ToolError;
use crate::textutil::has_char;

/// One match found in the input text: the matched text and its byte span.
pub struct MatchRecord {
    /// The text of the match.
    pub text: String,
    /// Byte offset where the match begins.
    pub start: usize,
    /// Byte offset one past where the match ends.
    pub end: usize,
}

/// The outcome of a pattern search: every non-overlapping match in order,
/// the total count, and whether there was at least one match.
pub struct MatchOutcome {
    /// The matches, left to right.
    pub matches: Vec<MatchRecord>,
    /// How many matches were found.
    pub count: usize,
    /// Whether at least one match was found.
    pub is_match: bool,
}

/// Whether a pattern compiles under the given flags (case-insensitive,
/// multi-line, dot-matches-newline).
pub uninterp spec fn pattern_ok(p: Seq<char>, ci: bool, ml: bool, dn: bool) -> bool;

/// The non-overlapping matches a compiled pattern finds in a text, left to
/// right: for each, the matched text and its starting and ending byte
/// offsets.
pub uninterp spec fn pattern_found(
    p: Seq<char>,
    ci: bool,
    ml: bool,
    dn: bool,
    text: Seq<char>,
) -> Seq<(Seq<char>, int, int)>;

/// Whether an outcome reports exactly the given found matches.
pub open spec fn outcome_reports(o: MatchOutcome, found: Seq<(Seq<char>, int, int)>) -> bool {
    &&& o.matches@.len() == found.len()
    &&& forall|i: int|
        0 <= i < found.len() ==> {
            &&& (#[trigger] o.matches@[i]).text@ == found[i].0
            &&& o.matches@[i].start as int == found[i].1
            &&& o.matches@[i].end as int == found[i].2
        }
    &&& o.count == found.len()
    &&& o.is_match == (found.len() > 0)
}

/// Relies on `regex::RegexBuilder` (`case_insensitive`, `multi_line`,
/// `dot_matches_new_line`, `build`) and `regex::Regex::find_iter`: the
/// iterator yields successive non-overlapping matches in order of increasing
/// byte position, each with its matched text and byte span. The error
/// message is the compiler's diagnostic.
#[verifier::external_body]
fn regex_search(p: &str, ci: bool, ml: bool, dn: bool, text: &str) -> (r: Result<
    Vec<(String, usize, usize)>,
    String,
>)
    ensures
        r is Ok <==> pattern_ok(p@, ci, ml, dn),
        r matches Ok(v) ==> {
            let found = pattern_found(p@, ci, ml, dn, text@);
            &&& v@.len() == found.len()
            &&& forall|i: int|
                0 <= i < found.len() ==> {
                    &&& (#[trigger] v@[i]).0@ == found[i].0
                    &&& v@[i].1 as int == found[i].1
                    &&& v@[i].2 as int == found[i].2
                }
            &&& forall|i: int| 0 <= i < v@.len() ==> (#[trigger] v@[i]).1 <= v@[i].2
            &&& forall|i: int, j: int|
                0 <= i < j < v@.len() ==> (#[trigger] v@[i]).2 <= (#[trigger] v@[j]).1
        },
{
    let mut builder = regex::RegexBuilder::new(p);
    builder.case_insensitive(ci);
    builder.multi_line(ml);
    builder.dot_matches_new_line(dn);
    match builder.build() {
        Ok(re) => Ok(
            re.find_iter(text).map(|m| (m.as_str().to_string(), m.start(), m.end())).collect(),
        ),
        Err(e) => Err(e.to_string()),
    }
}

/// Compile `pattern` — case-insensitively when `flags` contains `'i'`, with
/// multi-line anchoring when it contains `'m'`, with dot matching newlines
/// when it contains `'s'`; other flag characters are ignored — and scan
/// `text` for every non-overlapping match, left to right. Fails with
/// `PatternCompileError` exactly when the pattern does not compile.
pub fn test_regex(pattern: &str, text: &str, flags: &str) -> (r: Result<MatchOutcome, ToolError>)
    ensures
        ({
            let ci = flags@.contains('i');
            let ml = flags@.contains('m');
            let dn = flags@.contains('s');
            &&& (r is Ok <==> pattern_ok(pattern@, ci, ml, dn))
            &&& (r matches Err(e) ==> e is PatternCompileError)
            &&& (r matches Ok(o) ==> outcome_reports(o, pattern_found(pattern@, ci, ml, dn, text@)))
        }),
{
    let ci = has_char(flags, 'i');
    let ml = has_char(flags, 'm');
    let dn = has_char(flags, 's');
    let found: Vec<(String, usize, usize)> = match regex_search(pattern, ci, ml, dn, text) {
        Ok(v) => v,
        Err(msg) => {
            return Err(ToolError::PatternCompileError(msg));
        },
    };
    let ghost found_spec = pattern_found(pattern@, ci, ml, dn, text@);
    let mut records: Vec<MatchRecord> = Vec::new();
    let mut i: usize = 0;
    while i < found.len()
        invariant
            found@.len() == found_spec.len(),
            forall|j: int|
                0 <= j < found_spec.len() ==> {
                    &&& (#[trigger] found@[j]).0@ == found_spec[j].0
                    &&& found@[j].1 as int == found_spec[j].1
                    &&& found@[j].2 as int == found_spec[j].2
                },
            i <= found@.len(),
            records@.len() == i,
            forall|j: int|
                0 <= j < i ==> {
                    &&& (#[trigger] records@[j]).text@ == found_spec[j].0
                    &&& records@[j].start as int == found_spec[j].1
                    &&& records@[j].end as int == found_spec[j].2
                },
        decreases found@.len() - i,
    {
        let entry = &found[i];
        records.push(MatchRecord { text: entry.0.clone(), start: entry.1, end: entry.2 });
        i += 1;
    }
    let count = records.len();
    let is_match = count > 0;
    Ok(MatchOutcome { matches: records, count, is_match })
}

} // verus!
