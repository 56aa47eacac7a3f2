use vstd::prelude::*;
use chrono::TimeZone;

verus! {

use crate::errors::ToolError;
use crate::textutil::str_eq;
use vstd::string::StringExecFns;

/// The bound chrono's calendar places on a second count: its years span
/// -262144..=262142, under 1.1e13 seconds away from the epoch either way.
pub open spec fn calendar_secs_bound(t: int) -> bool {
    -20_000_000_000_000 < t < 20_000_000_000_000
}

/// The text `YYYY-MM-DD HH:MM:SS UTC` for the instant `t` seconds after the
/// epoch, or nothing when the instant lies outside the representable
/// calendar range.
pub uninterp spec fn utc_of_secs(t: int) -> Option<Seq<char>>;

/// The text `YYYY-MM-DD HH:MM:SS UTC` for the instant `t` milliseconds after
/// the epoch, or nothing when the instant lies outside the representable
/// calendar range.
pub uninterp spec fn utc_of_millis(t: int) -> Option<Seq<char>>;

/// The seconds since the epoch of midnight UTC on the calendar date a text
/// holds, or nothing when the text is not a bare date.
pub uninterp spec fn date_secs(s: Seq<char>) -> Option<int>;

/// The seconds since the epoch of the instant a `YYYY-MM-DD HH:MM:SS` text
/// holds, read as UTC, or nothing when the text does not match that format.
pub uninterp spec fn datetime_secs(s: Seq<char>) -> Option<int>;

/// The seconds value `date_str` denotes: first read as a bare date (midnight
/// UTC), and only if that fails as a full `YYYY-MM-DD HH:MM:SS` timestamp.
pub open spec fn parsed_secs(s: Seq<char>) -> Option<int> {
    if date_secs(s) is Some {
        date_secs(s)
    } else {
        datetime_secs(s)
    }
}

/// Relies on chrono's `Utc.timestamp_opt` and `DateTime::format` with
/// `"%Y-%m-%d %H:%M:%S UTC"`: a single instant exists exactly when the
/// second count is within chrono's calendar range.
#[verifier::external_body]
fn format_secs(t: i64) -> (r: Option<String>)
    ensures
        r is Some <==> utc_of_secs(t as int) is Some,
        r matches Some(d) ==> utc_of_secs(t as int) == Some(d@),
{
    match chrono::Utc.timestamp_opt(t, 0) {
        chrono::LocalResult::Single(dt) => Some(dt.format("%Y-%m-%d %H:%M:%S UTC").to_string()),
        _ => None,
    }
}

/// Relies on chrono's `Utc.timestamp_millis_opt` and `DateTime::format` with
/// `"%Y-%m-%d %H:%M:%S UTC"`: a single instant exists exactly when the
/// millisecond count is within chrono's calendar range.
#[verifier::external_body]
fn format_millis(t: i64) -> (r: Option<String>)
    ensures
        r is Some <==> utc_of_millis(t as int) is Some,
        r matches Some(d) ==> utc_of_millis(t as int) == Some(d@),
{
    match chrono::Utc.timestamp_millis_opt(t) {
        chrono::LocalResult::Single(dt) => Some(dt.format("%Y-%m-%d %H:%M:%S UTC").to_string()),
        _ => None,
    }
}

/// Relies on chrono's `DateTime::parse_from_rfc3339` applied to
/// `"{s}T00:00:00Z"` and on `DateTime::timestamp`; chrono's years span
/// -262144..=262142, so the count stays within the calendar bound.
#[verifier::external_body]
fn parse_date_secs(s: &str) -> (r: Option<i64>)
    ensures
        r is Some <==> date_secs(s@) is Some,
        r matches Some(t) ==> date_secs(s@) == Some(t as int) && calendar_secs_bound(t as int),
{
    match chrono::DateTime::parse_from_rfc3339(&format!("{}T00:00:00Z", s)) {
        Ok(dt) => Some(dt.with_timezone(&chrono::Utc).timestamp()),
        Err(_) => None,
    }
}

/// Relies on chrono's `NaiveDateTime::parse_from_str` with
/// `"%Y-%m-%d %H:%M:%S"`, the parsed value read as UTC, and on
/// `DateTime::timestamp`; chrono's years span -262144..=262142, so the count
/// stays within the calendar bound. The error message is the parser's
/// diagnostic.
#[verifier::external_body]
fn parse_datetime_secs(s: &str) -> (r: Result<i64, String>)
    ensures
        r is Ok <==> datetime_secs(s@) is Some,
        r matches Ok(t) ==> datetime_secs(s@) == Some(t as int) && calendar_secs_bound(t as int),
{
    match chrono::NaiveDateTime::parse_from_str(s, "%Y-%m-%d %H:%M:%S") {
        Ok(ndt) => Ok(chrono::Utc.from_utc_datetime(&ndt).timestamp()),
        Err(e) => Err(e.to_string()),
    }
}

/// Convert an integer timestamp, read in the given unit since the epoch,
/// into the fixed-format text `YYYY-MM-DD HH:MM:SS UTC`. Fails with
/// `UnsupportedUnitError` when `unit` is neither `"seconds"` nor
/// `"milliseconds"`, and with `InvalidTimestampError` when the instant lies
/// outside the representable calendar range.
pub fn timestamp_to_date(timestamp: i64, unit: &str) -> (r: Result<String, ToolError>)
    ensures
        unit@ == "seconds"@ ==> {
            &&& r is Ok <==> utc_of_secs(timestamp as int) is Some
            &&& (r matches Ok(d) ==> utc_of_secs(timestamp as int) == Some(d@))
            &&& (r matches Err(e) ==> e is InvalidTimestampError)
        },
        unit@ == "milliseconds"@ ==> {
            &&& r is Ok <==> utc_of_millis(timestamp as int) is Some
            &&& (r matches Ok(d) ==> utc_of_millis(timestamp as int) == Some(d@))
            &&& (r matches Err(e) ==> e is InvalidTimestampError)
        },
        unit@ != "seconds"@ && unit@ != "milliseconds"@ ==> (
            r matches Err(e) && e is UnsupportedUnitError
        ),
{
    proof {
        reveal_strlit("seconds");
        reveal_strlit("milliseconds");
        assert("seconds"@.len() == 7);
        assert("milliseconds"@.len() == 12);
        assert("seconds"@ != "milliseconds"@);
    }
    if str_eq(unit, "seconds") {
        match format_secs(timestamp) {
            Some(d) => Ok(d),
            None => Err(ToolError::InvalidTimestampError(String::from_str("invalid timestamp"))),
        }
    } else if str_eq(unit, "milliseconds") {
        match format_millis(timestamp) {
            Some(d) => Ok(d),
            None => Err(ToolError::InvalidTimestampError(String::from_str("invalid timestamp"))),
        }
    } else {
        Err(ToolError::UnsupportedUnitError(String::from_str("unsupported time unit")))
    }
}

/// Convert a date text into an integer timestamp in the given unit. The text
/// is first read as a bare date (midnight UTC), and only if that fails as a
/// full `YYYY-MM-DD HH:MM:SS` timestamp read as UTC. Fails with
/// `DateParseError` when neither format matches — whatever the unit — and
/// otherwise with `UnsupportedUnitError` when `unit` is neither `"seconds"`
/// nor `"milliseconds"`.
pub fn date_to_timestamp(date_str: &str, unit: &str) -> (r: Result<i64, ToolError>)
    ensures
        parsed_secs(date_str@) is None ==> (r matches Err(e) && e is DateParseError),
        parsed_secs(date_str@) is Some && unit@ == "seconds"@ ==> (
            r matches Ok(t) && Some(t as int) == parsed_secs(date_str@)
        ),
        parsed_secs(date_str@) is Some && unit@ == "milliseconds"@ ==> (
            r matches Ok(t) && Some(t as int) == Some(parsed_secs(date_str@)->0 * 1000)
        ),
        parsed_secs(date_str@) is Some && unit@ != "seconds"@ && unit@ != "milliseconds"@ ==> (
            r matches Err(e) && e is UnsupportedUnitError
        ),
{
    proof {
        reveal_strlit("seconds");
        reveal_strlit("milliseconds");
        assert("seconds"@.len() == 7);
        assert("milliseconds"@.len() == 12);
        assert("seconds"@ != "milliseconds"@);
    }
    let secs: i64 = match parse_date_secs(date_str) {
        Some(t) => t,
        None => match parse_datetime_secs(date_str) {
            Ok(t) => t,
            Err(msg) => {
                return Err(ToolError::DateParseError(msg));
            },
        },
    };
    if str_eq(unit, "seconds") {
        Ok(secs)
    } else if str_eq(unit, "milliseconds") {
        Ok(secs * 1000)
    } else {
        Err(ToolError::UnsupportedUnitError(String::from_str("unsupported time unit")))
    }
}

} // verus!
