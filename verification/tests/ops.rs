use devutils::b64::{base64_round_trip, decode_base64, encode_base64};
use devutils::digest::calculate_hash;
use devutils::errors::ToolError;
use devutils::ident::generate_uuid;
use devutils::jsonfmt::{format_json, minify_json};
use devutils::pattern::test_regex;
use devutils::timeconv::{date_to_timestamp, timestamp_to_date};
use devutils::urlcodec::{decode_url, encode_url, url_round_trip};

#[test]
fn format_json_pretty_prints() {
    let out = format_json("{\"a\":1}").unwrap();
    assert_eq!(out, "{\n  \"a\": 1\n}");
}

#[test]
fn minify_json_strips_whitespace() {
    let out = minify_json(" { \"a\" : 1 , \"b\" : [ true , null ] } ").unwrap();
    assert_eq!(out, "{\"a\":1,\"b\":[true,null]}");
}

#[test]
fn format_then_reparse_keeps_tree() {
    let input = "{ \"b\": [1, 2, {\"c\": null}], \"a\": \"x\" }";
    let pretty = format_json(input).unwrap();
    assert_eq!(minify_json(&pretty).unwrap(), minify_json(input).unwrap());
    let min = minify_json(input).unwrap();
    assert_eq!(minify_json(&min).unwrap(), min);
}

#[test]
fn format_json_rejects_malformed() {
    assert!(matches!(format_json("{invalid"), Err(ToolError::ParseError(_))));
    assert!(matches!(minify_json("{invalid"), Err(ToolError::ParseError(_))));
}

#[test]
fn encode_base64_known_values() {
    assert_eq!(encode_base64("hello"), "aGVsbG8=");
    assert_eq!(encode_base64(""), "");
}

#[test]
fn decode_base64_known_value() {
    assert_eq!(decode_base64("aGVsbG8=").unwrap(), "hello");
}

#[test]
fn base64_round_trips() {
    assert_eq!(base64_round_trip("h\u{e9}llo \u{2713} world").unwrap(), "h\u{e9}llo \u{2713} world");
    let encoded = encode_base64("any text at all");
    assert_eq!(decode_base64(&encoded).unwrap(), "any text at all");
}

#[test]
fn decode_base64_rejects_bad_alphabet() {
    assert!(matches!(decode_base64("not-valid-base64!"), Err(ToolError::Base64DecodeError(_))));
}

#[test]
fn decode_base64_rejects_non_text_bytes() {
    assert!(matches!(decode_base64("/w=="), Err(ToolError::EncodingError(_))));
}

#[test]
fn encode_url_known_values() {
    assert_eq!(encode_url("hello world"), "hello%20world");
    assert_eq!(encode_url("abc-_.~"), "abc-_.~");
}

#[test]
fn decode_url_known_value() {
    assert_eq!(decode_url("hello%20world").unwrap(), "hello world");
}

#[test]
fn url_round_trips() {
    assert_eq!(url_round_trip("a b&c=d/\u{e9}?").unwrap(), "a b&c=d/\u{e9}?");
    let encoded = encode_url("100% sure?");
    assert_eq!(decode_url(&encoded).unwrap(), "100% sure?");
}

#[test]
fn decode_url_rejects_non_text_bytes() {
    assert!(matches!(decode_url("%ff"), Err(ToolError::UrlDecodeError(_))));
}

#[test]
fn timestamp_to_date_epoch_seconds() {
    assert_eq!(timestamp_to_date(0, "seconds").unwrap(), "1970-01-01 00:00:00 UTC");
}

#[test]
fn timestamp_to_date_milliseconds() {
    assert_eq!(timestamp_to_date(1000, "milliseconds").unwrap(), "1970-01-01 00:00:01 UTC");
}

#[test]
fn timestamp_to_date_modern_value() {
    assert_eq!(timestamp_to_date(1700000000, "seconds").unwrap(), "2023-11-14 22:13:20 UTC");
}

#[test]
fn timestamp_to_date_rejects_unit() {
    assert!(matches!(timestamp_to_date(0, "weeks"), Err(ToolError::UnsupportedUnitError(_))));
}

#[test]
fn timestamp_to_date_rejects_out_of_range() {
    assert!(matches!(
        timestamp_to_date(i64::MAX, "seconds"),
        Err(ToolError::InvalidTimestampError(_))
    ));
}

#[test]
fn date_to_timestamp_bare_date() {
    assert_eq!(date_to_timestamp("2024-01-01", "seconds").unwrap(), 1704067200);
    assert_eq!(date_to_timestamp("2024-01-01", "milliseconds").unwrap(), 1704067200000);
}

#[test]
fn date_to_timestamp_full_datetime() {
    assert_eq!(date_to_timestamp("2024-01-01 12:30:45", "seconds").unwrap(), 1704112245);
}

#[test]
fn date_to_timestamp_round_trips_with_formatting() {
    let secs = date_to_timestamp("2024-01-01 12:30:45", "seconds").unwrap();
    assert_eq!(timestamp_to_date(secs, "seconds").unwrap(), "2024-01-01 12:30:45 UTC");
}

#[test]
fn date_to_timestamp_rejects_malformed() {
    assert!(matches!(date_to_timestamp("notadate", "seconds"), Err(ToolError::DateParseError(_))));
}

#[test]
fn date_to_timestamp_rejects_unit() {
    assert!(matches!(
        date_to_timestamp("2024-01-01", "weeks"),
        Err(ToolError::UnsupportedUnitError(_))
    ));
}

#[test]
fn test_regex_finds_matches_in_order() {
    let outcome = test_regex("a+", "aaabaa", "").unwrap();
    assert_eq!(outcome.count, 2);
    assert!(outcome.is_match);
    assert_eq!(outcome.matches.len(), 2);
    assert_eq!(outcome.matches[0].text, "aaa");
    assert_eq!(outcome.matches[0].start, 0);
    assert_eq!(outcome.matches[0].end, 3);
    assert_eq!(outcome.matches[1].text, "aa");
    assert_eq!(outcome.matches[1].start, 4);
    assert_eq!(outcome.matches[1].end, 6);
}

#[test]
fn test_regex_rejects_bad_pattern() {
    assert!(matches!(test_regex("[", "x", ""), Err(ToolError::PatternCompileError(_))));
}

#[test]
fn test_regex_no_match() {
    let outcome = test_regex("z+", "aaabaa", "").unwrap();
    assert_eq!(outcome.count, 0);
    assert!(!outcome.is_match);
    assert!(outcome.matches.is_empty());
}

#[test]
fn test_regex_case_insensitive_flag() {
    assert!(!test_regex("abc", "ABC", "").unwrap().is_match);
    let outcome = test_regex("abc", "ABC", "i").unwrap();
    assert!(outcome.is_match);
    assert_eq!(outcome.matches[0].text, "ABC");
}

#[test]
fn test_regex_multi_line_flag() {
    assert!(!test_regex("^b$", "a\nb", "").unwrap().is_match);
    let outcome = test_regex("^b$", "a\nb", "m").unwrap();
    assert_eq!(outcome.count, 1);
    assert_eq!(outcome.matches[0].start, 2);
    assert_eq!(outcome.matches[0].end, 3);
}

#[test]
fn test_regex_dot_matches_newline_flag() {
    assert!(!test_regex("a.b", "a\nb", "").unwrap().is_match);
    assert!(test_regex("a.b", "a\nb", "s").unwrap().is_match);
}

#[test]
fn test_regex_ignores_unknown_flags() {
    let outcome = test_regex("a+", "aaa", "xyz").unwrap();
    assert_eq!(outcome.count, 1);
}

#[test]
fn generate_uuid_has_v4_shape() {
    let id = generate_uuid();
    let chars: Vec<char> = id.chars().collect();
    assert_eq!(chars.len(), 36);
    for (i, c) in chars.iter().enumerate() {
        if i == 8 || i == 13 || i == 18 || i == 23 {
            assert_eq!(*c, '-');
        } else {
            assert!(c.is_ascii_hexdigit() && !c.is_ascii_uppercase());
        }
    }
    assert_eq!(chars[14], '4');
    assert!(matches!(chars[19], '8' | '9' | 'a' | 'b'));
}

#[test]
fn calculate_hash_md5_known_values() {
    assert_eq!(calculate_hash("", "md5").unwrap(), "d41d8cd98f00b204e9800998ecf8427e");
    assert_eq!(calculate_hash("abc", "md5").unwrap(), "900150983cd24fb0d6963f7d28e17f72");
}

#[test]
fn calculate_hash_sha256_known_values() {
    assert_eq!(
        calculate_hash("abc", "sha256").unwrap(),
        "ba7816bf8f01cfea414140de5dae2223b00361a396177a9cb410ff61f20015ad"
    );
    assert_eq!(
        calculate_hash("", "sha256").unwrap(),
        "e3b0c44298fc1c149afbf4c8996fb92427ae41e4649b934ca495991b7852b855"
    );
}

#[test]
fn calculate_hash_matches_algorithm_case_insensitively() {
    assert_eq!(calculate_hash("abc", "MD5").unwrap(), "900150983cd24fb0d6963f7d28e17f72");
    assert_eq!(
        calculate_hash("abc", "Sha256").unwrap(),
        "ba7816bf8f01cfea414140de5dae2223b00361a396177a9cb410ff61f20015ad"
    );
}

#[test]
fn calculate_hash_rejects_unknown_algorithm() {
    assert!(matches!(calculate_hash("x", "unknown"), Err(ToolError::UnsupportedAlgorithmError(_))));
}

#[test]
fn error_message_is_returned() {
    let err = timestamp_to_date(0, "weeks").unwrap_err();
    assert_eq!(err.message(), "unsupported time unit");
    let err = date_to_timestamp("notadate", "seconds").unwrap_err();
    assert!(!err.message().is_empty());
}
