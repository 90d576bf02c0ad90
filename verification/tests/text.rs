use key_signer::text::parse_i64;
use key_signer::text::split_fields;
use key_signer::text::str_eq;
use key_signer::text::strip_line_terminators;
use key_signer::text::to_chars;

#[test]
fn to_chars_keeps_every_character_in_order() {
    assert_eq!(to_chars("a:é\n"), vec!['a', ':', 'é', '\n']);
    assert_eq!(to_chars(""), Vec::<char>::new());
}

#[test]
fn str_eq_compares_letter_for_letter() {
    assert!(str_eq("daemon", "daemon"));
    assert!(str_eq("", ""));
    assert!(!str_eq("daemon", "daemoN"));
    assert!(!str_eq("daemon", "daemon "));
    assert!(!str_eq("daemon", "daemo"));
}

#[test]
fn split_fields_cuts_at_every_separator() {
    assert_eq!(split_fields("a:b:c", ':'), vec!["a", "b", "c"]);
    assert_eq!(split_fields("abc", ':'), vec!["abc"]);
}

#[test]
fn split_fields_keeps_empty_fields() {
    assert_eq!(split_fields("", ':'), vec![""]);
    assert_eq!(split_fields(":", ':'), vec!["", ""]);
    assert_eq!(split_fields("a::b:", ':'), vec!["a", "", "b", ""]);
    assert_eq!(split_fields(":a", ':'), vec!["", "a"]);
}

#[test]
fn split_fields_counts_one_field_more_than_separators() {
    for text in ["", "x", "a:b", "a:b:c:d", ":::", "é:ü:ß"] {
        let separators = text.chars().filter(|c| *c == ':').count();
        assert_eq!(split_fields(text, ':').len(), separators + 1);
    }
}

#[test]
fn split_fields_then_join_gives_the_text_back() {
    for text in ["", "x", "a:b", "a:b:c:d", ":::", "id:17:tag:seal\n"] {
        let fields = split_fields(text, ':');
        assert_eq!(fields.join(":"), text);
        assert!(fields.iter().all(|f| !f.contains(':')));
    }
}

#[test]
fn split_fields_handles_characters_of_several_bytes() {
    assert_eq!(split_fields("é:日本:x", ':'), vec!["é", "日本", "x"]);
}

#[test]
fn strip_line_terminators_takes_line_feed_and_carriage_return() {
    assert_eq!(strip_line_terminators("pong\n"), "pong");
    assert_eq!(strip_line_terminators("pong\r\n"), "pong");
    assert_eq!(strip_line_terminators("pong\n\n\r"), "pong");
    assert_eq!(strip_line_terminators("pong"), "pong");
}

#[test]
fn strip_line_terminators_leaves_the_rest_alone() {
    assert_eq!(strip_line_terminators("  a\nb \t\n"), "  a\nb \t");
    assert_eq!(strip_line_terminators("\n"), "");
    assert_eq!(strip_line_terminators(""), "");
    assert_eq!(strip_line_terminators("\r\nx"), "\r\nx");
    assert_eq!(strip_line_terminators("é\n"), "é");
}

#[test]
fn strip_line_terminators_twice_is_once() {
    for text in ["a\n", "a\r\n\r\n", "", "a b ", "\n\n"] {
        let once = strip_line_terminators(text);
        assert_eq!(strip_line_terminators(&once), once);
    }
}

#[test]
fn parse_i64_reads_plain_numbers() {
    assert_eq!(parse_i64("0"), Some(0));
    assert_eq!(parse_i64("7"), Some(7));
    assert_eq!(parse_i64("1700000000"), Some(1_700_000_000));
    assert_eq!(parse_i64("007"), Some(7));
}

#[test]
fn parse_i64_reads_signs() {
    assert_eq!(parse_i64("-1"), Some(-1));
    assert_eq!(parse_i64("+15"), Some(15));
    assert_eq!(parse_i64("-0"), Some(0));
}

#[test]
fn parse_i64_reaches_both_ends_of_the_range() {
    assert_eq!(parse_i64("9223372036854775807"), Some(i64::MAX));
    assert_eq!(parse_i64("-9223372036854775808"), Some(i64::MIN));
    assert_eq!(parse_i64("+9223372036854775807"), Some(i64::MAX));
    assert_eq!(parse_i64("0000000000000000000009223372036854775807"), Some(i64::MAX));
}

#[test]
fn parse_i64_refuses_what_does_not_fit() {
    assert_eq!(parse_i64("9223372036854775808"), None);
    assert_eq!(parse_i64("-9223372036854775809"), None);
    assert_eq!(parse_i64("99999999999999999999999999"), None);
    assert_eq!(parse_i64("-99999999999999999999999999"), None);
}

#[test]
fn parse_i64_refuses_what_is_no_number() {
    assert_eq!(parse_i64(""), None);
    assert_eq!(parse_i64("-"), None);
    assert_eq!(parse_i64("+"), None);
    assert_eq!(parse_i64("12a"), None);
    assert_eq!(parse_i64("a12"), None);
    assert_eq!(parse_i64(" 12"), None);
    assert_eq!(parse_i64("12 "), None);
    assert_eq!(parse_i64("12\n"), None);
    assert_eq!(parse_i64("--1"), None);
    assert_eq!(parse_i64("+-1"), None);
    assert_eq!(parse_i64("1.5"), None);
    assert_eq!(parse_i64("١٢"), None);
}

#[test]
fn parse_i64_agrees_with_the_standard_parser() {
    for text in [
        "0", "-0", "+0", "42", "-42", "+42", "", "-", "+", "4 2", "0x10", "9223372036854775807",
        "9223372036854775808", "-9223372036854775808", "-9223372036854775809", "00012", "1e3",
    ] {
        assert_eq!(parse_i64(text), text.parse::<i64>().ok(), "for {:?}", text);
    }
}
