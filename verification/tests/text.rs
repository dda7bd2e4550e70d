//! Text utilities: decimal rendering and parsing, string equality and JSON
//! escaping.

use splunk::text::bool_str;
use splunk::text::escape_json;
use splunk::text::parse_u16;
use splunk::text::str_eq;
use splunk::text::u64_to_string;

#[test]
fn decimal_rendering() {
    assert_eq!(u64_to_string(0), "0");
    assert_eq!(u64_to_string(7), "7");
    assert_eq!(u64_to_string(10), "10");
    assert_eq!(u64_to_string(8089), "8089");
    assert_eq!(u64_to_string(86400), "86400");
    assert_eq!(u64_to_string(u64::MAX), "18446744073709551615");
}

#[test]
fn port_parsing_accepts_digits_in_range() {
    assert_eq!(parse_u16("0"), Some(0));
    assert_eq!(parse_u16("8089"), Some(8089));
    assert_eq!(parse_u16("65535"), Some(65535));
    assert_eq!(parse_u16("00443"), Some(443));
}

#[test]
fn port_parsing_rejects_everything_else() {
    assert_eq!(parse_u16(""), None);
    assert_eq!(parse_u16("65536"), None);
    assert_eq!(parse_u16("123456789123"), None);
    assert_eq!(parse_u16("80a"), None);
    assert_eq!(parse_u16("-1"), None);
    assert_eq!(parse_u16("+80"), None);
    assert_eq!(parse_u16(" 80"), None);
}

#[test]
fn string_equality_is_by_content() {
    assert!(str_eq("abc", "abc"));
    assert!(!str_eq("abc", "abd"));
    assert!(!str_eq("abc", "abcd"));
    assert!(str_eq("", ""));
}

#[test]
fn bool_rendering() {
    assert_eq!(bool_str(true), "true");
    assert_eq!(bool_str(false), "false");
}

#[test]
fn json_escaping() {
    assert_eq!(escape_json("plain"), "plain");
    assert_eq!(escape_json("say \"hi\""), "say \\\"hi\\\"");
    assert_eq!(escape_json("back\\slash"), "back\\\\slash");
    assert_eq!(escape_json("line\nbreak\ttab\rret"), "line\\nbreak\\ttab\\rret");
    assert_eq!(escape_json("\u{8}\u{c}"), "\\b\\f");
    assert_eq!(escape_json("ctl\u{1}\u{1f}"), "ctl\\u0001\\u001f");
    assert_eq!(escape_json("unicode \u{e9}\u{4e16}"), "unicode \u{e9}\u{4e16}");
}
