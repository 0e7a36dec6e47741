//! The shared text helpers: decimal formatting and parsing.

use sway_status::text::{fmt_u64, parse_prop, parse_u64, str_eq};

#[test]
fn formats_decimals_without_leading_zeros() {
    assert_eq!(fmt_u64(0), "0");
    assert_eq!(fmt_u64(7), "7");
    assert_eq!(fmt_u64(90210), "90210");
    assert_eq!(fmt_u64(u64::MAX), "18446744073709551615");
}

#[test]
fn parses_decimals_exactly() {
    assert_eq!(parse_u64("0"), Some(0));
    assert_eq!(parse_u64("007"), Some(7));
    assert_eq!(parse_u64("18446744073709551615"), Some(u64::MAX));
    assert_eq!(parse_u64("18446744073709551616"), None);
    assert_eq!(parse_u64(""), None);
    assert_eq!(parse_u64("1a"), None);
    assert_eq!(parse_u64("-1"), None);
    assert_eq!(parse_u64(" 1"), None);
}

#[test]
fn property_files_may_end_in_whitespace() {
    assert_eq!(parse_prop("42\n"), Some(42));
    assert_eq!(parse_prop("42 \t\r\n"), Some(42));
    assert_eq!(parse_prop("42"), Some(42));
    assert_eq!(parse_prop("4 2\n"), None);
    assert_eq!(parse_prop("\n"), None);
}

#[test]
fn string_equality_is_by_characters() {
    assert!(str_eq("", ""));
    assert!(str_eq("MemTotal:", "MemTotal:"));
    assert!(!str_eq("MemTotal:", "MemTotal"));
    assert!(!str_eq("a", "b"));
}
