//! Text helpers: prefixes, numbers in base ten and sixteen.

use brawl_api::text::{chars_of, decimal_string, parse_u64, parse_usize, same_text, starts_with};

#[test]
fn decimal_string_writes_numbers_in_base_ten() {
    assert_eq!(decimal_string(0), "0");
    assert_eq!(decimal_string(9), "9");
    assert_eq!(decimal_string(10), "10");
    assert_eq!(decimal_string(16000032), "16000032");
    assert_eq!(decimal_string(usize::MAX), usize::MAX.to_string());
}

#[test]
fn parse_usize_reads_digits_with_an_optional_plus() {
    assert_eq!(parse_usize("0"), Some(0));
    assert_eq!(parse_usize("007"), Some(7));
    assert_eq!(parse_usize("+42"), Some(42));
    assert_eq!(parse_usize("1700000000"), Some(1700000000));
    assert_eq!(parse_usize(&usize::MAX.to_string()), Some(usize::MAX));
}

#[test]
fn parse_usize_refuses_what_is_no_number() {
    assert_eq!(parse_usize(""), None);
    assert_eq!(parse_usize("+"), None);
    assert_eq!(parse_usize("-1"), None);
    assert_eq!(parse_usize("++1"), None);
    assert_eq!(parse_usize("1 "), None);
    assert_eq!(parse_usize(" 1"), None);
    assert_eq!(parse_usize("1_000"), None);
    assert_eq!(parse_usize("12a"), None);
    assert_eq!(parse_usize("0x10"), None);
    assert_eq!(parse_usize("٣"), None);
    assert_eq!(parse_usize("18446744073709551616"), None);
    assert_eq!(parse_usize("99999999999999999999999999"), None);
}

#[test]
fn parse_usize_agrees_with_the_standard_library() {
    for text in ["", "+", "0", "+0", "12", "0012", "+-1", "1+", "4294967296", "a"] {
        assert_eq!(parse_usize(text), text.parse::<usize>().ok());
    }
}

#[test]
fn parse_u64_reads_base_sixteen_behind_the_mark() {
    assert_eq!(parse_u64("0xffffff"), Some(0xffffff));
    assert_eq!(parse_u64("0xffff8afb"), Some(0xffff8afb));
    assert_eq!(parse_u64("0xFF1BA5F5"), Some(0xff1ba5f5));
    assert_eq!(parse_u64("0x0"), Some(0));
    assert_eq!(parse_u64("0xffffffffffffffff"), Some(u64::MAX));
    assert_eq!(parse_u64("0x10000000000000000"), None);
    assert_eq!(parse_u64("0x"), None);
    assert_eq!(parse_u64("0xg"), None);
    assert_eq!(parse_u64("0X10"), None);
    assert_eq!(parse_u64("0x+1"), None);
}

#[test]
fn parse_u64_reads_base_ten_without_the_mark() {
    assert_eq!(parse_u64("16777215"), Some(16777215));
    assert_eq!(parse_u64("+5"), Some(5));
    assert_eq!(parse_u64("ff"), None);
    assert_eq!(parse_u64("18446744073709551615"), Some(u64::MAX));
    assert_eq!(parse_u64("18446744073709551616"), None);
}

#[test]
fn prefixes_and_equality_go_by_characters() {
    assert!(starts_with("Bearer abc", "Bearer "));
    assert!(starts_with("Bearer ", "Bearer "));
    assert!(!starts_with("Bearer", "Bearer "));
    assert!(!starts_with("bearer abc", "Bearer "));
    assert!(starts_with("abc", ""));
    assert!(same_text("é#", "é#"));
    assert!(!same_text("open", "opeN"));
    assert!(!same_text("open", "opens"));
    assert_eq!(chars_of("a#é"), vec!['a', '#', 'é']);
}
