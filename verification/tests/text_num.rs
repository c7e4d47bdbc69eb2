use finnhub_cli::num::{format_money, format_plain, parse_i64_str, parse_price_str,
    parse_u64_str, u64_string};
use finnhub_cli::text::{contains_str, replace_str, str_eq};

#[test]
fn string_equality_is_by_characters() {
    assert!(str_eq("none", "none"));
    assert!(!str_eq("none", "None"));
    assert!(!str_eq("none", "non"));
    assert!(str_eq("", ""));
}

#[test]
fn substring_search_finds_inner_text() {
    assert!(contains_str("body with error inside", "error"));
    assert!(!contains_str("all fine", "error"));
    assert!(contains_str("abc", ""));
}

#[test]
fn replacement_is_left_to_right_without_overlap() {
    assert_eq!(replace_str("a,b,c", ",", "\n\t"), "a\n\tb\n\tc");
    assert_eq!(replace_str("[x][y]", "[", ""), "x]y]");
    assert_eq!(replace_str("aaa", "aa", "b"), "ba");
    assert_eq!(replace_str("abc", "x", "y"), "abc");
}

#[test]
fn price_tokens_become_hundredths() {
    assert_eq!(parse_price_str("261.74"), Some(26174));
    assert_eq!(parse_price_str("3"), Some(300));
    assert_eq!(parse_price_str("0"), Some(0));
    assert_eq!(parse_price_str("-3.5"), Some(-350));
    assert_eq!(parse_price_str("1.2805"), Some(128));
    assert_eq!(parse_price_str("0.05"), Some(5));
}

#[test]
fn malformed_price_tokens_are_rejected() {
    assert_eq!(parse_price_str(""), None);
    assert_eq!(parse_price_str("-"), None);
    assert_eq!(parse_price_str("."), None);
    assert_eq!(parse_price_str(".5"), None);
    assert_eq!(parse_price_str("5."), None);
    assert_eq!(parse_price_str("1.2.3"), None);
    assert_eq!(parse_price_str("1e3"), None);
    assert_eq!(parse_price_str("null"), None);
    assert_eq!(parse_price_str("12345678901234567"), None);
}

#[test]
fn sixteen_integer_digits_are_the_price_limit() {
    assert_eq!(parse_price_str("9999999999999999"), Some(999_999_999_999_999_900));
    assert_eq!(parse_price_str("9999999999999999.99"), Some(999_999_999_999_999_999));
    assert_eq!(parse_price_str("10000000000000000"), None);
}

#[test]
fn integer_tokens_parse_within_eighteen_digits() {
    assert_eq!(parse_u64_str("999999999999999999"), Some(999_999_999_999_999_999));
    assert_eq!(parse_u64_str("1582641000"), Some(1582641000));
    assert_eq!(parse_u64_str("0"), Some(0));
    assert_eq!(parse_u64_str(""), None);
    assert_eq!(parse_u64_str("1.5"), None);
    assert_eq!(parse_u64_str("1234567890123456789"), None);
    assert_eq!(parse_i64_str("-42"), Some(-42));
    assert_eq!(parse_i64_str("42"), Some(42));
    assert_eq!(parse_i64_str("-"), None);
}

#[test]
fn money_rendering_keeps_two_decimals() {
    assert_eq!(format_money(26174), "261.74");
    assert_eq!(format_money(0), "0.00");
    assert_eq!(format_money(-5), "-0.05");
    assert_eq!(format_money(300), "3.00");
    assert_eq!(format_money(12), "0.12");
}

#[test]
fn plain_rendering_drops_trailing_zeros() {
    assert_eq!(format_plain(26174), "261.74");
    assert_eq!(format_plain(26170), "261.7");
    assert_eq!(format_plain(26100), "261");
    assert_eq!(format_plain(0), "0");
    assert_eq!(format_plain(-350), "-3.5");
    assert_eq!(format_plain(5), "0.05");
}

#[test]
fn unsigned_rendering_is_decimal() {
    assert_eq!(u64_string(0), "0");
    assert_eq!(u64_string(7), "7");
    assert_eq!(u64_string(1582641000), "1582641000");
}
