use naim_remote::text::{parse_volume, str_eq, str_lt_exec, u16_to_string};

#[test]
fn decimal_zero() {
    assert_eq!(u16_to_string(0), "0");
}

#[test]
fn decimal_single_digit() {
    assert_eq!(u16_to_string(7), "7");
}

#[test]
fn decimal_round_number() {
    assert_eq!(u16_to_string(100), "100");
}

#[test]
fn decimal_largest() {
    assert_eq!(u16_to_string(65535), "65535");
}

#[test]
fn decimal_mixed_digits() {
    assert_eq!(u16_to_string(12345), "12345");
}

#[test]
fn parse_plain_value() {
    assert_eq!(parse_volume("50"), Some(50));
}

#[test]
fn parse_zero() {
    assert_eq!(parse_volume("0"), Some(0));
}

#[test]
fn parse_upper_bound() {
    assert_eq!(parse_volume("100"), Some(100));
}

#[test]
fn parse_above_bound() {
    assert_eq!(parse_volume("101"), None);
}

#[test]
fn parse_far_above_bound() {
    assert_eq!(parse_volume("99999999999999999999"), None);
}

#[test]
fn parse_leading_zeros() {
    assert_eq!(parse_volume("007"), Some(7));
}

#[test]
fn parse_empty() {
    assert_eq!(parse_volume(""), None);
}

#[test]
fn parse_non_digit() {
    assert_eq!(parse_volume("12a"), None);
}

#[test]
fn parse_negative_rejected() {
    assert_eq!(parse_volume("-1"), None);
}

#[test]
fn equal_strings() {
    assert!(str_eq("hello", "hello"));
    assert!(!str_eq("hello", "hellp"));
    assert!(!str_eq("hello", "hell"));
    assert!(str_eq("", ""));
}

#[test]
fn lexicographic_order() {
    assert!(str_lt_exec("a", "b"));
    assert!(!str_lt_exec("b", "a"));
    assert!(str_lt_exec("", "a"));
    assert!(str_lt_exec("a", "ab"));
    assert!(!str_lt_exec("ab", "a"));
    assert!(str_lt_exec("ab", "b"));
    assert!(!str_lt_exec("same", "same"));
    assert!(str_lt_exec("Zed", "apple"));
}
