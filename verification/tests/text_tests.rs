use upnpav::text::{
    eq_ignore_ascii_case, i64_to_string, lines, parse_i16, parse_i32, parse_u16, parse_u32, parse_u64,
    split_once, starts_with, str_eq, trim, u64_to_string, words,
};

#[test]
fn decimal_formatting() {
    assert_eq!(u64_to_string(0), "0");
    assert_eq!(u64_to_string(1234), "1234");
    assert_eq!(u64_to_string(u64::MAX), "18446744073709551615");
    assert_eq!(i64_to_string(-42), "-42");
    assert_eq!(i64_to_string(i64::MIN), "-9223372036854775808");
}

#[test]
fn unsigned_parsing() {
    assert_eq!(parse_u32("42"), Some(42));
    assert_eq!(parse_u32("+7"), Some(7));
    assert_eq!(parse_u32("-1"), None);
    assert_eq!(parse_u32(""), None);
    assert_eq!(parse_u32("4294967295"), Some(u32::MAX));
    assert_eq!(parse_u32("4294967296"), None);
    assert_eq!(parse_u32("12a"), None);
    assert_eq!(parse_u16("65536"), None);
    assert_eq!(parse_u64("18446744073709551615"), Some(u64::MAX));
}

#[test]
fn signed_parsing() {
    assert_eq!(parse_i32("-2147483648"), Some(i32::MIN));
    assert_eq!(parse_i32("2147483648"), None);
    assert_eq!(parse_i32("-0"), Some(0));
    assert_eq!(parse_i16("32767"), Some(32767));
    assert_eq!(parse_i16("32768"), None);
    assert_eq!(parse_i16("-"), None);
}

#[test]
fn trimming_and_splitting() {
    assert_eq!(trim("  a b \n"), "a b");
    assert_eq!(trim("   "), "");
    assert_eq!(lines("a\r\nb\nc"), vec!["a".to_string(), "b".to_string(), "c".to_string()]);
    assert_eq!(words(" a  b\tc "), vec!["a".to_string(), "b".to_string(), "c".to_string()]);
    assert_eq!(split_once("k:v:w", ':'), Some(("k".to_string(), "v:w".to_string())));
    assert_eq!(split_once("kv", ':'), None);
}

#[test]
fn comparisons() {
    assert!(eq_ignore_ascii_case("ST", "st"));
    assert!(!eq_ignore_ascii_case("ST", "sx"));
    assert!(starts_with("uuid:abc", "uuid:"));
    assert!(!starts_with("uu", "uuid:"));
    assert!(str_eq("a", "a"));
    assert!(!str_eq("a", "b"));
}
