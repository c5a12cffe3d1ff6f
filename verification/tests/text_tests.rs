use s3em::text::{i64_to_decimal, parse_u16, str_eq, strip_prefix, trim_both_char, trim_end_char, u64_to_decimal};

#[test]
fn decimal_renders_unsigned() {
    assert_eq!(u64_to_decimal(0), "0");
    assert_eq!(u64_to_decimal(7), "7");
    assert_eq!(u64_to_decimal(1234), "1234");
    assert_eq!(u64_to_decimal(u64::MAX), "18446744073709551615");
}

#[test]
fn decimal_renders_signed() {
    assert_eq!(i64_to_decimal(0), "0");
    assert_eq!(i64_to_decimal(-5), "-5");
    assert_eq!(i64_to_decimal(200), "200");
    assert_eq!(i64_to_decimal(i64::MIN), "-9223372036854775808");
    assert_eq!(i64_to_decimal(i64::MAX), "9223372036854775807");
}

#[test]
fn port_parsing_follows_std() {
    for s in ["8080", "+80", "+", "", "65535", "65536", "-1", "8a", "007", " 80", "0", "99999999999"] {
        assert_eq!(parse_u16(s), s.parse::<u16>().ok(), "input {:?}", s);
    }
    assert_eq!(parse_u16("8080"), Some(8080));
    assert_eq!(parse_u16("65536"), None);
}

#[test]
fn port_roundtrip_on_values() {
    for p in [0u16, 1, 9, 10, 4004, 65535] {
        assert_eq!(parse_u16(&u64_to_decimal(p as u64)), Some(p));
    }
}

#[test]
fn trimming_matches_std() {
    for s in ["a//", "a", "", "///", "/a/", "a/b/"] {
        assert_eq!(trim_end_char(s, '/'), s.trim_end_matches('/'));
    }
    for s in ["\"abc\"", "abc", "\"\"", "\"a\"b\"", "", "\"\"\"x"] {
        assert_eq!(trim_both_char(s, '"'), s.trim_matches('"'));
    }
}

#[test]
fn prefix_and_equality() {
    assert_eq!(strip_prefix("Bearer abc", "Bearer "), Some("abc"));
    assert_eq!(strip_prefix("Bearer ", "Bearer "), Some(""));
    assert_eq!(strip_prefix("Basic abc", "Bearer "), None);
    assert_eq!(strip_prefix("Bear", "Bearer "), None);
    assert!(str_eq("key", "key"));
    assert!(!str_eq("key", "Key"));
}
