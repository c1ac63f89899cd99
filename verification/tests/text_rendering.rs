use duroxide_turso::text::{
    contains_text, i64_to_decimal, lowercase_contains, parse_i64, strip_prefix, u128_to_decimal,
    u32_to_decimal, IntParseError,
};

#[test]
fn decimal_rendering_matches_to_string() {
    for v in [0i64, 7, 10, 42, -1, -64000, 32000, i64::MAX, i64::MIN, 1_000_000_007] {
        assert_eq!(i64_to_decimal(v), v.to_string());
    }
    for v in [0u128, 9, 10, 99, 100, u64::MAX as u128, u128::MAX] {
        assert_eq!(u128_to_decimal(v), v.to_string());
    }
    assert_eq!(u32_to_decimal(10000), "10000");
}

#[test]
fn parse_i64_agrees_with_std() {
    let inputs = [
        "0", "42", "-42", "+7", "007", "-0", "", "+", "-", "12a", "a12", " 1", "1 ",
        "9223372036854775807", "9223372036854775808", "-9223372036854775808",
        "-9223372036854775809", "99999999999999999999x", "1x99999999999999999999", "١٢",
    ];
    for input in inputs {
        let ours = parse_i64(input).map_err(|e| e.message());
        let std = input.parse::<i64>().map_err(|e| e.to_string());
        assert_eq!(ours, std, "input {input:?}");
    }
}

#[test]
fn parse_i64_reports_each_error_kind() {
    assert_eq!(parse_i64(""), Err(IntParseError::Empty));
    assert_eq!(parse_i64("-"), Err(IntParseError::InvalidDigit));
    assert_eq!(parse_i64("9223372036854775808"), Err(IntParseError::PosOverflow));
    assert_eq!(parse_i64("-9223372036854775809"), Err(IntParseError::NegOverflow));
    assert_eq!(parse_i64("-9223372036854775808"), Ok(i64::MIN));
}

#[test]
fn parse_of_rendering_gives_back_the_integer() {
    for v in [0i64, 1, -1, 123456789, i64::MAX, i64::MIN] {
        assert_eq!(parse_i64(&i64_to_decimal(v)), Ok(v));
    }
}

#[test]
fn case_insensitive_search_lowercases_only_ascii() {
    assert!(lowercase_contains("Write CONFLICT detected", "conflict"));
    assert!(!lowercase_contains("write confl1ct", "conflict"));
    assert!(lowercase_contains("anything", ""));
    assert!(!lowercase_contains("ÇONFLICT", "çonflict"));
    assert!(contains_text("file:x?mode=memory&cache=shared", "mode=memory"));
    assert!(!contains_text("abc", "abcd"));
}

#[test]
fn strip_prefix_matches_std() {
    for (s, p) in [("turso:data.db", "turso:"), ("data.db", "turso:"), ("turso:", "turso:"), ("", ""), ("tur", "turso:")] {
        assert_eq!(strip_prefix(s, p), s.strip_prefix(p).map(|r| r.to_string()));
    }
}
