use antigravity::digits::{parse_u32, parse_u64, u64_to_string};

#[test]
fn renders_decimal_exactly() {
    assert_eq!(u64_to_string(0), "0");
    assert_eq!(u64_to_string(7), "7");
    assert_eq!(u64_to_string(10), "10");
    assert_eq!(u64_to_string(420001), "420001");
    assert_eq!(u64_to_string(u64::MAX), "18446744073709551615");
}

#[test]
fn parses_like_std() {
    for s in ["0", "7", "10", "+15", "4294967295", "00042"] {
        assert_eq!(parse_u32(s), s.parse::<u32>().ok(), "u32 {s:?}");
        assert_eq!(parse_u64(s), s.parse::<u64>().ok(), "u64 {s:?}");
    }
    for s in ["", "+", "-1", " 5", "5 ", "1.0", "abc", "0x10"] {
        assert_eq!(parse_u32(s), None, "u32 {s:?}");
        assert_eq!(parse_u64(s), None, "u64 {s:?}");
    }
}

#[test]
fn parse_respects_each_width() {
    assert_eq!(parse_u32("4294967296"), None);
    assert_eq!(parse_u64("4294967296"), Some(4294967296));
    assert_eq!(parse_u64("18446744073709551615"), Some(u64::MAX));
    assert_eq!(parse_u64("18446744073709551616"), None);
}
