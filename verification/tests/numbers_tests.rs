use music_presence::numbers::{length_to_offset, parse_i64, parse_u32, sat_add};

#[test]
fn parse_i64_plain() {
    assert_eq!(parse_i64("245"), Some(245));
    assert_eq!(parse_i64("0"), Some(0));
    assert_eq!(parse_i64("007"), Some(7));
}

#[test]
fn parse_i64_signed() {
    assert_eq!(parse_i64("+42"), Some(42));
    assert_eq!(parse_i64("-7"), Some(-7));
    assert_eq!(parse_i64("-0"), Some(0));
}

#[test]
fn parse_i64_rejects_bad_shapes() {
    assert_eq!(parse_i64(""), None);
    assert_eq!(parse_i64("+"), None);
    assert_eq!(parse_i64("-"), None);
    assert_eq!(parse_i64(" 1"), None);
    assert_eq!(parse_i64("1 "), None);
    assert_eq!(parse_i64("1a"), None);
    assert_eq!(parse_i64("+-3"), None);
}

#[test]
fn parse_i64_range() {
    assert_eq!(parse_i64("9223372036854775807"), Some(i64::MAX));
    assert_eq!(parse_i64("9223372036854775808"), None);
    assert_eq!(parse_i64("-9223372036854775808"), Some(i64::MIN));
    assert_eq!(parse_i64("-9223372036854775809"), None);
}

#[test]
fn parse_i64_matches_std() {
    for s in ["245", "+42", "-7", "", "x", "007", "9223372036854775808", "-9223372036854775808"] {
        assert_eq!(parse_i64(s), s.parse::<i64>().ok(), "on {s:?}");
    }
}

#[test]
fn parse_u32_cases() {
    assert_eq!(parse_u32("150"), Some(150));
    assert_eq!(parse_u32("+3"), Some(3));
    assert_eq!(parse_u32("-3"), None);
    assert_eq!(parse_u32("4294967295"), Some(u32::MAX));
    assert_eq!(parse_u32("4294967296"), None);
    assert_eq!(parse_u32(""), None);
    for s in ["150", "+3", "-3", "4294967296", ""] {
        assert_eq!(parse_u32(s), s.parse::<u32>().ok(), "on {s:?}");
    }
}

#[test]
fn length_offset_truncates() {
    assert_eq!(length_to_offset(245999), 245);
    assert_eq!(length_to_offset(180000000), 180000);
    assert_eq!(length_to_offset(999), 0);
    assert_eq!(length_to_offset(-1500), -1);
    assert_eq!(length_to_offset(i64::MIN), i64::MIN / 1000);
}

#[test]
fn sat_add_clamps() {
    assert_eq!(sat_add(1, 2), 3);
    assert_eq!(sat_add(i64::MAX, 1), i64::MAX);
    assert_eq!(sat_add(i64::MIN, -1), i64::MIN);
    assert_eq!(sat_add(i64::MAX, i64::MIN), -1);
}
