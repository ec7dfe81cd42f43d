use portal2_sdk::text::{chars_of, parse_i32};

#[test]
fn parses_plain_numbers() {
    assert_eq!(parse_i32("100"), Some(100));
    assert_eq!(parse_i32("0"), Some(0));
    assert_eq!(parse_i32("007"), Some(7));
}

#[test]
fn parses_signed_numbers() {
    assert_eq!(parse_i32("-42"), Some(-42));
    assert_eq!(parse_i32("+42"), Some(42));
    assert_eq!(parse_i32("-0"), Some(0));
}

#[test]
fn parses_the_i32_extremes() {
    assert_eq!(parse_i32("2147483647"), Some(i32::MAX));
    assert_eq!(parse_i32("-2147483648"), Some(i32::MIN));
}

#[test]
fn refuses_out_of_range_numbers() {
    assert_eq!(parse_i32("2147483648"), None);
    assert_eq!(parse_i32("-2147483649"), None);
    assert_eq!(parse_i32("99999999999999999999"), None);
}

#[test]
fn refuses_malformed_numbers() {
    assert_eq!(parse_i32(""), None);
    assert_eq!(parse_i32("-"), None);
    assert_eq!(parse_i32("+"), None);
    assert_eq!(parse_i32(" 1"), None);
    assert_eq!(parse_i32("1 "), None);
    assert_eq!(parse_i32("1.5"), None);
    assert_eq!(parse_i32("--1"), None);
    assert_eq!(parse_i32("12a"), None);
}

#[test]
fn parse_agrees_with_std() {
    let samples = [
        "", "0", "-0", "+0", "12", "-12", "+12", "2147483647", "2147483648", "-2147483648",
        "-2147483649", "abc", "1e3", "٣", "+-1", "00000000000000000000000000042",
    ];
    for s in samples {
        assert_eq!(parse_i32(s), s.parse::<i32>().ok(), "input {:?}", s);
    }
}

#[test]
fn chars_of_keeps_every_character() {
    assert_eq!(chars_of("aé?"), vec!['a', 'é', '?']);
    assert!(chars_of("").is_empty());
}

use portal2_sdk::text::c_string_lossy;

#[test]
fn c_string_stops_at_nul() {
    assert_eq!(c_string_lossy(b"health\0garbage"), "health");
    assert_eq!(c_string_lossy(b"\0abc"), "");
    assert_eq!(c_string_lossy(b"no terminator"), "no terminator");
    assert_eq!(c_string_lossy(b""), "");
}

#[test]
fn c_string_replaces_bad_utf8() {
    assert_eq!(c_string_lossy(&[b'a', 0xFF, b'b', 0]), "a\u{FFFD}b");
    assert_eq!(c_string_lossy("é\0".as_bytes()), "é");
}

#[test]
fn c_string_of_player_name_buffer() {
    let mut name = [0u8; 128];
    assert_eq!(c_string_lossy(&name), "");
    name[0] = 0x61;
    assert_eq!(c_string_lossy(&name), "a");
    assert_eq!(c_string_lossy(&[0x61, 0]), "a");
}
