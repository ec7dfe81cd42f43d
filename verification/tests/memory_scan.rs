use portal2_sdk::memory::{find_fn, find_pattern};

#[test]
fn finds_exact_pattern() {
    let mem = [0x10u8, 0x55, 0x8B, 0xEC, 0x90];
    assert_eq!(find_pattern(&mem, &[0x55, 0x8B, 0xEC], "xxx"), Some(1));
}

#[test]
fn wildcard_matches_any_byte() {
    let mem = [0x55u8, 0x8B, 0xEC, 0x83, 0xEC, 0x10];
    assert_eq!(find_pattern(&mem, &[0x83, 0x00, 0x10], "x?x"), Some(3));
}

#[test]
fn first_match_is_reported() {
    let mem = [1u8, 2, 1, 2, 1, 2];
    assert_eq!(find_pattern(&mem, &[1, 2], "xx"), Some(0));
    assert_eq!(find_pattern(&mem[1..], &[1, 2], "xx"), Some(1));
}

#[test]
fn missing_pattern_gives_none() {
    let mem = [1u8, 2, 3, 4];
    assert_eq!(find_pattern(&mem, &[3, 5], "xx"), None);
}

#[test]
fn length_mismatch_gives_none() {
    let mem = [1u8, 2, 3];
    assert_eq!(find_pattern(&mem, &[1, 2], "x"), None);
    assert_eq!(find_pattern(&mem, &[1], "xx"), None);
}

#[test]
fn pattern_longer_than_memory_gives_none() {
    let mem = [1u8, 2];
    assert_eq!(find_pattern(&mem, &[1, 2, 3], "xxx"), None);
}

#[test]
fn match_at_the_very_end() {
    let mem = [9u8, 9, 9, 7, 8];
    assert_eq!(find_pattern(&mem, &[7, 8], "xx"), Some(3));
}

#[test]
fn all_wildcards_match_at_zero() {
    let mem = [4u8, 5, 6];
    assert_eq!(find_pattern(&mem, &[0, 0], "??"), Some(0));
}

#[test]
fn multibyte_mask_checks_only_its_characters() {
    // "é?" is three bytes long but has only two characters, so only the first
    // two pattern bytes are compared: the first against 'é' (not a wildcard),
    // the second against '?'.
    let mem = [0xAAu8, 0x00, 0x00, 0x01, 0xFF, 0x77];
    assert_eq!(find_pattern(&mem, &[0x01, 0x02, 0x03], "é?"), Some(3));
}

#[test]
fn find_fn_reports_offset() {
    let mem = [0u8, 0x55, 0x8B];
    assert_eq!(find_fn(&mem, &[0x55, 0x8B], "xx", "ServerCmd"), Ok(1));
}

#[test]
fn find_fn_reports_missing_signature() {
    let mem = [0u8, 0x55, 0x8B];
    assert_eq!(
        find_fn(&mem, &[0x56], "x", "ClientCmd"),
        Err("ClientCmd signature not found!".to_string())
    );
}
