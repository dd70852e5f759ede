use steel_proxy::text::{
    chars_of, decimal_text, numbered, numbered_with, parse_u32, push_decimal, push_signed,
    same_text, strip_prefix, trim, white_space,
};

#[test]
fn numbers_are_written_in_decimal() {
    assert_eq!(decimal_text(0), "0");
    assert_eq!(decimal_text(10), "10");
    assert_eq!(decimal_text(u64::MAX), "18446744073709551615");
    let mut s = String::from("n=");
    push_decimal(&mut s, 907);
    assert_eq!(s, "n=907");
}

#[test]
fn signed_numbers_are_written_in_decimal() {
    let mut s = String::new();
    push_signed(&mut s, i32::MIN);
    s.push(' ');
    push_signed(&mut s, 0);
    s.push(' ');
    push_signed(&mut s, i32::MAX);
    assert_eq!(s, "-2147483648 0 2147483647");
}

#[test]
fn numbered_texts() {
    assert_eq!(numbered("PR #", 42), "PR #42");
    assert_eq!(numbered_with("PR #", 42, " failed"), "PR #42 failed");
}

#[test]
fn decimal_is_parsed_back() {
    for n in [0u32, 1, 9, 10, 42, 4294967295] {
        assert_eq!(parse_u32(&decimal_text(n as u64)), Some(n));
    }
}

#[test]
fn parsing_agrees_with_std() {
    for s in [
        "", "+", "-", "-0", "+0", "+12", "++1", "007", "4294967295", "4294967296", "99999999999",
        "12a", " 12", "12 ", "1 2", "0x10", "٣", "１", "+4294967295", "+4294967296",
    ] {
        assert_eq!(parse_u32(s), s.parse::<u32>().ok(), "{:?}", s);
    }
}

#[test]
fn trimming_agrees_with_std() {
    for s in [
        "", " ", "a", " a", "a ", "  a b  ", "\t\n\u{b}\u{c}\r x", "\u{85}x\u{a0}",
        "\u{1680}x\u{2000}\u{200a}\u{200b}", "\u{2028}\u{2029}x\u{202f}\u{205f}\u{3000}",
        "\u{feff}x", "é\u{3000}ü",
    ] {
        assert_eq!(trim(s), s.trim(), "{:?}", s);
        assert_eq!(trim(trim(s)), trim(s));
    }
}

#[test]
fn white_space_agrees_with_std() {
    for code in 0u32..0x3100 {
        if let Some(c) = char::from_u32(code) {
            assert_eq!(white_space(c), c.is_whitespace(), "{:x}", code);
        }
    }
    assert!(!white_space('\u{feff}'));
    assert!(!white_space('\u{10ffff}'));
}

#[test]
fn prefixes_are_stripped() {
    assert_eq!(strip_prefix("server x", "server "), Some("x"));
    assert_eq!(strip_prefix("server ", "server "), Some(""));
    assert_eq!(strip_prefix("server", "server "), None);
    assert_eq!(strip_prefix("Server x", "server "), None);
    assert_eq!(strip_prefix("éa", "é"), Some("a"));
}

#[test]
fn texts_are_compared_by_character() {
    assert!(same_text("", ""));
    assert!(same_text("lobby", "lobby"));
    assert!(!same_text("lobby", "Lobby"));
    assert_eq!(chars_of("aé"), vec!['a', 'é']);
}
