use obsidian::text::{chars_of, contains, ends_with, parse_unsigned, split_at_most, split_lines, starts_with, text_eq, trim, white_space};

#[test]
fn trimming_unicode_white_space() {
    assert_eq!(trim("  hello \r\n"), "hello");
    assert_eq!(trim("\u{3000}x\u{00A0}"), "x");
    assert_eq!(trim("   "), "");
    assert_eq!(trim(""), "");
    assert_eq!(trim("a b"), "a b");
    assert!(white_space('\u{2028}'));
    assert!(!white_space('x'));
    assert!(!white_space('\u{200B}'));
}

#[test]
fn substring_tests() {
    assert!(contains("NVIDIA GeForce", "GeForce"));
    assert!(contains("abc", ""));
    assert!(!contains("ab", "abc"));
    assert!(starts_with("snapshot-1.json", "snapshot-"));
    assert!(!starts_with("snap", "snapshot-"));
    assert!(ends_with("snapshot-1.json", ".json"));
    assert!(!ends_with("snapshot-1.jso", ".json"));
    assert!(text_eq("Disabled", "Disabled"));
    assert!(!text_eq("Disabled", "disabled"));
    assert_eq!(chars_of("héllo").len(), 5);
}

#[test]
fn decimal_parsing_follows_std() {
    assert_eq!(parse_unsigned("42", u32::MAX as u64), Some(42));
    assert_eq!(parse_unsigned("+42", u32::MAX as u64), Some(42));
    assert_eq!(parse_unsigned("007", u32::MAX as u64), Some(7));
    assert_eq!(parse_unsigned("", u32::MAX as u64), None);
    assert_eq!(parse_unsigned("+", u32::MAX as u64), None);
    assert_eq!(parse_unsigned("-1", u32::MAX as u64), None);
    assert_eq!(parse_unsigned("1 2", u32::MAX as u64), None);
    assert_eq!(parse_unsigned("4294967295", u32::MAX as u64), Some(4294967295));
    assert_eq!(parse_unsigned("4294967296", u32::MAX as u64), None);
    assert_eq!(parse_unsigned("99999999999999999999x", u64::MAX), None);
    for s in ["0", "123", "+9", "18446744073709551615", "18446744073709551616", "1x", ""] {
        assert_eq!(parse_unsigned(s, u64::MAX), s.parse::<u64>().ok());
    }
}

#[test]
fn line_splitting_follows_std() {
    for s in ["a\r\nb\n", "", "\n", "a\n\nb", "abc\r", "x\ry\n", "one"] {
        let expected: Vec<String> = s.lines().map(String::from).collect();
        assert_eq!(split_lines(s), expected, "input {:?}", s);
    }
}

#[test]
fn bounded_splitting_follows_std() {
    for s in ["ERROR|dev|Code 43|a|b", "a|b", "", "|||", "x"] {
        let expected: Vec<String> = s.splitn(4, '|').map(String::from).collect();
        assert_eq!(split_at_most(s, '|', 4), expected, "input {:?}", s);
    }
    assert_eq!(split_at_most("a|b|c", '|', 1), vec!["a|b|c".to_string()]);
}
