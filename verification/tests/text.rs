use rainydesk::text::{
    chars_of, contains, ends_with, parse_i32, parse_unsigned, starts_with, strip_prefix,
    strip_suffix, text_eq, trim, whitespace,
};

#[test]
fn characters_are_listed_in_order() {
    assert_eq!(chars_of("a\u{e9}\u{1f327}z"), vec!['a', '\u{e9}', '\u{1f327}', 'z']);
    assert!(chars_of("").is_empty());
}

#[test]
fn texts_compare_by_character() {
    assert!(text_eq("", ""));
    assert!(text_eq("Progman", "Progman"));
    assert!(!text_eq("Progman", "progman"));
    assert!(!text_eq("Progman", "Progma"));
    assert!(!text_eq("Progma", "Progman"));
    assert!(!text_eq("a", "b"));
}

#[test]
fn prefixes_and_suffixes_are_found() {
    assert!(starts_with("RainyDesk Help", "RainyDesk"));
    assert!(starts_with("RainyDesk", "RainyDesk"));
    assert!(starts_with("x", ""));
    assert!(!starts_with("Rainy", "RainyDesk"));
    assert!(!starts_with("My RainyDesk", "RainyDesk"));
    assert!(ends_with("storm.rain", ".rain"));
    assert!(ends_with(".rain", ".rain"));
    assert!(ends_with("x", ""));
    assert!(!ends_with("rain", ".rain"));
    assert!(!ends_with("storm.rain ", ".rain"));
}

#[test]
fn substrings_are_found() {
    assert!(contains("Chrome DevTools - page", "DevTools"));
    assert!(contains("DevTools", "DevTools"));
    assert!(contains("xDevTools", "DevTools"));
    assert!(contains("DevDevTools", "DevTools"));
    assert!(contains("abc", ""));
    assert!(contains("", ""));
    assert!(!contains("DevTool", "DevTools"));
    assert!(!contains("Dev Tools", "DevTools"));
    assert!(!contains("", "a"));
}

#[test]
fn prefixes_and_suffixes_are_stripped() {
    assert_eq!(strip_prefix("overlay-12", "overlay-"), Some("12"));
    assert_eq!(strip_prefix("overlay-", "overlay-"), Some(""));
    assert_eq!(strip_prefix("\u{e9}t\u{e9}", "\u{e9}"), Some("t\u{e9}"));
    assert_eq!(strip_prefix("overlay", "overlay-"), None);
    assert_eq!(strip_suffix("a.log", ".log"), Some("a"));
    assert_eq!(strip_suffix(".log", ".log"), Some(""));
    assert_eq!(strip_suffix("a.log.txt", ".log"), None);
}

#[test]
fn unsigned_numbers_are_read() {
    assert_eq!(parse_unsigned("0", 100), Some(0));
    assert_eq!(parse_unsigned("42", 100), Some(42));
    assert_eq!(parse_unsigned("+42", 100), Some(42));
    assert_eq!(parse_unsigned("007", 100), Some(7));
    assert_eq!(parse_unsigned("100", 100), Some(100));
    assert_eq!(parse_unsigned("101", 100), None);
    assert_eq!(parse_unsigned("", 100), None);
    assert_eq!(parse_unsigned("+", 100), None);
    assert_eq!(parse_unsigned("-1", 100), None);
    assert_eq!(parse_unsigned("++1", 100), None);
    assert_eq!(parse_unsigned("1 ", 100), None);
    assert_eq!(parse_unsigned(" 1", 100), None);
    assert_eq!(parse_unsigned("1a", 100), None);
    assert_eq!(parse_unsigned("\u{661}", 100), None);
    assert_eq!(parse_unsigned("18446744073709551615", u64::MAX), Some(u64::MAX));
    assert_eq!(parse_unsigned("18446744073709551616", u64::MAX), None);
    assert_eq!(parse_unsigned("99999999999999999999999999", u64::MAX), None);
    for text in ["0", "12", "+5", "", "x", "4294967296", "00000000000000000000001"] {
        assert_eq!(parse_unsigned(text, u64::MAX), text.parse::<u64>().ok());
    }
}

#[test]
fn signed_numbers_are_read() {
    assert_eq!(parse_i32("75"), Some(75));
    assert_eq!(parse_i32("+75"), Some(75));
    assert_eq!(parse_i32("-75"), Some(-75));
    assert_eq!(parse_i32("-0"), Some(0));
    assert_eq!(parse_i32("2147483647"), Some(i32::MAX));
    assert_eq!(parse_i32("2147483648"), None);
    assert_eq!(parse_i32("-2147483648"), Some(i32::MIN));
    assert_eq!(parse_i32("-2147483649"), None);
    assert_eq!(parse_i32(""), None);
    assert_eq!(parse_i32("-"), None);
    assert_eq!(parse_i32("+-1"), None);
    assert_eq!(parse_i32("-+1"), None);
    assert_eq!(parse_i32("1.5"), None);
    for text in ["5", "-5", "+5", "", "-", "+", "mute", "2147483648", "-2147483648", "0x10"] {
        assert_eq!(parse_i32(text), text.parse::<i32>().ok());
    }
}

#[test]
fn white_space_is_the_unicode_property() {
    for code in 0..=0x11_0000u32 {
        if let Some(c) = char::from_u32(code) {
            assert_eq!(whitespace(c), c.is_whitespace());
        }
    }
}

#[test]
fn white_space_is_trimmed_at_both_ends() {
    assert_eq!(trim("  AMD Ryzen 7  "), "AMD Ryzen 7");
    assert_eq!(trim("\t\r\nx y\u{a0}\u{3000}"), "x y");
    assert_eq!(trim("x"), "x");
    assert_eq!(trim(""), "");
    assert_eq!(trim(" \n "), "");
    for text in [" a ", "a  b", "\u{2003}\u{e9}\u{2003}", "\r\n", "  x"] {
        assert_eq!(trim(text), text.trim());
    }
}
