use mcp_imagemagick::text::{
    chars_of, decimal_text, join, push_decimal, same_text, str_contains, trim,
};

#[test]
fn trim_removes_surrounding_white_space() {
    assert_eq!(trim("  \t{\"a\": 1} \r\n"), "{\"a\": 1}");
    assert_eq!(trim("a b"), "a b");
    assert_eq!(trim(""), "");
    assert_eq!(trim("x"), "x");
}

#[test]
fn trim_knows_the_white_space_of_unicode() {
    assert_eq!(trim(" \u{a0}\u{3000} "), "");
    assert_eq!(trim("\u{85}\u{1680}\u{2000}\u{200a}a\u{2028}\u{2029}\u{202f}\u{205f}"), "a");
    assert_eq!(trim("\u{b}\u{c}a\u{d}"), "a");
}

#[test]
fn trim_agrees_with_std_round_every_char_below_0x3100() {
    for code in 0u32..0x3100 {
        if let Some(c) = char::from_u32(code) {
            let line = format!("{}a{}", c, c);
            assert_eq!(trim(&line), line.trim(), "U+{:04X}", code);
        }
    }
}

#[test]
fn trim_takes_for_white_space_what_std_takes() {
    let mut buffer = String::new();
    for code in 0u32..=0x10FFFF {
        if let Some(c) = char::from_u32(code) {
            buffer.clear();
            buffer.push(c);
            assert_eq!(trim(&buffer).is_empty(), c.is_whitespace(), "U+{:04X}", code);
        }
    }
}

#[test]
fn trim_keeps_what_is_not_white_space() {
    assert_eq!(trim("\u{200b}a"), "\u{200b}a");
    assert_eq!(trim("\u{feff}a"), "\u{feff}a");
    assert_eq!(trim(" a \u{1f} "), "a \u{1f}");
}

#[test]
fn contains_finds_a_substring() {
    assert!(str_contains("MCP error: Method not found: x", "Method not found"));
    assert!(str_contains("Method not found", "Method not found"));
    assert!(str_contains("xxInvalid params", "Invalid params"));
    assert!(str_contains("abc", ""));
    assert!(str_contains("", ""));
}

#[test]
fn contains_rejects_what_is_not_there() {
    assert!(!str_contains("Method not foun", "Method not found"));
    assert!(!str_contains("", "a"));
    assert!(!str_contains("method not found", "Method not found"));
    assert!(!str_contains("aab", "aba"));
}

#[test]
fn same_text_compares_characters() {
    assert!(same_text("2.0", "2.0"));
    assert!(!same_text("2.0", "2.00"));
    assert!(!same_text("2.0", "2.1"));
    assert!(same_text("", ""));
    assert!(same_text("\u{e9}", "\u{e9}"));
}

#[test]
fn decimal_text_writes_numbers() {
    assert_eq!(decimal_text(0), "0");
    assert_eq!(decimal_text(7), "7");
    assert_eq!(decimal_text(10), "10");
    assert_eq!(decimal_text(-32600), "-32600");
    assert_eq!(decimal_text(-32700), "-32700");
    assert_eq!(decimal_text(i64::MAX), "9223372036854775807");
    assert_eq!(decimal_text(i64::MIN), "-9223372036854775808");
}

#[test]
fn push_decimal_appends() {
    let mut s = String::from("n=");
    push_decimal(&mut s, 1234567890);
    assert_eq!(s, "n=1234567890");
    push_decimal(&mut s, 0);
    assert_eq!(s, "n=12345678900");
    let mut t = String::new();
    push_decimal(&mut t, u64::MAX);
    assert_eq!(t, "18446744073709551615");
}

#[test]
fn chars_and_strings_convert_both_ways() {
    let chars = chars_of("h\u{e9}llo");
    assert_eq!(chars, vec!['h', '\u{e9}', 'l', 'l', 'o']);
    assert_eq!(chars_of(""), Vec::<char>::new());
}

#[test]
fn join_puts_one_text_behind_another() {
    assert_eq!(join("Invalid params: ", "missing"), "Invalid params: missing");
    assert_eq!(join("", ""), "");
}
