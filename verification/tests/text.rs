use elan::assoc::NamedMap;
use elan::text::{
    blank, char_is_whitespace, chars_eq, chars_of, contains_chars, eq_ignore_ascii_case, join_strings, non_empty,
    non_empty_copy, or_empty, parse_u16, push_decimal, str_contains, str_eq, string_from_chars, string_from_suffix,
    strip_prefix, u64_to_decimal, IntErrorKind,
};

#[test]
fn decimal_rendering() {
    assert_eq!(u64_to_decimal(0), "0");
    assert_eq!(u64_to_decimal(1234567890), "1234567890");
    assert_eq!(u64_to_decimal(u64::MAX), "18446744073709551615");
    let mut s = "n=".to_string();
    push_decimal(&mut s, 42);
    assert_eq!(s, "n=42");
}

#[test]
fn parsing_ports() {
    let p = |s: &str| parse_u16(&chars_of(s));
    assert_eq!(p("0"), Ok(0));
    assert_eq!(p("+65535"), Ok(65535));
    assert_eq!(p("65536"), Err(IntErrorKind::PosOverflow));
    assert_eq!(p(""), Err(IntErrorKind::Empty));
    assert_eq!(p("+"), Err(IntErrorKind::InvalidDigit));
    assert_eq!(p("-1"), Err(IntErrorKind::InvalidDigit));
    assert_eq!(p("1 "), Err(IntErrorKind::InvalidDigit));
    assert_eq!(IntErrorKind::Empty.message(), "cannot parse integer from empty string");
}

#[test]
fn string_helpers() {
    assert!(str_eq("abc", "abc"));
    assert!(!str_eq("abc", "abd"));
    assert!(eq_ignore_ascii_case("SeLeCt", "select"));
    assert!(!eq_ignore_ascii_case("É", "é"));
    assert!(str_contains("hello world", "o w"));
    assert!(str_contains("x", ""));
    assert!(!str_contains("", "x"));
    assert!(contains_chars(&chars_of("abc"), &chars_of("bc")));
    assert_eq!(strip_prefix("Bearer x", "Bearer ").as_deref(), Some("x"));
    assert_eq!(strip_prefix("Bear", "Bearer "), None);
    assert_eq!(string_from_chars(&['a', 'é']), "aé");
    assert_eq!(string_from_suffix(&chars_of("prefix"), 3), "fix");
    assert!(chars_eq(&['a'], &['a']));
    assert_eq!(or_empty(&None), "");
    assert_eq!(non_empty(String::new()), None);
    assert_eq!(non_empty_copy(&"a".to_string()).as_deref(), Some("a"));
}

#[test]
fn joining_and_blank_text() {
    assert_eq!(join_strings(&vec![], ", "), "");
    assert_eq!(join_strings(&vec!["a".into()], ", "), "a");
    assert_eq!(join_strings(&vec!["a".into(), "b".into(), "c".into()], ", "), "a, b, c");
    assert!(blank(""));
    assert!(blank(" \t\n\u{3000}"));
    assert!(!blank(" x "));
    assert!(char_is_whitespace('\u{85}'));
    assert!(!char_is_whitespace('\u{200b}'));
    for c in ['\u{9}', '\u{a}', ' ', '\u{a0}', '\u{1680}', '\u{2000}', '\u{2028}', '\u{202f}', '\u{205f}', '\u{3000}', 'x'] {
        assert_eq!(char_is_whitespace(c), c.is_whitespace());
    }
}

#[test]
fn named_map_reads_back_writes() {
    let mut m: NamedMap<u32> = NamedMap::new();
    assert_eq!(m.insert("a".into(), 1), None);
    assert_eq!(m.insert("b".into(), 2), None);
    assert_eq!(m.insert("a".into(), 3), Some(1));
    assert_eq!(m.get("a"), Some(&3));
    assert_eq!(m.len(), 2);
    assert!(m.contains_key("b"));
    assert_eq!(m.remove("b"), Some(2));
    assert_eq!(m.remove("b"), None);
    assert_eq!(m.keys(), vec!["a".to_string()]);
    assert_eq!(m.entries().len(), 1);
    assert_eq!(m.into_entries(), vec![("a".to_string(), 3)]);
}
