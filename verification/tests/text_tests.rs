use koushin::text::{decimal_text, parse_usize, text_equals, text_precedes};

#[test]
fn equal_texts() {
    assert!(text_equals("monday", "monday"));
    assert!(text_equals("", ""));
    assert!(!text_equals("monday", "Monday"));
    assert!(!text_equals("mon", "monday"));
}

#[test]
fn lexicographic_order() {
    assert!(text_precedes("a", "b"));
    assert!(text_precedes("ab", "b"));
    assert!(text_precedes("", "a"));
    assert!(text_precedes("Zeta", "alpha"));
    assert!(text_precedes("abc", "abcd"));
    assert!(!text_precedes("b", "a"));
    assert!(!text_precedes("same", "same"));
    assert!(!text_precedes("abcd", "abc"));
    assert!(text_precedes("é", "日本"));
}

#[test]
fn order_matches_str_order() {
    let words = ["", "a", "ab", "b", "Z", "é", "ø", "日本", "日", "abc", "aBc"];
    for x in words.iter() {
        for y in words.iter() {
            assert_eq!(text_precedes(x, y), x < y, "{} {}", x, y);
        }
    }
}

#[test]
fn decimal_numbers() {
    assert_eq!(decimal_text(0), "0");
    assert_eq!(decimal_text(7), "7");
    assert_eq!(decimal_text(10), "10");
    assert_eq!(decimal_text(1234), "1234");
    assert_eq!(decimal_text(usize::MAX), usize::MAX.to_string());
}

#[test]
fn parse_unsigned_numbers() {
    assert_eq!(parse_usize("42"), Some(42));
    assert_eq!(parse_usize("+7"), Some(7));
    assert_eq!(parse_usize("007"), Some(7));
    assert_eq!(parse_usize("0"), Some(0));
    assert_eq!(parse_usize(""), None);
    assert_eq!(parse_usize("+"), None);
    assert_eq!(parse_usize("-1"), None);
    assert_eq!(parse_usize("-0"), None);
    assert_eq!(parse_usize("1a"), None);
    assert_eq!(parse_usize(" 1"), None);
    assert_eq!(parse_usize("1 "), None);
    assert_eq!(parse_usize("++1"), None);
}

#[test]
fn parse_overflow() {
    let max = usize::MAX.to_string();
    assert_eq!(parse_usize(&max), Some(usize::MAX));
    let over = format!("{}0", max);
    assert_eq!(parse_usize(&over), None);
    let over_then_letter = format!("{}0x", max);
    assert_eq!(parse_usize(&over_then_letter), None);
}

#[test]
fn parse_agrees_with_std() {
    let inputs = ["12", "+12", "-12", "", "+", "1_000", "٣", "00", "9999999999999999999999", "4294967296"];
    for s in inputs.iter() {
        assert_eq!(parse_usize(s), s.parse::<usize>().ok(), "{}", s);
    }
}

#[test]
fn format_then_parse() {
    for n in [0usize, 1, 9, 10, 99, 100, 65535, 1 << 40, usize::MAX].iter() {
        assert_eq!(parse_usize(&decimal_text(*n)), Some(*n));
    }
}
