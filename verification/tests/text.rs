use reminder_bot::parser::number::{digit_of, parse_digits, parse_unsigned};
use reminder_bot::text::{same_text, split_once_at};

#[test]
fn split_once_at_the_first_separator() {
    assert_eq!(split_once_at("a b c", ' '), Some(("a", "b c")));
    assert_eq!(split_once_at("key=value=more", '='), Some(("key", "value=more")));
    assert_eq!(split_once_at("=x", '='), Some(("", "x")));
    assert_eq!(split_once_at("x=", '='), Some(("x", "")));
    assert_eq!(split_once_at("=", '='), Some(("", "")));
    assert_eq!(split_once_at("==", '='), Some(("", "=")));
    assert_eq!(split_once_at("abc", '='), None);
    assert_eq!(split_once_at("", '='), None);
}

#[test]
fn split_once_counts_characters_not_bytes() {
    assert_eq!(
        split_once_at("\u{00e9}\u{1f600}\u{4e2d} \u{6587}x", ' '),
        Some(("\u{00e9}\u{1f600}\u{4e2d}", "\u{6587}x"))
    );
    assert_eq!(
        split_once_at("a\u{1f600}b\u{1f600}c", '\u{1f600}'),
        Some(("a", "b\u{1f600}c"))
    );
    assert_eq!(split_once_at("\u{00e9}\u{00e8}", '\u{00e8}'), Some(("\u{00e9}", "")));
}

#[test]
fn same_text_compares_every_character() {
    assert!(same_text("", ""));
    assert!(same_text("/later", "/later"));
    assert!(same_text("\u{00e9}t\u{00e9}", "\u{00e9}t\u{00e9}"));
    assert!(!same_text("/later", "/late"));
    assert!(!same_text("/late", "/later"));
    assert!(!same_text("/later", "/lateR"));
    assert!(!same_text("", "x"));
    assert!(!same_text("x", ""));
    assert!(!same_text("abc", "abd"));
    assert!(!same_text("xbc", "abc"));
}

#[test]
fn digit_of_the_ten_digits() {
    assert_eq!(digit_of('0'), Some(0));
    assert_eq!(digit_of('1'), Some(1));
    assert_eq!(digit_of('5'), Some(5));
    assert_eq!(digit_of('9'), Some(9));
    assert_eq!(digit_of('/'), None);
    assert_eq!(digit_of(':'), None);
    assert_eq!(digit_of('a'), None);
    assert_eq!(digit_of('+'), None);
    assert_eq!(digit_of('\u{0663}'), None);
}

#[test]
fn parse_digits_takes_digits_only() {
    assert_eq!(parse_digits("0"), Some(0));
    assert_eq!(parse_digits("1234567890"), Some(1234567890));
    assert_eq!(parse_digits("0042"), Some(42));
    assert_eq!(parse_digits("18446744073709551615"), Some(u64::MAX));
    assert_eq!(parse_digits("18446744073709551616"), None);
    assert_eq!(parse_digits(""), None);
    assert_eq!(parse_digits("+1"), None);
    assert_eq!(parse_digits("1a"), None);
    assert_eq!(parse_digits("a1"), None);
    assert_eq!(parse_digits("1 "), None);
}

#[test]
fn parse_unsigned_allows_one_plus() {
    assert_eq!(parse_unsigned("12"), Some(12));
    assert_eq!(parse_unsigned("+12"), Some(12));
    assert_eq!(parse_unsigned("+0"), Some(0));
    assert_eq!(parse_unsigned("+18446744073709551615"), Some(u64::MAX));
    assert_eq!(parse_unsigned("+18446744073709551616"), None);
    assert_eq!(parse_unsigned(""), None);
    assert_eq!(parse_unsigned("+"), None);
    assert_eq!(parse_unsigned("++1"), None);
    assert_eq!(parse_unsigned("-1"), None);
    assert_eq!(parse_unsigned("1+"), None);
    assert_eq!(parse_unsigned("+ 1"), None);
}

#[test]
fn parse_unsigned_agrees_with_the_standard_reading() {
    for text in [
        "", "0", "7", "+7", "-7", "+", "-", "++7", "+-7", "007", "7s", " 7", "7 ", "1_0", "1e3",
        "18446744073709551615", "18446744073709551616", "+18446744073709551615",
        "99999999999999999999", "0000000000000000000000001", "\u{0663}", "1\u{00e9}",
    ] {
        assert_eq!(parse_unsigned(text), text.parse::<u64>().ok(), "{:?}", text);
    }
}
