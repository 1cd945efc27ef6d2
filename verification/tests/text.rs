use minipascal::text::{
    char_is_ascii, char_is_letter_or_digit, char_is_word, eq_ignore_case, escape_text,
    from_chars, i64_to_string, join2, join7, parse_digits, parse_integer, parse_signed, same,
    substring, to_chars, to_lower, u64_to_string, unescape_range, usize_to_string,
};

#[test]
fn decimal_notation() {
    assert_eq!(u64_to_string(0), "0");
    assert_eq!(u64_to_string(7), "7");
    assert_eq!(u64_to_string(10), "10");
    assert_eq!(u64_to_string(1234567890123), "1234567890123");
    assert_eq!(u64_to_string(u64::MAX), "18446744073709551615");
    assert_eq!(usize_to_string(42), "42");
    assert_eq!(i64_to_string(0), "0");
    assert_eq!(i64_to_string(-1), "-1");
    assert_eq!(i64_to_string(i64::MAX), "9223372036854775807");
    assert_eq!(i64_to_string(i64::MIN), "-9223372036854775808");
}

#[test]
fn integer_literals() {
    assert_eq!(parse_integer("0"), Some(0));
    assert_eq!(parse_integer("123"), Some(123));
    assert_eq!(parse_integer("007"), Some(7));
    assert_eq!(parse_integer("9223372036854775807"), Some(i64::MAX));
    assert_eq!(parse_integer("9223372036854775808"), None);
    assert_eq!(parse_integer("99999999999999999999999"), None);
    assert_eq!(parse_integer(""), None);
    assert_eq!(parse_integer("12a"), None);
    assert_eq!(parse_integer("-1"), None);
    assert_eq!(parse_integer("1.5"), None);
}

#[test]
fn digits_up_to_a_limit() {
    let digits = |s: &str| to_chars(s);
    assert_eq!(parse_digits(&digits("3"), 0, 5), Some(3));
    assert_eq!(parse_digits(&digits("5"), 0, 5), Some(5));
    assert_eq!(parse_digits(&digits("7"), 0, 5), None);
    assert_eq!(parse_digits(&digits("0"), 0, 0), Some(0));
    assert_eq!(parse_digits(&digits("000"), 0, 0), Some(0));
    assert_eq!(parse_digits(&digits("1"), 0, 0), None);
    assert_eq!(parse_digits(&digits("10"), 0, 9), None);
    assert_eq!(parse_digits(&digits("x42"), 1, 42), Some(42));
    assert_eq!(parse_digits(&digits("x42"), 1, 41), None);
    assert_eq!(parse_digits(&digits("x42"), 3, 41), None);
    assert_eq!(parse_digits(&digits("18446744073709551615"), 0, u64::MAX), Some(u64::MAX));
    assert_eq!(parse_digits(&digits("18446744073709551616"), 0, u64::MAX), None);
}

#[test]
fn decimal_round_trip() {
    for n in [0i64, 1, 9, 10, 99, 100, 65535, 1 << 40, i64::MAX] {
        assert_eq!(parse_integer(&i64_to_string(n)), Some(n));
    }
}

#[test]
fn comparison_ignoring_ascii_case() {
    assert!(eq_ignore_case("Foo", "fOO"));
    assert!(eq_ignore_case("", ""));
    assert!(eq_ignore_case("a_1", "A_1"));
    assert!(!eq_ignore_case("a", "ab"));
    assert!(!eq_ignore_case("a", "b"));
    assert!(!eq_ignore_case("\u{c9}", "\u{e9}"));
    assert!(!eq_ignore_case("@", "`"));
    assert!(!eq_ignore_case("[", "{"));
    assert!(same("abc", "abc"));
    assert!(!same("abc", "abC"));
    assert!(!same("abc", "ab"));
}

#[test]
fn characters_and_strings() {
    let v = to_chars("h\u{e9}llo");
    assert_eq!(v, vec!['h', '\u{e9}', 'l', 'l', 'o']);
    assert_eq!(from_chars(&v), "h\u{e9}llo");
    assert_eq!(substring(&v, 1, 3), "\u{e9}l");
    assert_eq!(substring(&v, 2, 2), "");
    assert_eq!(join2("ab", "cd"), "abcd");
    assert_eq!(join7("a", "b", "c", "d", "e", "f", "g"), "abcdefg");
}

#[test]
fn escape_sequences_are_read() {
    let raw = to_chars("a\\nb\\tc\\rd\\\\e\\\"f\\'g");
    assert_eq!(unescape_range(&raw, 0, raw.len()), "a\nb\tc\rd\\e\"f'g");
    let unknown = to_chars("a\\qb\\");
    assert_eq!(unescape_range(&unknown, 0, unknown.len()), "a\\qb\\");
    // the backslash of an escaped backslash starts no other sequence
    let double = to_chars("\\\\n");
    assert_eq!(unescape_range(&double, 0, double.len()), "\\n");
    assert_eq!(unescape_range(&double, 1, double.len()), "\n");
}

#[test]
fn escape_sequences_are_written() {
    assert_eq!(escape_text("a\nb\tc\rd\\e\"f'g"), "a\\nb\\tc\\rd\\\\e\\\"f\\'g");
    assert_eq!(escape_text("plain"), "plain");
    assert_eq!(escape_text(""), "");
}

#[test]
fn reading_what_was_written_gives_the_text() {
    for text in ["", "plain", "a\nb", "\\n", "\\\\", "\"quoted\"", "tab\there", "it's", "\\q\r"] {
        let written = to_chars(&escape_text(text));
        assert_eq!(unescape_range(&written, 0, written.len()), text);
    }
}

#[test]
fn text_without_backslash_denotes_itself() {
    for text in ["", "plain", "a\nb", "\"quoted\"", "it's"] {
        let raw = to_chars(text);
        let once = unescape_range(&raw, 0, raw.len());
        assert_eq!(once, text);
        let again = to_chars(&once);
        assert_eq!(unescape_range(&again, 0, again.len()), text);
    }
}

#[test]
fn numbers_with_a_sign() {
    assert_eq!(parse_signed("0"), Some(0));
    assert_eq!(parse_signed("-0"), Some(0));
    assert_eq!(parse_signed("+17"), Some(17));
    assert_eq!(parse_signed("-17"), Some(-17));
    assert_eq!(parse_signed("9223372036854775807"), Some(i64::MAX));
    assert_eq!(parse_signed("9223372036854775808"), None);
    assert_eq!(parse_signed("-9223372036854775808"), Some(i64::MIN));
    assert_eq!(parse_signed("-9223372036854775809"), None);
    assert_eq!(parse_signed(""), None);
    assert_eq!(parse_signed("+"), None);
    assert_eq!(parse_signed("-"), None);
    assert_eq!(parse_signed("--1"), None);
    assert_eq!(parse_signed("1-"), None);
    assert_eq!(parse_signed(" 1"), None);
    for text in ["12", "-12", "+12", "x", "", "00012", "99999999999999999999"].iter() {
        assert_eq!(parse_signed(text), text.parse::<i64>().ok(), "{:?}", text);
    }
}

#[test]
fn letters_digits_and_lowercase_forms() {
    for c in ['a', 'z', 'A', 'Z', '0', '9', 'é', 'Ж', '٣', '中'] {
        assert!(char_is_letter_or_digit(c), "{:?}", c);
        assert!(char_is_word(c));
    }
    for c in ['_', ' ', '-', '@', '[', '`', '{', '\u{7f}', '\u{85}', '€', '\n'] {
        assert!(!char_is_letter_or_digit(c), "{:?}", c);
    }
    assert!(char_is_word('_'));
    let mut n: u32 = 0;
    while n < 0x3100 {
        if let Some(c) = char::from_u32(n) {
            assert_eq!(char_is_letter_or_digit(c), c.is_alphanumeric(), "{:?}", c);
            assert_eq!(char_is_ascii(c), c.is_ascii());
        }
        n += 1;
    }
    assert_eq!(to_lower("AbC_1 xY"), "abc_1 xy");
    assert_eq!(to_lower(""), "");
    assert_eq!(to_lower("ÄbC"), "äbc");
    assert_eq!(to_lower("ΣΑΣ"), "σας");
    for text in ["Hello, World", "ÀÉÎ", "mixed Ünicode AND ascii", "İ"] {
        assert_eq!(to_lower(text), text.to_lowercase());
    }
}
