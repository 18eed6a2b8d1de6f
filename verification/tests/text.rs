use dynamic_launcher::text::{
    decimal_int_text, decimal_text, digit, ends_with, equal, join, letter, number_at_front,
    split_on, starts_with, strip_suffix, text_after, to_chars,
};

#[test]
fn letters_and_digits_are_ascii() {
    for c in ['a', 'Z', 'm', '0', '9', '_', '-', '\u{e9}', '\u{664}', '/', ':', '@', '[', '`', '{'] {
        assert_eq!(letter(c), c.is_ascii_alphabetic());
        assert_eq!(digit(c), c.is_ascii_digit());
    }
}

#[test]
fn decimals_are_those_of_the_standard_library() {
    for n in [0u32, 1, 9, 10, 99, 100, 512, 4096, 1048576, 4294967295] {
        assert_eq!(decimal_text(n), n.to_string());
    }
    for n in [0i32, 7, -7, 10, -10, 2147483647, -2147483648] {
        assert_eq!(decimal_int_text(n), n.to_string());
    }
}

#[test]
fn leading_numbers_are_those_of_the_standard_library() {
    for s in ["512", "512abc", "", "abc", "-5", "+5", "007", "2147483647", "2147483648", "99999999999", "12x34"] {
        let expected: i32 = s
            .chars()
            .take_while(|c| c.is_ascii_digit())
            .collect::<String>()
            .parse()
            .unwrap_or(0);
        assert_eq!(number_at_front(s), expected);
    }
}

#[test]
fn splitting_and_joining() {
    for s in ["", "a", "a.b", ".a..b.", "...", "\u{e9}.x"] {
        let pieces = split_on(s, '.');
        let expected: Vec<String> = s.split('.').map(String::from).collect();
        assert_eq!(pieces, expected);
        assert_eq!(join(&pieces, "."), s);
        assert_eq!(join(&pieces, ", "), expected.join(", "));
    }
    assert_eq!(join(&Vec::new(), " "), "");
}

#[test]
fn prefixes_and_suffixes() {
    for (s, t) in [("", ""), ("abc", ""), ("abc", "ab"), ("abc", "bc"), ("ab", "abc"), ("\u{e9}a", "a"), ("a", "\u{e9}")] {
        assert_eq!(starts_with(s, t), s.starts_with(t));
        assert_eq!(ends_with(s, t), s.ends_with(t));
        assert_eq!(strip_suffix(s, t), s.strip_suffix(t));
        assert_eq!(equal(s, t), s == t);
        assert!(equal(s, s));
    }
    assert_eq!(to_chars("a\u{e9}"), vec!['a', '\u{e9}']);
}

#[test]
fn text_behind_a_character() {
    assert_eq!(text_after("512x512", 'x'), Some("512"));
    assert_eq!(text_after("xx", 'x'), Some("x"));
    assert_eq!(text_after("\u{e9}x1", 'x'), Some("1"));
    assert_eq!(text_after("512", 'x'), None);
    assert_eq!(text_after("", 'x'), None);
}
