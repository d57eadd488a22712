use jsmoke::text::{
    chars_of, decimal, eq_ignore_ascii_case, find_from, is_whitespace, matches_at, parse_u16,
    split, split_once, strip_prefix, strip_suffix, trim,
};

#[test]
fn chars_of_lists_the_characters() {
    assert_eq!(chars_of(""), Vec::<char>::new());
    assert_eq!(chars_of("aé😎"), vec!['a', 'é', '😎']);
}

#[test]
fn white_space_is_what_unicode_says() {
    for code in 0..0x11_0000u32 {
        if let Some(c) = char::from_u32(code) {
            assert_eq!(is_whitespace(c), c.is_whitespace(), "U+{:04X}", code);
        }
    }
}

#[test]
fn trim_agrees_with_the_standard_library() {
    for s in ["", " ", "a", " a", "a ", "  a b  ", "\t\n a\u{00A0}\u{3000}", "\u{2003}x\u{2003}y\u{2003}", "é ", " 😎"] {
        assert_eq!(trim(s), s.trim(), "{:?}", s);
    }
}

#[test]
fn split_agrees_with_the_standard_library() {
    for s in ["", ".", "a", "a.b", ".a", "a.", "a..b", "...", "é.😎.x"] {
        let expected: Vec<String> = s.split('.').map(|p| p.to_string()).collect();
        assert_eq!(split(s, '.'), expected, "{:?}", s);
    }
}

#[test]
fn parse_u16_agrees_with_the_standard_library() {
    for s in ["", "+", "0", "+0", "7", "007", "65535", "65536", "+65535", "000065535", "99999999999999999999", "1a", "a1", "-1", " 1", "1 ", "1_0", "++1", "٣"] {
        assert_eq!(parse_u16(s), s.parse::<u16>().ok(), "{:?}", s);
    }
}

#[test]
fn decimal_agrees_with_the_standard_library() {
    for n in [0usize, 1, 9, 10, 11, 99, 100, 101, 65535, 65536, 1_000_000, usize::MAX] {
        assert_eq!(decimal(n), n.to_string());
    }
}

#[test]
fn decimal_and_parse_u16_are_inverse() {
    for n in [0u16, 5, 10, 255, 256, 9999, 10000, 65535] {
        assert_eq!(parse_u16(&decimal(usize::from(n))), Some(n));
    }
}

#[test]
fn find_from_gives_the_first_position_in_characters() {
    let hay = chars_of("é<=>b<=>c");
    let pat = chars_of("<=>");
    assert_eq!(find_from(&hay, &pat, 0), Some(1));
    assert_eq!(find_from(&hay, &pat, 1), Some(1));
    assert_eq!(find_from(&hay, &pat, 2), Some(5));
    assert_eq!(find_from(&hay, &pat, 6), None);
    assert_eq!(find_from(&hay, &pat, 100), None);
    assert_eq!(find_from(&hay, &chars_of(""), 9), Some(9));
    assert_eq!(find_from(&hay, &chars_of(""), 10), None);
    assert!(matches_at(&hay, &pat, 5));
    assert!(!matches_at(&hay, &pat, 6));
    assert!(!matches_at(&hay, &pat, 8));
}

#[test]
fn prefixes_and_suffixes_are_stripped_once() {
    assert_eq!(strip_prefix("^=1.2", "^="), Some("1.2"));
    assert_eq!(strip_prefix("^=1.2", "^"), Some("=1.2"));
    assert_eq!(strip_prefix("^=1.2", "="), None);
    assert_eq!(strip_prefix("", "="), None);
    assert_eq!(strip_prefix("ab", ""), Some("ab"));
    assert_eq!(strip_prefix("``x", "`"), Some("`x"));
    assert_eq!(strip_suffix("x``", "`"), Some("x`"));
    assert_eq!(strip_suffix("x", "`"), None);
    assert_eq!(strip_suffix("`", "`"), Some(""));
    assert_eq!(strip_suffix("é😎", "😎"), Some("é"));
}

#[test]
fn split_once_splits_at_the_first_occurrence() {
    assert_eq!(split_once("1.0<=>2.0", "<=>"), Some(("1.0", "2.0")));
    assert_eq!(split_once("a<=>b<=>c", "<=>"), Some(("a", "b<=>c")));
    assert_eq!(split_once("<=>", "<=>"), Some(("", "")));
    assert_eq!(split_once("a<=b", "<=>"), None);
    assert_eq!(split_once("é::b", "::"), Some(("é", "b")));
}

#[test]
fn ascii_case_is_left_aside_for_ascii_letters_only() {
    assert!(eq_ignore_ascii_case("Git", "gIT"));
    assert!(eq_ignore_ascii_case("", ""));
    assert!(!eq_ignore_ascii_case("git", "gi"));
    assert!(!eq_ignore_ascii_case("É", "é"));
    assert!(!eq_ignore_ascii_case("[", "{"));
    assert!(!eq_ignore_ascii_case("@", "`"));
    for (a, b) in [("aZ09", "Az09"), ("x", "y"), ("K", "\u{212A}")] {
        assert_eq!(eq_ignore_ascii_case(a, b), a.eq_ignore_ascii_case(b));
    }
}
