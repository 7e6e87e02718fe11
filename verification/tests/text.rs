use tg_ai_moderator::text::{
    chars_of, eq_ignore_ascii_case, is_ascii_whitespace, is_whitespace, same_text, split_once,
    split_whitespace, starts_with_char, to_ascii_lower, trim, trim_ascii, trim_end_matches,
    trim_start_matches,
};

#[test]
fn whitespace_is_that_of_unicode() {
    for code in 0u32..=0x10FFFF {
        if let Some(c) = char::from_u32(code) {
            assert_eq!(is_whitespace(c), c.is_whitespace(), "U+{code:04X}");
            assert_eq!(is_ascii_whitespace(c), c.is_ascii() && (c as u8).is_ascii_whitespace());
            assert_eq!(to_ascii_lower(c), c.to_ascii_lowercase());
        }
    }
}

#[test]
fn trimming_agrees_with_std() {
    for s in ["", " ", "a", " a ", "\t\n a b \r\n", "\u{a0}x\u{3000}", "\u{b}x\u{b}", "   ", "a  ", "  a", "\u{1680}\u{2028}"] {
        assert_eq!(trim(s), s.trim(), "{s:?}");
        assert_eq!(trim_ascii(s), s.trim_ascii(), "{s:?}");
    }
}

#[test]
fn repeated_patterns_are_stripped_as_std_does() {
    for (s, p) in [("aaab", "a"), ("ababx", "ab"), ("x", "x"), ("", "x"), ("abc", ""), ("xxabxx", "xx"), ("aaa", "aa"), ("äöü", "ä")] {
        assert_eq!(trim_start_matches(s, p), s.trim_start_matches(p), "{s:?} {p:?}");
    }
    for (s, p) in [("baaa", "a"), ("xabab", "ab"), ("x", "x"), ("", "x"), ("xxabxx", "xx"), ("aaa", "aa"), ("äöü", "ü")] {
        assert_eq!(trim_end_matches(s, p), s.trim_end_matches(p), "{s:?} {p:?}");
    }
    assert_eq!(trim_end_matches("abc", ""), "abc");
}

#[test]
fn splitting_at_the_first_delimiter() {
    assert_eq!(split_once("a b c", ' '), Some(("a", "b c")));
    assert_eq!(split_once(" a", ' '), Some(("", "a")));
    assert_eq!(split_once("a ", ' '), Some(("a", "")));
    assert_eq!(split_once("abc", ' '), None);
    assert_eq!(split_once("", ' '), None);
    assert_eq!(split_once("ключ=значение", '='), Some(("ключ", "значение")));
}

#[test]
fn comparing_texts() {
    assert!(same_text("abc", "abc"));
    assert!(!same_text("abc", "abd"));
    assert!(!same_text("abc", "ab"));
    assert!(same_text("", ""));
    assert!(eq_ignore_ascii_case("BaN", "ban"));
    assert!(eq_ignore_ascii_case("", ""));
    assert!(!eq_ignore_ascii_case("ban", "bar"));
    assert!(!eq_ignore_ascii_case("ban", "bann"));
    assert!(!eq_ignore_ascii_case("\u{212a}", "k"));
    assert!(starts_with_char("/help", '/'));
    assert!(!starts_with_char("help", '/'));
    assert!(!starts_with_char("", '/'));
}

#[test]
fn characters_of_a_text() {
    assert_eq!(chars_of("aß€"), vec!['a', 'ß', '€']);
    assert_eq!(chars_of(""), Vec::<char>::new());
}

#[test]
fn words_of_a_text() {
    for s in ["", " ", "a", " a ", "a b", "  a\t\tb\n c  ", "\u{3000}x\u{a0}y", "один два", "a\u{b}b"] {
        assert_eq!(split_whitespace(s), s.split_whitespace().collect::<Vec<&str>>(), "{s:?}");
    }
    assert_eq!(split_whitespace(" ban  now "), vec!["ban", "now"]);
}
