use project_manager::text::{
    chars_of, clone_optional, clone_strings, is_whitespace, letters_match, same_text,
    text_contains, text_contains_ignoring_case, trim,
};

#[test]
fn chars_of_lists_the_characters() {
    assert_eq!(chars_of("añ€😀"), vec!['a', 'ñ', '€', '😀']);
    assert_eq!(chars_of(""), Vec::<char>::new());
}

#[test]
fn same_text_compares_content() {
    assert!(same_text("abc", "abc"));
    assert!(same_text("", ""));
    assert!(!same_text("abc", "abd"));
    assert!(!same_text("abc", "ab"));
    assert!(!same_text("abc", "ABC"));
}

#[test]
fn letters_match_with_and_without_case() {
    assert!(letters_match('a', 'a', false));
    assert!(!letters_match('a', 'A', false));
    assert!(letters_match('a', 'A', true));
    assert!(letters_match('Z', 'z', true));
    assert!(!letters_match('a', 'b', true));
    assert!(!letters_match('é', 'É', true));
    assert!(!letters_match('@', '`', true));
    assert!(!letters_match('[', '{', true));
}

#[test]
fn contains_finds_text_at_every_place() {
    assert!(text_contains("hello world", "hello"));
    assert!(text_contains("hello world", "o w"));
    assert!(text_contains("hello world", "world"));
    assert!(text_contains("hello world", ""));
    assert!(text_contains("", ""));
    assert!(!text_contains("", "a"));
    assert!(!text_contains("hello", "hello world"));
    assert!(!text_contains("hello world", "World"));
    assert!(text_contains("aab", "ab"));
    assert!(text_contains("grüße", "üß"));
}

#[test]
fn contains_ignoring_case_folds_ascii_letters() {
    assert!(text_contains_ignoring_case("Hello World", "WORLD"));
    assert!(text_contains_ignoring_case("HELLO", "ell"));
    assert!(!text_contains_ignoring_case("HELLO", "elo"));
    assert!(!text_contains_ignoring_case("GRÜSSE", "ü"));
    assert!(text_contains_ignoring_case("GRÜSSE", "Üs"));
}

#[test]
fn white_space_is_the_unicode_property() {
    for c in [' ', '\t', '\n', '\u{b}', '\u{c}', '\r', '\u{85}', '\u{a0}', '\u{1680}', '\u{2000}',
        '\u{200a}', '\u{2028}', '\u{2029}', '\u{202f}', '\u{205f}', '\u{3000}']
    {
        assert!(is_whitespace(c));
        assert!(c.is_whitespace());
    }
    for c in ['a', '0', '\u{0}', '\u{8}', '\u{e}', '\u{200b}', '\u{feff}', '\u{180e}'] {
        assert!(!is_whitespace(c));
        assert!(!c.is_whitespace());
    }
    for code in 0u32..0x3100 {
        if let Some(c) = char::from_u32(code) {
            assert_eq!(is_whitespace(c), c.is_whitespace());
        }
    }
}

#[test]
fn trim_removes_white_space_at_both_ends() {
    assert_eq!(trim("  abc \n"), "abc");
    assert_eq!(trim("abc"), "abc");
    assert_eq!(trim(" a b "), "a b");
    assert_eq!(trim(""), "");
    assert_eq!(trim(" \t\n"), "");
    assert_eq!(trim("\u{a0}é\u{3000}"), "é");
    for s in ["x", " x", "x ", "\n\nabc def\r\n", "  ", "a  b   "] {
        assert_eq!(trim(s), s.trim());
    }
}

#[test]
fn copies_equal_what_was_copied() {
    let items = vec!["a".to_string(), String::new(), "c".to_string()];
    assert_eq!(clone_strings(&items), items);
    assert_eq!(clone_optional(&Some("x".to_string())), Some("x".to_string()));
    assert_eq!(clone_optional(&None), None);
}
