use cortx_core::text::{
    chars_of, contains, decimal, is_whitespace, replace, split_lines, split_whitespace, starts_with,
    trim,
};

#[test]
fn decimal_notation_of_process_ids() {
    assert_eq!(decimal(0), "0");
    assert_eq!(decimal(7), "7");
    assert_eq!(decimal(10), "10");
    assert_eq!(decimal(4242), "4242");
    assert_eq!(decimal(u32::MAX), "4294967295");
}

#[test]
fn characters_keep_their_order() {
    assert_eq!(chars_of("hé✓ x"), vec!['h', 'é', '✓', ' ', 'x']);
    assert_eq!(trim("  hé✓ x "), "hé✓ x");
    assert_eq!(split_whitespace("ab ba"), vec!["ab", "ba"]);
}

#[test]
fn lines_end_with_a_line_feed() {
    assert_eq!(split_lines("a\nb\r\nc"), vec!["a", "b", "c"]);
    assert_eq!(split_lines("a\n\nb\n"), vec!["a", "", "b"]);
    assert_eq!(split_lines(""), Vec::<String>::new());
    assert_eq!(split_lines("\n"), vec![""]);
    assert_eq!(split_lines("a\r"), vec!["a\r"]);
    assert_eq!(split_lines("a\r\r\n"), vec!["a\r"]);
    for text in ["a\nb\r\nc", "a\n\nb\n", "", "\n", "a\r", "a\r\r\n", "\r\n\r"] {
        let expected: Vec<String> = text.lines().map(|l| l.to_string()).collect();
        assert_eq!(split_lines(text), expected);
    }
}

#[test]
fn contains_finds_a_text_anywhere() {
    assert!(contains("ERROR: process not found", "not found"));
    assert!(contains("abc", ""));
    assert!(contains("", ""));
    assert!(!contains("", "a"));
    assert!(!contains("abc", "abcd"));
    assert!(contains("aab", "ab"));
    assert!(!contains("No task", "No tasks"));
}

#[test]
fn words_are_runs_without_white_space() {
    assert_eq!(split_whitespace("  a \t b\nc  "), vec!["a", "b", "c"]);
    assert_eq!(split_whitespace(""), Vec::<String>::new());
    assert_eq!(split_whitespace(" \u{a0}\u{3000} "), Vec::<String>::new());
    assert_eq!(split_whitespace("one"), vec!["one"]);
}

#[test]
fn white_space_is_the_unicode_property() {
    for c in [' ', '\t', '\n', '\r', '\u{b}', '\u{c}', '\u{85}', '\u{a0}', '\u{1680}', '\u{2003}', '\u{2028}', '\u{2029}', '\u{202f}', '\u{205f}', '\u{3000}'] {
        assert!(is_whitespace(c));
        assert!(c.is_whitespace());
    }
    for c in ['a', '0', '\u{200b}', '\u{feff}', '-'] {
        assert!(!is_whitespace(c));
        assert!(!c.is_whitespace());
    }
}

#[test]
fn trim_removes_white_space_at_both_ends() {
    assert_eq!(trim("  a b \n"), "a b");
    assert_eq!(trim(""), "");
    assert_eq!(trim(" \t "), "");
    assert_eq!(trim("x"), "x");
}

#[test]
fn replace_goes_left_to_right_without_overlap() {
    assert_eq!(replace("aaa", "aa", "b"), "ba");
    assert_eq!(replace("a-b-c", "-", "+"), "a+b+c");
    assert_eq!(replace("abc", "x", "y"), "abc");
    assert_eq!(replace("abc", "", "y"), "abc");
    assert_eq!(replace("", "a", "b"), "");
    assert_eq!(replace("abab", "ab", ""), "");
}

#[test]
fn starts_with_looks_at_the_beginning_only() {
    assert!(starts_with(".env.local", ".env."));
    assert!(!starts_with("x.env.", ".env."));
    assert!(starts_with("abc", ""));
    assert!(!starts_with("ab", "abc"));
}
