use quickgc::text::{
    chars_of, contains_uppercase, find_char, is_blank, is_white_space, str_contains,
    str_ends_with,
};

#[test]
fn white_space_is_what_std_takes_for_it() {
    let mut count = 0;
    for code in 0..=0x10FFFF_u32 {
        if let Some(c) = char::from_u32(code) {
            assert_eq!(is_white_space(c), c.is_whitespace(), "U+{:04X}", code);
            if is_white_space(c) {
                count += 1;
            }
        }
    }
    assert_eq!(count, 25);
}

#[test]
fn white_space_by_example() {
    for c in [' ', '\t', '\n', '\r', '\u{b}', '\u{c}', '\u{85}', '\u{a0}', '\u{2028}', '\u{3000}'] {
        assert!(is_white_space(c), "{:?}", c);
    }
    for c in ['a', '.', '\u{0}', '\u{8}', '\u{e}', '\u{1f}', '\u{200b}', '\u{180e}', '\u{feff}'] {
        assert!(!is_white_space(c), "{:?}", c);
    }
}

#[test]
fn blank_is_what_trimming_leaves_empty() {
    for s in ["", " ", "\t\r\n", "\u{a0}\u{2003} ", "a", " a ", "\n.\n", "\u{200b}", " \u{0} "] {
        assert_eq!(is_blank(s), s.trim().is_empty(), "{:?}", s);
    }
    assert!(is_blank(""));
    assert!(is_blank(" \n\t"));
    assert!(!is_blank(" x "));
}

#[test]
fn uppercase_is_found_anywhere() {
    assert!(contains_uppercase("Feat"));
    assert!(contains_uppercase("feaT"));
    assert!(contains_uppercase("f\u{c9}at"));
    assert!(contains_uppercase("\u{394}"));
    assert!(!contains_uppercase("feat"));
    assert!(!contains_uppercase(""));
    assert!(!contains_uppercase("f\u{e9}at 1 (x)!"));
    assert!(!contains_uppercase("\u{4e2d}"));
}

#[test]
fn ends_with_looks_at_the_last_character() {
    assert!(str_ends_with("add x.", '.'));
    assert!(str_ends_with(".", '.'));
    assert!(str_ends_with("caf\u{e9}", '\u{e9}'));
    assert!(!str_ends_with("", '.'));
    assert!(!str_ends_with("add x. ", '.'));
    assert!(!str_ends_with(".x", '.'));
    for s in ["", ".", "a.", ".a", "\u{e9}.", ".\u{e9}"] {
        assert_eq!(str_ends_with(s, '.'), s.ends_with('.'), "{:?}", s);
    }
}

#[test]
fn contains_is_what_std_takes_for_it() {
    let hays = ["", "a", "ab", "aab", "abab", "Changes not staged for commit:", "b\u{e9}b\u{e9}"];
    let needles = ["", "a", "b", "ab", "ba", "aab", "abc", "\u{e9}b", "not staged", "commit::"];
    for hay in hays {
        for needle in needles {
            assert_eq!(str_contains(hay, needle), hay.contains(needle), "{:?} {:?}", hay, needle);
        }
    }
}

#[test]
fn contains_by_example() {
    assert!(str_contains("abc", ""));
    assert!(str_contains("", ""));
    assert!(str_contains("abc", "abc"));
    assert!(str_contains("abc", "c"));
    assert!(!str_contains("abc", "abcd"));
    assert!(!str_contains("", "a"));
    assert!(!str_contains("aaa", "aab"));
}

#[test]
fn characters_come_in_their_order() {
    assert_eq!(chars_of(""), Vec::<char>::new());
    assert_eq!(chars_of("a\u{e9}\u{4e2d}!"), vec!['a', '\u{e9}', '\u{4e2d}', '!']);
}

#[test]
fn find_char_gives_the_first_place_in_the_range() {
    let v = chars_of("a:b:c");
    assert_eq!(find_char(&v, 0, 5, ':'), 1);
    assert_eq!(find_char(&v, 2, 5, ':'), 3);
    assert_eq!(find_char(&v, 4, 5, ':'), 5);
    assert_eq!(find_char(&v, 0, 1, ':'), 1);
    assert_eq!(find_char(&v, 0, 0, 'a'), 0);
    assert_eq!(find_char(&v, 0, 5, 'x'), 5);
}
