use procctl::text::{chars_of, contains, contains_chars, is_space, trim_bounds};

#[test]
fn chars_of_keeps_every_character() {
    assert_eq!(chars_of(""), Vec::<char>::new());
    assert_eq!(chars_of("a\u{e9}\u{4e2d}\u{1f600}"), vec!['a', '\u{e9}', '\u{4e2d}', '\u{1f600}']);
}

#[test]
fn space_is_what_std_calls_whitespace() {
    for code in 0..=0x10FFFFu32 {
        if let Some(c) = char::from_u32(code) {
            assert_eq!(is_space(c), c.is_whitespace());
        }
    }
}

#[test]
fn contains_finds_a_part_anywhere() {
    assert!(contains("abcdef", "abc"));
    assert!(contains("xxabc", "abc"));
    assert!(contains("xabcx", "abc"));
    assert!(contains("abc", "abc"));
    assert!(!contains("ab", "abc"));
    assert!(!contains("abxc", "abc"));
    assert!(!contains("", "abc"));
}

#[test]
fn contains_is_case_sensitive() {
    assert!(!contains("ABC", "abc"));
    assert!(!contains("xAbcx", "abc"));
    assert!(contains("xAbcx", "Abc"));
}

#[test]
fn empty_needle_is_in_everything() {
    assert!(contains("abc", ""));
    assert!(contains("", ""));
}

#[test]
fn contains_agrees_with_std() {
    let words = ["", "a", "ab", "ba", "aab", "abab", "bash", "Xorg", "systemd", "\u{e9}t\u{e9}"];
    for hay in words {
        for needle in words {
            assert_eq!(contains(hay, needle), hay.contains(needle));
            assert_eq!(contains_chars(&chars_of(hay), &chars_of(needle)), hay.contains(needle));
        }
    }
}

#[test]
fn trim_bounds_cut_white_space_at_both_ends() {
    let chars = chars_of("  \ta b \n");
    assert_eq!(trim_bounds(&chars, 0, chars.len()), (3, 6));
    assert_eq!(trim_bounds(&chars, 4, chars.len()), (5, 6));
    assert_eq!(trim_bounds(&chars, 0, 3), (3, 3));
    assert_eq!(trim_bounds(&chars, 3, 3), (3, 3));
}

#[test]
fn trim_bounds_agree_with_std() {
    let texts = ["", " ", "a", " a", "a ", "  a b  ", "\u{3000}x\u{a0}", "\t\n", "no-space"];
    for text in texts {
        let chars = chars_of(text);
        let (from, to) = trim_bounds(&chars, 0, chars.len());
        let cut: String = chars[from..to].iter().collect();
        assert_eq!(cut, text.trim());
    }
}
