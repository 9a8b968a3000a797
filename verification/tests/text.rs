use v_voice::text::{
    after_last, chars_of, contains, decimal, ends_with, is_whitespace, join, lines, same,
    starts_with, string_of, trim, trim_start,
};

#[test]
fn whitespace_is_that_of_unicode() {
    for n in 0..=0x10_ffffu32 {
        if let Some(c) = char::from_u32(n) {
            assert_eq!(is_whitespace(c), c.is_whitespace(), "{:x}", n);
        }
    }
}

#[test]
fn trimming_takes_white_space_off_both_ends() {
    for s in ["", " ", "\t\n", "a", " a", "a ", " a b \r\n", "\u{3000}xin chào\u{a0}"] {
        assert_eq!(trim(s), s.trim());
        assert_eq!(trim_start(s), s.trim_start());
        assert_eq!(trim(&trim(s)), s.trim());
    }
    assert_eq!(trim("  hello world \n"), "hello world");
    assert_eq!(trim_start("  hello world \n"), "hello world \n");
}

#[test]
fn lines_end_with_line_feeds() {
    for s in ["", "\n", "a", "a\n", "a\nb", "a\r\nb\r\n", "a\r", "\r\n", "a\n\nb", "a\r\r\nb"] {
        let expected: Vec<String> = s.lines().map(|line| line.to_string()).collect();
        assert_eq!(lines(s), expected, "{:?}", s);
    }
    assert_eq!(lines("one\r\ntwo\nthree"), vec!["one", "two", "three"]);
}

#[test]
fn texts_are_joined_with_a_separator() {
    assert_eq!(join(&vec![], " "), "");
    assert_eq!(join(&vec!["a".to_string()], " "), "a");
    assert_eq!(join(&vec!["a".to_string(), "".to_string(), "b".to_string()], ", "), "a, , b");
}

#[test]
fn parts_of_texts_are_found() {
    assert!(starts_with("Duration: 3", "Duration"));
    assert!(!starts_with("Dur", "Duration"));
    assert!(starts_with("x", ""));
    assert!(ends_with("audio.wav", ".wav"));
    assert!(!ends_with("wav", ".wav"));
    assert!(contains("say C:\\x", ":\\"));
    assert!(contains("abcabd", "abd"));
    assert!(contains("", ""));
    assert!(!contains("ab", "abc"));
    assert!(same("tiếng Việt", "tiếng Việt"));
    assert!(!same("a", "ab"));
}

#[test]
fn what_follows_the_last_slash_is_found() {
    assert_eq!(after_last("a/b/c.dll", '/'), "c.dll");
    assert_eq!(after_last("c.dll", '/'), "c.dll");
    assert_eq!(after_last("a/b/", '/'), "");
    assert_eq!(after_last("", '/'), "");
}

#[test]
fn characters_make_texts_and_back() {
    let chars = chars_of("đầy đủ");
    assert_eq!(chars, "đầy đủ".chars().collect::<Vec<char>>());
    assert_eq!(string_of(&chars, 0, chars.len()), "đầy đủ");
    assert_eq!(string_of(&chars, 1, 3), "ầy");
    assert_eq!(string_of(&chars, 2, 2), "");
}

#[test]
fn numbers_are_written_in_decimal() {
    for n in [0u64, 9, 10, 99, 100, 8976, 65535, 1920, u64::MAX] {
        assert_eq!(decimal(n), n.to_string());
    }
}
