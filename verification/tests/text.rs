use git_deploy::text::{
    chars_of, decimal_string, ends_with, is_whitespace, nth_field, nth_word, replace,
    join, same, starts_with, string_of, trim_end_matches,
};

#[test]
fn chars_and_back() {
    let v = chars_of("héllo");
    assert_eq!(v, vec!['h', 'é', 'l', 'l', 'o']);
    assert_eq!(string_of(&v, 0, 5), "héllo");
    assert_eq!(string_of(&v, 1, 3), "él");
    assert_eq!(string_of(&v, 2, 2), "");
}

#[test]
fn join_appends() {
    assert_eq!(join("ab", "cd"), "abcd");
    assert_eq!(join("", "x"), "x");
    assert_eq!(join("x", ""), "x");
}

#[test]
fn same_compares_characters() {
    assert!(same("Basic", "Basic"));
    assert!(!same("Basic", "basic"));
    assert!(!same("Basic", "Basi"));
    assert!(same("", ""));
}

#[test]
fn prefix_and_suffix() {
    assert!(starts_with("git-upload-pack", "git-"));
    assert!(!starts_with("gi", "git-"));
    assert!(!starts_with("upload-pack", "git-"));
    assert!(starts_with("abc", ""));
    assert!(ends_with("proj.git", ".git"));
    assert!(!ends_with("proj.gi", ".git"));
    assert!(!ends_with("git", ".git"));
    assert!(ends_with(".git", ".git"));
    assert!(ends_with("abc", ""));
}

#[test]
fn trim_end_matches_removes_every_trailing_copy() {
    assert_eq!(trim_end_matches("proj.git", ".git"), "proj");
    assert_eq!(trim_end_matches("proj.git.git", ".git"), "proj");
    assert_eq!(trim_end_matches("proj", ".git"), "proj");
    assert_eq!(trim_end_matches(".git", ".git"), "");
    assert_eq!(trim_end_matches("a.gitb", ".git"), "a.gitb");
    assert_eq!(trim_end_matches("abc", ""), "abc");
}

#[test]
fn replace_turns_every_occurrence() {
    assert_eq!(replace("a.b.c", '.', '-'), "a-b-c");
    assert_eq!(replace("abc", '.', '-'), "abc");
    assert_eq!(replace("...", '.', '-'), "---");
    assert_eq!(replace("", '.', '-'), "");
}

#[test]
fn decimal_string_of_numbers() {
    assert_eq!(decimal_string(0), "0");
    assert_eq!(decimal_string(7), "7");
    assert_eq!(decimal_string(10), "10");
    assert_eq!(decimal_string(31536000), "31536000");
    assert_eq!(decimal_string(u128::MAX), u128::MAX.to_string());
}

#[test]
fn whitespace_is_the_unicode_property() {
    for code in 0u32..=0x3100 {
        if let Some(c) = char::from_u32(code) {
            assert_eq!(is_whitespace(c), c.is_whitespace(), "U+{:04X}", code);
        }
    }
    assert!(!is_whitespace('\u{FEFF}'));
    assert!(!is_whitespace('\u{10FFFF}'));
}

#[test]
fn words_are_parted_by_white_space() {
    assert_eq!(nth_word("Basic abc", 0), "Basic");
    assert_eq!(nth_word("Basic abc", 1), "abc");
    assert_eq!(nth_word("Basic abc", 2), "");
    assert_eq!(nth_word("  Basic \t abc  ", 0), "Basic");
    assert_eq!(nth_word("  Basic \t abc  ", 1), "abc");
    assert_eq!(nth_word("", 0), "");
    assert_eq!(nth_word("   ", 0), "");
    assert_eq!(nth_word("one", 1), "");
    let s = "a bb\u{2003}ccc\n dddd";
    let expected: Vec<&str> = s.split_whitespace().collect();
    for (i, word) in expected.iter().enumerate() {
        assert_eq!(nth_word(s, i), *word);
    }
}

#[test]
fn fields_are_parted_by_the_separator() {
    assert_eq!(nth_field("alice:secret", ':', 0), "alice");
    assert_eq!(nth_field("alice:secret", ':', 1), "secret");
    assert_eq!(nth_field("alice:secret", ':', 2), "");
    assert_eq!(nth_field("alice:", ':', 1), "");
    assert_eq!(nth_field("alice", ':', 0), "alice");
    assert_eq!(nth_field("alice", ':', 1), "");
    assert_eq!(nth_field("a:b:c", ':', 1), "b");
    assert_eq!(nth_field("a:b:c", ':', 2), "c");
    assert_eq!(nth_field(":x", ':', 0), "");
    assert_eq!(nth_field(":x", ':', 1), "x");
    assert_eq!(nth_field("", ':', 0), "");
    assert_eq!(nth_field("::", ':', 2), "");
    assert_eq!(nth_field("::", ':', 3), "");
}
