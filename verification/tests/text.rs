use git_overview::text::{characters, contains, join};

#[test]
fn characters_of_a_text() {
    assert_eq!(characters(""), Vec::<char>::new());
    assert_eq!(characters("a/b"), vec!['a', '/', 'b']);
    assert_eq!(characters("\u{e9}t\u{e9}"), vec!['\u{e9}', 't', '\u{e9}']);
}

#[test]
fn contains_finds_a_pattern_anywhere() {
    assert!(contains("On branch master", "On branch master"));
    assert!(contains("xx On branch master yy", "On branch master"));
    assert!(contains("abcabd", "abd"));
    assert!(contains("aab", "ab"));
    assert!(contains("abc", "c"));
    assert!(contains("abc", "a"));
}

#[test]
fn contains_rejects_what_is_not_there() {
    assert!(!contains("On branch main", "On branch master"));
    assert!(!contains("abc", "abcd"));
    assert!(!contains("", "a"));
    assert!(!contains("abab", "ba b"));
    assert!(!contains("abc", "ac"));
}

#[test]
fn contains_the_empty_pattern() {
    assert!(contains("", ""));
    assert!(contains("abc", ""));
}

#[test]
fn contains_agrees_with_the_standard_search() {
    let texts = ["", "a", "ab", "aba", "abab", "\u{e9}t\u{e9}", "On branch develop"];
    let patterns = ["", "a", "b", "ab", "ba", "bab", "t\u{e9}", "\u{e9}", "branch d"];
    for text in texts.iter() {
        for pattern in patterns.iter() {
            assert_eq!(contains(text, pattern), text.contains(pattern));
        }
    }
}

#[test]
fn join_puts_the_separator_between_parts() {
    let parts = vec![String::from("a"), String::from("b"), String::from("c")];
    assert_eq!(join(&parts, ", "), "a, b, c");
    assert_eq!(join(&parts, "\n"), "a\nb\nc");
    assert_eq!(join(&parts, ""), "abc");
}

#[test]
fn join_of_one_part_or_none() {
    assert_eq!(join(&Vec::new(), ", "), "");
    assert_eq!(join(&vec![String::from("a")], ", "), "a");
    assert_eq!(join(&vec![String::new(), String::new()], "-"), "-");
}

#[test]
fn join_agrees_with_the_standard_join() {
    let parts = vec![String::from("proj1: main"), String::new(), String::from("x")];
    assert_eq!(join(&parts, "\n"), parts.join("\n"));
}
