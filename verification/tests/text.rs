use coveralls::text::{
    chars_of, copy_all, ends_with, first_segment, last_segment, lines, same_text, trim,
};

#[test]
fn texts_are_read_by_characters_not_bytes() {
    assert_eq!(chars_of("aé越"), vec!['a', 'é', '越']);
    assert_eq!(chars_of(""), Vec::<char>::new());
    assert_eq!(last_segment("é/越b"), "越b");
    assert_eq!(first_segment("é越/b"), "é越");
    assert_eq!(trim(" é越 "), "é越");
}

#[test]
fn same_text_compares_characters() {
    assert!(same_text("abc", "abc"));
    assert!(same_text("", ""));
    assert!(!same_text("abc", "abd"));
    assert!(!same_text("abc", "ab"));
    assert!(!same_text("", "a"));
}

#[test]
fn ends_with_compares_the_last_characters() {
    assert!(ends_with("origin url (fetch)", " (fetch)"));
    assert!(!ends_with("origin url (push)", " (fetch)"));
    assert!(!ends_with("fetch)", " (fetch)"));
    assert!(ends_with("abc", ""));
    assert!(ends_with(" (fetch)", " (fetch)"));
}

#[test]
fn trim_takes_whitespace_from_both_ends_only() {
    assert_eq!(trim("  a b \n"), "a b");
    assert_eq!(trim("\t\r\n "), "");
    assert_eq!(trim(""), "");
    assert_eq!(trim("x"), "x");
    assert_eq!(trim("\u{a0}x\u{3000}"), "x");
}

#[test]
fn last_segment_follows_the_last_slash() {
    assert_eq!(last_segment("https://github.com/owner/repo/pull/42"), "42");
    assert_eq!(last_segment("42"), "42");
    assert_eq!(last_segment("a/b/"), "");
    assert_eq!(last_segment(""), "");
    assert_eq!(last_segment("/x"), "x");
}

#[test]
fn first_segment_precedes_the_first_slash() {
    assert_eq!(first_segment("42/merge"), "42");
    assert_eq!(first_segment("42"), "42");
    assert_eq!(first_segment("/merge"), "");
    assert_eq!(first_segment(""), "");
}

#[test]
fn lines_end_at_line_feeds() {
    assert_eq!(lines("a\nb"), vec!["a", "b"]);
    assert_eq!(lines("a\nb\n"), vec!["a", "b"]);
    assert_eq!(lines("a\r\nb\r\n"), vec!["a", "b"]);
    assert_eq!(lines("a\n\nb"), vec!["a", "", "b"]);
    assert_eq!(lines("\n"), vec![""]);
    assert_eq!(lines(""), Vec::<String>::new());
    assert_eq!(lines("a\rb"), vec!["a\rb"]);
    assert_eq!(lines("a\r"), vec!["a\r"]);
}

#[test]
fn lines_agree_with_the_standard_library() {
    for text in ["", "x", "a\nb", "a\r\nb\n", "\n\n", "a\r\n", "\r", "one\ntwo\r\n\r\nthree"] {
        let expected: Vec<String> = text.lines().map(String::from).collect();
        assert_eq!(lines(text), expected, "for {:?}", text);
    }
}

#[test]
fn copy_all_copies_every_text() {
    let texts = vec![String::from("a"), String::new(), String::from("b c")];
    assert_eq!(copy_all(&texts), texts);
}

#[test]
fn trim_agrees_with_the_standard_library() {
    let texts =
        ["", " ", "a", " a", "a ", "\t a b \r\n", "\u{a0}x\u{2003}", "\n\n", "é ", " 越\u{3000}"];
    for text in texts {
        assert_eq!(trim(text), text.trim(), "for {:?}", text);
    }
}

#[test]
fn last_segment_agrees_with_splitting_at_slashes() {
    for text in ["", "a", "a/b", "a/b/", "/", "//", "refs/pull/42/merge", "https://x/y/pull/7"] {
        assert_eq!(last_segment(text), text.split('/').last().unwrap_or(text), "for {:?}", text);
    }
}
