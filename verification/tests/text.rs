use gitko::text::{
    chars_of, contains, decimal_text, same_text, skip_chars, starts_with, starts_with_char,
    take_chars, trim, trim_graph,
};

#[test]
fn chars_are_kept_in_order() {
    assert_eq!(chars_of("a\u{e9}b"), vec!['a', '\u{e9}', 'b']);
    assert_eq!(chars_of(""), Vec::<char>::new());
}

#[test]
fn contains_finds_a_term_anywhere() {
    assert!(contains(" M file1", "M"));
    assert!(contains("abc", "bc"));
    assert!(contains("abc", "abc"));
    assert!(!contains("?? file2", "M"));
    assert!(!contains("ab", "abc"));
    assert!(!contains("", "a"));
}

#[test]
fn contains_holds_of_the_empty_term() {
    assert!(contains("abc", ""));
    assert!(contains("", ""));
}

#[test]
fn starts_with_compares_prefixes() {
    assert!(starts_with("@@ -1 +1 @@", "@@"));
    assert!(starts_with("??", "??"));
    assert!(starts_with("abc", ""));
    assert!(!starts_with("@", "@@"));
    assert!(!starts_with(" ??", "??"));
    assert!(starts_with_char("* main", '*'));
    assert!(!starts_with_char("  dev", '*'));
    assert!(!starts_with_char("", '*'));
}

#[test]
fn same_text_compares_whole_texts() {
    assert!(same_text("abc", "abc"));
    assert!(same_text("", ""));
    assert!(!same_text("abc", "abd"));
    assert!(!same_text("abc", "ab"));
    assert!(!same_text("ab", "abc"));
}

#[test]
fn trim_removes_white_space_at_both_ends() {
    assert_eq!(trim("  dev \t\n"), "dev");
    assert_eq!(trim("a b"), "a b");
    assert_eq!(trim(" \u{a0}\u{2003}x\u{3000} "), "x");
    assert_eq!(trim("   "), "");
    assert_eq!(trim(""), "");
    assert_eq!(trim("  dev \t\n"), "  dev \t\n".trim());
}

#[test]
fn trim_graph_removes_the_marks_of_the_commit_graph() {
    assert_eq!(trim_graph("* | \\ 1a2b3c4 message *"), "1a2b3c4 message");
    assert_eq!(trim_graph("| |"), "");
    assert_eq!(trim_graph("\tx"), "\tx");
}

#[test]
fn skip_and_take_count_characters() {
    assert_eq!(skip_chars(" M src/a.rs", 3), "src/a.rs");
    assert_eq!(skip_chars("ab", 3), "");
    assert_eq!(skip_chars("abc", 3), "");
    assert_eq!(skip_chars("\u{e9}\u{e9}\u{e9}x", 3), "x");
    assert_eq!(take_chars("1a2b3c4 message", 7), "1a2b3c4");
    assert_eq!(take_chars("ab", 7), "ab");
    assert_eq!(take_chars("abc", 0), "");
}

#[test]
fn decimal_writes_counts_in_base_ten() {
    assert_eq!(decimal_text(0), "0");
    assert_eq!(decimal_text(7), "7");
    assert_eq!(decimal_text(10), "10");
    assert_eq!(decimal_text(12345), "12345");
    assert_eq!(decimal_text(usize::MAX), format!("{}", usize::MAX));
}
