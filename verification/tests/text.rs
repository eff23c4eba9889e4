use nara::text::{
    dedup_sorted, ends_with_ignore_ascii_case_exec, eq_ignore_ascii_case_exec, join3, same_text,
    sort_texts, text_le_exec, trim,
};

#[test]
fn trims_unicode_whitespace() {
    assert_eq!(trim("  codex-cli 0.1.0\n"), "codex-cli 0.1.0");
    assert_eq!(trim("\u{a0}\tx y\u{3000}"), "x y");
    assert_eq!(trim(" \n\t "), "");
    assert_eq!(trim("plain"), "plain");
}

#[test]
fn orders_like_string_ord() {
    assert!(text_le_exec("abc", "abd"));
    assert!(text_le_exec("ab", "abc"));
    assert!(!text_le_exec("b", "abc"));
    assert!(text_le_exec("", ""));
    assert!(text_le_exec("Z", "a"));
    assert!(text_le_exec("z", "\u{e9}"));
}

#[test]
fn sorts_and_dedups() {
    let v: Vec<String> = vec!["pear".into(), "apple".into(), "fig".into(), "apple".into()];
    let sorted = sort_texts(&v);
    let mut expected = v.clone();
    expected.sort();
    assert_eq!(sorted, expected);
    assert_eq!(dedup_sorted(&sorted), vec!["apple", "fig", "pear"]);
}

#[test]
fn ascii_case_helpers() {
    assert!(eq_ignore_ascii_case_exec("CoDeX", "codex"));
    assert!(!eq_ignore_ascii_case_exec("codex1", "codex"));
    assert!(ends_with_ignore_ascii_case_exec("CODEX.CMD", ".cmd"));
    assert!(!ends_with_ignore_ascii_case_exec("cmd", ".cmd"));
    assert!(same_text("a", "a"));
    assert!(!same_text("a", "b"));
    assert_eq!(join3("a", "b", "c"), "abc");
}
