use ntfy_rs::text::{
    contains, ends_with, split, split_once, starts_with, str_eq, strip_prefix, to_ascii_lowercase,
    trim,
};

#[test]
fn trimming_unicode_white_space() {
    assert_eq!(trim("  a b \t\n"), "a b");
    assert_eq!(trim("\u{3000}x\u{a0}"), "x");
    assert_eq!(trim("   "), "");
    assert_eq!(trim(""), "");
}

#[test]
fn splitting() {
    assert_eq!(split("a,b", ','), vec!["a".to_string(), "b".to_string()]);
    assert_eq!(split("", ','), vec!["".to_string()]);
    assert_eq!(split(",", ','), vec!["".to_string(), "".to_string()]);
    assert_eq!(split_once("u:p:q", ':'), Some(("u".to_string(), "p:q".to_string())));
    assert_eq!(split_once("up", ':'), None);
}

#[test]
fn prefixes_and_suffixes() {
    assert!(starts_with("Bearer x", "Bearer "));
    assert!(!starts_with("Bear", "Bearer "));
    assert!(ends_with("a.local", ".local"));
    assert!(!ends_with("local", ".local"));
    assert!(contains("text/markdown; x", "markdown"));
    assert!(!contains("text/plain", "markdown"));
    assert!(contains("abc", ""));
    assert_eq!(strip_prefix("auth=xyz", "auth="), Some("xyz".to_string()));
    assert_eq!(strip_prefix("aut", "auth="), None);
    assert!(str_eq("\u{e9}", "\u{e9}"));
    assert!(!str_eq("a", "ab"));
}

#[test]
fn lowercasing() {
    assert_eq!(to_ascii_lowercase("HeLLo\u{c9}"), "hello\u{c9}");
}

