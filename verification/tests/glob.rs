use playwright_rs::glob::{glob_match, glob_to_regex};

#[test]
fn exact_match_is_anchored() {
    assert!(glob_match("https://example.com/", "https://example.com/"));
    assert!(!glob_match("https://example.com/", "https://example.com/x"));
    assert!(!glob_match("example.com", "an.example.com"));
}

#[test]
fn single_star_stays_within_one_segment() {
    assert!(glob_match("https://example.com/*", "https://example.com/foo"));
    assert!(!glob_match("https://example.com/*", "https://example.com/foo/bar"));
    assert!(glob_match("https://example.com/*", "https://example.com/"));
}

#[test]
fn double_star_crosses_segments() {
    assert!(glob_match("https://example.com/**", "https://example.com/a/b/c"));
    assert!(glob_match("**/*.png", "https://cdn.example.com/img/logo.png"));
    assert!(!glob_match("**/*.png", "https://cdn.example.com/img/logo.jpg"));
}

#[test]
fn dot_is_literal_not_wildcard() {
    assert!(glob_match("https://a.com/x", "https://a.com/x"));
    assert!(!glob_match("https://a.com/x", "https://axcom/x"));
}

#[test]
fn extension_globs() {
    assert!(glob_match("*.png", "logo.png"));
    assert!(!glob_match("*.png", "img/logo.png"));
    assert!(glob_match("**.png", "img/logo.png"));
}

#[test]
fn invalid_translation_does_not_match() {
    assert!(!glob_match("[unterminated", "anything"));
}

#[test]
fn translation_of_each_glob_form() {
    assert_eq!(glob_to_regex("a.b"), "^a\\.b$");
    assert_eq!(glob_to_regex("*"), "^[^/]*$");
    assert_eq!(glob_to_regex("**"), "^.*$");
    assert_eq!(glob_to_regex("***"), "^.*[^/]*$");
    assert_eq!(glob_to_regex("a\u{0}b"), "^a\u{0}b$");
    assert_eq!(glob_to_regex(""), "^$");
}

#[test]
fn empty_glob_matches_only_empty_text() {
    assert!(glob_match("", ""));
    assert!(!glob_match("", "x"));
}

#[test]
fn regex_syntax_in_a_glob_matches_literally() {
    assert!(glob_match("https://x.com/?q=1", "https://x.com/?q=1"));
    assert!(!glob_match("https://x.com/?q=1", "https://x.com/q=1"));
    assert!(glob_match("a+b", "a+b"));
    assert!(!glob_match("a+b", "aab"));
    assert!(glob_match("(x)|[y]", "(x)|[y]"));
    assert!(!glob_match("(x)|[y]", "x"));
    assert!(glob_match("$^{1}", "$^{1}"));
    assert_eq!(glob_to_regex("a?b"), "^a\\?b$");
    assert_eq!(glob_to_regex("[a-z]"), "^\\[a\\-z\\]$");
}

#[test]
fn nul_in_a_glob_is_literal() {
    assert!(glob_match("a\u{0}b", "a\u{0}b"));
    assert!(!glob_match("a\u{0}b", "axyzb"));
}
