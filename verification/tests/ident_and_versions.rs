//! The identifier gate and version comparison.

use plugin_host::discovery::compare_versions;
use plugin_host::ident::is_valid_identifier;

#[test]
fn identifier_accepts_word_characters() {
    assert!(is_valid_identifier("abc_123"));
    assert!(is_valid_identifier("A"));
    assert!(is_valid_identifier("snake_case_name"));
    assert!(is_valid_identifier("0starts_with_digit"));
}

#[test]
fn identifier_rejects_empty() {
    assert!(!is_valid_identifier(""));
}

#[test]
fn identifier_rejects_space() {
    assert!(!is_valid_identifier("a b"));
}

#[test]
fn identifier_rejects_semicolon() {
    assert!(!is_valid_identifier("a;drop"));
}

#[test]
fn identifier_rejects_quote() {
    assert!(!is_valid_identifier("a\"b"));
}

#[test]
fn identifier_rejects_dash_and_unicode() {
    assert!(!is_valid_identifier("goals-plugin"));
    assert!(!is_valid_identifier("täble"));
}

#[test]
fn versions_compare_componentwise() {
    assert_eq!(compare_versions("1.2.3", "1.2.2"), 1);
    assert_eq!(compare_versions("1.2.2", "1.2.3"), -1);
    assert_eq!(compare_versions("1.2.3", "1.2.3"), 0);
    assert_eq!(compare_versions("2.0.0", "1.9.9"), 1);
}

#[test]
fn versions_missing_parts_read_as_zero_then_length_decides() {
    assert_eq!(compare_versions("1.0", "1"), 1);
    assert_eq!(compare_versions("1", "1.0"), -1);
    assert_eq!(compare_versions("1.1", "1"), 1);
}

#[test]
fn versions_skip_non_numeric_segments() {
    assert_eq!(compare_versions("1.x.2", "1.2"), 0);
    assert_eq!(compare_versions("..3", "3"), 0);
}

#[test]
fn version_segments_accept_a_leading_plus() {
    assert_eq!(compare_versions("1.+2", "1.2"), 0);
    assert_eq!(compare_versions("+3", "2"), 1);
    assert_eq!(compare_versions("++3", "3"), -1);
}
