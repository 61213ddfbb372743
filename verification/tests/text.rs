use tempest_type::text::{chars_of, contains, join, same_text, trim, trim_non_alphanumeric};

#[test]
fn trim_removes_surrounding_white_space() {
    assert_eq!(trim("  hello world \n\t"), "hello world");
    assert_eq!(trim("\u{3000}wide\u{a0}"), "wide");
    assert_eq!(trim("   "), "");
    assert_eq!(trim(""), "");
    assert_eq!(trim("a  b"), "a  b");
}

#[test]
fn trim_is_idempotent() {
    for s in ["  x  ", "\n\nabc", "", " \t ", "q"] {
        let once = trim(s);
        assert_eq!(trim(&once), once);
    }
}

#[test]
fn trim_non_alphanumeric_keeps_inner_punctuation() {
    assert_eq!(trim_non_alphanumeric("...Hello, world!"), "Hello, world");
    assert_eq!(trim_non_alphanumeric("[BLANK_AUDIO]"), "BLANK_AUDIO");
    assert_eq!(trim_non_alphanumeric("!!!"), "");
    assert_eq!(trim_non_alphanumeric("é1"), "é1");
}

#[test]
fn contains_finds_substrings() {
    assert!(contains("a [blank_audio] b", "[blank_audio]"));
    assert!(contains("abc", ""));
    assert!(contains("abc", "abc"));
    assert!(!contains("ab", "abc"));
    assert!(!contains("hello", "hol"));
}

#[test]
fn join_and_compare() {
    assert_eq!(join("ab", "cd"), "abcd");
    assert!(same_text("x", "x"));
    assert!(!same_text("x", "X"));
    assert_eq!(chars_of("hé"), vec!['h', 'é']);
}
