use storage_router::text::{contains_char, same_text, strip_prefix};

#[test]
fn same_text_compares_characters() {
    assert!(same_text("abc", "abc"));
    assert!(!same_text("abc", "abd"));
    assert!(!same_text("abc", "ab"));
    assert!(same_text("", ""));
}

#[test]
fn strip_prefix_hands_out_the_rest() {
    assert_eq!(strip_prefix("/dynamodb/x", "/dynamodb/"), Some("x".to_string()));
    assert_eq!(strip_prefix("/dynamodb/", "/dynamodb/"), Some(String::new()));
    assert_eq!(strip_prefix("/dynamo", "/dynamodb/"), None);
    assert_eq!(strip_prefix("/é/ü", "/é/"), Some("ü".to_string()));
}

#[test]
fn contains_char_finds_a_slash() {
    assert!(contains_char("a/b", '/'));
    assert!(!contains_char("ab", '/'));
}
