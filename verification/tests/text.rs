use mongo_cache_proxy::text::{bare, decimal, same_text};

#[test]
fn same_text_compares_characters() {
    assert!(same_text("abc", "abc"));
    assert!(same_text("", ""));
    assert!(!same_text("abc", "abd"));
    assert!(!same_text("abc", "ab"));
    assert!(!same_text("abc", "ABC"));
}

#[test]
fn decimal_text() {
    for n in 0..=255u8 {
        assert_eq!(decimal(n), n.to_string());
    }
}

#[test]
fn bare_drops_the_terminator() {
    assert_eq!(bare("documents\0"), "documents");
    assert_eq!(bare("documents"), "documents");
    assert_eq!(bare("\0"), "");
    assert_eq!(bare(""), "");
    assert_eq!(bare("\u{e9}\0"), "\u{e9}");
    assert_eq!(bare("a\0\0"), "a\0");
}
