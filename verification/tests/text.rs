use greetd::text::{contains, decimal_text, first_nul, join, signed_decimal_text};

#[test]
fn numbers_are_written_in_base_ten() {
    assert_eq!(decimal_text(0), "0");
    assert_eq!(decimal_text(10), "10");
    assert_eq!(decimal_text(u64::MAX), "18446744073709551615");
    assert_eq!(signed_decimal_text(-7), "-7");
    assert_eq!(signed_decimal_text(i32::MIN), "-2147483648");
    assert_eq!(signed_decimal_text(i32::MAX), "2147483647");
}

#[test]
fn items_are_joined() {
    assert_eq!(join(&vec![], " "), "");
    assert_eq!(join(&vec!["a".into()], " "), "a");
    assert_eq!(join(&vec!["a".into(), "b".into(), "".into()], ", "), "a, b, ");
}

#[test]
fn substrings_are_found() {
    assert!(contains("{\"type\":\"auth_message\"}", "auth_message"));
    assert!(contains("aaab", "aab"));
    assert!(contains("a", ""));
    assert!(contains("\u{e9}t\u{e9}", "\u{e9}"));
    assert!(!contains("ab", "abc"));
    assert!(!contains("", "a"));
}

#[test]
fn first_zero_byte_is_found() {
    assert_eq!(first_nul(b"ab\0c\0"), Some(2));
    assert_eq!(first_nul(b"abc"), None);
    assert_eq!(first_nul(b""), None);
}
