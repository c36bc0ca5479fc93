use pappap_node::text::{i64_to_text, text_contains, text_eq};

#[test]
fn equality() {
    assert!(text_eq("", ""));
    assert!(text_eq("việt", "việt"));
    assert!(!text_eq("viet", "việt"));
    assert!(!text_eq("ab", "abc"));
}

#[test]
fn containment() {
    assert!(text_contains("xin chào", "chào"));
    assert!(text_contains("abc", ""));
    assert!(text_contains("abc", "abc"));
    assert!(!text_contains("ab", "abc"));
    assert!(!text_contains("toi", "tôi"));
    assert!(text_contains("them", "em"));
}

#[test]
fn decimal_text() {
    assert_eq!(i64_to_text(0), "0");
    assert_eq!(i64_to_text(7), "7");
    assert_eq!(i64_to_text(10), "10");
    assert_eq!(i64_to_text(-42), "-42");
    assert_eq!(i64_to_text(i64::MAX), i64::MAX.to_string());
    assert_eq!(i64_to_text(i64::MIN), i64::MIN.to_string());
}
