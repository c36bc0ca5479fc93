use pappap_node::desktop::prompt_body;

#[test]
fn prompt_body_wraps_the_prompt() {
    assert_eq!(prompt_body("xin chào"), r#"{"prompt":"xin chào"}"#);
    assert_eq!(prompt_body(""), r#"{"prompt":""}"#);
}

#[test]
fn prompt_body_does_not_escape() {
    assert_eq!(prompt_body("a\"b"), "{\"prompt\":\"a\"b\"}");
}
