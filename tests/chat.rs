use s3_generic::chat::{after_last_think, prompt_messages, strip_think};

#[test]
fn strip_think_keeps_the_answer_after_the_tag() {
    assert_eq!(strip_think("<think>pondering</think>\n  The answer. \n"), "The answer.");
}

#[test]
fn strip_think_uses_the_last_tag() {
    assert_eq!(strip_think("a</think>b</think> c "), "c");
}

#[test]
fn strip_think_without_tag_trims_the_input() {
    assert_eq!(strip_think("  plain reply\t"), "plain reply");
    assert_eq!(strip_think(""), "");
}

#[test]
fn after_last_think_is_exact() {
    assert_eq!(after_last_think("x</think> y "), " y ");
    assert_eq!(after_last_think("</think>"), "");
    assert_eq!(after_last_think("</thin"), "</thin");
    assert_eq!(after_last_think("é</think>ü"), "ü");
}

#[test]
fn prompt_messages_skip_empty_prompts() {
    let m = prompt_messages(Some("sys"), Some(""));
    assert_eq!(m.len(), 1);
    assert_eq!(m[0].role, "system");
    assert_eq!(m[0].content, "sys");
    let m = prompt_messages(None, Some("hi"));
    assert_eq!(m.len(), 1);
    assert_eq!(m[0].role, "user");
    let m = prompt_messages(Some("s"), Some("u"));
    assert_eq!(m.len(), 2);
    assert_eq!(m[1].content, "u");
    assert!(prompt_messages(None, None).is_empty());
}

#[test]
fn strip_think_trims_unicode_white_space() {
    assert_eq!(strip_think("</think>\u{3000}\u{a0}x y\u{2029}\u{85}"), "x y");
}

#[test]
fn stripped_answer_holds_no_closing_tag() {
    let r = strip_think("one</think>two</think></think> three ");
    assert_eq!(r, "three");
    assert!(!r.contains("</think>"));
}
