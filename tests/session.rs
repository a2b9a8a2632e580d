use ollama_gtk::api::parse_reply;
use ollama_gtk::dispatch::{is_blank_text, Dispatcher, Outcome, Role, TranscriptEntry};

#[test]
fn second_submission_is_a_no_op() {
    let mut d = Dispatcher::new();
    let first = d.submit("first");
    let second = d.submit("second");
    assert_eq!(first.map(|p| p.text), Some("first".to_string()));
    assert!(second.is_none());
    assert_eq!(d.in_flight(), Some("first".to_string()));
    assert!(d.transcript().is_empty());
}

#[test]
fn success_returns_to_idle_once() {
    let mut d = Dispatcher::new();
    assert!(d.submit("q").is_some());
    assert!(!d.is_idle());
    let done = d.complete(Outcome::Reply("a".to_string()));
    assert!(done.is_some());
    assert!(d.is_idle());
    assert!(d.complete(Outcome::Reply("again".to_string())).is_none());
    assert_eq!(d.transcript().len(), 2);
}

#[test]
fn failure_returns_to_idle_once() {
    let mut d = Dispatcher::new();
    assert!(d.submit("q").is_some());
    let done = d.complete(Outcome::TransportError("timeout".to_string())).unwrap();
    assert!(!done.clear_input);
    assert_eq!(done.appended.len(), 1);
    assert_eq!(done.appended[0].role, Role::Error);
    assert_eq!(done.appended[0].text, "timeout");
    assert!(d.is_idle());
    assert!(d.complete(Outcome::Malformed).is_none());
    assert_eq!(d.transcript().len(), 1);
    // a new prompt can be sent after the failure
    assert!(d.submit("q").is_some());
}

#[test]
fn completion_while_idle_is_ignored() {
    let mut d = Dispatcher::new();
    assert!(d.complete(Outcome::Reply("stray".to_string())).is_none());
    assert!(d.transcript().is_empty());
    assert!(d.is_idle());
}

#[test]
fn malformed_response_records_one_error() {
    let mut d = Dispatcher::new();
    assert!(d.submit("what?").is_some());
    let done = d.complete(parse_reply("{\"notresponse\": 1}")).unwrap();
    assert_eq!(done.appended.len(), 1);
    assert_eq!(done.appended[0].role, Role::Error);
    assert_eq!(done.appended[0].text, "No response");
    assert_eq!(done.appended[0].to_text(), "Error: No response\n\n");
    assert!(!done.clear_input);
    assert!(d.is_idle());
    assert_eq!(d.transcript().len(), 1);
}

#[test]
fn empty_and_blank_prompts_are_rejected() {
    let mut d = Dispatcher::new();
    assert!(d.submit("").is_none());
    assert!(d.submit("   ").is_none());
    assert!(d.submit(" \t\n").is_none());
    assert!(d.is_idle());
    assert!(d.transcript().is_empty());
}

#[test]
fn blank_detection() {
    assert!(is_blank_text(""));
    assert!(is_blank_text("  \t\r\n"));
    assert!(!is_blank_text("  x "));
    assert!(!is_blank_text("é"));
}

#[test]
fn end_to_end_hello() {
    let mut d = Dispatcher::new();
    let request = d.submit("hello").unwrap();
    assert_eq!(request.text, "hello");
    assert!(!d.is_idle());
    let outcome = parse_reply("{\"response\":\"hi there\"}");
    let done = d.complete(outcome).unwrap();
    assert_eq!(done.appended.len(), 2);
    assert_eq!(done.appended[0].role, Role::User);
    assert_eq!(done.appended[0].text, "hello");
    assert_eq!(done.appended[1].role, Role::Assistant);
    assert_eq!(done.appended[1].text, "hi there");
    assert!(done.clear_input);
    assert!(d.is_idle());
    let t = d.transcript();
    assert_eq!(t.len(), 2);
    assert_eq!(t[0].to_text(), "You: hello\n\n");
    assert_eq!(t[1].to_text(), "Ollama: hi there\n\n");
}

#[test]
fn entry_text_by_role() {
    let e = TranscriptEntry { role: Role::Assistant, text: "x".to_string() };
    assert_eq!(e.to_text(), "Ollama: x\n\n");
    let e = TranscriptEntry { role: Role::Error, text: "bad".to_string() };
    assert_eq!(e.to_text(), "Error: bad\n\n");
}

#[test]
fn unicode_whitespace_prompts_are_rejected() {
    let mut d = Dispatcher::new();
    assert!(d.submit("\u{a0}").is_none());
    assert!(d.submit("\u{3000}\u{3000}").is_none());
    assert!(d.submit(" \u{85}\u{1680}\u{2000}\u{200a}\u{2028}\u{2029}\u{202f}\u{205f}").is_none());
    assert!(d.is_idle());
    assert!(d.transcript().is_empty());
    assert!(d.submit("\u{a0}x").is_some());
}

#[test]
fn blank_set_matches_std_whitespace() {
    for u in 0u32..0x3100 {
        if let Some(c) = char::from_u32(u) {
            assert_eq!(is_blank_text(&c.to_string()), c.is_whitespace(), "U+{:04X}", u);
        }
    }
    assert!(!is_blank_text("\u{200b}"));
}
