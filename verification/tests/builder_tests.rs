use andes::builder::build_request;
use andes::model::Turn;

fn turn(role: &str, content: &str) -> Turn {
    Turn { role: role.to_string(), content: content.to_string() }
}

#[test]
fn context_is_prepended_and_stored_system_turns_are_dropped() {
    let conv = vec![turn("user", "hi"), turn("assistant", "hello"), turn("system", "ignored")];
    let req = build_request(&"be terse".to_string(), &conv, &"llama2".to_string());
    assert_eq!(req.model, "llama2");
    assert!(!req.stream);
    assert_eq!(req.turns.len(), 3);
    assert_eq!(req.turns[0].role, "system");
    assert_eq!(req.turns[0].content, "be terse");
    assert_eq!(req.turns[1].role, "user");
    assert_eq!(req.turns[1].content, "hi");
    assert_eq!(req.turns[2].role, "assistant");
    assert_eq!(req.turns[2].content, "hello");
}

#[test]
fn empty_context_injects_no_system_turn() {
    let conv = vec![turn("user", "hi")];
    let req = build_request(&String::new(), &conv, &"llama2".to_string());
    assert_eq!(req.turns.len(), 1);
    assert_eq!(req.turns[0].role, "user");
    assert_eq!(req.turns[0].content, "hi");
}

#[test]
fn empty_conversation_with_context_yields_only_the_context_turn() {
    let req = build_request(&"be terse".to_string(), &Vec::new(), &"llama2".to_string());
    assert_eq!(req.turns.len(), 1);
    assert_eq!(req.turns[0].role, "system");
    assert_eq!(req.turns[0].content, "be terse");
}

#[test]
fn context_edits_affect_only_future_requests() {
    let conv = vec![turn("user", "hi")];
    let first = build_request(&"short".to_string(), &conv, &"llama2".to_string());
    let second = build_request(&"long".to_string(), &conv, &"llama2".to_string());
    assert_eq!(first.turns[0].content, "short");
    assert_eq!(second.turns[0].content, "long");
    assert_eq!(first.turns.len(), 2);
    assert_eq!(second.turns.len(), 2);
}
