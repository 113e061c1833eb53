use andes::controller::{begin_send, finish_send, handle_event, Event, SendStatus, TransportResult};
use andes::store::Store;

fn reply_text(content: &str) -> String {
    let mut text = String::from("{\"model\":\"llama2\",\"created_at\":\"now\",");
    text.push_str(&format!("\"message\":{{\"role\":\"assistant\",\"content\":\"{}\"}},", content));
    text.push_str("\"done\":true,\"total_duration\":1,\"load_duration\":1,");
    text.push_str("\"prompt_eval_duration\":1,\"eval_count\":1,\"eval_duration\":1}");
    text
}

#[test]
fn send_success_appends_exactly_the_reply_message() {
    let mut s = Store::new();
    s.set_context("be terse".to_string());
    s.set_pending_input("hi".to_string());
    let body = begin_send(&mut s, &"llama2".to_string());
    assert_eq!(s.turns().len(), 1);
    assert_eq!(s.turns()[0].role, "user");
    assert_eq!(s.turns()[0].content, "hi");
    assert_eq!(s.pending_input().as_str(), "");
    let v: serde_json::Value = serde_json::from_str(&body).unwrap();
    let messages = v.get("messages").unwrap().as_array().unwrap();
    assert_eq!(messages.len(), 2);
    assert_eq!(messages[0].get("role").unwrap().as_str().unwrap(), "system");
    assert_eq!(messages[1].get("content").unwrap().as_str().unwrap(), "hi");
    let status = finish_send(&mut s, TransportResult::Received(reply_text("ok")));
    assert_eq!(status, SendStatus::ReplyAppended);
    assert_eq!(s.turns().len(), 2);
    assert_eq!(s.turns()[1].role, "assistant");
    assert_eq!(s.turns()[1].content, "ok");
    assert_eq!(s.pending_input().as_str(), "");
    assert_eq!(s.context().as_str(), "be terse");
}

#[test]
fn transport_failure_keeps_the_user_turn_and_appends_nothing() {
    let mut s = Store::new();
    s.set_pending_input("hi".to_string());
    let _body = begin_send(&mut s, &"llama2".to_string());
    let status = finish_send(&mut s, TransportResult::Failed);
    assert_eq!(status, SendStatus::TransportFailed);
    assert_eq!(s.turns().len(), 1);
    assert_eq!(s.turns()[0].role, "user");
    assert_eq!(s.turns()[0].content, "hi");
}

#[test]
fn malformed_reply_keeps_the_user_turn_and_appends_nothing() {
    let mut s = Store::new();
    s.set_pending_input("hi".to_string());
    let _body = begin_send(&mut s, &"llama2".to_string());
    let status = finish_send(&mut s, TransportResult::Received("{\"done\":true}".to_string()));
    assert_eq!(status, SendStatus::MalformedReply);
    assert_eq!(s.turns().len(), 1);
    assert_eq!(s.turns()[0].role, "user");
}

#[test]
fn sending_an_empty_draft_is_accepted() {
    let mut s = Store::new();
    let _body = begin_send(&mut s, &"llama2".to_string());
    assert_eq!(s.turns().len(), 1);
    assert_eq!(s.turns()[0].role, "user");
    assert_eq!(s.turns()[0].content, "");
}

#[test]
fn events_edit_their_field_and_clear_resets() {
    let mut s = Store::new();
    handle_event(&mut s, Event::EditContext("ctx".to_string()));
    handle_event(&mut s, Event::EditInput("draft".to_string()));
    assert_eq!(s.context().as_str(), "ctx");
    assert_eq!(s.pending_input().as_str(), "draft");
    s.append_user_turn("hi".to_string());
    handle_event(&mut s, Event::Clear);
    assert_eq!(s.turns().len(), 0);
    assert_eq!(s.pending_input().as_str(), "");
    assert_eq!(s.context().as_str(), "ctx");
}
