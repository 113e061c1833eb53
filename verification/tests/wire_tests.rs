use andes::model::{OutboundRequest, Turn};
use andes::wire::{encode_request, parse_reply};

fn turn(role: &str, content: &str) -> Turn {
    Turn { role: role.to_string(), content: content.to_string() }
}

fn well_formed_reply() -> String {
    let mut text = String::from("{\"model\":\"llama2\",\"created_at\":\"2024-01-01T00:00:00Z\",");
    text.push_str("\"message\":{\"role\":\"assistant\",\"content\":\"ok\"},\"done\":true,");
    text.push_str("\"total_duration\":5,\"load_duration\":4,\"prompt_eval_duration\":3,");
    text.push_str("\"eval_count\":2,\"eval_duration\":1}");
    text
}

#[test]
fn encoded_request_is_the_expected_json_object() {
    let req = OutboundRequest {
        model: "llama2".to_string(),
        turns: vec![turn("system", "be terse"), turn("user", "hi \"there\"")],
        stream: false,
    };
    let body = encode_request(&req);
    let v: serde_json::Value = serde_json::from_str(&body).unwrap();
    let obj = v.as_object().unwrap();
    assert_eq!(obj.len(), 3);
    assert_eq!(v.get("model").unwrap().as_str().unwrap(), "llama2");
    assert_eq!(v.get("stream").unwrap().as_bool().unwrap(), false);
    let messages = v.get("messages").unwrap().as_array().unwrap();
    assert_eq!(messages.len(), 2);
    assert_eq!(messages[0].get("role").unwrap().as_str().unwrap(), "system");
    assert_eq!(messages[0].get("content").unwrap().as_str().unwrap(), "be terse");
    assert_eq!(messages[0].as_object().unwrap().len(), 2);
    assert_eq!(messages[1].get("role").unwrap().as_str().unwrap(), "user");
    assert_eq!(messages[1].get("content").unwrap().as_str().unwrap(), "hi \"there\"");
}

#[test]
fn encoded_request_with_no_turns_has_an_empty_message_list() {
    let req = OutboundRequest { model: "m".to_string(), turns: Vec::new(), stream: false };
    let body = encode_request(&req);
    let v: serde_json::Value = serde_json::from_str(&body).unwrap();
    assert_eq!(v.get("messages").unwrap().as_array().unwrap().len(), 0);
}

#[test]
fn parse_reply_accepts_a_well_formed_reply() {
    let text = well_formed_reply();
    let rep = parse_reply(&text).unwrap();
    assert_eq!(rep.model, "llama2");
    assert_eq!(rep.created_at, "2024-01-01T00:00:00Z");
    assert_eq!(rep.message.role, "assistant");
    assert_eq!(rep.message.content, "ok");
    assert!(rep.done);
    assert_eq!(rep.total_duration, 5);
    assert_eq!(rep.load_duration, 4);
    assert_eq!(rep.prompt_eval_duration, 3);
    assert_eq!(rep.eval_count, 2);
    assert_eq!(rep.eval_duration, 1);
}

#[test]
fn parse_reply_tolerates_extra_members() {
    let text = well_formed_reply().replace("\"done\":true", "\"done\":true,\"extra\":[1,2]");
    let rep = parse_reply(&text).unwrap();
    assert_eq!(rep.message.content, "ok");
}

#[test]
fn parse_reply_rejects_text_that_is_not_json() {
    assert!(parse_reply("not json at all").is_none());
    assert!(parse_reply("").is_none());
}

#[test]
fn parse_reply_rejects_a_missing_declared_field() {
    let text = well_formed_reply().replace("\"total_duration\":5,", "");
    assert!(parse_reply(&text).is_none());
}

#[test]
fn parse_reply_rejects_an_ill_typed_field() {
    let done_as_string = well_formed_reply().replace("\"done\":true", "\"done\":\"true\"");
    assert!(parse_reply(&done_as_string).is_none());
    let negative_counter = well_formed_reply().replace("\"eval_count\":2", "\"eval_count\":-2");
    assert!(parse_reply(&negative_counter).is_none());
    let fractional_counter = well_formed_reply().replace("\"eval_count\":2", "\"eval_count\":2.5");
    assert!(parse_reply(&fractional_counter).is_none());
}

#[test]
fn parse_reply_rejects_a_malformed_message() {
    let message_not_object = well_formed_reply().replace(
        "\"message\":{\"role\":\"assistant\",\"content\":\"ok\"}",
        "\"message\":\"ok\"",
    );
    assert!(parse_reply(&message_not_object).is_none());
    let message_without_content = well_formed_reply().replace(
        "\"message\":{\"role\":\"assistant\",\"content\":\"ok\"}",
        "\"message\":{\"role\":\"assistant\"}",
    );
    assert!(parse_reply(&message_without_content).is_none());
}
