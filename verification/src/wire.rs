//! Verified construction of the outbound request's JSON tree and verified
//! shape-checking of the inbound reply's tree. The text work at the wire is
//! done by `serde_json` through the trusted items in [`crate::json`].

use crate::json::{
    exact_numbers, json_of_text, parse_json, text_of_json, to_json_text, v_arr, v_as_bool,
    v_as_str, v_as_u64, v_bool, v_get, v_obj_empty, v_obj_insert, v_str, json_val, JsonData,
};
use crate::model::{turns_view, OutboundRequest, Reply, ReplyView, Turn, TurnView};
use vstd::prelude::*;

verus! {

/// The JSON object of one turn: `{"role": ..., "content": ...}`.
pub open spec fn turn_json(t: TurnView) -> JsonData {
    JsonData::Obj(
        Map::<Seq<char>, JsonData>::empty()
            .insert("role"@, JsonData::Str(t.role))
            .insert("content"@, JsonData::Str(t.content)),
    )
}

/// The JSON object of an outbound request:
/// `{"model": ..., "messages": [...], "stream": false}`.
pub open spec fn request_json(model: Seq<char>, turns: Seq<TurnView>) -> JsonData {
    JsonData::Obj(
        Map::<Seq<char>, JsonData>::empty()
            .insert("model"@, JsonData::Str(model))
            .insert("messages"@, JsonData::Arr(turns.map_values(|t: TurnView| turn_json(t))))
            .insert("stream"@, JsonData::Bool(false)),
    )
}

/// A turn's JSON object holds no numbers at all.
pub proof fn lemma_turn_json_exact(t: TurnView)
    ensures
        exact_numbers(turn_json(t)),
{
    let m = Map::<Seq<char>, JsonData>::empty()
        .insert("role"@, JsonData::Str(t.role))
        .insert("content"@, JsonData::Str(t.content));
    assert forall|k: Seq<char>| m.dom().contains(k) implies exact_numbers(#[trigger] m[k]) by {
        assert(m[k] matches JsonData::Str(_));
    }
}

/// Every number in a request's JSON tree is an exact `u64` (there are
/// none), so its serialized text is well defined.
pub proof fn lemma_request_json_exact(model: Seq<char>, turns: Seq<TurnView>)
    ensures
        exact_numbers(request_json(model, turns)),
{
    let items = turns.map_values(|t: TurnView| turn_json(t));
    assert forall|i: int| 0 <= i < items.len() implies exact_numbers(#[trigger] items[i]) by {
        assert(items[i] == turn_json(turns[i]));
        lemma_turn_json_exact(turns[i]);
    }
    assert(exact_numbers(JsonData::Arr(items)));
    let m = Map::<Seq<char>, JsonData>::empty()
        .insert("model"@, JsonData::Str(model))
        .insert("messages"@, JsonData::Arr(items))
        .insert("stream"@, JsonData::Bool(false));
    assert forall|k: Seq<char>| m.dom().contains(k) implies exact_numbers(#[trigger] m[k]) by {
        assert(m[k] == JsonData::Bool(false) || m[k] == JsonData::Arr(items) || m[k]
            == JsonData::Str(model));
    }
}

/// Serializes an outbound request: the result is the text of exactly the
/// tree [`request_json`] of the request's model and turn list.
pub fn encode_request(req: &OutboundRequest) -> (body: String)
    ensures
        body@ == text_of_json(request_json(req.model@, turns_view(req.turns@))),
{
    let ghost tv = turns_view(req.turns@);
    let mut items: Vec<serde_json::Value> = Vec::new();
    proof {
        assert(items@.map_values(|v: serde_json::Value| json_val(v)) =~= tv.take(0).map_values(
            |t: TurnView| turn_json(t),
        ));
    }
    let n = req.turns.len();
    let mut i: usize = 0;
    while i < n
        invariant
            n == req.turns.len(),
            i <= n,
            tv == turns_view(req.turns@),
            items@.map_values(|v: serde_json::Value| json_val(v)) == tv.take(i as int).map_values(
                |t: TurnView| turn_json(t),
            ),
        decreases n - i,
    {
        let mut obj = v_obj_empty();
        v_obj_insert(&mut obj, "role", v_str(req.turns[i].role.as_str()));
        v_obj_insert(&mut obj, "content", v_str(req.turns[i].content.as_str()));
        proof {
            assert(json_val(obj) == turn_json(tv[i as int]));
        }
        let ghost before = items@.map_values(|v: serde_json::Value| json_val(v));
        items.push(obj);
        proof {
            assert(items@.map_values(|v: serde_json::Value| json_val(v)) =~= before.push(
                turn_json(tv[i as int]),
            ));
            assert(tv.take(i as int + 1).map_values(|t: TurnView| turn_json(t)) =~= tv.take(
                i as int,
            ).map_values(|t: TurnView| turn_json(t)).push(turn_json(tv[i as int])));
        }
        i = i + 1;
    }
    proof {
        assert(tv.take(n as int) =~= tv);
    }
    let mut root = v_obj_empty();
    v_obj_insert(&mut root, "model", v_str(req.model.as_str()));
    v_obj_insert(&mut root, "messages", v_arr(items));
    v_obj_insert(&mut root, "stream", v_bool(false));
    proof {
        assert(json_val(root) == request_json(req.model@, tv));
        lemma_request_json_exact(req.model@, tv);
    }
    to_json_text(&root)
}

/// The turn held by a JSON tree of the shape `{"role": string, "content":
/// string, ...}`, or `None` where the tree has another shape.
pub open spec fn turn_of_json(j: JsonData) -> Option<TurnView> {
    match j {
        JsonData::Obj(m) => if m.dom().contains("role"@) && m.dom().contains("content"@) {
            match (m["role"@], m["content"@]) {
                (JsonData::Str(r), JsonData::Str(c)) => Some(TurnView { role: r, content: c }),
                _ => None,
            }
        } else {
            None
        },
        _ => None,
    }
}

/// The reply held by a JSON tree: an object carrying every declared field
/// of the reply envelope with its declared type — a string `model` and
/// `created_at`, a `message` turn, a boolean `done`, and the five unsigned
/// counters. Extra members are ignored; a missing or ill-typed declared
/// field makes the whole reply ill-formed.
pub open spec fn reply_of_json(j: JsonData) -> Option<ReplyView> {
    match j {
        JsonData::Obj(m) => if m.dom().contains("model"@) && m.dom().contains("created_at"@)
            && m.dom().contains("message"@) && m.dom().contains("done"@) && m.dom().contains(
            "total_duration"@,
        ) && m.dom().contains("load_duration"@) && m.dom().contains("prompt_eval_duration"@)
            && m.dom().contains("eval_count"@) && m.dom().contains("eval_duration"@) {
            match (m["model"@], m["created_at"@], m["done"@], m["total_duration"@],
            m["load_duration"@], m["prompt_eval_duration"@], m["eval_count"@],
            m["eval_duration"@]) {
                (
                    JsonData::Str(model),
                    JsonData::Str(created_at),
                    JsonData::Bool(done),
                    JsonData::UInt(total_duration),
                    JsonData::UInt(load_duration),
                    JsonData::UInt(prompt_eval_duration),
                    JsonData::UInt(eval_count),
                    JsonData::UInt(eval_duration),
                ) => match turn_of_json(m["message"@]) {
                    Some(message) => Some(
                        ReplyView {
                            model,
                            created_at,
                            message,
                            done,
                            total_duration,
                            load_duration,
                            prompt_eval_duration,
                            eval_count,
                            eval_duration,
                        },
                    ),
                    None => None,
                },
                _ => None,
            }
        } else {
            None
        },
        _ => None,
    }
}

/// The reply held by reply text: the text must be one well-formed JSON
/// document whose tree [`reply_of_json`] accepts.
pub open spec fn reply_of_text(s: Seq<char>) -> Option<ReplyView> {
    match json_of_text(s) {
        Some(j) => reply_of_json(j),
        None => None,
    }
}

/// Parses reply text into the fully-typed reply envelope: returns `Some`
/// exactly on text that [`reply_of_text`] accepts, and then returns
/// exactly the reply that spec names.
pub fn parse_reply(text: &str) -> (r: Option<Reply>)
    ensures
        match r {
            Some(rep) => reply_of_text(text@) == Some(rep@),
            None => reply_of_text(text@) == None::<ReplyView>,
        },
{
    let root = match parse_json(text) {
        Some(v) => v,
        None => {
            return None;
        },
    };
    let model = match v_get(&root, "model") {
        Some(w) => match v_as_str(w) {
            Some(s) => s,
            None => {
                return None;
            },
        },
        None => {
            return None;
        },
    };
    let created_at = match v_get(&root, "created_at") {
        Some(w) => match v_as_str(w) {
            Some(s) => s,
            None => {
                return None;
            },
        },
        None => {
            return None;
        },
    };
    let done = match v_get(&root, "done") {
        Some(w) => match v_as_bool(w) {
            Some(b) => b,
            None => {
                return None;
            },
        },
        None => {
            return None;
        },
    };
    let total_duration = match v_get(&root, "total_duration") {
        Some(w) => match v_as_u64(w) {
            Some(u) => u,
            None => {
                return None;
            },
        },
        None => {
            return None;
        },
    };
    let load_duration = match v_get(&root, "load_duration") {
        Some(w) => match v_as_u64(w) {
            Some(u) => u,
            None => {
                return None;
            },
        },
        None => {
            return None;
        },
    };
    let prompt_eval_duration = match v_get(&root, "prompt_eval_duration") {
        Some(w) => match v_as_u64(w) {
            Some(u) => u,
            None => {
                return None;
            },
        },
        None => {
            return None;
        },
    };
    let eval_count = match v_get(&root, "eval_count") {
        Some(w) => match v_as_u64(w) {
            Some(u) => u,
            None => {
                return None;
            },
        },
        None => {
            return None;
        },
    };
    let eval_duration = match v_get(&root, "eval_duration") {
        Some(w) => match v_as_u64(w) {
            Some(u) => u,
            None => {
                return None;
            },
        },
        None => {
            return None;
        },
    };
    let message_v = match v_get(&root, "message") {
        Some(w) => w,
        None => {
            return None;
        },
    };
    let role = match v_get(message_v, "role") {
        Some(w) => match v_as_str(w) {
            Some(s) => s,
            None => {
                return None;
            },
        },
        None => {
            return None;
        },
    };
    let content = match v_get(message_v, "content") {
        Some(w) => match v_as_str(w) {
            Some(s) => s,
            None => {
                return None;
            },
        },
        None => {
            return None;
        },
    };
    Some(
        Reply {
            model,
            created_at,
            message: Turn { role, content },
            done,
            total_duration,
            load_duration,
            prompt_eval_duration,
            eval_count,
            eval_duration,
        },
    )
}

} // verus!
