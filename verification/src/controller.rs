//! The send controller and the event handling of the chat client.
//!
//! One send cycle runs `Idle -> Sending -> {Succeeded, Failed} -> Idle`:
//! [`begin_send`] performs the `Idle -> Sending` step and hands the caller
//! the request body to post; the caller performs the one blocking network
//! exchange and hands the outcome back to [`finish_send`], which performs
//! the step back to `Idle`, appending the reply turn exactly on success.
//! Every runtime failure is absorbed here: nothing escapes past the
//! controller, the conversation merely keeps the user's turn with no reply.

use crate::builder::{build_request, built_turns};
use crate::json::text_of_json;
use crate::model::user_turn;
use crate::store::{cleared, Store};
use crate::wire::{encode_request, parse_reply, reply_of_text, request_json};
use vstd::prelude::*;

verus! {

/// A user-interface event other than a send.
#[derive(Debug)]
pub enum Event {
    /// The context field changed.
    EditContext(String),
    /// The input field changed.
    EditInput(String),
    /// The clear action was pressed.
    Clear,
}

/// What the one network exchange of a send cycle came back with.
#[derive(Debug)]
pub enum TransportResult {
    /// The transport delivered a response body.
    Received(String),
    /// The transport failed (connection refused, resolution failure, the
    /// transport's own timeout).
    Failed,
}

/// How a send cycle ended; the caller only logs or refreshes the view on
/// it, the store is already up to date.
#[derive(Debug, PartialEq, Eq, Structural)]
pub enum SendStatus {
    /// The reply's message turn was appended to the conversation.
    ReplyAppended,
    /// The transport failed; the conversation keeps only the user's turn.
    TransportFailed,
    /// The response body was not a well-formed reply; the conversation
    /// keeps only the user's turn.
    MalformedReply,
}

/// Applies a non-send event to the store: edits overwrite the one field
/// they name, clear empties the conversation and the pending input.
pub fn handle_event(store: &mut Store, event: Event)
    ensures
        match event {
            Event::EditContext(text) => final(store)@.context == text@ && final(store)@.turns
                == old(store)@.turns && final(store)@.pending == old(store)@.pending,
            Event::EditInput(text) => final(store)@.pending == text@ && final(store)@.turns == old(
                store,
            )@.turns && final(store)@.context == old(store)@.context,
            Event::Clear => final(store)@ == cleared(old(store)@),
        },
{
    match event {
        Event::EditContext(text) => store.set_context(text),
        Event::EditInput(text) => store.set_pending_input(text),
        Event::Clear => store.clear(),
    }
}

/// The `Idle -> Sending` step: appends the pending input as a user turn
/// (the empty string included — no validation), clears the pending input,
/// and returns the serialized request built from the post-append
/// conversation and the live context.
pub fn begin_send(store: &mut Store, model: &String) -> (body: String)
    ensures
        final(store)@.turns == old(store)@.turns.push(user_turn(old(store)@.pending)),
        final(store)@.pending == Seq::<char>::empty(),
        final(store)@.context == old(store)@.context,
        body@ == text_of_json(
            request_json(
                model@,
                built_turns(
                    old(store)@.context,
                    old(store)@.turns.push(user_turn(old(store)@.pending)),
                ),
            ),
        ),
{
    let text = store.pending.clone();
    store.append_user_turn(text);
    store.set_pending_input(String::new());
    let req = build_request(&store.context, &store.turns, model);
    encode_request(&req)
}

/// The step back to `Idle`: on a delivered body that holds a well-formed
/// reply, the reply's message turn is appended; on a transport failure or
/// an ill-formed body, the store is left exactly as it was.
pub fn finish_send(store: &mut Store, result: TransportResult) -> (status: SendStatus)
    ensures
        match result {
            TransportResult::Failed => final(store)@ == old(store)@ && status
                == SendStatus::TransportFailed,
            TransportResult::Received(text) => match reply_of_text(text@) {
                Some(rep) => final(store)@.turns == old(store)@.turns.push(rep.message)
                    && final(store)@.context == old(store)@.context
                    && final(store)@.pending == old(store)@.pending
                    && status == SendStatus::ReplyAppended,
                None => final(store)@ == old(store)@ && status == SendStatus::MalformedReply,
            },
        },
{
    match result {
        TransportResult::Failed => SendStatus::TransportFailed,
        TransportResult::Received(text) => match parse_reply(text.as_str()) {
            Some(rep) => {
                store.append_reply_turn(rep.message);
                SendStatus::ReplyAppended
            },
            None => SendStatus::MalformedReply,
        },
    }
}

} // verus!
