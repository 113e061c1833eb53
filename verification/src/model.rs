//! The shape of a single conversational turn and of the reply envelope
//! received from the inference server.

use vstd::prelude::*;

verus! {

/// One role-tagged message of a conversation. The role is one of
/// `"system"`, `"user"` or `"assistant"` for turns the client creates
/// itself; a reply parsed from the server may carry any role string.
#[derive(Debug)]
pub struct Turn {
    pub role: String,
    pub content: String,
}

/// The mathematical value of a [`Turn`]: both fields as character sequences.
#[verifier::ext_equal]
pub ghost struct TurnView {
    pub role: Seq<char>,
    pub content: Seq<char>,
}

impl View for Turn {
    type V = TurnView;

    open spec fn view(&self) -> TurnView {
        TurnView { role: self.role@, content: self.content@ }
    }
}

impl Clone for Turn {
    fn clone(&self) -> (res: Turn)
        ensures
            res == *self,
    {
        Turn { role: self.role.clone(), content: self.content.clone() }
    }
}

/// The sequence of turn values held by a sequence of turns.
pub open spec fn turns_view(ts: Seq<Turn>) -> Seq<TurnView> {
    ts.map_values(|t: Turn| t@)
}

/// The role string of turns the user sends.
pub open spec fn user_role() -> Seq<char> {
    "user"@
}

/// The role string of the live context turn, and of stored turns the
/// request builder drops.
pub open spec fn system_role() -> Seq<char> {
    "system"@
}

/// The turn value appended when the user sends `content`.
pub open spec fn user_turn(content: Seq<char>) -> TurnView {
    TurnView { role: user_role(), content }
}

/// The request submitted to the server on a send: the model identifier, the
/// exact ordered turn list, and the streaming flag (always off here).
#[derive(Debug)]
pub struct OutboundRequest {
    pub model: String,
    pub turns: Vec<Turn>,
    pub stream: bool,
}

/// The fully-typed reply envelope. Only `message` is consumed by the chat
/// logic; the remaining fields are checked for presence and type and then
/// carried along unused.
#[derive(Debug)]
pub struct Reply {
    pub model: String,
    pub created_at: String,
    pub message: Turn,
    pub done: bool,
    pub total_duration: u64,
    pub load_duration: u64,
    pub prompt_eval_duration: u64,
    pub eval_count: u64,
    pub eval_duration: u64,
}

/// The mathematical value of a [`Reply`].
#[verifier::ext_equal]
pub ghost struct ReplyView {
    pub model: Seq<char>,
    pub created_at: Seq<char>,
    pub message: TurnView,
    pub done: bool,
    pub total_duration: u64,
    pub load_duration: u64,
    pub prompt_eval_duration: u64,
    pub eval_count: u64,
    pub eval_duration: u64,
}

impl View for Reply {
    type V = ReplyView;

    open spec fn view(&self) -> ReplyView {
        ReplyView {
            model: self.model@,
            created_at: self.created_at@,
            message: self.message@,
            done: self.done,
            total_duration: self.total_duration,
            load_duration: self.load_duration,
            prompt_eval_duration: self.prompt_eval_duration,
            eval_count: self.eval_count,
            eval_duration: self.eval_duration,
        }
    }
}

} // verus!
