//! The conversation store: an ordered, append-only log of turns, a live
//! system-context string, and the not-yet-sent input draft.

use crate::model::{turns_view, user_turn, Turn, TurnView};
use vstd::prelude::*;

verus! {

/// All chat state owned by the client for the lifetime of the process.
#[derive(Debug)]
pub struct Store {
    pub turns: Vec<Turn>,
    pub context: String,
    pub pending: String,
}

/// The mathematical value of a [`Store`].
#[verifier::ext_equal]
pub ghost struct StoreView {
    pub turns: Seq<TurnView>,
    pub context: Seq<char>,
    pub pending: Seq<char>,
}

impl View for Store {
    type V = StoreView;

    open spec fn view(&self) -> StoreView {
        StoreView { turns: turns_view(self.turns@), context: self.context@, pending: self.pending@ }
    }
}

/// The store value left behind by `clear`: no turns, no pending input, the
/// context kept as it was.
pub open spec fn cleared(s: StoreView) -> StoreView {
    StoreView { turns: Seq::empty(), context: s.context, pending: Seq::empty() }
}

impl Store {
    /// A fresh store: empty conversation, empty context, empty draft.
    pub fn new() -> (s: Store)
        ensures
            s@.turns == Seq::<TurnView>::empty(),
            s@.context == Seq::<char>::empty(),
            s@.pending == Seq::<char>::empty(),
    {
        let s = Store { turns: Vec::new(), context: String::new(), pending: String::new() };
        proof {
            assert(s@.turns =~= Seq::<TurnView>::empty());
        }
        s
    }

    /// The conversation in insertion order.
    pub fn turns(&self) -> (r: &Vec<Turn>)
        ensures
            turns_view(r@) == self@.turns,
    {
        &self.turns
    }

    /// The live system-context string.
    pub fn context(&self) -> (r: &String)
        ensures
            r@ == self@.context,
    {
        &self.context
    }

    /// The not-yet-sent input draft.
    pub fn pending_input(&self) -> (r: &String)
        ensures
            r@ == self@.pending,
    {
        &self.pending
    }

    /// Appends `{role: "user", content: text}` at the tail of the
    /// conversation. Any text is accepted, the empty string included.
    pub fn append_user_turn(&mut self, text: String)
        ensures
            final(self)@.turns == old(self)@.turns.push(user_turn(text@)),
            final(self)@.context == old(self)@.context,
            final(self)@.pending == old(self)@.pending,
    {
        let t = Turn { role: "user".to_owned(), content: text };
        self.turns.push(t);
        proof {
            assert(self@.turns =~= old(self)@.turns.push(user_turn(t@.content)));
        }
    }

    /// Appends an arbitrary turn (used for the model's reply) at the tail.
    pub fn append_reply_turn(&mut self, turn: Turn)
        ensures
            final(self)@.turns == old(self)@.turns.push(turn@),
            final(self)@.context == old(self)@.context,
            final(self)@.pending == old(self)@.pending,
    {
        let ghost tv = turn@;
        self.turns.push(turn);
        proof {
            assert(self@.turns =~= old(self)@.turns.push(tv));
        }
    }

    /// Empties the conversation and the pending input. The context is kept:
    /// it is a live instruction, not part of the history.
    pub fn clear(&mut self)
        ensures
            final(self)@ == cleared(old(self)@),
    {
        self.turns.clear();
        self.pending = String::new();
        proof {
            assert(self@.turns =~= Seq::<TurnView>::empty());
            assert(self@ =~= cleared(old(self)@));
        }
    }

    /// Overwrites the live context string.
    pub fn set_context(&mut self, text: String)
        ensures
            final(self)@.context == text@,
            final(self)@.turns == old(self)@.turns,
            final(self)@.pending == old(self)@.pending,
    {
        self.context = text;
    }

    /// Overwrites the pending input draft.
    pub fn set_pending_input(&mut self, text: String)
        ensures
            final(self)@.pending == text@,
            final(self)@.turns == old(self)@.turns,
            final(self)@.context == old(self)@.context,
    {
        self.pending = text;
    }
}

/// The conversation left by a sequence of append calls, applied first to
/// last: each call pushes its turn at the tail.
pub open spec fn after_appends(conv: Seq<TurnView>, calls: Seq<TurnView>) -> Seq<TurnView>
    decreases calls.len(),
{
    if calls.len() == 0 {
        conv
    } else {
        after_appends(conv.push(calls[0]), calls.subrange(1, calls.len() as int))
    }
}

/// Appends are first-in, first-out: whatever sequence of `append_user_turn`
/// and `append_reply_turn` calls is made, the conversation ends as the prior
/// conversation followed by the appended turns in call order — nothing is
/// reordered, dropped or inserted elsewhere.
pub proof fn lemma_appends_are_fifo(conv: Seq<TurnView>, calls: Seq<TurnView>)
    ensures
        after_appends(conv, calls) == conv + calls,
    decreases calls.len(),
{
    if calls.len() == 0 {
        assert(conv + calls =~= conv);
    } else {
        let rest = calls.subrange(1, calls.len() as int);
        lemma_appends_are_fifo(conv.push(calls[0]), rest);
        assert(conv.push(calls[0]) + rest =~= conv + calls);
    }
}

/// Clearing is idempotent: a second `clear` right after a first changes
/// nothing, whatever the prior state was.
pub proof fn lemma_clear_idempotent(s: StoreView)
    ensures
        cleared(cleared(s)) == cleared(s),
{
}

} // verus!
