//! The computable core of the view: the display list is the conversation
//! in stored order, and a placeholder stands in while it is empty. Widget
//! construction and layout live outside the library.

use crate::model::{turns_view, Turn};
use crate::store::Store;
use vstd::prelude::*;

verus! {

/// The turns to display, in conversation order, nothing added or dropped.
pub fn display_turns(store: &Store) -> (r: Vec<Turn>)
    ensures
        turns_view(r@) == store@.turns,
{
    let mut out: Vec<Turn> = Vec::new();
    proof {
        assert(turns_view(out@) =~= store@.turns.take(0));
    }
    let n = store.turns.len();
    let mut i: usize = 0;
    while i < n
        invariant
            n == store.turns.len(),
            i <= n,
            turns_view(out@) == store@.turns.take(i as int),
        decreases n - i,
    {
        let ghost before = turns_view(out@);
        out.push(store.turns[i].clone());
        proof {
            assert(turns_view(out@) =~= before.push(store@.turns[i as int]));
            assert(store@.turns.take(i as int + 1) =~= store@.turns.take(i as int).push(
                store@.turns[i as int],
            ));
        }
        i = i + 1;
    }
    proof {
        assert(store@.turns.take(n as int) =~= store@.turns);
    }
    out
}

/// Whether the placeholder block is shown: exactly while the conversation
/// is empty.
pub fn show_placeholder(store: &Store) -> (r: bool)
    ensures
        r == (store@.turns.len() == 0),
{
    store.turns.len() == 0
}

} // verus!
