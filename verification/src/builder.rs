//! The request builder: derives the exact ordered turn list submitted on a
//! send action from the live context and the stored conversation.

use crate::model::{system_role, turns_view, OutboundRequest, Turn, TurnView};
use vstd::prelude::*;

verus! {

/// The stored turns with every system-role turn dropped, order kept.
pub open spec fn non_system(conv: Seq<TurnView>) -> Seq<TurnView>
    decreases conv.len(),
{
    if conv.len() == 0 {
        Seq::empty()
    } else {
        non_system(conv.drop_last()) + if conv.last().role == system_role() {
            Seq::<TurnView>::empty()
        } else {
            seq![conv.last()]
        }
    }
}

/// [`non_system`] as a filter: the turns kept are those whose role is not
/// `"system"`.
pub open spec fn kept_turns(conv: Seq<TurnView>) -> Seq<TurnView> {
    conv.filter(|t: TurnView| t.role != system_role())
}

/// [`non_system`] is exactly the filter [`kept_turns`]: the builder keeps a
/// stored turn if and only if its role is not `"system"`, in stored order.
pub proof fn lemma_non_system_is_filter(conv: Seq<TurnView>)
    ensures
        non_system(conv) == kept_turns(conv),
    decreases conv.len(),
{
    reveal(Seq::filter);
    if conv.len() == 0 {
        assert(kept_turns(conv) =~= Seq::<TurnView>::empty());
    } else {
        lemma_non_system_is_filter(conv.drop_last());
        if conv.last().role == system_role() {
            assert(kept_turns(conv) =~= kept_turns(conv.drop_last()));
            assert(non_system(conv) =~= non_system(conv.drop_last()));
        } else {
            assert(kept_turns(conv) =~= kept_turns(conv.drop_last()).push(conv.last()));
            assert(non_system(conv) =~= non_system(conv.drop_last()).push(conv.last()));
        }
    }
}

/// The turn list of an outbound request: one synthetic system turn carrying
/// the context first — only when the context is non-empty — then every
/// stored turn whose role is not `"system"`, in stored order. Stored
/// system turns are dropped so the live context is never duplicated or
/// contradicted.
pub open spec fn built_turns(context: Seq<char>, conv: Seq<TurnView>) -> Seq<TurnView> {
    (if context.len() > 0 {
        seq![TurnView { role: system_role(), content: context }]
    } else {
        Seq::<TurnView>::empty()
    }) + non_system(conv)
}

/// Builds the request for one send: `model` and the turn list of
/// [`built_turns`], with streaming off.
pub fn build_request(context: &String, conv: &Vec<Turn>, model: &String) -> (r: OutboundRequest)
    ensures
        r.model@ == model@,
        r.stream == false,
        turns_view(r.turns@) == built_turns(context@, turns_view(conv@)),
{
    let mut out: Vec<Turn> = Vec::new();
    if !context.as_str().is_empty() {
        out.push(Turn { role: "system".to_owned(), content: context.clone() });
    }
    proof {
        assert(turns_view(conv@).take(0) =~= Seq::<TurnView>::empty());
        assert(turns_view(out@) =~= built_turns(context@, turns_view(conv@).take(0)));
    }
    let sys: String = "system".to_owned();
    let n = conv.len();
    let mut i: usize = 0;
    while i < n
        invariant
            n == conv.len(),
            i <= n,
            sys@ == system_role(),
            turns_view(out@) == built_turns(context@, turns_view(conv@).take(i as int)),
        decreases n - i,
    {
        let ghost prefix = turns_view(conv@).take(i as int);
        let ghost next = turns_view(conv@).take(i as int + 1);
        proof {
            assert(next.drop_last() =~= prefix);
            assert(next.last() == conv@[i as int]@);
        }
        let ghost before = turns_view(out@);
        if !(conv[i].role == sys) {
            out.push(conv[i].clone());
            proof {
                assert(turns_view(out@) =~= before.push(conv@[i as int]@));
            }
        }
        proof {
            assert(turns_view(out@) =~= built_turns(context@, next));
        }
        i = i + 1;
    }
    proof {
        assert(turns_view(conv@).take(n as int) =~= turns_view(conv@));
    }
    OutboundRequest { model: model.clone(), turns: out, stream: false }
}

} // verus!
