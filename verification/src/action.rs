//! The operations that can be replayed against a reader.

use vstd::prelude::*;
use crate::seek::SeekTarget;

verus! {

/// One operation on a reader.
#[derive(Clone, Copy, Debug, PartialEq, Eq, Structural)]
pub enum ReadAction {
    /// Read up to this many bytes. Fewer may come back.
    Read(usize),
    /// Move the cursor. A destination beyond the window's end is in order.
    Seek(SeekTarget),
    /// Read the next chunk.
    Next,
}

/// Whether an action is worth showing: a read of no bytes is not.
pub open spec fn is_shown(action: ReadAction) -> bool {
    action != ReadAction::Read(0)
}

/// The actions of `actions` that are worth showing, in their order.
pub open spec fn shown(actions: Seq<ReadAction>) -> Seq<ReadAction> {
    actions.filter(|a: ReadAction| is_shown(a))
}

/// Appending an action appends it to the shown ones, or not at all.
pub proof fn lemma_shown_push(actions: Seq<ReadAction>, action: ReadAction)
    ensures
        shown(actions.push(action)) == if is_shown(action) {
            shown(actions).push(action)
        } else {
            shown(actions)
        },
{
    reveal(Seq::filter);
    assert(actions.push(action).drop_last() =~= actions);
}

/// The actions that are worth showing: all but the reads of no bytes.
pub fn without_empty_reads(actions: &Vec<ReadAction>) -> (out: Vec<ReadAction>)
    ensures
        out@ == shown(actions@),
{
    let mut out: Vec<ReadAction> = Vec::new();
    let mut i: usize = 0;
    proof {
        reveal(Seq::filter);
    }
    while i < actions.len()
        invariant
            i <= actions.len(),
            out@ == shown(actions@.take(i as int)),
        decreases actions.len() - i,
    {
        let action: ReadAction = actions[i];
        proof {
            lemma_shown_push(actions@.take(i as int), action);
            assert(actions@.take(i as int).push(action) =~= actions@.take(i + 1));
        }
        if action != ReadAction::Read(0) {
            out.push(action);
        }
        i = i + 1;
    }
    assert(actions@.take(i as int) =~= actions@);
    out
}

} // verus!
