//! A run of actions against a reader and its reference cursor, as a
//! mathematical object: where both stand after each action, and whether
//! every reply so far was accepted.

use vstd::prelude::*;
use crate::action::ReadAction;
use crate::checker::next_accepted;
use crate::checker::read_accepted;
use crate::laws::lemma_read_matches_window;
use crate::laws::lemma_sought_keeps_agreement;
use crate::model::ReaderModel;
use crate::seek::seek_outcome;

verus! {

/// Where a replay stands.
pub ghost struct Replay {
    /// The reader's state.
    pub reader: ReaderModel,
    /// The position that the reference cursor has followed the reader to.
    pub cursor: int,
    /// Whether every reply so far was accepted. A replay ends at the first
    /// reply that is refused.
    pub accepted: bool,
}

/// Number of bytes that an action asks the reader for: a read its size, a
/// next chunk one buffer's worth, a seek none.
pub open spec fn asked(m: ReaderModel, action: ReadAction) -> int {
    match action {
        ReadAction::Read(n) => n as int,
        ReadAction::Next => m.capacity,
        ReadAction::Seek(_) => 0,
    }
}

/// The reader's state after an action, with every fetch answered by a
/// backend that serves `object`.
pub open spec fn after_action(m: ReaderModel, action: ReadAction, object: Seq<u8>) -> ReaderModel {
    match action {
        ReadAction::Seek(target) => match seek_outcome(target, m.position, m.window_len) {
            Ok(dest) => m.sought(dest as int),
            Err(_) => m,
        },
        _ => m.after_read(asked(m, action), object),
    }
}

/// Whether the reference cursor at `cur` over `expected` accepts what the
/// reader in state `m` answers to an action.
pub open spec fn action_accepted(
    expected: Seq<u8>,
    cur: int,
    m: ReaderModel,
    action: ReadAction,
    object: Seq<u8>,
) -> bool {
    match action {
        ReadAction::Read(n) => read_accepted(expected, cur, n as int, m.read_bytes(n as int, object)),
        ReadAction::Next => next_accepted(expected, cur, m.read_bytes(m.capacity, object)),
        ReadAction::Seek(target) => seek_outcome(target, m.position, m.window_len) == seek_outcome(
            target,
            cur,
            expected.len() as int,
        ),
    }
}

/// Where the reference cursor stands after it has accepted the reader's
/// answer to an action: behind the bytes returned, or at the destination of
/// a seek that succeeded.
pub open spec fn cursor_after(
    cur: int,
    m: ReaderModel,
    action: ReadAction,
    object: Seq<u8>,
) -> int {
    match action {
        ReadAction::Seek(target) => match seek_outcome(target, m.position, m.window_len) {
            Ok(dest) => dest as int,
            Err(_) => cur,
        },
        _ => cur + m.read_bytes(asked(m, action), object).len(),
    }
}

/// One action of a replay. The reader answers whether or not the answer is
/// accepted; the cursor moves only if it is.
pub open spec fn replay_step(
    at: Replay,
    expected: Seq<u8>,
    action: ReadAction,
    object: Seq<u8>,
) -> Replay {
    let accepted = action_accepted(expected, at.cursor, at.reader, action, object);
    Replay {
        reader: after_action(at.reader, action, object),
        cursor: if accepted {
            cursor_after(at.cursor, at.reader, action, object)
        } else {
            at.cursor
        },
        accepted,
    }
}

/// Where a replay of `actions` from `start` stands, with every fetch
/// answered by a backend that serves `object`: every action in turn, up to
/// and including the first whose answer is refused.
pub open spec fn replay(
    start: Replay,
    expected: Seq<u8>,
    actions: Seq<ReadAction>,
    object: Seq<u8>,
) -> Replay
    decreases actions.len(),
{
    if actions.len() == 0 {
        start
    } else {
        let before = replay(start, expected, actions.drop_last(), object);
        if before.accepted {
            replay_step(before, expected, actions.last(), object)
        } else {
            before
        }
    }
}

/// A replay that has refused an answer stays where it is, whatever follows.
pub proof fn lemma_replay_stays_refused(
    start: Replay,
    expected: Seq<u8>,
    actions: Seq<ReadAction>,
    object: Seq<u8>,
    k: int,
)
    requires
        0 <= k <= actions.len(),
        !replay(start, expected, actions.take(k), object).accepted,
    ensures
        replay(start, expected, actions, object) == replay(start, expected, actions.take(k), object),
    decreases actions.len(),
{
    if k == actions.len() {
        assert(actions.take(k) =~= actions);
    } else {
        assert(actions.drop_last().take(k) =~= actions.take(k));
        lemma_replay_stays_refused(start, expected, actions.drop_last(), object, k);
    }
}

/// A reference cursor that stands where the reader stands, over the bytes of
/// the reader's window, accepts the reader's answer to any action and stands
/// where the reader stands afterwards.
pub proof fn lemma_step_accepts_reader(m: ReaderModel, action: ReadAction, object: Seq<u8>)
    requires
        m.wf(),
        m.agrees_with(object),
    ensures
        ({
            let at = Replay { reader: m, cursor: m.position, accepted: true };
            let next = replay_step(at, m.window_bytes(object), action, object);
            &&& next.accepted
            &&& next.cursor == next.reader.position
            &&& next.reader.wf()
            &&& next.reader.agrees_with(object)
            &&& next.reader.window_bytes(object) == m.window_bytes(object)
        }),
{
    assert(m.window_bytes(object).len() == m.window_len);
    match action {
        ReadAction::Seek(target) => {
            if let Ok(dest) = seek_outcome(target, m.position, m.window_len) {
                lemma_sought_keeps_agreement(m, dest as int, object);
            }
        },
        _ => {
            lemma_read_matches_window(m, asked(m, action), object);
        },
    }
}

/// Whatever the actions, a reader over a backend that serves its object is
/// never refused by a reference cursor that starts where the reader stands:
/// every answer is what a seekable stream over the window's bytes returns
/// at the position that the cursor has followed the reader to.
pub proof fn lemma_replay_accepts_reader(
    m: ReaderModel,
    actions: Seq<ReadAction>,
    object: Seq<u8>,
)
    requires
        m.wf(),
        m.agrees_with(object),
    ensures
        ({
            let start = Replay { reader: m, cursor: m.position, accepted: true };
            let end = replay(start, m.window_bytes(object), actions, object);
            &&& end.accepted
            &&& end.cursor == end.reader.position
            &&& end.reader.wf()
            &&& end.reader.agrees_with(object)
            &&& end.reader.window_bytes(object) == m.window_bytes(object)
        }),
    decreases actions.len(),
{
    if actions.len() > 0 {
        lemma_replay_accepts_reader(m, actions.drop_last(), object);
        let start = Replay { reader: m, cursor: m.position, accepted: true };
        let before = replay(start, m.window_bytes(object), actions.drop_last(), object);
        lemma_step_accepts_reader(before.reader, actions.last(), object);
    }
}

} // verus!
