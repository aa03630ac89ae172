//! What holds of every reader, proved over the model.

use vstd::prelude::*;
use crate::model::ReadPlan;
use crate::model::ReaderModel;
use crate::model::ceil_div;
use crate::model::served;
use crate::seek::SeekFault;
use crate::seek::SeekTarget;
use crate::seek::seek_outcome;

verus! {

/// A seek keeps the invariant, and keeps the buffer in agreement with the
/// object it was filled from.
pub proof fn lemma_sought_keeps_agreement(m: ReaderModel, dest: int, object: Seq<u8>)
    requires
        m.wf(),
        0 <= dest <= u64::MAX,
    ensures
        m.sought(dest).wf(),
        m.sought(dest).position == dest,
        m.agrees_with(object) ==> m.sought(dest).agrees_with(object),
{
    let after = m.sought(dest);
    if m.agrees_with(object) {
        assert(after.buffer =~= object.subrange(
            after.window_start + after.buffer_start,
            after.window_start + after.buffer_start + after.buffer.len(),
        ));
    }
}

/// A seek fetches nothing, and one that lands on a buffered byte leaves the
/// buffer as it was.
pub proof fn lemma_sought_is_lazy(m: ReaderModel, dest: int)
    requires
        m.wf(),
    ensures
        m.sought(dest).fetches == m.fetches,
        m.holds(dest) ==> m.sought(dest) == (ReaderModel { position: dest, ..m }),
        !m.holds(dest) ==> m.sought(dest).buffer.len() == 0 && !(m.sought(dest).state is Buffered),
{
}

/// Answering from the buffer keeps the invariant and the agreement with the
/// object, and returns the object's bytes at the position.
pub proof fn lemma_taken_matches_object(m: ReaderModel, n: int, object: Seq<u8>)
    requires
        m.wf(),
    ensures
        m.taken(n).wf(),
        m.take_bytes(n).len() == m.take_len(n),
        m.agrees_with(object) ==> m.taken(n).agrees_with(object),
        m.agrees_with(object) && m.holds(m.position) ==> m.take_bytes(n) == object.subrange(
            m.window_start + m.position,
            m.window_start + m.position + m.take_len(n),
        ),
        !m.holds(m.position) ==> m.take_bytes(n) == Seq::<u8>::empty(),
{
}

/// Installing any reply keeps the invariant. Installing what a backend
/// serves of an object that contains the window fills the buffer with
/// exactly the bytes asked for, which are the object's bytes from the
/// position on.
pub proof fn lemma_filled_matches_object(m: ReaderModel, reply: Seq<u8>, object: Seq<u8>)
    requires
        m.wf(),
    ensures
        m.filled(reply).wf(),
        m.filled(reply).position == m.position,
        m.window_start + m.window_len <= object.len() && reply == served(
            object,
            m.window_start + m.position,
            m.window_start + m.position + m.wanted(),
        ) ==> m.filled(reply).agrees_with(object) && m.filled(reply).buffer.len() == m.wanted(),
{
    let after = m.filled(reply);
    if m.window_start + m.window_len <= object.len() && reply == served(
        object,
        m.window_start + m.position,
        m.window_start + m.position + m.wanted(),
    ) {
        assert(after.buffer =~= object.subrange(
            after.window_start + after.buffer_start,
            after.window_start + after.buffer_start + after.buffer.len(),
        ));
    }
}

/// One read against a backend that serves `object`: the invariant and the
/// agreement with `object` are kept, the bytes returned are the window's
/// bytes from the position on, as many as `read_len` says, and the position
/// moves behind them.
pub proof fn lemma_read_matches_window(m: ReaderModel, n: int, object: Seq<u8>)
    requires
        m.wf(),
        m.agrees_with(object),
    ensures
        m.after_read(n, object).wf(),
        m.after_read(n, object).agrees_with(object),
        m.read_bytes(n, object).len() == m.read_len(n),
        m.after_read(n, object).position == m.position + m.read_len(n),
        m.read_bytes(n, object) == m.expected_bytes(n, object),
{
    match m.plan(n) {
        ReadPlan::Empty => {},
        ReadPlan::Buffered => {
            lemma_taken_matches_object(m, n, object);
        },
        ReadPlan::Fetch { start, end } => {
            let reply = served(object, start as int, end as int);
            lemma_filled_matches_object(m, reply, object);
            lemma_taken_matches_object(m.filled(reply), n, object);
        },
    }
}

/// At or beyond the window's end a read of any size returns nothing,
/// fetches nothing and changes nothing.
pub proof fn lemma_read_at_end_is_empty(m: ReaderModel, n: int, object: Seq<u8>)
    requires
        m.wf(),
        m.position >= m.window_len,
    ensures
        m.plan(n) == ReadPlan::Empty,
        m.read_bytes(n, object) == Seq::<u8>::empty(),
        m.after_read(n, object) == m,
{
}

/// A read of no bytes returns nothing, fetches nothing and changes nothing.
pub proof fn lemma_read_of_nothing_is_empty(m: ReaderModel, object: Seq<u8>)
    requires
        m.wf(),
    ensures
        m.plan(0) == ReadPlan::Empty,
        m.read_bytes(0, object) == Seq::<u8>::empty(),
        m.after_read(0, object) == m,
{
}

/// A seek from the start to any distance beyond the window's end succeeds,
/// and the read that follows returns nothing and changes nothing.
pub proof fn lemma_seek_past_end_then_read(
    m: ReaderModel,
    beyond: u64,
    n: int,
    object: Seq<u8>,
)
    requires
        m.wf(),
        m.window_len + beyond <= u64::MAX,
    ensures
        seek_outcome(
            SeekTarget::FromStart((m.window_len + beyond) as u64),
            m.position,
            m.window_len,
        ) == Ok::<u64, SeekFault>((m.window_len + beyond) as u64),
        m.sought(m.window_len + beyond).plan(n) == ReadPlan::Empty,
        m.sought(m.window_len + beyond).read_bytes(n, object) == Seq::<u8>::empty(),
        m.sought(m.window_len + beyond).after_read(n, object) == m.sought(m.window_len + beyond),
{
}

/// Reading the same stretch again after seeking back returns the same
/// bytes: what a read returns depends on the object and the position alone,
/// not on what the buffer held.
pub proof fn lemma_reread_is_idempotent(
    a: ReaderModel,
    b: ReaderModel,
    n: int,
    m: int,
    object: Seq<u8>,
)
    requires
        a.wf(),
        b.wf(),
        a.agrees_with(object),
        b.agrees_with(object),
        a.window_start == b.window_start,
        a.window_len == b.window_len,
        a.position == b.position,
    ensures
        a.read_len(n) <= b.read_len(m) ==> a.read_bytes(n, object) == b.read_bytes(
            m,
            object,
        ).take(a.read_len(n)),
        a.read_len(n) == b.read_len(m) ==> a.read_bytes(n, object) == b.read_bytes(m, object),
{
    lemma_read_matches_window(a, n, object);
    lemma_read_matches_window(b, m, object);
}

/// What holds of a reader that has only read, forward, since it was opened:
/// the fetches so far are the buffers' worth that the position has entered,
/// and the last of them is buffered up to its end.
spec fn streaming(m: ReaderModel) -> bool {
    &&& (m.fetches - 1) * m.capacity < m.position <= m.fetches * m.capacity
    &&& m.position <= m.window_len
    &&& m.position < m.fetches * m.capacity && m.position < m.window_len ==> m.state is Buffered
    &&& m.state is Buffered ==> m.buffer_start + m.buffer.len() == if m.fetches * m.capacity
        <= m.window_len {
        m.fetches * m.capacity
    } else {
        m.window_len
    }
}

proof fn lemma_streaming_step(m: ReaderModel, n: int, object: Seq<u8>)
    requires
        m.wf(),
        m.agrees_with(object),
        streaming(m),
    ensures
        streaming(m.after_read(n, object)),
{
    lemma_read_matches_window(m, n, object);
    let c = m.capacity;
    let f = m.fetches;
    assert((f + 1) * c == f * c + c) by (nonlinear_arith);
    assert((f - 1) * c == f * c - c) by (nonlinear_arith);
    match m.plan(n) {
        ReadPlan::Empty => {},
        ReadPlan::Buffered => {},
        ReadPlan::Fetch { start, end } => {
            let reply = served(object, start as int, end as int);
            lemma_filled_matches_object(m, reply, object);
            assert(f <= f * c) by (nonlinear_arith)
                requires
                    c >= 1,
                    f >= 0,
            ;
        },
    }
}

proof fn lemma_streaming_run(m: ReaderModel, sizes: Seq<nat>, object: Seq<u8>)
    requires
        m.wf(),
        m.agrees_with(object),
        streaming(m),
    ensures
        m.after_reads(sizes, object).wf(),
        m.after_reads(sizes, object).agrees_with(object),
        streaming(m.after_reads(sizes, object)),
        m.after_reads(sizes, object).capacity == m.capacity,
        m.after_reads(sizes, object).position == m.position + m.bytes_read(sizes, object),
    decreases sizes.len(),
{
    if sizes.len() > 0 {
        lemma_streaming_run(m, sizes.drop_last(), object);
        let before = m.after_reads(sizes.drop_last(), object);
        lemma_read_matches_window(before, sizes.last() as int, object);
        lemma_streaming_step(before, sizes.last() as int, object);
    }
}

/// A reader that only reads, forward from where it was opened, fetches as
/// little as its buffer allows: after reads of any sizes that returned
/// `total` bytes in all, it has fetched `total / capacity` times, rounded
/// up, given a backend that serves the object and never fails.
pub proof fn lemma_forward_reads_fetch_minimally(
    window_start: int,
    window_len: int,
    capacity: int,
    sizes: Seq<nat>,
    object: Seq<u8>,
)
    requires
        ReaderModel::fresh(window_start, window_len, capacity).wf(),
        window_start + window_len <= object.len(),
    ensures
        ({
            let opened = ReaderModel::fresh(window_start, window_len, capacity);
            let total = opened.bytes_read(sizes, object);
            &&& opened.after_reads(sizes, object).position == total
            &&& opened.after_reads(sizes, object).fetches == ceil_div(total, capacity)
        }),
{
    let opened = ReaderModel::fresh(window_start, window_len, capacity);
    assert(opened.buffer =~= object.subrange(
        opened.window_start + opened.buffer_start,
        opened.window_start + opened.buffer_start + opened.buffer.len(),
    ));
    assert((opened.fetches - 1) * capacity < 0) by (nonlinear_arith)
        requires
            opened.fetches == 0,
            capacity >= 1,
    ;
    assert(opened.fetches * capacity == 0) by (nonlinear_arith)
        requires
            opened.fetches == 0,
    ;
    lemma_streaming_run(opened, sizes, object);
    let end = opened.after_reads(sizes, object);
    let f = end.fetches;
    let p = end.position;
    assert((p + capacity - 1) / capacity == f) by (nonlinear_arith)
        requires
            capacity >= 1,
            (f - 1) * capacity < p <= f * capacity,
    ;
}

} // verus!
