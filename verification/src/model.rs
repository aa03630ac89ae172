//! The reader as a mathematical state machine: what a reader holds, what it
//! decides before a read, and what each operation makes of it.

use vstd::prelude::*;

verus! {

/// What a reader knows of its buffer.
#[derive(Clone, Copy, Debug, PartialEq, Eq, Structural)]
pub enum BufferState {
    /// Nothing has been fetched yet.
    Fresh,
    /// The buffer holds bytes of the window and the position lies in or
    /// right behind them.
    Buffered,
    /// A seek left the buffered span; the buffer was dropped and is refilled
    /// by the next read that needs it.
    Stale,
}

/// What a read has to do before it can answer.
#[derive(Clone, Copy, Debug, PartialEq, Eq, Structural)]
pub enum ReadPlan {
    /// Nothing is to be delivered: no byte was asked for, or the position
    /// is at or beyond the window's end.
    Empty,
    /// The buffer holds the byte at the position: answer from it.
    Buffered,
    /// The backend has to be asked for the absolute byte range
    /// `[start, end)` of the object.
    Fetch { start: u64, end: u64 },
}

/// The state of a reader, in unbounded integers and sequences.
pub ghost struct ReaderModel {
    /// Absolute position of the window's first byte.
    pub window_start: int,
    /// Number of bytes in the window.
    pub window_len: int,
    /// Largest number of bytes the buffer may hold.
    pub capacity: int,
    /// The cursor, counted from the window's first byte.
    pub position: int,
    /// The buffered bytes.
    pub buffer: Seq<u8>,
    /// Position, within the window, of the buffer's first byte.
    pub buffer_start: int,
    pub state: BufferState,
    /// Number of fetches whose reply was installed, counted up to `u64::MAX`.
    pub fetches: int,
}

impl ReaderModel {
    /// The state of a reader that has just been opened.
    pub open spec fn fresh(window_start: int, window_len: int, capacity: int) -> ReaderModel {
        ReaderModel {
            window_start,
            window_len,
            capacity,
            position: 0,
            buffer: Seq::empty(),
            buffer_start: 0,
            state: BufferState::Fresh,
            fetches: 0,
        }
    }

    /// The invariant of every reader state.
    pub open spec fn wf(self) -> bool {
        &&& 0 <= self.window_start
        &&& 0 <= self.window_len
        &&& self.window_start + self.window_len <= u64::MAX
        &&& 1 <= self.capacity <= usize::MAX
        &&& 0 <= self.position <= u64::MAX
        &&& 0 <= self.buffer_start
        &&& self.buffer.len() <= self.capacity
        &&& self.buffer_start + self.buffer.len() <= self.window_len
        &&& 0 <= self.fetches <= u64::MAX
        &&& match self.state {
            BufferState::Buffered => self.buffer.len() > 0 && self.buffer_start <= self.position
                <= self.buffer_start + self.buffer.len(),
            _ => self.buffer.len() == 0,
        }
    }

    /// Whether the position is at or beyond the window's end.
    pub open spec fn exhausted(self) -> bool {
        self.position >= self.window_len
    }

    /// Whether the buffer holds the byte at position `at`.
    pub open spec fn holds(self, at: int) -> bool {
        self.state is Buffered && self.buffer_start <= at < self.buffer_start + self.buffer.len()
    }

    /// Number of buffered bytes from the position on.
    pub open spec fn available(self) -> int {
        if self.holds(self.position) {
            self.buffer_start + self.buffer.len() - self.position
        } else {
            0
        }
    }

    /// Number of bytes a refill at the position asks for: a full buffer, or
    /// what is left of the window.
    pub open spec fn wanted(self) -> int {
        if self.exhausted() {
            0
        } else if self.capacity <= self.window_len - self.position {
            self.capacity
        } else {
            self.window_len - self.position
        }
    }

    /// What a read of `n` bytes has to do first.
    pub open spec fn plan(self, n: int) -> ReadPlan {
        if n <= 0 || self.exhausted() {
            ReadPlan::Empty
        } else if self.holds(self.position) {
            ReadPlan::Buffered
        } else {
            ReadPlan::Fetch {
                start: (self.window_start + self.position) as u64,
                end: (self.window_start + self.position + self.wanted()) as u64,
            }
        }
    }

    /// The state after the reply to a fetch at the position was installed.
    /// Of a reply longer than what was asked for, only the bytes asked for
    /// are kept.
    pub open spec fn filled(self, reply: Seq<u8>) -> ReaderModel {
        let kept = if reply.len() <= self.wanted() {
            reply
        } else {
            reply.take(self.wanted())
        };
        ReaderModel {
            buffer: kept,
            buffer_start: if kept.len() > 0 {
                self.position
            } else {
                0
            },
            state: if kept.len() > 0 {
                BufferState::Buffered
            } else {
                BufferState::Stale
            },
            fetches: if self.fetches < u64::MAX {
                self.fetches + 1
            } else {
                self.fetches
            },
            ..self
        }
    }

    /// Number of bytes a read of `n` bytes takes out of the buffer.
    pub open spec fn take_len(self, n: int) -> int {
        if n <= 0 {
            0
        } else if n <= self.available() {
            n
        } else {
            self.available()
        }
    }

    /// The bytes a read of `n` bytes takes out of the buffer.
    pub open spec fn take_bytes(self, n: int) -> Seq<u8> {
        if self.holds(self.position) {
            self.buffer.subrange(
                self.position - self.buffer_start,
                self.position - self.buffer_start + self.take_len(n),
            )
        } else {
            Seq::empty()
        }
    }

    /// The state after a read of `n` bytes was answered from the buffer.
    pub open spec fn taken(self, n: int) -> ReaderModel {
        ReaderModel { position: self.position + self.take_len(n), ..self }
    }

    /// The state after a seek to `dest`. The buffer stays where it holds the
    /// byte at `dest`; where it does not, it is dropped and nothing is
    /// fetched in its place.
    pub open spec fn sought(self, dest: int) -> ReaderModel {
        if self.state is Buffered && !self.holds(dest) {
            ReaderModel {
                position: dest,
                buffer: Seq::empty(),
                state: BufferState::Stale,
                ..self
            }
        } else {
            ReaderModel { position: dest, ..self }
        }
    }

    /// Whether the window lies inside `object` and the buffer holds the very
    /// bytes that `object` has at the buffered positions.
    pub open spec fn agrees_with(self, object: Seq<u8>) -> bool {
        &&& self.window_start + self.window_len <= object.len()
        &&& self.buffer == object.subrange(
            self.window_start + self.buffer_start,
            self.window_start + self.buffer_start + self.buffer.len(),
        )
    }

    /// The state after a read of `n` bytes, with every fetch answered by a
    /// backend that serves `object`.
    pub open spec fn after_read(self, n: int, object: Seq<u8>) -> ReaderModel {
        match self.plan(n) {
            ReadPlan::Empty => self,
            ReadPlan::Buffered => self.taken(n),
            ReadPlan::Fetch { start, end } => self.filled(
                served(object, start as int, end as int),
            ).taken(n),
        }
    }

    /// The bytes that a read of `n` bytes returns, with every fetch answered
    /// by a backend that serves `object`.
    pub open spec fn read_bytes(self, n: int, object: Seq<u8>) -> Seq<u8> {
        match self.plan(n) {
            ReadPlan::Empty => Seq::empty(),
            ReadPlan::Buffered => self.take_bytes(n),
            ReadPlan::Fetch { start, end } => self.filled(
                served(object, start as int, end as int),
            ).take_bytes(n),
        }
    }

    /// The state after one read for each entry of `sizes`, in order, with
    /// every fetch answered by a backend that serves `object`.
    pub open spec fn after_reads(self, sizes: Seq<nat>, object: Seq<u8>) -> ReaderModel
        decreases sizes.len(),
    {
        if sizes.len() == 0 {
            self
        } else {
            self.after_reads(sizes.drop_last(), object).after_read(sizes.last() as int, object)
        }
    }

    /// Number of bytes that the reads of `after_reads` return, all together.
    pub open spec fn bytes_read(self, sizes: Seq<nat>, object: Seq<u8>) -> int
        decreases sizes.len(),
    {
        if sizes.len() == 0 {
            0
        } else {
            self.bytes_read(sizes.drop_last(), object) + self.after_reads(
                sizes.drop_last(),
                object,
            ).read_bytes(sizes.last() as int, object).len()
        }
    }

    /// Number of bytes that a read of `n` bytes returns where the window
    /// lies inside the object served: none where nothing is asked for or the
    /// position is at or beyond the window's end; else `n`, cut down to what
    /// the buffer holds from the position on, or, where the buffer has to be
    /// refilled, to one buffer's worth and to what is left of the window.
    pub open spec fn read_len(self, n: int) -> int {
        let room = if self.holds(self.position) {
            self.available()
        } else {
            self.wanted()
        };
        if n <= 0 || self.exhausted() {
            0
        } else if n <= room {
            n
        } else {
            room
        }
    }

    /// The bytes that a cursor over the window of `object` yields for a read
    /// of `n` bytes at the position: the window's bytes from the position
    /// on, `read_len` of them, and none at or beyond the window's end.
    pub open spec fn expected_bytes(self, n: int, object: Seq<u8>) -> Seq<u8> {
        if self.exhausted() {
            Seq::empty()
        } else {
            self.window_bytes(object).subrange(self.position, self.position + self.read_len(n))
        }
    }

    /// The bytes of `object` that lie in the window.
    pub open spec fn window_bytes(self, object: Seq<u8>) -> Seq<u8> {
        object.subrange(self.window_start, self.window_start + self.window_len)
    }
}

/// `a / c`, rounded up.
pub open spec fn ceil_div(a: int, c: int) -> int
    recommends
        c > 0,
{
    (a + c - 1) / c
}

/// The bytes that a backend serving `object` returns for the absolute range
/// `[start, end)`: the bytes of that range, or those of them that exist.
pub open spec fn served(object: Seq<u8>, start: int, end: int) -> Seq<u8> {
    if start >= object.len() {
        Seq::empty()
    } else if end >= object.len() {
        object.subrange(start, object.len() as int)
    } else {
        object.subrange(start, end)
    }
}

} // verus!
