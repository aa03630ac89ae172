//! The reader's state in machine integers, and the steps that move it. No
//! step here touches a backend: a read that needs bytes says so in its plan,
//! and whoever drives the reader fetches them and hands them in.

use vstd::prelude::*;
use crate::model::BufferState;
use crate::model::ReadPlan;
use crate::model::ReaderModel;
use crate::range::RangeSpec;
use crate::range::Window;
use crate::range::window_end;
use crate::range::window_start;
use crate::seek::SeekFault;
use crate::seek::SeekTarget;
use crate::seek::resolve_seek;
use crate::seek::seek_outcome;

verus! {

/// Why a reader could not be set up.
#[derive(Clone, Copy, Debug, PartialEq, Eq, Structural)]
pub enum ConfigFault {
    /// A buffer without room for a single byte was asked for.
    ZeroCapacity,
}

/// Cursor and buffer of one reader over one window.
pub struct ReaderState {
    window: Window,
    capacity: usize,
    position: u64,
    buffer: Vec<u8>,
    buffer_start: u64,
    state: BufferState,
    fetches: u64,
}

impl View for ReaderState {
    type V = ReaderModel;

    closed spec fn view(&self) -> ReaderModel {
        ReaderModel {
            window_start: self.window.start() as int,
            window_len: self.window.end() - self.window.start(),
            capacity: self.capacity as int,
            position: self.position as int,
            buffer: self.buffer@,
            buffer_start: self.buffer_start as int,
            state: self.state,
            fetches: self.fetches as int,
        }
    }
}

impl ReaderState {
    /// The invariant that every operation keeps.
    pub closed spec fn wf(&self) -> bool {
        self.window.wf() && self@.wf()
    }

    /// A well-formed state has a well-formed model.
    pub proof fn lemma_wf_model(&self)
        requires
            self.wf(),
        ensures
            self@.wf(),
    {
    }

    /// Sets up a reader over the window that `range` selects in an object of
    /// `total_size` bytes, with a buffer of at most `capacity` bytes.
    ///
    /// Only a capacity of zero is refused. The reader starts at the window's
    /// first byte with nothing buffered, and nothing is fetched.
    pub fn open(range: RangeSpec, total_size: u64, capacity: usize) -> (r: Result<
        ReaderState,
        ConfigFault,
    >)
        ensures
            capacity == 0 <==> r == Err::<ReaderState, ConfigFault>(ConfigFault::ZeroCapacity),
            capacity > 0 <==> r is Ok,
            r matches Ok(s) ==> s.wf() && s@ == ReaderModel::fresh(
                window_start(range.offset(), total_size as int),
                window_end(range.offset(), range.size(), total_size as int) - window_start(
                    range.offset(),
                    total_size as int,
                ),
                capacity as int,
            ),
    {
        if capacity == 0 {
            return Err(ConfigFault::ZeroCapacity);
        }
        let state = ReaderState {
            window: range.resolve(total_size),
            capacity,
            position: 0,
            buffer: Vec::new(),
            buffer_start: 0,
            state: BufferState::Fresh,
            fetches: 0,
        };
        Ok(state)
    }

    /// The window the reader is scoped to.
    pub fn window(&self) -> (w: Window)
        ensures
            w.start() == self@.window_start,
            w.end() - w.start() == self@.window_len,
            self.wf() ==> w.wf(),
    {
        self.window
    }

    /// Number of bytes in the window.
    pub fn window_len(&self) -> (n: u64)
        requires
            self.wf(),
        ensures
            n == self@.window_len,
    {
        self.window.len()
    }

    /// Largest number of bytes the buffer holds.
    pub fn capacity(&self) -> (c: usize)
        ensures
            c == self@.capacity,
    {
        self.capacity
    }

    /// The cursor, counted from the window's first byte.
    pub fn position(&self) -> (p: u64)
        ensures
            p == self@.position,
    {
        self.position
    }

    /// What the reader knows of its buffer.
    pub fn buffer_state(&self) -> (s: BufferState)
        ensures
            s == self@.state,
    {
        self.state
    }

    /// Number of bytes in the buffer.
    pub fn buffered_len(&self) -> (n: usize)
        ensures
            n == self@.buffer.len(),
    {
        self.buffer.len()
    }

    /// Position, within the window, of the buffer's first byte.
    pub fn buffer_start(&self) -> (p: u64)
        ensures
            p == self@.buffer_start,
    {
        self.buffer_start
    }

    /// Number of fetch replies installed so far.
    pub fn fetch_count(&self) -> (n: u64)
        ensures
            n == self@.fetches,
    {
        self.fetches
    }

    /// Whether the cursor is at or beyond the window's end.
    pub fn is_exhausted(&self) -> (r: bool)
        requires
            self.wf(),
        ensures
            r == self@.exhausted(),
    {
        self.position >= self.window.len()
    }

    /// Whether the buffer holds the byte at position `at`.
    pub fn holds(&self, at: u64) -> (r: bool)
        requires
            self.wf(),
        ensures
            r == self@.holds(at as int),
    {
        match self.state {
            BufferState::Buffered => self.buffer_start <= at && at - self.buffer_start
                < self.buffer.len() as u64,
            _ => false,
        }
    }

    /// Number of bytes a refill at the cursor asks for.
    pub fn wanted(&self) -> (n: usize)
        requires
            self.wf(),
        ensures
            n == self@.wanted(),
    {
        let len: u64 = self.window.len();
        if self.position >= len {
            0
        } else {
            let left: u64 = len - self.position;
            if self.capacity as u64 <= left {
                self.capacity
            } else {
                left as usize
            }
        }
    }

    /// Moves the cursor. Nothing is fetched: where the destination lies
    /// outside the buffered span the buffer is dropped, and the next read
    /// refills it. A refused seek changes nothing.
    pub fn seek(&mut self, target: SeekTarget) -> (r: Result<u64, SeekFault>)
        requires
            old(self).wf(),
        ensures
            final(self).wf(),
            r == seek_outcome(target, old(self)@.position, old(self)@.window_len),
            r matches Ok(dest) ==> final(self)@ == old(self)@.sought(dest as int),
            r is Err ==> final(self)@ == old(self)@,
    {
        let dest: u64 = match resolve_seek(target, self.position, self.window.len()) {
            Ok(dest) => dest,
            Err(fault) => {
                return Err(fault);
            },
        };
        let keep: bool = match self.state {
            BufferState::Buffered => self.holds(dest),
            _ => true,
        };
        if !keep {
            self.buffer.clear();
            self.state = BufferState::Stale;
        }
        self.position = dest;
        Ok(dest)
    }

    /// What a read of `n` bytes has to do before it can answer.
    pub fn plan_read(&self, n: usize) -> (plan: ReadPlan)
        requires
            self.wf(),
        ensures
            plan == self@.plan(n as int),
    {
        if n == 0 || self.is_exhausted() {
            ReadPlan::Empty
        } else if self.holds(self.position) {
            ReadPlan::Buffered
        } else {
            let start: u64 = self.window.start() + self.position;
            let want: usize = self.wanted();
            ReadPlan::Fetch { start, end: start + want as u64 }
        }
    }

    /// Installs the reply to a fetch at the cursor as the new buffer and
    /// counts the fetch. Of a reply longer than what was asked for, only the
    /// bytes asked for are kept.
    pub fn fill(&mut self, reply: Vec<u8>)
        requires
            old(self).wf(),
        ensures
            final(self).wf(),
            final(self)@ == old(self)@.filled(reply@),
    {
        let want: usize = self.wanted();
        let mut kept: Vec<u8> = reply;
        if kept.len() > want {
            kept.truncate(want);
        }
        if kept.len() > 0 {
            self.buffer_start = self.position;
            self.state = BufferState::Buffered;
        } else {
            self.buffer_start = 0;
            self.state = BufferState::Stale;
        }
        self.buffer = kept;
        if self.fetches < u64::MAX {
            self.fetches = self.fetches + 1;
        }
    }

    /// Answers a read of `n` bytes from the buffer: the buffered bytes from
    /// the cursor on, `n` of them at most, and the cursor moved behind them.
    /// Where the buffer does not hold the byte at the cursor, nothing is
    /// returned and nothing changes.
    pub fn take(&mut self, n: usize) -> (out: Vec<u8>)
        requires
            old(self).wf(),
        ensures
            final(self).wf(),
            out@ == old(self)@.take_bytes(n as int),
            final(self)@ == old(self)@.taken(n as int),
    {
        let mut out: Vec<u8> = Vec::new();
        if !self.holds(self.position) {
            return out;
        }
        let from: usize = (self.position - self.buffer_start) as usize;
        let available: usize = self.buffer.len() - from;
        let count: usize = if n <= available { n } else { available };
        let mut i: usize = 0;
        while i < count
            invariant
                i <= count,
                from + count <= self.buffer.len(),
                out@ == self.buffer@.subrange(from as int, from + i),
            decreases count - i,
        {
            out.push(self.buffer[from + i]);
            i = i + 1;
        }
        self.position = self.position + count as u64;
        out
    }
}

} // verus!
