//! The buffered, seekable reader over a window of a backend's object.

use vstd::prelude::*;
use crate::backend::BackendFetcher;
use crate::backend::FetchError;
use crate::laws::lemma_read_matches_window;
use crate::laws::lemma_sought_keeps_agreement;
use crate::model::ReadPlan;
use crate::model::ReaderModel;
use crate::range::RangeSpec;
use crate::range::window_end;
use crate::range::window_start;
use crate::seek::SeekFault;
use crate::seek::SeekTarget;
use crate::seek::seek_outcome;
use crate::state::ConfigFault;
use crate::state::ReaderState;

verus! {

/// Why a reader could not be opened.
#[derive(Debug)]
pub enum OpenError {
    /// The configuration was refused before the backend was asked anything.
    Config(ConfigFault),
    /// The backend could not tell the object's size.
    Backend(FetchError),
}

/// A reader over the window that a range selects in a backend's object.
///
/// The backend is borrowed, the buffer is the reader's own. Every byte the
/// reader returns was fetched from the backend for the position it is
/// returned at.
pub struct BufferedRangedReader<'a, F: BackendFetcher> {
    backend: &'a F,
    state: ReaderState,
}

impl<'a, F: BackendFetcher> View for BufferedRangedReader<'a, F> {
    type V = ReaderModel;

    closed spec fn view(&self) -> ReaderModel {
        self.state@
    }
}

impl<'a, F: BackendFetcher> BufferedRangedReader<'a, F> {
    /// The bytes of the object that the reader reads from.
    pub closed spec fn object(&self) -> Seq<u8> {
        self.backend.content()
    }

    /// The invariant that every operation keeps: the state is well formed,
    /// the window lies inside the object, and the buffer holds the object's
    /// bytes at the buffered positions.
    pub closed spec fn wf(&self) -> bool {
        self.state.wf() && self.state@.agrees_with(self.backend.content())
    }

    /// What the invariant says of the model.
    pub proof fn lemma_wf_model(&self)
        requires
            self.wf(),
        ensures
            self@.wf(),
            self@.agrees_with(self.object()),
    {
        self.state.lemma_wf_model();
    }

    /// Opens a reader over the window that `range` selects in the backend's
    /// object, with a buffer of at most `capacity` bytes.
    ///
    /// A capacity of zero is refused before the backend is asked anything.
    /// The backend is then asked for the object's size, once, and the range
    /// is resolved against it; no byte is fetched.
    pub fn open_reader(backend: &'a F, range: RangeSpec, capacity: usize) -> (r: Result<
        Self,
        OpenError,
    >)
        ensures
            capacity == 0 ==> r matches Err(OpenError::Config(ConfigFault::ZeroCapacity)),
            capacity > 0 ==> !(r matches Err(OpenError::Config(_))),
            r matches Ok(reader) ==> reader.wf() && reader.object() == backend.content()
                && reader@ == ReaderModel::fresh(
                window_start(range.offset(), backend.content().len() as int),
                window_end(range.offset(), range.size(), backend.content().len() as int)
                    - window_start(range.offset(), backend.content().len() as int),
                capacity as int,
            ),
    {
        if capacity == 0 {
            return Err(OpenError::Config(ConfigFault::ZeroCapacity));
        }
        let total_size: u64 = match backend.size() {
            Ok(n) => n,
            Err(e) => {
                return Err(OpenError::Backend(e));
            },
        };
        match ReaderState::open(range, total_size, capacity) {
            Ok(state) => {
                let reader = BufferedRangedReader { backend, state };
                assert(state@.buffer =~= backend.content().subrange(
                    state@.window_start + state@.buffer_start,
                    state@.window_start + state@.buffer_start + state@.buffer.len(),
                ));
                Ok(reader)
            },
            Err(fault) => Err(OpenError::Config(fault)),
        }
    }

    /// The cursor and buffer, for inspection.
    pub fn state(&self) -> (s: &ReaderState)
        ensures
            s@ == self@,
            self.wf() ==> s.wf(),
    {
        &self.state
    }

    /// The cursor, counted from the window's first byte.
    pub fn position(&self) -> (p: u64)
        ensures
            p == self@.position,
    {
        self.state.position()
    }

    /// Moves the cursor. Nothing is fetched: where the destination lies
    /// outside the buffered span the buffer is dropped, and the next read
    /// refills it. A refused seek changes nothing.
    pub fn seek(&mut self, target: SeekTarget) -> (r: Result<u64, SeekFault>)
        requires
            old(self).wf(),
        ensures
            final(self).wf(),
            final(self).object() == old(self).object(),
            r == seek_outcome(target, old(self)@.position, old(self)@.window_len),
            r matches Ok(dest) ==> final(self)@ == old(self)@.sought(dest as int),
            r is Err ==> final(self)@ == old(self)@,
    {
        proof {
            self.state.lemma_wf_model();
        }
        let r = self.state.seek(target);
        proof {
            if let Ok(dest) = r {
                lemma_sought_keeps_agreement(old(self)@, dest as int, self.object());
            }
        }
        r
    }

    /// Reads up to `n` bytes at the cursor and moves the cursor behind them.
    ///
    /// A read of no bytes, and a read at or beyond the window's end, return
    /// nothing without asking the backend. A read that finds the byte at the
    /// cursor in the buffer is answered from the buffer. Any other read
    /// fetches, once, one buffer's worth from the cursor on (less where the
    /// window ends first) and is answered from that. No read returns more
    /// than the buffer holds from the cursor on.
    ///
    /// Only a failed fetch fails a read, and it changes nothing.
    pub fn read(&mut self, n: usize) -> (r: Result<Vec<u8>, FetchError>)
        requires
            old(self).wf(),
        ensures
            final(self).wf(),
            final(self).object() == old(self).object(),
            r matches Ok(bytes) ==> {
                &&& final(self)@ == old(self)@.after_read(n as int, old(self).object())
                &&& bytes@ == old(self)@.read_bytes(n as int, old(self).object())
                &&& bytes@ == old(self)@.expected_bytes(n as int, old(self).object())
                &&& bytes@.len() == old(self)@.read_len(n as int)
                &&& final(self)@.position == old(self)@.position + bytes@.len()
            },
            r is Err ==> old(self)@.plan(n as int) is Fetch && final(self)@ == old(self)@,
    {
        proof {
            self.state.lemma_wf_model();
            lemma_read_matches_window(self@, n as int, self.object());
        }
        match self.state.plan_read(n) {
            ReadPlan::Empty => Ok(Vec::new()),
            ReadPlan::Buffered => Ok(self.state.take(n)),
            ReadPlan::Fetch { start, end } => {
                match self.backend.fetch(start, end) {
                    Ok(reply) => {
                        self.state.fill(reply);
                        Ok(self.state.take(n))
                    },
                    Err(e) => Err(e),
                }
            },
        }
    }

    /// Reads what the buffer holds from the cursor on, refilling it first
    /// where it does not hold the byte at the cursor: a read of one buffer's
    /// worth.
    pub fn next_chunk(&mut self) -> (r: Result<Vec<u8>, FetchError>)
        requires
            old(self).wf(),
        ensures
            final(self).wf(),
            final(self).object() == old(self).object(),
            r matches Ok(bytes) ==> {
                &&& final(self)@ == old(self)@.after_read(
                    old(self)@.capacity,
                    old(self).object(),
                )
                &&& bytes@ == old(self)@.read_bytes(old(self)@.capacity, old(self).object())
                &&& bytes@ == old(self)@.expected_bytes(old(self)@.capacity, old(self).object())
                &&& final(self)@.position == old(self)@.position + bytes@.len()
            },
            r is Err ==> old(self)@.plan(old(self)@.capacity) is Fetch && final(self)@ == old(
                self,
            )@,
    {
        let n: usize = self.state.capacity();
        self.read(n)
    }
}

} // verus!
