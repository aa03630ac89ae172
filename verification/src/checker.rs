//! A reference cursor that judges what a reader returns: it knows the bytes
//! of the window, follows the position, and accepts a reply only if it is
//! what a seekable stream over those bytes may return.

use vstd::prelude::*;
use crate::action::ReadAction;
use crate::backend::BackendFetcher;
use crate::backend::FetchError;
use crate::range::RangeSpec;
use crate::range::Window;
use crate::range::window_end;
use crate::range::window_start;
use crate::reader::BufferedRangedReader;
use crate::replay::Replay;
use crate::replay::asked;
use crate::replay::lemma_replay_accepts_reader;
use crate::replay::lemma_replay_stays_refused;
use crate::replay::replay;
use crate::replay::replay_step;
use crate::seek::SeekFault;
use crate::seek::SeekTarget;
use crate::seek::seek_outcome;

verus! {

/// The byte at position `i` of the reference content.
pub open spec fn reference_byte(i: int) -> u8 {
    (i % 251) as u8
}

/// The reference content of an object of `size` bytes.
pub open spec fn reference_content(size: int) -> Seq<u8> {
    Seq::new(size as nat, |i: int| reference_byte(i))
}

/// Whether `output` is an acceptable reply to a read of `n` bytes at
/// position `cur` of a stream over `expected`: nothing where nothing was
/// asked for; nothing else only at or beyond the end; otherwise at most `n`
/// bytes, and the very bytes that `expected` holds from `cur` on.
pub open spec fn read_accepted(expected: Seq<u8>, cur: int, n: int, output: Seq<u8>) -> bool {
    if n == 0 {
        output.len() == 0
    } else if output.len() == 0 {
        cur >= expected.len()
    } else {
        &&& output.len() <= n
        &&& cur + output.len() <= expected.len()
        &&& output == expected.subrange(cur, cur + output.len())
    }
}

/// Whether `output` is an acceptable next chunk at position `cur` of a
/// stream over `expected`: before the end at least one byte, and the very
/// bytes that `expected` holds from `cur` on; at or beyond the end nothing.
pub open spec fn next_accepted(expected: Seq<u8>, cur: int, output: Seq<u8>) -> bool {
    if cur < expected.len() {
        &&& output.len() > 0
        &&& cur + output.len() <= expected.len()
        &&& output == expected.subrange(cur, cur + output.len())
    } else {
        output.len() == 0
    }
}

/// Why a replay was broken off.
#[derive(Debug)]
pub enum CheckFailure {
    /// The reply to the action at index `step` was not acceptable.
    Mismatch { step: usize },
    /// The backend failed during the action at index `step`.
    Backend { step: usize, error: FetchError },
}

/// The reference cursor.
pub struct ReadChecker {
    raw_data: Vec<u8>,
    ranged_data: Vec<u8>,
    cur: u64,
}

impl ReadChecker {
    /// The bytes of the whole object.
    pub closed spec fn raw(&self) -> Seq<u8> {
        self.raw_data@
    }

    /// The bytes of the window.
    pub closed spec fn expected(&self) -> Seq<u8> {
        self.ranged_data@
    }

    /// The position that the cursor has followed the reader to.
    pub closed spec fn cursor(&self) -> int {
        self.cur as int
    }

    /// Whether the checker stands where `reader` stands, over the same
    /// window bytes.
    pub open spec fn follows<F: BackendFetcher>(&self, reader: &BufferedRangedReader<'_, F>) -> bool {
        &&& self.expected() == reader@.window_bytes(reader.object())
        &&& self.cursor() == reader@.position
    }

    /// A checker for the window that `range` selects in `data`, at the
    /// window's first byte.
    pub fn with_data(data: Vec<u8>, range: RangeSpec) -> (c: ReadChecker)
        ensures
            c.raw() == data@,
            c.expected() == data@.subrange(
                window_start(range.offset(), data@.len() as int),
                window_end(range.offset(), range.size(), data@.len() as int),
            ),
            c.cursor() == 0,
    {
        let window: Window = range.resolve(data.len() as u64);
        let start: usize = window.start() as usize;
        let end: usize = window.end() as usize;
        let mut ranged: Vec<u8> = Vec::new();
        let mut i: usize = start;
        while i < end
            invariant
                start <= i <= end <= data@.len(),
                ranged@ == data@.subrange(start as int, i as int),
            decreases end - i,
        {
            ranged.push(data[i]);
            i = i + 1;
        }
        ReadChecker { raw_data: data, ranged_data: ranged, cur: 0 }
    }

    /// A checker for the window that `range` selects in the reference
    /// content of `size` bytes.
    pub fn new(size: usize, range: RangeSpec) -> (c: ReadChecker)
        ensures
            c.raw() == reference_content(size as int),
            c.expected() == reference_content(size as int).subrange(
                window_start(range.offset(), size as int),
                window_end(range.offset(), range.size(), size as int),
            ),
            c.cursor() == 0,
    {
        let mut data: Vec<u8> = Vec::new();
        let mut i: usize = 0;
        while i < size
            invariant
                i <= size,
                data@ == reference_content(i as int),
            decreases size - i,
        {
            data.push((i % 251) as u8);
            i = i + 1;
        }
        ReadChecker::with_data(data, range)
    }

    /// The bytes of the whole object, to be staged in the backend.
    pub fn data(&self) -> (d: &Vec<u8>)
        ensures
            d@ == self.raw(),
    {
        &self.raw_data
    }

    /// The bytes of the window.
    pub fn ranged_data(&self) -> (d: &Vec<u8>)
        ensures
            d@ == self.expected(),
    {
        &self.ranged_data
    }

    /// The position that the cursor has followed the reader to.
    pub fn position(&self) -> (p: u64)
        ensures
            p == self.cursor(),
    {
        self.cur
    }

    /// Whether `output` holds the window's bytes from the cursor on.
    fn matches_here(&self, output: &Vec<u8>) -> (r: bool)
        ensures
            r == (self.cursor() + output@.len() <= self.expected().len() && output@
                == self.expected().subrange(self.cursor(), self.cursor() + output@.len())),
    {
        let total: usize = self.ranged_data.len();
        if self.cur > total as u64 || output.len() > total - self.cur as usize {
            return false;
        }
        let from: usize = self.cur as usize;
        let mut i: usize = 0;
        while i < output.len()
            invariant
                i <= output@.len(),
                from == self.cur,
                from + output@.len() <= self.ranged_data@.len() == total,
                output@.take(i as int) == self.ranged_data@.subrange(from as int, from + i),
            decreases output.len() - i,
        {
            if output[i] != self.ranged_data[from + i] {
                return false;
            }
            i = i + 1;
        }
        assert(output@.take(i as int) =~= output@);
        true
    }

    /// Judges the reply to a read of `n` bytes. An accepted reply moves the
    /// cursor behind its bytes; a refused one moves nothing.
    pub fn check_read(&mut self, n: usize, output: &Vec<u8>) -> (ok: bool)
        ensures
            ok == read_accepted(old(self).expected(), old(self).cursor(), n as int, output@),
            final(self).raw() == old(self).raw(),
            final(self).expected() == old(self).expected(),
            final(self).cursor() == if ok {
                old(self).cursor() + output@.len()
            } else {
                old(self).cursor()
            },
    {
        if n == 0 {
            return output.len() == 0;
        }
        if output.len() == 0 {
            return self.cur >= self.ranged_data.len() as u64;
        }
        if output.len() > n || !self.matches_here(output) {
            return false;
        }
        let total: usize = self.ranged_data.len();
        self.cur = self.cur + output.len() as u64;
        true
    }

    /// Judges the outcome of a seek: it has to be the destination, or the
    /// fault, that the seek rules give for the cursor's position. An accepted
    /// destination becomes the cursor's position; anything else moves
    /// nothing.
    pub fn check_seek(&mut self, target: SeekTarget, outcome: Result<u64, SeekFault>) -> (ok: bool)
        ensures
            ok == (outcome == seek_outcome(
                target,
                old(self).cursor(),
                old(self).expected().len() as int,
            )),
            final(self).raw() == old(self).raw(),
            final(self).expected() == old(self).expected(),
            final(self).cursor() == match outcome {
                Ok(dest) if ok => dest as int,
                _ => old(self).cursor(),
            },
    {
        let due = crate::seek::resolve_seek(target, self.cur, self.ranged_data.len() as u64);
        match (due, outcome) {
            (Ok(a), Ok(b)) => {
                if a == b {
                    self.cur = a;
                    true
                } else {
                    false
                }
            },
            (Err(a), Err(b)) => a == b,
            _ => false,
        }
    }

    /// Judges a next chunk. An accepted chunk moves the cursor behind its
    /// bytes; a refused one moves nothing.
    pub fn check_next(&mut self, output: &Vec<u8>) -> (ok: bool)
        ensures
            ok == next_accepted(old(self).expected(), old(self).cursor(), output@),
            final(self).raw() == old(self).raw(),
            final(self).expected() == old(self).expected(),
            final(self).cursor() == if ok {
                old(self).cursor() + output@.len()
            } else {
                old(self).cursor()
            },
    {
        if self.cur >= self.ranged_data.len() as u64 {
            return output.len() == 0;
        }
        if output.len() == 0 || !self.matches_here(output) {
            return false;
        }
        let total: usize = self.ranged_data.len();
        self.cur = self.cur + output.len() as u64;
        true
    }

    /// Where a replay that starts with this checker and `reader` stands.
    pub open spec fn start<F: BackendFetcher>(&self, reader: &BufferedRangedReader<'_, F>) -> Replay {
        Replay { reader: reader@, cursor: self.cursor(), accepted: true }
    }

    /// Replays `actions` against `reader` and judges every reply. The replay
    /// ends at the first reply that is refused and at the first failure of
    /// the backend; the error names the index of the action.
    ///
    /// Reader and checker are left where the replay stands at its end: after
    /// all actions, after the action whose reply was refused with the cursor
    /// still before it, or before the action that the backend failed.
    ///
    /// A checker that stands where the reader stands never refuses a reply:
    /// whatever the actions, the reader returns what a seekable stream over
    /// the window's bytes returns.
    pub fn check<'a, F: BackendFetcher>(
        &mut self,
        reader: &mut BufferedRangedReader<'a, F>,
        actions: &Vec<ReadAction>,
    ) -> (r: Result<(), CheckFailure>)
        requires
            old(reader).wf(),
        ensures
            final(reader).wf(),
            final(reader).object() == old(reader).object(),
            final(self).raw() == old(self).raw(),
            final(self).expected() == old(self).expected(),
            match r {
                Ok(_) => {
                    let end = replay(
                        old(self).start(old(reader)),
                        old(self).expected(),
                        actions@,
                        old(reader).object(),
                    );
                    &&& end.accepted
                    &&& final(reader)@ == end.reader
                    &&& final(self).cursor() == end.cursor
                },
                Err(CheckFailure::Mismatch { step }) => {
                    let end = replay(
                        old(self).start(old(reader)),
                        old(self).expected(),
                        actions@,
                        old(reader).object(),
                    );
                    &&& step < actions@.len()
                    &&& replay(
                        old(self).start(old(reader)),
                        old(self).expected(),
                        actions@.take(step as int),
                        old(reader).object(),
                    ).accepted
                    &&& !end.accepted
                    &&& end == replay(
                        old(self).start(old(reader)),
                        old(self).expected(),
                        actions@.take(step + 1),
                        old(reader).object(),
                    )
                    &&& final(reader)@ == end.reader
                    &&& final(self).cursor() == end.cursor
                },
                Err(CheckFailure::Backend { step, error }) => {
                    let at = replay(
                        old(self).start(old(reader)),
                        old(self).expected(),
                        actions@.take(step as int),
                        old(reader).object(),
                    );
                    &&& step < actions@.len()
                    &&& at.accepted
                    &&& final(reader)@ == at.reader
                    &&& final(self).cursor() == at.cursor
                    &&& !(actions@[step as int] is Seek)
                    &&& at.reader.plan(asked(at.reader, actions@[step as int])) is Fetch
                },
            },
            old(self).follows(old(reader)) ==> !(r matches Err(CheckFailure::Mismatch { .. })),
            old(self).follows(old(reader)) && r is Ok ==> final(self).follows(final(reader)),
    {
        let ghost start = self.start(reader);
        let ghost expected = self.expected();
        let ghost object = reader.object();
        proof {
            reader.lemma_wf_model();
            if self.follows(reader) {
                lemma_replay_accepts_reader(reader@, actions@, object);
            }
        }
        let mut i: usize = 0;
        while i < actions.len()
            invariant
                i <= actions.len(),
                reader.wf(),
                object == old(reader).object(),
                expected == old(self).expected(),
                start == old(self).start(old(reader)),
                old(self).follows(old(reader)) ==> replay(start, expected, actions@, object).accepted,
                reader.object() == object,
                self.raw() == old(self).raw(),
                self.expected() == expected,
                replay(start, expected, actions@.take(i as int), object) == (Replay {
                    reader: reader@,
                    cursor: self.cursor(),
                    accepted: true,
                }),
            decreases actions.len() - i,
        {
            let ghost at = replay(start, expected, actions@.take(i as int), object);
            proof {
                reader.lemma_wf_model();
                assert(actions@.take(i + 1).drop_last() =~= actions@.take(i as int));
            }
            let accepted: bool = match actions[i] {
                ReadAction::Read(n) => {
                    match reader.read(n) {
                        Ok(bytes) => self.check_read(n, &bytes),
                        Err(error) => {
                            return Err(CheckFailure::Backend { step: i, error });
                        },
                    }
                },
                ReadAction::Next => {
                    match reader.next_chunk() {
                        Ok(bytes) => self.check_next(&bytes),
                        Err(error) => {
                            return Err(CheckFailure::Backend { step: i, error });
                        },
                    }
                },
                ReadAction::Seek(target) => {
                    let outcome = reader.seek(target);
                    self.check_seek(target, outcome)
                },
            };
            proof {
                assert(replay(start, expected, actions@.take(i + 1), object) == replay_step(
                    at,
                    expected,
                    actions@[i as int],
                    object,
                ));
            }
            if !accepted {
                proof {
                    lemma_replay_stays_refused(start, expected, actions@, object, i + 1);
                }
                return Err(CheckFailure::Mismatch { step: i });
            }
            i = i + 1;
        }
        proof {
            assert(actions@.take(i as int) =~= actions@);
            if old(self).follows(old(reader)) {
                lemma_replay_accepts_reader(old(reader)@, actions@, object);
            }
        }
        Ok(())
    }
}

} // verus!
