//! Byte ranges over an object and the windows they resolve to.

use vstd::prelude::*;

verus! {

/// An optional half-open byte range `[offset, offset + size)` over an object
/// whose length is not yet known.
///
/// A missing offset stands for the object's first byte, a missing size for
/// "up to the object's end".
#[derive(Clone, Copy, Debug)]
pub struct RangeSpec {
    offset: Option<u64>,
    size: Option<u64>,
}

/// The absolute byte span `[start, end)` of an object that a reader is scoped to.
#[derive(Clone, Copy, Debug)]
pub struct Window {
    start: u64,
    end: u64,
}

/// The smaller of two integers.
pub open spec fn min_int(a: int, b: int) -> int {
    if a <= b {
        a
    } else {
        b
    }
}

/// First byte of the window that a range with the given offset selects in an
/// object of `total` bytes: the offset, or the object's end where the offset
/// lies beyond it.
pub open spec fn window_start(offset: Option<u64>, total: int) -> int {
    match offset {
        Some(o) => min_int(o as int, total),
        None => 0,
    }
}

/// End of the window that a range selects in an object of `total` bytes:
/// `size` bytes after the window's start, or the object's end where that
/// lies beyond it or no size is given.
pub open spec fn window_end(offset: Option<u64>, size: Option<u64>, total: int) -> int {
    match size {
        Some(s) => min_int(window_start(offset, total) + s, total),
        None => total,
    }
}

impl RangeSpec {
    /// The requested offset, if any.
    pub closed spec fn spec_offset(&self) -> Option<u64> {
        self.offset
    }

    /// The requested size, if any.
    pub closed spec fn spec_size(&self) -> Option<u64> {
        self.size
    }

    /// A range with the given offset and size.
    pub fn new(offset: Option<u64>, size: Option<u64>) -> (r: RangeSpec)
        ensures
            r.spec_offset() == offset,
            r.spec_size() == size,
    {
        RangeSpec { offset, size }
    }

    /// The range that selects a whole object.
    pub fn full() -> (r: RangeSpec)
        ensures
            r.spec_offset() == None::<u64>,
            r.spec_size() == None::<u64>,
    {
        RangeSpec { offset: None, size: None }
    }

    /// The requested offset, if any.
    #[verifier::when_used_as_spec(spec_offset)]
    pub fn offset(&self) -> (r: Option<u64>)
        ensures
            r == self.spec_offset(),
    {
        self.offset
    }

    /// The requested size, if any.
    #[verifier::when_used_as_spec(spec_size)]
    pub fn size(&self) -> (r: Option<u64>)
        ensures
            r == self.spec_size(),
    {
        self.size
    }

    /// The window that this range selects in an object of `total_size` bytes.
    ///
    /// Nothing is rejected: a range that reaches beyond the object is cut
    /// at the object's end, and one that begins beyond it selects the empty
    /// window at the object's end.
    pub fn resolve(&self, total_size: u64) -> (w: Window)
        ensures
            w.wf(),
            w.start() == window_start(self.offset(), total_size as int),
            w.end() == window_end(self.offset(), self.size(), total_size as int),
            w.end() <= total_size,
    {
        let start: u64 = match self.offset {
            Some(o) => if o <= total_size { o } else { total_size },
            None => 0,
        };
        let end: u64 = match self.size {
            Some(s) => if s <= total_size - start { start + s } else { total_size },
            None => total_size,
        };
        Window { start, end }
    }
}

impl Window {
    /// Absolute position of the window's first byte.
    pub closed spec fn spec_start(&self) -> u64 {
        self.start
    }

    /// Absolute position one past the window's last byte.
    pub closed spec fn spec_end(&self) -> u64 {
        self.end
    }

    /// A window never ends before it starts.
    pub open spec fn wf(self) -> bool {
        self.start() <= self.end()
    }

    /// Number of bytes in the window.
    pub open spec fn spec_len(self) -> int {
        self.end() - self.start()
    }

    /// Absolute position of the window's first byte.
    #[verifier::when_used_as_spec(spec_start)]
    pub fn start(&self) -> (r: u64)
        ensures
            r == self.spec_start(),
    {
        self.start
    }

    /// Absolute position one past the window's last byte.
    #[verifier::when_used_as_spec(spec_end)]
    pub fn end(&self) -> (r: u64)
        ensures
            r == self.spec_end(),
    {
        self.end
    }

    /// Number of bytes in the window.
    pub fn len(&self) -> (r: u64)
        requires
            self.wf(),
        ensures
            r == self.spec_len(),
    {
        self.end - self.start
    }

    /// Whether the window holds no byte.
    pub fn is_empty(&self) -> (r: bool)
        ensures
            r == (self.start() >= self.end()),
    {
        self.start >= self.end
    }
}

/// Every range resolves, in an object of any size, to a window that lies
/// inside the object: `0 <= start <= end <= total_size`.
pub proof fn lemma_window_within_object(range: RangeSpec, total_size: u64)
    ensures
        0 <= window_start(range.offset(), total_size as int)
            <= window_end(range.offset(), range.size(), total_size as int)
            <= total_size,
{
}

} // verus!
