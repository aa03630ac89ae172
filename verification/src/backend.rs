//! The one primitive a reader needs of a storage backend, and a backend that
//! keeps its object in memory.

use vstd::prelude::*;
use crate::model::served;

verus! {

/// A failure of the backend. The reader does not interpret it.
#[derive(Debug)]
pub struct FetchError {
    pub reason: String,
}

/// A backend bound to one object, which it serves one byte range at a time.
pub trait BackendFetcher {
    /// The bytes of the object. A backend that is not verified leaves this
    /// as it is: that it serves some one object, and serves it faithfully, is
    /// then taken on trust.
    open spec fn content(&self) -> Seq<u8> {
        arbitrary()
    }

    /// The object's length in bytes.
    fn size(&self) -> (r: Result<u64, FetchError>)
        ensures
            r matches Ok(n) ==> n == self.content().len(),
    ;

    /// The bytes of the absolute range `[start, end)`: all of them, or, where
    /// the object ends before `end`, those that exist.
    fn fetch(&self, start: u64, end: u64) -> (r: Result<Vec<u8>, FetchError>)
        requires
            start <= end,
        ensures
            r matches Ok(bytes) ==> bytes@ == served(self.content(), start as int, end as int),
    ;
}

/// A backend whose object lies in memory. It never fails.
pub struct MemoryBackend {
    data: Vec<u8>,
}

impl MemoryBackend {
    /// The bytes held.
    pub closed spec fn bytes(&self) -> Seq<u8> {
        self.data@
    }

    /// A backend that serves `data`.
    pub fn new(data: Vec<u8>) -> (b: MemoryBackend)
        ensures
            b.bytes() == data@,
    {
        MemoryBackend { data }
    }

    /// Number of bytes held.
    pub fn len(&self) -> (n: usize)
        ensures
            n == self.bytes().len(),
    {
        self.data.len()
    }
}

impl BackendFetcher for MemoryBackend {
    open spec fn content(&self) -> Seq<u8> {
        self.bytes()
    }

    fn size(&self) -> (r: Result<u64, FetchError>)
        ensures
            r is Ok,
    {
        Ok(self.data.len() as u64)
    }

    fn fetch(&self, start: u64, end: u64) -> (r: Result<Vec<u8>, FetchError>)
        ensures
            r is Ok,
    {
        let len: usize = self.data.len();
        let from: usize = if start <= len as u64 { start as usize } else { len };
        let to: usize = if end <= len as u64 { end as usize } else { len };
        let mut out: Vec<u8> = Vec::new();
        let mut i: usize = from;
        while i < to
            invariant
                from <= i <= to <= len,
                len == self.data@.len(),
                out@ == self.data@.subrange(from as int, i as int),
            decreases to - i,
        {
            out.push(self.data[i]);
            i = i + 1;
        }
        Ok(out)
    }
}

} // verus!
