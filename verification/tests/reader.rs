use std::cell::Cell;

use ranged_reader::backend::BackendFetcher;
use ranged_reader::backend::FetchError;
use ranged_reader::backend::MemoryBackend;
use ranged_reader::model::BufferState;
use ranged_reader::model::ReadPlan;
use ranged_reader::range::RangeSpec;
use ranged_reader::reader::BufferedRangedReader;
use ranged_reader::reader::OpenError;
use ranged_reader::seek::SeekFault;
use ranged_reader::seek::SeekTarget;
use ranged_reader::state::ConfigFault;
use ranged_reader::state::ReaderState;

/// A backend over bytes in memory that counts its fetches and can be made to fail.
struct Probe {
    data: Vec<u8>,
    fetches: Cell<u64>,
    failing: Cell<bool>,
    last: Cell<(u64, u64)>,
}

impl Probe {
    fn new(data: Vec<u8>) -> Probe {
        Probe { data, fetches: Cell::new(0), failing: Cell::new(false), last: Cell::new((0, 0)) }
    }
}

impl BackendFetcher for Probe {
    fn size(&self) -> Result<u64, FetchError> {
        if self.failing.get() {
            return Err(FetchError { reason: String::from("offline") });
        }
        Ok(self.data.len() as u64)
    }

    fn fetch(&self, start: u64, end: u64) -> Result<Vec<u8>, FetchError> {
        self.fetches.set(self.fetches.get() + 1);
        self.last.set((start, end));
        if self.failing.get() {
            return Err(FetchError { reason: String::from("offline") });
        }
        let len = self.data.len() as u64;
        let from = start.min(len) as usize;
        let to = end.min(len) as usize;
        Ok(self.data[from..to].to_vec())
    }
}

fn counting(n: usize) -> Vec<u8> {
    (0..n).map(|i| (i % 256) as u8).collect()
}

#[test]
fn window_of_five_in_an_object_of_ten() {
    let backend = MemoryBackend::new(counting(10));
    let mut r = BufferedRangedReader::open_reader(&backend, RangeSpec::new(Some(2), Some(5)), 4096)
        .unwrap();
    assert_eq!(r.state().window_len(), 5);
    assert_eq!(r.state().window().start(), 2);
    assert_eq!(r.state().window().end(), 7);

    assert_eq!(r.read(3).unwrap(), vec![2, 3, 4]);
    assert_eq!(r.position(), 3);

    assert_eq!(r.seek(SeekTarget::FromCurrent(-2)), Ok(1));
    assert_eq!(r.position(), 1);

    assert_eq!(r.read(3).unwrap(), vec![3, 4, 5]);
    assert_eq!(r.position(), 4);

    assert_eq!(r.read(10).unwrap(), vec![6]);
    assert_eq!(r.position(), 5);
    assert!(r.state().is_exhausted());
    assert_eq!(r.state().fetch_count(), 1);
}

#[test]
fn empty_window_at_the_end_of_the_object() {
    let backend = Probe::new(counting(5));
    let mut r =
        BufferedRangedReader::open_reader(&backend, RangeSpec::new(Some(5), None), 4096).unwrap();
    assert_eq!(r.state().window_len(), 0);
    assert_eq!(r.read(1).unwrap(), Vec::<u8>::new());
    assert_eq!(r.read(4096).unwrap(), Vec::<u8>::new());
    assert_eq!(r.next_chunk().unwrap(), Vec::<u8>::new());
    assert_eq!(r.seek(SeekTarget::FromEnd(0)), Ok(0));
    assert_eq!(r.position(), 0);
    assert_eq!(r.seek(SeekTarget::FromEnd(-1)), Err(SeekFault::BeforeStart));
    assert_eq!(r.position(), 0);
    assert_eq!(backend.fetches.get(), 0);
}

#[test]
fn reads_at_the_end_return_nothing_and_stay() {
    let backend = Probe::new(counting(8));
    let mut r = BufferedRangedReader::open_reader(&backend, RangeSpec::full(), 3).unwrap();
    assert_eq!(r.seek(SeekTarget::FromEnd(0)), Ok(8));
    for n in [1usize, 2, 3, 100, usize::MAX] {
        assert_eq!(r.read(n).unwrap(), Vec::<u8>::new());
        assert_eq!(r.position(), 8);
    }
    assert_eq!(r.next_chunk().unwrap(), Vec::<u8>::new());
    assert_eq!(backend.fetches.get(), 0);
}

#[test]
fn read_of_nothing_touches_nothing() {
    let backend = Probe::new(counting(8));
    let mut r = BufferedRangedReader::open_reader(&backend, RangeSpec::full(), 3).unwrap();
    assert_eq!(r.read(0).unwrap(), Vec::<u8>::new());
    assert_eq!(r.position(), 0);
    assert_eq!(r.state().buffer_state(), BufferState::Fresh);
    assert_eq!(backend.fetches.get(), 0);
}

#[test]
fn relative_seeks_before_the_start_fault_and_move_nothing() {
    let backend = MemoryBackend::new(counting(10));
    let mut r = BufferedRangedReader::open_reader(&backend, RangeSpec::full(), 4).unwrap();
    assert_eq!(r.read(3).unwrap(), vec![0, 1, 2]);
    assert_eq!(r.seek(SeekTarget::FromCurrent(-4)), Err(SeekFault::BeforeStart));
    assert_eq!(r.position(), 3);
    assert_eq!(r.state().buffer_state(), BufferState::Buffered);
    assert_eq!(r.seek(SeekTarget::FromEnd(-11)), Err(SeekFault::BeforeStart));
    assert_eq!(r.position(), 3);
    assert_eq!(r.seek(SeekTarget::FromCurrent(-3)), Ok(0));
    assert_eq!(r.seek(SeekTarget::FromEnd(-10)), Ok(0));
    assert_eq!(r.read(1).unwrap(), vec![0]);
}

#[test]
fn seek_past_the_end_succeeds_and_reads_find_nothing() {
    let backend = Probe::new(counting(10));
    let mut r =
        BufferedRangedReader::open_reader(&backend, RangeSpec::new(Some(2), Some(5)), 4).unwrap();
    assert_eq!(r.seek(SeekTarget::FromStart(5 + 1000)), Ok(1005));
    assert_eq!(r.position(), 1005);
    assert_eq!(r.read(7).unwrap(), Vec::<u8>::new());
    assert_eq!(r.position(), 1005);
    assert_eq!(r.seek(SeekTarget::FromCurrent(1)), Ok(1006));
    assert_eq!(r.seek(SeekTarget::FromEnd(3)), Ok(8));
    assert_eq!(r.next_chunk().unwrap(), Vec::<u8>::new());
    assert_eq!(backend.fetches.get(), 0);
    assert_eq!(r.seek(SeekTarget::FromStart(4)), Ok(4));
    assert_eq!(r.read(7).unwrap(), vec![6]);
}

#[test]
fn forward_reads_fetch_once_per_buffer() {
    let backend = Probe::new(counting(100));
    let mut r = BufferedRangedReader::open_reader(&backend, RangeSpec::full(), 8).unwrap();
    let mut total: u64 = 0;
    let mut seen: Vec<u8> = Vec::new();
    for n in [3usize, 3, 3, 7, 1, 5, 2, 6, 4, 7] {
        let bytes = r.read(n).unwrap();
        assert!(bytes.len() <= n);
        total += bytes.len() as u64;
        seen.extend_from_slice(&bytes);
        assert_eq!(r.position(), total);
        assert_eq!(backend.fetches.get(), (total + 7) / 8);
        assert_eq!(r.state().fetch_count(), (total + 7) / 8);
    }
    assert_eq!(seen, counting(total as usize));
}

#[test]
fn a_read_is_cut_at_the_end_of_the_buffer() {
    let backend = Probe::new(counting(20));
    let mut r = BufferedRangedReader::open_reader(&backend, RangeSpec::full(), 8).unwrap();
    assert_eq!(r.read(5).unwrap(), vec![0, 1, 2, 3, 4]);
    assert_eq!(r.read(5).unwrap(), vec![5, 6, 7]);
    assert_eq!(r.read(100).unwrap(), vec![8, 9, 10, 11, 12, 13, 14, 15]);
    assert_eq!(r.read(100).unwrap(), vec![16, 17, 18, 19]);
    assert_eq!(r.read(100).unwrap(), Vec::<u8>::new());
    assert_eq!(backend.fetches.get(), 3);
}

#[test]
fn fetches_ask_for_the_absolute_range() {
    let backend = Probe::new(counting(50));
    let mut r =
        BufferedRangedReader::open_reader(&backend, RangeSpec::new(Some(10), Some(30)), 8).unwrap();
    assert_eq!(r.read(1).unwrap(), vec![10]);
    assert_eq!(backend.last.get(), (10, 18));
    assert_eq!(r.seek(SeekTarget::FromStart(27)), Ok(27));
    assert_eq!(r.read(8).unwrap(), vec![37, 38, 39]);
    assert_eq!(backend.last.get(), (37, 40));
    assert_eq!(backend.fetches.get(), 2);
}

#[test]
fn seek_inside_the_buffer_keeps_it() {
    let backend = Probe::new(counting(50));
    let mut r = BufferedRangedReader::open_reader(&backend, RangeSpec::full(), 16).unwrap();
    assert_eq!(r.read(4).unwrap(), vec![0, 1, 2, 3]);
    assert_eq!(r.seek(SeekTarget::FromStart(15)), Ok(15));
    assert_eq!(r.state().buffer_state(), BufferState::Buffered);
    assert_eq!(r.state().buffered_len(), 16);
    assert_eq!(r.read(4).unwrap(), vec![15]);
    assert_eq!(r.seek(SeekTarget::FromStart(0)), Ok(0));
    assert_eq!(r.read(2).unwrap(), vec![0, 1]);
    assert_eq!(backend.fetches.get(), 1);
}

#[test]
fn seek_outside_the_buffer_drops_it_without_fetching() {
    let backend = Probe::new(counting(50));
    let mut r = BufferedRangedReader::open_reader(&backend, RangeSpec::full(), 16).unwrap();
    assert_eq!(r.read(4).unwrap(), vec![0, 1, 2, 3]);
    assert_eq!(r.seek(SeekTarget::FromStart(16)), Ok(16));
    assert_eq!(r.state().buffer_state(), BufferState::Stale);
    assert_eq!(r.state().buffered_len(), 0);
    assert_eq!(r.seek(SeekTarget::FromStart(40)), Ok(40));
    assert_eq!(r.seek(SeekTarget::FromStart(2)), Ok(2));
    assert_eq!(backend.fetches.get(), 1);
    assert_eq!(r.read(3).unwrap(), vec![2, 3, 4]);
    assert_eq!(r.state().buffer_state(), BufferState::Buffered);
    assert_eq!(r.state().buffer_start(), 2);
    assert_eq!(backend.fetches.get(), 2);
}

#[test]
fn seek_on_a_fresh_reader_leaves_it_fresh() {
    let backend = MemoryBackend::new(counting(50));
    let mut r = BufferedRangedReader::open_reader(&backend, RangeSpec::full(), 16).unwrap();
    assert_eq!(r.seek(SeekTarget::FromStart(20)), Ok(20));
    assert_eq!(r.state().buffer_state(), BufferState::Fresh);
    assert_eq!(r.read(2).unwrap(), vec![20, 21]);
}

#[test]
fn rereading_after_a_backward_seek_returns_the_same_bytes() {
    let backend = Probe::new(counting(64));
    let mut r = BufferedRangedReader::open_reader(&backend, RangeSpec::full(), 8).unwrap();
    assert_eq!(r.seek(SeekTarget::FromStart(20)), Ok(20));
    let first = r.read(6).unwrap();
    assert_eq!(first, vec![20, 21, 22, 23, 24, 25]);
    assert_eq!(r.read(6).unwrap(), vec![26, 27]);
    assert_eq!(r.read(6).unwrap(), vec![28, 29, 30, 31, 32, 33]);
    assert_eq!(r.seek(SeekTarget::FromCurrent(-14)), Ok(20));
    assert_eq!(r.state().buffer_state(), BufferState::Stale);
    assert_eq!(r.read(6).unwrap(), first);
    assert_eq!(backend.fetches.get(), 3);
}

#[test]
fn next_chunk_walks_the_window_buffer_by_buffer() {
    let backend = Probe::new(counting(30));
    let mut r =
        BufferedRangedReader::open_reader(&backend, RangeSpec::new(Some(5), Some(20)), 8).unwrap();
    assert_eq!(r.next_chunk().unwrap(), counting(30)[5..13].to_vec());
    assert_eq!(r.read(3).unwrap(), vec![13, 14, 15]);
    assert_eq!(r.next_chunk().unwrap(), counting(30)[16..21].to_vec());
    assert_eq!(r.next_chunk().unwrap(), counting(30)[21..25].to_vec());
    assert_eq!(r.next_chunk().unwrap(), Vec::<u8>::new());
    assert_eq!(r.position(), 20);
    assert_eq!(backend.fetches.get(), 3);
}

#[test]
fn zero_capacity_is_refused_before_the_backend_is_asked() {
    let backend = Probe::new(counting(10));
    backend.failing.set(true);
    match BufferedRangedReader::open_reader(&backend, RangeSpec::full(), 0) {
        Err(OpenError::Config(ConfigFault::ZeroCapacity)) => {}
        _ => panic!("a buffer of no bytes was accepted"),
    }
    assert!(matches!(
        ReaderState::open(RangeSpec::full(), 10, 0),
        Err(ConfigFault::ZeroCapacity)
    ));
    assert!(ReaderState::open(RangeSpec::full(), 10, 1).is_ok());
}

#[test]
fn a_backend_that_cannot_tell_the_size_fails_the_opening() {
    let backend = Probe::new(counting(10));
    backend.failing.set(true);
    match BufferedRangedReader::open_reader(&backend, RangeSpec::full(), 8) {
        Err(OpenError::Backend(e)) => assert_eq!(e.reason, "offline"),
        _ => panic!("the backend's failure was lost"),
    }
}

#[test]
fn a_failed_fetch_fails_the_read_and_changes_nothing() {
    let backend = Probe::new(counting(32));
    let mut r = BufferedRangedReader::open_reader(&backend, RangeSpec::full(), 8).unwrap();
    assert_eq!(r.read(8).unwrap(), counting(8));
    backend.failing.set(true);
    let e = r.read(4).unwrap_err();
    assert_eq!(e.reason, "offline");
    assert_eq!(r.position(), 8);
    assert_eq!(r.state().buffer_state(), BufferState::Buffered);
    assert_eq!(r.state().buffered_len(), 8);
    assert_eq!(r.state().fetch_count(), 1);
    assert!(r.next_chunk().is_err());
    // What is buffered is still served.
    assert_eq!(r.seek(SeekTarget::FromStart(6)), Ok(6));
    assert_eq!(r.read(4).unwrap(), vec![6, 7]);
    backend.failing.set(false);
    assert_eq!(r.read(4).unwrap(), vec![8, 9, 10, 11]);
    assert_eq!(r.state().fetch_count(), 2);
}

#[test]
fn state_plans_then_takes() {
    let data = counting(40);
    let mut s = ReaderState::open(RangeSpec::new(Some(4), Some(20)), 40, 8).unwrap();
    assert_eq!(s.capacity(), 8);
    assert_eq!(s.wanted(), 8);
    assert_eq!(s.plan_read(0), ReadPlan::Empty);
    assert_eq!(s.plan_read(3), ReadPlan::Fetch { start: 4, end: 12 });
    // Nothing is buffered yet: nothing to take.
    assert_eq!(s.take(3), Vec::<u8>::new());
    assert_eq!(s.position(), 0);
    s.fill(data[4..12].to_vec());
    assert_eq!(s.fetch_count(), 1);
    assert_eq!(s.plan_read(3), ReadPlan::Buffered);
    assert!(s.holds(7));
    assert!(!s.holds(8));
    assert_eq!(s.take(3), vec![4, 5, 6]);
    assert_eq!(s.take(30), vec![7, 8, 9, 10, 11]);
    assert_eq!(s.position(), 8);
    assert_eq!(s.plan_read(1), ReadPlan::Fetch { start: 12, end: 20 });
    assert_eq!(s.seek(SeekTarget::FromEnd(-3)), Ok(17));
    assert_eq!(s.buffer_state(), BufferState::Stale);
    assert_eq!(s.wanted(), 3);
    assert_eq!(s.plan_read(9), ReadPlan::Fetch { start: 21, end: 24 });
    s.fill(data[21..24].to_vec());
    assert_eq!(s.take(9), vec![21, 22, 23]);
    assert!(s.is_exhausted());
    assert_eq!(s.plan_read(9), ReadPlan::Empty);
    assert_eq!(s.wanted(), 0);
    assert_eq!(s.fetch_count(), 2);
}

#[test]
fn a_reply_longer_than_asked_for_is_cut() {
    let mut s = ReaderState::open(RangeSpec::new(None, Some(6)), 100, 4).unwrap();
    s.fill(vec![1, 2, 3, 4, 5, 6, 7]);
    assert_eq!(s.buffered_len(), 4);
    assert_eq!(s.take(10), vec![1, 2, 3, 4]);
    s.fill(vec![5, 6, 7, 8]);
    assert_eq!(s.buffered_len(), 2);
    assert_eq!(s.take(10), vec![5, 6]);
    assert!(s.is_exhausted());
}

#[test]
fn an_empty_reply_leaves_nothing_buffered() {
    let mut s = ReaderState::open(RangeSpec::full(), 10, 4).unwrap();
    s.fill(Vec::new());
    assert_eq!(s.buffer_state(), BufferState::Stale);
    assert_eq!(s.buffered_len(), 0);
    assert_eq!(s.fetch_count(), 1);
    assert_eq!(s.take(3), Vec::<u8>::new());
    assert_eq!(s.plan_read(3), ReadPlan::Fetch { start: 0, end: 4 });
}

#[test]
fn memory_backend_serves_what_exists() {
    let backend = MemoryBackend::new(counting(10));
    assert_eq!(backend.len(), 10);
    assert_eq!(backend.size().unwrap(), 10);
    assert_eq!(backend.fetch(2, 5).unwrap(), vec![2, 3, 4]);
    assert_eq!(backend.fetch(8, 20).unwrap(), vec![8, 9]);
    assert_eq!(backend.fetch(10, 20).unwrap(), Vec::<u8>::new());
    assert_eq!(backend.fetch(30, 40).unwrap(), Vec::<u8>::new());
    assert_eq!(backend.fetch(3, 3).unwrap(), Vec::<u8>::new());
}
