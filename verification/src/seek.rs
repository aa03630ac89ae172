//! Position arithmetic for seeks, free of any I/O.

use vstd::prelude::*;

verus! {

/// Where a seek is measured from, and by how much.
#[derive(Clone, Copy, Debug, PartialEq, Eq, Structural)]
pub enum SeekTarget {
    /// An absolute position counted from the window's first byte.
    FromStart(u64),
    /// A signed distance from the current position.
    FromCurrent(i64),
    /// A signed distance from the window's end.
    FromEnd(i64),
}

/// Why a seek was refused.
#[derive(Clone, Copy, Debug, PartialEq, Eq, Structural)]
pub enum SeekFault {
    /// The destination lies before the window's first byte.
    BeforeStart,
    /// The destination is larger than any position a `u64` can hold.
    Unrepresentable,
}

/// The position a seek asks for, as an unbounded integer.
///
/// There is no clamp at the window's end: a destination beyond it is an
/// ordinary position at which reads find nothing.
pub open spec fn seek_destination(target: SeekTarget, current: int, window_length: int) -> int {
    match target {
        SeekTarget::FromStart(o) => o as int,
        SeekTarget::FromCurrent(d) => current + d,
        SeekTarget::FromEnd(d) => window_length + d,
    }
}

/// What a seek yields: the destination, or the fault that refuses it.
pub open spec fn seek_outcome(target: SeekTarget, current: int, window_length: int) -> Result<
    u64,
    SeekFault,
> {
    let dest = seek_destination(target, current, window_length);
    if dest < 0 {
        Err(SeekFault::BeforeStart)
    } else if dest > u64::MAX {
        Err(SeekFault::Unrepresentable)
    } else {
        Ok(dest as u64)
    }
}

/// A non-negative position moved by a signed distance.
fn offset_position(base: u64, delta: i64) -> (r: Result<u64, SeekFault>)
    ensures
        r == seek_outcome(SeekTarget::FromCurrent(delta), base as int, 0),
{
    if delta >= 0 {
        let forward: u64 = delta as u64;
        if forward <= u64::MAX - base {
            Ok(base + forward)
        } else {
            Err(SeekFault::Unrepresentable)
        }
    } else {
        // The magnitude of `i64::MIN` does not fit in an `i64`.
        let back: u64 = if delta == i64::MIN {
            0x8000_0000_0000_0000u64
        } else {
            (-delta) as u64
        };
        if back <= base {
            Ok(base - back)
        } else {
            Err(SeekFault::BeforeStart)
        }
    }
}

/// Resolves a seek request against the current position and the window's
/// length.
///
/// The seek is refused exactly when its destination would be negative, or
/// too large for a `u64`; every other destination is returned as it is,
/// beyond the window's end too.
pub fn resolve_seek(target: SeekTarget, current: u64, window_length: u64) -> (r: Result<
    u64,
    SeekFault,
>)
    ensures
        r == seek_outcome(target, current as int, window_length as int),
{
    match target {
        SeekTarget::FromStart(o) => Ok(o),
        SeekTarget::FromCurrent(d) => offset_position(current, d),
        SeekTarget::FromEnd(d) => offset_position(window_length, d),
    }
}

/// A relative seek whose destination would be negative is refused, whatever
/// the distance.
pub proof fn lemma_seek_before_start_faults(target: SeekTarget, current: u64, window_length: u64)
    requires
        !(target is FromStart),
        seek_destination(target, current as int, window_length as int) < 0,
    ensures
        seek_outcome(target, current as int, window_length as int) == Err::<u64, SeekFault>(
            SeekFault::BeforeStart,
        ),
{
}

/// A seek from the start never faults, however far beyond the window's end
/// it points.
pub proof fn lemma_seek_from_start_succeeds(offset: u64, current: u64, window_length: u64)
    ensures
        seek_outcome(SeekTarget::FromStart(offset), current as int, window_length as int) == Ok::<
            u64,
            SeekFault,
        >(offset),
{
}

} // verus!
