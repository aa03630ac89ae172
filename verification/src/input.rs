//! Inputs for exercising a reader: an object size, a range and a run of
//! actions, drawn from unstructured bytes.

use vstd::prelude::*;
use crate::action::ReadAction;
use crate::action::shown;
use crate::action::without_empty_reads;
use crate::range::RangeSpec;
use crate::seek::SeekTarget;

verus! {

/// Largest object an input asks for, in bytes.
pub const MAX_DATA_SIZE: usize = 16 * 1024 * 1024;

/// Largest number of actions in one input.
pub const MAX_ACTIONS: usize = 1024;

/// `arbitrary::Unstructured`, a source of bytes to draw values from. Nothing
/// is known of what it holds.
#[verifier::external_type_specification]
#[verifier::external_body]
pub struct ExUnstructured<'a>(arbitrary::Unstructured<'a>);

/// `arbitrary::Error`, the reason a draw was refused. It is passed on as it
/// is.
#[verifier::external_type_specification]
#[verifier::external_body]
pub struct ExArbitraryError(arbitrary::Error);

/// Why no input could be drawn.
#[derive(Debug)]
pub enum InputError {
    /// The source of bytes refused a draw.
    Source(arbitrary::Error),
}

/// One case for exercising a reader.
#[derive(Clone, Debug)]
pub struct FuzzInput {
    /// Name of the object to stage.
    pub path: String,
    /// Size of the object, in bytes.
    pub size: usize,
    /// The range to open the reader over.
    pub range: RangeSpec,
    /// The actions to replay.
    pub actions: Vec<ReadAction>,
}

/// Whether a range lies inside an object of `total` bytes and selects at
/// least one byte of it.
pub open spec fn range_in_bounds(range: RangeSpec, total: int) -> bool {
    let start: int = match range.offset() {
        Some(o) => o as int,
        None => 0,
    };
    &&& start < total
    &&& match range.size() {
        Some(s) => 1 <= s <= total - start,
        None => true,
    }
}

/// Whether an action stays within what an input may ask of a reader over an
/// object of `total` bytes: reads and absolute seeks up to twice the
/// object's size, relative seeks up to the object's size either way.
pub open spec fn action_in_bounds(action: ReadAction, total: int) -> bool {
    match action {
        ReadAction::Read(n) => n <= 2 * total,
        ReadAction::Next => true,
        ReadAction::Seek(SeekTarget::FromStart(o)) => o <= 2 * total,
        ReadAction::Seek(SeekTarget::FromCurrent(d)) => -total <= d <= total,
        ReadAction::Seek(SeekTarget::FromEnd(d)) => -total <= d <= total,
    }
}

/// The offset of a range of shape `shape`, of four: the whole object, from
/// an offset on, a size from the start, an offset and a size.
pub open spec fn offset_of_shape(shape: i64, offset: u64) -> Option<u64> {
    if shape == 1 || shape == 3 {
        Some(offset)
    } else {
        None
    }
}

/// The size of a range of shape `shape`.
pub open spec fn size_of_shape(shape: i64, size: u64) -> Option<u64> {
    if shape == 2 || shape == 3 {
        Some(size)
    } else {
        None
    }
}

/// The action that `choice` selects, of five, with the value drawn for it: a
/// read of `value` bytes, the next chunk, a seek to `value` from the start, a
/// seek by `value` from the cursor, a seek by `value` from the end.
pub open spec fn chosen_action(choice: i64, value: i64) -> ReadAction {
    if choice == 0 {
        ReadAction::Read(value as usize)
    } else if choice == 1 {
        ReadAction::Next
    } else if choice == 2 {
        ReadAction::Seek(SeekTarget::FromStart(value as u64))
    } else if choice == 3 {
        ReadAction::Seek(SeekTarget::FromCurrent(value))
    } else {
        ReadAction::Seek(SeekTarget::FromEnd(value))
    }
}

/// The smallest value that may be drawn for the action that `choice` selects.
pub open spec fn lowest_value(choice: i64, total: int) -> int {
    if choice == 3 || choice == 4 {
        -total
    } else {
        0
    }
}

/// The largest value that may be drawn for the action that `choice` selects.
pub open spec fn highest_value(choice: i64, total: int) -> int {
    if choice == 1 {
        0
    } else if choice == 3 || choice == 4 {
        total
    } else {
        2 * total
    }
}

/// The bytes that a source has not handed out yet, in the order in which it
/// hands them out.
pub uninterp spec fn unread(source: arbitrary::Unstructured) -> Seq<u8>;

/// What `arbitrary::Unstructured::int_in_range` makes of the bytes `unread`
/// and the range `low..=high`: the integer it returns, and the bytes it
/// leaves unread.
pub uninterp spec fn drawn(unread: Seq<u8>, low: int, high: int) -> (int, Seq<u8>);

/// Calls `arbitrary::Unstructured::int_in_range` with the range
/// `low..=high`, which takes bytes off the source and turns them into an
/// integer. Claimed of it: on a range that is not empty it always returns a
/// value (a source without bytes yields the range's start, not an error);
/// the value lies in the range; value and bytes left are determined by the
/// bytes the source held and by the range. It panics on an empty range,
/// which `requires` leaves out.
#[verifier::external_body]
fn int_in_range(source: &mut arbitrary::Unstructured<'_>, low: i64, high: i64) -> (r: Result<
    i64,
    arbitrary::Error,
>)
    requires
        low <= high,
    ensures
        r is Ok,
        r matches Ok(v) ==> low <= v <= high,
        r matches Ok(v) ==> (v as int, unread(*final(source))) == drawn(
            unread(*old(source)),
            low as int,
            high as int,
        ),
{
    source.int_in_range(low..=high)
}

/// Calls `uuid::Uuid::new_v4` and writes the identifier out as text.
/// Nothing is claimed of it: the identifier is random.
#[verifier::external_body]
fn fresh_path() -> (path: String) {
    uuid::Uuid::new_v4().to_string()
}

/// The range that `draw_range` makes of the bytes `unread`, and the bytes
/// it leaves: the shape is drawn first, of four; then the offset, inside the
/// object, where the shape has one; then the size, which ends inside the
/// object, where the shape has one.
pub open spec fn range_drawn(unread: Seq<u8>, total: int) -> (
    (Option<u64>, Option<u64>),
    Seq<u8>,
) {
    let shape = drawn(unread, 0, 3);
    let offset = if shape.0 == 1 || shape.0 == 3 {
        drawn(shape.1, 0, total - 1)
    } else {
        (0, shape.1)
    };
    let size = if shape.0 == 2 || shape.0 == 3 {
        drawn(offset.1, 1, total - offset.0)
    } else {
        (1, offset.1)
    };
    (
        (
            offset_of_shape(shape.0 as i64, offset.0 as u64),
            size_of_shape(shape.0 as i64, size.0 as u64),
        ),
        size.1,
    )
}

/// The action that `draw_action` makes of the bytes `unread`, and the bytes
/// it leaves: which of the five it is is drawn first; then, but for a next
/// chunk, its value, between the bounds of that action.
pub open spec fn action_drawn(unread: Seq<u8>, total: int) -> (ReadAction, Seq<u8>) {
    let choice = drawn(unread, 0, 4);
    let value = if choice.0 != 1 {
        drawn(
            choice.1,
            lowest_value(choice.0 as i64, total),
            highest_value(choice.0 as i64, total),
        )
    } else {
        (0, choice.1)
    };
    (chosen_action(choice.0 as i64, value.0 as i64), value.1)
}

/// The first `count` actions drawn from the bytes `unread`, one after the
/// other, and the bytes they leave.
pub open spec fn actions_drawn(unread: Seq<u8>, total: int, count: nat) -> (
    Seq<ReadAction>,
    Seq<u8>,
)
    decreases count,
{
    if count == 0 {
        (Seq::empty(), unread)
    } else {
        let before = actions_drawn(unread, total, (count - 1) as nat);
        let next = action_drawn(before.1, total);
        (before.0.push(next.0), next.1)
    }
}

/// What an input is drawn from.
pub ghost struct Drawn {
    /// Size of the object.
    pub size: int,
    /// Offset and size of the range.
    pub range: (Option<u64>, Option<u64>),
    /// The actions.
    pub actions: Seq<ReadAction>,
    /// The bytes that are left.
    pub rest: Seq<u8>,
}

/// The input that `FuzzInput::arbitrary` makes of the bytes `unread`: the
/// object's size, between one byte and `MAX_DATA_SIZE`; a range in an object
/// of that size; the number of actions, between one and `MAX_ACTIONS`; and
/// that many actions.
pub open spec fn input_drawn(unread: Seq<u8>) -> Drawn {
    let size = drawn(unread, 1, MAX_DATA_SIZE as int);
    let range = range_drawn(size.1, size.0);
    let count = drawn(range.1, 1, MAX_ACTIONS as int);
    let actions = actions_drawn(count.1, size.0, count.0 as nat);
    Drawn { size: size.0, range: range.0, actions: actions.0, rest: actions.1 }
}

/// The range of the given shape.
pub fn make_range(shape: i64, offset: u64, size: u64) -> (r: RangeSpec)
    requires
        0 <= shape <= 3,
    ensures
        r.offset() == offset_of_shape(shape, offset),
        r.size() == size_of_shape(shape, size),
{
    if shape == 0 {
        RangeSpec::new(None, None)
    } else if shape == 1 {
        RangeSpec::new(Some(offset), None)
    } else if shape == 2 {
        RangeSpec::new(None, Some(size))
    } else {
        RangeSpec::new(Some(offset), Some(size))
    }
}

/// The bounds between which the value for the action that `choice` selects
/// is drawn, for an object of `total_size` bytes: reads and seeks from the
/// start reach up to twice the object's size, relative seeks up to the
/// object's size either way, and a next chunk takes no value.
pub fn value_bounds(choice: i64, total_size: usize) -> (r: (i64, i64))
    requires
        total_size <= MAX_DATA_SIZE,
    ensures
        r.0 == lowest_value(choice, total_size as int),
        r.1 == highest_value(choice, total_size as int),
        r.0 <= r.1,
{
    let total: i64 = total_size as i64;
    if choice == 1 {
        (0, 0)
    } else if choice == 3 || choice == 4 {
        (-total, total)
    } else {
        (0, total * 2)
    }
}

/// The action that `choice` selects, with the value drawn for it.
pub fn make_action(choice: i64, value: i64) -> (a: ReadAction)
    requires
        0 <= choice <= 4,
        choice == 0 ==> 0 <= value <= usize::MAX,
        choice == 2 ==> 0 <= value,
    ensures
        a == chosen_action(choice, value),
{
    if choice == 0 {
        ReadAction::Read(value as usize)
    } else if choice == 1 {
        ReadAction::Next
    } else if choice == 2 {
        ReadAction::Seek(SeekTarget::FromStart(value as u64))
    } else if choice == 3 {
        ReadAction::Seek(SeekTarget::FromCurrent(value))
    } else {
        ReadAction::Seek(SeekTarget::FromEnd(value))
    }
}

/// Draws a range over an object of `total_size` bytes: one of the four
/// shapes, with an offset inside the object and a size that ends inside it.
///
/// A range always comes back. It is the one that `range_drawn` makes of the
/// bytes that the source holds, and the source is left with the bytes that
/// were not used.
pub fn draw_range(source: &mut arbitrary::Unstructured<'_>, total_size: usize) -> (r: Result<
    RangeSpec,
    InputError,
>)
    requires
        1 <= total_size <= MAX_DATA_SIZE,
    ensures
        r matches Ok(range) && range_in_bounds(range, total_size as int) && (
            range.offset(),
            range.size(),
        ) == range_drawn(unread(*old(source)), total_size as int).0,
        unread(*final(source)) == range_drawn(unread(*old(source)), total_size as int).1,
{
    let total: i64 = total_size as i64;
    let shape: i64 = match int_in_range(source, 0, 3) {
        Ok(v) => v,
        Err(e) => {
            return Err(InputError::Source(e));
        },
    };
    let mut offset: i64 = 0;
    if shape == 1 || shape == 3 {
        offset = match int_in_range(source, 0, total - 1) {
            Ok(v) => v,
            Err(e) => {
                return Err(InputError::Source(e));
            },
        };
    }
    let mut size: i64 = 1;
    if shape == 2 || shape == 3 {
        size = match int_in_range(source, 1, total - offset) {
            Ok(v) => v,
            Err(e) => {
                return Err(InputError::Source(e));
            },
        };
    }
    Ok(make_range(shape, offset as u64, size as u64))
}

/// Draws one action for a reader over an object of `total_size` bytes:
/// which of the five it is first, then the value that it asks for.
///
/// An action always comes back. It is the one that `action_drawn` makes of
/// the bytes that the source holds, and the source is left with the bytes
/// that were not used.
pub fn draw_action(source: &mut arbitrary::Unstructured<'_>, total_size: usize) -> (r: Result<
    ReadAction,
    InputError,
>)
    requires
        1 <= total_size <= MAX_DATA_SIZE,
    ensures
        r matches Ok(action) && action_in_bounds(action, total_size as int) && action
            == action_drawn(unread(*old(source)), total_size as int).0,
        unread(*final(source)) == action_drawn(unread(*old(source)), total_size as int).1,
{
    let choice: i64 = match int_in_range(source, 0, 4) {
        Ok(v) => v,
        Err(e) => {
            return Err(InputError::Source(e));
        },
    };
    let mut value: i64 = 0;
    if choice != 1 {
        let (low, high) = value_bounds(choice, total_size);
        value = match int_in_range(source, low, high) {
            Ok(v) => v,
            Err(e) => {
                return Err(InputError::Source(e));
            },
        };
    }
    Ok(make_action(choice, value))
}

impl FuzzInput {
    /// What every drawn input satisfies.
    pub open spec fn well_formed(&self) -> bool {
        &&& 1 <= self.size <= MAX_DATA_SIZE
        &&& range_in_bounds(self.range, self.size as int)
        &&& 1 <= self.actions@.len() <= MAX_ACTIONS
        &&& forall|i: int|
            0 <= i < self.actions@.len() ==> action_in_bounds(
                #[trigger] self.actions@[i],
                self.size as int,
            )
    }

    /// Whether size, range and actions are those of `drawn`.
    pub open spec fn drawn_as(&self, drawn: Drawn) -> bool {
        &&& self.size == drawn.size
        &&& (self.range.offset(), self.range.size()) == drawn.range
        &&& self.actions@ == drawn.actions
    }

    /// Draws an input: an object size, a range inside the object, and up to
    /// `MAX_ACTIONS` actions, under a fresh random object name.
    ///
    /// An input always comes back. Its size, range and actions are those
    /// that `input_drawn` makes of the bytes that the source holds, and the
    /// source is left with the bytes that were not used. The name is random.
    pub fn arbitrary(source: &mut arbitrary::Unstructured<'_>) -> (r: Result<
        FuzzInput,
        InputError,
    >)
        ensures
            r matches Ok(input) && input.well_formed() && input.drawn_as(
                input_drawn(unread(*old(source))),
            ),
            unread(*final(source)) == input_drawn(unread(*old(source))).rest,
    {
        let total_size: usize = match int_in_range(source, 1, MAX_DATA_SIZE as i64) {
            Ok(v) => v as usize,
            Err(e) => {
                return Err(InputError::Source(e));
            },
        };
        let range: RangeSpec = draw_range(source, total_size)?;
        let count: usize = match int_in_range(source, 1, MAX_ACTIONS as i64) {
            Ok(v) => v as usize,
            Err(e) => {
                return Err(InputError::Source(e));
            },
        };
        let ghost from = unread(*source);
        let mut actions: Vec<ReadAction> = Vec::new();
        let mut i: usize = 0;
        while i < count
            invariant
                i <= count <= MAX_ACTIONS,
                1 <= total_size <= MAX_DATA_SIZE,
                actions@.len() == i,
                (actions@, unread(*source)) == actions_drawn(from, total_size as int, i as nat),
                forall|j: int|
                    0 <= j < actions@.len() ==> action_in_bounds(
                        #[trigger] actions@[j],
                        total_size as int,
                    ),
            decreases count - i,
        {
            let action: ReadAction = draw_action(source, total_size)?;
            actions.push(action);
            i = i + 1;
        }
        Ok(FuzzInput { path: fresh_path(), size: total_size, range, actions })
    }

    /// The actions worth showing when the input is printed: all but the
    /// reads of no bytes.
    pub fn shown_actions(&self) -> (out: Vec<ReadAction>)
        ensures
            out@ == shown(self.actions@),
    {
        without_empty_reads(&self.actions)
    }
}

} // verus!
