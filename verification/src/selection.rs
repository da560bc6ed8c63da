//! The arithmetic of a cursor over rows or columns.
//!
//! A cursor is an index into `count` items, or nothing. It never leaves the
//! items: moves past either end stop there, and with no items there is no
//! cursor.

use vstd::prelude::*;

verus! {

/// The index nearest to `idx` among `count` items; none where there are no
/// items.
pub open spec fn clamped(idx: usize, count: usize) -> Option<usize> {
    if count == 0 {
        None
    } else if idx < count {
        Some(idx)
    } else {
        Some((count - 1) as usize)
    }
}

/// The index that a cursor at `current` reaches by `offset` steps, stopping at
/// the ends of the `usize` range. A cursor that is nowhere starts at zero.
pub open spec fn shifted(current: Option<usize>, offset: isize) -> usize {
    match current {
        None => 0,
        Some(at) => if at + offset < 0 {
            0
        } else if at + offset > usize::MAX {
            usize::MAX
        } else {
            (at + offset) as usize
        },
    }
}

/// Where a cursor among `count` items stands after a step down that wraps: on
/// the first item from the last one, else one further down; nowhere if it was
/// nowhere.
pub open spec fn cycled_down(current: Option<usize>, count: usize) -> Option<usize> {
    match current {
        None => None,
        Some(at) => if at + 1 == count {
            clamped(0, count)
        } else {
            clamped(shifted(current, 1isize), count)
        },
    }
}

/// Where a cursor among `count` items stands after a step up that wraps: on
/// the last item from the first one, else one further up; nowhere if it was
/// nowhere.
pub open spec fn cycled_up(current: Option<usize>, count: usize) -> Option<usize> {
    match current {
        None => None,
        Some(at) => if at == 0 {
            if count == 0 {
                None
            } else {
                Some((count - 1) as usize)
            }
        } else {
            clamped(shifted(current, -1isize), count)
        },
    }
}

/// The index nearest to `idx` among `count` items.
pub fn clamp_index(idx: usize, count: usize) -> (at: Option<usize>)
    ensures
        at == clamped(idx, count),
{
    if count == 0 {
        None
    } else if idx < count {
        Some(idx)
    } else {
        Some(count - 1)
    }
}

/// The index that a cursor at `current` reaches by `offset` steps.
pub fn shift_index(current: Option<usize>, offset: isize) -> (at: usize)
    ensures
        at == shifted(current, offset),
{
    match current {
        None => 0,
        Some(at) => {
            if offset < 0 {
                // the size of a negative offset, which may be one more than
                // the largest positive one
                let back: usize = ((-(offset + 1)) as usize) + 1;
                if back > at {
                    0
                } else {
                    at - back
                }
            } else {
                let forth: usize = offset as usize;
                if forth > usize::MAX - at {
                    usize::MAX
                } else {
                    at + forth
                }
            }
        },
    }
}

} // verus!
