//! Scrolling a list that is longer than the screen.

use crate::playback::clamp;
use vstd::prelude::*;

verus! {

/// Where a list of `len` rows, shown `capacity` rows at a time from `offset`
/// on, has to begin so that the row `index` is seen: moved just far enough,
/// and never so far that rows at the end stay empty.
pub open spec fn scrolled(offset: int, index: int, len: int, capacity: int) -> int {
    let target = if index < offset {
        index
    } else if index - offset >= capacity {
        index - capacity + 1
    } else {
        offset
    };
    clamp(target, 0, last_offset(len, capacity))
}

/// The largest offset that leaves no row at the end empty.
pub open spec fn last_offset(len: int, capacity: int) -> int {
    if len > capacity {
        len - capacity
    } else {
        0
    }
}

/// Where a list of `len` rows, shown `capacity` rows at a time from `offset`
/// on, has to begin so that the row `index` is seen.
pub fn scroll_to(offset: usize, index: usize, len: usize, capacity: usize) -> (begin: usize)
    requires
        index < len,
    ensures
        begin == scrolled(offset as int, index as int, len as int, capacity as int),
        begin <= last_offset(len as int, capacity as int),
{
    let target: usize = if index < offset {
        index
    } else if index - offset >= capacity {
        index - capacity + 1
    } else {
        offset
    };
    let last: usize = end_offset(len, capacity);
    if target > last {
        last
    } else {
        target
    }
}

/// The largest offset that leaves no row at the end empty.
pub fn end_offset(len: usize, capacity: usize) -> (last: usize)
    ensures
        last == last_offset(len as int, capacity as int),
{
    if len > capacity {
        len - capacity
    } else {
        0
    }
}

/// A list scrolled to a row shows that row, and its offset stays within
/// what the list allows.
pub proof fn lemma_scrolled_shows_row(offset: int, index: int, len: int, capacity: int)
    requires
        0 <= index < len,
        0 <= offset,
        capacity > 0,
    ensures
        0 <= scrolled(offset, index, len, capacity) <= last_offset(len, capacity),
        scrolled(offset, index, len, capacity) <= index < scrolled(offset, index, len, capacity)
            + capacity,
{
}

} // verus!
