//! Cursor movement over the filtered list.
use vstd::prelude::*;

verus! {

/// The row above `c`, or `c` itself at the top.
pub open spec fn up_of(c: usize) -> usize {
    if c == 0 {
        0
    } else {
        (c - 1) as usize
    }
}

/// The row below `c` in a list of `n` rows, or the last row at the bottom;
/// `c` itself when the list is empty.
pub open spec fn down_of(n: usize, c: usize) -> usize {
    if n == 0 {
        c
    } else if c + 1 < n {
        (c + 1) as usize
    } else {
        (n - 1) as usize
    }
}

/// Moves the cursor one row up, stopping at the first row.
pub fn navigate_up(cursor_position: usize) -> (r: usize)
    ensures
        r == up_of(cursor_position),
        r <= cursor_position,
        cursor_position == 0 ==> r == 0,
{
    if cursor_position == 0 {
        return 0;
    }
    cursor_position - 1
}

/// Moves the cursor one row down a filtered list of `todo_len` rows,
/// stopping at the last row. An empty list leaves the cursor where it is; a
/// cursor past the end comes back to the last row.
pub fn navigate_down(todo_len: usize, cursor_position: usize) -> (r: usize)
    ensures
        r == down_of(todo_len, cursor_position),
        todo_len > 0 ==> r < todo_len,
        cursor_position + 1 == todo_len ==> r == cursor_position,
{
    if todo_len == 0 {
        return cursor_position;
    }
    if cursor_position >= todo_len - 1 {
        return todo_len - 1;
    }
    cursor_position + 1
}

} // verus!
