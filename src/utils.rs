use vstd::prelude::*;

verus! {

/// Whether a (row, column) pair lies on the 8x8 board.
pub open spec fn in_bounds(row: int, col: int) -> bool {
    0 <= row <= 7 && 0 <= col <= 7
}

pub fn is_in_bounds(row: i32, col: i32) -> (r: bool)
    ensures
        r == in_bounds(row as int, col as int),
{
    row >= 0 && row <= 7 && col >= 0 && col <= 7
}

} // verus!
