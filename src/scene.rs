//! Conversion of plane positions to terminal cells.
use crate::fixed::{div_round, round_div, SCALE};
use vstd::prelude::*;

verus! {

/// The terminal cell of a coordinate: the coordinate rounded to the nearest
/// unit, at least 1 (the origin cell) and at most `u16::MAX`.
pub open spec fn cell_of(p: int) -> int {
    let r = round_div(p, SCALE as int);
    if r <= 0 {
        1
    } else if r > u16::MAX {
        u16::MAX as int
    } else {
        r
    }
}

/// Converts a position to the terminal cell it is drawn in; cells are counted
/// from `(1, 1)` at the top left.
pub fn term_coords(pos: (i64, i64)) -> (r: (u16, u16))
    ensures
        r.0 == cell_of(pos.0 as int),
        r.1 == cell_of(pos.1 as int),
{
    (cell(pos.0), cell(pos.1))
}

fn cell(p: i64) -> (r: u16)
    ensures
        r == cell_of(p as int),
{
    let r = div_round(p as i128, SCALE as i128);
    if r <= 0 {
        1
    } else if r > u16::MAX as i128 {
        u16::MAX
    } else {
        r as u16
    }
}

} // verus!
