//! The coordinate mapper: a scaled pointer position becomes one cell index.
//!
//! The continuous-to-integer calibration (pixels per cell, fitted to one
//! specific glyph size) lives with the host wiring; this module takes the
//! already scaled integer position and picks the cell, so the calibration
//! can be retuned without touching the selection logic.

use crate::{AREA, HEIGHT, WIDTH};
use vstd::prelude::*;

verus! {

/// The column picked for a scaled horizontal position: the position shifted
/// left by one cell, saturating at column 0 so the left grid edge can never
/// wrap around to a huge index.
pub open spec fn x_index_spec(x_scaled: int) -> int {
    if x_scaled >= 1 {
        x_scaled - 1
    } else {
        0
    }
}

/// The ideal (unbounded) cell index of a scaled pointer position.
pub open spec fn mask_index_spec(x_scaled: int, y_index: int) -> int {
    y_index * (WIDTH as int) + x_index_spec(x_scaled)
}

/// Map a scaled pointer position to a single cell index.
///
/// The result is not bound-checked against the grid: callers must test
/// `index < AREA` before using it to mutate state. Where the ideal index
/// does not fit a `usize` the result saturates at `usize::MAX`, which no
/// such test accepts.
pub fn calc_mask_index_1d(x_scaled: usize, y_index: usize) -> (r: usize)
    ensures
        mask_index_spec(x_scaled as int, y_index as int) <= usize::MAX as int ==> r
            == mask_index_spec(x_scaled as int, y_index as int),
        mask_index_spec(x_scaled as int, y_index as int) > usize::MAX as int ==> r == usize::MAX,
{
    let x_index: usize = if x_scaled >= 1 {
        x_scaled - 1
    } else {
        0
    };
    match y_index.checked_mul(WIDTH) {
        Some(row_start) => match row_start.checked_add(x_index) {
            Some(index) => index,
            None => usize::MAX,
        },
        None => usize::MAX,
    }
}

/// A pointer at the left grid edge maps to column 0 of its row, never out
/// of the grid: for every in-grid row, the saturated index of a scaled
/// horizontal position of 0 or 1 stays a valid cell index.
pub proof fn lemma_left_edge_in_grid(x_scaled: int, y_index: int)
    requires
        0 <= x_scaled <= 1,
        0 <= y_index < HEIGHT,
    ensures
        0 <= mask_index_spec(x_scaled, y_index) < AREA,
        mask_index_spec(x_scaled, y_index) % (WIDTH as int) == 0,
{
}

} // verus!
