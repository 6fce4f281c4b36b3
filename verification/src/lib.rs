//! An interactive "scratch-off" text reveal.
//!
//! A fixed-size character grid initially shows a decorative filler texture.
//! As a pointer is dragged across the target surface, the cells under it are
//! marked revealed, exposing a hidden multi-line message underneath. The
//! library holds the deterministic core: mapping continuous pointer
//! coordinates to grid cells, keeping the persistent reveal mask, and
//! computing the exact character of every cell on each redraw.

use vstd::prelude::*;

pub mod controller;
pub mod mapper;
pub mod mask;
pub mod message;
pub mod renderer;

verus! {

/// Number of character columns in the grid.
pub const WIDTH: usize = 40;

/// Number of character rows in the grid.
pub const HEIGHT: usize = 6;

/// Total number of grid cells, addressed row-major: `index = y * WIDTH + x`.
pub const AREA: usize = WIDTH * HEIGHT;

/// Reserved left columns of every row that never carry message text.
pub const PADDING: usize = 2;

} // verus!
