//! The reveal mask: per-cell boolean reveal state, the only persistent state
//! of the core.

use crate::AREA;
use vstd::prelude::*;

verus! {

/// Persistent reveal state for the grid: one boolean per cell, row-major,
/// always exactly `AREA` entries. A cell is `true` once the pointer has
/// passed over it; there is no operation that clears a cell.
pub struct Mask {
    cells: Vec<bool>,
}

impl View for Mask {
    type V = Seq<bool>;

    closed spec fn view(&self) -> Seq<bool> {
        self.cells@
    }
}

impl Mask {
    /// A well-formed mask holds exactly one boolean per grid cell.
    pub open spec fn wf(&self) -> bool {
        self@.len() == AREA
    }

    /// A fresh mask: every cell unrevealed.
    pub fn new() -> (m: Mask)
        ensures
            m.wf(),
            forall|i: int| 0 <= i < AREA ==> !m@[i],
    {
        let mut cells: Vec<bool> = Vec::new();
        let mut i: usize = 0;
        while i < AREA
            invariant
                i <= AREA,
                cells@.len() == i,
                forall|k: int| 0 <= k < i ==> !cells@[k],
            decreases AREA - i,
        {
            cells.push(false);
            i += 1;
        }
        Mask { cells }
    }

    /// Reveal state of one cell. Callers range-check the index.
    pub fn get(&self, index: usize) -> (b: bool)
        requires
            self.wf(),
            index < AREA,
        ensures
            b == self@[index as int],
    {
        self.cells[index]
    }

    /// Write one cell. An index outside the grid is ignored: the mask
    /// defends its own bounds and never panics.
    pub fn set(&mut self, index: usize, value: bool)
        requires
            old(self).wf(),
        ensures
            final(self).wf(),
            index < AREA ==> final(self)@ == old(self)@.update(index as int, value),
            index >= AREA ==> final(self)@ == old(self)@,
    {
        if index < AREA {
            self.cells[index] = value;
        }
    }
}

/// Writing one cell touches that cell alone: in a mask updated with `true`
/// at `i`, the cell at `i` reads `true` and every other cell keeps its
/// prior value.
pub proof fn lemma_set_isolates(m: Seq<bool>, i: int)
    requires
        m.len() == AREA,
        0 <= i < AREA,
    ensures
        m.update(i, true)[i] == true,
        forall|j: int| 0 <= j < AREA && j != i ==> m.update(i, true)[j] == m[j],
{
}

} // verus!
