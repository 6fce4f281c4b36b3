//! The session controller: the single owner of the reveal mask and the
//! pointer latch. Host event handlers message into it instead of each
//! holding a handle on the mask; the render step reads the one canonical
//! state.

use crate::mapper::calc_mask_index_1d;
use crate::mapper::mask_index_spec;
use crate::mask::Mask;
use crate::renderer;
use crate::renderer::render_chars;
use crate::AREA;
use vstd::prelude::*;

verus! {

/// Owns the only reveal mask of the session together with the
/// pointer-down latch. Created once at startup; lives, and only grows its
/// revealed set, for the whole session — there is no reset.
pub struct Controller {
    mask: Mask,
    pointer_down: bool,
}

impl Controller {
    /// The reveal state the controller holds, one boolean per cell.
    pub closed spec fn mask_view(&self) -> Seq<bool> {
        self.mask@
    }

    /// Whether the pointer latch is currently held.
    pub closed spec fn is_pointer_down(&self) -> bool {
        self.pointer_down
    }

    /// A well-formed controller holds exactly one boolean per grid cell.
    pub open spec fn wf(&self) -> bool {
        self.mask_view().len() == AREA
    }

    /// A fresh session: nothing revealed, latch up.
    pub fn new() -> (c: Controller)
        ensures
            c.wf(),
            !c.is_pointer_down(),
            forall|i: int| 0 <= i < AREA ==> !c.mask_view()[i],
    {
        Controller { mask: Mask::new(), pointer_down: false }
    }

    /// The primary pointer went down somewhere in the document: hold the
    /// latch. The mask is untouched.
    pub fn on_pointer_down(&mut self)
        ensures
            final(self).is_pointer_down(),
            final(self).mask_view() == old(self).mask_view(),
    {
        self.pointer_down = true;
    }

    /// The primary pointer was released: drop the latch. The mask is
    /// untouched.
    pub fn on_pointer_up(&mut self)
        ensures
            !final(self).is_pointer_down(),
            final(self).mask_view() == old(self).mask_view(),
    {
        self.pointer_down = false;
    }

    /// The pointer moved to a scaled position over the surface. While the
    /// latch is held and the position maps into the grid, the cell under
    /// the pointer is revealed; in every other case the state is unchanged.
    /// An index outside the grid is filtered here, before the mask is
    /// touched.
    pub fn on_pointer_move(&mut self, x_scaled: usize, y_index: usize)
        requires
            old(self).wf(),
        ensures
            final(self).wf(),
            final(self).is_pointer_down() == old(self).is_pointer_down(),
            ({
                let ideal = mask_index_spec(x_scaled as int, y_index as int);
                if old(self).is_pointer_down() && ideal < AREA {
                    final(self).mask_view() == old(self).mask_view().update(ideal, true)
                } else {
                    final(self).mask_view() == old(self).mask_view()
                }
            }),
    {
        let index: usize = calc_mask_index_1d(x_scaled, y_index);
        if self.pointer_down && index < AREA {
            self.mask.set(index, true);
        }
    }

    /// One animation tick: the full rendered text for the current mask.
    pub fn render(&self) -> (s: String)
        requires
            self.wf(),
        ensures
            s@ == render_chars(self.mask_view()),
    {
        renderer::render(&self.mask)
    }
}

} // verus!
