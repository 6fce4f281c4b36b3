//! The hidden message: one fixed string per grid row, immutable for the
//! life of the session.

use vstd::prelude::*;

verus! {

/// The hidden text of one grid row. Row 0 and the final row are empty;
/// the interior rows hold the message. Rows outside the grid read as empty.
pub open spec fn message_row_spec(y: int) -> Seq<char> {
    if y == 1 {
        "    Dear people at Oxide, "@
    } else if y == 2 {
        "    you are an inspiration! "@
    } else if y == 3 {
        "    It'd be a dream to work with you. "@
    } else if y == 4 {
        "    Would you like to meet? "@
    } else {
        ""@
    }
}

/// The hidden text of one grid row, as the renderer reads it.
pub fn message_row(y: usize) -> (r: &'static str)
    ensures
        r@ == message_row_spec(y as int),
{
    if y == 1 {
        "    Dear people at Oxide, "
    } else if y == 2 {
        "    you are an inspiration! "
    } else if y == 3 {
        "    It'd be a dream to work with you. "
    } else if y == 4 {
        "    Would you like to meet? "
    } else {
        ""
    }
}

} // verus!
