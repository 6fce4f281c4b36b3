//! The glyph renderer: a pure function from the reveal mask and the fixed
//! message layout to the full character grid, recomputed fresh on every
//! call, and its assembly into one row-separated text blob.

use crate::mask::Mask;
use crate::message::message_row;
use crate::message::message_row_spec;
use crate::{AREA, PADDING, WIDTH};
use vstd::prelude::*;
use vstd::string::StrSliceExecFns;

verus! {

/// Filler glyph of an unrevealed cell, alternating strictly by column
/// parity.
pub open spec fn texture_char(x: int) -> char {
    if x % 2 == 0 {
        'x'
    } else {
        '0'
    }
}

/// Glyph of a revealed cell that carries no message character, alternating
/// by column parity like the unrevealed texture.
pub open spec fn revealed_filler_char(x: int) -> char {
    if x % 2 == 0 {
        'e'
    } else {
        'F'
    }
}

/// Whether a cell may show message text once revealed: right of the
/// reserved left columns, outside row 0, and the row index differs from the
/// character length of the row's own text. The last comparison reads the
/// text length where a row bound might be expected; it is kept exactly as
/// the selection rule stands, since the fixed message makes its effect
/// observable.
pub open spec fn in_message_region(x: int, y: int) -> bool {
    x > PADDING as int && y != 0 && y != message_row_spec(y).len()
}

/// The character of one cell, given the whole mask. Column 0 is always a
/// line break; an unrevealed cell shows filler texture; a revealed cell in
/// the message region shows its row's character wherever the text reaches
/// its column, and the revealed filler glyph everywhere else.
pub open spec fn cell_char(mask: Seq<bool>, i: int) -> char {
    let x = i % (WIDTH as int);
    let y = i / (WIDTH as int);
    if x == 0 {
        '\n'
    } else if !mask[i] {
        texture_char(x)
    } else if in_message_region(x, y) && x < message_row_spec(y).len() {
        message_row_spec(y)[x]
    } else {
        revealed_filler_char(x)
    }
}

/// The whole rendered grid, row-major: one character per cell.
pub open spec fn render_chars(mask: Seq<bool>) -> Seq<char> {
    Seq::new(AREA as nat, |i: int| cell_char(mask, i))
}

/// Compute the character of every cell from the current mask.
pub fn get_characters(mask: &Mask) -> (r: Vec<char>)
    requires
        mask.wf(),
    ensures
        r@ == render_chars(mask@),
{
    let mut characters: Vec<char> = Vec::new();
    let mut index: usize = 0;
    while index < AREA
        invariant
            mask.wf(),
            index <= AREA,
            characters@.len() == index,
            forall|k: int| 0 <= k < index ==> characters@[k] == cell_char(mask@, k),
        decreases AREA - index,
    {
        let x_index: usize = index % WIDTH;
        let c: char;
        if x_index == 0 {
            c = '\n';
        } else if !mask.get(index) {
            c = if x_index % 2 == 0 {
                'x'
            } else {
                '0'
            };
        } else {
            let y_index: usize = index / WIDTH;
            let sentence = message_row(y_index);
            let sentence_len: usize = sentence.unicode_len();
            let is_message_index = x_index > PADDING && y_index != 0 && y_index != sentence_len;
            if is_message_index && x_index < sentence_len {
                c = sentence.get_char(x_index);
            } else {
                c = if x_index % 2 == 0 {
                    'e'
                } else {
                    'F'
                };
            }
        }
        characters.push(c);
        index += 1;
    }
    proof {
        assert(characters@ =~= render_chars(mask@));
    }
    characters
}

/// Relies on `String::push`: appends exactly the one given character at the
/// end of the string.
#[verifier::external_body]
fn push_char(s: &mut String, c: char)
    ensures
        final(s)@ == old(s)@.push(c),
{
    s.push(c);
}

/// Render the grid as one text blob: every cell's character in row-major
/// order, the line break of each column-0 cell opening its row.
pub fn render(mask: &Mask) -> (s: String)
    requires
        mask.wf(),
    ensures
        s@ == render_chars(mask@),
{
    let characters = get_characters(mask);
    let mut s = String::new();
    let mut i: usize = 0;
    while i < characters.len()
        invariant
            characters@ == render_chars(mask@),
            i <= characters@.len(),
            s@ == characters@.subrange(0, i as int),
        decreases characters@.len() - i,
    {
        push_char(&mut s, characters[i]);
        proof {
            assert(characters@.subrange(0, i as int).push(characters@[i as int])
                =~= characters@.subrange(0, i as int + 1));
        }
        i += 1;
    }
    proof {
        assert(characters@.subrange(0, characters@.len() as int) =~= characters@);
    }
    s
}

/// Rendering is a pure, deterministic function of the mask: the same reveal
/// state yields the same text, however often it is rendered.
pub proof fn lemma_render_deterministic(m1: Seq<bool>, m2: Seq<bool>)
    requires
        m1 == m2,
    ensures
        render_chars(m1) == render_chars(m2),
{
}

/// Whether every cell of a mask is unrevealed.
pub open spec fn all_unrevealed(m: Seq<bool>) -> bool {
    forall|i: int| 0 <= i < AREA ==> !m[i]
}

/// Whether every cell of a mask is revealed.
pub open spec fn all_revealed(m: Seq<bool>) -> bool {
    forall|i: int| 0 <= i < AREA ==> m[i]
}

/// On a fully unrevealed mask, every column-0 cell renders a line break and
/// every other cell alternates the two texture glyphs strictly by column
/// parity, independent of its row: no message text shows anywhere.
pub proof fn lemma_render_unrevealed(m: Seq<bool>, i: int)
    requires
        m.len() == AREA,
        all_unrevealed(m),
        0 <= i < AREA,
    ensures
        i % (WIDTH as int) == 0 ==> render_chars(m)[i] == '\n',
        i % (WIDTH as int) != 0 ==> render_chars(m)[i] == texture_char(i % (WIDTH as int)),
{
}

/// On a fully revealed mask, every message-region cell whose column the
/// row's text reaches shows that row's character exactly, and every other
/// cell off column 0 shows the revealed filler glyph of its column parity.
pub proof fn lemma_render_revealed(m: Seq<bool>, i: int)
    requires
        m.len() == AREA,
        all_revealed(m),
        0 <= i < AREA,
    ensures
        i % (WIDTH as int) == 0 ==> render_chars(m)[i] == '\n',
        ({
            let x = i % (WIDTH as int);
            let y = i / (WIDTH as int);
            &&& (x != 0 && in_message_region(x, y) && x < message_row_spec(y).len()
                ==> render_chars(m)[i] == message_row_spec(y)[x])
            &&& (x != 0 && !(in_message_region(x, y) && x < message_row_spec(y).len())
                ==> render_chars(m)[i] == revealed_filler_char(x))
        }),
{
}

} // verus!
