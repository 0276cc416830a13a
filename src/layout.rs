//! Where the interface sits on the terminal.

use vstd::prelude::*;
use crate::pos::{pos_add, Pos};

verus! {

/// The narrowest terminal the interface fits on.
pub const MIN_TERM_WIDTH: u16 = 80;

/// The lowest terminal the interface fits on.
pub const MIN_TERM_HEIGHT: u16 = 24;

/// Where a position of the interface lands on a terminal of `term_size`:
/// the interface is centred, and on a terminal too small for it nothing
/// lands anywhere.
pub open spec fn screen_pos(term_size: Pos, pos: Pos) -> Option<Pos> {
    if term_size.r < MIN_TERM_HEIGHT || term_size.c < MIN_TERM_WIDTH {
        None
    } else {
        Some(
            pos_add(
                Pos {
                    r: ((term_size.r - MIN_TERM_HEIGHT) / 2) as u16,
                    c: ((term_size.c - MIN_TERM_WIDTH) / 2) as u16,
                },
                pos,
            ),
        )
    }
}

/// Where a position of the interface lands on a terminal of `term_size`.
pub fn ui_offset(term_size: Pos, pos: Pos) -> (r: Option<Pos>)
    ensures
        r == screen_pos(term_size, pos),
{
    if term_size.r < MIN_TERM_HEIGHT || term_size.c < MIN_TERM_WIDTH {
        return None;
    }
    Some(
        Pos {
            r: (term_size.r - MIN_TERM_HEIGHT) / 2,
            c: (term_size.c - MIN_TERM_WIDTH) / 2,
        } + pos,
    )
}

/// Where the sign that the terminal is too small goes: the middle row, two
/// columns left of the middle (at the left edge on a very narrow terminal).
pub fn too_small_sign_pos(term_size: Pos) -> (r: Pos)
    ensures
        r.r == term_size.r / 2,
        r.c == (if term_size.c / 2 >= 2 { term_size.c / 2 - 2 } else { 0 }),
{
    let half = term_size.c / 2;
    Pos { r: term_size.r / 2, c: if half >= 2 { half - 2 } else { 0 } }
}

} // verus!
