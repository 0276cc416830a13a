//! Screen positions.

use vstd::prelude::*;

verus! {

/// A row and column on the screen, counted from the top left.
#[derive(Copy, Clone, PartialEq, Eq, Debug, Default, Structural)]
pub struct Pos {
    pub r: u16,
    pub c: u16,
}

/// The sum of two positions, each coordinate wrapping at 2^16.
pub open spec fn pos_add(a: Pos, b: Pos) -> Pos {
    Pos { r: ((a.r + b.r) % 0x10000) as u16, c: ((a.c + b.c) % 0x10000) as u16 }
}

impl vstd::std_specs::ops::AddSpecImpl<Pos> for Pos {
    open spec fn obeys_add_spec() -> bool {
        true
    }

    open spec fn add_req(self, rhs: Pos) -> bool {
        true
    }

    open spec fn add_spec(self, rhs: Pos) -> Pos {
        pos_add(self, rhs)
    }
}

impl core::ops::Add<Pos> for Pos {
    type Output = Pos;

    /// Offsets a position by another, coordinate by coordinate.
    fn add(self, rhs: Pos) -> (r: Pos)
        ensures
            r == pos_add(self, rhs),
    {
        Pos { r: self.r.wrapping_add(rhs.r), c: self.c.wrapping_add(rhs.c) }
    }
}

} // verus!
