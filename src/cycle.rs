//! A counter that wraps around a fixed modulus.

use vstd::prelude::*;

verus! {

/// A position that wraps around `modulus` positions when moved.
#[derive(Copy, Clone, Debug)]
pub struct Cycle {
    n: usize,
    max: usize,
}

impl Cycle {
    /// The current position.
    pub closed spec fn pos(self) -> nat {
        self.n as nat
    }

    /// The number of positions in the cycle.
    pub closed spec fn modulus(self) -> nat {
        self.max as nat
    }

    /// A cycle of `max` positions, placed at `n` as given.
    pub fn new(n: usize, max: usize) -> (r: Cycle)
        ensures
            r.pos() == n,
            r.modulus() == max,
    {
        Cycle { n, max }
    }

    /// Moves to position `n`, taken modulo the cycle's size.
    pub fn _set(&mut self, n: usize)
        requires
            old(self).modulus() > 0,
        ensures
            final(self).pos() == (n as nat) % old(self).modulus(),
            final(self).modulus() == old(self).modulus(),
    {
        self.n = n % self.max;
    }

    /// The position `steps` places forward of `n`, wrapped, without overflow.
    fn forward(n: usize, max: usize, steps: usize) -> (r: usize)
        requires
            0 < max,
        ensures
            r < max,
            r == (n + steps) % (max as int),
    {
        let n0 = n % max;
        let s = steps % max;
        proof {
            vstd::arithmetic::div_mod::lemma_add_mod_noop(n as int, steps as int, max as int);
        }
        if s >= max - n0 {
            let r = s - (max - n0);
            proof {
                vstd::arithmetic::div_mod::lemma_mod_sub_multiples_vanish((n0 + s) as int, max as int);
                vstd::arithmetic::div_mod::lemma_small_mod(r as nat, max as nat);
            }
            r
        } else {
            proof {
                vstd::arithmetic::div_mod::lemma_small_mod((n0 + s) as nat, max as nat);
            }
            n0 + s
        }
    }

    /// The position `steps` places backward of `n`, wrapped, without
    /// underflow.
    fn backward(n: usize, max: usize, steps: usize) -> (r: usize)
        requires
            0 < max,
        ensures
            r < max,
            r == (n - steps) % (max as int),
    {
        let n0 = n % max;
        let s = steps % max;
        proof {
            vstd::arithmetic::div_mod::lemma_sub_mod_noop(n as int, steps as int, max as int);
        }
        if s <= n0 {
            proof {
                vstd::arithmetic::div_mod::lemma_small_mod((n0 - s) as nat, max as nat);
            }
            n0 - s
        } else {
            let r = n0 + (max - s);
            proof {
                vstd::arithmetic::div_mod::lemma_mod_add_multiples_vanish((n0 - s) as int, max as int);
                vstd::arithmetic::div_mod::lemma_small_mod(r as nat, max as nat);
            }
            r
        }
    }
}

impl core::ops::Deref for Cycle {
    type Target = usize;

    fn deref(&self) -> (r: &usize)
        ensures
            *r == self.pos(),
    {
        &self.n
    }
}

impl vstd::std_specs::ops::AddSpecImpl<usize> for Cycle {
    open spec fn obeys_add_spec() -> bool {
        true
    }

    open spec fn add_req(self, rhs: usize) -> bool {
        self.modulus() > 0
    }

    closed spec fn add_spec(self, rhs: usize) -> Cycle {
        Cycle { n: ((self.n + rhs) % (self.max as int)) as usize, max: self.max }
    }
}

impl core::ops::Add<usize> for Cycle {
    type Output = Cycle;

    /// Moves forward; needs a cycle of at least one position.
    fn add(self, other: usize) -> (r: Cycle)
        ensures
            r.pos() == (self.pos() + other) % (self.modulus() as int),
            r.modulus() == self.modulus(),
    {
        Cycle { n: Cycle::forward(self.n, self.max, other), max: self.max }
    }
}

impl vstd::std_specs::ops::SubSpecImpl<usize> for Cycle {
    open spec fn obeys_sub_spec() -> bool {
        true
    }

    open spec fn sub_req(self, rhs: usize) -> bool {
        self.modulus() > 0
    }

    closed spec fn sub_spec(self, rhs: usize) -> Cycle {
        Cycle { n: ((self.n - rhs) % (self.max as int)) as usize, max: self.max }
    }
}

impl core::ops::Sub<usize> for Cycle {
    type Output = Cycle;

    /// Moves backward; needs a cycle of at least one position.
    fn sub(self, other: usize) -> (r: Cycle)
        ensures
            r.pos() == (self.pos() - other) % (self.modulus() as int),
            r.modulus() == self.modulus(),
    {
        Cycle { n: Cycle::backward(self.n, self.max, other), max: self.max }
    }
}

impl core::ops::AddAssign<usize> for Cycle {
    /// Moves forward in place. A cycle of no positions has nowhere to move
    /// and stays as it is.
    fn add_assign(&mut self, other: usize)
        ensures
            old(self).modulus() > 0 ==> final(self).pos() == (old(self).pos() + other) % (old(
                self,
            ).modulus() as int),
            old(self).modulus() == 0 ==> final(self).pos() == old(self).pos(),
            final(self).modulus() == old(self).modulus(),
    {
        if self.max > 0 {
            self.n = Cycle::forward(self.n, self.max, other);
        }
    }
}

impl core::ops::SubAssign<usize> for Cycle {
    /// Moves backward in place. A cycle of no positions has nowhere to move
    /// and stays as it is.
    fn sub_assign(&mut self, other: usize)
        ensures
            old(self).modulus() > 0 ==> final(self).pos() == (old(self).pos() - other) % (old(
                self,
            ).modulus() as int),
            old(self).modulus() == 0 ==> final(self).pos() == old(self).pos(),
            final(self).modulus() == old(self).modulus(),
    {
        if self.max > 0 {
            self.n = Cycle::backward(self.n, self.max, other);
        }
    }
}

} // verus!
