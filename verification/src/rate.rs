//! Exact rational rates.
//!
//! A demographic rate (births or deaths per head per tick) is held as a
//! non-negative rational `num / den`, so that scaling a rate by 1/2 or by 2
//! — the effect of an environmental event — is exact and compounds exactly
//! across ticks.

use vstd::prelude::*;

verus! {

/// A non-negative rational rate `num / den`, with `den >= 1`.
#[derive(Clone, Copy, PartialEq, Eq, Structural, Debug)]
pub struct Rate {
    pub num: u64,
    pub den: u64,
}

impl Rate {
    /// A rate is well formed when its denominator is positive.
    pub open spec fn wf(self) -> bool {
        self.den >= 1
    }

    pub fn new(num: u64, den: u64) -> (r: Rate)
        requires
            den >= 1,
        ensures
            r == (Rate { num, den }),
    {
        Rate { num, den }
    }

    /// The neutral rate, 0: what a lookup that matches no age band returns.
    pub fn zero() -> (r: Rate)
        ensures
            r == Self::spec_zero(),
    {
        Rate { num: 0, den: 1 }
    }

    pub open spec fn spec_zero() -> Rate {
        Rate { num: 0u64, den: 1u64 }
    }

    /// The rate scaled by 1/2: the denominator doubles, which is exact.
    /// At the representable limit the rate is left unchanged (a clamp,
    /// reachable only after 63 compounded scarcity events).
    pub open spec fn spec_halved(self) -> Rate {
        if self.den <= u64::MAX / 2 {
            Rate { num: self.num, den: (self.den * 2) as u64 }
        } else {
            self
        }
    }

    /// The rate scaled by 2: the numerator doubles, which is exact.
    /// Past the representable limit the numerator clamps at `u64::MAX`.
    pub open spec fn spec_doubled(self) -> Rate {
        if self.num <= u64::MAX / 2 {
            Rate { num: (self.num * 2) as u64, den: self.den }
        } else {
            Rate { num: u64::MAX, den: self.den }
        }
    }

    /// Scale the rate by 1/2 in place.
    pub fn halve(&mut self)
        ensures
            *final(self) == old(self).spec_halved(),
    {
        if self.den <= u64::MAX / 2 {
            self.den = self.den * 2;
        }
    }

    /// Scale the rate by 2 in place.
    pub fn double(&mut self)
        ensures
            *final(self) == old(self).spec_doubled(),
    {
        if self.num <= u64::MAX / 2 {
            self.num = self.num * 2;
        } else {
            self.num = u64::MAX;
        }
    }

    /// `pop * self`, rounded half away from zero and clamped to `u32::MAX`:
    /// the head count that this rate contributes for a population of `pop`.
    pub open spec fn spec_apply(self, pop: u32) -> u32
        recommends
            self.wf(),
    {
        let q = (2 * pop * self.num + self.den) / (2 * self.den);
        if q > u32::MAX {
            u32::MAX
        } else {
            q as u32
        }
    }

    /// Compute `pop * self` rounded half away from zero, clamped to `u32::MAX`.
    pub fn apply(&self, pop: u32) -> (n: u32)
        requires
            self.wf(),
        ensures
            n == self.spec_apply(pop),
    {
        let p = pop as u128;
        let num = self.num as u128;
        let den = self.den as u128;
        proof {
            assert(2 * p * num + den <= u128::MAX) by (nonlinear_arith)
                requires
                    p <= u32::MAX,
                    num <= u64::MAX,
                    den <= u64::MAX,
            ;
        }
        let q = (2 * p * num + den) / (2 * den);
        if q > u32::MAX as u128 {
            u32::MAX
        } else {
            q as u32
        }
    }
}

} // verus!
