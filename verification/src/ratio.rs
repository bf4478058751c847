//! Exact fractions for derived prices and order sizes.

use vstd::prelude::*;

verus! {

/// The fraction `num / den`.
///
/// A denominator of zero stands for a quantity without an upper bound, which
/// is what dividing a positive amount by a price of zero yields.
#[derive(Clone, Copy, Debug, PartialEq, Eq)]
pub struct Ratio {
    pub num: i128,
    pub den: i128,
}

impl Ratio {
    /// The denominator is not negative, and an unbounded value is positive.
    pub open spec fn wf(self) -> bool {
        &&& self.den >= 0
        &&& self.den == 0 ==> self.num > 0
    }

    /// No finite value is as large as this one.
    pub open spec fn is_unbounded(self) -> bool {
        self.den == 0
    }

    /// `self <= other` as fractions, by cross-multiplication.
    pub open spec fn le(self, other: Ratio) -> bool
        recommends
            self.wf(),
            other.wf(),
    {
        if other.den == 0 {
            true
        } else if self.den == 0 {
            false
        } else {
            self.num * other.den <= other.num * self.den
        }
    }

    /// `self < other` as fractions.
    pub open spec fn lt(self, other: Ratio) -> bool
        recommends
            self.wf(),
            other.wf(),
    {
        !other.le(self)
    }

    /// Both stand for the same quantity.
    pub open spec fn same_value(self, other: Ratio) -> bool
        recommends
            self.wf(),
            other.wf(),
    {
        self.le(other) && other.le(self)
    }
}

} // verus!
