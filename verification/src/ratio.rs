//! Exact quotients. The core computes no fractions: where a quantity is a
//! quotient of two counts it hands out both, and the caller divides in the
//! number type that it wants.

use vstd::prelude::*;

verus! {

/// The quotient `numerator / denominator`, kept exact.
#[derive(Debug, Clone, Copy, PartialEq, Eq, Structural)]
pub struct Ratio {
    pub numerator: u128,
    pub denominator: u128,
}

impl Ratio {
    /// The quotient, rounded down; 0 where the denominator is 0.
    pub open spec fn spec_floor(&self) -> nat {
        if self.denominator == 0 {
            0
        } else {
            (self.numerator / self.denominator) as nat
        }
    }

    /// The quotient, rounded down; 0 where the denominator is 0.
    pub fn floor(&self) -> (q: u128)
        ensures
            q == self.spec_floor(),
    {
        if self.denominator == 0 {
            0
        } else {
            self.numerator / self.denominator
        }
    }
}

} // verus!
