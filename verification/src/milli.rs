//! Decimal numbers held in thousandths.

use vstd::prelude::*;

verus! {

/// A non-negative decimal number with three decimal places, held as its
/// number of thousandths: `Milli { thousandths: 1500 }` is 1.5.
#[derive(Debug, Clone, Copy, PartialEq, Eq, Structural)]
pub struct Milli {
    pub thousandths: u32,
}

impl Milli {
    /// The number `n`.
    pub fn whole(n: u16) -> (m: Milli)
        ensures
            m.thousandths == n * 1000,
    {
        let n: u32 = n as u32;
        Milli { thousandths: n * 1000 }
    }

    /// Whether the number is at least one.
    pub open spec fn at_least_one(self) -> bool {
        self.thousandths >= 1000
    }
}

} // verus!
