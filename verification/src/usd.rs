//! Amounts of US dollars, held as IEEE 754 doubles by their bit patterns.
//!
//! Amounts are compared here by their bit patterns. They are added by whoever
//! has floating point arithmetic.

use vstd::prelude::*;

verus! {

/// An amount of US dollars: the bit pattern of an IEEE 754 double.
#[derive(Clone, Copy, PartialEq, Eq, Structural, Debug)]
pub struct Usd {
    pub bits: u64,
}

/// The bit that holds the sign of a double.
pub const SIGN_BIT: u64 = 0x8000_0000_0000_0000;

/// The bit pattern of positive infinity; the doubles that are no numbers are
/// those of a larger magnitude.
pub const INFINITY_BITS: u64 = 0x7ff0_0000_0000_0000;

impl Usd {
    /// The bit pattern without its sign.
    pub open spec fn magnitude(self) -> int {
        if self.bits >= SIGN_BIT {
            self.bits - SIGN_BIT
        } else {
            self.bits as int
        }
    }

    /// The place of the double among all of them; the two zeros share theirs.
    pub open spec fn rank(self) -> int {
        if self.bits >= SIGN_BIT {
            -self.magnitude()
        } else {
            self.magnitude()
        }
    }

    /// Whether the double is a number.
    pub open spec fn is_number(self) -> bool {
        self.magnitude() <= INFINITY_BITS
    }

    /// Whether the amount is less than `other`: what `<` says of the doubles.
    pub open spec fn is_less(self, other: Usd) -> bool {
        self.is_number() && other.is_number() && self.rank() < other.rank()
    }

    /// No money.
    pub open spec fn spec_zero() -> Usd {
        Usd { bits: 0 }
    }

    /// No money.
    pub fn zero() -> (amount: Usd)
        ensures
            amount == Usd::spec_zero(),
    {
        Usd { bits: 0 }
    }

    /// Whether the amount is less than `other`.
    pub fn less_than(&self, other: &Usd) -> (less: bool)
        ensures
            less == self.is_less(*other),
    {
        let negative: bool = self.bits >= SIGN_BIT;
        let other_negative: bool = other.bits >= SIGN_BIT;
        let size: u64 = if negative {
            self.bits - SIGN_BIT
        } else {
            self.bits
        };
        let other_size: u64 = if other_negative {
            other.bits - SIGN_BIT
        } else {
            other.bits
        };
        if size > INFINITY_BITS || other_size > INFINITY_BITS {
            false
        } else if negative && other_negative {
            other_size < size
        } else if negative {
            size > 0 || other_size > 0
        } else if other_negative {
            false
        } else {
            size < other_size
        }
    }
}

} // verus!
