//! Amounts of money.

use vstd::prelude::*;

verus! {

/// The sign bit of a double.
pub const SIGN: u64 = 0x8000_0000_0000_0000;

/// The largest magnitude that stands for a number: above it stand the NaNs.
pub const INFINITY: u64 = 0x7ff0_0000_0000_0000;

/// An amount in dollars: the bit pattern of an IEEE 754 double.
///
/// Without their sign, the patterns of the numbers are ordered as the numbers
/// are, so that comparing amounts is comparing whole numbers.
#[derive(Clone, Copy, Debug, PartialEq, Eq, Structural)]
pub struct Amount {
    pub bits: u64,
}

impl DeepView for Amount {
    type V = Amount;

    open spec fn deep_view(&self) -> Amount {
        *self
    }
}

impl Amount {
    /// The pattern without the sign.
    pub open spec fn magnitude(self) -> int {
        if self.bits >= SIGN {
            self.bits - SIGN
        } else {
            self.bits as int
        }
    }

    /// The pattern stands for a number, or for one of the infinities.
    pub open spec fn is_number(self) -> bool {
        self.magnitude() <= INFINITY
    }

    /// A whole number that is ordered among those of other numbers as the
    /// amount is, and zero for both zeros.
    pub open spec fn rank(self) -> int {
        if self.bits >= SIGN {
            -self.magnitude()
        } else {
            self.magnitude()
        }
    }

    /// `amount <= 0.0`
    pub open spec fn at_most_zero(self) -> bool {
        self.is_number() && self.rank() <= 0
    }

    /// `amount >= 0.0`
    pub open spec fn at_least_zero(self) -> bool {
        self.is_number() && self.rank() >= 0
    }

    /// The amount without its sign.
    pub open spec fn absolute(self) -> Amount {
        Amount { bits: self.magnitude() as u64 }
    }

    /// Zero.
    pub open spec fn zero() -> Amount {
        Amount { bits: 0 }
    }

    /// Whether the amount is zero or less. A NaN is not.
    pub fn is_at_most_zero(&self) -> (r: bool)
        ensures
            r == self.at_most_zero(),
    {
        if self.bits >= SIGN {
            self.bits - SIGN <= INFINITY
        } else {
            self.bits == 0
        }
    }

    /// Whether the amount is zero or more. A NaN is not.
    pub fn is_at_least_zero(&self) -> (r: bool)
        ensures
            r == self.at_least_zero(),
    {
        if self.bits >= SIGN {
            self.bits == SIGN
        } else {
            self.bits <= INFINITY
        }
    }

    /// The amount without its sign.
    pub fn abs(&self) -> (r: Amount)
        ensures
            r == self.absolute(),
    {
        if self.bits >= SIGN {
            Amount { bits: self.bits - SIGN }
        } else {
            Amount { bits: self.bits }
        }
    }
}

/// What is spent is more than zero: an amount below zero, without its sign, is
/// not at most zero.
pub proof fn law_debit_becomes_positive(a: Amount)
    requires
        a.is_number(),
        !a.at_least_zero(),
    ensures
        a.absolute().is_number(),
        !a.absolute().at_most_zero(),
        a.absolute().rank() == -a.rank(),
{
}

/// An amount is at most zero and at least zero exactly where it is one of the
/// two zeros, and neither exactly where it is no number.
pub proof fn law_signs_cover_the_numbers(a: Amount)
    ensures
        (a.at_most_zero() && a.at_least_zero()) <==> (a.bits == 0 || a.bits == SIGN),
        (!a.at_most_zero() && !a.at_least_zero()) <==> !a.is_number(),
{
}

} // verus!
