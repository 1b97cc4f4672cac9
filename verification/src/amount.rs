//! Exact decimal money amounts.
//!
//! An `Amount` is a signed count of ten-thousandths of a currency unit, so
//! every value with at most four fractional decimal digits is represented
//! exactly and arithmetic on amounts is exact integer arithmetic.

use vstd::prelude::*;

verus! {

/// An exact decimal amount: `raw` counts ten-thousandths of a unit,
/// so `Amount { raw: 625550 }` is 62.5550.
#[derive(Clone, Copy, Debug, PartialEq, Eq, Structural)]
pub struct Amount {
    pub raw: i64,
}

impl Amount {
    /// The mathematical value of this amount, in ten-thousandths of a unit.
    pub open spec fn value(self) -> int {
        self.raw as int
    }

    /// Builds the amount worth `raw` ten-thousandths of a unit.
    pub fn from_raw(raw: i64) -> (r: Amount)
        ensures
            r.value() == raw as int,
    {
        Amount { raw }
    }

    /// The amount as a count of ten-thousandths of a unit.
    pub fn to_raw(self) -> (r: i64)
        ensures
            r as int == self.value(),
    {
        self.raw
    }

    /// The zero amount.
    pub fn zero() -> (r: Amount)
        ensures
            r.value() == 0,
    {
        Amount { raw: 0 }
    }

    /// True exactly when the amount is below zero.
    pub fn is_negative(self) -> (r: bool)
        ensures
            r <==> self.value() < 0,
    {
        self.raw < 0
    }

    /// Exact addition; the caller must keep the result representable.
    pub fn plus(self, other: Amount) -> (r: Amount)
        requires
            i64::MIN <= self.value() + other.value() <= i64::MAX,
        ensures
            r.value() == self.value() + other.value(),
    {
        Amount { raw: self.raw + other.raw }
    }

    /// Exact subtraction; the caller must keep the result representable.
    pub fn minus(self, other: Amount) -> (r: Amount)
        requires
            i64::MIN <= self.value() - other.value() <= i64::MAX,
        ensures
            r.value() == self.value() - other.value(),
    {
        Amount { raw: self.raw - other.raw }
    }
}

} // verus!
