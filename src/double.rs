//! A double-precision number carried as its IEEE-754 bit pattern.
//!
//! The model: a pattern is read as sign and magnitude (the low 63 bits). For
//! every pattern that is not a NaN, ordering the magnitudes as integers orders
//! the absolute values as reals, so the signed magnitude (`ordinal`) orders
//! the numbers themselves, with negative and positive zero both at 0. A
//! comparison with a NaN is false, as it is for doubles.
use vstd::prelude::*;

verus! {

/// The sign bit of a double.
pub const SIGN_BIT: u64 = 0x8000_0000_0000_0000;

/// The pattern of positive infinity; every larger magnitude is a NaN.
pub const INFINITY_BITS: u64 = 0x7FF0_0000_0000_0000;

/// The pattern of 0.0.
pub const ZERO_BITS: u64 = 0;

/// The pattern of 1.0.
pub const ONE_BITS: u64 = 0x3FF0_0000_0000_0000;

/// A double, held as the bits that `f64::to_bits` gives.
#[derive(Clone, Copy, Debug, PartialEq, Eq, Structural)]
pub struct Double {
    pub bits: u64,
}

impl Double {
    pub open spec fn negative(self) -> bool {
        self.bits >= SIGN_BIT
    }

    /// The low 63 bits: exponent and mantissa.
    pub open spec fn magnitude(self) -> int {
        if self.negative() {
            self.bits - SIGN_BIT
        } else {
            self.bits as int
        }
    }

    pub open spec fn nan(self) -> bool {
        self.magnitude() > INFINITY_BITS
    }

    /// The signed magnitude: its order is the order of the numbers.
    pub open spec fn ordinal(self) -> int {
        if self.negative() {
            -self.magnitude()
        } else {
            self.magnitude()
        }
    }

    /// `self < o` on doubles.
    pub open spec fn lt_spec(self, o: Double) -> bool {
        !self.nan() && !o.nan() && self.ordinal() < o.ordinal()
    }

    /// `self <= o` on doubles.
    pub open spec fn le_spec(self, o: Double) -> bool {
        !self.nan() && !o.nan() && self.ordinal() <= o.ordinal()
    }

    /// `self.abs() < o.abs()` on doubles.
    pub open spec fn abs_lt_spec(self, o: Double) -> bool {
        !self.nan() && !o.nan() && self.magnitude() < o.magnitude()
    }

    pub fn from_bits(bits: u64) -> (r: Double)
        ensures
            r.bits == bits,
    {
        Double { bits }
    }

    pub fn zero() -> (r: Double)
        ensures
            r.bits == ZERO_BITS,
            r.ordinal() == 0,
    {
        Double { bits: ZERO_BITS }
    }

    pub fn one() -> (r: Double)
        ensures
            r.bits == ONE_BITS,
    {
        Double { bits: ONE_BITS }
    }

    pub fn is_nan(self) -> (r: bool)
        ensures
            r == self.nan(),
    {
        self.abs_bits() > INFINITY_BITS
    }

    fn abs_bits(self) -> (r: u64)
        ensures
            r as int == self.magnitude(),
    {
        if self.bits >= SIGN_BIT {
            self.bits - SIGN_BIT
        } else {
            self.bits
        }
    }

    /// An unsigned key with the order of `ordinal`.
    fn key(self) -> (r: u64)
        ensures
            r as int == self.ordinal() + SIGN_BIT,
    {
        if self.bits >= SIGN_BIT {
            SIGN_BIT - (self.bits - SIGN_BIT)
        } else {
            self.bits + SIGN_BIT
        }
    }

    pub fn lt(self, o: Double) -> (r: bool)
        ensures
            r == self.lt_spec(o),
    {
        !self.is_nan() && !o.is_nan() && self.key() < o.key()
    }

    pub fn le(self, o: Double) -> (r: bool)
        ensures
            r == self.le_spec(o),
    {
        !self.is_nan() && !o.is_nan() && self.key() <= o.key()
    }

    pub fn abs_lt(self, o: Double) -> (r: bool)
        ensures
            r == self.abs_lt_spec(o),
    {
        !self.is_nan() && !o.is_nan() && self.abs_bits() < o.abs_bits()
    }
}

} // verus!
