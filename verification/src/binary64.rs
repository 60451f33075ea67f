//! A bit-level model of IEEE-754 double precision values.
//!
//! A value is held as its 64-bit pattern: one sign bit, eleven exponent bits
//! and fifty-two fraction bits. Everything the smoothing code has to decide
//! about such a value (is it a number, is it above zero, which of two is the
//! larger) is decided here on the pattern alone, and proved against the
//! numeric order of the values that the patterns stand for.

use vstd::prelude::*;

verus! {

/// Bit pattern with only the sign bit set.
pub const SIGN_BIT: u64 = 0x8000_0000_0000_0000;

/// Magnitude of the two infinities; every larger magnitude is a NaN.
pub const INFINITY_MAGNITUDE: u64 = 0x7FF0_0000_0000_0000;

/// Weight of the lowest exponent bit: two to the power fifty-two.
pub const FRACTION_RANGE: u64 = 0x0010_0000_0000_0000;

/// Pattern of `+0`.
pub const ZERO_BITS: u64 = 0;

/// Pattern of `1`.
pub const ONE_BITS: u64 = 0x3FF0_0000_0000_0000;

/// Pattern of `2`.
pub const TWO_BITS: u64 = 0x4000_0000_0000_0000;

/// Pattern of `10`.
pub const TEN_BITS: u64 = 0x4024_0000_0000_0000;

/// A double precision value, held as its 64-bit pattern.
///
/// `==` on this type compares patterns, so it tells `+0` from `-0` and finds
/// a NaN equal to itself; the numeric order is given by `lt` and `le`.
#[derive(Clone, Copy, Debug, PartialEq, Eq, Structural)]
pub struct Binary64 {
    pub bits: u64,
}

impl Binary64 {
    /// The sign bit is set.
    pub open spec fn sign_negative(self) -> bool {
        self.bits >= SIGN_BIT
    }

    /// The pattern with the sign bit cleared.
    pub open spec fn magnitude(self) -> int {
        if self.bits >= SIGN_BIT {
            self.bits - SIGN_BIT
        } else {
            self.bits as int
        }
    }

    /// The exponent field, between 0 and 2047.
    pub open spec fn biased_exponent(self) -> int {
        self.magnitude() / (FRACTION_RANGE as int)
    }

    /// The fraction field, below two to the power fifty-two.
    pub open spec fn fraction(self) -> int {
        self.magnitude() % (FRACTION_RANGE as int)
    }

    /// Not a number: the exponent field is all ones and the fraction is not zero.
    pub open spec fn nan(self) -> bool {
        self.magnitude() > INFINITY_MAGNITUDE
    }

    /// Zero, subnormal or normal: neither an infinity nor a NaN.
    pub open spec fn finite(self) -> bool {
        self.magnitude() < INFINITY_MAGNITUDE
    }

    /// Normal: the exponent field is neither all zeros nor all ones.
    pub open spec fn normal(self) -> bool {
        FRACTION_RANGE <= self.magnitude() < INFINITY_MAGNITUDE
    }

    /// Place of a value that is no NaN in the numeric order, as an integer.
    ///
    /// Patterns with a clear sign bit grow with the value they stand for, and
    /// patterns with the sign bit set mirror them, so the signed magnitude
    /// orders the values; both zeros share the place 0.
    pub open spec fn ordinal(self) -> int {
        if self.sign_negative() {
            -self.magnitude()
        } else {
            self.magnitude()
        }
    }

    /// `self < other` as IEEE-754 compares: false as soon as one side is a NaN.
    pub open spec fn less(self, other: Binary64) -> bool {
        !self.nan() && !other.nan() && self.ordinal() < other.ordinal()
    }

    /// `self <= other` as IEEE-754 compares: false as soon as one side is a NaN.
    pub open spec fn less_eq(self, other: Binary64) -> bool {
        !self.nan() && !other.nan() && self.ordinal() <= other.ordinal()
    }

    /// `self > 0` as IEEE-754 compares: a number above zero, `+inf` included.
    pub open spec fn positive(self) -> bool {
        !self.nan() && self.ordinal() > 0
    }

    /// The larger of two values, where a NaN gives way to a number.
    ///
    /// Of `+0` and `-0`, and of two NaNs, it is the first.
    pub open spec fn larger(self, other: Binary64) -> Binary64 {
        if self.nan() {
            other
        } else if other.nan() {
            self
        } else if self.ordinal() < other.ordinal() {
            other
        } else {
            self
        }
    }

    /// Wraps a 64-bit pattern.
    pub fn from_bits(bits: u64) -> (r: Binary64)
        ensures
            r.bits == bits,
    {
        Binary64 { bits }
    }

    /// The 64-bit pattern of the value.
    pub fn to_bits(self) -> (r: u64)
        ensures
            r == self.bits,
    {
        self.bits
    }

    /// The pattern with the sign bit cleared.
    fn magnitude_bits(self) -> (r: u64)
        ensures
            r == self.magnitude(),
            r < SIGN_BIT,
    {
        if self.bits >= SIGN_BIT {
            self.bits - SIGN_BIT
        } else {
            self.bits
        }
    }

    /// Tells whether the value is a NaN.
    pub fn is_nan(self) -> (r: bool)
        ensures
            r == self.nan(),
    {
        self.magnitude_bits() > INFINITY_MAGNITUDE
    }

    /// Tells whether the value is above zero; a NaN is not.
    pub fn is_positive(self) -> (r: bool)
        ensures
            r == self.positive(),
    {
        0 < self.bits && self.bits <= INFINITY_MAGNITUDE
    }

    /// Numeric `<`: false as soon as one side is a NaN, and `-0` is not below `+0`.
    pub fn lt(self, other: Binary64) -> (r: bool)
        ensures
            r == self.less(other),
    {
        if self.is_nan() || other.is_nan() {
            return false;
        }
        let a: u64 = self.magnitude_bits();
        let b: u64 = other.magnitude_bits();
        if self.bits >= SIGN_BIT {
            if other.bits >= SIGN_BIT {
                b < a
            } else {
                a > 0 || b > 0
            }
        } else {
            if other.bits >= SIGN_BIT {
                false
            } else {
                a < b
            }
        }
    }

    /// Numeric `<=`: false as soon as one side is a NaN, and `+0 <= -0` holds.
    pub fn le(self, other: Binary64) -> (r: bool)
        ensures
            r == self.less_eq(other),
    {
        if self.is_nan() || other.is_nan() {
            return false;
        }
        let a: u64 = self.magnitude_bits();
        let b: u64 = other.magnitude_bits();
        if self.bits >= SIGN_BIT {
            if other.bits >= SIGN_BIT {
                b <= a
            } else {
                true
            }
        } else {
            if other.bits >= SIGN_BIT {
                a == 0 && b == 0
            } else {
                a <= b
            }
        }
    }

    /// The larger of two values; a NaN is returned only when both are NaNs.
    pub fn max(self, other: Binary64) -> (r: Binary64)
        ensures
            r == self.larger(other),
    {
        if self.is_nan() {
            other
        } else if other.is_nan() {
            self
        } else if self.lt(other) {
            other
        } else {
            self
        }
    }
}

/// Among values that are no NaN, `less` is a strict order and `less_eq` is
/// the same order with equality of value added.
pub proof fn lemma_order_is_strict(a: Binary64, b: Binary64, c: Binary64)
    ensures
        !a.less(a),
        a.less(b) ==> !b.less(a),
        a.less(b) && b.less(c) ==> a.less(c),
        a.less_eq(b) <==> a.less(b) || (!a.nan() && !b.nan() && a.ordinal() == b.ordinal()),
{
}

/// Any two values that are no NaN compare: one is below the other, or they
/// have the same value. The same value means the same pattern, but for the
/// two zeros.
pub proof fn lemma_order_is_total(a: Binary64, b: Binary64)
    requires
        !a.nan(),
        !b.nan(),
    ensures
        a.less(b) || b.less(a) || a.ordinal() == b.ordinal(),
        a.ordinal() == b.ordinal() ==> a == b || (a.magnitude() == 0 && b.magnitude() == 0),
{
}

/// With a NaN on either side every comparison is false.
pub proof fn lemma_nan_is_unordered(a: Binary64, b: Binary64)
    requires
        a.nan() || b.nan(),
    ensures
        !a.less(b),
        !b.less(a),
        !a.less_eq(b),
        !b.less_eq(a),
{
}

/// `larger` returns one of its arguments, a number whenever one of them is a
/// number, and among numbers one that neither argument exceeds.
pub proof fn lemma_larger_is_an_upper_bound(a: Binary64, b: Binary64)
    ensures
        a.larger(b) == a || a.larger(b) == b,
        a.larger(b).nan() <==> a.nan() && b.nan(),
        !a.nan() && !b.nan() ==> a.less_eq(a.larger(b)) && b.less_eq(a.larger(b)),
{
}

} // verus!
