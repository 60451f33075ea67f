//! The numbers that the bit patterns stand for.
//!
//! Every finite double is a whole multiple of two to the power -1074, the
//! smallest subnormal. Counting in that unit gives each finite pattern an
//! integer, its scaled value, without any rounding; the lemmas here show that
//! the order of patterns used throughout the library is the order of these
//! numbers, and say which numbers the named constants are.

use vstd::prelude::*;
use vstd::arithmetic::power2::{pow2, lemma_pow2_pos, lemma_pow2_adds, lemma_pow2_strictly_increases, lemma2_to64, lemma2_to64_rest};
use vstd::arithmetic::mul::{lemma_mul_strict_inequality, lemma_mul_inequality, lemma_mul_is_associative, lemma_mul_is_commutative};
use crate::binary64::{Binary64, FRACTION_RANGE, ONE_BITS, TEN_BITS, TWO_BITS, ZERO_BITS};

verus! {

/// The scaled value of the number one: two to the power 1074.
pub open spec fn unit() -> nat {
    pow2(1074)
}

impl Binary64 {
    /// The significand as an integer: the fraction field, with the hidden
    /// bit in front of it unless the exponent field is zero.
    pub open spec fn significand(self) -> nat {
        if self.biased_exponent() == 0 {
            self.fraction() as nat
        } else {
            (FRACTION_RANGE + self.fraction()) as nat
        }
    }

    /// The power of two that the significand is multiplied by, counted from
    /// the smallest subnormal: zero for the exponent fields 0 and 1.
    pub open spec fn scale(self) -> nat {
        if self.biased_exponent() == 0 {
            0
        } else {
            (self.biased_exponent() - 1) as nat
        }
    }

    /// The absolute value of a finite pattern, in units of two to the power -1074.
    pub open spec fn scaled_magnitude(self) -> nat {
        self.significand() * pow2(self.scale())
    }

    /// The value of a finite pattern, in units of two to the power -1074.
    pub open spec fn scaled_value(self) -> int {
        if self.sign_negative() {
            -(self.scaled_magnitude() as int)
        } else {
            self.scaled_magnitude() as int
        }
    }
}

/// Of two finite patterns, the one with the smaller magnitude field stands
/// for the number of smaller absolute value.
pub proof fn lemma_magnitude_orders_values(a: Binary64, b: Binary64)
    requires
        a.finite(),
        b.finite(),
        a.magnitude() < b.magnitude(),
    ensures
        a.scaled_magnitude() < b.scaled_magnitude(),
{
    let ea = a.biased_exponent();
    let eb = b.biased_exponent();
    let sa = a.scale();
    let sb = b.scale();
    let ga = a.significand() as int;
    let gb = b.significand() as int;
    lemma_pow2_pos(sa);
    lemma_pow2_pos(sb);
    assert(ea <= eb);
    if sa == sb {
        assert(ga < gb);
        lemma_mul_strict_inequality(ga, gb, pow2(sa) as int);
    } else {
        assert(sa < sb);
        assert(gb >= FRACTION_RANGE);
        assert(ga < 2 * FRACTION_RANGE);
        // ga * 2^sa < 2^53 * 2^sa = 2^52 * 2^(sa+1) <= 2^52 * 2^sb <= gb * 2^sb
        lemma_mul_strict_inequality(ga, 2 * FRACTION_RANGE, pow2(sa) as int);
        lemma_pow2_adds(1, sa);
        lemma2_to64();
        assert(pow2(1) == 2);
        assert(pow2(sa + 1) == 2 * pow2(sa));
        if sa + 1 < sb {
            lemma_pow2_strictly_increases(sa + 1, sb);
        }
        assert(pow2(sa + 1) <= pow2(sb));
        lemma_mul_is_associative(FRACTION_RANGE as int, 2, pow2(sa) as int);
        assert((2 * FRACTION_RANGE) * pow2(sa) == FRACTION_RANGE * pow2(sa + 1)) by {
            assert((FRACTION_RANGE * 2) * pow2(sa) == FRACTION_RANGE * (2 * pow2(sa)));
        }
        lemma_mul_inequality(pow2(sa + 1) as int, pow2(sb) as int, FRACTION_RANGE as int);
        lemma_mul_is_commutative(pow2(sa + 1) as int, FRACTION_RANGE as int);
        lemma_mul_is_commutative(pow2(sb) as int, FRACTION_RANGE as int);
        assert(FRACTION_RANGE * pow2(sa + 1) <= FRACTION_RANGE * pow2(sb));
        lemma_mul_inequality(FRACTION_RANGE as int, gb, pow2(sb) as int);
        assert(FRACTION_RANGE * pow2(sb) <= gb * pow2(sb));
    }
}

/// A finite pattern stands for zero exactly when its magnitude field is zero.
pub proof fn lemma_zero_value(a: Binary64)
    requires
        a.finite(),
    ensures
        a.scaled_magnitude() == 0 <==> a.magnitude() == 0,
        a.scaled_value() == 0 <==> a.ordinal() == 0,
{
    if a.magnitude() > 0 {
        let z = Binary64 { bits: ZERO_BITS };
        assert(z.scaled_magnitude() == 0) by {
            assert(z.significand() == 0);
            assert(0 * pow2(z.scale()) == 0);
        }
        lemma_magnitude_orders_values(z, a);
    } else {
        assert(a.significand() == 0);
        assert(0 * pow2(a.scale()) == 0);
    }
}

/// The order of the library is the order of the numbers: for two finite
/// patterns, the ordinals compare as the values do.
pub proof fn lemma_ordinal_orders_values(a: Binary64, b: Binary64)
    requires
        a.finite(),
        b.finite(),
    ensures
        a.ordinal() < b.ordinal() <==> a.scaled_value() < b.scaled_value(),
        a.ordinal() == b.ordinal() <==> a.scaled_value() == b.scaled_value(),
        a.less(b) <==> a.scaled_value() < b.scaled_value(),
        a.less_eq(b) <==> a.scaled_value() <= b.scaled_value(),
        a.positive() <==> a.scaled_value() > 0,
{
    lemma_zero_value(a);
    lemma_zero_value(b);
    if a.magnitude() < b.magnitude() {
        lemma_magnitude_orders_values(a, b);
    } else if b.magnitude() < a.magnitude() {
        lemma_magnitude_orders_values(b, a);
    } else {
        assert(a.scaled_magnitude() == b.scaled_magnitude());
    }
}

/// The named constants stand for the numbers zero, one, two and ten.
pub proof fn lemma_constants()
    ensures
        (Binary64 { bits: ZERO_BITS }).scaled_value() == 0,
        (Binary64 { bits: ONE_BITS }).scaled_value() == unit(),
        (Binary64 { bits: TWO_BITS }).scaled_value() == 2 * unit(),
        (Binary64 { bits: TEN_BITS }).scaled_value() == 10 * unit(),
{
    lemma2_to64();
    lemma2_to64_rest();
    let one = Binary64 { bits: ONE_BITS };
    let two = Binary64 { bits: TWO_BITS };
    let ten = Binary64 { bits: TEN_BITS };
    lemma_zero_value(Binary64 { bits: ZERO_BITS });
    assert(one.biased_exponent() == 1023 && one.fraction() == 0);
    assert(two.biased_exponent() == 1024 && two.fraction() == 0);
    assert(ten.biased_exponent() == 1026 && ten.fraction() == 0x4_0000_0000_0000);
    lemma_pow2_adds(52, 1022);
    lemma_pow2_adds(1, 1074);
    lemma_pow2_adds(52, 1023);
    lemma_pow2_adds(1, 1075);
    lemma_pow2_adds(50, 1025);
    assert(pow2(52) == FRACTION_RANGE);
    assert(pow2(50) == 0x4_0000_0000_0000);
    assert(pow2(1) == 2);
    assert(one.scaled_magnitude() == pow2(52) * pow2(1022));
    assert(two.scaled_magnitude() == pow2(52) * pow2(1023));
    assert(ten.significand() == 5 * pow2(50));
    lemma_mul_is_associative(5, pow2(50) as int, pow2(1025) as int);
    assert(ten.scaled_magnitude() == 5 * (pow2(50) * pow2(1025)));
    assert(pow2(1075) == 2 * pow2(1074));
}

} // verus!
