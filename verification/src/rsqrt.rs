//! The seed of the fast reciprocal square root.
//!
//! The approximation of `1/sqrt(x)` starts from an integer trick on the bit
//! pattern of `x`: halving the pattern halves the exponent, and subtracting
//! the half from a fixed pattern negates it. The result, read as a double
//! again, is the first guess that Newton's iteration then refines. The guess
//! is computed and characterised here; the refinement is floating-point
//! arithmetic and is done by the caller.

use vstd::prelude::*;
use crate::accuracy::{
    at_most_root, lemma_seed_is_at_most_root, lemma_seed_is_near_reciprocal_root,
    near_reciprocal_root,
};
use crate::binary64::{Binary64, FRACTION_RANGE};

verus! {

/// The pattern the halved input is subtracted from: a double within a few
/// units in the last place of the square root of two to the power 1023.
pub const RSQRT_MAGIC: u64 = 0x5FE6_A09E_667F_3BC8;

/// Exponent field of `RSQRT_MAGIC`.
pub const RSQRT_MAGIC_EXPONENT: u64 = 0x5FE;

/// Fraction field of `RSQRT_MAGIC`.
pub const RSQRT_MAGIC_FRACTION: u64 = 0x6_A09E_667F_3BC8;

/// The pattern of the first guess for the input pattern `bits`:
/// `RSQRT_MAGIC` minus half of `bits`, rounded down, modulo two to the power 64.
pub open spec fn seed_pattern(bits: u64) -> u64 {
    if bits / 2 <= RSQRT_MAGIC {
        (RSQRT_MAGIC - bits / 2) as u64
    } else {
        (RSQRT_MAGIC + 0x1_0000_0000_0000_0000 - bits / 2) as u64
    }
}

/// The inputs the approximation is meant for: numbers above zero, short of `+inf`.
pub open spec fn in_domain(x: Binary64) -> bool {
    x.positive() && x.finite()
}

/// First guess of `1/sqrt(x)`.
///
/// Defined for every pattern: outside the domain (zero, negative numbers,
/// infinities, NaNs) the subtraction may wrap and the result carries no
/// meaning. Inside the domain nothing wraps and the guess is a normal number
/// above zero, at most some two percent above the reciprocal square root;
/// for a normal input it lies within five percent of it.
pub fn q_rsqrt_seed(x: Binary64) -> (y: Binary64)
    ensures
        y.bits == seed_pattern(x.bits),
        in_domain(x) ==> y.bits == RSQRT_MAGIC - x.bits / 2,
        in_domain(x) ==> y.positive() && y.normal(),
        in_domain(x) ==> at_most_root(x, y),
        in_domain(x) && x.normal() ==> near_reciprocal_root(x, y),
{
    let bits: u64 = x.bits;
    let half: u64 = bits >> 1;
    assert(half == bits / 2) by (bit_vector)
        requires
            half == bits >> 1,
    ;
    proof {
        if in_domain(x) {
            lemma_seed_is_at_most_root(x);
            if x.normal() {
                lemma_seed_is_near_reciprocal_root(x);
            }
        }
    }
    Binary64 { bits: RSQRT_MAGIC.wrapping_sub(half) }
}

/// Inside the domain the guess is `RSQRT_MAGIC` minus the halved pattern with
/// nothing wrapped, and it is a normal number above zero: never zero,
/// subnormal, infinite or a NaN.
pub proof fn lemma_seed_in_domain(x: Binary64)
    requires
        in_domain(x),
    ensures
        seed_pattern(x.bits) == RSQRT_MAGIC - x.bits / 2,
        0x1FEE_A09E_667F_3BC8 < seed_pattern(x.bits) <= RSQRT_MAGIC,
        (Binary64 { bits: seed_pattern(x.bits) }).positive(),
        (Binary64 { bits: seed_pattern(x.bits) }).normal(),
        in_domain(Binary64 { bits: seed_pattern(x.bits) }),
{
}

/// The guess never grows with its input: for two inputs of the domain with
/// `a <= b`, the guess for `b` is at most the guess for `a`.
///
/// Two neighbouring inputs may share one guess, since the halving drops the
/// lowest bit, so the order is not strict.
pub proof fn lemma_seed_never_increases(a: Binary64, b: Binary64)
    requires
        in_domain(a),
        in_domain(b),
        a.less_eq(b),
    ensures
        (Binary64 { bits: seed_pattern(b.bits) }).less_eq(Binary64 { bits: seed_pattern(a.bits) }),
        b.bits - a.bits >= 2 ==> (Binary64 { bits: seed_pattern(b.bits) }).less(
            Binary64 { bits: seed_pattern(a.bits) },
        ),
{
}

/// The exponent of the guess is the halved and negated exponent of the input.
///
/// With `e` the exponent field of the input and `f` its fraction field, the
/// exponent field of the guess is `1534 - e / 2`, less one when the bits that
/// the halving moves into the fraction, `(e % 2) * 2^51 + f / 2`, exceed the
/// fraction of `RSQRT_MAGIC`; the fraction field of the guess takes up the
/// difference.
pub proof fn lemma_seed_exponent(x: Binary64)
    requires
        in_domain(x),
    ensures
        ({
            let y = Binary64 { bits: seed_pattern(x.bits) };
            let e = x.biased_exponent();
            let carried = (e % 2) * 0x8_0000_0000_0000 + x.fraction() / 2;
            &&& 0 <= e <= 2046
            &&& carried <= RSQRT_MAGIC_FRACTION ==> {
                &&& y.biased_exponent() == RSQRT_MAGIC_EXPONENT - e / 2
                &&& y.fraction() == RSQRT_MAGIC_FRACTION - carried
            }
            &&& carried > RSQRT_MAGIC_FRACTION ==> {
                &&& y.biased_exponent() == RSQRT_MAGIC_EXPONENT - e / 2 - 1
                &&& y.fraction() == RSQRT_MAGIC_FRACTION + FRACTION_RANGE - carried
            }
        }),
{
    let m = x.bits as int;
    let e = m / 0x10_0000_0000_0000;
    let f = m % 0x10_0000_0000_0000;
    let carried = (e % 2) * 0x8_0000_0000_0000 + f / 2;
    assert(m / 2 == (e / 2) * 0x10_0000_0000_0000 + carried);
    assert(RSQRT_MAGIC == RSQRT_MAGIC_EXPONENT * 0x10_0000_0000_0000 + RSQRT_MAGIC_FRACTION);
}

} // verus!
