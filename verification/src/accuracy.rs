//! How close the first guess of the reciprocal square root is.
//!
//! For a normal input `x` the guess `y` satisfies
//! `0.914 <= y * y * x <= 1.043`, so `y` lies within five percent of
//! `1/sqrt(x)`; for a subnormal input the upper bound still holds. Here this
//! is stated over the exact values of the two patterns, counted in units of
//! two to the power -1074, and proved from the integer arithmetic that
//! produces the guess. Three steps of Newton's iteration, taken without
//! rounding, then end within a billionth of one.

use vstd::prelude::*;
use vstd::arithmetic::power2::{pow2, lemma_pow2_pos, lemma_pow2_adds, lemma2_to64, lemma2_to64_rest};
use crate::binary64::{Binary64, FRACTION_RANGE};
use crate::rsqrt::{in_domain, lemma_seed_exponent, seed_pattern, RSQRT_MAGIC_EXPONENT, RSQRT_MAGIC_FRACTION};
use crate::value::unit;

verus! {

/// `y * y * x`, over the exact values of two finite patterns, in units of
/// the cube of two to the power -1074.
pub open spec fn squared_times(y: Binary64, x: Binary64) -> nat {
    y.scaled_magnitude() * y.scaled_magnitude() * x.scaled_magnitude()
}

/// The number one in the units of `squared_times`.
pub open spec fn unit_cube() -> nat {
    unit() * unit() * unit()
}

/// `y * y * x <= 1.043`: the guess `y` is above `1/sqrt(x)` by little more
/// than two percent at most.
pub open spec fn at_most_root(x: Binary64, y: Binary64) -> bool {
    1000 * squared_times(y, x) <= 1043 * unit_cube()
}

/// `0.914 <= y * y * x <= 1.043`: the guess `y` is within five percent of
/// `1/sqrt(x)`.
pub open spec fn near_reciprocal_root(x: Binary64, y: Binary64) -> bool {
    914 * unit_cube() <= 1000 * squared_times(y, x) && at_most_root(x, y)
}

/// The bounds for an even exponent field whose halving borrows nothing:
/// `h` is the halved fraction of the input and `g` its significand.
proof fn lemma_even_exponent_no_borrow(h: int, g: int)
    by (nonlinear_arith)
    requires
        0 <= h <= 0x6_A09E_667F_3BC8,
        0x10_0000_0000_0000 + 2 * h <= g <= 0x10_0000_0000_0000 + 2 * h + 1,
    ensures
        914 * 0x2000_0000_0000_0000_0000_0000_0000_0000_0000_0000 <= 1000 * ((0x16_A09E_667F_3BC8
            - h) * (0x16_A09E_667F_3BC8 - h) * g),
        1000 * ((0x16_A09E_667F_3BC8 - h) * (0x16_A09E_667F_3BC8 - h) * g) <= 1043
            * 0x2000_0000_0000_0000_0000_0000_0000_0000_0000_0000,
{
}

/// The bounds for an even exponent field whose halving borrows from the
/// exponent of the guess.
proof fn lemma_even_exponent_borrow(h: int, g: int)
    by (nonlinear_arith)
    requires
        0x6_A09E_667F_3BC8 < h < 0x8_0000_0000_0000,
        0x10_0000_0000_0000 + 2 * h <= g <= 0x10_0000_0000_0000 + 2 * h + 1,
    ensures
        914 * 0x8000_0000_0000_0000_0000_0000_0000_0000_0000_0000 <= 1000 * ((0x26_A09E_667F_3BC8
            - h) * (0x26_A09E_667F_3BC8 - h) * g),
        1000 * ((0x26_A09E_667F_3BC8 - h) * (0x26_A09E_667F_3BC8 - h) * g) <= 1043
            * 0x8000_0000_0000_0000_0000_0000_0000_0000_0000_0000,
{
}

/// The bounds for an odd exponent field, whose halving always borrows.
proof fn lemma_odd_exponent(h: int, g: int)
    by (nonlinear_arith)
    requires
        0 <= h < 0x8_0000_0000_0000,
        0x10_0000_0000_0000 + 2 * h <= g <= 0x10_0000_0000_0000 + 2 * h + 1,
    ensures
        914 * 0x4000_0000_0000_0000_0000_0000_0000_0000_0000_0000 <= 1000 * ((0x1E_A09E_667F_3BC8
            - h) * (0x1E_A09E_667F_3BC8 - h) * g),
        1000 * ((0x1E_A09E_667F_3BC8 - h) * (0x1E_A09E_667F_3BC8 - h) * g) <= 1043
            * 0x4000_0000_0000_0000_0000_0000_0000_0000_0000_0000,
{
}

/// The upper bound for a subnormal input whose halving borrows nothing:
/// the significand `g` is the fraction itself.
proof fn lemma_subnormal_no_borrow(h: int, g: int)
    by (nonlinear_arith)
    requires
        0 <= h <= 0x6_A09E_667F_3BC8,
        0 <= g <= 2 * h + 1,
    ensures
        1000 * ((0x16_A09E_667F_3BC8 - h) * (0x16_A09E_667F_3BC8 - h) * g) <= 1043
            * 0x1000_0000_0000_0000_0000_0000_0000_0000_0000_0000,
{
}

/// The upper bound for a subnormal input whose halving borrows.
proof fn lemma_subnormal_borrow(h: int, g: int)
    by (nonlinear_arith)
    requires
        0x6_A09E_667F_3BC8 < h < 0x8_0000_0000_0000,
        0 <= g <= 2 * h + 1,
    ensures
        1000 * ((0x26_A09E_667F_3BC8 - h) * (0x26_A09E_667F_3BC8 - h) * g) <= 1043
            * 0x4000_0000_0000_0000_0000_0000_0000_0000_0000_0000,
{
}

/// The powers of two that the bounds are stated with.
proof fn lemma_large_powers()
    ensures
        pow2(156) == 0x1000_0000_0000_0000_0000_0000_0000_0000_0000_0000,
        pow2(157) == 0x2000_0000_0000_0000_0000_0000_0000_0000_0000_0000,
        pow2(158) == 0x4000_0000_0000_0000_0000_0000_0000_0000_0000_0000,
        pow2(159) == 0x8000_0000_0000_0000_0000_0000_0000_0000_0000_0000,
{
    lemma2_to64();
    lemma2_to64_rest();
    lemma_pow2_adds(64, 64);
    lemma_pow2_adds(128, 28);
    lemma_pow2_adds(128, 29);
    lemma_pow2_adds(128, 30);
    lemma_pow2_adds(128, 31);
}

/// Takes a product of significands to the product of the values: with `k`
/// the power of two that the significands are compared with, and the three
/// exponents adding up to three times 1074, the values are the significands
/// times a common factor.
proof fn lemma_scale_product(gy: nat, gx: nat, sy: nat, sx: nat, k: nat) -> (rest: nat)
    requires
        k + 2 * sy + sx == 3222,
    ensures
        rest > 0,
        unit_cube() == pow2(k) * rest,
        (gy * pow2(sy)) * (gy * pow2(sy)) * (gx * pow2(sx)) == (gy * gy * gx) * rest,
{
    let py = pow2(sy);
    let px = pow2(sx);
    let rest = pow2(2 * sy + sx);
    let u = unit();
    lemma_pow2_adds(sy, sy);
    lemma_pow2_adds(2 * sy, sx);
    assert(rest == py * py * px);
    lemma_pow2_adds(1074, 1074);
    lemma_pow2_adds(2148, 1074);
    assert(u * u * u == pow2(3222));
    lemma_pow2_adds(k, 2 * sy + sx);
    lemma_pow2_pos(2 * sy + sx);
    let g = gy * gy * gx;
    assert((gy * py) * (gy * py) * (gx * px) == g * rest) by (nonlinear_arith)
        requires
            g == gy * gy * gx,
            rest == py * py * px,
    ;
    rest
}

/// An upper bound on significands holds of the values as well.
proof fn lemma_scale_upper(gy: nat, gx: nat, sy: nat, sx: nat, k: nat)
    requires
        k + 2 * sy + sx == 3222,
        1000 * (gy * gy * gx) <= 1043 * pow2(k),
    ensures
        1000 * ((gy * pow2(sy)) * (gy * pow2(sy)) * (gx * pow2(sx))) <= 1043 * unit_cube(),
{
    let rest = lemma_scale_product(gy, gx, sy, sx, k);
    let g = gy * gy * gx;
    let pk = pow2(k);
    assert(1000 * (g * rest) <= 1043 * (pk * rest)) by (nonlinear_arith)
        requires
            1000 * g <= 1043 * pk,
            rest > 0,
    ;
}

/// A lower bound on significands holds of the values as well.
proof fn lemma_scale_lower(gy: nat, gx: nat, sy: nat, sx: nat, k: nat)
    requires
        k + 2 * sy + sx == 3222,
        914 * pow2(k) <= 1000 * (gy * gy * gx),
    ensures
        914 * unit_cube() <= 1000 * ((gy * pow2(sy)) * (gy * pow2(sy)) * (gx * pow2(sx))),
{
    let rest = lemma_scale_product(gy, gx, sy, sx, k);
    let g = gy * gy * gx;
    let pk = pow2(k);
    assert(914 * (pk * rest) <= 1000 * (g * rest)) by (nonlinear_arith)
        requires
            914 * pk <= 1000 * g,
            rest > 0,
    ;
}

/// For every input of the domain, subnormal ones included, the guess
/// squared times the input is at most 1.043: the guess never lies above the
/// root by more than some two percent.
pub proof fn lemma_seed_is_at_most_root(x: Binary64)
    requires
        in_domain(x),
    ensures
        at_most_root(x, Binary64 { bits: seed_pattern(x.bits) }),
{
    if x.normal() {
        lemma_seed_is_near_reciprocal_root(x);
    } else {
        let y = Binary64 { bits: seed_pattern(x.bits) };
        lemma_seed_exponent(x);
        lemma_large_powers();
        let f = x.fraction();
        let h = f / 2;
        let gx = x.significand();
        let gy = y.significand();
        let sy = y.scale();
        assert(x.biased_exponent() == 0);
        assert(gx == f);
        assert(x.scale() == 0);
        if h <= RSQRT_MAGIC_FRACTION {
            assert(y.biased_exponent() == RSQRT_MAGIC_EXPONENT);
            assert(gy == 0x16_A09E_667F_3BC8 - h);
            assert(sy == 1533);
            lemma_subnormal_no_borrow(h, gx as int);
            lemma_scale_upper(gy, gx, sy, 0, 156);
        } else {
            assert(y.biased_exponent() == RSQRT_MAGIC_EXPONENT - 1);
            assert(gy == 0x26_A09E_667F_3BC8 - h);
            assert(sy == 1532);
            lemma_subnormal_borrow(h, gx as int);
            lemma_scale_upper(gy, gx, sy, 0, 158);
        }
    }
}

/// For every normal input of the domain, the guess squared times the input
/// lies between 0.914 and 1.043.
///
/// A subnormal input is left out: the smaller it is, the further its guess
/// falls short of the root.
pub proof fn lemma_seed_is_near_reciprocal_root(x: Binary64)
    requires
        in_domain(x),
        x.normal(),
    ensures
        near_reciprocal_root(x, Binary64 { bits: seed_pattern(x.bits) }),
{
    let y = Binary64 { bits: seed_pattern(x.bits) };
    lemma_seed_exponent(x);
    lemma_large_powers();
    let e = x.biased_exponent();
    let f = x.fraction();
    let h = f / 2;
    let carried = (e % 2) * 0x8_0000_0000_0000 + h;
    let gx = x.significand();
    let gy = y.significand();
    let sx = x.scale();
    let sy = y.scale();
    assert(1 <= e <= 2046);
    assert(gx == FRACTION_RANGE + f);
    assert(sx == e - 1);
    if e % 2 == 0 {
        if carried <= RSQRT_MAGIC_FRACTION {
            assert(y.biased_exponent() == RSQRT_MAGIC_EXPONENT - e / 2);
            assert(gy == 0x16_A09E_667F_3BC8 - h);
            assert(sy == 1533 - e / 2);
            lemma_even_exponent_no_borrow(h, gx as int);
            lemma_scale_lower(gy, gx, sy, sx, 157);
            lemma_scale_upper(gy, gx, sy, sx, 157);
        } else {
            assert(y.biased_exponent() == RSQRT_MAGIC_EXPONENT - e / 2 - 1);
            assert(gy == 0x26_A09E_667F_3BC8 - h);
            assert(sy == 1532 - e / 2);
            lemma_even_exponent_borrow(h, gx as int);
            lemma_scale_lower(gy, gx, sy, sx, 159);
            lemma_scale_upper(gy, gx, sy, sx, 159);
        }
    } else {
        assert(carried > RSQRT_MAGIC_FRACTION);
        assert(y.biased_exponent() == RSQRT_MAGIC_EXPONENT - e / 2 - 1);
        assert(gy == 0x1E_A09E_667F_3BC8 - h);
        assert(sy == 1532 - e / 2);
        lemma_odd_exponent(h, gx as int);
        lemma_scale_lower(gy, gx, sy, sx, 158);
        lemma_scale_upper(gy, gx, sy, sx, 158);
    }
}

/// What one step of Newton's iteration `y <- y * (3 - x * y * y) / 2` does
/// to `v = y * y * x`, in exact arithmetic: with `v = n / d` the step gives
/// `v * (3 - v) * (3 - v) / 4`, whose numerator this is.
pub open spec fn refined_numerator(n: int, d: int) -> int {
    n * ((3 * d - n) * (3 * d - n))
}

/// The denominator that goes with `refined_numerator`.
pub open spec fn refined_denominator(d: int) -> int {
    4 * (d * d * d)
}

/// A step of the iteration squares the distance of `v = n / d` from one:
/// the new distance is the old one squared, times `(4 - v) / 4`.
pub proof fn lemma_step_squares_the_error(n: int, d: int)
    ensures
        refined_denominator(d) - refined_numerator(n, d) == (d - n) * (d - n) * (4 * d - n),
{
    assert(4 * (d * d * d) - n * ((3 * d - n) * (3 * d - n)) == (d - n) * (d - n) * (4 * d - n))
        by (nonlinear_arith);
}

/// From `v` between 0.914 and 1.043, one exact step gives a `v` between
/// 0.994 and 1.
proof fn lemma_first_step(n: int, d: int)
    by (nonlinear_arith)
    requires
        d > 0,
        914 * d <= 1000 * n,
        1000 * n <= 1043 * d,
    ensures
        4 * (d * d * d) > 0,
        n * ((3 * d - n) * (3 * d - n)) <= 4 * (d * d * d),
        1000 * (4 * (d * d * d) - n * ((3 * d - n) * (3 * d - n))) <= 6 * (4 * (d * d * d)),
{
    assert(4 * (d * d * d) - n * ((3 * d - n) * (3 * d - n)) == (d - n) * (d - n) * (4 * d - n));
}

/// From `v` between 0.994 and 1, one exact step leaves at most 28 millionths.
proof fn lemma_second_step(n: int, d: int)
    by (nonlinear_arith)
    requires
        d > 0,
        n <= d,
        1000 * (d - n) <= 6 * d,
    ensures
        4 * (d * d * d) > 0,
        n * ((3 * d - n) * (3 * d - n)) <= 4 * (d * d * d),
        1000000 * (4 * (d * d * d) - n * ((3 * d - n) * (3 * d - n))) <= 28 * (4 * (d * d * d)),
{
    assert(4 * (d * d * d) - n * ((3 * d - n) * (3 * d - n)) == (d - n) * (d - n) * (4 * d - n));
}

/// From at most 28 millionths below one, one exact step leaves at most a
/// billionth.
proof fn lemma_third_step(n: int, d: int)
    by (nonlinear_arith)
    requires
        d > 0,
        n <= d,
        1000000 * (d - n) <= 28 * d,
    ensures
        4 * (d * d * d) > 0,
        n * ((3 * d - n) * (3 * d - n)) <= 4 * (d * d * d),
        1000000000 * (4 * (d * d * d) - n * ((3 * d - n) * (3 * d - n))) <= 4 * (d * d * d),
{
    assert(4 * (d * d * d) - n * ((3 * d - n) * (3 * d - n)) == (d - n) * (d - n) * (4 * d - n));
}

/// Three steps of Newton's iteration, carried out without rounding, bring
/// `v = y * y * x` from anywhere between 0.914 and 1.043 to within a
/// billionth below one.
///
/// This is why the guess is refined three times. It speaks of exact
/// arithmetic; on doubles every operation of a step is rounded as well.
pub proof fn lemma_three_exact_steps(n: int, d: int)
    requires
        d > 0,
        914 * d <= 1000 * n,
        1000 * n <= 1043 * d,
    ensures
        ({
            let n1 = refined_numerator(n, d);
            let d1 = refined_denominator(d);
            let n2 = refined_numerator(n1, d1);
            let d2 = refined_denominator(d1);
            let n3 = refined_numerator(n2, d2);
            let d3 = refined_denominator(d2);
            &&& d3 > 0
            &&& n3 <= d3
            &&& 1000000000 * (d3 - n3) <= d3
        }),
{
    let n1 = refined_numerator(n, d);
    let d1 = refined_denominator(d);
    let n2 = refined_numerator(n1, d1);
    let d2 = refined_denominator(d1);
    lemma_first_step(n, d);
    lemma_second_step(n1, d1);
    lemma_third_step(n2, d2);
}

/// For every normal input of the domain, three exact steps from the guess
/// end within a billionth of the reciprocal square root, measured on
/// `y * y * x`.
pub proof fn lemma_seed_refines_in_three_steps(x: Binary64)
    requires
        in_domain(x),
        x.normal(),
    ensures
        ({
            let y = Binary64 { bits: seed_pattern(x.bits) };
            let n = squared_times(y, x) as int;
            let d = unit_cube() as int;
            let n1 = refined_numerator(n, d);
            let d1 = refined_denominator(d);
            let n2 = refined_numerator(n1, d1);
            let d2 = refined_denominator(d1);
            let n3 = refined_numerator(n2, d2);
            let d3 = refined_denominator(d2);
            &&& d3 > 0
            &&& n3 <= d3
            &&& 1000000000 * (d3 - n3) <= d3
        }),
{
    let y = Binary64 { bits: seed_pattern(x.bits) };
    lemma_seed_is_near_reciprocal_root(x);
    lemma_pow2_pos(1074);
    let u = unit() as int;
    assert(u * u * u > 0) by (nonlinear_arith)
        requires
            u > 0,
    ;
    let n = squared_times(y, x) as int;
    let d = unit_cube() as int;
    lemma_three_exact_steps(n, d);
}

} // verus!
