//! The decisions of one tracker step.
//!
//! Each tick the tracker replaces its two damping coefficients by stable
//! ones before it integrates. Which rule gives them depends on how the step,
//! scaled by the natural frequency, compares with the damping threshold; the
//! arithmetic of either rule is floating point and is done by the caller,
//! who asks here which rule applies and which candidate the clamp keeps.
//!
//! The threshold is a field of its own and is not taken from the damping
//! ratio of the curve: every curve is built with a threshold of zero. The
//! clamp is therefore left to steps below zero, which
//! `lemma_clamp_needs_negative_step` states; the rules are kept as they are
//! for a caller that sets another threshold.

use vstd::prelude::*;
use crate::binary64::{Binary64, ONE_BITS, ZERO_BITS};

verus! {

/// Pattern of the damping threshold that every curve is built with: `+0`.
pub const DAMPING_THRESHOLD_BITS: u64 = ZERO_BITS;

/// The rule that gives the stable coefficients of a step.
#[derive(Clone, Copy, Debug, PartialEq, Eq, Structural)]
pub enum Stabilization {
    /// Keep the first coefficient and clamp the second from below.
    Clamp,
    /// Match the poles of the continuous system, with a cosine.
    PoleMatchCos,
    /// Match the poles of the continuous system, with a hyperbolic cosine.
    PoleMatchCosh,
}

/// The rule for a step, by the scaled step `omega_dt` and the threshold `zeta`.
///
/// The clamp applies when `omega_dt < zeta`. Otherwise the poles are matched,
/// with the cosine when `zeta <= 1` and the hyperbolic cosine when not. A NaN
/// makes each comparison false.
pub open spec fn stabilization_for(omega_dt: Binary64, zeta: Binary64) -> Stabilization {
    if omega_dt.less(zeta) {
        Stabilization::Clamp
    } else if zeta.less_eq(Binary64 { bits: ONE_BITS }) {
        Stabilization::PoleMatchCos
    } else {
        Stabilization::PoleMatchCosh
    }
}

/// Selects the rule that gives the stable coefficients of a step.
///
/// `omega_dt` is the natural frequency times the step, `zeta` the damping
/// threshold of the curve.
pub fn select_stabilization(omega_dt: Binary64, zeta: Binary64) -> (rule: Stabilization)
    ensures
        rule == stabilization_for(omega_dt, zeta),
        rule is Clamp <==> omega_dt.less(zeta),
        rule is PoleMatchCos <==> !omega_dt.less(zeta) && zeta.less_eq(Binary64 { bits: ONE_BITS }),
        rule is PoleMatchCosh <==> !omega_dt.less(zeta) && !zeta.less_eq(
            Binary64 { bits: ONE_BITS },
        ),
{
    if omega_dt.lt(zeta) {
        Stabilization::Clamp
    } else if zeta.le(Binary64 { bits: ONE_BITS }) {
        Stabilization::PoleMatchCos
    } else {
        Stabilization::PoleMatchCosh
    }
}

/// The second coefficient under the clamp: the largest of the coefficient
/// `k2` itself and the two bounds `half_step` and `full_step` that the step
/// size puts on it. A NaN among them gives way to a number.
pub open spec fn largest_of(k2: Binary64, half_step: Binary64, full_step: Binary64) -> Binary64 {
    k2.larger(half_step.larger(full_step))
}

/// Picks the second coefficient under the clamp.
///
/// `half_step` is `dt*dt/2 + dt*k1/2` and `full_step` is `dt*k1`, as the
/// caller computed them.
pub fn clamped_k2(k2: Binary64, half_step: Binary64, full_step: Binary64) -> (kept: Binary64)
    ensures
        kept == largest_of(k2, half_step, full_step),
        kept == k2 || kept == half_step || kept == full_step,
        kept.nan() <==> k2.nan() && half_step.nan() && full_step.nan(),
        !k2.nan() ==> k2.less_eq(kept),
        !half_step.nan() ==> half_step.less_eq(kept),
        !full_step.nan() ==> full_step.less_eq(kept),
{
    k2.max(half_step.max(full_step))
}

/// With the threshold every curve is built with, the clamp is chosen for a
/// scaled step below zero and for no other: a step of zero or more always
/// has its poles matched with the cosine, and the hyperbolic cosine is never
/// used.
pub proof fn lemma_clamp_needs_negative_step(omega_dt: Binary64)
    ensures
        ({
            let rule = stabilization_for(omega_dt, Binary64 { bits: DAMPING_THRESHOLD_BITS });
            &&& rule is Clamp <==> !omega_dt.nan() && omega_dt.ordinal() < 0
            &&& !(rule is Clamp) ==> rule is PoleMatchCos
            &&& !(rule is PoleMatchCosh)
        }),
{
}

/// The clamp never lowers the second coefficient, and keeps it where both
/// bounds are at most the coefficient.
pub proof fn lemma_clamp_keeps_large_k2(k2: Binary64, half_step: Binary64, full_step: Binary64)
    requires
        !k2.nan(),
        half_step.nan() || half_step.less_eq(k2),
        full_step.nan() || full_step.less_eq(k2),
    ensures
        largest_of(k2, half_step, full_step).ordinal() == k2.ordinal(),
        !largest_of(k2, half_step, full_step).nan(),
{
}

} // verus!
