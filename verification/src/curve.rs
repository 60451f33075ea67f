//! Curve styles and the raw parameters they stand for.
//!
//! A style names a response character; its raw parameters are the frequency
//! `f`, the damping ratio `z` and the initial response `r` that the filter
//! coefficients are then derived from. A style whose frequency is not above
//! zero would divide by zero in that derivation, so it is turned down here,
//! before any coefficient exists.

use vstd::prelude::*;
use crate::binary64::{Binary64, ONE_BITS, SIGN_BIT, TEN_BITS, TWO_BITS, ZERO_BITS};

verus! {

/// The response character of a tracker, chosen once when it is built.
#[derive(Clone, Copy, Debug, PartialEq, Eq, Structural)]
pub enum CurveStyle {
    /// The output follows the input one to one.
    Linear,
    /// A quadratic Bezier response. It has no parameters yet and cannot be built.
    Bezier,
    /// Critical damping: the fastest response that does not overshoot.
    SmoothDamped,
    /// Mechanical movement with a frequency and a damping ratio of the caller's.
    Mechanical { f: Binary64, z: Binary64 },
    /// Frequency, damping ratio and initial response of the caller's.
    Custom { f: Binary64, z: Binary64, r: Binary64 },
}

/// Frequency, damping ratio and initial response of a style, before any
/// coefficient is derived from them.
#[derive(Clone, Copy, Debug, PartialEq, Eq, Structural)]
pub struct RawParameters {
    /// Frequency: how fast the output reacts. Above zero.
    pub f: Binary64,
    /// Damping ratio: how fast an oscillation dies.
    pub z: Binary64,
    /// Initial response: how the output sets off.
    pub r: Binary64,
}

/// Why a style gives no parameters.
#[derive(Clone, Copy, Debug, PartialEq, Eq, Structural)]
pub enum ConfigError {
    /// The style is a placeholder without parameters.
    UnimplementedStyle,
    /// The frequency is zero, below zero or a NaN.
    NonPositiveFrequency,
}

impl CurveStyle {
    /// The style is the placeholder that cannot be built.
    pub open spec fn unimplemented(self) -> bool {
        self is Bezier
    }

    /// The parameters that the style names, whether or not they are usable.
    /// The placeholder names none; the three zeros stand in for them.
    pub open spec fn named_parameters(self) -> RawParameters {
        match self {
            CurveStyle::Linear => RawParameters {
                f: Binary64 { bits: TEN_BITS },
                z: Binary64 { bits: ZERO_BITS },
                r: Binary64 { bits: ONE_BITS },
            },
            CurveStyle::Bezier => RawParameters {
                f: Binary64 { bits: ZERO_BITS },
                z: Binary64 { bits: ZERO_BITS },
                r: Binary64 { bits: ZERO_BITS },
            },
            CurveStyle::SmoothDamped => RawParameters {
                f: Binary64 { bits: ONE_BITS },
                z: Binary64 { bits: ONE_BITS },
                r: Binary64 { bits: ZERO_BITS },
            },
            CurveStyle::Mechanical { f, z } => RawParameters {
                f,
                z,
                r: Binary64 { bits: TWO_BITS },
            },
            CurveStyle::Custom { f, z, r } => RawParameters { f, z, r },
        }
    }

    /// What `raw_parameters` returns: the named parameters of a style that is
    /// implemented and whose frequency is above zero, else the reason.
    pub open spec fn checked_parameters(self) -> Result<RawParameters, ConfigError> {
        if self.unimplemented() {
            Err(ConfigError::UnimplementedStyle)
        } else if !self.named_parameters().f.positive() {
            Err(ConfigError::NonPositiveFrequency)
        } else {
            Ok(self.named_parameters())
        }
    }

    /// The raw parameters of the style, or the reason why it has none.
    ///
    /// `Bezier` is turned down as unimplemented. A frequency that is not
    /// above zero (zero of either sign, a negative number, a NaN) is turned
    /// down as well; it can only come from `Mechanical` or `Custom`.
    pub fn raw_parameters(self) -> (res: Result<RawParameters, ConfigError>)
        ensures
            res == self.checked_parameters(),
            res is Ok <==> !(self is Bezier) && self.named_parameters().f.positive(),
            res is Ok ==> res->Ok_0 == self.named_parameters() && res->Ok_0.f.positive(),
            res == Err::<RawParameters, ConfigError>(ConfigError::UnimplementedStyle)
                <==> self is Bezier,
            res == Err::<RawParameters, ConfigError>(ConfigError::NonPositiveFrequency)
                <==> !(self is Bezier) && !self.named_parameters().f.positive(),
    {
        let named = match self {
            CurveStyle::Linear => RawParameters {
                f: Binary64 { bits: TEN_BITS },
                z: Binary64 { bits: ZERO_BITS },
                r: Binary64 { bits: ONE_BITS },
            },
            CurveStyle::Bezier => {
                return Err(ConfigError::UnimplementedStyle);
            },
            CurveStyle::SmoothDamped => RawParameters {
                f: Binary64 { bits: ONE_BITS },
                z: Binary64 { bits: ONE_BITS },
                r: Binary64 { bits: ZERO_BITS },
            },
            CurveStyle::Mechanical { f, z } => RawParameters {
                f,
                z,
                r: Binary64 { bits: TWO_BITS },
            },
            CurveStyle::Custom { f, z, r } => RawParameters { f, z, r },
        };
        if named.f.is_positive() {
            Ok(named)
        } else {
            Err(ConfigError::NonPositiveFrequency)
        }
    }
}

/// The two styles without parameters of the caller's always give parameters,
/// and the placeholder never does.
pub proof fn lemma_fixed_styles()
    ensures
        CurveStyle::Linear.checked_parameters() is Ok,
        CurveStyle::SmoothDamped.checked_parameters() is Ok,
        CurveStyle::Bezier.checked_parameters() is Err,
{
}

/// `Custom` and `Mechanical` give parameters exactly when their frequency is
/// above zero, whatever the other parameters are.
pub proof fn lemma_frequency_must_be_positive(f: Binary64, z: Binary64, r: Binary64)
    ensures
        (CurveStyle::Custom { f, z, r }).checked_parameters() is Ok <==> f.positive(),
        (CurveStyle::Mechanical { f, z }).checked_parameters() is Ok <==> f.positive(),
        !f.positive() ==> (CurveStyle::Custom { f, z, r }).checked_parameters() == Err::<
            RawParameters,
            ConfigError,
        >(ConfigError::NonPositiveFrequency),
        !f.positive() ==> (CurveStyle::Mechanical { f, z }).checked_parameters() == Err::<
            RawParameters,
            ConfigError,
        >(ConfigError::NonPositiveFrequency),
{
}

/// A frequency of zero, of either sign, is turned down.
pub proof fn lemma_zero_frequency_is_rejected(z: Binary64, r: Binary64)
    ensures
        (CurveStyle::Custom { f: Binary64 { bits: ZERO_BITS }, z, r }).checked_parameters() is Err,
        (CurveStyle::Custom { f: Binary64 { bits: SIGN_BIT }, z, r }).checked_parameters() is Err,
        (CurveStyle::Mechanical { f: Binary64 { bits: ZERO_BITS }, z }).checked_parameters() is Err,
        (CurveStyle::Mechanical { f: Binary64 { bits: SIGN_BIT }, z }).checked_parameters() is Err,
{
}

} // verus!
