//! Verified decisions behind a second-order smoothing tracker and the seed of
//! a fast reciprocal square root, stated over IEEE-754 binary64 bit patterns.

pub mod binary64;
pub mod value;
pub mod rsqrt;
pub mod accuracy;
pub mod curve;
pub mod stabilize;
