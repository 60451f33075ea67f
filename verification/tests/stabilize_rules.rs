use gamelibs::binary64::Binary64;
use gamelibs::stabilize::{clamped_k2, select_stabilization, Stabilization, DAMPING_THRESHOLD_BITS};

fn b(x: f64) -> Binary64 {
    Binary64::from_bits(x.to_bits())
}

fn expected(omega_dt: f64, zeta: f64) -> Stabilization {
    if omega_dt < zeta {
        Stabilization::Clamp
    } else if zeta <= 1.0 {
        Stabilization::PoleMatchCos
    } else {
        Stabilization::PoleMatchCosh
    }
}

#[test]
fn threshold_is_plus_zero() {
    assert_eq!(DAMPING_THRESHOLD_BITS, 0.0f64.to_bits());
}

#[test]
fn small_step_is_clamped() {
    assert_eq!(select_stabilization(b(0.1), b(0.5)), Stabilization::Clamp);
    assert_eq!(select_stabilization(b(0.1), b(7.0)), Stabilization::Clamp);
}

#[test]
fn large_step_matches_poles_with_cosine() {
    assert_eq!(select_stabilization(b(0.5), b(0.5)), Stabilization::PoleMatchCos);
    assert_eq!(select_stabilization(b(2.0), b(1.0)), Stabilization::PoleMatchCos);
    assert_eq!(select_stabilization(b(2.0), b(-1.0)), Stabilization::PoleMatchCos);
}

#[test]
fn overdamped_large_step_matches_poles_with_hyperbolic_cosine() {
    assert_eq!(select_stabilization(b(2.0), b(1.5)), Stabilization::PoleMatchCosh);
    assert_eq!(
        select_stabilization(b(2.0), b(1.0 + f64::EPSILON)),
        Stabilization::PoleMatchCosh
    );
}

#[test]
fn nan_falls_through_the_comparisons() {
    assert_eq!(select_stabilization(b(f64::NAN), b(0.5)), Stabilization::PoleMatchCos);
    assert_eq!(select_stabilization(b(f64::NAN), b(1.5)), Stabilization::PoleMatchCosh);
    assert_eq!(select_stabilization(b(0.5), b(f64::NAN)), Stabilization::PoleMatchCosh);
}

#[test]
fn selection_agrees_with_the_hardware() {
    let values = [
        -f64::INFINITY,
        -3.0,
        -1.0e-300,
        -0.0,
        0.0,
        1.0e-300,
        0.5,
        1.0,
        1.0 + f64::EPSILON,
        2.0,
        1.0e300,
        f64::INFINITY,
        f64::NAN,
    ];
    for &w in &values {
        for &z in &values {
            assert_eq!(select_stabilization(b(w), b(z)), expected(w, z), "{:e} {:e}", w, z);
        }
    }
}

#[test]
fn with_the_built_in_threshold_only_a_negative_step_is_clamped() {
    let zeta = Binary64::from_bits(DAMPING_THRESHOLD_BITS);
    assert_eq!(select_stabilization(b(-1.0e-9), zeta), Stabilization::Clamp);
    assert_eq!(select_stabilization(b(-0.0), zeta), Stabilization::PoleMatchCos);
    assert_eq!(select_stabilization(b(0.0), zeta), Stabilization::PoleMatchCos);
    assert_eq!(select_stabilization(b(1.0e-9), zeta), Stabilization::PoleMatchCos);
    assert_eq!(select_stabilization(b(62.8), zeta), Stabilization::PoleMatchCos);
    assert_eq!(select_stabilization(b(f64::INFINITY), zeta), Stabilization::PoleMatchCos);
}

#[test]
fn clamp_keeps_the_largest_candidate() {
    assert_eq!(clamped_k2(b(0.25), b(0.125), b(0.0625)), b(0.25));
    assert_eq!(clamped_k2(b(0.125), b(0.25), b(0.0625)), b(0.25));
    assert_eq!(clamped_k2(b(0.125), b(0.0625), b(0.25)), b(0.25));
    assert_eq!(clamped_k2(b(-1.0), b(-2.0), b(-3.0)), b(-1.0));
}

#[test]
fn clamp_agrees_with_the_hardware_in_value() {
    let values = [-2.0, -0.0, 0.0, 1.0e-300, 0.5, 3.0, f64::INFINITY, f64::NAN];
    for &k in &values {
        for &h in &values {
            for &s in &values {
                let kept = clamped_k2(b(k), b(h), b(s));
                let hardware = f64::max(k, f64::max(h, s));
                if hardware.is_nan() {
                    assert!(kept.is_nan());
                } else {
                    assert!(f64::from_bits(kept.to_bits()) == hardware);
                }
            }
        }
    }
}

#[test]
fn clamp_ignores_a_nan_candidate() {
    assert_eq!(clamped_k2(b(f64::NAN), b(0.5), b(0.25)), b(0.5));
    assert_eq!(clamped_k2(b(0.5), b(f64::NAN), b(0.25)), b(0.5));
    assert_eq!(clamped_k2(b(0.5), b(0.25), b(f64::NAN)), b(0.5));
    assert!(clamped_k2(b(f64::NAN), b(f64::NAN), b(f64::NAN)).is_nan());
}

#[test]
fn clamp_formula_for_a_small_step() {
    // k1 = 0.5, k2 = 0.001, dt = 0.1: the bounds are 0.03 and 0.05.
    let dt: f64 = 0.1;
    let k1: f64 = 0.5;
    let k2: f64 = 0.001;
    let half_step = dt * dt * 0.5 + dt * k1 * 0.5;
    let full_step = dt * k1;
    let kept = clamped_k2(b(k2), b(half_step), b(full_step));
    assert_eq!(f64::from_bits(kept.to_bits()), 0.05);
}
