use gamelibs::binary64::{Binary64, INFINITY_MAGNITUDE, ONE_BITS, SIGN_BIT, TEN_BITS, TWO_BITS, ZERO_BITS};

fn b(x: f64) -> Binary64 {
    Binary64::from_bits(x.to_bits())
}

fn samples() -> Vec<f64> {
    vec![
        0.0,
        -0.0,
        f64::from_bits(1),
        -f64::from_bits(1),
        f64::MIN_POSITIVE,
        -f64::MIN_POSITIVE,
        f64::from_bits(0x000F_FFFF_FFFF_FFFF),
        1.0e-300,
        0.25,
        0.5,
        1.0,
        1.0 + f64::EPSILON,
        1.5,
        2.0,
        10.0,
        -1.0,
        -2.5,
        -1.0e300,
        1.0e300,
        f64::MAX,
        f64::MIN,
        f64::INFINITY,
        f64::NEG_INFINITY,
        f64::NAN,
        -f64::NAN,
        f64::from_bits(0x7FF0_0000_0000_0001),
        f64::from_bits(0xFFFF_FFFF_FFFF_FFFF),
    ]
}

#[test]
fn constants_are_the_named_numbers() {
    assert_eq!(ZERO_BITS, 0.0f64.to_bits());
    assert_eq!(ONE_BITS, 1.0f64.to_bits());
    assert_eq!(TWO_BITS, 2.0f64.to_bits());
    assert_eq!(TEN_BITS, 10.0f64.to_bits());
    assert_eq!(SIGN_BIT, (-0.0f64).to_bits());
    assert_eq!(INFINITY_MAGNITUDE, f64::INFINITY.to_bits());
}

#[test]
fn bits_round_trip() {
    for x in samples() {
        assert_eq!(b(x).to_bits(), x.to_bits());
        assert_eq!(Binary64::from_bits(x.to_bits()), Binary64 { bits: x.to_bits() });
    }
}

#[test]
fn is_nan_agrees_with_the_hardware() {
    for x in samples() {
        assert_eq!(b(x).is_nan(), x.is_nan(), "{:e}", x);
    }
}

#[test]
fn is_positive_agrees_with_the_hardware() {
    for x in samples() {
        assert_eq!(b(x).is_positive(), x > 0.0, "{:e}", x);
    }
    assert!(b(f64::INFINITY).is_positive());
    assert!(!b(0.0).is_positive());
    assert!(!b(-0.0).is_positive());
    assert!(!b(f64::NAN).is_positive());
}

#[test]
fn lt_agrees_with_the_hardware() {
    for x in samples() {
        for y in samples() {
            assert_eq!(b(x).lt(b(y)), x < y, "{:e} < {:e}", x, y);
        }
    }
}

#[test]
fn le_agrees_with_the_hardware() {
    for x in samples() {
        for y in samples() {
            assert_eq!(b(x).le(b(y)), x <= y, "{:e} <= {:e}", x, y);
        }
    }
}

#[test]
fn the_two_zeros_are_equal_in_value_not_in_pattern() {
    assert!(!b(-0.0).lt(b(0.0)));
    assert!(!b(0.0).lt(b(-0.0)));
    assert!(b(-0.0).le(b(0.0)));
    assert!(b(0.0).le(b(-0.0)));
    assert_ne!(b(0.0), b(-0.0));
}

#[test]
fn a_nan_compares_with_nothing() {
    let nan = b(f64::NAN);
    assert!(!nan.lt(nan));
    assert!(!nan.le(nan));
    assert!(!nan.lt(b(1.0)));
    assert!(!b(1.0).lt(nan));
    assert!(!nan.le(b(f64::INFINITY)));
    assert!(!b(f64::NEG_INFINITY).le(nan));
}

#[test]
fn order_is_strict_and_total_on_numbers() {
    for x in samples() {
        assert!(!b(x).lt(b(x)));
        for y in samples() {
            if b(x).lt(b(y)) {
                assert!(!b(y).lt(b(x)));
                assert!(b(x).le(b(y)));
            }
            if !x.is_nan() && !y.is_nan() {
                assert!(b(x).lt(b(y)) || b(y).lt(b(x)) || (b(x).le(b(y)) && b(y).le(b(x))));
            }
            for z in samples() {
                if b(x).lt(b(y)) && b(y).lt(b(z)) {
                    assert!(b(x).lt(b(z)));
                }
            }
        }
    }
}

#[test]
fn max_agrees_with_the_hardware_in_value() {
    for x in samples() {
        for y in samples() {
            let m = b(x).max(b(y));
            assert!(m == b(x) || m == b(y));
            let h = x.max(y);
            if h.is_nan() {
                assert!(m.is_nan());
            } else {
                assert!(!m.is_nan());
                assert!(f64::from_bits(m.to_bits()) == h, "max({:e}, {:e})", x, y);
            }
        }
    }
}

#[test]
fn max_prefers_a_number_to_a_nan() {
    assert_eq!(b(f64::NAN).max(b(3.0)), b(3.0));
    assert_eq!(b(3.0).max(b(f64::NAN)), b(3.0));
    assert_eq!(b(-7.0).max(b(3.0)), b(3.0));
    assert_eq!(b(3.0).max(b(-7.0)), b(3.0));
    assert_eq!(b(0.0).max(b(-0.0)), b(0.0));
    assert_eq!(b(-0.0).max(b(0.0)), b(-0.0));
    assert!(b(f64::NAN).max(b(f64::NAN)).is_nan());
}
