use diploma_thesis::scalar::{Scalar, INFINITY_BITS, NINETY_BITS, ONE_BITS, SIGN_BIT, ZERO_BITS};

fn s(x: f32) -> Scalar {
    Scalar::from_bits(x.to_bits())
}

fn samples() -> Vec<f32> {
    vec![
        0.0,
        -0.0,
        1.0,
        -1.0,
        0.5,
        1.5,
        45.0,
        90.0,
        90.0001,
        95.0,
        -90.0,
        f32::MIN_POSITIVE,
        -f32::MIN_POSITIVE,
        1.0e-45,
        -1.0e-45,
        f32::MAX,
        f32::MIN,
        f32::INFINITY,
        f32::NEG_INFINITY,
        f32::NAN,
        -f32::NAN,
        f32::EPSILON,
        3.4028235e38,
        1.17549435e-38,
    ]
}

#[test]
fn named_patterns_are_the_values_they_name() {
    assert_eq!(ZERO_BITS, 0.0f32.to_bits());
    assert_eq!(ONE_BITS, 1.0f32.to_bits());
    assert_eq!(NINETY_BITS, 90.0f32.to_bits());
    assert_eq!(INFINITY_BITS, f32::INFINITY.to_bits());
    assert_eq!(SIGN_BIT, (-0.0f32).to_bits());
    assert_eq!(Scalar::zero(), s(0.0));
    assert_eq!(Scalar::one(), s(1.0));
    assert_eq!(Scalar::ninety(), s(90.0));
}

#[test]
fn bits_round_trip() {
    for x in samples() {
        assert_eq!(s(x).to_bits(), x.to_bits());
        assert_eq!(f32::from_bits(s(x).to_bits()).to_bits(), x.to_bits());
    }
}

#[test]
fn is_nan_agrees_with_the_hardware() {
    for x in samples() {
        assert_eq!(s(x).is_nan(), x.is_nan(), "{x}");
    }
}

#[test]
fn le_agrees_with_the_hardware() {
    for x in samples() {
        for y in samples() {
            assert_eq!(s(x).le(s(y)), x <= y, "{x} <= {y}");
        }
    }
}

#[test]
fn lt_agrees_with_the_hardware() {
    for x in samples() {
        for y in samples() {
            assert_eq!(s(x).lt(s(y)), x < y, "{x} < {y}");
        }
    }
}

#[test]
fn within_agrees_with_range_contains() {
    for x in samples() {
        assert_eq!(s(x).within(s(0.0), s(90.0)), (0.0..=90.0).contains(&x), "{x}");
        assert_eq!(s(x).within(s(0.0), s(1.0)), (0.0..=1.0).contains(&x), "{x}");
        assert_eq!(s(x).within(s(-1.0), s(1.0)), (-1.0..=1.0).contains(&x), "{x}");
    }
}

#[test]
fn both_zeros_compare_equal_but_are_different_scalars() {
    assert!(s(0.0).le(s(-0.0)));
    assert!(s(-0.0).le(s(0.0)));
    assert!(!s(0.0).lt(s(-0.0)));
    assert_ne!(s(0.0), s(-0.0));
}

#[test]
fn nan_is_in_no_range_but_equals_itself() {
    let nan = s(f32::NAN);
    assert!(!nan.le(nan));
    assert!(!nan.within(s(f32::NEG_INFINITY), s(f32::INFINITY)));
    assert_eq!(nan, nan);
}

#[test]
fn neighbours_of_ninety_are_told_apart() {
    let below = f32::from_bits(NINETY_BITS - 1);
    let above = f32::from_bits(NINETY_BITS + 1);
    assert!(s(below).within(s(0.0), s(90.0)));
    assert!(s(90.0).within(s(0.0), s(90.0)));
    assert!(!s(above).within(s(0.0), s(90.0)));
}
