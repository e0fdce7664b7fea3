use ray_tracer::scalar::{Scalar, EPSILON_BITS, INFINITY_BITS, ONE_BITS, SIGN_BIT, ZERO_BITS};

fn s(x: f64) -> Scalar {
    Scalar::from_bits(x.to_bits())
}

fn f(x: Scalar) -> f64 {
    f64::from_bits(x.to_bits())
}

fn samples() -> Vec<f64> {
    vec![
        0.0,
        -0.0,
        1.0,
        -1.0,
        0.5,
        -0.5,
        2.0,
        -2.0,
        0.0001,
        -0.0001,
        1e-300,
        -1e-300,
        5e-324,
        -5e-324,
        f64::MIN_POSITIVE,
        f64::MAX,
        f64::MIN,
        f64::INFINITY,
        f64::NEG_INFINITY,
        f64::NAN,
        -f64::NAN,
        f64::from_bits(0x7FF0_0000_0000_0001),
        f64::from_bits(0xFFFF_FFFF_FFFF_FFFF),
        3.5,
        200.0,
        1e308,
    ]
}

#[test]
fn bits_go_in_and_out_unchanged() {
    for x in samples() {
        assert_eq!(s(x).to_bits(), x.to_bits());
        assert_eq!(Scalar::from_bits(x.to_bits()).bits, x.to_bits());
    }
    assert_eq!(Scalar::from_bits(0x1234_5678_9ABC_DEF0).to_bits(), 0x1234_5678_9ABC_DEF0);
}

#[test]
fn named_numbers() {
    assert_eq!(f(Scalar::zero()), 0.0);
    assert_eq!(Scalar::zero().to_bits(), 0.0_f64.to_bits());
    assert_eq!(f(Scalar::one()), 1.0);
    assert_eq!(f(Scalar::epsilon()), 0.0001);
    assert_eq!(ZERO_BITS, 0.0_f64.to_bits());
    assert_eq!(ONE_BITS, 1.0_f64.to_bits());
    assert_eq!(EPSILON_BITS, 0.0001_f64.to_bits());
    assert_eq!(INFINITY_BITS, f64::INFINITY.to_bits());
    assert_eq!(SIGN_BIT, (-0.0_f64).to_bits());
}

#[test]
fn comparisons_are_those_of_the_numbers() {
    for a in samples() {
        for b in samples() {
            assert_eq!(s(a).lt(&s(b)), a < b, "{a} < {b}");
            assert_eq!(s(a).le(&s(b)), a <= b, "{a} <= {b}");
            assert_eq!(s(a).gt(&s(b)), a > b, "{a} > {b}");
            assert_eq!(s(a).ge(&s(b)), a >= b, "{a} >= {b}");
            assert_eq!(s(a) == s(b), a == b, "{a} == {b}");
            assert_eq!(s(a) != s(b), a != b, "{a} != {b}");
        }
    }
}

#[test]
fn total_order_is_that_of_the_encodings() {
    for a in samples() {
        for b in samples() {
            assert_eq!(
                s(a).total_lt(&s(b)),
                a.total_cmp(&b) == std::cmp::Ordering::Less,
                "{a} before {b}"
            );
        }
    }
}

#[test]
fn sign_changes() {
    for a in samples() {
        assert_eq!((-s(a)).to_bits(), (-a).to_bits());
        assert_eq!(s(a).abs().to_bits(), a.abs().to_bits());
        assert_eq!((-(-s(a))).to_bits(), a.to_bits());
        assert_eq!(s(a).is_nan(), a.is_nan());
    }
    assert_eq!(f(-s(2.5)), -2.5);
    assert_eq!(f(s(-2.5).abs()), 2.5);
}

#[test]
fn exact_comparisons() {
    assert!(s(2.0).lt(&s(3.0)));
    assert!(!s(3.0).lt(&s(2.0)));
    assert!(!s(2.0).lt(&s(2.0)));
    assert!(s(-3.0).lt(&s(-2.0)));
    assert!(s(-0.0) == s(0.0));
    assert!(!s(-0.0).lt(&s(0.0)));
    assert!(s(-0.0).total_lt(&s(0.0)));
    assert!(!s(f64::NAN).le(&s(f64::NAN)));
    assert!(s(f64::NAN) != s(f64::NAN));
    assert!(s(f64::INFINITY).total_lt(&s(f64::NAN)));
    assert!(s(-f64::NAN).total_lt(&s(f64::NEG_INFINITY)));
}
