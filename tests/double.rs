use rays::double::Double;
use rays::double::ONE_BITS;

fn d(x: f64) -> Double {
    Double::from_bits(x.to_bits())
}

#[test]
fn order_agrees_with_f64() {
    let xs = [
        -f64::INFINITY,
        -1e300,
        -2.5,
        -1.0,
        -1e-300,
        -0.0,
        0.0,
        1e-300,
        0.001,
        1.0,
        4.0,
        1e300,
        f64::INFINITY,
        f64::NAN,
    ];
    for a in xs {
        for b in xs {
            assert_eq!(d(a).lt(d(b)), a < b, "{} < {}", a, b);
            assert_eq!(d(a).le(d(b)), a <= b, "{} <= {}", a, b);
            assert_eq!(d(a).abs_lt(d(b)), a.abs() < b.abs(), "|{}| < |{}|", a, b);
        }
    }
}

#[test]
fn zeros_compare_equal() {
    assert!(!d(-0.0).lt(d(0.0)));
    assert!(d(-0.0).le(d(0.0)));
    assert!(d(0.0).le(d(-0.0)));
}

#[test]
fn nan_is_recognised() {
    assert!(d(f64::NAN).is_nan());
    assert!(d(-f64::NAN).is_nan());
    assert!(!d(f64::INFINITY).is_nan());
    assert!(!d(-f64::INFINITY).is_nan());
    assert!(!d(0.0).is_nan());
}

#[test]
fn constants_are_their_values() {
    assert_eq!(Double::one().bits, 1.0f64.to_bits());
    assert_eq!(ONE_BITS, 1.0f64.to_bits());
    assert_eq!(Double::zero().bits, 0.0f64.to_bits());
}
