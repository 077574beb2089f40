use scip_core::reals::{Real, INFINITY_BITS, SIGN_BIT};

fn val(x: f64) -> Real {
    Real::from_bits(x.to_bits())
}

fn samples() -> Vec<f64> {
    vec![
        0.0,
        -0.0,
        1.0,
        -1.0,
        0.5,
        -0.5,
        3.0,
        4.0,
        100.0,
        -100.0,
        1e300,
        -1e300,
        f64::MIN_POSITIVE,
        -f64::MIN_POSITIVE,
        5e-324,
        -5e-324,
        f64::MAX,
        f64::MIN,
        f64::EPSILON,
        f64::INFINITY,
        f64::NEG_INFINITY,
        f64::NAN,
        -f64::NAN,
        f64::from_bits(0x7ff0_0000_0000_0001),
        f64::from_bits(0xffff_ffff_ffff_ffff),
    ]
}

#[test]
fn bits_pass_through_unchanged() {
    for x in samples() {
        assert_eq!(val(x).to_bits(), x.to_bits());
        assert_eq!(Real::from_bits(x.to_bits()).bits, x.to_bits());
    }
    assert_eq!(Real::from_bits(0x4008_0000_0000_0000).to_bits(), 3.0f64.to_bits());
}

#[test]
fn infinities_are_the_machine_s() {
    assert_eq!(Real::infinity().to_bits(), f64::INFINITY.to_bits());
    assert_eq!(Real::neg_infinity().to_bits(), f64::NEG_INFINITY.to_bits());
    assert_eq!(INFINITY_BITS, f64::INFINITY.to_bits());
    assert_eq!(SIGN_BIT, (-0.0f64).to_bits());
}

#[test]
fn nan_is_told_as_the_machine_tells_it() {
    for x in samples() {
        assert_eq!(val(x).is_nan(), x.is_nan(), "{:?}", x);
    }
}

#[test]
fn order_is_the_machine_s_order() {
    for a in samples() {
        for b in samples() {
            assert_eq!(val(a).le(val(b)), a <= b, "{:?} <= {:?}", a, b);
        }
    }
}

#[test]
fn order_on_chosen_values() {
    assert!(val(0.).le(val(f64::INFINITY)));
    assert!(val(-0.).le(val(0.)));
    assert!(val(0.).le(val(-0.)));
    assert!(val(-1.).le(val(-0.5)));
    assert!(!val(-0.5).le(val(-1.)));
    assert!(val(2.).le(val(2.)));
    assert!(!val(1.).le(val(0.)));
    assert!(!val(f64::NAN).le(val(f64::NAN)));
    assert!(val(f64::NEG_INFINITY).le(val(f64::MIN)));
}
