use nbody::simulation::scalar::{clamp, is_nan, key, less, magnitude, min, INFINITY, ONE, SIGN, ZERO};

fn samples() -> Vec<f32> {
    vec![
        0.0,
        -0.0,
        1.0,
        -1.0,
        0.1,
        0.099999,
        0.10000001,
        10.0,
        9.999999,
        10.000001,
        0.016,
        0.0159,
        0.0161,
        1.0e-40,
        -1.0e-40,
        f32::MIN_POSITIVE,
        f32::MAX,
        f32::MIN,
        f32::INFINITY,
        f32::NEG_INFINITY,
        f32::NAN,
        -f32::NAN,
        6.2831855,
        3.25,
        -7.5,
        1234.5,
    ]
}

#[test]
fn named_patterns_are_the_numbers_they_name() {
    assert_eq!(ZERO, 0.0f32.to_bits());
    assert_eq!(ONE, 1.0f32.to_bits());
    assert_eq!(INFINITY, f32::INFINITY.to_bits());
    assert_eq!(SIGN, (-0.0f32).to_bits());
}

#[test]
fn magnitude_is_the_absolute_value() {
    for x in samples() {
        assert_eq!(magnitude(x.to_bits()), x.abs().to_bits());
    }
}

#[test]
fn is_nan_agrees_with_the_numbers() {
    for x in samples() {
        assert_eq!(is_nan(x.to_bits()), x.is_nan(), "{x}");
    }
    assert!(is_nan(0x7F80_0001));
    assert!(is_nan(0xFFFF_FFFF));
    assert!(!is_nan(0x7F80_0000));
    assert!(!is_nan(0xFF80_0000));
}

#[test]
fn key_orders_both_zeroes_alike() {
    assert_eq!(key(0.0f32.to_bits()), 0);
    assert_eq!(key((-0.0f32).to_bits()), 0);
    assert_eq!(key(1.0f32.to_bits()), 0x3F80_0000);
    assert_eq!(key((-1.0f32).to_bits()), -0x3F80_0000);
}

#[test]
fn less_agrees_with_the_numbers() {
    for a in samples() {
        for b in samples() {
            assert_eq!(less(a.to_bits(), b.to_bits()), a < b, "{a} < {b}");
        }
    }
}

#[test]
fn clamp_agrees_with_the_numbers() {
    let bounds = [(0.1f32, 10.0f32), (0.0, 1.0), (-2.0, 3.0), (-5.0, -1.0), (4.0, 4.0)];
    for (lo, hi) in bounds {
        for x in samples() {
            let got = clamp(x.to_bits(), lo.to_bits(), hi.to_bits());
            let want = x.clamp(lo, hi);
            if want.is_nan() {
                assert_eq!(got, x.to_bits());
            } else {
                assert_eq!(got, want.to_bits(), "clamp({x}, {lo}, {hi})");
            }
        }
    }
}

#[test]
fn clamp_exact_values() {
    assert_eq!(clamp(25.0f32.to_bits(), 0.1f32.to_bits(), 10.0f32.to_bits()), 0x4120_0000);
    assert_eq!(clamp(0.01f32.to_bits(), 0.1f32.to_bits(), 10.0f32.to_bits()), 0x3DCC_CCCD);
    assert_eq!(clamp(2.5f32.to_bits(), 0.1f32.to_bits(), 10.0f32.to_bits()), 0x4020_0000);
}

#[test]
fn min_agrees_with_the_numbers() {
    for a in samples() {
        for b in samples() {
            let got = f32::from_bits(min(a.to_bits(), b.to_bits()));
            let want = a.min(b);
            if want.is_nan() {
                assert!(got.is_nan());
            } else {
                assert_eq!(got, want, "min({a}, {b})");
            }
        }
    }
}

#[test]
fn min_exact_values() {
    assert_eq!(min(0.5f32.to_bits(), 0.016f32.to_bits()), 0x3C83_126F);
    assert_eq!(min(0.004f32.to_bits(), 0.016f32.to_bits()), 0.004f32.to_bits());
    assert_eq!(min(f32::NAN.to_bits(), 0.016f32.to_bits()), 0x3C83_126F);
}
