//! Holds the bit-level IEEE-754 model against the host's native float
//! semantics: ordering, absolute value, negation and the zero test must agree
//! with `f64`/`f32` operations on every class of value.

use baseball_flight::common::{fixed_spin_rate, F32_ONE_BITS};
use baseball_flight::ieee::{abs64, ge64, is_nan64, is_zero32, lt64, neg32, neg64};

fn sample_values() -> Vec<f64> {
    vec![
        0.0,
        -0.0,
        1.0,
        -1.0,
        0.5,
        -0.5,
        1.5,
        2.0,
        -2.0,
        140.8,
        -140.8,
        1e-308,
        -1e-308,
        5e-324,
        -5e-324,
        1e308,
        -1e308,
        f64::INFINITY,
        f64::NEG_INFINITY,
        f64::NAN,
        -f64::NAN,
        f64::MAX,
        f64::MIN,
        f64::EPSILON,
        3.141592653589793,
        -0.21,
        0.21,
    ]
}

#[test]
fn lt64_matches_f64_lt() {
    for &a in &sample_values() {
        for &b in &sample_values() {
            assert_eq!(
                lt64(a.to_bits(), b.to_bits()),
                a < b,
                "lt64 disagrees with < on {a} and {b}"
            );
        }
    }
}

#[test]
fn ge64_matches_f64_ge() {
    for &a in &sample_values() {
        for &b in &sample_values() {
            assert_eq!(
                ge64(a.to_bits(), b.to_bits()),
                a >= b,
                "ge64 disagrees with >= on {a} and {b}"
            );
        }
    }
}

#[test]
fn is_nan64_matches_f64_is_nan() {
    for &a in &sample_values() {
        assert_eq!(is_nan64(a.to_bits()), a.is_nan());
    }
}

#[test]
fn abs64_matches_f64_abs() {
    for &a in &sample_values() {
        assert_eq!(abs64(a.to_bits()), a.abs().to_bits(), "abs64 disagrees on {a}");
    }
}

#[test]
fn neg64_matches_f64_neg() {
    for &a in &sample_values() {
        assert_eq!(neg64(a.to_bits()), (-a).to_bits(), "neg64 disagrees on {a}");
    }
}

#[test]
fn neg32_matches_f32_neg() {
    let samples: Vec<f32> = vec![0.0, -0.0, 1.0, -1.0, 3.28084, f32::INFINITY, f32::MIN, 1e-40];
    for &a in &samples {
        assert_eq!(neg32(a.to_bits()), (-a).to_bits(), "neg32 disagrees on {a}");
    }
}

#[test]
fn is_zero32_matches_f32_eq_zero() {
    let samples: Vec<f32> = vec![0.0, -0.0, 1.0, -1.0, 1e-40, f32::NAN, f32::INFINITY];
    for &a in &samples {
        assert_eq!(is_zero32(a.to_bits()), a == 0.0, "is_zero32 disagrees on {a}");
    }
}

#[test]
fn zero_spin_rate_is_floored_to_one() {
    // A spin-rate input of exactly zero (either sign) becomes exactly 1.0.
    assert_eq!(fixed_spin_rate(0.0f32.to_bits()), 1.0f32.to_bits());
    assert_eq!(fixed_spin_rate((-0.0f32).to_bits()), 1.0f32.to_bits());
    assert_eq!(F32_ONE_BITS, 1.0f32.to_bits());
    // Anything else passes through untouched.
    let v = 2400.0f32;
    assert_eq!(fixed_spin_rate(v.to_bits()), v.to_bits());
    let tiny = 1e-30f32;
    assert_eq!(fixed_spin_rate(tiny.to_bits()), tiny.to_bits());
}
