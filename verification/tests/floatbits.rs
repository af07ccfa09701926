use mediax::floatbits::{
    f32_bits_clamp, f32_bits_positive_or_one, f64_bits_at_most_zero, f64_bits_clamp,
    f64_bits_finite, f64_bits_max, f64_bits_max_zero,
};

fn check_max_zero(x: f64) {
    let got = f64::from_bits(f64_bits_max_zero(x.to_bits()));
    let want = x.max(0.0);
    assert!(got == want, "{x}: {got} vs {want}");
}

#[test]
fn max_zero_agrees_with_f64() {
    for x in [-1.5, -0.0, 0.0, 3.25, f64::INFINITY, f64::NEG_INFINITY, f64::MIN_POSITIVE, 1e300] {
        check_max_zero(x);
    }
    assert_eq!(f64_bits_max_zero(f64::NAN.to_bits()), 0.0f64.to_bits());
}

#[test]
fn clamp_agrees_with_f64() {
    for x in [-2.0, -0.0, 0.0, 0.1, 0.25, 1.0, 3.0, 3.5, f64::INFINITY, f64::NEG_INFINITY] {
        let got = f64::from_bits(f64_bits_clamp(x.to_bits(), 0.25f64.to_bits(), 3.0f64.to_bits()));
        assert_eq!(got, x.clamp(0.25, 3.0));
        let got = f64_bits_clamp(x.to_bits(), 0.0f64.to_bits(), 1.0f64.to_bits());
        assert_eq!(got, x.clamp(0.0, 1.0).to_bits());
    }
    let nan = f64::NAN.to_bits();
    assert_eq!(f64_bits_clamp(nan, 0, 1.0f64.to_bits()), nan);
}

#[test]
fn max_of_two() {
    let pairs = [(1.0, 2.0), (2.0, 1.0), (-1.0, -2.0), (-3.0, 0.5), (5.0, f64::NAN), (f64::NAN, 5.0)];
    for (a, b) in pairs {
        let got = f64::from_bits(f64_bits_max(a.to_bits(), b.to_bits()));
        assert_eq!(got, a.max(b));
    }
}

#[test]
fn finiteness_and_sign() {
    assert!(f64_bits_finite(1.0f64.to_bits()));
    assert!(!f64_bits_finite(f64::INFINITY.to_bits()));
    assert!(!f64_bits_finite(f64::NAN.to_bits()));
    assert!(f64_bits_at_most_zero((-0.0f64).to_bits()));
    assert!(f64_bits_at_most_zero((-4.0f64).to_bits()));
    assert!(!f64_bits_at_most_zero(f64::MIN_POSITIVE.to_bits()));
    assert!(!f64_bits_at_most_zero(f64::NAN.to_bits()));
}

#[test]
fn f32_levels() {
    for x in [-1.0f32, 0.0, 0.25, 0.5, 1.0, 7.0, f32::INFINITY] {
        let got = f32::from_bits(f32_bits_clamp(x.to_bits(), 0.0f32.to_bits(), 1.0f32.to_bits()));
        assert_eq!(got, x.clamp(0.0, 1.0));
    }
    assert_eq!(f32_bits_positive_or_one(0.5f32.to_bits(), 1.0f32.to_bits()), 0.5f32.to_bits());
    assert_eq!(f32_bits_positive_or_one(2.0f32.to_bits(), 1.0f32.to_bits()), 1.0f32.to_bits());
    assert_eq!(f32_bits_positive_or_one(f32::NAN.to_bits(), 1.0f32.to_bits()), 1.0f32.to_bits());
    assert_eq!(f32_bits_positive_or_one((-0.5f32).to_bits(), 1.0f32.to_bits()), 1.0f32.to_bits());
}
