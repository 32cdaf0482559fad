use lm_sensors::binary64::{infinite, nan, negative, nonzero, rounded_magnitude_saturating, ONE_BITS, ZERO_BITS};

#[test]
fn classification() {
    assert!(nan(f64::NAN.to_bits()));
    assert!(!nan(f64::INFINITY.to_bits()));
    assert!(infinite(f64::NEG_INFINITY.to_bits()));
    assert!(!infinite(1.0f64.to_bits()));
    assert!(negative((-0.0f64).to_bits()));
    assert!(!negative(0.0f64.to_bits()));
    assert!(!nonzero((-0.0f64).to_bits()));
    assert!(nonzero(f64::MIN_POSITIVE.to_bits()));
    assert_eq!(ONE_BITS, 1.0f64.to_bits());
    assert_eq!(ZERO_BITS, 0.0f64.to_bits());
}

#[test]
fn rounding_matches_std() {
    for x in [0.0f64, 0.49, 0.5, 1.5, 2.5, 3.49, 999.5, 1000.49, 1000.5, 1e-300, 123.456, 4503599627370497.0] {
        let expected = x.round();
        let got = rounded_magnitude_saturating(x.to_bits(), 1000);
        if expected > 1000.0 {
            assert_eq!(got, 1001);
        } else {
            assert_eq!(got as f64, expected);
        }
        let neg = rounded_magnitude_saturating((-x).to_bits(), 1000);
        assert_eq!(neg, got);
    }
    assert_eq!(rounded_magnitude_saturating(1e300f64.to_bits(), 5), 6);
}
