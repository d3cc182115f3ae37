use opcua_monitoring::double::{
    exponent_of, fraction_of, magnitude_is_within, EXPONENT_OF_UNITS, HIDDEN_BIT, SIGN_BIT,
    SPECIAL_EXPONENT,
};

#[test]
fn fields_of_a_double() {
    assert_eq!(exponent_of(1f64.to_bits()), 1023);
    assert_eq!(fraction_of(1f64.to_bits()), 0);
    assert_eq!(exponent_of(1.5f64.to_bits()), 1023);
    assert_eq!(fraction_of(1.5f64.to_bits()), HIDDEN_BIT / 2);
    assert_eq!(exponent_of((-2f64).to_bits()), 1024);
    assert_eq!(exponent_of(0f64.to_bits()), 0);
    assert_eq!(exponent_of(f64::INFINITY.to_bits()), SPECIAL_EXPONENT);
    assert_eq!(fraction_of(f64::INFINITY.to_bits()), 0);
    assert_eq!(exponent_of(f64::NAN.to_bits()), SPECIAL_EXPONENT);
    assert!(fraction_of(f64::NAN.to_bits()) != 0);
    assert_eq!(exponent_of(u64::MAX), 0x7ff);
    assert_eq!(fraction_of(u64::MAX), HIDDEN_BIT - 1);
    assert_eq!(exponent_of(4_503_599_627_370_496f64.to_bits()), EXPONENT_OF_UNITS);
    assert_eq!((-0f64).to_bits(), SIGN_BIT);
}

#[test]
fn magnitude_against_whole_amounts() {
    assert!(magnitude_is_within(2.5f64.to_bits(), 2, 5));
    assert!(!magnitude_is_within(2.5f64.to_bits(), 2, 4));
    assert!(magnitude_is_within((-2.5f64).to_bits(), 2, 5));
    assert!(magnitude_is_within(2.5f64.to_bits(), 1, 3));
    assert!(!magnitude_is_within(2.5f64.to_bits(), 1, 2));
    assert!(magnitude_is_within(0f64.to_bits(), 7, 0));
    assert!(!magnitude_is_within(0f64.to_bits(), 7, -1));
    assert!(magnitude_is_within(2.5f64.to_bits(), 0, 0));
    assert!(!magnitude_is_within(2.5f64.to_bits(), 0, -1));
    assert!(!magnitude_is_within(f64::from_bits(1).to_bits(), 1, 0));
    assert!(magnitude_is_within(f64::from_bits(1).to_bits(), u32::MAX, 1));
    assert!(!magnitude_is_within(f64::INFINITY.to_bits(), 0, i128::MAX));
    assert!(!magnitude_is_within(f64::NAN.to_bits(), 1, i128::MAX));
    assert!(!magnitude_is_within(f64::MAX.to_bits(), 1, i128::MAX));
    assert!(magnitude_is_within(f64::MAX.to_bits(), 0, 0));
    // Two to the power 126 fits, two to the power 127 does not.
    let fits = 85_070_591_730_234_615_865_843_651_857_942_052_864f64;
    assert!(magnitude_is_within(fits.to_bits(), 1, i128::MAX));
    assert!(magnitude_is_within(fits.to_bits(), 1, 1 << 126));
    assert!(!magnitude_is_within(fits.to_bits(), 1, (1 << 126) - 1));
    assert!(!magnitude_is_within((2f64 * fits).to_bits(), 1, i128::MAX));
    assert!(magnitude_is_within(4_294_967_296f64.to_bits(), u32::MAX, 18_446_744_069_414_584_320));
    assert!(!magnitude_is_within(4_294_967_296f64.to_bits(), u32::MAX, 18_446_744_069_414_584_319));
}

#[test]
fn magnitude_agrees_with_whole_numbers() {
    let mut number = 3u64;
    for _ in 0..30 {
        let bits = (number as f64).to_bits();
        for unit in [1u32, 7, 1_000_000] {
            let exact = number as i128 * unit as i128;
            assert!(magnitude_is_within(bits, unit, exact), "{} {}", number, unit);
            assert!(!magnitude_is_within(bits, unit, exact - 1), "{} {}", number, unit);
            assert!(magnitude_is_within(bits, unit, exact + 1), "{} {}", number, unit);
        }
        let half = (number as f64 + 0.5).to_bits();
        assert!(magnitude_is_within(half, 2, 2 * number as i128 + 1));
        assert!(!magnitude_is_within(half, 2, 2 * number as i128));
        assert!(!magnitude_is_within(half, 1, number as i128));
        assert!(magnitude_is_within(half, 1, number as i128 + 1));
        number = number * 3 + 1;
    }
}
