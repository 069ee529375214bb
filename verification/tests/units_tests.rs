use listen_core::units::{div_pow10, pow10_checked, MAX_POW10_EXPONENT, USD_SCALE};

#[test]
fn powers_of_ten() {
    assert_eq!(pow10_checked(0), Some(1));
    assert_eq!(pow10_checked(1), Some(10));
    assert_eq!(pow10_checked(9), Some(1_000_000_000));
    assert_eq!(pow10_checked(38), Some(100_000_000_000_000_000_000_000_000_000_000_000_000));
    assert_eq!(pow10_checked(39), None);
    assert_eq!(pow10_checked(255), None);
    assert_eq!(MAX_POW10_EXPONENT, 38);
    assert_eq!(USD_SCALE as u128, pow10_checked(9).unwrap());
}

#[test]
fn division_by_powers_of_ten_rounds_down() {
    assert_eq!(div_pow10(12_345, 0), 12_345);
    assert_eq!(div_pow10(12_345, 2), 123);
    assert_eq!(div_pow10(999, 3), 0);
    assert_eq!(div_pow10(1_000, 3), 1);
    assert_eq!(div_pow10(u128::MAX, 38), 3);
    assert_eq!(div_pow10(u128::MAX, 39), 0);
    assert_eq!(div_pow10(u128::MAX, 255), 0);
}
