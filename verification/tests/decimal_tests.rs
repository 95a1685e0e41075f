use employee_roster::decimal::Decimal;

#[test]
fn test_normalizes_trailing_zeros() {
    let d = Decimal::new(false, 100000, 2);
    assert_eq!(d.negative, false);
    assert_eq!(d.mantissa, 1000);
    assert_eq!(d.scale, 0);
}

#[test]
fn test_same_number_different_spellings_are_equal() {
    // 1000.00 and 1000.0 denote the same number.
    assert_eq!(Decimal::new(false, 100000, 2), Decimal::new(false, 10000, 1));
    // 32000.00 spelled at scale 2 and scale 0.
    assert_eq!(Decimal::new(false, 3200000, 2), Decimal::new(false, 32000, 0));
}

#[test]
fn test_keeps_significant_fraction() {
    let d = Decimal::new(false, 104050, 2);
    assert_eq!(d.mantissa, 10405);
    assert_eq!(d.scale, 1);
}

#[test]
fn test_zero_is_never_negative() {
    let d = Decimal::new(true, 0, 5);
    assert_eq!(d.negative, false);
    assert_eq!(d.mantissa, 0);
    assert_eq!(d.scale, 0);
}

#[test]
fn test_negative_value_keeps_sign() {
    let d = Decimal::new(true, 12300, 2);
    assert_eq!(d.negative, true);
    assert_eq!(d.mantissa, 123);
    assert_eq!(d.scale, 0);
}

#[test]
fn test_distinct_numbers_differ() {
    assert_ne!(Decimal::new(false, 100000, 2), Decimal::new(false, 100001, 2));
    assert_ne!(Decimal::new(false, 1000, 0), Decimal::new(true, 1000, 0));
}
