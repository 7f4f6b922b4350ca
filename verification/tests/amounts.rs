use finad::amount::Amount;

fn amount(value: f64) -> Amount {
    Amount { bits: value.to_bits() }
}

const VALUES: [f64; 14] = [
    0.0, -0.0, 1.0, -1.0, 12.34, -12.34, 5e-324, -5e-324, f64::MAX, f64::MIN, f64::INFINITY,
    f64::NEG_INFINITY, f64::NAN, 0.1,
];

#[test]
fn amounts_compare_with_zero_as_doubles_do() {
    for v in VALUES {
        assert_eq!(amount(v).is_at_most_zero(), v <= 0.0, "{}", v);
        assert_eq!(amount(v).is_at_least_zero(), v >= 0.0, "{}", v);
    }
    assert!(!amount(-f64::NAN).is_at_most_zero());
    assert!(!amount(-f64::NAN).is_at_least_zero());
}

#[test]
fn amounts_lose_their_sign_as_doubles_do() {
    for v in VALUES {
        assert_eq!(amount(v).abs().bits, v.abs().to_bits(), "{}", v);
    }
}

#[test]
fn a_debit_becomes_positive() {
    let debit = amount(-42.5);
    assert!(!debit.is_at_least_zero());
    assert_eq!(debit.abs(), amount(42.5));
    assert!(!debit.abs().is_at_most_zero());
}

#[test]
fn only_zeros_are_both() {
    assert!(amount(0.0).is_at_most_zero() && amount(0.0).is_at_least_zero());
    assert!(amount(-0.0).is_at_most_zero() && amount(-0.0).is_at_least_zero());
    assert!(!(amount(0.01).is_at_most_zero() && amount(0.01).is_at_least_zero()));
}
