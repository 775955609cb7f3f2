use margined_power::math::{decimal_to_fixed, pow10_u128, Decimal, Timestamp};

const ONE: u128 = 1_000_000_000_000_000_000;

#[test]
fn checked_mul_rounds_down_and_detects_overflow() {
    let a = Decimal::raw(1_500_000_000_000_000_000);
    let b = Decimal::raw(2_500_000_000_000_000_000);
    assert_eq!(a.checked_mul(b), Some(Decimal::raw(3_750_000_000_000_000_000)));
    // 1e-18 * 0.5 rounds down to zero
    assert_eq!(Decimal::raw(1).checked_mul(Decimal::raw(ONE / 2)), Some(Decimal::raw(0)));
    assert_eq!(Decimal::raw(u128::MAX).checked_mul(Decimal::raw(2 * ONE)), None);
    assert_eq!(a.mul(Decimal::one()), a);
}

#[test]
fn checked_div_rounds_down_and_refuses_zero() {
    let one = Decimal::one();
    let three = Decimal::raw(3 * ONE);
    assert_eq!(one.checked_div(three), Some(Decimal::raw(333_333_333_333_333_333)));
    assert_eq!(one.checked_div(Decimal::zero()), None);
    assert_eq!(Decimal::raw(u128::MAX).checked_div(Decimal::raw(1)), None);
    assert_eq!(Decimal::from_ratio(1, 4), Decimal::raw(ONE / 4));
    assert_eq!(three.div(Decimal::raw(2 * ONE)), Decimal::raw(1_500_000_000_000_000_000));
}

#[test]
fn checked_sub_and_comparisons() {
    let a = Decimal::raw(5);
    let b = Decimal::raw(7);
    assert_eq!(b.checked_sub(a), Some(Decimal::raw(2)));
    assert_eq!(a.checked_sub(b), None);
    assert!(a.le(&b) && a.lt(&b) && a.le(&a) && !a.lt(&a));
    assert!(Decimal::zero().is_zero() && !Decimal::one().is_zero());
    assert_eq!(Decimal::percent(80), Decimal::raw(800_000_000_000_000_000));
}

#[test]
fn from_atomics_scales_by_the_decimal_places() {
    assert_eq!(Decimal::from_atomics(1_500_000, 6), Decimal::raw(1_500_000_000_000_000_000));
    assert_eq!(Decimal::from_atomics(3, 0), Decimal::raw(3 * ONE));
    // more than 18 places divides, rounding down
    assert_eq!(Decimal::from_atomics(123, 20), Decimal::raw(1));
}

#[test]
fn decimal_to_fixed_rounds_down() {
    assert_eq!(decimal_to_fixed(Decimal::raw(1_234_567_890_000_000_000), 6), 1_234_567);
    assert_eq!(decimal_to_fixed(Decimal::raw(999_999_999_999), 6), 0);
    assert_eq!(decimal_to_fixed(Decimal::raw(42), 18), 42);
}

#[test]
fn fixed_round_trip_on_examples() {
    for (amount, places) in [(1_234_567u128, 6u32), (0, 6), (5, 18), (987_654_321, 9)] {
        assert_eq!(decimal_to_fixed(Decimal::from_atomics(amount, places), places), amount);
    }
}

#[test]
fn powers_of_ten() {
    assert_eq!(pow10_u128(0), 1);
    assert_eq!(pow10_u128(6), 1_000_000);
    assert_eq!(pow10_u128(38), 100_000_000_000_000_000_000_000_000_000_000_000_000);
}

#[test]
fn timestamps_in_seconds() {
    let t = Timestamp::from_seconds(1_700_000_000);
    assert_eq!(t.nanos, 1_700_000_000_000_000_000);
    assert_eq!(Timestamp::from_nanos(1_999_999_999).seconds(), 1);
    assert_eq!(t.minus_seconds(100).seconds(), 1_699_999_900);
}
