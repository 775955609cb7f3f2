use margined_power::funding::{
    apply_funding_rate, apply_multiplier, calculate_normalisation_factor, funding_in_range, funding_window, wrapped_pow,
};
use margined_power::math::{Decimal, Timestamp};
use margined_power::state::State;

const ONE: u128 = 1_000_000_000_000_000_000;
const NOW: u64 = 1_700_000_000;

fn state(last_update: u64) -> State {
    State {
        is_open: true,
        is_paused: false,
        last_pause: Timestamp::from_seconds(last_update),
        normalisation_factor: Decimal::one(),
        last_funding_update: Timestamp::from_seconds(last_update),
    }
}

fn price(tenths: u128) -> Decimal {
    Decimal::raw(tenths * ONE / 10)
}

#[test]
fn fractional_powers() {
    assert_eq!(wrapped_pow(Decimal::raw(4 * ONE), Decimal::raw(ONE / 2)), Some(Decimal::raw(2 * ONE)));
    assert_eq!(wrapped_pow(Decimal::raw(2 * ONE), Decimal::raw(3 * ONE)), Some(Decimal::raw(8 * ONE)));
    assert_eq!(wrapped_pow(Decimal::one(), Decimal::raw(ONE / 7)), Some(Decimal::one()));
}

#[test]
fn multiplier_times_factor() {
    assert_eq!(apply_multiplier(Decimal::raw(ONE / 2), Decimal::raw(3 * ONE)), Decimal::raw(3 * ONE / 2));
}

#[test]
fn funding_window_since_the_last_update() {
    let (seconds, start) = funding_window(&state(NOW - 3_600), Timestamp::from_seconds(NOW));
    assert_eq!(seconds, 3_600);
    assert_eq!(start, Timestamp::from_seconds(NOW - 3_600));
    // at most 48 hours back
    let (seconds, start) = funding_window(&state(NOW - 500_000), Timestamp::from_seconds(NOW));
    assert_eq!(seconds, 500_000);
    assert_eq!(start, Timestamp::from_seconds(NOW - 172_800));
}

#[test]
fn factor_unchanged_when_mark_equals_index() {
    // quote 0.3 and power 0.3 with factor 1: mark 0.09 equals index 0.09
    let nf = calculate_normalisation_factor(&state(NOW - 86_400), Timestamp::from_seconds(NOW), price(3), price(3));
    assert_eq!(nf, Some(Decimal::one()));
}

#[test]
fn factor_falls_when_mark_is_above_index() {
    // power 0.6: mark 0.18 is clamped to 1.4 x index; factor (1/1.4)^(1 day / 17.5 days)
    let nf = calculate_normalisation_factor(&state(NOW - 86_400), Timestamp::from_seconds(NOW), price(3), price(6))
        .unwrap();
    assert!(nf.atomics < ONE);
    assert!(nf.atomics > 979 * ONE / 1000);
}

#[test]
fn factor_rises_when_mark_is_below_index() {
    let nf = calculate_normalisation_factor(&state(NOW - 86_400), Timestamp::from_seconds(NOW), price(3), price(2))
        .unwrap();
    assert!(nf.atomics > ONE);
    assert!(nf.atomics < 1_014 * ONE / 1000);
}

#[test]
fn funding_applies_once_per_second() {
    let now = Timestamp::from_seconds(NOW);
    let (first, factor) = apply_funding_rate(&state(NOW - 86_400), now, price(3), price(6)).unwrap();
    assert_eq!(first.last_funding_update, now);
    assert_eq!(first.normalisation_factor, factor);
    let (second, again) = apply_funding_rate(&first, now, price(5), price(1)).unwrap();
    assert_eq!(second, first);
    assert_eq!(again, factor);
}

#[test]
fn funding_range_bounds_the_power() {
    let now = Timestamp::from_seconds(NOW);
    // a day of funding at either clamp is in range
    assert!(funding_in_range(&state(NOW - 86_400), now, price(3), price(2)));
    assert!(funding_in_range(&state(NOW - 86_400), now, price(3), price(6)));
    // a billion seconds below the index: (1.25)^661 is beyond the power's range
    assert!(!funding_in_range(&state(NOW - 1_000_000_000), now, price(3), price(2)));
    // above the index the factor only shrinks, over up to sixty funding periods
    assert!(funding_in_range(&state(NOW - 80_000_000), now, price(3), price(6)));
    // beyond sixty funding periods the power refuses any base
    assert!(!funding_in_range(&state(NOW - 1_000_000_000), now, price(3), price(6)));
}
