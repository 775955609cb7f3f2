//! Funding: the normalisation factor that shrinks power debt when the mark
//! trades above the index and grows it when below.

use vstd::prelude::*;
use crate::config::FUNDING_PERIOD;
use crate::helpers::{
    calculate_denormalized_mark, calculate_index, denormalised_mark, index_of, mark_defined,
};
use crate::math::{Decimal, Timestamp, fits_u128, mul_floor, nanos_per_second, ratio_floor};
use crate::state::State;
use std::str::FromStr;

verus! {

/// Pool TWAPs reach back at most 48 hours.
pub const MAX_TWAP_PERIOD: u64 = 172_800u64;

/// What `FPDecimal::pow` gives for a base and an exponent handed over as
/// decimals (by their atomics), read back as decimal atomics; `None` when
/// the power's text does not read back as a decimal (for instance a negative
/// or out-of-range result).
pub uninterp spec fn fp_decimal_pow(base: u128, exponent: u128) -> Option<u128>;

/// The bases and exponents for which `FPDecimal::pow` returns: an exponent
/// of at most 60 (above it the power panics), a base of at least one half,
/// and, above one, an exponent times (base - 1) of at most 120, which keeps
/// the powers it squares up to within its 256-bit arithmetic.
pub open spec fn pow_in_range(base: u128, exponent: u128) -> bool {
    &&& exponent <= 60_000_000_000_000_000_000
    &&& base >= 500_000_000_000_000_000
    &&& (base > 1_000_000_000_000_000_000 ==> exponent * (base - 1_000_000_000_000_000_000)
        <= 120_000_000_000_000_000_000_000_000_000_000_000_000int)
}

/// Raises `base` to the fractional power `exponent`.
///
/// Trusted: converts both decimals to `injective_math::FPDecimal` through
/// their decimal strings, calls `FPDecimal::pow`, and reads the result back
/// with `cosmwasm_std::Decimal::from_str`; the contract only names the
/// result (`fp_decimal_pow`). The `requires` keeps out the inputs on which
/// `pow` panics: it refuses exponents above 60 with a panic, and for an
/// exponent of at least one it squares the base up to six times, which
/// overflows 256 bits for a large base. The bound on exponent x (base - 1)
/// also bounds exponent x ln(base), the argument of the Taylor expansion it
/// uses for the fractional part, and the lower bound on the base keeps that
/// argument above -0.7.
#[verifier::external_body]
pub fn wrapped_pow(base: Decimal, exponent: Decimal) -> (r: Option<Decimal>)
    requires
        pow_in_range(base.atomics, exponent.atomics),
    ensures
        r is Some <==> fp_decimal_pow(base.atomics, exponent.atomics) is Some,
        r matches Some(d) ==> fp_decimal_pow(base.atomics, exponent.atomics) == Some(d.atomics),
{
    let b = cosmwasm_std::Decimal::raw(base.atomics).to_string();
    let e = cosmwasm_std::Decimal::raw(exponent.atomics).to_string();
    let fp_base = injective_math::FPDecimal::from_str(&b).ok()?;
    let fp_exponent = injective_math::FPDecimal::from_str(&e).ok()?;
    let result = fp_base.pow(fp_exponent);
    let d = cosmwasm_std::Decimal::from_str(&result.to_string()).ok()?;
    Some(Decimal { atomics: d.atomics().u128() })
}

/// Seconds elapsed since the last funding update, whole seconds of each.
pub open spec fn funding_seconds(s: State, now: Timestamp) -> int {
    (now.nanos - s.last_funding_update.secs() * nanos_per_second()) / nanos_per_second()
}

/// The TWAP window's start: the last funding update, or 48 hours ago when
/// that is further back.
pub open spec fn funding_start(s: State, now: Timestamp) -> Timestamp {
    if funding_seconds(s, now) < MAX_TWAP_PERIOD {
        s.last_funding_update
    } else {
        Timestamp { nanos: (now.nanos - MAX_TWAP_PERIOD * nanos_per_second()) as u64 }
    }
}

pub open spec fn funding_window_defined(s: State, now: Timestamp) -> bool {
    &&& s.last_funding_update.secs() * nanos_per_second() <= now.nanos
    &&& (funding_seconds(s, now) >= MAX_TWAP_PERIOD ==> MAX_TWAP_PERIOD * nanos_per_second() <= now.nanos)
}

/// The seconds since the last funding update and the start of the TWAP
/// window over which the mark and the index are read.
pub fn funding_window(state: &State, block_time: Timestamp) -> (r: (u64, Timestamp))
    requires
        funding_window_defined(*state, block_time),
    ensures
        r.0 == funding_seconds(*state, block_time),
        r.1 == funding_start(*state, block_time),
{
    let elapsed = block_time.minus_seconds(state.last_funding_update.seconds());
    let funding_period = elapsed.seconds();
    let period = if funding_period < MAX_TWAP_PERIOD { funding_period } else { MAX_TWAP_PERIOD };
    let start_time = if period < MAX_TWAP_PERIOD {
        state.last_funding_update
    } else {
        block_time.minus_seconds(MAX_TWAP_PERIOD)
    };
    (funding_period, start_time)
}

/// The mark held between 80% and 140% of the index.
pub open spec fn clamped_mark(mark: int, index: int) -> int {
    let lower = mul_floor(index, 800_000_000_000_000_000);
    let upper = mul_floor(index, 1_400_000_000_000_000_000);
    if mark < lower {
        lower
    } else if mark > upper {
        upper
    } else {
        mark
    }
}

/// The base of the funding multiplier: index over the clamped mark.
pub open spec fn funding_base(s: State, quote_price: Decimal, power_price: Decimal) -> int {
    ratio_floor(
        index_of(quote_price),
        clamped_mark(denormalised_mark(quote_price, power_price, s.normalisation_factor), index_of(quote_price)),
    )
}

/// The funding exponent: the elapsed time as a fraction of the funding period.
pub open spec fn funding_exponent(seconds: int) -> int {
    ratio_floor(seconds, FUNDING_PERIOD as int)
}

/// The inputs on which the funding computation stays within range (the
/// power itself aside).
pub open spec fn funding_defined(s: State, now: Timestamp, quote_price: Decimal, power_price: Decimal) -> bool {
    &&& funding_window_defined(s, now)
    &&& (funding_seconds(s, now) != 0 ==> {
        &&& mark_defined(quote_price, power_price, s.normalisation_factor)
        &&& fits_u128(index_of(quote_price))
        &&& fits_u128(mul_floor(index_of(quote_price), 1_400_000_000_000_000_000))
        &&& clamped_mark(denormalised_mark(quote_price, power_price, s.normalisation_factor), index_of(quote_price)) != 0
        &&& fits_u128(funding_base(s, quote_price, power_price))
        &&& pow_in_range(
            funding_base(s, quote_price, power_price) as u128,
            funding_exponent(funding_seconds(s, now)) as u128,
        )
    })
}

/// Whether the funding computation at `block_time` stays within range for
/// these prices (the power itself aside): the check a caller makes before
/// asking for the normalisation factor.
pub fn funding_in_range(state: &State, block_time: Timestamp, quote_price: Decimal, power_price: Decimal) -> (r: bool)
    ensures
        r == funding_defined(*state, block_time, quote_price, power_price),
{
    let last = state.last_funding_update.seconds();
    if (last as u128) * 1_000_000_000u128 > block_time.nanos as u128 {
        return false;
    }
    let seconds = block_time.minus_seconds(last).seconds();
    if seconds >= MAX_TWAP_PERIOD && (MAX_TWAP_PERIOD as u128) * 1_000_000_000u128 > block_time.nanos as u128 {
        return false;
    }
    if seconds == 0 {
        return true;
    }
    let product = match quote_price.checked_mul(power_price) {
        Some(p) => p,
        None => { return false; },
    };
    if state.normalisation_factor.is_zero() {
        return false;
    }
    let mark = match product.checked_div(state.normalisation_factor) {
        Some(m) => m,
        None => { return false; },
    };
    let index = match quote_price.checked_mul(quote_price) {
        Some(i) => i,
        None => { return false; },
    };
    let upper = match index.checked_mul(Decimal::percent(140)) {
        Some(u) => u,
        None => { return false; },
    };
    proof {
        assert(mul_floor(index.atomics as int, 800_000_000_000_000_000) <= index.atomics) by (nonlinear_arith)
            requires index.atomics >= 0;
    }
    let lower = index.mul(Decimal::percent(80));
    let clamped = if mark.atomics < lower.atomics {
        lower
    } else if mark.atomics > upper.atomics {
        upper
    } else {
        mark
    };
    if clamped.is_zero() {
        return false;
    }
    let base = match index.checked_div(clamped) {
        Some(b) => b,
        None => { return false; },
    };
    proof {
        assert(seconds * 1_000_000_000_000_000_000int <= u64::MAX * 1_000_000_000_000_000_000int) by (nonlinear_arith)
            requires seconds <= u64::MAX;
    }
    let exponent = Decimal::from_ratio(seconds as u128, FUNDING_PERIOD as u128);
    if exponent.atomics > 60_000_000_000_000_000_000u128 || base.atomics < 500_000_000_000_000_000u128 {
        return false;
    }
    if base.atomics > 1_000_000_000_000_000_000u128 {
        match exponent.atomics.checked_mul(base.atomics - 1_000_000_000_000_000_000u128) {
            None => { return false; },
            Some(p) => {
                if p > 120_000_000_000_000_000_000_000_000_000_000_000_000u128 {
                    return false;
                }
            },
        }
    }
    true
}

/// The new normalisation factor when the multiplier is known: the old one
/// times the multiplier.
pub fn apply_multiplier(multiplier: Decimal, normalisation_factor: Decimal) -> (r: Decimal)
    requires
        fits_u128(mul_floor(multiplier.atomics as int, normalisation_factor.atomics as int)),
    ensures
        r.atomics == mul_floor(multiplier.atomics as int, normalisation_factor.atomics as int),
{
    multiplier.mul(normalisation_factor)
}

/// The normalisation factor now: unchanged when no whole second has passed
/// since the last update; otherwise the old factor times
/// (index / clamped mark) raised to the elapsed fraction of the funding
/// period, the prices being the scaled quote TWAP and the power TWAP over
/// the funding window. `None` where the power fails or its product with the
/// old factor is out of range.
pub fn calculate_normalisation_factor(
    state: &State,
    block_time: Timestamp,
    quote_price: Decimal,
    power_price: Decimal,
) -> (r: Option<Decimal>)
    requires
        funding_defined(*state, block_time, quote_price, power_price),
    ensures
        funding_seconds(*state, block_time) == 0 ==> r == Some(state.normalisation_factor),
        funding_seconds(*state, block_time) != 0 ==> {
            let p = fp_decimal_pow(
                funding_base(*state, quote_price, power_price) as u128,
                funding_exponent(funding_seconds(*state, block_time)) as u128,
            );
            &&& (r is Some <==> (p is Some && fits_u128(mul_floor(p->0 as int, state.normalisation_factor.atomics as int))))
            &&& (r matches Some(d) ==> d.atomics == mul_floor(p->0 as int, state.normalisation_factor.atomics as int))
        },
        r == calculate_normalisation_factor_result(*state, block_time, quote_price, power_price),
{
    let (funding_period, _start_time) = funding_window(state, block_time);
    if funding_period == 0 {
        return Some(state.normalisation_factor);
    }
    let mut mark = calculate_denormalized_mark(quote_price, power_price, state.normalisation_factor);
    let index = calculate_index(quote_price);
    proof {
        assert(funding_period * 1_000_000_000_000_000_000int <= u64::MAX * 1_000_000_000_000_000_000int) by (nonlinear_arith)
            requires funding_period <= u64::MAX;
    }
    let r_funding = Decimal::from_ratio(funding_period as u128, FUNDING_PERIOD as u128);
    proof {
        assert(mul_floor(index.atomics as int, 800_000_000_000_000_000) <= index.atomics) by (nonlinear_arith)
            requires index.atomics >= 0;
    }
    let lower_bound = index.mul(Decimal::percent(80));
    let upper_bound = index.mul(Decimal::percent(140));
    if mark.atomics < lower_bound.atomics {
        mark = lower_bound;
    } else if mark.atomics > upper_bound.atomics {
        mark = upper_bound;
    }
    let base = index.div(mark);
    let multiplier = match wrapped_pow(base, r_funding) {
        Some(m) => m,
        None => { return None; },
    };
    multiplier.checked_mul(state.normalisation_factor)
}

/// The state after applying funding at `block_time`, and the factor now in
/// force: at most once per second, so a second application at the same time
/// changes nothing.
pub open spec fn funding_applied(s: State, now: Timestamp, factor: Decimal) -> State {
    State { normalisation_factor: factor, last_funding_update: now, ..s }
}

/// Applies funding: within the same second as the last update the state and
/// factor are kept; otherwise the factor is recomputed and the update time
/// moved to `block_time`. `None` where the factor cannot be computed.
pub fn apply_funding_rate(
    state: &State,
    block_time: Timestamp,
    quote_price: Decimal,
    power_price: Decimal,
) -> (r: Option<(State, Decimal)>)
    requires
        state.last_funding_update.secs() != block_time.secs() ==> funding_defined(*state, block_time, quote_price, power_price),
    ensures
        r == apply_funding_result(*state, block_time, quote_price, power_price),
{
    if state.last_funding_update.seconds() == block_time.seconds() {
        return Some((*state, state.normalisation_factor));
    }
    let factor = match calculate_normalisation_factor(state, block_time, quote_price, power_price) {
        Some(f) => f,
        None => { return None; },
    };
    Some((State { normalisation_factor: factor, last_funding_update: block_time, ..*state }, factor))
}

/// What `calculate_normalisation_factor` returns, as one spec function.
pub open spec fn calculate_normalisation_factor_result(s: State, now: Timestamp, quote_price: Decimal, power_price: Decimal) -> Option<Decimal> {
    if funding_seconds(s, now) == 0 {
        Some(s.normalisation_factor)
    } else {
        let p = fp_decimal_pow(
            funding_base(s, quote_price, power_price) as u128,
            funding_exponent(funding_seconds(s, now)) as u128,
        );
        if p is Some && fits_u128(mul_floor(p->0 as int, s.normalisation_factor.atomics as int)) {
            Some(Decimal { atomics: mul_floor(p->0 as int, s.normalisation_factor.atomics as int) as u128 })
        } else {
            None
        }
    }
}

/// What applying funding gives.
pub open spec fn apply_funding_result(s: State, now: Timestamp, quote_price: Decimal, power_price: Decimal) -> Option<(State, Decimal)> {
    if s.last_funding_update.secs() == now.secs() {
        Some((s, s.normalisation_factor))
    } else {
        match calculate_normalisation_factor_result(s, now, quote_price, power_price) {
            Some(f) => Some((funding_applied(s, now, f), f)),
            None => None,
        }
    }
}

/// Funding applies at most once per second: applying it again at the same
/// time, whatever the prices, returns the same factor and leaves the state
/// as it is.
pub proof fn law_funding_once_per_second(s: State, now: Timestamp, q1: Decimal, p1: Decimal, q2: Decimal, p2: Decimal)
    ensures
        apply_funding_result(s, now, q1, p1) matches Some(first) ==> apply_funding_result(first.0, now, q2, p2) == Some(first),
{
}

/// The clamped mark lies between 80% and 140% of the index.
pub proof fn law_mark_clamped(mark: int, index: int)
    requires
        index >= 0,
    ensures
        mul_floor(index, 800_000_000_000_000_000) <= clamped_mark(mark, index) <= mul_floor(index, 1_400_000_000_000_000_000),
{
    assert(mul_floor(index, 800_000_000_000_000_000) <= mul_floor(index, 1_400_000_000_000_000_000)) by (nonlinear_arith)
        requires index >= 0;
}


/// The old factor scaled by a funding multiplier (given by its atomics), or
/// `None` when there is no multiplier or the product is out of range.
pub open spec fn scaled_by_multiplier(m: Option<u128>, factor: Decimal) -> Option<Decimal> {
    match m {
        Some(x) => if fits_u128(mul_floor(x as int, factor.atomics as int)) {
            Some(Decimal { atomics: mul_floor(x as int, factor.atomics as int) as u128 })
        } else {
            None
        },
        None => None,
    }
}

/// When the mark, the product of the quote and power prices divided by the
/// current normalisation factor, equals the index, the square of the quote
/// price, funding raises exactly one to the elapsed fraction of the funding
/// period: the base of the power is one, and the new factor is the old one
/// scaled by that power.
pub proof fn law_mark_at_index_funds_with_base_one(s: State, now: Timestamp, quote_price: Decimal, power_price: Decimal)
    requires
        funding_seconds(s, now) != 0,
        s.normalisation_factor.atomics != 0,
        (quote_price.atomics * quote_price.atomics) / 1_000_000_000_000_000_000int > 0,
        ((quote_price.atomics * power_price.atomics) / 1_000_000_000_000_000_000int) * 1_000_000_000_000_000_000int
            / (s.normalisation_factor.atomics as int)
            == (quote_price.atomics * quote_price.atomics) / 1_000_000_000_000_000_000int,
    ensures
        calculate_normalisation_factor_result(s, now, quote_price, power_price) == scaled_by_multiplier(
            fp_decimal_pow(
                1_000_000_000_000_000_000u128,
                ((funding_seconds(s, now) * 1_000_000_000_000_000_000int) / 1_512_000int) as u128,
            ),
            s.normalisation_factor,
        ),
{
    let index = index_of(quote_price);
    assert(mul_floor(index, 800_000_000_000_000_000) <= index) by (nonlinear_arith)
        requires index > 0;
    assert(mul_floor(index, 1_400_000_000_000_000_000) >= index) by (nonlinear_arith)
        requires index > 0;
    assert(clamped_mark(index, index) == index);
    assert(ratio_floor(index, index) == 1_000_000_000_000_000_000) by (nonlinear_arith)
        requires index > 0;
    assert(funding_base(s, quote_price, power_price) == 1_000_000_000_000_000_000);
}

/// Funding depends on the prices and the current factor only through the
/// index and the mark (quote price times power price over the factor): two
/// states funded over the same elapsed time, with the same quote price and
/// the same mark, scale their factors by one and the same multiplier.
pub proof fn law_funding_depends_on_the_mark(
    s1: State,
    s2: State,
    now1: Timestamp,
    now2: Timestamp,
    quote_price: Decimal,
    power1: Decimal,
    power2: Decimal,
)
    requires
        funding_seconds(s1, now1) != 0,
        funding_seconds(s1, now1) == funding_seconds(s2, now2),
        ((quote_price.atomics * power1.atomics) / 1_000_000_000_000_000_000int) * 1_000_000_000_000_000_000int
            / (s1.normalisation_factor.atomics as int)
            == ((quote_price.atomics * power2.atomics) / 1_000_000_000_000_000_000int) * 1_000_000_000_000_000_000int
            / (s2.normalisation_factor.atomics as int),
    ensures
        exists|m: Option<u128>|
            calculate_normalisation_factor_result(s1, now1, quote_price, power1) == scaled_by_multiplier(m, s1.normalisation_factor)
            && calculate_normalisation_factor_result(s2, now2, quote_price, power2) == scaled_by_multiplier(m, s2.normalisation_factor),
{
    let m = fp_decimal_pow(
        funding_base(s1, quote_price, power1) as u128,
        funding_exponent(funding_seconds(s1, now1)) as u128,
    );
    assert(funding_base(s1, quote_price, power1) == funding_base(s2, quote_price, power2));
    assert(calculate_normalisation_factor_result(s1, now1, quote_price, power1) == scaled_by_multiplier(m, s1.normalisation_factor));
    assert(calculate_normalisation_factor_result(s2, now2, quote_price, power2) == scaled_by_multiplier(m, s2.normalisation_factor));
}

/// The mark counts only within 80% to 140% of the index: two power prices
/// whose marks (quote price times power price over the factor) both lie at
/// or above 140% of the index, or both at or below 80% of it, give the same
/// new factor.
pub proof fn law_funding_mark_is_bounded(s: State, now: Timestamp, quote_price: Decimal, power1: Decimal, power2: Decimal)
    requires
        ({
            let index = (quote_price.atomics * quote_price.atomics) / 1_000_000_000_000_000_000int;
            let upper = index * 1_400_000_000_000_000_000int / 1_000_000_000_000_000_000int;
            let lower = index * 800_000_000_000_000_000int / 1_000_000_000_000_000_000int;
            let mark1 = ((quote_price.atomics * power1.atomics) / 1_000_000_000_000_000_000int) * 1_000_000_000_000_000_000int
                / (s.normalisation_factor.atomics as int);
            let mark2 = ((quote_price.atomics * power2.atomics) / 1_000_000_000_000_000_000int) * 1_000_000_000_000_000_000int
                / (s.normalisation_factor.atomics as int);
            (mark1 >= upper && mark2 >= upper) || (mark1 <= lower && mark2 <= lower)
        }),
    ensures
        calculate_normalisation_factor_result(s, now, quote_price, power1)
            == calculate_normalisation_factor_result(s, now, quote_price, power2),
{
    let index = index_of(quote_price);
    assert(mul_floor(index, 800_000_000_000_000_000) <= mul_floor(index, 1_400_000_000_000_000_000)) by (nonlinear_arith)
        requires index >= 0;
    assert(funding_base(s, quote_price, power1) == funding_base(s, quote_price, power2));
}

} // verus!
