//! Fixed-point decimals with 18 fractional digits, block timestamps and the
//! integer helpers that the protocol's formulas are built from.

use vstd::prelude::*;

verus! {

/// A non-negative fixed-point number with 18 decimal places, held as its
/// integer count of 10^-18 units ("atomics").
#[derive(Clone, Copy, Debug, PartialEq, Eq, Structural)]
pub struct Decimal {
    pub atomics: u128,
}

/// Number of decimal places of a `Decimal`.
pub const DECIMAL_PLACES: u32 = 18;

/// 10^18, the atomics of one.
pub const DECIMAL_FRACTIONAL: u128 = 1_000_000_000_000_000_000u128;

pub open spec fn one_atomics() -> int {
    1_000_000_000_000_000_000
}

/// 10 to the power `n`.
pub open spec fn pow10(n: nat) -> nat
    decreases n,
{
    if n == 0 {
        1
    } else {
        10 * pow10((n - 1) as nat)
    }
}

/// The product of two decimals given by atomics, rounded down.
pub open spec fn mul_floor(a: int, b: int) -> int {
    (a * b) / one_atomics()
}

/// `n / d` as decimal atomics, rounded down.
pub open spec fn ratio_floor(n: int, d: int) -> int {
    (n * one_atomics()) / d
}

pub open spec fn fits_u128(x: int) -> bool {
    0 <= x <= u128::MAX
}

/// The atomics that `from_atomics(atomics, places)` denotes.
pub open spec fn from_atomics_value(atomics: int, places: nat) -> int {
    if places < 18 {
        atomics * pow10((18 - places) as nat)
    } else {
        atomics / (pow10((places - 18) as nat) as int)
    }
}

/// An integer amount with `places` decimals rounded down from a decimal.
pub open spec fn to_fixed_value(d: Decimal, places: nat) -> int {
    d.atomics as int / (pow10((18 - places) as nat) as int)
}

pub proof fn lemma_pow10_positive(n: nat)
    ensures
        pow10(n) >= 1,
    decreases n,
{
    if n > 0 {
        lemma_pow10_positive((n - 1) as nat);
    }
}

pub proof fn lemma_pow10_monotone(m: nat, n: nat)
    requires
        m <= n,
    ensures
        pow10(m) <= pow10(n),
    decreases n,
{
    if m < n {
        lemma_pow10_monotone(m, (n - 1) as nat);
        lemma_pow10_positive((n - 1) as nat);
    }
}

pub proof fn lemma_pow10_38()
    ensures
        pow10(38) == 100_000_000_000_000_000_000_000_000_000_000_000_000,
        pow10(18) == 1_000_000_000_000_000_000,
{
    reveal_with_fuel(pow10, 39);
}

/// `10^n` as an integer, for exponents that fit in 128 bits.
pub fn pow10_u128(n: u32) -> (r: u128)
    requires
        n <= 38,
    ensures
        r == pow10(n as nat),
{
    let mut r: u128 = 1;
    let mut i: u32 = 0;
    while i < n
        invariant
            i <= n <= 38,
            r == pow10(i as nat),
        decreases n - i,
    {
        proof {
            lemma_pow10_38();
            lemma_pow10_monotone((i + 1) as nat, 38);
        }
        r = r * 10;
        i = i + 1;
    }
    r
}

/// Product of two decimals rounded down, or `None` when it exceeds the range.
///
/// Trusted: calls `cosmwasm_std::Decimal::checked_mul`, which computes
/// `a * b / 10^18` in 256 bits and fails when the result does not fit in 128 bits.
#[verifier::external_body]
pub(crate) fn decimal_checked_mul(a: Decimal, b: Decimal) -> (r: Option<Decimal>)
    ensures
        r == (if fits_u128(mul_floor(a.atomics as int, b.atomics as int)) {
            Some(Decimal { atomics: mul_floor(a.atomics as int, b.atomics as int) as u128 })
        } else {
            None::<Decimal>
        }),
{
    match cosmwasm_std::Decimal::raw(a.atomics).checked_mul(cosmwasm_std::Decimal::raw(b.atomics)) {
        Ok(d) => Some(Decimal { atomics: d.atomics().u128() }),
        Err(_) => None,
    }
}

/// `numerator / denominator` as a decimal rounded down, or `None` when the
/// denominator is zero or the ratio exceeds the range.
///
/// Trusted: calls `cosmwasm_std::Decimal::checked_from_ratio`, which computes
/// `numerator * 10^18 / denominator` in 256 bits and fails on a zero
/// denominator or a result above 128 bits.
#[verifier::external_body]
pub(crate) fn decimal_checked_from_ratio(numerator: u128, denominator: u128) -> (r: Option<Decimal>)
    ensures
        r == (if denominator != 0 && fits_u128(ratio_floor(numerator as int, denominator as int)) {
            Some(Decimal { atomics: ratio_floor(numerator as int, denominator as int) as u128 })
        } else {
            None::<Decimal>
        }),
{
    match cosmwasm_std::Decimal::checked_from_ratio(numerator, denominator) {
        Ok(d) => Some(Decimal { atomics: d.atomics().u128() }),
        Err(_) => None,
    }
}

/// The decimal whose value is `atomics * 10^-places`, or `None` when it
/// exceeds the range: scales up by `10^(18 - places)` with an overflow
/// check, or divides (rounding down) by `10^(places - 18)`, which gives zero
/// once that power exceeds 128 bits.
pub(crate) fn decimal_from_atomics(atomics: u128, places: u32) -> (r: Option<Decimal>)
    ensures
        r == (if fits_u128(from_atomics_value(atomics as int, places as nat)) {
            Some(Decimal { atomics: from_atomics_value(atomics as int, places as nat) as u128 })
        } else {
            None::<Decimal>
        }),
{
    if places < DECIMAL_PLACES {
        let factor = pow10_u128(DECIMAL_PLACES - places);
        match atomics.checked_mul(factor) {
            Some(a) => Some(Decimal { atomics: a }),
            None => None,
        }
    } else if places - DECIMAL_PLACES <= 38 {
        let factor = pow10_u128(places - DECIMAL_PLACES);
        proof {
            lemma_pow10_positive((places - DECIMAL_PLACES) as nat);
        }
        Some(Decimal { atomics: atomics / factor })
    } else {
        proof {
            lemma_pow10_38();
            lemma_pow10_monotone(39, (places - 18) as nat);
            reveal_with_fuel(pow10, 2);
            assert(pow10(39) == 10 * pow10(38));
            assert(atomics as int / (pow10((places - 18) as nat) as int) == 0) by (nonlinear_arith)
                requires
                    0 <= atomics < pow10((places - 18) as nat),
            ;
        }
        Some(Decimal { atomics: 0 })
    }
}


impl Decimal {
    /// The decimal 0.
    pub fn zero() -> (r: Decimal)
        ensures
            r.atomics == 0,
    {
        Decimal { atomics: 0 }
    }

    /// The decimal 1.
    pub fn one() -> (r: Decimal)
        ensures
            r.atomics == one_atomics(),
    {
        Decimal { atomics: DECIMAL_FRACTIONAL }
    }

    /// `x` percent.
    pub fn percent(x: u64) -> (r: Decimal)
        ensures
            r.atomics == x as int * 10_000_000_000_000_000,
    {
        Decimal { atomics: (x as u128) * 10_000_000_000_000_000u128 }
    }

    /// A decimal given directly by its atomics.
    pub fn raw(atomics: u128) -> (r: Decimal)
        ensures
            r.atomics == atomics,
    {
        Decimal { atomics }
    }

    pub fn is_zero(&self) -> (r: bool)
        ensures
            r == (self.atomics == 0),
    {
        self.atomics == 0
    }

    /// Product rounded down; the caller guarantees it fits.
    pub fn mul(self, other: Decimal) -> (r: Decimal)
        requires
            fits_u128(mul_floor(self.atomics as int, other.atomics as int)),
        ensures
            r.atomics == mul_floor(self.atomics as int, other.atomics as int),
    {
        match decimal_checked_mul(self, other) {
            Some(d) => d,
            None => { proof { assert(false); } Decimal { atomics: 0 } },
        }
    }

    /// Quotient rounded down; the caller guarantees a non-zero divisor and a
    /// quotient in range.
    pub fn div(self, other: Decimal) -> (r: Decimal)
        requires
            other.atomics != 0,
            fits_u128(ratio_floor(self.atomics as int, other.atomics as int)),
        ensures
            r.atomics == ratio_floor(self.atomics as int, other.atomics as int),
    {
        Decimal::from_ratio(self.atomics, other.atomics)
    }

    /// `numerator / denominator` rounded down; the caller guarantees a
    /// non-zero denominator and a ratio in range.
    pub fn from_ratio(numerator: u128, denominator: u128) -> (r: Decimal)
        requires
            denominator != 0,
            fits_u128(ratio_floor(numerator as int, denominator as int)),
        ensures
            r.atomics == ratio_floor(numerator as int, denominator as int),
    {
        match decimal_checked_from_ratio(numerator, denominator) {
            Some(d) => d,
            None => { proof { assert(false); } Decimal { atomics: 0 } },
        }
    }

    /// Quotient rounded down, `None` on a zero divisor or a quotient out of range.
    pub fn checked_div(self, other: Decimal) -> (r: Option<Decimal>)
        ensures
            r == (if other.atomics != 0 && fits_u128(ratio_floor(self.atomics as int, other.atomics as int)) {
                Some(Decimal { atomics: ratio_floor(self.atomics as int, other.atomics as int) as u128 })
            } else {
                None::<Decimal>
            }),
    {
        decimal_checked_from_ratio(self.atomics, other.atomics)
    }

    /// Product rounded down, `None` when out of range.
    pub fn checked_mul(self, other: Decimal) -> (r: Option<Decimal>)
        ensures
            r == (if fits_u128(mul_floor(self.atomics as int, other.atomics as int)) {
                Some(Decimal { atomics: mul_floor(self.atomics as int, other.atomics as int) as u128 })
            } else {
                None::<Decimal>
            }),
    {
        decimal_checked_mul(self, other)
    }

    /// Difference, `None` when `other` is larger.
    pub fn checked_sub(self, other: Decimal) -> (r: Option<Decimal>)
        ensures
            r == (if other.atomics <= self.atomics {
                Some(Decimal { atomics: (self.atomics - other.atomics) as u128 })
            } else {
                None::<Decimal>
            }),
    {
        if other.atomics <= self.atomics {
            Some(Decimal { atomics: self.atomics - other.atomics })
        } else {
            None
        }
    }

    /// `atomics * 10^-places`; the caller guarantees it fits.
    pub fn from_atomics(atomics: u128, places: u32) -> (r: Decimal)
        requires
            fits_u128(from_atomics_value(atomics as int, places as nat)),
        ensures
            r.atomics == from_atomics_value(atomics as int, places as nat),
    {
        match decimal_from_atomics(atomics, places) {
            Some(d) => d,
            None => { proof { assert(false); } Decimal { atomics: 0 } },
        }
    }

    /// Whether `self <= other`.
    pub fn le(&self, other: &Decimal) -> (r: bool)
        ensures
            r == (self.atomics <= other.atomics),
    {
        self.atomics <= other.atomics
    }

    /// Whether `self < other`.
    pub fn lt(&self, other: &Decimal) -> (r: bool)
        ensures
            r == (self.atomics < other.atomics),
    {
        self.atomics < other.atomics
    }
}

/// Converts a decimal into an integer amount with `decimal_places` decimals,
/// rounding down.
pub fn decimal_to_fixed(value: Decimal, decimal_places: u32) -> (r: u128)
    requires
        decimal_places <= 18,
    ensures
        r == to_fixed_value(value, decimal_places as nat),
{
    let factor = pow10_u128(18 - decimal_places);
    proof {
        lemma_pow10_positive((18 - decimal_places) as nat);
    }
    value.atomics / factor
}

/// Reading an amount with `places` decimals as a decimal and converting it
/// back to that many decimals gives the amount again.
pub proof fn law_fixed_round_trip(amount: u128, places: u32)
    requires
        places <= 18,
        fits_u128(from_atomics_value(amount as int, places as nat)),
    ensures
        to_fixed_value(Decimal { atomics: from_atomics_value(amount as int, places as nat) as u128 }, places as nat) == amount,
{
    let k = pow10((18 - places) as nat) as int;
    lemma_pow10_positive((18 - places) as nat);
    let v = from_atomics_value(amount as int, places as nat);
    if places < 18 {
        assert(v == amount as int * k);
        vstd::arithmetic::div_mod::lemma_div_multiples_vanish(amount as int, k);
        assert(amount as int * k == k * amount as int) by (nonlinear_arith);
        assert(v / k == amount);
    } else {
        assert(pow10(0) == 1);
        assert(k == 1);
        assert(v == amount);
    }
    assert(((v as u128) as int) == v);
}

/// A point in time, in nanoseconds since the epoch.
#[derive(Clone, Copy, Debug, PartialEq, Eq, Structural)]
pub struct Timestamp {
    pub nanos: u64,
}

pub open spec fn nanos_per_second() -> int {
    1_000_000_000
}

impl Timestamp {
    pub open spec fn secs(self) -> int {
        self.nanos as int / nanos_per_second()
    }

    pub fn from_nanos(nanos: u64) -> (r: Timestamp)
        ensures
            r.nanos == nanos,
    {
        Timestamp { nanos }
    }

    pub fn from_seconds(seconds: u64) -> (r: Timestamp)
        requires
            seconds * nanos_per_second() <= u64::MAX,
        ensures
            r.nanos == seconds * nanos_per_second(),
    {
        Timestamp { nanos: seconds * 1_000_000_000 }
    }

    /// Whole seconds since the epoch.
    pub fn seconds(&self) -> (r: u64)
        ensures
            r == self.secs(),
    {
        self.nanos / 1_000_000_000
    }

    /// The timestamp `seconds` earlier; the caller guarantees it is not
    /// before the epoch.
    pub fn minus_seconds(&self, seconds: u64) -> (r: Timestamp)
        requires
            seconds * nanos_per_second() <= self.nanos,
        ensures
            r.nanos == self.nanos - seconds * nanos_per_second(),
    {
        Timestamp { nanos: self.nanos - seconds * 1_000_000_000 }
    }
}

} // verus!
