//! Fixed-point weights with eighteen decimal places, and the floor
//! multiplications and divisions that the accounting engine performs with them.
use vstd::prelude::*;

verus! {

/// Number of atomic units in one whole: a weight of `atomics` stands for
/// `atomics / 10^18`.
pub const DECIMAL_FRACTIONAL: u128 = 1_000_000_000_000_000_000;

/// `floor(amount * numerator / denominator)` when it fits in 128 bits.
pub open spec fn ratio_floor(amount: int, numerator: int, denominator: int) -> Option<u128> {
    if denominator == 0 {
        None
    } else if amount * numerator / denominator <= u128::MAX {
        Some((amount * numerator / denominator) as u128)
    } else {
        None
    }
}

/// Relies on cosmwasm_std::Decimal::checked_from_ratio: the atomics of
/// `numerator / denominator`, rounded down, or an error on a zero denominator
/// or when they do not fit in 128 bits.
#[verifier::external_body]
fn decimal_atomics_from_ratio(numerator: u128, denominator: u128) -> (r: Option<u128>)
    ensures
        r == ratio_floor(numerator as int, DECIMAL_FRACTIONAL as int, denominator as int),
{
    cosmwasm_std::Decimal::checked_from_ratio(numerator, denominator).ok().map(|d| d.atomics().u128())
}

/// Relies on cosmwasm_std::Uint128::checked_mul_floor with a Decimal of the
/// given atomics: `floor(amount * atomics / 10^18)`, or an error on overflow.
#[verifier::external_body]
fn checked_mul_floor(amount: u128, atomics: u128) -> (r: Option<u128>)
    ensures
        r == ratio_floor(amount as int, atomics as int, DECIMAL_FRACTIONAL as int),
{
    cosmwasm_std::Uint128::new(amount).checked_mul_floor(cosmwasm_std::Decimal::raw(atomics)).ok().map(
        |v| v.u128(),
    )
}

/// Relies on cosmwasm_std::Uint128::checked_div_floor with a Decimal of the
/// given atomics: `floor(amount * 10^18 / atomics)`, or an error when
/// `atomics` is zero or on overflow.
#[verifier::external_body]
fn checked_div_floor(amount: u128, atomics: u128) -> (r: Option<u128>)
    ensures
        r == ratio_floor(amount as int, DECIMAL_FRACTIONAL as int, atomics as int),
{
    cosmwasm_std::Uint128::new(amount).checked_div_floor(cosmwasm_std::Decimal::raw(atomics)).ok().map(
        |v| v.u128(),
    )
}

/// A non-negative fixed-point number: `atomics / 10^18`.
#[derive(Clone, Copy, Debug, PartialEq, Eq, Structural)]
pub struct Decimal {
    pub atomics: u128,
}

impl Decimal {
    /// The decimal with exactly `atomics` atomic units.
    pub fn raw(atomics: u128) -> (r: Decimal)
        ensures
            r.atomics == atomics,
    {
        Decimal { atomics }
    }

    /// The atomic units of this decimal.
    pub fn atomics(&self) -> (r: u128)
        ensures
            r == self.atomics,
    {
        self.atomics
    }

    /// `numerator / denominator`, rounded down to eighteen decimal places;
    /// `None` for a zero denominator or a value that does not fit.
    pub fn checked_from_ratio(numerator: u128, denominator: u128) -> (r: Option<Decimal>)
        ensures
            match ratio_floor(numerator as int, DECIMAL_FRACTIONAL as int, denominator as int) {
                Some(a) => r == Some(Decimal { atomics: a }),
                None => r is None,
            },
    {
        match decimal_atomics_from_ratio(numerator, denominator) {
            Some(a) => Some(Decimal { atomics: a }),
            None => None,
        }
    }

    /// `numerator / denominator`, rounded down to eighteen decimal places.
    pub fn from_ratio(numerator: u128, denominator: u128) -> (r: Decimal)
        requires
            denominator > 0,
            numerator * DECIMAL_FRACTIONAL / (denominator as int) <= u128::MAX,
        ensures
            r.atomics == numerator * DECIMAL_FRACTIONAL / (denominator as int),
    {
        match decimal_atomics_from_ratio(numerator, denominator) {
            Some(a) => Decimal { atomics: a },
            None => Decimal { atomics: 0 },
        }
    }
}

/// `floor(amount * weight)`; `None` when it does not fit in 128 bits.
pub fn mul_floor(amount: u128, weight: Decimal) -> (r: Option<u128>)
    ensures
        r == ratio_floor(amount as int, weight.atomics as int, DECIMAL_FRACTIONAL as int),
{
    checked_mul_floor(amount, weight.atomics)
}

/// `floor(amount / weight)`, the inverse of the weighting; `None` for a zero
/// weight or a result that does not fit in 128 bits.
pub fn div_floor(amount: u128, weight: Decimal) -> (r: Option<u128>)
    ensures
        r == ratio_floor(amount as int, DECIMAL_FRACTIONAL as int, weight.atomics as int),
{
    checked_div_floor(amount, weight.atomics)
}

} // verus!
