//! Overflow-safe fixed-point multiply-divide.
use alloy_primitives::U256;
use vstd::arithmetic::div_mod::{lemma_div_is_ordered, lemma_fundamental_div_mod};
use vstd::arithmetic::mul::lemma_mul_inequality;
use vstd::prelude::*;

verus! {

pub use crate::constant::SCALE;

/// `floor(a * b / denom)` computed exactly, `0` when `denom == 0`, and
/// saturated to `u128::MAX` when the exact quotient does not fit in 128 bits.
pub open spec fn mul_div_spec(a: int, b: int, denom: int) -> int {
    if denom == 0 {
        0
    } else if a * b / denom > u128::MAX {
        u128::MAX as int
    } else {
        a * b / denom
    }
}

/// Relies on `alloy_primitives::U256` (ruint's `Uint<256, 4>`): `U256::from`
/// on a `u128` keeps the value; `*` of two values below 2^128 is exact, since
/// the product stays below 2^256 and the wrapping multiply does not wrap; `/`
/// rounds down and panics only on a zero divisor; `u128::try_from` fails
/// exactly when the value is above `u128::MAX`.
#[verifier::external_body]
fn wide_mul_div(a: u128, b: u128, denom: u128) -> (r: Option<u128>)
    requires
        denom != 0,
    ensures
        match r {
            Some(q) => q as int == (a as int) * (b as int) / (denom as int),
            None => (a as int) * (b as int) / (denom as int) > u128::MAX,
        },
{
    let q = (U256::from(a) * U256::from(b)) / U256::from(denom);
    u128::try_from(q).ok()
}

/// Computes `(a * b) / denom` rounded down, with the product held in 256 bits
/// so that it never overflows. A zero denominator gives `0`; a quotient above
/// `u128::MAX` saturates to `u128::MAX`.
pub fn mul_div(a: u128, b: u128, denom: u128) -> (r: u128)
    ensures
        r as int == mul_div_spec(a as int, b as int, denom as int),
{
    if denom == 0 {
        return 0;
    }
    match wide_mul_div(a, b, denom) {
        Some(q) => q,
        None => u128::MAX,
    }
}

/// Whether `mul_div(a, b, denom)` saturates: the denominator is non-zero
/// and the exact quotient is above `u128::MAX`. A saturated result means
/// that the inputs were out of the range the valuation is meant for.
pub fn mul_div_saturates(a: u128, b: u128, denom: u128) -> (r: bool)
    ensures
        r == (denom != 0 && (a as int) * (b as int) / (denom as int) > u128::MAX),
{
    if denom == 0 {
        return false;
    }
    match wide_mul_div(a, b, denom) {
        Some(_) => false,
        None => true,
    }
}

/// The share `lp_amount / total_supply` as a fraction scaled by `SCALE`
/// (`0` when `total_supply == 0`).
pub fn user_share_scaled(lp_amount: u128, total_supply: u128) -> (r: u128)
    ensures
        r as int == mul_div_spec(lp_amount as int, SCALE as int, total_supply as int),
        total_supply == 0 ==> r == 0,
{
    mul_div(lp_amount, SCALE, total_supply)
}

/// `mul_div` rounds down: wherever the denominator is non-zero and the
/// quotient does not saturate, `r * denom <= a * b < (r + 1) * denom` for
/// `r = mul_div(a, b, denom)`.
pub proof fn lemma_mul_div_rounds_down(a: u128, b: u128, denom: u128)
    requires
        denom != 0,
        (a as int) * (b as int) / (denom as int) <= u128::MAX,
    ensures
        mul_div_spec(a as int, b as int, denom as int) * denom <= (a as int) * (b as int),
        (a as int) * (b as int) < (mul_div_spec(a as int, b as int, denom as int) + 1) * denom,
{
    let p = (a as int) * (b as int);
    let d = denom as int;
    lemma_fundamental_div_mod(p, d);
    assert(0 <= p % d < d);
    assert((p / d) * d == d * (p / d)) by (nonlinear_arith);
    assert((p / d + 1) * d == d * (p / d) + d) by (nonlinear_arith);
}

/// `mul_div` is non-decreasing in each of its first two arguments.
pub proof fn lemma_mul_div_monotone(a1: int, a2: int, b1: int, b2: int, denom: int)
    requires
        0 <= a1 <= a2,
        0 <= b1 <= b2,
        0 <= denom,
    ensures
        mul_div_spec(a1, b1, denom) <= mul_div_spec(a2, b2, denom),
{
    if denom > 0 {
        lemma_mul_inequality(a1, a2, b1);
        lemma_mul_inequality(b1, b2, a2);
        assert(a2 * b1 == b1 * a2) by (nonlinear_arith);
        lemma_div_is_ordered(a1 * b1, a2 * b2, denom);
    }
}

} // verus!
