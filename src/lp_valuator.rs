//! Valuation of a liquidity-provider position: pool share, current value,
//! holding value and impermanent-loss fraction.
use vstd::arithmetic::div_mod::{lemma_div_is_ordered, lemma_div_multiples_vanish};
use vstd::prelude::*;

verus! {

use crate::constant::{
    ORIGINAL_ETH, ORIGINAL_USDC, PAIR_A_LP_TOTAL_SUPPLY, PAIR_A_RESERVE_ETH, PAIR_A_RESERVE_USDC,
    PRICE_ETH_USD, PRICE_USDC_USD, SCALE, USER_LP_AMOUNT,
};
use crate::util::{mul_div, mul_div_spec};

/// Reserves of a two-token pool and its LP-token supply, all scaled.
/// A zero `total_supply` means that no shares exist yet.
#[derive(Clone, Copy, Debug, PartialEq, Eq, Structural)]
pub struct Pool {
    pub reserve_a: u128,
    pub reserve_b: u128,
    pub total_supply: u128,
}

/// An LP position: the LP tokens held and the token amounts deposited at
/// entry, all scaled.
#[derive(Clone, Copy, Debug, PartialEq, Eq, Structural)]
pub struct Position {
    pub lp_amount: u128,
    pub original_a: u128,
    pub original_b: u128,
}

/// USD price of one unit of each token, scaled.
#[derive(Clone, Copy, Debug, PartialEq, Eq, Structural)]
pub struct Prices {
    pub price_a: u128,
    pub price_b: u128,
}

/// `x + y`, or `u128::MAX` where the sum does not fit.
pub open spec fn saturating_sum(x: int, y: int) -> int {
    if x + y > u128::MAX {
        u128::MAX as int
    } else {
        x + y
    }
}

/// USD value of `amount` units at `price`.
pub open spec fn value_at(amount: int, price: int) -> int {
    mul_div_spec(amount, price, SCALE as int)
}

/// The position's fraction of the pool, scaled by `SCALE`.
pub open spec fn share_of(position: Position, pool: Pool) -> int {
    mul_div_spec(position.lp_amount as int, SCALE as int, pool.total_supply as int)
}

/// The position's pro-rata claim on `reserve`.
pub open spec fn claim_on(reserve: u128, position: Position, pool: Pool) -> int {
    mul_div_spec(reserve as int, share_of(position, pool), SCALE as int)
}

/// What the position would realize if withdrawn now, in USD.
pub open spec fn current_value_of(position: Position, pool: Pool, prices: Prices) -> int {
    saturating_sum(
        value_at(claim_on(pool.reserve_a, position, pool), prices.price_a as int),
        value_at(claim_on(pool.reserve_b, position, pool), prices.price_b as int),
    )
}

/// What the originally deposited tokens would be worth now, in USD.
pub open spec fn holding_value_of(position: Position, prices: Prices) -> int {
    saturating_sum(
        value_at(position.original_a as int, prices.price_a as int),
        value_at(position.original_b as int, prices.price_b as int),
    )
}

/// The shortfall of the current value below the holding value, as a fraction
/// of the holding value scaled by `SCALE`; `0` without a shortfall or without
/// a holding value.
pub open spec fn il_of(position: Position, pool: Pool, prices: Prices) -> int {
    let holding = holding_value_of(position, prices);
    let current = current_value_of(position, pool, prices);
    if holding == 0 || current >= holding {
        0
    } else {
        mul_div_spec(holding - current, SCALE as int, holding)
    }
}

/// The position's share of the pool: `lp_amount * SCALE / total_supply`,
/// rounded down, and `0` for a pool without shares. A position holding more
/// than the supply gets a share above `SCALE`.
pub fn compute_share(position: &Position, pool: &Pool) -> (r: u128)
    ensures
        r as int == share_of(*position, *pool),
        pool.total_supply == 0 ==> r == 0,
{
    mul_div(position.lp_amount, SCALE, pool.total_supply)
}

/// Current value of the position in USD: its pro-rata claim on each reserve,
/// valued at the current prices, summed (saturating at `u128::MAX`).
pub fn compute_current_value(position: &Position, pool: &Pool, prices: &Prices) -> (r: u128)
    ensures
        r as int == current_value_of(*position, *pool, *prices),
{
    let share = compute_share(position, pool);
    let amount_a = mul_div(pool.reserve_a, share, SCALE);
    let amount_b = mul_div(pool.reserve_b, share, SCALE);
    let value_a = mul_div(amount_a, prices.price_a, SCALE);
    let value_b = mul_div(amount_b, prices.price_b, SCALE);
    value_a.saturating_add(value_b)
}

/// Value in USD of the originally deposited amounts at the current prices
/// (summed, saturating at `u128::MAX`).
pub fn compute_holding_value(position: &Position, prices: &Prices) -> (r: u128)
    ensures
        r as int == holding_value_of(*position, *prices),
{
    let value_a = mul_div(position.original_a, prices.price_a, SCALE);
    let value_b = mul_div(position.original_b, prices.price_b, SCALE);
    value_a.saturating_add(value_b)
}

/// Impermanent-loss fraction, scaled by `SCALE`: the shortfall of the
/// current value below the holding value, over the holding value. A gain, or
/// a zero holding value, gives `0`. The result never exceeds `SCALE`.
pub fn compute_il(position: &Position, pool: &Pool, prices: &Prices) -> (r: u128)
    ensures
        r as int == il_of(*position, *pool, *prices),
        r <= SCALE,
        current_value_of(*position, *pool, *prices) >= holding_value_of(*position, *prices)
            ==> r == 0,
{
    let holding = compute_holding_value(position, prices);
    if holding == 0 {
        return 0;
    }
    let current = compute_current_value(position, pool, prices);
    if current >= holding {
        return 0;
    }
    proof {
        lemma_loss_fraction_at_most_one((holding - current) as u128, holding);
    }
    mul_div(holding - current, SCALE, holding)
}

/// A shortfall no larger than its base is at most a whole (`SCALE`).
proof fn lemma_loss_fraction_at_most_one(loss: u128, base: u128)
    requires
        0 < base,
        loss <= base,
    ensures
        mul_div_spec(loss as int, SCALE as int, base as int) <= SCALE,
{
    let l = loss as int;
    let b = base as int;
    let s = SCALE as int;
    assert(l * s <= s * b) by (nonlinear_arith)
        requires
            l <= b,
            0 <= s,
    ;
    lemma_div_is_ordered(l * s, s * b, b);
    lemma_div_multiples_vanish(s, b);
}

/// The impermanent-loss fraction never exceeds a whole: for every pool,
/// position and prices, `0 <= il <= SCALE`.
pub proof fn lemma_il_within_unit(position: Position, pool: Pool, prices: Prices)
    ensures
        0 <= il_of(position, pool, prices) <= SCALE,
{
    let holding = holding_value_of(position, prices);
    let current = current_value_of(position, pool, prices);
    if holding != 0 && current < holding {
        assert(0 <= current);
        assert(holding <= u128::MAX);
        lemma_loss_fraction_at_most_one((holding - current) as u128, holding as u128);
    }
}

/// Where the current value is at least the holding value, there is no
/// impermanent loss.
pub proof fn lemma_no_loss_without_shortfall(position: Position, pool: Pool, prices: Prices)
    requires
        current_value_of(position, pool, prices) >= holding_value_of(position, prices),
    ensures
        il_of(position, pool, prices) == 0,
{
}

/// A pool without LP-token supply gives every position a share of `0`.
pub proof fn lemma_empty_pool_share(position: Position, pool: Pool)
    requires
        pool.total_supply == 0,
    ensures
        share_of(position, pool) == 0,
{
}

/// The sample pool, position and prices of `constant`, valued: returns the
/// current value, the holding value and the impermanent-loss fraction.
pub fn compute_values_from_constants() -> (r: (u128, u128, u128))
    ensures
        ({
            let pool = Pool {
                reserve_a: PAIR_A_RESERVE_ETH,
                reserve_b: PAIR_A_RESERVE_USDC,
                total_supply: PAIR_A_LP_TOTAL_SUPPLY,
            };
            let position = Position {
                lp_amount: USER_LP_AMOUNT,
                original_a: ORIGINAL_ETH,
                original_b: ORIGINAL_USDC,
            };
            let prices = Prices { price_a: PRICE_ETH_USD, price_b: PRICE_USDC_USD };
            &&& r.0 as int == current_value_of(position, pool, prices)
            &&& r.1 as int == holding_value_of(position, prices)
            &&& r.2 as int == il_of(position, pool, prices)
        }),
{
    let pool = Pool {
        reserve_a: PAIR_A_RESERVE_ETH,
        reserve_b: PAIR_A_RESERVE_USDC,
        total_supply: PAIR_A_LP_TOTAL_SUPPLY,
    };
    let position = Position {
        lp_amount: USER_LP_AMOUNT,
        original_a: ORIGINAL_ETH,
        original_b: ORIGINAL_USDC,
    };
    let prices = Prices { price_a: PRICE_ETH_USD, price_b: PRICE_USDC_USD };
    let lp_value = compute_current_value(&position, &pool, &prices);
    let holding_value = compute_holding_value(&position, &prices);
    let il = compute_il(&position, &pool, &prices);
    (lp_value, holding_value, il)
}

} // verus!
