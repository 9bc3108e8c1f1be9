//! The banded coverage policy: no payout up to a threshold loss, the slice of
//! loss between threshold and cap covered at a payout ratio, nothing more
//! beyond the cap.
use vstd::prelude::*;

verus! {

use crate::constant::SCALE;
use crate::lp_valuator::{compute_values_from_constants, holding_value_of, il_of, Pool, Position, Prices};
use crate::constant::{
    ORIGINAL_ETH, ORIGINAL_USDC, PAIR_A_LP_TOTAL_SUPPLY, PAIR_A_RESERVE_ETH, PAIR_A_RESERVE_USDC,
    PRICE_ETH_USD, PRICE_USDC_USD, USER_LP_AMOUNT,
};
use crate::util::{lemma_mul_div_monotone, mul_div, mul_div_spec};

/// Basis points in a whole (10000 bps = 100%).
pub const BPS_DENOMINATOR: u128 = 10_000;

/// Coverage parameters, each a fraction scaled by `SCALE`: no payout while
/// the loss is at most `threshold`, losses beyond `cap` are not covered
/// further, and `payout_ratio` of the covered loss is paid.
#[derive(Clone, Copy, Debug, PartialEq, Eq, Structural)]
pub struct Policy {
    pub threshold: u128,
    pub cap: u128,
    pub payout_ratio: u128,
}

impl Policy {
    /// A well-formed policy: `threshold < cap <= SCALE` and
    /// `payout_ratio <= SCALE`.
    pub open spec fn wf(self) -> bool {
        &&& self.threshold < self.cap
        &&& self.cap <= SCALE
        &&& self.payout_ratio <= SCALE
    }

    /// A policy from parameters in basis points.
    pub fn from_bps(threshold_bps: u128, cap_bps: u128, payout_ratio_bps: u128) -> (r: Policy)
        requires
            threshold_bps <= BPS_DENOMINATOR,
            cap_bps <= BPS_DENOMINATOR,
            payout_ratio_bps <= BPS_DENOMINATOR,
        ensures
            r.threshold == bps_fraction(threshold_bps as int),
            r.cap == bps_fraction(cap_bps as int),
            r.payout_ratio == bps_fraction(payout_ratio_bps as int),
            threshold_bps < cap_bps ==> r.wf(),
    {
        let threshold = bps_to_fraction(threshold_bps);
        let cap = bps_to_fraction(cap_bps);
        let payout_ratio = bps_to_fraction(payout_ratio_bps);
        assert(threshold_bps < cap_bps ==> threshold < cap) by (nonlinear_arith)
            requires
                threshold == threshold_bps * 100_000_000_000_000,
                cap == cap_bps * 100_000_000_000_000,
        ;
        Policy { threshold, cap, payout_ratio }
    }
}

/// `bps` basis points as a fraction scaled by `SCALE`.
pub open spec fn bps_fraction(bps: int) -> int {
    bps * (SCALE / BPS_DENOMINATOR) as int
}

/// Converts basis points to a fraction scaled by `SCALE`: `bps * 10^14`.
pub fn bps_to_fraction(bps: u128) -> (r: u128)
    requires
        bps <= BPS_DENOMINATOR,
    ensures
        r == bps_fraction(bps as int),
        r <= SCALE,
{
    let unit = SCALE / BPS_DENOMINATOR;
    assert(unit == 100_000_000_000_000);
    assert(bps * unit <= BPS_DENOMINATOR * unit) by (nonlinear_arith)
        requires
            bps <= BPS_DENOMINATOR,
            unit >= 0,
    ;
    bps * unit
}

/// The payout in USD for a loss fraction `il` of a position worth `holding`
/// had its tokens been held: the loss, capped at `cap`, above `threshold`,
/// as an amount of `holding`, times `payout_ratio`; `0` where the capped loss
/// does not exceed the threshold.
pub open spec fn payout_of(il: int, holding: int, policy: Policy) -> int {
    let capped = if il > policy.cap { policy.cap as int } else { il };
    if capped <= policy.threshold {
        0
    } else {
        let loss = mul_div_spec(holding, capped - policy.threshold, SCALE as int);
        mul_div_spec(loss, policy.payout_ratio as int, SCALE as int)
    }
}

/// Payout in USD under `policy` for the loss fraction `il_fraction` of a
/// position whose holding value is `holding_value_usd`.
pub fn compute_payout(il_fraction: u128, holding_value_usd: u128, policy: &Policy) -> (r: u128)
    ensures
        r as int == payout_of(il_fraction as int, holding_value_usd as int, *policy),
        il_fraction <= policy.threshold ==> r == 0,
{
    let il_capped = if il_fraction > policy.cap { policy.cap } else { il_fraction };
    if il_capped <= policy.threshold {
        return 0;
    }
    let covered = il_capped - policy.threshold;
    let loss_amount = mul_div(holding_value_usd, covered, SCALE);
    mul_div(loss_amount, policy.payout_ratio, SCALE)
}

/// The payout never decreases as the loss fraction grows.
pub proof fn lemma_payout_monotone(il1: u128, il2: u128, holding: u128, policy: Policy)
    requires
        il1 <= il2,
    ensures
        payout_of(il1 as int, holding as int, policy) <= payout_of(il2 as int, holding as int, policy),
{
    let c1: int = if il1 > policy.cap { policy.cap as int } else { il1 as int };
    let c2: int = if il2 > policy.cap { policy.cap as int } else { il2 as int };
    if c1 > policy.threshold {
        let s = SCALE as int;
        lemma_mul_div_monotone(holding as int, holding as int, c1 - policy.threshold, c2 - policy.threshold, s);
        let l1 = mul_div_spec(holding as int, c1 - policy.threshold, s);
        let l2 = mul_div_spec(holding as int, c2 - policy.threshold, s);
        lemma_mul_div_monotone(l1, l2, policy.payout_ratio as int, policy.payout_ratio as int, s);
    }
}

/// Outside the band the payout is flat: `0` for a loss fraction at most the
/// threshold, and the payout at the cap for a loss fraction at or above it.
pub proof fn lemma_payout_flat_outside_band(il: u128, holding: u128, policy: Policy)
    ensures
        il <= policy.threshold ==> payout_of(il as int, holding as int, policy) == 0,
        il >= policy.cap ==> payout_of(il as int, holding as int, policy) == payout_of(
            policy.cap as int,
            holding as int,
            policy,
        ),
{
}

/// The payout never exceeds the covered band of the holding value times the
/// payout ratio, `mul_div(holding, cap - threshold, SCALE) * payout_ratio / SCALE`,
/// and equals it once the loss fraction reaches the cap.
pub proof fn lemma_payout_bounded(il: u128, holding: u128, policy: Policy)
    requires
        policy.wf(),
    ensures
        payout_of(il as int, holding as int, policy) <= mul_div_spec(
            holding as int,
            policy.cap - policy.threshold,
            SCALE as int,
        ) * policy.payout_ratio / SCALE as int,
        il >= policy.cap ==> payout_of(il as int, holding as int, policy) == mul_div_spec(
            holding as int,
            policy.cap - policy.threshold,
            SCALE as int,
        ) * policy.payout_ratio / SCALE as int,
{
    let s = SCALE as int;
    let band = mul_div_spec(holding as int, policy.cap - policy.threshold, s);
    let r = policy.payout_ratio as int;
    assert(0 <= band <= u128::MAX);
    assert(band * r <= band * s) by (nonlinear_arith)
        requires
            0 <= band,
            r <= s,
    ;
    assert(band * r / s <= band) by (nonlinear_arith)
        requires
            band * r <= band * s,
            0 < s,
            0 <= band,
    ;
    assert(0 <= band * r / s) by (nonlinear_arith)
        requires
            0 <= band,
            0 <= r,
            0 < s,
    ;
    assert(payout_of(policy.cap as int, holding as int, policy) == band * r / s);
    lemma_payout_flat_outside_band(il, holding, policy);
    if il < policy.cap {
        lemma_payout_monotone(il, policy.cap, holding, policy);
    }
}

/// The sample position of `constant` claimed under a policy of 10% threshold,
/// 20% cap and 80% payout ratio: returns the payout and the loss fraction.
pub fn claim_demo() -> (r: (u128, u128))
    ensures
        ({
            let pool = Pool {
                reserve_a: PAIR_A_RESERVE_ETH,
                reserve_b: PAIR_A_RESERVE_USDC,
                total_supply: PAIR_A_LP_TOTAL_SUPPLY,
            };
            let position = Position {
                lp_amount: USER_LP_AMOUNT,
                original_a: ORIGINAL_ETH,
                original_b: ORIGINAL_USDC,
            };
            let prices = Prices { price_a: PRICE_ETH_USD, price_b: PRICE_USDC_USD };
            let policy = Policy {
                threshold: bps_fraction(1000) as u128,
                cap: bps_fraction(2000) as u128,
                payout_ratio: bps_fraction(8000) as u128,
            };
            let il = il_of(position, pool, prices);
            &&& r.1 as int == il
            &&& r.0 as int == payout_of(il, holding_value_of(position, prices), policy)
        }),
{
    let (_lp_value, holding_value, il_fraction) = compute_values_from_constants();
    let policy = Policy::from_bps(1000, 2000, 8000);
    let payout = compute_payout(il_fraction, holding_value, &policy);
    (payout, il_fraction)
}

} // verus!
