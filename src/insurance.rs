//! The stored state of one insured position: policy parameters in basis
//! points, the pool, the oracle prices, the position, and the owner who alone
//! may change them. Valuations read the state as one consistent snapshot.
use vstd::prelude::*;

verus! {

use crate::constant::{
    ORIGINAL_ETH, ORIGINAL_USDC, PAIR_A_LP_TOTAL_SUPPLY, PAIR_A_RESERVE_ETH, PAIR_A_RESERVE_USDC,
    PRICE_ETH_USD, PRICE_USDC_USD, USER_LP_AMOUNT,
};
use crate::lp_valuator::{
    compute_current_value, compute_holding_value, compute_il, compute_share, current_value_of,
    holding_value_of, il_of, share_of, Pool, Position, Prices,
};
use crate::policy_manager::{bps_fraction, compute_payout, payout_of, Policy, BPS_DENOMINATOR};

/// Why a change to the stored state was refused.
#[derive(Clone, Copy, Debug, PartialEq, Eq, Structural)]
pub enum InsuranceError {
    /// `initialize` was called a second time.
    AlreadyInitialized,
    /// The threshold is not below the cap.
    InvalidThreshold,
    /// The cap is above 100%.
    CapTooHigh,
    /// The payout ratio is above 100%.
    RatioTooHigh,
    /// The caller is not the owner.
    NotOwner,
    /// The position would hold more LP tokens than the pool's supply.
    InconsistentPosition,
}

/// The state of an insured position. Policy parameters are in basis points;
/// amounts and prices are scaled by `SCALE`.
#[derive(Clone, Copy, Debug)]
pub struct ILInsurance {
    pub threshold_bps: u128,
    pub upper_cap_bps: u128,
    pub payout_ratio_bps: u128,
    pub reserve_token_a: u128,
    pub reserve_token_b: u128,
    pub lp_total_supply: u128,
    pub price_token_a: u128,
    pub price_token_b: u128,
    pub user_lp_amount: u128,
    pub user_original_token_a: u128,
    pub user_original_token_b: u128,
    pub owner: [u8; 20],
    pub initialized: bool,
}

/// The first rule that the policy parameters `threshold_bps`,
/// `upper_cap_bps`, `payout_ratio_bps` break, if any: the threshold must be
/// below the cap, and the cap and the payout ratio at most 100%.
pub open spec fn policy_violation(threshold_bps: u128, upper_cap_bps: u128, payout_ratio_bps: u128) -> Option<InsuranceError> {
    if !(threshold_bps < upper_cap_bps) {
        Some(InsuranceError::InvalidThreshold)
    } else if upper_cap_bps > BPS_DENOMINATOR {
        Some(InsuranceError::CapTooHigh)
    } else if payout_ratio_bps > BPS_DENOMINATOR {
        Some(InsuranceError::RatioTooHigh)
    } else {
        None
    }
}

/// Whether two addresses are the same, byte for byte.
fn same_address(a: &[u8; 20], b: &[u8; 20]) -> (r: bool)
    ensures
        r == (a@ == b@),
{
    let mut i: usize = 0;
    while i < 20
        invariant
            i <= 20,
            a@.len() == 20,
            b@.len() == 20,
            forall|j: int| 0 <= j < i ==> a@[j] == b@[j],
        decreases 20 - i,
    {
        if a[i] != b[i] {
            assert(a@[i as int] != b@[i as int]);
            return false;
        }
        i += 1;
    }
    assert(a@ =~= b@);
    true
}

/// Checks the policy parameters in the order in which `policy_violation`
/// states its rules.
fn check_policy(threshold_bps: u128, upper_cap_bps: u128, payout_ratio_bps: u128) -> (r: Option<InsuranceError>)
    ensures
        r == policy_violation(threshold_bps, upper_cap_bps, payout_ratio_bps),
{
    if !(threshold_bps < upper_cap_bps) {
        Some(InsuranceError::InvalidThreshold)
    } else if upper_cap_bps > BPS_DENOMINATOR {
        Some(InsuranceError::CapTooHigh)
    } else if payout_ratio_bps > BPS_DENOMINATOR {
        Some(InsuranceError::RatioTooHigh)
    } else {
        None
    }
}

impl ILInsurance {
    /// The stored policy parameters are within range: threshold and cap
    /// ordered, cap and payout ratio at most 100%. (Before initialization
    /// all three are zero.)
    pub open spec fn wf(self) -> bool {
        &&& self.threshold_bps <= self.upper_cap_bps
        &&& self.upper_cap_bps <= BPS_DENOMINATOR
        &&& self.payout_ratio_bps <= BPS_DENOMINATOR
    }

    /// The stored pool.
    pub open spec fn pool_state(self) -> Pool {
        Pool {
            reserve_a: self.reserve_token_a,
            reserve_b: self.reserve_token_b,
            total_supply: self.lp_total_supply,
        }
    }

    /// The stored position.
    pub open spec fn position_state(self) -> Position {
        Position {
            lp_amount: self.user_lp_amount,
            original_a: self.user_original_token_a,
            original_b: self.user_original_token_b,
        }
    }

    /// The stored prices.
    pub open spec fn price_state(self) -> Prices {
        Prices { price_a: self.price_token_a, price_b: self.price_token_b }
    }

    /// The stored policy, as fractions scaled by `SCALE`.
    pub open spec fn policy_state(self) -> Policy {
        Policy {
            threshold: bps_fraction(self.threshold_bps as int) as u128,
            cap: bps_fraction(self.upper_cap_bps as int) as u128,
            payout_ratio: bps_fraction(self.payout_ratio_bps as int) as u128,
        }
    }

    /// A fresh, uninitialized state: every number zero, the zero address as
    /// owner.
    pub fn new() -> (r: ILInsurance)
        ensures
            r.wf(),
            !r.initialized,
            r.threshold_bps == 0 && r.upper_cap_bps == 0 && r.payout_ratio_bps == 0,
            r.pool_state() == (Pool { reserve_a: 0, reserve_b: 0, total_supply: 0 }),
            r.position_state() == (Position { lp_amount: 0, original_a: 0, original_b: 0 }),
            r.price_state() == (Prices { price_a: 0, price_b: 0 }),
            r.owner@ == seq![0u8; 20],
    {
        let r = ILInsurance {
            threshold_bps: 0,
            upper_cap_bps: 0,
            payout_ratio_bps: 0,
            reserve_token_a: 0,
            reserve_token_b: 0,
            lp_total_supply: 0,
            price_token_a: 0,
            price_token_b: 0,
            user_lp_amount: 0,
            user_original_token_a: 0,
            user_original_token_b: 0,
            owner: [0u8; 20],
            initialized: false,
        };
        assert(r.owner@ =~= seq![0u8; 20]);
        r
    }

    /// Sets the policy parameters (in basis points) and makes `caller` the
    /// owner. Refused, with the state unchanged, when the state is already
    /// initialized, and otherwise when the parameters break a rule of
    /// `policy_violation`.
    pub fn initialize(
        &mut self,
        caller: [u8; 20],
        threshold_bps: u128,
        upper_cap_bps: u128,
        payout_ratio_bps: u128,
    ) -> (r: Result<(), InsuranceError>)
        requires
            old(self).wf(),
        ensures
            final(self).wf(),
            old(self).initialized ==> r == Err::<(), InsuranceError>(InsuranceError::AlreadyInitialized),
            !old(self).initialized ==> match policy_violation(threshold_bps, upper_cap_bps, payout_ratio_bps) {
                Some(e) => r == Err::<(), InsuranceError>(e),
                None => r is Ok,
            },
            r is Err ==> *final(self) == *old(self),
            r is Ok ==> *final(self) == (ILInsurance {
                threshold_bps,
                upper_cap_bps,
                payout_ratio_bps,
                owner: caller,
                initialized: true,
                ..*old(self)
            }),
    {
        if self.initialized {
            return Err(InsuranceError::AlreadyInitialized);
        }
        if let Some(e) = check_policy(threshold_bps, upper_cap_bps, payout_ratio_bps) {
            return Err(e);
        }
        self.threshold_bps = threshold_bps;
        self.upper_cap_bps = upper_cap_bps;
        self.payout_ratio_bps = payout_ratio_bps;
        self.owner = caller;
        self.initialized = true;
        Ok(())
    }

    /// The policy parameters: threshold, cap and payout ratio, in basis
    /// points.
    pub fn get_policy(&self) -> (r: (u128, u128, u128))
        ensures
            r == (self.threshold_bps, self.upper_cap_bps, self.payout_ratio_bps),
    {
        (self.threshold_bps, self.upper_cap_bps, self.payout_ratio_bps)
    }

    /// The pool: reserve of token A, reserve of token B, LP-token supply.
    pub fn get_pool_state(&self) -> (r: (u128, u128, u128))
        ensures
            r == (self.reserve_token_a, self.reserve_token_b, self.lp_total_supply),
    {
        (self.reserve_token_a, self.reserve_token_b, self.lp_total_supply)
    }

    /// The prices of token A and token B.
    pub fn get_prices(&self) -> (r: (u128, u128))
        ensures
            r == (self.price_token_a, self.price_token_b),
    {
        (self.price_token_a, self.price_token_b)
    }

    /// The position: LP tokens held, token A and token B deposited.
    pub fn get_user_position(&self) -> (r: (u128, u128, u128))
        ensures
            r == (self.user_lp_amount, self.user_original_token_a, self.user_original_token_b),
    {
        (self.user_lp_amount, self.user_original_token_a, self.user_original_token_b)
    }

    /// The owner's address.
    pub fn owner(&self) -> (r: [u8; 20])
        ensures
            r == self.owner,
    {
        self.owner
    }

    /// Whether `initialize` has succeeded.
    pub fn is_initialized(&self) -> (r: bool)
        ensures
            r == self.initialized,
    {
        self.initialized
    }

    fn pool(&self) -> (r: Pool)
        ensures
            r == self.pool_state(),
    {
        Pool {
            reserve_a: self.reserve_token_a,
            reserve_b: self.reserve_token_b,
            total_supply: self.lp_total_supply,
        }
    }

    fn position(&self) -> (r: Position)
        ensures
            r == self.position_state(),
    {
        Position {
            lp_amount: self.user_lp_amount,
            original_a: self.user_original_token_a,
            original_b: self.user_original_token_b,
        }
    }

    fn prices(&self) -> (r: Prices)
        ensures
            r == self.price_state(),
    {
        Prices { price_a: self.price_token_a, price_b: self.price_token_b }
    }

    /// The position's share of the pool, scaled by `SCALE` (`0` for a pool
    /// without LP-token supply).
    pub fn calculate_user_share(&self) -> (r: u128)
        ensures
            r as int == share_of(self.position_state(), self.pool_state()),
    {
        compute_share(&self.position(), &self.pool())
    }

    /// Current value of the position in USD, scaled.
    pub fn calculate_lp_value(&self) -> (r: u128)
        ensures
            r as int == current_value_of(self.position_state(), self.pool_state(), self.price_state()),
    {
        compute_current_value(&self.position(), &self.pool(), &self.prices())
    }

    /// Value in USD of the originally deposited tokens at the current prices,
    /// scaled.
    pub fn calculate_holding_value(&self) -> (r: u128)
        ensures
            r as int == holding_value_of(self.position_state(), self.price_state()),
    {
        compute_holding_value(&self.position(), &self.prices())
    }

    /// The impermanent-loss fraction of the position, scaled by `SCALE`.
    pub fn calculate_il(&self) -> (r: u128)
        ensures
            r as int == il_of(self.position_state(), self.pool_state(), self.price_state()),
    {
        compute_il(&self.position(), &self.pool(), &self.prices())
    }

    /// The payout in USD that the stored policy owes the position now,
    /// scaled; `0` while the loss does not exceed the threshold.
    pub fn calculate_payout(&self) -> (r: u128)
        requires
            self.wf(),
        ensures
            r as int == payout_of(
                il_of(self.position_state(), self.pool_state(), self.price_state()),
                holding_value_of(self.position_state(), self.price_state()),
                self.policy_state(),
            ),
    {
        let il_fraction = compute_il(&self.position(), &self.pool(), &self.prices());
        let holding_value = compute_holding_value(&self.position(), &self.prices());
        let policy = Policy::from_bps(self.threshold_bps, self.upper_cap_bps, self.payout_ratio_bps);
        compute_payout(il_fraction, holding_value, &policy)
    }

    /// Replaces the pool. Refused, with the state unchanged, when `caller` is
    /// not the owner, and otherwise when the new LP-token supply is below the
    /// stored position's LP tokens.
    pub fn update_pool_state(
        &mut self,
        caller: [u8; 20],
        reserve_a: u128,
        reserve_b: u128,
        total_supply: u128,
    ) -> (r: Result<(), InsuranceError>)
        ensures
            caller@ != old(self).owner@ <==> r == Err::<(), InsuranceError>(InsuranceError::NotOwner),
            caller@ == old(self).owner@ && total_supply < old(self).user_lp_amount <==> r
                == Err::<(), InsuranceError>(InsuranceError::InconsistentPosition),
            r is Ok <==> caller@ == old(self).owner@ && old(self).user_lp_amount <= total_supply,
            r is Err ==> *final(self) == *old(self),
            r is Ok ==> *final(self) == (ILInsurance {
                reserve_token_a: reserve_a,
                reserve_token_b: reserve_b,
                lp_total_supply: total_supply,
                ..*old(self)
            }),
    {
        if !same_address(&caller, &self.owner) {
            return Err(InsuranceError::NotOwner);
        }
        if total_supply < self.user_lp_amount {
            return Err(InsuranceError::InconsistentPosition);
        }
        self.reserve_token_a = reserve_a;
        self.reserve_token_b = reserve_b;
        self.lp_total_supply = total_supply;
        Ok(())
    }

    /// Replaces the prices. Refused, with the state unchanged, unless
    /// `caller` is the owner.
    pub fn update_prices(&mut self, caller: [u8; 20], price_a: u128, price_b: u128) -> (r: Result<(), InsuranceError>)
        ensures
            caller@ != old(self).owner@ <==> r == Err::<(), InsuranceError>(InsuranceError::NotOwner),
            r is Ok <==> caller@ == old(self).owner@,
            r is Err ==> *final(self) == *old(self),
            r is Ok ==> *final(self) == (ILInsurance {
                price_token_a: price_a,
                price_token_b: price_b,
                ..*old(self)
            }),
    {
        if !same_address(&caller, &self.owner) {
            return Err(InsuranceError::NotOwner);
        }
        self.price_token_a = price_a;
        self.price_token_b = price_b;
        Ok(())
    }

    /// Replaces the position. Refused, with the state unchanged, when
    /// `caller` is not the owner, and otherwise when `lp_amount` exceeds the
    /// stored LP-token supply.
    pub fn update_user_position(
        &mut self,
        caller: [u8; 20],
        lp_amount: u128,
        original_a: u128,
        original_b: u128,
    ) -> (r: Result<(), InsuranceError>)
        ensures
            caller@ != old(self).owner@ <==> r == Err::<(), InsuranceError>(InsuranceError::NotOwner),
            caller@ == old(self).owner@ && lp_amount > old(self).lp_total_supply <==> r
                == Err::<(), InsuranceError>(InsuranceError::InconsistentPosition),
            r is Ok <==> caller@ == old(self).owner@ && lp_amount <= old(self).lp_total_supply,
            r is Err ==> *final(self) == *old(self),
            r is Ok ==> *final(self) == (ILInsurance {
                user_lp_amount: lp_amount,
                user_original_token_a: original_a,
                user_original_token_b: original_b,
                ..*old(self)
            }),
    {
        if !same_address(&caller, &self.owner) {
            return Err(InsuranceError::NotOwner);
        }
        if lp_amount > self.lp_total_supply {
            return Err(InsuranceError::InconsistentPosition);
        }
        self.user_lp_amount = lp_amount;
        self.user_original_token_a = original_a;
        self.user_original_token_b = original_b;
        Ok(())
    }

    /// Processes a claim: returns the payout owed now (`0` if none). The
    /// state is unchanged; settling the payout is left to the caller.
    pub fn claim(&mut self) -> (r: u128)
        requires
            old(self).wf(),
        ensures
            *final(self) == *old(self),
            r as int == payout_of(
                il_of(old(self).position_state(), old(self).pool_state(), old(self).price_state()),
                holding_value_of(old(self).position_state(), old(self).price_state()),
                old(self).policy_state(),
            ),
    {
        self.calculate_payout()
    }

    /// Replaces the policy parameters (in basis points). Refused, with the
    /// state unchanged, when `caller` is not the owner, and otherwise when
    /// the parameters break a rule of `policy_violation`.
    pub fn update_policy(
        &mut self,
        caller: [u8; 20],
        threshold_bps: u128,
        upper_cap_bps: u128,
        payout_ratio_bps: u128,
    ) -> (r: Result<(), InsuranceError>)
        requires
            old(self).wf(),
        ensures
            final(self).wf(),
            caller@ != old(self).owner@ ==> r == Err::<(), InsuranceError>(InsuranceError::NotOwner),
            caller@ == old(self).owner@ ==> match policy_violation(threshold_bps, upper_cap_bps, payout_ratio_bps) {
                Some(e) => r == Err::<(), InsuranceError>(e),
                None => r is Ok,
            },
            r is Err ==> *final(self) == *old(self),
            r is Ok ==> *final(self) == (ILInsurance {
                threshold_bps,
                upper_cap_bps,
                payout_ratio_bps,
                ..*old(self)
            }),
    {
        if !same_address(&caller, &self.owner) {
            return Err(InsuranceError::NotOwner);
        }
        if let Some(e) = check_policy(threshold_bps, upper_cap_bps, payout_ratio_bps) {
            return Err(e);
        }
        self.threshold_bps = threshold_bps;
        self.upper_cap_bps = upper_cap_bps;
        self.payout_ratio_bps = payout_ratio_bps;
        Ok(())
    }

    /// Loads the sample scenario: a pool of 500 ETH and 1,000,000 USDC with
    /// 1,000,000 LP tokens, ETH at $2000 and USDC at $1, and a position of
    /// 1000 LP tokens that deposited 1 ETH and 2000 USDC. Refused, with the
    /// state unchanged, unless `caller` is the owner.
    pub fn setup_demo(&mut self, caller: [u8; 20]) -> (r: Result<(), InsuranceError>)
        ensures
            caller@ != old(self).owner@ <==> r == Err::<(), InsuranceError>(InsuranceError::NotOwner),
            r is Ok <==> caller@ == old(self).owner@,
            r is Err ==> *final(self) == *old(self),
            r is Ok ==> *final(self) == (ILInsurance {
                reserve_token_a: PAIR_A_RESERVE_ETH,
                reserve_token_b: PAIR_A_RESERVE_USDC,
                lp_total_supply: PAIR_A_LP_TOTAL_SUPPLY,
                price_token_a: PRICE_ETH_USD,
                price_token_b: PRICE_USDC_USD,
                user_lp_amount: USER_LP_AMOUNT,
                user_original_token_a: ORIGINAL_ETH,
                user_original_token_b: ORIGINAL_USDC,
                ..*old(self)
            }),
    {
        if !same_address(&caller, &self.owner) {
            return Err(InsuranceError::NotOwner);
        }
        self.reserve_token_a = PAIR_A_RESERVE_ETH;
        self.reserve_token_b = PAIR_A_RESERVE_USDC;
        self.lp_total_supply = PAIR_A_LP_TOTAL_SUPPLY;
        self.price_token_a = PRICE_ETH_USD;
        self.price_token_b = PRICE_USDC_USD;
        self.user_lp_amount = USER_LP_AMOUNT;
        self.user_original_token_a = ORIGINAL_ETH;
        self.user_original_token_b = ORIGINAL_USDC;
        Ok(())
    }
}

} // verus!
