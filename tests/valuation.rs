use il_insurance::constant::SCALE;
use il_insurance::lp_valuator::{
    compute_current_value, compute_holding_value, compute_il, compute_share, Pool, Position, Prices,
};
use il_insurance::{mul_div, mul_div_saturates};
use il_insurance::policy_manager::{bps_to_fraction, compute_payout, Policy};
use il_insurance::{ILInsurance, InsuranceError};

const OWNER: [u8; 20] = [7u8; 20];
const STRANGER: [u8; 20] = [9u8; 20];

fn sample_pool() -> Pool {
    Pool { reserve_a: 500 * SCALE, reserve_b: 1_000_000 * SCALE, total_supply: 1_000_000 * SCALE }
}

fn sample_prices() -> Prices {
    Prices { price_a: 2000 * SCALE, price_b: SCALE }
}

fn band_policy() -> Policy {
    Policy::from_bps(1000, 2000, 8000)
}

#[test]
fn share_of_empty_pool_is_zero() {
    let pool = Pool { reserve_a: 5 * SCALE, reserve_b: 7 * SCALE, total_supply: 0 };
    let position = Position { lp_amount: 1000 * SCALE, original_a: SCALE, original_b: SCALE };
    assert_eq!(compute_share(&position, &pool), 0);
    assert_eq!(compute_current_value(&position, &pool, &sample_prices()), 0);
}

#[test]
fn share_above_whole_for_inconsistent_snapshot() {
    let pool = Pool { reserve_a: SCALE, reserve_b: SCALE, total_supply: SCALE };
    let position = Position { lp_amount: 2 * SCALE, original_a: 0, original_b: 0 };
    assert_eq!(compute_share(&position, &pool), 2 * SCALE);
}

#[test]
fn end_to_end_sample_scenario() {
    let pool = sample_pool();
    let prices = sample_prices();
    let position = Position { lp_amount: 1000 * SCALE, original_a: SCALE, original_b: 2000 * SCALE };
    assert_eq!(compute_share(&position, &pool), SCALE / 1000);
    assert_eq!(compute_current_value(&position, &pool, &prices), 2000 * SCALE);
    let holding = compute_holding_value(&position, &prices);
    assert_eq!(holding, 4000 * SCALE);
    let il = compute_il(&position, &pool, &prices);
    assert_eq!(il, SCALE / 2);
    assert_eq!(compute_payout(il, holding, &band_policy()), 320 * SCALE);
}

#[test]
fn equal_values_give_no_loss_and_no_payout() {
    let pool = sample_pool();
    let prices = sample_prices();
    let position = Position { lp_amount: 1000 * SCALE, original_a: SCALE / 2, original_b: 1000 * SCALE };
    let current = compute_current_value(&position, &pool, &prices);
    let holding = compute_holding_value(&position, &prices);
    assert_eq!(current, holding);
    let il = compute_il(&position, &pool, &prices);
    assert_eq!(il, 0);
    assert_eq!(compute_payout(il, holding, &band_policy()), 0);
}

#[test]
fn loss_below_threshold_gives_no_payout() {
    let pool = sample_pool();
    let prices = sample_prices();
    let position = Position { lp_amount: 1000 * SCALE, original_a: SCALE / 2, original_b: 1100 * SCALE };
    let holding = compute_holding_value(&position, &prices);
    assert_eq!(holding, 2100 * SCALE);
    let il = compute_il(&position, &pool, &prices);
    assert!(il > 0 && il < SCALE / 10);
    assert_eq!(il, 100 * SCALE / 2100);
    assert_eq!(compute_payout(il, holding, &band_policy()), 0);
}

#[test]
fn gain_clamps_loss_to_zero() {
    let pool = sample_pool();
    let prices = sample_prices();
    let position = Position { lp_amount: 1000 * SCALE, original_a: 0, original_b: 1000 * SCALE };
    assert!(compute_current_value(&position, &pool, &prices) > compute_holding_value(&position, &prices));
    assert_eq!(compute_il(&position, &pool, &prices), 0);
}

#[test]
fn zero_holding_value_gives_zero_loss() {
    let position = Position { lp_amount: 1000 * SCALE, original_a: 0, original_b: 0 };
    assert_eq!(compute_il(&position, &sample_pool(), &sample_prices()), 0);
}

#[test]
fn total_loss_is_one_whole() {
    let pool = Pool { reserve_a: 0, reserve_b: 0, total_supply: SCALE };
    let position = Position { lp_amount: SCALE, original_a: SCALE, original_b: 0 };
    assert_eq!(compute_il(&position, &pool, &sample_prices()), SCALE);
}

#[test]
fn payout_rises_through_band_and_is_flat_outside() {
    let policy = band_policy();
    let holding = 4000 * SCALE;
    assert_eq!(compute_payout(0, holding, &policy), 0);
    assert_eq!(compute_payout(SCALE / 10, holding, &policy), 0);
    let p15 = compute_payout(15 * SCALE / 100, holding, &policy);
    assert_eq!(p15, 160 * SCALE);
    let p20 = compute_payout(SCALE / 5, holding, &policy);
    assert_eq!(p20, 320 * SCALE);
    assert_eq!(compute_payout(SCALE, holding, &policy), p20);
    assert!(p15 <= p20);
}

#[test]
fn payout_at_cap_equals_bound() {
    let policy = band_policy();
    let holding = 1234 * SCALE + 567;
    let band = mul_div(holding, policy.cap - policy.threshold, SCALE);
    let bound = band * policy.payout_ratio / SCALE;
    assert_eq!(compute_payout(policy.cap, holding, &policy), bound);
    assert!(compute_payout(policy.cap - 1, holding, &policy) <= bound);
}

#[test]
fn mul_div_rounds_down() {
    let r = mul_div(7, 3, 2);
    assert_eq!(r, 10);
    assert!(r * 2 <= 21 && 21 < (r + 1) * 2);
    assert_eq!(mul_div(SCALE, 2, 3), 666_666_666_666_666_666);
}

#[test]
fn mul_div_zero_denominator_is_zero() {
    assert_eq!(mul_div(5, 6, 0), 0);
}

#[test]
fn mul_div_keeps_full_product() {
    assert_eq!(mul_div(u128::MAX, 2, 2), u128::MAX);
    assert_eq!(mul_div(u128::MAX, u128::MAX, u128::MAX), u128::MAX);
    assert_eq!(mul_div(1u128 << 100, 1u128 << 100, 1u128 << 120), 1u128 << 80);
}

#[test]
fn mul_div_saturates_at_max() {
    assert_eq!(mul_div(u128::MAX, 3, 2), u128::MAX);
}

#[test]
fn current_value_sum_saturates() {
    let pool = Pool { reserve_a: SCALE, reserve_b: SCALE, total_supply: SCALE };
    let position = Position { lp_amount: SCALE, original_a: 0, original_b: 0 };
    let prices = Prices { price_a: u128::MAX, price_b: u128::MAX };
    assert_eq!(compute_current_value(&position, &pool, &prices), u128::MAX);
}

#[test]
fn basis_points_convert_to_fractions() {
    assert_eq!(bps_to_fraction(1000), SCALE / 10);
    assert_eq!(bps_to_fraction(10000), SCALE);
    let policy = band_policy();
    assert_eq!(policy.threshold, SCALE / 10);
    assert_eq!(policy.cap, SCALE / 5);
    assert_eq!(policy.payout_ratio, 8 * SCALE / 10);
}

#[test]
fn second_initialize_is_refused() {
    let mut contract = ILInsurance::new();
    contract.initialize(OWNER, 1000, 2000, 8000).unwrap();
    assert_eq!(contract.initialize(STRANGER, 100, 200, 300), Err(InsuranceError::AlreadyInitialized));
    assert_eq!(contract.get_policy(), (1000, 2000, 8000));
    assert_eq!(contract.owner(), OWNER);
}

#[test]
fn invalid_policies_are_refused() {
    let mut contract = ILInsurance::new();
    assert_eq!(contract.initialize(OWNER, 2000, 2000, 8000), Err(InsuranceError::InvalidThreshold));
    assert_eq!(contract.initialize(OWNER, 1000, 10001, 8000), Err(InsuranceError::CapTooHigh));
    assert_eq!(contract.initialize(OWNER, 1000, 2000, 10001), Err(InsuranceError::RatioTooHigh));
    assert!(!contract.is_initialized());
    contract.initialize(OWNER, 1000, 2000, 8000).unwrap();
    assert_eq!(contract.update_policy(OWNER, 3000, 2500, 8000), Err(InsuranceError::InvalidThreshold));
    assert_eq!(contract.update_policy(OWNER, 1000, 20000, 8000), Err(InsuranceError::CapTooHigh));
    assert_eq!(contract.update_policy(OWNER, 1000, 2000, 20000), Err(InsuranceError::RatioTooHigh));
    assert_eq!(contract.update_policy(OWNER, 500, 3000, 9000), Ok(()));
    assert_eq!(contract.get_policy(), (500, 3000, 9000));
}

#[test]
fn only_owner_may_update() {
    let mut contract = ILInsurance::new();
    contract.initialize(OWNER, 1000, 2000, 8000).unwrap();
    assert_eq!(contract.update_pool_state(STRANGER, 1, 2, 3), Err(InsuranceError::NotOwner));
    assert_eq!(contract.update_prices(STRANGER, 1, 2), Err(InsuranceError::NotOwner));
    assert_eq!(contract.update_user_position(STRANGER, 1, 2, 3), Err(InsuranceError::NotOwner));
    assert_eq!(contract.update_policy(STRANGER, 100, 200, 300), Err(InsuranceError::NotOwner));
    assert_eq!(contract.setup_demo(STRANGER), Err(InsuranceError::NotOwner));
    assert_eq!(contract.get_pool_state(), (0, 0, 0));
    assert_eq!(contract.get_prices(), (0, 0));
    assert_eq!(contract.get_user_position(), (0, 0, 0));
    assert_eq!(contract.get_policy(), (1000, 2000, 8000));
}

#[test]
fn position_above_supply_is_refused() {
    let mut contract = ILInsurance::new();
    contract.initialize(OWNER, 1000, 2000, 8000).unwrap();
    contract.update_pool_state(OWNER, 10 * SCALE, 10 * SCALE, 100 * SCALE).unwrap();
    assert_eq!(
        contract.update_user_position(OWNER, 101 * SCALE, SCALE, SCALE),
        Err(InsuranceError::InconsistentPosition)
    );
    assert_eq!(contract.get_user_position(), (0, 0, 0));
    assert_eq!(contract.update_user_position(OWNER, 100 * SCALE, SCALE, SCALE), Ok(()));
    assert_eq!(
        contract.update_pool_state(OWNER, 1, 1, 100 * SCALE - 1),
        Err(InsuranceError::InconsistentPosition)
    );
    assert_eq!(contract.get_pool_state(), (10 * SCALE, 10 * SCALE, 100 * SCALE));
    assert_eq!(contract.update_pool_state(OWNER, 1, 1, 100 * SCALE), Ok(()));
    assert_eq!(
        contract.update_user_position(STRANGER, 101 * SCALE, SCALE, SCALE),
        Err(InsuranceError::NotOwner)
    );
}

#[test]
fn saturation_is_reported() {
    assert!(mul_div_saturates(u128::MAX, 3, 2));
    assert!(!mul_div_saturates(u128::MAX, 2, 2));
    assert!(!mul_div_saturates(u128::MAX, u128::MAX, 0));
    assert!(!mul_div_saturates(SCALE, SCALE, SCALE));
}
