//! Impermanent-loss insurance for a liquidity-provider position in a
//! two-token automated-market-maker pool.
//!
//! All monetary amounts and fractions are unsigned fixed-point integers with
//! 18 implied decimal digits: `SCALE` (10^18) stands for 1.0.
//!
//! - `util`: the overflow-safe scaled multiply-divide primitive.
//! - `lp_valuator`: share, current value, holding value and loss fraction of a
//!   position, from read-only snapshots of the pool, position and prices.
//! - `policy_manager`: the banded coverage policy that turns a loss fraction
//!   into a payout.
//! - `insurance`: the stored state of one insured position, with owner-gated
//!   updates and the valuations above over that state.
pub mod constant;
pub mod insurance;
pub mod lp_valuator;
pub mod policy_manager;
pub mod util;

pub use constant::SCALE as CONSTANT_SCALE;
pub use constant::{
    PAIR_A_LP_TOTAL_SUPPLY, PAIR_A_RESERVE_ETH, PAIR_A_RESERVE_USDC, PRICE_ETH_USD,
    PRICE_USDC_USD, USER_LP_AMOUNT,
};
pub use insurance::{ILInsurance, InsuranceError};
pub use lp_valuator::compute_values_from_constants;
pub use policy_manager::claim_demo;
pub use util::{mul_div, mul_div_saturates, user_share_scaled};
