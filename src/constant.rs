//! The fixed-point scale and a sample ETH/USDC pool used by the demonstration
//! functions.
use vstd::prelude::*;

verus! {

/// 1.0 in the fixed-point representation (10^18).
pub const SCALE: u128 = 1_000_000_000_000_000_000u128;

/// Reserve of token A (ETH) in the sample pool: 500 ETH.
pub const PAIR_A_RESERVE_ETH: u128 = 500 * SCALE;

/// Reserve of token B (USDC) in the sample pool: 1,000,000 USDC.
pub const PAIR_A_RESERVE_USDC: u128 = 1_000_000 * SCALE;

/// LP-token total supply of the sample pool: 1,000,000 LP.
pub const PAIR_A_LP_TOTAL_SUPPLY: u128 = 1_000_000 * SCALE;

/// LP tokens held by the sample position: 1000 LP.
pub const USER_LP_AMOUNT: u128 = 1000 * SCALE;

/// Oracle price of ETH: $2000.
pub const PRICE_ETH_USD: u128 = 2000 * SCALE;

/// Oracle price of USDC: $1.
pub const PRICE_USDC_USD: u128 = 1 * SCALE;

/// Amount of token A the sample position originally deposited: 1 ETH.
pub const ORIGINAL_ETH: u128 = 1 * SCALE;

/// Amount of token B the sample position originally deposited: 2000 USDC.
pub const ORIGINAL_USDC: u128 = 2000 * SCALE;

} // verus!
