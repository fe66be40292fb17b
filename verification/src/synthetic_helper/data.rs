//! Constants shared by the synthetic token and the synthetic CSPR contract.
use vstd::prelude::*;
use crate::u256::U256;

verus! {

/// Decimals of the synthetic token.
pub const DECIMALS: u128 = 18;

/// Fee rate of the exchange, in units of 10^-12 (99.75 %).
pub const TRADING_FEE: u128 = 997_500_000_000;

/// Inverse of the fee rate, in units of 10^-12.
pub const TRADING_FEE_QUOTIENT: u128 = 1_002_506_265_664;

/// Scale of the evaluation comparison that decides on fees.
pub const EQUALIZE_SIZE_VALUE: u128 = 100_000_000;

/// Imbalance (in millionths) from which arbitrage is done.
pub const ARBITRAGE_CONDITION: u128 = 1_000_001;

/// Growth (in units of 10^-8) of the evaluation from which fees are taken.
pub const TRADING_FEE_CONDITION: u128 = 100_000_001;

/// Correction of the liquidity removed, in millionths (99.5 %).
pub const LIQUIDITY_PERCENTAGE_CORRECTION: u128 = 995_000;

/// 10^6.
pub const PRECISION_POINTS: u128 = 1_000_000;

/// 10^12.
pub const PRECISION_POINTS_POWER2: u128 = 1_000_000_000_000;

/// 10^18.
pub const PRECISION_POINTS_POWER3: u128 = 1_000_000_000_000_000_000;

/// 10^24.
pub const PRECISION_POINTS_POWER4: u128 = 1_000_000_000_000_000_000_000_000;

/// 10^30.
pub const PRECISION_POINTS_POWER5: u128 = 1_000_000_000_000_000_000_000_000_000_000;

/// `PRECISION_POINTS_POWER2 - TRADING_FEE`.
pub const PRECISION_DIFF: u128 = 2_500_000_000;

/// `PRECISION_POINTS_POWER2 * TRADING_FEE`.
pub const PRECISION_PROD: u128 = 997_500_000_000_000_000_000_000;

/// `TRADING_FEE_QUOTIENT * LIQUIDITY_PERCENTAGE_CORRECTION`.
pub const PRECISION_FEES_PROD: u128 = 997_493_734_335_680_000;

/// The derived constants are what their documentation says.
pub proof fn lemma_derived_constants()
    ensures
        PRECISION_DIFF == PRECISION_POINTS_POWER2 - TRADING_FEE,
        PRECISION_PROD == PRECISION_POINTS_POWER2 * TRADING_FEE,
        PRECISION_FEES_PROD == TRADING_FEE_QUOTIENT * LIQUIDITY_PERCENTAGE_CORRECTION,
        PRECISION_POINTS_POWER2 == PRECISION_POINTS * PRECISION_POINTS,
        PRECISION_POINTS_POWER3 == PRECISION_POINTS_POWER2 * PRECISION_POINTS,
        PRECISION_POINTS_POWER4 == PRECISION_POINTS_POWER3 * PRECISION_POINTS,
        PRECISION_POINTS_POWER5 == PRECISION_POINTS_POWER4 * PRECISION_POINTS,
{
}

/// 10^50, the amount of synthetic tokens minted to the contract to provide
/// liquidity.
pub open spec fn spec_limit_amount() -> nat {
    100_000_000_000_000_000_000_000_000_000_000_000_000_000_000_000_000nat
}

/// `LIMIT_AMOUNT`: 10^50.
pub fn limit_amount() -> (r: U256)
    ensures
        r@ == spec_limit_amount(),
{
    U256 { w0: 13070572018536022016, w1: 10549268516463523069, w2: 293873587705, w3: 0 }
}

} // verus!
