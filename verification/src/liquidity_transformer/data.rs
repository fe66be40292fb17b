//! Constants and stored values of the liquidity transformer.
use vstd::prelude::*;
use crate::ledger::{AmountLedger, UniqueInvestors as InvestorList};
use crate::u256::U256;

verus! {

/// Number of days during which WISE can be reserved.
pub const INVESTMENT_DAYS: u8 = 15;

/// Total WISE that can be reserved (264 000 000 WISE, 9 decimals).
pub const MAX_SUPPLY: u128 = 264_000_000_000_000_000;

/// Total CSPR that buys `MAX_SUPPLY` (200 000 CSPR, 9 decimals).
pub const MAX_INVEST: u128 = 200_000_000_000_000;

/// CSPR (in motes) paid for one whole WISE token.
pub const TOKEN_COST: u128 = MAX_INVEST / (MAX_SUPPLY / 1_000_000_000);

/// Upper bound of all cash back paid out (100 CSPR).
pub const REFUND_CAP: u128 = 100_000_000_000;

/// The token cost in numbers.
pub proof fn lemma_token_cost()
    ensures
        TOKEN_COST == 757575,
{
    assert(MAX_SUPPLY / 1_000_000_000 == 264_000_000);
    assert(MAX_INVEST / 264_000_000 == 757575) by (nonlinear_arith);
}

/// What each investor has paid in, in motes.
pub type InvestorBalance = AmountLedger;

/// The WISE tokens each investor has reserved.
pub type PurchasedTokens = AmountLedger;

/// The investors, numbered in the order of their first reservation.
pub type UniqueInvestors = InvestorList;

/// The global figures of the reservation phase.
#[derive(Clone, Copy, Debug, PartialEq, Eq, Structural)]
pub struct Globals {
    /// Cash back paid out so far.
    pub cash_back_total: U256,
    /// Number of distinct investors recorded.
    pub investor_count: U256,
    /// WISE reserved so far.
    pub total_transfer_tokens: U256,
    /// CSPR paid in so far.
    pub total_cspr_contributed: U256,
    /// Whether the liquidity has been forwarded to the exchange.
    pub uniswap_swaped: bool,
}

impl Globals {
    /// All figures zero, liquidity not forwarded.
    pub fn new() -> (r: Globals)
        ensures
            r.cash_back_total@ == 0,
            r.investor_count@ == 0,
            r.total_transfer_tokens@ == 0,
            r.total_cspr_contributed@ == 0,
            !r.uniswap_swaped,
    {
        Globals {
            cash_back_total: U256::zero(),
            investor_count: U256::zero(),
            total_transfer_tokens: U256::zero(),
            total_cspr_contributed: U256::zero(),
            uniswap_swaped: false,
        }
    }
}

} // verus!
