//! Stored values of the synthetic CSPR contract.
use vstd::prelude::*;
use crate::address::{Address, spec_zero_address, zero_address};
use crate::synthetic_token::data::SyntheticToken;

verus! {

/// The synthetic CSPR contract: the synthetic token's values, the WISE
/// contract that names the liquidity transformer, and the exchange factory.
#[derive(Clone, Copy, Debug, PartialEq, Eq, Structural)]
pub struct Scspr {
    pub token: SyntheticToken,
    pub wise_contract: Address,
    pub uniswap_factory: Address,
}

impl Scspr {
    /// The contract as it is installed: the synthetic token's initial
    /// values with the caller as owner and master, the factory, no WISE
    /// contract yet.
    pub fn init(
        caller: Address,
        wcspr: Address,
        uniswap_pair: Address,
        uniswap_router: Address,
        uniswap_factory: Address,
        contract_hash: Address,
        package_hash: Address,
    ) -> (r: Scspr)
        ensures
            r.token == SyntheticToken::init_spec(
                caller,
                wcspr,
                uniswap_pair,
                uniswap_router,
                contract_hash,
                package_hash,
            ),
            r.wise_contract == spec_zero_address(),
            r.uniswap_factory == uniswap_factory,
    {
        Scspr {
            token: SyntheticToken::init(
                caller,
                wcspr,
                uniswap_pair,
                uniswap_router,
                contract_hash,
                package_hash,
            ),
            wise_contract: zero_address(),
            uniswap_factory,
        }
    }
}

} // verus!
