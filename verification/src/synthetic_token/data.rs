//! Stored values of the synthetic token.
use vstd::prelude::*;
use crate::address::{Address, spec_zero_address, zero_address};
use crate::u256::U256;

verus! {

/// Error codes of the synthetic token's storage.
#[derive(Clone, Copy, Debug, PartialEq, Eq, Structural)]
pub enum ErrorCodes {
    Abort,
}

impl ErrorCodes {
    /// The user error code with which the contract reverts.
    pub open spec fn spec_code(self) -> u16 {
        match self {
            ErrorCodes::Abort => 35,
        }
    }

    /// The user error code with which the contract reverts.
    pub fn code(&self) -> (r: u16)
        ensures
            r == self.spec_code(),
    {
        match self {
            ErrorCodes::Abort => 35,
        }
    }
}

/// The stored values of the synthetic token: its owner and master, the
/// evaluation of the pool at the last update, the phase flags, and the
/// addresses of the contracts it works with.
#[derive(Clone, Copy, Debug, PartialEq, Eq, Structural)]
pub struct SyntheticToken {
    pub owner: Address,
    pub scspr: Address,
    pub current_evaluation: U256,
    pub token_defined: bool,
    pub allow_deposit: bool,
    pub helper_defined: bool,
    pub bypass_enabled: bool,
    pub wcspr: Address,
    pub uniswap_pair: Address,
    pub uniswap_router: Address,
    pub transfer_helper: Address,
    pub master_address: Address,
    pub contract_hash: Address,
    pub package_hash: Address,
}

impl SyntheticToken {
    /// The token as it is installed: the caller as owner and master, zero
    /// evaluation, all flags off, the given addresses, no transfer helper
    /// and no synthetic CSPR address yet.
    pub open spec fn init_spec(
        caller: Address,
        wcspr: Address,
        uniswap_pair: Address,
        uniswap_router: Address,
        contract_hash: Address,
        package_hash: Address,
    ) -> SyntheticToken {
        SyntheticToken {
            owner: caller,
            scspr: spec_zero_address(),
            current_evaluation: U256 { w0: 0, w1: 0, w2: 0, w3: 0 },
            token_defined: false,
            allow_deposit: false,
            helper_defined: false,
            bypass_enabled: false,
            wcspr,
            uniswap_pair,
            uniswap_router,
            transfer_helper: spec_zero_address(),
            master_address: caller,
            contract_hash,
            package_hash,
        }
    }

    /// The token as it is installed; see `init_spec`.
    pub fn init(
        caller: Address,
        wcspr: Address,
        uniswap_pair: Address,
        uniswap_router: Address,
        contract_hash: Address,
        package_hash: Address,
    ) -> (r: SyntheticToken)
        ensures
            r == SyntheticToken::init_spec(
                caller,
                wcspr,
                uniswap_pair,
                uniswap_router,
                contract_hash,
                package_hash,
            ),
    {
        SyntheticToken {
            owner: caller,
            scspr: zero_address(),
            current_evaluation: U256::zero(),
            token_defined: false,
            allow_deposit: false,
            helper_defined: false,
            bypass_enabled: false,
            wcspr,
            uniswap_pair,
            uniswap_router,
            transfer_helper: zero_address(),
            master_address: caller,
            contract_hash,
            package_hash,
        }
    }
}

} // verus!
