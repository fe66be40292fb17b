//! Errors of the synthetic CSPR contract.
use vstd::prelude::*;
use crate::revert::Revert;

verus! {

/// Errors of the synthetic CSPR contract.
#[derive(Clone, Copy, Debug, PartialEq, Eq, Structural)]
pub enum Error {
    InvalidAddress,
    InvalidCallDetected,
    InvalidWiseContractAddress,
    InvalidTransferHelperAddress,
    InvalidDeposit,
    InvalidState,
    AlreadyDefined,
    DepositDisabled,
    NotOwner,
}

impl Error {
    /// The user error code with which the contract reverts.
    pub open spec fn spec_code(self) -> u16 {
        match self {
            Error::InvalidAddress => 65,
            Error::InvalidCallDetected => 66,
            Error::InvalidWiseContractAddress => 67,
            Error::InvalidTransferHelperAddress => 68,
            Error::InvalidDeposit => 69,
            Error::InvalidState => 70,
            Error::AlreadyDefined => 71,
            Error::DepositDisabled => 72,
            Error::NotOwner => 73,
        }
    }

    /// The rejection that this error causes.
    pub open spec fn spec_revert(self) -> Revert {
        Revert::User(self.spec_code())
    }

    /// The user error code with which the contract reverts.
    pub fn code(&self) -> (r: u16)
        ensures
            r == self.spec_code(),
    {
        match self {
            Error::InvalidAddress => 65,
            Error::InvalidCallDetected => 66,
            Error::InvalidWiseContractAddress => 67,
            Error::InvalidTransferHelperAddress => 68,
            Error::InvalidDeposit => 69,
            Error::InvalidState => 70,
            Error::AlreadyDefined => 71,
            Error::DepositDisabled => 72,
            Error::NotOwner => 73,
        }
    }

    /// The rejection that this error causes.
    pub fn revert(&self) -> (r: Revert)
        ensures
            r == self.spec_revert(),
    {
        Revert::User(self.code())
    }
}

} // verus!
