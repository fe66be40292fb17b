//! Errors of the synthetic token.
use vstd::prelude::*;
use crate::revert::Revert;

verus! {

/// Errors of the synthetic token.
#[derive(Clone, Copy, Debug, PartialEq, Eq, Structural)]
pub enum Error {
    NotOwner,
    Div1,
    Div2,
    Div3,
    Div4,
    Div5,
    Div6,
    Div7,
    Div8,
    Sub1,
    NotSCSPR,
    WithdrawFailed,
}

impl Error {
    /// The user error code with which the contract reverts.
    pub open spec fn spec_code(self) -> u16 {
        match self {
            Error::NotOwner => 0,
            Error::Div1 => 1,
            Error::Div2 => 2,
            Error::Div3 => 3,
            Error::Div4 => 4,
            Error::Div5 => 5,
            Error::Div6 => 6,
            Error::Div7 => 7,
            Error::Div8 => 8,
            Error::Sub1 => 9,
            Error::NotSCSPR => 10,
            Error::WithdrawFailed => 11,
        }
    }

    /// The rejection that this error causes.
    pub open spec fn spec_revert(self) -> Revert {
        Revert::User(self.spec_code())
    }

    /// The user error code with which the contract reverts.
    pub fn code(&self) -> (r: u16)
        ensures
            r == self.spec_code(),
    {
        match self {
            Error::NotOwner => 0,
            Error::Div1 => 1,
            Error::Div2 => 2,
            Error::Div3 => 3,
            Error::Div4 => 4,
            Error::Div5 => 5,
            Error::Div6 => 6,
            Error::Div7 => 7,
            Error::Div8 => 8,
            Error::Sub1 => 9,
            Error::NotSCSPR => 10,
            Error::WithdrawFailed => 11,
        }
    }

    /// The rejection that this error causes.
    pub fn revert(&self) -> (r: Revert)
        ensures
            r == self.spec_revert(),
    {
        Revert::User(self.code())
    }
}

} // verus!
