//! Errors of the purse proxy that funds contract calls.
use vstd::prelude::*;

verus! {

/// Errors of the purse proxy.
#[derive(Clone, Copy, Debug, PartialEq, Eq, Structural)]
pub enum Error {
    Abort,
}

impl Error {
    /// The user error code with which the purse proxy reverts.
    pub fn code(&self) -> (r: u16)
        ensures
            r == 0,
    {
        match self {
            Error::Abort => 0,
        }
    }
}

} // verus!
