//! Errors of the session code that drives the liquidity transformer.
use vstd::prelude::*;

verus! {

/// Errors of the session code.
#[derive(Clone, Copy, Debug, PartialEq, Eq, Structural)]
pub enum Error {
    Abort,
}

impl Error {
    /// The user error code with which the session code reverts.
    pub fn code(&self) -> (r: u16)
        ensures
            r == 0,
    {
        match self {
            Error::Abort => 0,
        }
    }
}

} // verus!
