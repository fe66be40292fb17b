//! How a contract call is rejected.
use vstd::prelude::*;

verus! {

/// The way a rejected contract call ends; the platform then undoes all of
/// the call's effects.
///
/// - `User(code)`: the contract reverts with one of its own error codes.
/// - `NoValue`: an operation that the contract unwraps produced no value
///   (the platform's `ApiError::None`).
/// - `Trap`: arithmetic that the contract leaves unchecked overflowed,
///   or an index was out of range; the contract traps.
#[derive(Clone, Copy, Debug, PartialEq, Eq, Structural)]
pub enum Revert {
    User(u16),
    NoValue,
    Trap,
}

} // verus!
