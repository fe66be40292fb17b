//! Helpers shared by the synthetic token contracts.
use vstd::prelude::*;
use crate::address::Address;
use crate::revert::Revert;
use crate::u256::{U256, is_integer_sqrt};

pub mod data;

verus! {

/// Errors of the synthetic helper.
#[derive(Clone, Copy, Debug, PartialEq, Eq, Structural)]
pub enum Error {
    BalanceNotFound,
    BalanceMismatch,
}

impl Error {
    /// The user error code with which the contract reverts.
    pub open spec fn spec_code(self) -> u16 {
        match self {
            Error::BalanceNotFound => 0,
            Error::BalanceMismatch => 1,
        }
    }

    /// The user error code with which the contract reverts.
    pub fn code(&self) -> (r: u16)
        ensures
            r == self.spec_code(),
    {
        match self {
            Error::BalanceNotFound => 0,
            Error::BalanceMismatch => 1,
        }
    }
}

/// The exchange path from `token_from` to `token_to`.
pub fn _prepare_path(token_from: Address, token_to: Address) -> (r: Vec<Address>)
    ensures
        r@ == seq![token_from, token_to],
{
    let mut path: Vec<Address> = Vec::new();
    path.push(token_from);
    path.push(token_to);
    proof {
        assert(path@ =~= seq![token_from, token_to]);
    }
    path
}

/// Twice the integer square root of `amount`.
pub fn _get_double_root(amount: U256) -> (r: U256)
    ensures
        exists|root: nat| is_integer_sqrt(amount@, root) && r@ == 2 * root,
{
    let root = amount.integer_sqrt();
    proof {
        crate::u256::lemma_u256_bounded(amount);
        crate::u256::lemma_u256_bounded(root);
        lemma_root_small(amount@, root@);
    }
    root.checked_mul(U256::from_u64(2)).unwrap()
}

proof fn lemma_root_small(x: nat, root: nat)
    requires
        is_integer_sqrt(x, root),
        x < crate::u256::u256_modulus(),
    ensures
        root * 2 < crate::u256::u256_modulus(),
{
    let b: nat = 0x1_0000_0000_0000_0000_0000_0000_0000_0000nat;
    assert(0x1_0000_0000_0000_0000_0000_0000_0000_0000nat * 0x1_0000_0000_0000_0000_0000_0000_0000_0000nat
        == crate::u256::u256_modulus());
    if root >= b {
        assert(root * root >= b * b) by (nonlinear_arith)
            requires
                root >= b,
        ;
    }
}

/// Half of the contract purse's `balance`, rounded down.
pub fn _get_balance_half(balance: U256) -> (r: U256)
    ensures
        r@ == balance@ / 2,
{
    balance.checked_div(U256::from_u64(2)).unwrap()
}

/// What the contract purse's `balance` holds beyond `amount` (zero when it
/// holds no more). The amount is read as a `usize` first, which traps above
/// `usize::MAX`.
pub fn _get_balance_diff(balance: U256, amount: U256) -> (r: Result<U256, Revert>)
    ensures
        amount@ > usize::MAX ==> r == Err::<U256, Revert>(Revert::Trap),
        amount@ <= usize::MAX ==> (r matches Ok(d) && d@ == if balance@ > amount@ {
            balance@ - amount@
        } else {
            0
        }),
{
    if U256::from_u64(usize::MAX as u64).lt(amount) {
        return Err(Revert::Trap);
    }
    if amount.lt(balance) {
        Ok(balance.checked_sub(amount).unwrap())
    } else {
        Ok(U256::zero())
    }
}

} // verus!
