//! The synthetic CSPR contract (SCSPR): a synthetic token backed by CSPR.
//! The liquidity transformer deposits the CSPR of the reservation phase and
//! forms the first liquidity; afterwards anyone can deposit and withdraw.
//! The master (initially the installer) sets the contracts it works with.
//!
//! Each operation here holds the decisions of the contract's entry point:
//! who may call it, in which phase, and how the stored values change. The
//! calls to the exchange and the token moves are made around them.
use vstd::prelude::*;
use crate::address::{Address, spec_zero_address, zero_address};
use crate::revert::Revert;
use crate::synthetic_token::data::SyntheticToken;
use crate::u256::U256;

pub mod data;
pub mod errors;
pub mod event;
pub mod flow;
pub mod laws;

use self::data::Scspr;
use self::errors::Error;

verus! {

/// Whether `caller` passes the master check: it is the master, or there is
/// no master (the master is the zero address).
pub open spec fn admits_master(s: Scspr, caller: Address) -> bool {
    caller == s.token.master_address || s.token.master_address == spec_zero_address()
}

/// The contract of the master-only operations that set one value: refused
/// (`InvalidAddress`) to a caller that is not admitted as master, and
/// otherwise `after` is the new state.
pub open spec fn master_only_effect(
    o: Scspr,
    f: Scspr,
    caller: Address,
    after: Scspr,
    r: Result<(), Revert>,
) -> bool {
    if admits_master(o, caller) {
        r == Ok::<(), Revert>(()) && f == after
    } else {
        r == Err::<(), Revert>(Error::InvalidAddress.spec_revert()) && f == o
    }
}

/// The contract of `form_liquidity`: only the liquidity transformer may
/// call it, and only once (while deposits are not allowed); it then allows
/// deposits and covers half of the contract purse's balance.
pub open spec fn form_liquidity_effect(
    o: Scspr,
    f: Scspr,
    caller: Address,
    transformer: Address,
    purse_balance: U256,
    r: Result<U256, Revert>,
) -> bool {
    if caller != transformer {
        r == Err::<U256, Revert>(Error::InvalidCallDetected.spec_revert()) && f == o
    } else if o.token.allow_deposit {
        r == Err::<U256, Revert>(Error::InvalidState.spec_revert()) && f == o
    } else {
        &&& r matches Ok(cover) && cover@ == purse_balance@ / 2
        &&& f == Scspr { token: SyntheticToken { allow_deposit: true, ..o.token }, ..o }
    }
}

/// The contract of `define_token`: master only, once; the WISE token must
/// name this contract's package as its synthetic token.
pub open spec fn define_token_effect(
    o: Scspr,
    f: Scspr,
    caller: Address,
    synthetic_cspr: Address,
    r: Result<Address, Revert>,
) -> bool {
    if !admits_master(o, caller) {
        r == Err::<Address, Revert>(Error::InvalidAddress.spec_revert()) && f == o
    } else if o.token.token_defined {
        r == Err::<Address, Revert>(Error::AlreadyDefined.spec_revert()) && f == o
    } else if synthetic_cspr != o.token.package_hash {
        r == Err::<Address, Revert>(Error::InvalidWiseContractAddress.spec_revert()) && f == o
    } else {
        r == Ok::<Address, Revert>(synthetic_cspr) && f == Scspr {
            token: SyntheticToken { token_defined: true, ..o.token },
            ..o
        }
    }
}

/// The contract of `define_helper`: master only, once; the transfer helper
/// must name this contract's package as its invoker. The helper is then
/// recorded as the token's transfer helper.
pub open spec fn define_helper_effect(
    o: Scspr,
    f: Scspr,
    caller: Address,
    transfer_helper: Address,
    transfer_invoker: Address,
    r: Result<Address, Revert>,
) -> bool {
    if !admits_master(o, caller) {
        r == Err::<Address, Revert>(Error::InvalidAddress.spec_revert()) && f == o
    } else if o.token.helper_defined {
        r == Err::<Address, Revert>(Error::AlreadyDefined.spec_revert()) && f == o
    } else if transfer_invoker != o.token.package_hash {
        r == Err::<Address, Revert>(Error::InvalidTransferHelperAddress.spec_revert()) && f == o
    } else {
        r == Ok::<Address, Revert>(transfer_invoker) && f == Scspr {
            token: SyntheticToken { helper_defined: true, transfer_helper, ..o.token },
            ..o
        }
    }
}

impl Scspr {
    /// Refuses (`InvalidAddress`) a caller that is not admitted as master;
    /// see `admits_master`.
    pub fn only_master(&self, caller: Address) -> (r: Result<(), Revert>)
        ensures
            r == if admits_master(*self, caller) {
                Ok(())
            } else {
                Err(Error::InvalidAddress.spec_revert())
            },
    {
        let master = self.token.master_address;
        if caller != master && master != zero_address() {
            return Err(Error::InvalidAddress.revert());
        }
        Ok(())
    }

    /// Refuses (`InvalidCallDetected`) every caller but the liquidity
    /// transformer that the WISE contract names.
    pub fn only_transformer(&self, caller: Address, transformer: Address) -> (r: Result<(), Revert>)
        ensures
            r == if caller == transformer {
                Ok(())
            } else {
                Err(Error::InvalidCallDetected.spec_revert())
            },
    {
        if caller != transformer {
            return Err(Error::InvalidCallDetected.revert());
        }
        Ok(())
    }

    /// The owner sets the master.
    pub fn set_master(&mut self, caller: Address, master_address: Address) -> (r: Result<(), Revert>)
        ensures
            caller == old(self).token.owner ==> r == Ok::<(), Revert>(()) && *final(self) == (Scspr {
                token: SyntheticToken { master_address, ..old(self).token },
                ..*old(self)
            }),
            caller != old(self).token.owner ==> r == Err::<(), Revert>(Error::NotOwner.spec_revert())
                && *final(self) == *old(self),
    {
        if caller != self.token.owner {
            return Err(Error::NotOwner.revert());
        }
        self.token.master_address = master_address;
        Ok(())
    }

    /// The master sets the WISE contract.
    pub fn set_wise(&mut self, caller: Address, wise: Address) -> (r: Result<(), Revert>)
        ensures
            master_only_effect(*old(self), *final(self), caller, Scspr { wise_contract: wise, ..*old(self) }, r),
    {
        self.only_master(caller)?;
        self.wise_contract = wise;
        Ok(())
    }

    /// A payment received from the wrapped CSPR contract: refused while
    /// deposits are not allowed; otherwise whether it is to be deposited
    /// (it is while the contract unwraps CSPR itself).
    pub fn receive(&self) -> (r: Result<bool, Revert>)
        ensures
            r == if !self.token.allow_deposit {
                Err(Error::DepositDisabled.spec_revert())
            } else {
                Ok(self.token.bypass_enabled)
            },
    {
        if !self.token.allow_deposit {
            return Err(Error::DepositDisabled.revert());
        }
        Ok(self.token.bypass_enabled)
    }

    /// The guard of `deposit`: deposits must be allowed.
    pub fn check_deposit(&self) -> (r: Result<(), Revert>)
        ensures
            r == if self.token.allow_deposit {
                Ok(())
            } else {
                Err(Error::InvalidDeposit.spec_revert())
            },
    {
        if !self.token.allow_deposit {
            return Err(Error::InvalidDeposit.revert());
        }
        Ok(())
    }

    /// The guards of `liquidity_deposit`: only the liquidity
    /// transformer, and only before deposits are allowed.
    pub fn check_liquidity_deposit(&self, caller: Address, transformer: Address) -> (r: Result<
        (),
        Revert,
    >)
        ensures
            r == if caller != transformer {
                Err(Error::InvalidCallDetected.spec_revert())
            } else if self.token.allow_deposit {
                Err(Error::InvalidDeposit.spec_revert())
            } else {
                Ok(())
            },
    {
        self.only_transformer(caller, transformer)?;
        if self.token.allow_deposit {
            return Err(Error::InvalidDeposit.revert());
        }
        Ok(())
    }

    /// Forms the first liquidity: see `form_liquidity_effect`. Half of the
    /// contract purse's `purse_balance` is minted as synthetic tokens and
    /// paired with as much wrapped CSPR.
    pub fn form_liquidity(&mut self, caller: Address, transformer: Address, purse_balance: U256) -> (r:
        Result<U256, Revert>)
        ensures
            form_liquidity_effect(*old(self), *final(self), caller, transformer, purse_balance, r),
    {
        self.only_transformer(caller, transformer)?;
        if self.token.allow_deposit {
            return Err(Error::InvalidState.revert());
        }
        self.token.allow_deposit = true;
        Ok(crate::synthetic_helper::_get_balance_half(purse_balance))
    }

    /// The master gives up the role: the zero address becomes the master.
    pub fn renounce_ownership(&mut self, caller: Address) -> (r: Result<(), Revert>)
        ensures
            master_only_effect(
                *old(self),
                *final(self),
                caller,
                Scspr {
                    token: SyntheticToken { master_address: spec_zero_address(), ..old(self).token },
                    ..*old(self)
                },
                r,
            ),
    {
        self.only_master(caller)?;
        self.token.master_address = zero_address();
        Ok(())
    }

    /// The master hands the role to `new_master`.
    pub fn forward_ownership(&mut self, caller: Address, new_master: Address) -> (r: Result<
        (),
        Revert,
    >)
        ensures
            master_only_effect(
                *old(self),
                *final(self),
                caller,
                Scspr { token: SyntheticToken { master_address: new_master, ..old(self).token }, ..*old(self) },
                r,
            ),
    {
        self.only_master(caller)?;
        self.token.master_address = new_master;
        Ok(())
    }

    /// The guards of `add_lp_tokens`: master only, then those of
    /// `deposit`.
    pub fn check_add_lp_tokens(&self, caller: Address) -> (r: Result<(), Revert>)
        ensures
            r == if !admits_master(*self, caller) {
                Err(Error::InvalidAddress.spec_revert())
            } else if !self.token.allow_deposit {
                Err(Error::InvalidDeposit.spec_revert())
            } else {
                Ok(())
            },
    {
        self.only_master(caller)?;
        self.check_deposit()
    }

    /// Marks the WISE token as defined; `synthetic_cspr` is the synthetic
    /// token that the WISE token names. See `define_token_effect`.
    pub fn define_token(&mut self, caller: Address, synthetic_cspr: Address) -> (r: Result<
        Address,
        Revert,
    >)
        ensures
            define_token_effect(*old(self), *final(self), caller, synthetic_cspr, r),
    {
        self.only_master(caller)?;
        if self.token.token_defined {
            return Err(Error::AlreadyDefined.revert());
        }
        if synthetic_cspr != self.token.package_hash {
            return Err(Error::InvalidWiseContractAddress.revert());
        }
        self.token.token_defined = true;
        Ok(synthetic_cspr)
    }

    /// Records `transfer_helper` as the token's transfer helper, once;
    /// `transfer_invoker` is the invoker that the helper names. See
    /// `define_helper_effect`.
    pub fn define_helper(&mut self, caller: Address, transfer_helper: Address, transfer_invoker: Address) -> (r:
        Result<Address, Revert>)
        ensures
            define_helper_effect(*old(self), *final(self), caller, transfer_helper, transfer_invoker, r),
    {
        self.only_master(caller)?;
        if self.token.helper_defined {
            return Err(Error::AlreadyDefined.revert());
        }
        if transfer_invoker != self.token.package_hash {
            return Err(Error::InvalidTransferHelperAddress.revert());
        }
        self.token.helper_defined = true;
        self.token.transfer_helper = transfer_helper;
        Ok(transfer_invoker)
    }

    /// The master records the exchange pair created for wrapped and
    /// synthetic CSPR.
    pub fn create_pair(&mut self, caller: Address, pair: Address) -> (r: Result<(), Revert>)
        ensures
            master_only_effect(
                *old(self),
                *final(self),
                caller,
                Scspr { token: SyntheticToken { uniswap_pair: pair, ..old(self).token }, ..*old(self) },
                r,
            ),
    {
        self.only_master(caller)?;
        self.token.uniswap_pair = pair;
        Ok(())
    }

    /// The motes paid to the withdrawer's purse when the contract settles
    /// `amount_wcspr` of wrapped CSPR: the amount is read as a `usize`
    /// first, which traps above `usize::MAX`.
    pub fn _settle_cspr_amount(&self, amount_wcspr: U256) -> (r: Result<U256, Revert>)
        ensures
            r == if amount_wcspr@ > usize::MAX {
                Err::<U256, Revert>(Revert::Trap)
            } else {
                Ok(amount_wcspr)
            },
    {
        if U256::from_u64(usize::MAX as u64).lt(amount_wcspr) {
            return Err(Revert::Trap);
        }
        Ok(amount_wcspr)
    }
}

} // verus!
