//! The liquidity transformer: investors reserve WISE with CSPR during the
//! investment days; afterwards the collected CSPR and the reserved WISE are
//! forwarded to the exchange as liquidity and every investor can claim the
//! reserved tokens. While the liquidity has not been forwarded, an investor
//! can ask for a refund once the refund days have come.
//!
//! The contract's state is `LiquidityTransformer`; each operation takes the
//! caller, the current stakeable day (read from the WISE contract) and the
//! results of the other contracts' calls as arguments, and returns what the
//! contract pays out or emits. A rejected operation leaves the state as it was.
use vstd::prelude::*;
use crate::address::Address;
use crate::address::zero_address;
use crate::address::spec_zero_address;
use crate::event_value::{EventValue, field_names, field_values};
use crate::revert::Revert;
use crate::u256::{U256, u256_modulus};

pub mod data;
pub mod laws;

use self::data::{
    lemma_token_cost, Globals, InvestorBalance, PurchasedTokens, UniqueInvestors, INVESTMENT_DAYS, MAX_INVEST, MAX_SUPPLY,
    REFUND_CAP, TOKEN_COST,
};

verus! {

/// Errors of the liquidity transformer.
#[derive(Clone, Copy, Debug, PartialEq, Eq, Structural)]
pub enum Error {
    ReserveWiseMaxSupplyReached,
    ReserveWrongInvestmentDay,
    ReserveWiseMinInvest,
    ReserverWiseWrongMode,
    NotKeeper,
    Swapped,
    RefundNotPossible,
    InvestmentBelowMinimum,
    OngoingInvestmentPhase,
    ForwardLiquidityFirst,
}

impl Error {
    /// The user error code with which the contract reverts.
    pub open spec fn spec_code(self) -> u16 {
        match self {
            Error::ReserveWiseMaxSupplyReached => 0,
            Error::ReserveWrongInvestmentDay => 1,
            Error::ReserveWiseMinInvest => 2,
            Error::ReserverWiseWrongMode => 3,
            Error::NotKeeper => 4,
            Error::Swapped => 5,
            Error::RefundNotPossible => 6,
            Error::InvestmentBelowMinimum => 7,
            Error::OngoingInvestmentPhase => 8,
            Error::ForwardLiquidityFirst => 9,
        }
    }

    /// The rejection that this error causes.
    pub open spec fn spec_revert(self) -> Revert {
        Revert::User(self.spec_code())
    }

    /// The user error code with which the contract reverts.
    pub fn code(&self) -> (r: u16)
        ensures
            r == self.spec_code(),
    {
        match self {
            Error::ReserveWiseMaxSupplyReached => 0,
            Error::ReserveWrongInvestmentDay => 1,
            Error::ReserveWiseMinInvest => 2,
            Error::ReserverWiseWrongMode => 3,
            Error::NotKeeper => 4,
            Error::Swapped => 5,
            Error::RefundNotPossible => 6,
            Error::InvestmentBelowMinimum => 7,
            Error::OngoingInvestmentPhase => 8,
            Error::ForwardLiquidityFirst => 9,
        }
    }

    /// The rejection that this error causes.
    pub fn revert(&self) -> (r: Revert)
        ensures
            r == self.spec_revert(),
    {
        Revert::User(self.code())
    }
}

/// Events of the liquidity transformer.
#[derive(Clone, Copy, Debug, PartialEq, Eq, Structural)]
pub enum LiquidityTransformerEvent {
    WiseReservation {
        sender_address: Address,
        investment_amount: U256,
        token_amount: U256,
        current_stakeable_day: u64,
        investment_mode: u8,
    },
    UniswapSwapResult { amount_token_a: U256, amount_token_b: U256, liquidity: U256 },
    CashBackIssued { investor_address: Address, sender_value: U256, cash_back_amount: U256 },
    RefundIssued { investor_address: Address, refund_amount: U256 },
}

impl LiquidityTransformerEvent {
    /// The name under which the event is recorded.
    pub fn event_name(&self) -> (r: String)
        ensures
            r@ == match self {
                LiquidityTransformerEvent::WiseReservation { .. } => "wiseReservation"@,
                LiquidityTransformerEvent::UniswapSwapResult { .. } => "uniswapSwapResult"@,
                LiquidityTransformerEvent::CashBackIssued { .. } => "cashBackIssued"@,
                LiquidityTransformerEvent::RefundIssued { .. } => "refundIssued"@,
            },
    {
        match self {
            LiquidityTransformerEvent::WiseReservation { .. } => "wiseReservation".to_owned(),
            LiquidityTransformerEvent::UniswapSwapResult { .. } => "uniswapSwapResult".to_owned(),
            LiquidityTransformerEvent::CashBackIssued { .. } => "cashBackIssued".to_owned(),
            LiquidityTransformerEvent::RefundIssued { .. } => "refundIssued".to_owned(),
        }
    }

    /// The names of the fields recorded with the event, besides the
    /// contract package hash and the event name.
    pub open spec fn field_names_spec(self) -> Seq<Seq<char>> {
        match self {
            LiquidityTransformerEvent::WiseReservation { .. } => seq![
                "sender_address"@,
                "investment_amount"@,
                "token_amount"@,
                "current_stakeable_day"@,
                "investment_mode"@,
            ],
            LiquidityTransformerEvent::UniswapSwapResult { .. } => seq![
                "amount_token_a"@,
                "amount_token_b"@,
                "liquidity"@,
            ],
            LiquidityTransformerEvent::CashBackIssued { .. } => seq![
                "investor_address"@,
                "sender_value"@,
                "cash_back_amount"@,
            ],
            LiquidityTransformerEvent::RefundIssued { .. } => seq!["investor_address"@, "refund_amount"@],
        }
    }

    /// The values recorded with the event, in the order of
    /// `field_names_spec`.
    pub open spec fn field_values_spec(self) -> Seq<EventValue> {
        match self {
            LiquidityTransformerEvent::WiseReservation {
                sender_address,
                investment_amount,
                token_amount,
                current_stakeable_day,
                investment_mode,
            } => seq![
                EventValue::Address(sender_address),
                EventValue::Amount(investment_amount),
                EventValue::Amount(token_amount),
                EventValue::Number(current_stakeable_day),
                EventValue::Number(investment_mode as u64),
            ],
            LiquidityTransformerEvent::UniswapSwapResult { amount_token_a, amount_token_b, liquidity } => seq![
                EventValue::Amount(amount_token_a),
                EventValue::Amount(amount_token_b),
                EventValue::Amount(liquidity),
            ],
            LiquidityTransformerEvent::CashBackIssued { investor_address, sender_value, cash_back_amount } => seq![
                EventValue::Address(investor_address),
                EventValue::Amount(sender_value),
                EventValue::Amount(cash_back_amount),
            ],
            LiquidityTransformerEvent::RefundIssued { investor_address, refund_amount } => seq![
                EventValue::Address(investor_address),
                EventValue::Amount(refund_amount),
            ],
        }
    }

    /// The fields recorded with the event (name and value), besides the
    /// contract package hash and the event name.
    pub fn fields(&self) -> (r: Vec<(String, EventValue)>)
        ensures
            field_names(r@) == self.field_names_spec(),
            field_values(r@) == self.field_values_spec(),
    {
        let mut r: Vec<(String, EventValue)> = Vec::new();
        match self {
            LiquidityTransformerEvent::WiseReservation {
                sender_address,
                investment_amount,
                token_amount,
                current_stakeable_day,
                investment_mode,
            } => {
                r.push(("sender_address".to_owned(), EventValue::Address(*sender_address)));
                r.push(("investment_amount".to_owned(), EventValue::Amount(*investment_amount)));
                r.push(("token_amount".to_owned(), EventValue::Amount(*token_amount)));
                r.push(("current_stakeable_day".to_owned(), EventValue::Number(*current_stakeable_day)));
                r.push(("investment_mode".to_owned(), EventValue::Number(*investment_mode as u64)));
            },
            LiquidityTransformerEvent::UniswapSwapResult { amount_token_a, amount_token_b, liquidity } => {
                r.push(("amount_token_a".to_owned(), EventValue::Amount(*amount_token_a)));
                r.push(("amount_token_b".to_owned(), EventValue::Amount(*amount_token_b)));
                r.push(("liquidity".to_owned(), EventValue::Amount(*liquidity)));
            },
            LiquidityTransformerEvent::CashBackIssued { investor_address, sender_value, cash_back_amount } => {
                r.push(("investor_address".to_owned(), EventValue::Address(*investor_address)));
                r.push(("sender_value".to_owned(), EventValue::Amount(*sender_value)));
                r.push(("cash_back_amount".to_owned(), EventValue::Amount(*cash_back_amount)));
            },
            LiquidityTransformerEvent::RefundIssued { investor_address, refund_amount } => {
                r.push(("investor_address".to_owned(), EventValue::Address(*investor_address)));
                r.push(("refund_amount".to_owned(), EventValue::Amount(*refund_amount)));
            },
        }
        proof {
            assert(field_names(r@) =~= self.field_names_spec());
            assert(field_values(r@) =~= self.field_values_spec());
        }
        r
    }
}

/// What a reservation of WISE gives: the tokens reserved, the part of the
/// payment that is returned because the supply ran out, the cash back paid
/// (if any), and the events emitted, in order. The contract pays the cash
/// back and the returned part to the caller's purse.
pub struct Reservation {
    pub token_amount: U256,
    pub return_amount: U256,
    pub cash_back_amount: Option<U256>,
    pub events: Vec<LiquidityTransformerEvent>,
}

/// What forwarding the liquidity hands to the exchange: the CSPR collected
/// (deposited for synthetic CSPR) and the WISE reserved (minted to the
/// contract); both are then added as liquidity.
pub struct LiquidityForwarding {
    pub scspr_tokens_amount: U256,
    pub wise_tokens_amount: U256,
}

/// WISE reserved for `value` motes when `total_tokens` WISE are already
/// reserved for `total_cspr` motes: one token (10^9 units) per started
/// `TOKEN_COST` motes, `value / TOKEN_COST * 10^9`. When that would pass
/// `MAX_SUPPLY`, the investor gets what is left of the supply and the part
/// of `value` beyond what is left of `MAX_INVEST` is returned.
/// The result is (tokens, returned motes), or the way the contract fails.
pub open spec fn token_amount_outcome(total_cspr: nat, total_tokens: nat, value: nat) -> Result<
    (nat, nat),
    Revert,
> {
    let tokens = (value / (TOKEN_COST as nat)) * 1_000_000_000;
    if tokens >= u256_modulus() {
        Err(Revert::NoValue)
    } else if total_tokens + tokens >= u256_modulus() {
        Err(Revert::NoValue)
    } else if total_tokens + tokens <= MAX_SUPPLY {
        Ok((tokens, 0))
    } else if total_tokens > u128::MAX {
        Err(Revert::Trap)
    } else if total_tokens > MAX_SUPPLY {
        Err(Revert::NoValue)
    } else if total_cspr > u128::MAX {
        Err(Revert::Trap)
    } else if total_cspr > MAX_INVEST {
        Err(Revert::NoValue)
    } else if value < MAX_INVEST - total_cspr {
        Err(Revert::NoValue)
    } else {
        Ok(((MAX_SUPPLY - total_tokens) as nat, (value - (MAX_INVEST - total_cspr)) as nat))
    }
}

/// Whether a reservation pays cash back: only in investment mode 0, while
/// less than `REFUND_CAP` has been paid back, and when not all of the
/// payment is returned.
pub open spec fn cash_back_issued(mode: u8, cash_back_total: nat, value: nat, returned: nat) -> bool {
    mode == 0 && cash_back_total < REFUND_CAP && returned < value
}

/// The cash back of a reservation: one percent of the part of the payment
/// that is kept, cut so that the cash back paid in all reaches at most
/// `REFUND_CAP`.
pub open spec fn cash_back_amount(cash_back_total: nat, value: nat, returned: nat) -> nat {
    let amount = ((value - returned) / 100) as nat;
    if cash_back_total + amount >= REFUND_CAP {
        (REFUND_CAP - cash_back_total) as nat
    } else {
        amount
    }
}

/// The state of the liquidity transformer contract.
pub struct LiquidityTransformer {
    pub wise: Address,
    pub scspr: Address,
    pub uniswap_router: Address,
    pub wcspr: Address,
    pub hash: Address,
    pub package: Address,
    pub settings_keeper: Address,
    pub pair_wise: Address,
    pub pair_scspr: Address,
    pub uniswap_pair: Address,
    pub globals: Globals,
    pub unique_investors: UniqueInvestors,
    pub purchased_tokens: PurchasedTokens,
    pub investor_balance: InvestorBalance,
}

impl LiquidityTransformer {
    /// The properties that every operation keeps:
    /// - no more than `MAX_SUPPLY` WISE are reserved;
    /// - no more than `REFUND_CAP` is paid as cash back;
    /// - every number below the investor count names an investor;
    /// - until the liquidity is forwarded, the WISE reserved in total is the
    ///   sum of what the investors have reserved;
    /// - the investors' balances add up to at most the CSPR paid in.
    pub open spec fn consistent(self) -> bool {
        &&& self.globals.total_transfer_tokens@ <= MAX_SUPPLY
        &&& self.globals.cash_back_total@ <= REFUND_CAP
        &&& forall|n: nat| n < self.globals.investor_count@ ==> #[trigger] self.unique_investors.investor(n) is Some
        &&& !self.globals.uniswap_swaped ==> self.globals.total_transfer_tokens@ == self.purchased_tokens.total()
        &&& self.investor_balance.total() <= self.globals.total_cspr_contributed@
    }

    /// The addresses, the keeper and the forwarding flag are those of `other`.
    pub open spec fn same_settings(self, other: LiquidityTransformer) -> bool {
        &&& self.wise == other.wise
        &&& self.scspr == other.scspr
        &&& self.uniswap_router == other.uniswap_router
        &&& self.wcspr == other.wcspr
        &&& self.hash == other.hash
        &&& self.package == other.package
        &&& self.settings_keeper == other.settings_keeper
        &&& self.pair_wise == other.pair_wise
        &&& self.pair_scspr == other.pair_scspr
        &&& self.uniswap_pair == other.uniswap_pair
        &&& self.globals.uniswap_swaped == other.globals.uniswap_swaped
    }

    /// The contract as it is installed: the given addresses, the caller as
    /// settings keeper, no reservation yet. `pair_wise` is the exchange pair
    /// of WISE and synthetic CSPR, which is also the pair into which the
    /// liquidity is forwarded (`uniswap_pair`) until the keeper sets another;
    /// `pair_scspr` that of synthetic and wrapped CSPR.
    pub fn init(
        caller: Address,
        wise_token: Address,
        scspr: Address,
        pair_wise: Address,
        pair_scspr: Address,
        uniswap_router: Address,
        wcspr: Address,
        package_hash: Address,
        contract_hash: Address,
    ) -> (r: LiquidityTransformer)
        ensures
            r.wise == wise_token,
            r.scspr == scspr,
            r.uniswap_router == uniswap_router,
            r.wcspr == wcspr,
            r.hash == contract_hash,
            r.package == package_hash,
            r.settings_keeper == caller,
            r.pair_wise == pair_wise,
            r.pair_scspr == pair_scspr,
            r.uniswap_pair == pair_wise,
            r.globals.cash_back_total@ == 0,
            r.globals.investor_count@ == 0,
            r.globals.total_transfer_tokens@ == 0,
            r.globals.total_cspr_contributed@ == 0,
            !r.globals.uniswap_swaped,
            forall|n: nat| r.unique_investors.investor(n) is None,
            forall|a: Address| r.purchased_tokens.amount(a) == 0,
            forall|a: Address| r.investor_balance.amount(a) == 0,
            r.consistent(),
    {
        LiquidityTransformer {
            wise: wise_token,
            scspr,
            uniswap_router,
            wcspr,
            hash: contract_hash,
            package: package_hash,
            settings_keeper: caller,
            pair_wise,
            pair_scspr,
            uniswap_pair: pair_wise,
            globals: Globals::new(),
            unique_investors: UniqueInvestors::new(),
            purchased_tokens: PurchasedTokens::new(),
            investor_balance: InvestorBalance::new(),
        }
    }

    // --- modifiers --- //

    /// Refuses while the investment days last (`current_stakeable_day` up to `INVESTMENT_DAYS`).
    pub fn after_investment_days(&self, current_stakeable_day: u64) -> (r: Result<(), Revert>)
        ensures
            r == if current_stakeable_day <= INVESTMENT_DAYS {
                Err(Error::OngoingInvestmentPhase.spec_revert())
            } else {
                Ok(())
            },
    {
        if current_stakeable_day <= INVESTMENT_DAYS as u64 {
            return Err(Error::OngoingInvestmentPhase.revert());
        }
        Ok(())
    }

    /// Refuses until the liquidity has been forwarded.
    pub fn after_uniswap_transfer(&self) -> (r: Result<(), Revert>)
        ensures
            r == if self.globals.uniswap_swaped {
                Ok(())
            } else {
                Err(Error::ForwardLiquidityFirst.spec_revert())
            },
    {
        if !self.globals.uniswap_swaped {
            return Err(Error::ForwardLiquidityFirst.revert());
        }
        Ok(())
    }

    /// Refuses once `MAX_SUPPLY` WISE are reserved.
    pub fn below_maximum_invest(&self) -> (r: Result<(), Revert>)
        ensures
            r == if self.globals.total_transfer_tokens@ >= MAX_SUPPLY {
                Err(Error::ReserveWiseMaxSupplyReached.spec_revert())
            } else {
                Ok(())
            },
    {
        if !self.globals.total_transfer_tokens.lt(U256::from_u128(MAX_SUPPLY)) {
            return Err(Error::ReserveWiseMaxSupplyReached.revert());
        }
        Ok(())
    }

    /// Refuses outside the investment days (days 1 to `INVESTMENT_DAYS`).
    pub fn below_maximum_day(&self, current_stakeable_day: u64) -> (r: Result<(), Revert>)
        ensures
            r == if current_stakeable_day == 0 || current_stakeable_day > INVESTMENT_DAYS {
                Err(Error::ReserveWrongInvestmentDay.spec_revert())
            } else {
                Ok(())
            },
    {
        if current_stakeable_day == 0 || current_stakeable_day > INVESTMENT_DAYS as u64 {
            return Err(Error::ReserveWrongInvestmentDay.revert());
        }
        Ok(())
    }

    /// Refuses every caller but the settings keeper.
    pub fn only_keeper(&self, caller: Address) -> (r: Result<(), Revert>)
        ensures
            r == if caller == self.settings_keeper {
                Ok(())
            } else {
                Err(Error::NotKeeper.spec_revert())
            },
    {
        if caller != self.settings_keeper {
            return Err(Error::NotKeeper.revert());
        }
        Ok(())
    }

    // --- operations --- //

    /// The keeper sets the WISE token, the exchange pairs of WISE and of
    /// wrapped CSPR with synthetic CSPR, the pair into which the liquidity
    /// is forwarded, and the synthetic CSPR token; see `set_settings_effect`.
    pub fn set_settings(
        &mut self,
        caller: Address,
        wise_token: Address,
        pair_wise: Address,
        pair_scspr: Address,
        uniswap_pair: Address,
        synthetic_cspr: Address,
    ) -> (r: Result<(), Revert>)
        ensures
            set_settings_effect(
                *old(self),
                *final(self),
                caller,
                Settings { wise_token, pair_wise, pair_scspr, uniswap_pair, synthetic_cspr },
                r,
            ),
            old(self).consistent() ==> final(self).consistent(),
    {
        self.only_keeper(caller)?;
        self.wise = wise_token;
        self.scspr = synthetic_cspr;
        self.pair_wise = pair_wise;
        self.pair_scspr = pair_scspr;
        self.uniswap_pair = uniswap_pair;
        Ok(())
    }

    /// The keeper gives up the role: the zero address becomes the keeper.
    pub fn renounce_keeper(&mut self, caller: Address) -> (r: Result<(), Revert>)
        ensures
            renounce_keeper_effect(*old(self), *final(self), caller, r),
            old(self).consistent() ==> final(self).consistent(),
    {
        self.only_keeper(caller)?;
        self.settings_keeper = zero_address();
        Ok(())
    }

    /// The WISE reserved for `sender_value` motes when `total_transfer_tokens`
    /// WISE are reserved for `total_cspr_contributed` motes, and the motes
    /// returned; see `token_amount_outcome`.
    pub fn _get_token_amount(
        &self,
        total_cspr_contributed: U256,
        total_transfer_tokens: U256,
        sender_value: U256,
    ) -> (r: Result<(U256, U256), Revert>)
        ensures
            match r {
                Ok((t, ret)) => token_amount_outcome(
                    total_cspr_contributed@,
                    total_transfer_tokens@,
                    sender_value@,
                ) == Ok::<(nat, nat), Revert>((t@, ret@)),
                Err(e) => token_amount_outcome(
                    total_cspr_contributed@,
                    total_transfer_tokens@,
                    sender_value@,
                ) == Err::<(nat, nat), Revert>(e),
            },
    {
        proof {
            lemma_token_cost();
        }
        let units = sender_value.checked_div(U256::from_u128(TOKEN_COST)).unwrap();
        let token_amount = match units.checked_mul(U256::from_u128(1_000_000_000)) {
            Some(t) => t,
            None => {
                return Err(Revert::NoValue);
            },
        };
        let new_supply = match total_transfer_tokens.checked_add(token_amount) {
            Some(t) => t,
            None => {
                return Err(Revert::NoValue);
            },
        };
        if !U256::from_u128(MAX_SUPPLY).lt(new_supply) {
            return Ok((token_amount, U256::zero()));
        }
        if U256::from_u128(u128::MAX).lt(total_transfer_tokens) {
            return Err(Revert::Trap);
        }
        let capped = match MAX_SUPPLY.checked_sub(total_transfer_tokens.as_u128()) {
            Some(t) => t,
            None => {
                return Err(Revert::NoValue);
            },
        };
        if U256::from_u128(u128::MAX).lt(total_cspr_contributed) {
            return Err(Revert::Trap);
        }
        let available = match MAX_INVEST.checked_sub(total_cspr_contributed.as_u128()) {
            Some(a) => a,
            None => {
                return Err(Revert::NoValue);
            },
        };
        let return_amount = match sender_value.checked_sub(U256::from_u128(available)) {
            Some(v) => v,
            None => {
                return Err(Revert::NoValue);
            },
        };
        Ok((U256::from_u128(capped), return_amount))
    }

    /// Records a reservation of `sender_value` motes by `sender_address`:
    /// see `reservation_effect`.
    #[verifier::spinoff_prover]
    #[verifier::rlimit(40)]
    pub fn _reserve_wise(
        &mut self,
        sender_address: Address,
        sender_value: U256,
        investment_mode: u8,
        current_stakeable_day: u64,
    ) -> (r: Result<Reservation, Revert>)
        ensures
            reservation_effect(
                *old(self),
                *final(self),
                sender_address,
                sender_value,
                investment_mode,
                current_stakeable_day,
                r,
            ),
            old(self).consistent() ==> final(self).consistent(),
    {
        if investment_mode >= 6 {
            return Err(Error::ReserverWiseWrongMode.revert());
        }
        let balance = self.investor_balance.get(&sender_address);
        let is_new = balance.is_zero();
        let count = self.globals.investor_count;
        let mut new_count = count;
        if is_new {
            match count.checked_add(U256::from_u64(1)) {
                Some(c) => {
                    new_count = c;
                },
                None => {
                    return Err(Revert::Trap);
                },
            }
        }
        let (tokens, returned) = match self._get_token_amount(
            self.globals.total_cspr_contributed,
            self.globals.total_transfer_tokens,
            sender_value,
        ) {
            Ok(p) => p,
            Err(e) => {
                return Err(e);
            },
        };
        let new_cspr = match self.globals.total_cspr_contributed.checked_add(sender_value) {
            Some(v) => v,
            None => {
                return Err(Revert::Trap);
            },
        };
        let new_tokens = match self.globals.total_transfer_tokens.checked_add(tokens) {
            Some(v) => v,
            None => {
                return Err(Revert::Trap);
            },
        };
        let new_balance = match balance.checked_add(sender_value) {
            Some(v) => v,
            None => {
                return Err(Revert::Trap);
            },
        };
        let purchased = self.purchased_tokens.get(&sender_address);
        let new_purchased = match purchased.checked_add(tokens) {
            Some(v) => v,
            None => {
                return Err(Revert::Trap);
            },
        };
        let (cash_back, new_cash_back_total) = cash_back_of(
            investment_mode,
            self.globals.cash_back_total,
            sender_value,
            returned,
        );
        if is_new {
            self.unique_investors.set(&count, sender_address);
            self.globals.investor_count = new_count;
        }
        self.globals.total_cspr_contributed = new_cspr;
        self.globals.total_transfer_tokens = new_tokens;
        self.investor_balance.set(&sender_address, new_balance);
        self.purchased_tokens.set(&sender_address, new_purchased);
        self.globals.cash_back_total = new_cash_back_total;
        let events = reservation_event_list(
            sender_address,
            sender_value,
            tokens,
            returned,
            cash_back,
            current_stakeable_day,
            investment_mode,
        );
        Ok(Reservation { token_amount: tokens, return_amount: returned, cash_back_amount: cash_back, events })
    }

    /// Reserves WISE for `msg_value` motes paid by `caller` during the
    /// investment days; see `reserve_wise_refusal` and `reservation_effect`.
    /// The payment is moved from the caller's purse to the contract.
    pub fn reserve_wise(
        &mut self,
        caller: Address,
        current_stakeable_day: u64,
        investment_mode: u8,
        msg_value: U256,
    ) -> (r: Result<Reservation, Revert>)
        ensures
            match reserve_wise_refusal(*old(self), current_stakeable_day, msg_value@) {
                Some(e) => r == Err::<Reservation, Revert>(e) && *final(self) == *old(self),
                None => reservation_effect(
                    *old(self),
                    *final(self),
                    caller,
                    msg_value,
                    investment_mode,
                    current_stakeable_day,
                    r,
                ),
            },
            old(self).consistent() ==> final(self).consistent(),
    {
        self.below_maximum_day(current_stakeable_day)?;
        self.below_maximum_invest()?;
        if msg_value.lt(U256::from_u128(TOKEN_COST)) {
            return Err(Error::ReserveWiseMinInvest.revert());
        }
        self._reserve_wise(caller, msg_value, investment_mode, current_stakeable_day)
    }

    /// Reserves WISE with another token: the caller's tokens were swapped for
    /// CSPR along `prepare_path`, and `amounts` is what the swap reports
    /// (`amounts[1]` is the CSPR received). Refused outside the investment
    /// days, once the supply is reserved, when the swap reports fewer than
    /// two amounts, and when the CSPR received is below `TOKEN_COST`;
    /// otherwise a reservation of the CSPR received (`reservation_effect`).
    pub fn reserve_wise_with_token(
        &mut self,
        caller: Address,
        current_stakeable_day: u64,
        investment_mode: u8,
        amounts: &Vec<U256>,
    ) -> (r: Result<Reservation, Revert>)
        ensures
            match reserve_with_token_refusal(*old(self), current_stakeable_day, amounts@) {
                Some(e) => r == Err::<Reservation, Revert>(e) && *final(self) == *old(self),
                None => reservation_effect(
                    *old(self),
                    *final(self),
                    caller,
                    amounts@[1],
                    investment_mode,
                    current_stakeable_day,
                    r,
                ),
            },
            old(self).consistent() ==> final(self).consistent(),
    {
        self.below_maximum_day(current_stakeable_day)?;
        self.below_maximum_invest()?;
        if amounts.len() < 2 {
            return Err(Revert::Trap);
        }
        let received = amounts[1];
        if received.lt(U256::from_u128(TOKEN_COST)) {
            return Err(Error::InvestmentBelowMinimum.revert());
        }
        self._reserve_wise(caller, received, investment_mode, current_stakeable_day)
    }

    /// After the investment days, once: marks the liquidity as forwarded and
    /// hands over the CSPR collected and the WISE reserved; see
    /// `forward_liquidity_effect`.
    pub fn forward_liquidity(&mut self, current_stakeable_day: u64) -> (r: Result<
        LiquidityForwarding,
        Revert,
    >)
        ensures
            forward_liquidity_effect(*old(self), *final(self), current_stakeable_day, r),
            old(self).consistent() ==> final(self).consistent(),
    {
        self.after_investment_days(current_stakeable_day)?;
        if self.globals.uniswap_swaped {
            return Err(Error::Swapped.revert());
        }
        let forwarding = LiquidityForwarding {
            scspr_tokens_amount: self.globals.total_cspr_contributed,
            wise_tokens_amount: self.globals.total_transfer_tokens,
        };
        self.globals.uniswap_swaped = true;
        Ok(forwarding)
    }

    /// Pays out the WISE reserved by `investor_address` once the liquidity
    /// is forwarded: the tokens are minted to the investor and the
    /// investor's reserved tokens become zero; see `payout_effect`.
    pub fn payout_investor_address(&mut self, investor_address: Address) -> (r: Result<U256, Revert>)
        ensures
            payout_effect(*old(self), *final(self), investor_address, r),
            old(self).consistent() ==> final(self).consistent(),
    {
        self.after_uniswap_transfer()?;
        let payout = self.purchased_tokens.get(&investor_address);
        self.purchased_tokens.set(&investor_address, U256::zero());
        Ok(payout)
    }

    /// Pays out the caller's reserved WISE; see `payout_effect`.
    pub fn get_my_tokens(&mut self, caller: Address) -> (r: Result<U256, Revert>)
        ensures
            payout_effect(*old(self), *final(self), caller, r),
            old(self).consistent() ==> final(self).consistent(),
    {
        self.after_uniswap_transfer()?;
        self.payout_investor_address(caller)
    }

    /// The swap path from `token_address` to wrapped CSPR.
    pub fn prepare_path(&self, token_address: Address) -> (r: Vec<Address>)
        ensures
            r@ == seq![token_address, self.wcspr],
    {
        let mut path: Vec<Address> = Vec::new();
        path.push(token_address);
        path.push(self.wcspr);
        proof {
            assert(path@ =~= seq![token_address, self.wcspr]);
        }
        path
    }

    /// Refunds the caller when the liquidity was not forwarded in time:
    /// returns (motes paid in, tokens reserved) of the caller, which become
    /// zero, and pays the motes back; see `refund_effect`.
    pub fn request_refund(&mut self, caller: Address, current_stakeable_day: u64) -> (r: Result<
        (U256, U256),
        Revert,
    >)
        ensures
            refund_effect(*old(self), *final(self), caller, current_stakeable_day, r),
            old(self).consistent() ==> final(self).consistent(),
    {
        let amount = self.investor_balance.get(&caller);
        let tokens = self.purchased_tokens.get(&caller);
        if self.globals.uniswap_swaped || amount.is_zero() || tokens.is_zero()
            || current_stakeable_day <= (INVESTMENT_DAYS + 10) as u64 {
            return Err(Error::RefundNotPossible.revert());
        }
        let new_total = match self.globals.total_transfer_tokens.checked_sub(tokens) {
            Some(t) => t,
            None => {
                return Err(Revert::NoValue);
            },
        };
        proof {
            self.purchased_tokens.lemma_amount_le_total(caller);
        }
        self.investor_balance.set(&caller, U256::zero());
        self.purchased_tokens.set(&caller, U256::zero());
        self.globals.total_transfer_tokens = new_total;
        Ok((amount, tokens))
    }
}

/// The addresses that the keeper sets.
pub struct Settings {
    pub wise_token: Address,
    pub pair_wise: Address,
    pub pair_scspr: Address,
    pub uniswap_pair: Address,
    pub synthetic_cspr: Address,
}

/// The contract of `set_settings`: only the keeper can set them; then the
/// five addresses are stored and nothing else changes.
pub open spec fn set_settings_effect(
    o: LiquidityTransformer,
    f: LiquidityTransformer,
    caller: Address,
    settings: Settings,
    r: Result<(), Revert>,
) -> bool {
    &&& r == if caller == o.settings_keeper {
        Ok(())
    } else {
        Err(Error::NotKeeper.spec_revert())
    }
    &&& r is Ok ==> f == LiquidityTransformer {
        wise: settings.wise_token,
        scspr: settings.synthetic_cspr,
        pair_wise: settings.pair_wise,
        pair_scspr: settings.pair_scspr,
        uniswap_pair: settings.uniswap_pair,
        ..o
    }
    &&& r is Err ==> f == o
}

/// The contract of `renounce_keeper`: only the keeper can renounce, and the
/// zero address then holds the role; nothing else changes.
pub open spec fn renounce_keeper_effect(
    o: LiquidityTransformer,
    f: LiquidityTransformer,
    caller: Address,
    r: Result<(), Revert>,
) -> bool {
    &&& r == if caller == o.settings_keeper {
        Ok(())
    } else {
        Err(Error::NotKeeper.spec_revert())
    }
    &&& r is Ok ==> f == LiquidityTransformer { settings_keeper: spec_zero_address(), ..o }
    &&& r is Err ==> f == o
}

/// The cash back of a reservation and the cash back total after it; see
/// `cash_back_issued` and `cash_back_amount`.
fn cash_back_of(mode: u8, cash_back_total: U256, value: U256, returned: U256) -> (r: (
    Option<U256>,
    U256,
))
    ensures
        r.0 is Some <==> cash_back_issued(mode, cash_back_total@, value@, returned@),
        r.0 matches Some(c) ==> c@ == cash_back_amount(cash_back_total@, value@, returned@),
        r.1@ == cash_back_total@ + if cash_back_issued(mode, cash_back_total@, value@, returned@) {
            cash_back_amount(cash_back_total@, value@, returned@)
        } else {
            0
        },
{
    let cap = U256::from_u128(REFUND_CAP);
    if mode == 0 && cash_back_total.lt(cap) && returned.lt(value) {
        let kept = value.checked_sub(returned).unwrap();
        let mut amount = kept.checked_div(U256::from_u64(100)).unwrap();
        proof {
            crate::u256::lemma_u256_bounded(value);
        }
        let sum = cash_back_total.checked_add(amount).unwrap();
        if !sum.lt(cap) {
            amount = cap.checked_sub(cash_back_total).unwrap();
        }
        let total = cash_back_total.checked_add(amount).unwrap();
        (Some(amount), total)
    } else {
        (None, cash_back_total)
    }
}

/// The events of a reservation; see `reservation_events`.
fn reservation_event_list(
    sender: Address,
    value: U256,
    tokens: U256,
    returned: U256,
    cash_back: Option<U256>,
    day: u64,
    mode: u8,
) -> (r: Vec<LiquidityTransformerEvent>)
    ensures
        r@ == reservation_events(
            sender,
            value,
            Reservation { token_amount: tokens, return_amount: returned, cash_back_amount: cash_back, events: r },
            day,
            mode,
        ),
{
    let mut events: Vec<LiquidityTransformerEvent> = Vec::new();
    if let Some(c) = cash_back {
        events.push(
            LiquidityTransformerEvent::CashBackIssued {
                investor_address: sender,
                sender_value: value,
                cash_back_amount: c,
            },
        );
    }
    if !returned.is_zero() {
        events.push(
            LiquidityTransformerEvent::RefundIssued { investor_address: sender, refund_amount: returned },
        );
    }
    events.push(
        LiquidityTransformerEvent::WiseReservation {
            sender_address: sender,
            investment_amount: value,
            token_amount: tokens,
            current_stakeable_day: day,
            investment_mode: mode,
        },
    );
    proof {
        assert(events@ =~= reservation_events(
            sender,
            value,
            Reservation { token_amount: tokens, return_amount: returned, cash_back_amount: cash_back, events },
            day,
            mode,
        ));
    }
    events
}

/// Why `reserve_wise` refuses before the reservation itself: a day outside
/// the investment days, the supply reserved, a payment below `TOKEN_COST`.
pub open spec fn reserve_wise_refusal(o: LiquidityTransformer, day: u64, value: nat) -> Option<Revert> {
    if day == 0 || day > INVESTMENT_DAYS {
        Some(Error::ReserveWrongInvestmentDay.spec_revert())
    } else if o.globals.total_transfer_tokens@ >= MAX_SUPPLY {
        Some(Error::ReserveWiseMaxSupplyReached.spec_revert())
    } else if value < TOKEN_COST {
        Some(Error::ReserveWiseMinInvest.spec_revert())
    } else {
        None
    }
}

/// Why `reserve_wise_with_token` refuses before the reservation itself.
pub open spec fn reserve_with_token_refusal(
    o: LiquidityTransformer,
    day: u64,
    amounts: Seq<U256>,
) -> Option<Revert> {
    if day == 0 || day > INVESTMENT_DAYS {
        Some(Error::ReserveWrongInvestmentDay.spec_revert())
    } else if o.globals.total_transfer_tokens@ >= MAX_SUPPLY {
        Some(Error::ReserveWiseMaxSupplyReached.spec_revert())
    } else if amounts.len() < 2 {
        Some(Revert::Trap)
    } else if amounts[1]@ < TOKEN_COST {
        Some(Error::InvestmentBelowMinimum.spec_revert())
    } else {
        None
    }
}

/// The contract of `forward_liquidity`: refused during the investment days
/// and once the liquidity is forwarded; otherwise the flag is set and the
/// totals are handed over, nothing else changes.
pub open spec fn forward_liquidity_effect(
    o: LiquidityTransformer,
    f: LiquidityTransformer,
    day: u64,
    r: Result<LiquidityForwarding, Revert>,
) -> bool {
    if day <= INVESTMENT_DAYS {
        r == Err::<LiquidityForwarding, Revert>(Error::OngoingInvestmentPhase.spec_revert()) && f == o
    } else if o.globals.uniswap_swaped {
        r == Err::<LiquidityForwarding, Revert>(Error::Swapped.spec_revert()) && f == o
    } else {
        &&& r matches Ok(fw) && fw.scspr_tokens_amount == o.globals.total_cspr_contributed
            && fw.wise_tokens_amount == o.globals.total_transfer_tokens
        &&& f == LiquidityTransformer { globals: Globals { uniswap_swaped: true, ..o.globals }, ..o }
    }
}

/// The contract of a payout: refused until the liquidity is forwarded;
/// otherwise the investor's reserved tokens are returned and become zero,
/// nothing else changes.
pub open spec fn payout_effect(
    o: LiquidityTransformer,
    f: LiquidityTransformer,
    investor: Address,
    r: Result<U256, Revert>,
) -> bool {
    if !o.globals.uniswap_swaped {
        r == Err::<U256, Revert>(Error::ForwardLiquidityFirst.spec_revert()) && f == o
    } else {
        &&& r matches Ok(p) && p@ == o.purchased_tokens.amount(investor)
        &&& f.purchased_tokens.amount(investor) == 0
        &&& forall|a: Address| a != investor ==> f.purchased_tokens.amount(a) == o.purchased_tokens.amount(a)
        &&& f == LiquidityTransformer { purchased_tokens: f.purchased_tokens, ..o }
    }
}

/// The contract of `request_refund`: refused once the liquidity is
/// forwarded, for a caller without payment or without tokens, and up to
/// day `INVESTMENT_DAYS + 10`; fails when the caller's tokens exceed the
/// total reserved. Otherwise the caller's payment and tokens are returned
/// and become zero, and the total reserved drops by the tokens.
pub open spec fn refund_effect(
    o: LiquidityTransformer,
    f: LiquidityTransformer,
    caller: Address,
    day: u64,
    r: Result<(U256, U256), Revert>,
) -> bool {
    let amount = o.investor_balance.amount(caller);
    let tokens = o.purchased_tokens.amount(caller);
    if o.globals.uniswap_swaped || amount == 0 || tokens == 0 || day <= INVESTMENT_DAYS + 10 {
        r == Err::<(U256, U256), Revert>(Error::RefundNotPossible.spec_revert()) && f == o
    } else if tokens > o.globals.total_transfer_tokens@ {
        r == Err::<(U256, U256), Revert>(Revert::NoValue) && f == o
    } else {
        &&& r matches Ok((a, t)) && a@ == amount && t@ == tokens
        &&& f.investor_balance.amount(caller) == 0
        &&& f.purchased_tokens.amount(caller) == 0
        &&& forall|b: Address|
            b != caller ==> f.investor_balance.amount(b) == o.investor_balance.amount(b)
                && f.purchased_tokens.amount(b) == o.purchased_tokens.amount(b)
        &&& f.globals.total_transfer_tokens@ == o.globals.total_transfer_tokens@ - tokens
        &&& f.globals == Globals { total_transfer_tokens: f.globals.total_transfer_tokens, ..o.globals }
        &&& f == LiquidityTransformer {
            investor_balance: f.investor_balance,
            purchased_tokens: f.purchased_tokens,
            globals: f.globals,
            ..o
        }
    }
}

/// Why a reservation by `sender` of `value` motes in mode `mode` is
/// refused, in the order the contract checks: a mode above 5; a new
/// investor when the investor count cannot grow; the token amount
/// (`token_amount_outcome`); a total or a balance that would reach 2^256.
pub open spec fn reservation_failure(
    o: LiquidityTransformer,
    sender: Address,
    value: nat,
    mode: u8,
) -> Option<Revert> {
    let g = o.globals;
    if mode >= 6 {
        Some(Error::ReserverWiseWrongMode.spec_revert())
    } else if o.investor_balance.amount(sender) == 0 && g.investor_count@ + 1 >= u256_modulus() {
        Some(Revert::Trap)
    } else {
        match token_amount_outcome(g.total_cspr_contributed@, g.total_transfer_tokens@, value) {
            Err(e) => Some(e),
            Ok((tokens, _)) => if g.total_cspr_contributed@ + value >= u256_modulus()
                || g.total_transfer_tokens@ + tokens >= u256_modulus()
                || o.investor_balance.amount(sender) + value >= u256_modulus()
                || o.purchased_tokens.amount(sender) + tokens >= u256_modulus() {
                Some(Revert::Trap)
            } else {
                None
            },
        }
    }
}

/// The events of a reservation, in order: the cash back (if any), the
/// returned part (if any), then the reservation itself.
pub open spec fn reservation_events(
    sender: Address,
    value: U256,
    res: Reservation,
    day: u64,
    mode: u8,
) -> Seq<LiquidityTransformerEvent> {
    (if res.cash_back_amount is Some {
        seq![
            LiquidityTransformerEvent::CashBackIssued {
                investor_address: sender,
                sender_value: value,
                cash_back_amount: res.cash_back_amount->Some_0,
            },
        ]
    } else {
        Seq::empty()
    }) + (if res.return_amount@ > 0 {
        seq![
            LiquidityTransformerEvent::RefundIssued {
                investor_address: sender,
                refund_amount: res.return_amount,
            },
        ]
    } else {
        Seq::empty()
    }) + seq![
        LiquidityTransformerEvent::WiseReservation {
            sender_address: sender,
            investment_amount: value,
            token_amount: res.token_amount,
            current_stakeable_day: day,
            investment_mode: mode,
        },
    ]
}

/// The contract of a reservation (`_reserve_wise`): when
/// `reservation_failure` names a failure, the call fails with it and
/// nothing changes. Otherwise the investor gets the tokens of
/// `token_amount_outcome`, the returned part and the cash back are paid,
/// the totals and the investor's entries grow by the payment and the
/// tokens, a new investor is recorded under the current investor count,
/// and nothing else changes.
pub open spec fn reservation_effect(
    o: LiquidityTransformer,
    f: LiquidityTransformer,
    sender: Address,
    value: U256,
    mode: u8,
    day: u64,
    r: Result<Reservation, Revert>,
) -> bool {
    match reservation_failure(o, sender, value@, mode) {
        Some(e) => r == Err::<Reservation, Revert>(e) && f == o,
        None => r is Ok && {
            let res = r->Ok_0;
            let outcome = token_amount_outcome(
                o.globals.total_cspr_contributed@,
                o.globals.total_transfer_tokens@,
                value@,
            )->Ok_0;
            let tokens = outcome.0;
            let returned = outcome.1;
            let issued = cash_back_issued(mode, o.globals.cash_back_total@, value@, returned);
            let cash_back = cash_back_amount(o.globals.cash_back_total@, value@, returned);
            &&& res.token_amount@ == tokens
            &&& res.return_amount@ == returned
            &&& res.cash_back_amount is Some <==> issued
            &&& res.cash_back_amount matches Some(c) ==> c@ == cash_back
            &&& res.events@ == reservation_events(sender, value, res, day, mode)
            &&& f.globals.cash_back_total@ == o.globals.cash_back_total@ + if issued {
                cash_back
            } else {
                0
            }
            &&& f.globals.total_cspr_contributed@ == o.globals.total_cspr_contributed@ + value@
            &&& f.globals.total_transfer_tokens@ == o.globals.total_transfer_tokens@ + tokens
            &&& f.investor_balance.amount(sender) == o.investor_balance.amount(sender) + value@
            &&& f.purchased_tokens.amount(sender) == o.purchased_tokens.amount(sender) + tokens
            &&& forall|a: Address|
                a != sender ==> f.investor_balance.amount(a) == o.investor_balance.amount(a)
                    && f.purchased_tokens.amount(a) == o.purchased_tokens.amount(a)
            &&& f.investor_balance.total() == o.investor_balance.total() + value@
            &&& f.purchased_tokens.total() == o.purchased_tokens.total() + tokens
            &&& if o.investor_balance.amount(sender) == 0 {
                &&& f.globals.investor_count@ == o.globals.investor_count@ + 1
                &&& f.unique_investors.investor(o.globals.investor_count@) == Some(sender)
                &&& forall|n: nat|
                    n != o.globals.investor_count@ ==> f.unique_investors.investor(n)
                        == o.unique_investors.investor(n)
            } else {
                &&& f.globals.investor_count == o.globals.investor_count
                &&& f.unique_investors == o.unique_investors
            }
            &&& f.same_settings(o)
        },
    }
}

} // verus!
