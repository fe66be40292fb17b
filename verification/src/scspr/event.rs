//! Events of the synthetic CSPR contract.
use vstd::prelude::*;
use crate::address::Address;
use crate::event_value::{EventValue, field_names, field_values};
use crate::u256::U256;

verus! {

/// Events of the synthetic CSPR contract.
#[derive(Clone, Copy, Debug, PartialEq, Eq, Structural)]
pub enum SCSPREvent {
    DepositedLiquidity { deposit_amount: U256, transformer_address: Address },
    Withdrawal { from_address: Address, token_amount: U256 },
    FormedLiquidity {
        cover_amount: U256,
        amount_token_a: U256,
        amount_token_b: U256,
        liquidity: U256,
    },
}

impl SCSPREvent {
    /// The name under which the event is recorded.
    pub fn event_name(&self) -> (r: String)
        ensures
            r@ == match self {
                SCSPREvent::DepositedLiquidity { .. } => "depositedLiquidity"@,
                SCSPREvent::Withdrawal { .. } => "withdrawal"@,
                SCSPREvent::FormedLiquidity { .. } => "formedLiquidityv"@,
            },
    {
        match self {
            SCSPREvent::DepositedLiquidity { .. } => "depositedLiquidity".to_owned(),
            SCSPREvent::Withdrawal { .. } => "withdrawal".to_owned(),
            SCSPREvent::FormedLiquidity { .. } => "formedLiquidityv".to_owned(),
        }
    }

    /// The names of the fields recorded with the event, besides the
    /// contract package hash and the event name.
    pub open spec fn field_names_spec(self) -> Seq<Seq<char>> {
        match self {
            SCSPREvent::DepositedLiquidity { .. } => seq!["deposit_amount"@, "transformer_address"@],
            SCSPREvent::Withdrawal { .. } => seq!["from_address"@, "token_amount"@],
            SCSPREvent::FormedLiquidity { .. } => seq!["cover_amount"@, "amount_token_a"@, "amount_token_b"@, "liquidity"@],
        }
    }

    /// The values recorded with the event, in the order of
    /// `field_names_spec`.
    pub open spec fn field_values_spec(self) -> Seq<EventValue> {
        match self {
            SCSPREvent::DepositedLiquidity { deposit_amount, transformer_address } => seq![EventValue::Amount(deposit_amount), EventValue::Address(transformer_address)],
            SCSPREvent::Withdrawal { from_address, token_amount } => seq![EventValue::Address(from_address), EventValue::Amount(token_amount)],
            SCSPREvent::FormedLiquidity { cover_amount, amount_token_a, amount_token_b, liquidity } => seq![EventValue::Amount(cover_amount), EventValue::Amount(amount_token_a), EventValue::Amount(amount_token_b), EventValue::Amount(liquidity)],
        }
    }

    /// The fields recorded with the event (name and value), besides the
    /// contract package hash and the event name.
    pub fn fields(&self) -> (r: Vec<(String, EventValue)>)
        ensures
            field_names(r@) == self.field_names_spec(),
            field_values(r@) == self.field_values_spec(),
    {
        let mut r: Vec<(String, EventValue)> = Vec::new();
        match self {
            SCSPREvent::DepositedLiquidity { deposit_amount, transformer_address } => {
                r.push(("deposit_amount".to_owned(), EventValue::Amount(*deposit_amount)));
                r.push(("transformer_address".to_owned(), EventValue::Address(*transformer_address)));
            },
            SCSPREvent::Withdrawal { from_address, token_amount } => {
                r.push(("from_address".to_owned(), EventValue::Address(*from_address)));
                r.push(("token_amount".to_owned(), EventValue::Amount(*token_amount)));
            },
            SCSPREvent::FormedLiquidity { cover_amount, amount_token_a, amount_token_b, liquidity } => {
                r.push(("cover_amount".to_owned(), EventValue::Amount(*cover_amount)));
                r.push(("amount_token_a".to_owned(), EventValue::Amount(*amount_token_a)));
                r.push(("amount_token_b".to_owned(), EventValue::Amount(*amount_token_b)));
                r.push(("liquidity".to_owned(), EventValue::Amount(*liquidity)));
            },
        }
        proof {
            assert(field_names(r@) =~= self.field_names_spec());
            assert(field_values(r@) =~= self.field_values_spec());
        }
        r
    }
}

} // verus!
