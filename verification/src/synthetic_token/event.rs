//! Events of the synthetic token.
use vstd::prelude::*;
use crate::address::Address;
use crate::event_value::{EventValue, field_names, field_values};
use crate::u256::U256;

verus! {

/// Events of the synthetic token.
#[derive(Clone, Copy, Debug, PartialEq, Eq, Structural)]
pub enum SyntheticTokenEvent {
    LiquidityRemoved { amount_wcspr: U256, amount_scspr: U256 },
    SendFeesToMaster { amount_wcspr: U256, master_address: Address },
    LiquidityAdded { amount_wcspr: U256, amount_scspr: U256, liquidity: U256 },
    MasterProfit { amount_wcspr: U256, master_address: Address },
    SendArbitrageProfitToMaster { amount_wcspr: U256, master_address: Address },
}

impl SyntheticTokenEvent {
    /// The name under which the event is recorded.
    pub fn event_name(&self) -> (r: String)
        ensures
            r@ == match self {
                SyntheticTokenEvent::LiquidityRemoved { .. } => "LiquidityRemoved"@,
                SyntheticTokenEvent::SendFeesToMaster { .. } => "SendFeesToMaster"@,
                SyntheticTokenEvent::LiquidityAdded { .. } => "LiquidityAdded"@,
                SyntheticTokenEvent::MasterProfit { .. } => "MasterProfit"@,
                SyntheticTokenEvent::SendArbitrageProfitToMaster { .. } => "SendArbitrageProfitToMaster"@,
            },
    {
        match self {
            SyntheticTokenEvent::LiquidityRemoved { .. } => "LiquidityRemoved".to_owned(),
            SyntheticTokenEvent::SendFeesToMaster { .. } => "SendFeesToMaster".to_owned(),
            SyntheticTokenEvent::LiquidityAdded { .. } => "LiquidityAdded".to_owned(),
            SyntheticTokenEvent::MasterProfit { .. } => "MasterProfit".to_owned(),
            SyntheticTokenEvent::SendArbitrageProfitToMaster { .. } => "SendArbitrageProfitToMaster".to_owned(),
        }
    }

    /// The names of the fields recorded with the event, besides the
    /// contract package hash and the event name.
    pub open spec fn field_names_spec(self) -> Seq<Seq<char>> {
        match self {
            SyntheticTokenEvent::LiquidityRemoved { .. } => seq!["amount_wcspr"@, "amount_scspr"@],
            SyntheticTokenEvent::SendFeesToMaster { .. } => seq!["amount_wcspr"@, "master_address"@],
            SyntheticTokenEvent::LiquidityAdded { .. } => seq!["amount_wcspr"@, "amount_scspr"@, "liquidity"@],
            SyntheticTokenEvent::MasterProfit { .. } => seq!["amount_wcspr"@, "master_address"@],
            SyntheticTokenEvent::SendArbitrageProfitToMaster { .. } => seq!["amount_wcspr"@, "master_address"@],
        }
    }

    /// The values recorded with the event, in the order of
    /// `field_names_spec`.
    pub open spec fn field_values_spec(self) -> Seq<EventValue> {
        match self {
            SyntheticTokenEvent::LiquidityRemoved { amount_wcspr, amount_scspr } => seq![EventValue::Amount(amount_wcspr), EventValue::Amount(amount_scspr)],
            SyntheticTokenEvent::SendFeesToMaster { amount_wcspr, master_address } => seq![EventValue::Amount(amount_wcspr), EventValue::Address(master_address)],
            SyntheticTokenEvent::LiquidityAdded { amount_wcspr, amount_scspr, liquidity } => seq![EventValue::Amount(amount_wcspr), EventValue::Amount(amount_scspr), EventValue::Amount(liquidity)],
            SyntheticTokenEvent::MasterProfit { amount_wcspr, master_address } => seq![EventValue::Amount(amount_wcspr), EventValue::Address(master_address)],
            SyntheticTokenEvent::SendArbitrageProfitToMaster { amount_wcspr, master_address } => seq![EventValue::Amount(amount_wcspr), EventValue::Address(master_address)],
        }
    }

    /// The fields recorded with the event (name and value), besides the
    /// contract package hash and the event name.
    pub fn fields(&self) -> (r: Vec<(String, EventValue)>)
        ensures
            field_names(r@) == self.field_names_spec(),
            field_values(r@) == self.field_values_spec(),
    {
        let mut r: Vec<(String, EventValue)> = Vec::new();
        match self {
            SyntheticTokenEvent::LiquidityRemoved { amount_wcspr, amount_scspr } => {
                r.push(("amount_wcspr".to_owned(), EventValue::Amount(*amount_wcspr)));
                r.push(("amount_scspr".to_owned(), EventValue::Amount(*amount_scspr)));
            },
            SyntheticTokenEvent::SendFeesToMaster { amount_wcspr, master_address } => {
                r.push(("amount_wcspr".to_owned(), EventValue::Amount(*amount_wcspr)));
                r.push(("master_address".to_owned(), EventValue::Address(*master_address)));
            },
            SyntheticTokenEvent::LiquidityAdded { amount_wcspr, amount_scspr, liquidity } => {
                r.push(("amount_wcspr".to_owned(), EventValue::Amount(*amount_wcspr)));
                r.push(("amount_scspr".to_owned(), EventValue::Amount(*amount_scspr)));
                r.push(("liquidity".to_owned(), EventValue::Amount(*liquidity)));
            },
            SyntheticTokenEvent::MasterProfit { amount_wcspr, master_address } => {
                r.push(("amount_wcspr".to_owned(), EventValue::Amount(*amount_wcspr)));
                r.push(("master_address".to_owned(), EventValue::Address(*master_address)));
            },
            SyntheticTokenEvent::SendArbitrageProfitToMaster { amount_wcspr, master_address } => {
                r.push(("amount_wcspr".to_owned(), EventValue::Amount(*amount_wcspr)));
                r.push(("master_address".to_owned(), EventValue::Address(*master_address)));
            },
        }
        proof {
            assert(field_names(r@) =~= self.field_names_spec());
            assert(field_values(r@) =~= self.field_values_spec());
        }
        r
    }
}

} // verus!
