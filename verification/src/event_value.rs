//! The values recorded with contract events.
use vstd::prelude::*;
use crate::address::Address;
use crate::u256::U256;

verus! {

/// A value recorded with an event; the contract stores it as its decimal
/// (numbers) or formatted (addresses) text.
#[derive(Clone, Copy, Debug, PartialEq, Eq, Structural)]
pub enum EventValue {
    Address(Address),
    Amount(U256),
    Number(u64),
}

/// The names of recorded fields.
pub open spec fn field_names(fields: Seq<(String, EventValue)>) -> Seq<Seq<char>> {
    fields.map_values(|f: (String, EventValue)| f.0@)
}

/// The values of recorded fields.
pub open spec fn field_values(fields: Seq<(String, EventValue)>) -> Seq<EventValue> {
    fields.map_values(|f: (String, EventValue)| f.1)
}

} // verus!
