//! Account and contract addresses.
use vstd::prelude::*;

verus! {

/// Whether an address names an account or a contract (package) hash.
#[derive(Clone, Copy, Debug, PartialEq, Eq, Structural)]
pub enum AddressKind {
    Account,
    Hash,
}

/// A 32-byte address (an account hash or a contract hash), held as four
/// 64-bit words, most significant bytes first.
#[derive(Clone, Copy, Debug, PartialEq, Eq, Structural)]
pub struct Address {
    pub kind: AddressKind,
    pub w0: u64,
    pub w1: u64,
    pub w2: u64,
    pub w3: u64,
}

/// The all-zero contract hash that stands for "no address".
pub open spec fn spec_zero_address() -> Address {
    Address { kind: AddressKind::Hash, w0: 0, w1: 0, w2: 0, w3: 0 }
}

/// The zero address: the contract hash made of 32 zero bytes
/// (`hash-0000000000000000000000000000000000000000000000000000000000000000`).
pub fn zero_address() -> (r: Address)
    ensures
        r == spec_zero_address(),
{
    Address { kind: AddressKind::Hash, w0: 0, w1: 0, w2: 0, w3: 0 }
}

} // verus!
