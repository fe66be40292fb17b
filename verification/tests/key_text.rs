use wise_liquidity::address::{Address, AddressKind};
use wise_liquidity::key_text::investor_item;

fn account_one() -> Address {
    Address { kind: AddressKind::Account, w0: 0, w1: 0, w2: 0, w3: 1 }
}

#[test]
fn formatted_account_and_contract() {
    assert_eq!(
        account_one().formatted(),
        format!("account-hash-{}01", "00".repeat(31))
    );
    let contract = Address { kind: AddressKind::Hash, w0: 0x0123_4567_89ab_cdef, w1: 0, w2: 0, w3: 0xff };
    assert_eq!(
        contract.formatted(),
        format!("hash-0123456789abcdef{}ff", "0".repeat(46))
    );
}

#[test]
fn investor_item_is_the_hex_digest_of_the_text_form() {
    let item = investor_item(account_one());
    assert_eq!(item, "d0b7de81eaab537242b9a7fcd835d1bbda16da53cae91f071ab6ddeccd820db3");
    let other = investor_item(Address { kind: AddressKind::Hash, w0: 0, w1: 0, w2: 0, w3: 1 });
    assert_eq!(other.len(), 64);
    assert_ne!(other, item);
}
