use wise_liquidity::address::{zero_address, Address, AddressKind};
use wise_liquidity::revert::Revert;
use wise_liquidity::scspr::data::Scspr;
use wise_liquidity::scspr::errors::Error;
use wise_liquidity::scspr::event::SCSPREvent;
use wise_liquidity::u256::U256;

fn account(n: u64) -> Address {
    Address { kind: AddressKind::Account, w0: n, w1: 0, w2: 0, w3: 0 }
}

fn contract(n: u64) -> Address {
    Address { kind: AddressKind::Hash, w0: n, w1: 0, w2: 0, w3: 0 }
}

fn deploy(owner: Address) -> Scspr {
    Scspr::init(owner, contract(1), contract(2), contract(3), contract(4), contract(5), contract(6))
}

#[test]
fn master_operations() {
    let owner = account(1);
    let mut s = deploy(owner);
    assert_eq!(s.set_wise(account(2), contract(10)), Err(Revert::User(65)));
    assert_eq!(s.set_wise(owner, contract(10)), Ok(()));
    assert_eq!(s.wise_contract, contract(10));
    assert_eq!(s.create_pair(owner, contract(11)), Ok(()));
    assert_eq!(s.token.uniswap_pair, contract(11));
    assert_eq!(s.set_master(account(2), account(3)), Err(Error::NotOwner.revert()));
    assert_eq!(s.set_master(owner, account(3)), Ok(()));
    assert_eq!(s.only_master(owner), Err(Error::InvalidAddress.revert()));
    assert_eq!(s.only_master(account(3)), Ok(()));
    assert_eq!(s.forward_ownership(account(3), account(4)), Ok(()));
    assert_eq!(s.token.master_address, account(4));
    assert_eq!(s.renounce_ownership(account(4)), Ok(()));
    assert_eq!(s.token.master_address, zero_address());
    // without a master, everyone passes the master check
    assert_eq!(s.only_master(account(77)), Ok(()));
}

#[test]
fn liquidity_phases() {
    let owner = account(1);
    let transformer = contract(20);
    let mut s = deploy(owner);
    assert_eq!(s.check_deposit(), Err(Error::InvalidDeposit.revert()));
    assert_eq!(s.receive(), Err(Error::DepositDisabled.revert()));
    assert_eq!(s.check_liquidity_deposit(account(5), transformer), Err(Error::InvalidCallDetected.revert()));
    assert_eq!(s.check_liquidity_deposit(transformer, transformer), Ok(()));
    assert_eq!(s.form_liquidity(account(5), transformer, U256::from_u64(10)), Err(Revert::User(66)));
    assert_eq!(s.form_liquidity(transformer, transformer, U256::from_u64(2_000_000_000_001)), Ok(U256::from_u64(1_000_000_000_000)));
    assert!(s.token.allow_deposit);
    assert_eq!(s.form_liquidity(transformer, transformer, U256::from_u64(10)), Err(Error::InvalidState.revert()));
    assert_eq!(s.check_liquidity_deposit(transformer, transformer), Err(Error::InvalidDeposit.revert()));
    assert_eq!(s.check_deposit(), Ok(()));
    assert_eq!(s.receive(), Ok(false));
    assert_eq!(s.check_add_lp_tokens(owner), Ok(()));
    assert_eq!(s.check_add_lp_tokens(account(5)), Err(Error::InvalidAddress.revert()));
}

#[test]
fn definitions_happen_once() {
    let owner = account(1);
    let mut s = deploy(owner);
    let package = contract(6);
    assert_eq!(s.define_token(owner, contract(99)), Err(Error::InvalidWiseContractAddress.revert()));
    assert_eq!(s.define_token(owner, package), Ok(package));
    assert_eq!(s.define_token(owner, package), Err(Error::AlreadyDefined.revert()));
    let helper = contract(30);
    assert_eq!(s.define_helper(owner, helper, contract(99)), Err(Error::InvalidTransferHelperAddress.revert()));
    assert_eq!(s.token.transfer_helper, zero_address());
    assert_eq!(s.define_helper(owner, helper, package), Ok(package));
    assert_eq!(s.token.transfer_helper, helper);
    assert_eq!(s.define_helper(owner, contract(31), package), Err(Revert::User(71)));
    assert_eq!(s.token.transfer_helper, helper);
    assert!(s.token.token_defined && s.token.helper_defined);
}

#[test]
fn settle_amount_is_read_as_usize() {
    let s = deploy(account(1));
    assert_eq!(s._settle_cspr_amount(U256::from_u64(5)), Ok(U256::from_u64(5)));
    assert_eq!(s._settle_cspr_amount(U256::from_u128(u64::MAX as u128 + 1)), Err(Revert::Trap));
}

#[test]
fn scspr_event_names() {
    let e = SCSPREvent::FormedLiquidity {
        cover_amount: U256::zero(),
        amount_token_a: U256::zero(),
        amount_token_b: U256::zero(),
        liquidity: U256::zero(),
    };
    assert_eq!(e.event_name(), "formedLiquidityv");
    assert_eq!(Error::NotOwner.code(), 73);
}
