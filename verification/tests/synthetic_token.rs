use wise_liquidity::address::{Address, AddressKind};
use wise_liquidity::revert::Revert;
use wise_liquidity::synthetic_helper::data::limit_amount;
use wise_liquidity::synthetic_helper::{
    _get_balance_diff, _get_balance_half, _get_double_root, _prepare_path,
};
use wise_liquidity::synthetic_token::data::SyntheticToken;
use wise_liquidity::synthetic_token::error::Error;
use wise_liquidity::synthetic_token::event::SyntheticTokenEvent;
use wise_liquidity::synthetic_token::{
    ArbitrageDecision, _arbitrage_cspr_needed, _arbitrage_decision, _arbitrage_scspr_needed,
    _get_amount_payout, _get_evaluation, _get_liquidity_percent, _get_trading_fee_amount,
    _profit_arbitrage_remove, _swap_amount_arbitrage_scspr, _to_remove_cspr,
};
use wise_liquidity::u256::U256;

fn contract(n: u64) -> Address {
    Address { kind: AddressKind::Hash, w0: n, w1: 0, w2: 0, w3: 0 }
}

fn amount(x: u128) -> U256 {
    U256::from_u128(x)
}

fn token(owner: Address) -> SyntheticToken {
    SyntheticToken::init(owner, contract(1), contract(2), contract(3), contract(4), contract(5))
}

#[test]
fn test_synthetic_token_deploy() {
    let owner = Address { kind: AddressKind::Account, w0: 9, w1: 0, w2: 0, w3: 0 };
    let t = token(owner);
    assert_eq!(t.owner, owner);
    assert_eq!(t.master_address, owner);
    assert_eq!(t.current_evaluation, U256::zero());
    assert!(!t.allow_deposit && !t.token_defined && !t.helper_defined && !t.bypass_enabled);
}

#[test]
fn test_get_evaluation() {
    // one liquidity token minted to the synthetic token, empty pool
    assert_eq!(_get_evaluation(U256::zero(), U256::zero(), amount(1), amount(1)), Ok(U256::zero()));
}

#[test]
fn test_get_liquidity_percent() {
    // one liquidity token minted to the synthetic token
    assert_eq!(_get_liquidity_percent(amount(1), amount(1)), Ok(amount(1_000_000_000_000)));
}

#[test]
fn liquidity_percent_without_liquidity_tokens() {
    assert_eq!(_get_liquidity_percent(amount(1), U256::zero()), Err(Error::Div5.revert()));
    assert_eq!(Error::Div5.code(), 5);
}

#[test]
fn evaluation_of_a_pool() {
    assert_eq!(_get_evaluation(amount(4), amount(9), amount(2), amount(1)), Ok(amount(9)));
    assert_eq!(_get_evaluation(amount(4), amount(9), amount(2), U256::zero()), Err(Revert::User(5)));
}

#[test]
fn amount_payout_of_a_pool() {
    assert_eq!(_get_amount_payout(amount(10), amount(2), amount(1), amount(5)), Ok(amount(4)));
    assert_eq!(_get_amount_payout(amount(10), amount(2), amount(1), U256::zero()), Err(Error::Div6.revert()));
}

#[test]
fn trading_fee_amount_of_a_pool() {
    assert_eq!(
        _get_trading_fee_amount(amount(1), amount(4), amount(4), amount(1), amount(1), amount(1)),
        Ok(amount(1))
    );
    assert_eq!(
        _get_trading_fee_amount(amount(1), U256::zero(), amount(4), amount(1), amount(1), amount(1)),
        Err(Error::Div1.revert())
    );
    assert_eq!(
        _get_trading_fee_amount(amount(2), amount(1), amount(4), amount(1), amount(1), amount(1)),
        Err(Error::Sub1.revert())
    );
    assert_eq!(
        _get_trading_fee_amount(amount(1), amount(4), amount(4), U256::zero(), amount(1), amount(1)),
        Err(Error::Div2.revert())
    );
}

#[test]
fn fees_are_taken_when_the_evaluation_grows() {
    let mut t = token(contract(9));
    t._update_evaluation(amount(100));
    assert_eq!(t.current_evaluation, amount(100));
    assert_eq!(t._fees_decision(amount(101)), Ok(true));
    assert_eq!(t._fees_decision(amount(100)), Ok(false));
}

#[test]
fn arbitrage_decisions() {
    assert_eq!(_arbitrage_decision(amount(1), amount(2)), ArbitrageDecision::Cspr);
    assert_eq!(_arbitrage_decision(amount(2), amount(1)), ArbitrageDecision::Scspr);
    assert_eq!(_arbitrage_decision(amount(3), amount(3)), ArbitrageDecision::Balanced);
    assert_eq!(_arbitrage_scspr_needed(amount(1_000_001), amount(1_000_000)), Ok(false));
    assert_eq!(_arbitrage_scspr_needed(amount(1_000_002), amount(1_000_000)), Ok(true));
    assert_eq!(_arbitrage_cspr_needed(amount(1_000_000), amount(1_000_002)), Ok(true));
    assert_eq!(_arbitrage_cspr_needed(amount(1_000_000), amount(1_000_001)), Ok(false));
}

#[test]
fn arbitrage_amounts() {
    assert_eq!(_swap_amount_arbitrage_scspr(amount(1_000_000), amount(4_000_000)), Ok(amount(997_493)));
    assert_eq!(_swap_amount_arbitrage_scspr(amount(4), amount(1)), Err(Revert::Trap));
    assert_eq!(
        _profit_arbitrage_remove(amount(4), amount(1), amount(1_000_000_000_000_000_000), amount(1_000_000_000_000_000_000)),
        Ok(amount(248_750_000_000_000_000))
    );
    assert_eq!(
        _profit_arbitrage_remove(U256::zero(), amount(1), amount(1), amount(1)),
        Err(Revert::Trap)
    );
    assert_eq!(
        _to_remove_cspr(
            amount(1_000_000_000_000),
            amount(4_000_000_000_000),
            amount(250_000_000_000_000_000_000_000),
            amount(1_000_000_000_000_000_000_000_000)
        ),
        Ok(amount(249_372_653_316))
    );
    assert_eq!(
        _to_remove_cspr(amount(1_000_000_000_000), amount(1_000_000_000_000), amount(1), amount(1)),
        Err(Revert::Trap)
    );
}

#[test]
fn helper_arithmetic() {
    assert_eq!(_get_double_root(amount(16)), amount(8));
    assert_eq!(_get_double_root(amount(15)), amount(6));
    assert_eq!(_get_balance_half(amount(7)), amount(3));
    assert_eq!(_get_balance_diff(amount(10), amount(3)), Ok(amount(7)));
    assert_eq!(_get_balance_diff(amount(3), amount(10)), Ok(U256::zero()));
    assert_eq!(
        _get_balance_diff(amount(3), amount(u64::MAX as u128 + 1)),
        Err(Revert::Trap)
    );
    assert_eq!(_prepare_path(contract(1), contract(2)), vec![contract(1), contract(2)]);
}

#[test]
fn limit_amount_is_ten_to_the_fifty() {
    let l = limit_amount();
    let expected = casper_types::U256::from_dec_str("100000000000000000000000000000000000000000000000000").unwrap();
    assert_eq!([l.w0, l.w1, l.w2, l.w3], expected.0);
}

#[test]
fn synthetic_event_names() {
    let e = SyntheticTokenEvent::MasterProfit { amount_wcspr: U256::zero(), master_address: contract(1) };
    assert_eq!(e.event_name(), "MasterProfit");
}
