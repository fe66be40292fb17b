use wise_liquidity::address::{zero_address, Address, AddressKind};
use wise_liquidity::liquidity_transformer::data::{MAX_SUPPLY, TOKEN_COST};
use wise_liquidity::liquidity_transformer::{Error, LiquidityTransformer, LiquidityTransformerEvent};
use wise_liquidity::revert::Revert;
use wise_liquidity::u256::U256;

const TWOTHOUSEND_CSPR: u128 = 2_000_000_000_000;

fn account(n: u64) -> Address {
    Address { kind: AddressKind::Account, w0: n, w1: 0, w2: 0, w3: 0 }
}

fn contract(n: u64) -> Address {
    Address { kind: AddressKind::Hash, w0: n, w1: 7, w2: 0, w3: 0 }
}

fn amount(x: u128) -> U256 {
    U256::from_u128(x)
}

/// The contracts of the test deployment, with `owner` as installer.
fn deploy(owner: Address) -> LiquidityTransformer {
    LiquidityTransformer::init(
        owner,
        contract(1),
        contract(2),
        contract(3),
        contract(4),
        contract(5),
        contract(6),
        contract(7),
        contract(8),
    )
}

/// The stakeable day of the WISE contract, launched two days before the
/// deployment, `days` days after the deployment.
fn day(days: u64) -> u64 {
    days + 2
}

#[test]
fn test_deploy() {
    let owner = account(1);
    let lt = deploy(owner);
    assert_eq!(lt.settings_keeper, owner);
    assert!(!lt.globals.uniswap_swaped);
}

#[test]
fn test_set_settings() {
    let owner = account(1);
    let mut lt = deploy(owner);
    let wise = contract(11);
    let pair_stakeable = contract(3);
    let pair_scspr = contract(4);
    let scspr = contract(12);
    assert_eq!(lt.set_settings(owner, wise, pair_stakeable, pair_scspr, pair_stakeable, scspr), Ok(()));
    assert_eq!(lt.wise, wise, "wise address not set");
    assert_eq!(lt.pair_wise, pair_stakeable, "pair wise address not set");
    assert_eq!(lt.pair_scspr, pair_scspr, "pair scspr address not set");
    assert_eq!(lt.scspr, scspr, "scspr address not set");
}

#[test]
fn set_settings_stores_every_address() {
    let owner = account(1);
    let mut lt = deploy(owner);
    assert_eq!(
        lt.set_settings(owner, contract(11), contract(13), contract(14), contract(15), contract(12)),
        Ok(())
    );
    assert_eq!(lt.wise, contract(11));
    assert_eq!(lt.pair_wise, contract(13));
    assert_eq!(lt.pair_scspr, contract(14));
    assert_eq!(lt.uniswap_pair, contract(15));
    assert_eq!(lt.scspr, contract(12));
    assert_eq!(lt.settings_keeper, owner);
}

#[test]
fn set_settings_is_refused_to_others() {
    let owner = account(1);
    let mut lt = deploy(owner);
    assert_eq!(
        lt.set_settings(account(2), contract(11), contract(13), contract(14), contract(15), contract(12)),
        Err(Revert::User(4))
    );
    assert_eq!(lt.wise, contract(1));
}

#[test]
fn test_renounce_keeper() {
    let owner = account(1);
    let mut lt = deploy(owner);
    let zero = zero_address();
    assert_ne!(lt.settings_keeper, zero, "Keeper already zero address");
    assert_eq!(lt.renounce_keeper(owner), Ok(()));
    assert_eq!(lt.settings_keeper, zero, "Keeper not renounced");
    assert_eq!(lt.renounce_keeper(owner), Err(Error::NotKeeper.revert()));
    assert_eq!(
        lt.set_settings(owner, contract(11), contract(13), contract(14), contract(15), contract(12)),
        Err(Revert::User(4))
    );
}

#[test]
fn test_reserve_wise() {
    let owner = account(1);
    let mut lt = deploy(owner);
    let investment_mode: u8 = 1;
    let msg_value = amount(75757576);
    assert_eq!(lt.investor_balance.get(&owner), U256::zero(), "Investor has already some wise balance");
    let reservation = lt.reserve_wise(owner, day(12), investment_mode, msg_value).unwrap();
    assert_eq!(lt.investor_balance.get(&owner), msg_value, "Investor wise balance not increased");
    assert_eq!(reservation.token_amount, amount(100_000_000_000));
    assert_eq!(reservation.return_amount, U256::zero());
    assert_eq!(reservation.cash_back_amount, None);
    assert_eq!(
        reservation.events,
        vec![LiquidityTransformerEvent::WiseReservation {
            sender_address: owner,
            investment_amount: msg_value,
            token_amount: amount(100_000_000_000),
            current_stakeable_day: 14,
            investment_mode: 1,
        }]
    );
    assert_eq!(lt.globals.investor_count, amount(1));
    assert_eq!(lt.unique_investors.get(&U256::zero()), Some(owner));
}

#[test]
fn test_reserve_wise_with_token() {
    let owner = account(1);
    let mut lt = deploy(owner);
    let investment_mode: u8 = 1;
    assert_eq!(lt.investor_balance.get(&owner), U256::zero(), "Investor has already some wise balance");
    // what the exchange reports for swapping 100_000_000 tokens to CSPR
    let amounts = vec![amount(100_000_000), amount(98_715_803)];
    lt.reserve_wise_with_token(owner, day(12), investment_mode, &amounts).unwrap();
    assert_eq!(lt.investor_balance.get(&owner), amount(98_715_803), "Investor wise balance not increased");
}

#[test]
fn reserve_wise_with_token_refusals() {
    let owner = account(1);
    let mut lt = deploy(owner);
    assert_eq!(
        lt.reserve_wise_with_token(owner, day(12), 1, &vec![amount(5)]).err(),
        Some(Revert::Trap)
    );
    assert_eq!(
        lt.reserve_wise_with_token(owner, day(12), 1, &vec![amount(5), amount(757_574)]).err(),
        Some(Error::InvestmentBelowMinimum.revert())
    );
    assert_eq!(lt.globals.total_cspr_contributed, U256::zero());
}

#[test]
fn test_forward_liquidity() {
    let owner = account(1);
    let mut lt = deploy(owner);
    assert!(!lt.globals.uniswap_swaped, "Reserved tokens equivalent to CSPR contributed already forwarded");
    lt.reserve_wise(owner, day(0), 1, amount(TWOTHOUSEND_CSPR)).unwrap();
    let forwarding = lt.forward_liquidity(day(16)).unwrap();
    assert!(lt.globals.uniswap_swaped, "Reserved tokens equivalent to CSPR contributed not forwarded");
    assert_eq!(forwarding.scspr_tokens_amount, amount(TWOTHOUSEND_CSPR));
    assert_eq!(forwarding.wise_tokens_amount, amount(2_640_002_000_000_000));
    assert_eq!(lt.forward_liquidity(day(17)).err(), Some(Error::Swapped.revert()));
}

#[test]
fn forward_liquidity_waits_for_the_investment_days() {
    let mut lt = deploy(account(1));
    assert_eq!(lt.forward_liquidity(15).err(), Some(Error::OngoingInvestmentPhase.revert()));
    assert!(!lt.globals.uniswap_swaped);
}

#[test]
fn test_payout_investor_address() {
    let owner = account(1);
    let mut lt = deploy(owner);
    lt.reserve_wise(owner, day(0), 1, amount(TWOTHOUSEND_CSPR)).unwrap();
    lt.forward_liquidity(day(16)).unwrap();
    let ret = lt.payout_investor_address(owner).unwrap();
    assert_eq!(ret, amount(2_640_002_000_000_000));
    assert_eq!(lt.payout_investor_address(owner), Ok(U256::zero()));
}

#[test]
fn payout_waits_for_forwarding() {
    let owner = account(1);
    let mut lt = deploy(owner);
    lt.reserve_wise(owner, day(0), 1, amount(TWOTHOUSEND_CSPR)).unwrap();
    assert_eq!(lt.get_my_tokens(owner), Err(Error::ForwardLiquidityFirst.revert()));
}

#[test]
fn test_get_my_tokens() {
    let owner = account(1);
    let mut lt = deploy(owner);
    lt.reserve_wise(owner, day(0), 1, amount(TWOTHOUSEND_CSPR)).unwrap();
    lt.forward_liquidity(day(16)).unwrap();
    let minted = lt.get_my_tokens(owner).unwrap();
    assert_eq!(minted, amount(2_640_002_000_000_000), "Tokens not transfered to owner");
}

#[test]
fn test_reserve_claim_flow() {
    let owner = account(1);
    let (user1, user2) = (account(2), account(3));
    let mut lt = deploy(owner);
    lt.reserve_wise(owner, day(0), 1, amount(TWOTHOUSEND_CSPR)).unwrap();
    lt.reserve_wise(user1, day(0), 1, amount(TWOTHOUSEND_CSPR + TWOTHOUSEND_CSPR)).unwrap();
    lt.reserve_wise(user2, day(0), 1, amount(TWOTHOUSEND_CSPR * 3)).unwrap();
    lt.forward_liquidity(day(16)).unwrap();
    assert_eq!(lt.get_my_tokens(owner).unwrap(), amount(2_640_002_000_000_000), "Tokens not transfered to owner");
    assert_eq!(lt.get_my_tokens(user1).unwrap(), amount(5_280_005_000_000_000), "Tokens not transfered to owner");
    assert_eq!(lt.get_my_tokens(user2).unwrap(), amount(7_920_007_000_000_000), "Tokens not transfered to owner");
    assert_eq!(lt.globals.investor_count, amount(3));
    assert_eq!(lt.unique_investors.get(&amount(2)), Some(user2));
}

#[test]
fn test_prepare_path() {
    let lt = deploy(account(1));
    let token_address = contract(20);
    let ret = lt.prepare_path(token_address);
    assert_eq!(ret[0], token_address);
    assert_eq!(ret[1], contract(6));
}

#[test]
fn test_request_refund() {
    let owner = account(1);
    let mut lt = deploy(owner);
    lt.reserve_wise(owner, day(0), 1, amount(TWOTHOUSEND_CSPR)).unwrap();
    let ret = lt.request_refund(owner, day(30)).unwrap();
    assert_eq!(ret, (amount(TWOTHOUSEND_CSPR), amount(2_640_002_000_000_000)), "Invalid refund");
    assert_eq!(lt.globals.total_transfer_tokens, U256::zero());
    assert_eq!(lt.request_refund(owner, day(31)), Err(Error::RefundNotPossible.revert()));
}

#[test]
fn refund_waits_for_the_refund_days() {
    let owner = account(1);
    let mut lt = deploy(owner);
    lt.reserve_wise(owner, day(0), 1, amount(TWOTHOUSEND_CSPR)).unwrap();
    assert_eq!(lt.request_refund(owner, 25), Err(Error::RefundNotPossible.revert()));
    assert_eq!(lt.request_refund(account(9), 40), Err(Error::RefundNotPossible.revert()));
}

#[test]
fn reservation_refusals() {
    let owner = account(1);
    let mut lt = deploy(owner);
    assert_eq!(lt.reserve_wise(owner, 0, 1, amount(TWOTHOUSEND_CSPR)).err(), Some(Error::ReserveWrongInvestmentDay.revert()));
    assert_eq!(lt.reserve_wise(owner, 16, 1, amount(TWOTHOUSEND_CSPR)).err(), Some(Error::ReserveWrongInvestmentDay.revert()));
    assert_eq!(lt.reserve_wise(owner, 3, 1, amount(TOKEN_COST - 1)).err(), Some(Error::ReserveWiseMinInvest.revert()));
    assert_eq!(lt.reserve_wise(owner, 3, 6, amount(TWOTHOUSEND_CSPR)).err(), Some(Error::ReserverWiseWrongMode.revert()));
    assert_eq!(Error::ReserverWiseWrongMode.code(), 3);
    assert_eq!(lt.globals.investor_count, U256::zero());
}

#[test]
fn cash_back_is_one_percent_up_to_the_cap() {
    let owner = account(1);
    let mut lt = deploy(owner);
    let mut paid: u128 = 0;
    for i in 0..4u64 {
        let r = lt.reserve_wise(account(10 + i), 3, 0, amount(TWOTHOUSEND_CSPR)).unwrap();
        assert_eq!(r.cash_back_amount, Some(amount(20_000_000_000)));
        assert_eq!(
            r.events[0],
            LiquidityTransformerEvent::CashBackIssued {
                investor_address: account(10 + i),
                sender_value: amount(TWOTHOUSEND_CSPR),
                cash_back_amount: amount(20_000_000_000),
            }
        );
        paid += 20_000_000_000;
    }
    assert_eq!(lt.globals.cash_back_total, amount(paid));
    // 3 000 CSPR would give 30 CSPR back; only 20 CSPR are left under the cap
    let r = lt.reserve_wise(account(20), 3, 0, amount(3_000_000_000_000)).unwrap();
    assert_eq!(r.cash_back_amount, Some(amount(20_000_000_000)));
    assert_eq!(lt.globals.cash_back_total, amount(100_000_000_000));
    let r = lt.reserve_wise(account(21), 3, 0, amount(TWOTHOUSEND_CSPR)).unwrap();
    assert_eq!(r.cash_back_amount, None);
    assert_eq!(r.events.len(), 1);
}

#[test]
fn supply_cap_returns_the_excess() {
    let owner = account(1);
    let mut lt = deploy(owner);
    let value = amount(201_000_000_000_000);
    let r = lt.reserve_wise(owner, 3, 1, value).unwrap();
    assert_eq!(r.token_amount, amount(MAX_SUPPLY));
    assert_eq!(r.return_amount, amount(1_000_000_000_000));
    assert_eq!(
        r.events,
        vec![
            LiquidityTransformerEvent::RefundIssued { investor_address: owner, refund_amount: amount(1_000_000_000_000) },
            LiquidityTransformerEvent::WiseReservation {
                sender_address: owner,
                investment_amount: value,
                token_amount: amount(MAX_SUPPLY),
                current_stakeable_day: 3,
                investment_mode: 1,
            },
        ]
    );
    assert_eq!(lt.globals.total_transfer_tokens, amount(MAX_SUPPLY));
    assert_eq!(
        lt.reserve_wise(account(2), 3, 1, amount(TWOTHOUSEND_CSPR)).err(),
        Some(Error::ReserveWiseMaxSupplyReached.revert())
    );
}

#[test]
fn token_amount_of_a_payment() {
    let lt = deploy(account(1));
    assert_eq!(
        lt._get_token_amount(U256::zero(), U256::zero(), amount(TWOTHOUSEND_CSPR)),
        Ok((amount(2_640_002_000_000_000), U256::zero()))
    );
    // the supply is reserved beyond the cap: the excess payment cannot be computed
    assert_eq!(
        lt._get_token_amount(amount(300_000_000_000_000), amount(MAX_SUPPLY), amount(TWOTHOUSEND_CSPR)),
        Err(Revert::NoValue)
    );
}

#[test]
fn event_names() {
    let e = LiquidityTransformerEvent::RefundIssued { investor_address: account(1), refund_amount: U256::zero() };
    assert_eq!(e.event_name(), "refundIssued");
    let e = LiquidityTransformerEvent::UniswapSwapResult {
        amount_token_a: U256::zero(),
        amount_token_b: U256::zero(),
        liquidity: U256::zero(),
    };
    assert_eq!(e.event_name(), "uniswapSwapResult");
}
