use wise_liquidity::address::{Address, AddressKind};
use wise_liquidity::revert::Revert;
use wise_liquidity::scspr::data::Scspr;
use wise_liquidity::scspr::event::SCSPREvent;
use wise_liquidity::scspr::flow::{Action, Answer, Flow, FlowKind, PoolFigures, Stage};
use wise_liquidity::synthetic_helper::data::limit_amount;
use wise_liquidity::synthetic_token::event::SyntheticTokenEvent;
use wise_liquidity::synthetic_token::{_get_trading_fee_amount, _profit_arbitrage_remove};
use wise_liquidity::u256::U256;

fn account(n: u64) -> Address {
    Address { kind: AddressKind::Account, w0: n, w1: 0, w2: 0, w3: 0 }
}

fn contract(n: u64) -> Address {
    Address { kind: AddressKind::Hash, w0: n, w1: 0, w2: 0, w3: 0 }
}

fn amount(x: u128) -> U256 {
    U256::from_u128(x)
}

const EVALUATION: u128 = 250_000_000_000_000_000_000_000;

/// A contract open for deposits whose recorded evaluation is that of
/// `balanced_pool`.
fn open_contract(owner: Address) -> Scspr {
    let mut s = Scspr::init(owner, contract(1), contract(2), contract(3), contract(4), contract(5), contract(6));
    s.token.allow_deposit = true;
    s.token.current_evaluation = amount(EVALUATION);
    s
}

/// A pool with equal balances, evaluated at `EVALUATION`.
fn balanced_pool() -> PoolFigures {
    PoolFigures {
        wrapped_balance: amount(1_000_000_000_000),
        synthetic_balance: amount(1_000_000_000_000),
        lp_token_balance: amount(1_000_000_000_000),
        total_supply: amount(2_000_000_000_000),
    }
}

#[test]
fn withdrawal_run_on_a_balanced_pool() {
    let owner = account(1);
    let user = account(7);
    let own = contract(6);
    let mut s = open_contract(owner);
    let mut flow = Flow::withdraw(user, amount(500));
    assert_eq!(s.step(&mut flow, Answer::Done), Ok(vec![Action::SkimPair, Action::ReadOwnBalance]));
    assert_eq!(
        s.step(&mut flow, Answer::OwnBalance(amount(5))),
        Ok(vec![Action::Burn { owner: own, amount: amount(5) }, Action::ReadPurseBalance])
    );
    // a withdrawal leaves nothing in the purse: all of it goes to the master
    assert_eq!(
        s.step(&mut flow, Answer::PurseBalance(amount(100))),
        Ok(vec![
            Action::PayMaster { amount: amount(100) },
            Action::EmitToken(SyntheticTokenEvent::MasterProfit { amount_wcspr: amount(100), master_address: owner }),
            Action::ReadPool,
        ])
    );
    // the evaluation did not grow: no fees
    assert_eq!(s.step(&mut flow, Answer::Pool(balanced_pool())), Ok(vec![Action::ReadPool]));
    assert_eq!(flow.stage, Stage::ArbitragePool);
    // balanced: no arbitrage
    assert_eq!(
        s.step(&mut flow, Answer::Pool(balanced_pool())),
        Ok(vec![Action::RemoveLiquidity { amount: amount(500) }])
    );
    assert_eq!(flow.stage, Stage::SettleRemoved);
    assert_eq!(
        s.step(&mut flow, Answer::Removed { amount_wcspr: amount(40), amount_scspr: amount(30) }),
        Ok(vec![
            Action::Unwrap { amount_wcspr: amount(40) },
            Action::PaySuccessor { amount: amount(40) },
            Action::Burn { owner: user, amount: amount(500) },
            Action::Burn { owner: contract(5), amount: amount(30) },
            Action::ReadPool,
        ])
    );
    let after = PoolFigures { total_supply: amount(4_000_000_000_000), ..balanced_pool() };
    assert_eq!(
        s.step(&mut flow, Answer::Pool(after)),
        Ok(vec![Action::EmitScspr(SCSPREvent::Withdrawal { from_address: user, token_amount: amount(500) })])
    );
    assert!(flow.is_finished());
    // twice the supply: a quarter of the evaluation
    assert_eq!(s.token.current_evaluation, amount(EVALUATION / 4));
    // a finished run asks for nothing
    assert_eq!(s.step(&mut flow, Answer::Done), Ok(vec![]));
}

#[test]
fn deposit_run_on_a_balanced_pool() {
    let owner = account(1);
    let user = account(7);
    let own = contract(6);
    let mut s = open_contract(owner);
    let mut flow = Flow::deposit(user, amount(1000));
    assert_eq!(
        s.step(&mut flow, Answer::Done),
        Ok(vec![Action::CollectDeposit { amount: amount(1000) }, Action::SkimPair, Action::ReadOwnBalance])
    );
    s.step(&mut flow, Answer::OwnBalance(U256::zero())).unwrap();
    // only what the purse holds beyond the deposit goes to the master
    assert_eq!(
        s.step(&mut flow, Answer::PurseBalance(amount(1100))),
        Ok(vec![
            Action::PayMaster { amount: amount(100) },
            Action::EmitToken(SyntheticTokenEvent::MasterProfit { amount_wcspr: amount(100), master_address: owner }),
            Action::ReadPool,
        ])
    );
    s.step(&mut flow, Answer::Pool(balanced_pool())).unwrap();
    // the deposit is minted to the depositor and added to the pool
    assert_eq!(
        s.step(&mut flow, Answer::Pool(balanced_pool())),
        Ok(vec![
            Action::Mint { owner: user, amount: amount(1000) },
            Action::Mint { owner: contract(5), amount: limit_amount() },
            Action::WrapDeposit { amount: amount(1000) },
            Action::AddLiquidity { amount_wcspr: amount(1000), amount_scspr: limit_amount() },
        ])
    );
    assert_eq!(flow.stage, Stage::SettleAdded);
    assert_eq!(
        s.step(
            &mut flow,
            Answer::Added { amount_wcspr: amount(1000), amount_scspr: amount(999), liquidity: amount(7) }
        ),
        Ok(vec![
            Action::EmitToken(SyntheticTokenEvent::LiquidityAdded {
                amount_wcspr: amount(1000),
                amount_scspr: amount(999),
                liquidity: amount(7),
            }),
            Action::ReadOwnBalance,
        ])
    );
    assert_eq!(
        s.step(&mut flow, Answer::OwnBalance(amount(123))),
        Ok(vec![Action::Burn { owner: own, amount: amount(123) }, Action::ReadPool])
    );
    assert_eq!(
        s.step(&mut flow, Answer::Pool(balanced_pool())),
        Ok(vec![Action::EmitScspr(SCSPREvent::DepositedLiquidity {
            deposit_amount: amount(1000),
            transformer_address: user,
        })])
    );
    assert!(flow.is_finished());
    assert_eq!(s.token.current_evaluation, amount(EVALUATION));
}

#[test]
fn deposit_refused_while_disabled() {
    let owner = account(1);
    let mut s = open_contract(owner);
    s.token.allow_deposit = false;
    let mut flow = Flow::deposit(account(7), amount(1000));
    let before = s;
    assert_eq!(s.step(&mut flow, Answer::Done), Err(Revert::User(69)));
    assert_eq!(s, before);
    assert_eq!(flow.stage, Stage::Start);
}

#[test]
fn add_lp_tokens_only_for_the_master() {
    let owner = account(1);
    let mut s = open_contract(owner);
    let mut flow = Flow::add_lp_tokens(account(7), amount(10), amount(3));
    assert_eq!(s.step(&mut flow, Answer::Done), Err(Revert::User(65)));
    let mut flow = Flow::add_lp_tokens(owner, amount(10), amount(3));
    assert_eq!(
        s.step(&mut flow, Answer::Done),
        Ok(vec![Action::CollectDeposit { amount: amount(10) }, Action::SkimPair, Action::ReadOwnBalance])
    );
}

#[test]
fn add_lp_tokens_ends_with_a_second_evaluation() {
    let owner = account(1);
    let mut s = open_contract(owner);
    let mut flow = Flow {
        kind: FlowKind::AddLpTokens { token_amount: amount(3) },
        caller: owner,
        amount: amount(10),
        stage: Stage::UpdatePool,
    };
    assert_eq!(
        s.step(&mut flow, Answer::Pool(balanced_pool())),
        Ok(vec![
            Action::EmitScspr(SCSPREvent::DepositedLiquidity { deposit_amount: amount(10), transformer_address: owner }),
            Action::CollectDeposit { amount: amount(10) },
            Action::TransferLpTokens { amount: amount(3) },
            Action::ReadPool,
        ])
    );
    assert_eq!(flow.stage, Stage::LpUpdatePool);
    let after = PoolFigures { total_supply: amount(4_000_000_000_000), ..balanced_pool() };
    assert_eq!(s.step(&mut flow, Answer::Pool(after)), Ok(vec![]));
    assert!(flow.is_finished());
    assert_eq!(s.token.current_evaluation, amount(EVALUATION / 4));
}

#[test]
fn fees_are_taken_from_a_grown_pool() {
    let owner = account(1);
    let own = contract(6);
    let mut s = open_contract(owner);
    s.token.current_evaluation = amount(100_000_000_000_000_000_000_000);
    let mut flow = Flow { kind: FlowKind::Withdraw, caller: account(7), amount: amount(5), stage: Stage::FeesPool };
    let fee = _get_trading_fee_amount(
        amount(100_000_000_000_000_000_000_000),
        amount(EVALUATION),
        amount(1_000_000_000_000),
        amount(1_000_000_000_000),
        amount(1_000_000_000_000),
        amount(2_000_000_000_000),
    );
    assert_eq!(fee, Ok(amount(183_772_233_983)));
    assert_eq!(
        s.step(&mut flow, Answer::Pool(balanced_pool())),
        Ok(vec![Action::RemoveLiquidity { amount: amount(183_772_233_983) }])
    );
    assert_eq!(flow.stage, Stage::FeesRemoved);
    assert_eq!(
        s.step(&mut flow, Answer::Removed { amount_wcspr: amount(11), amount_scspr: amount(22) }),
        Ok(vec![
            Action::EmitToken(SyntheticTokenEvent::LiquidityRemoved { amount_wcspr: amount(11), amount_scspr: amount(22) }),
            Action::Unwrap { amount_wcspr: amount(11) },
            Action::PayMaster { amount: amount(11) },
            Action::EmitToken(SyntheticTokenEvent::MasterProfit { amount_wcspr: amount(11), master_address: owner }),
            Action::Burn { owner: own, amount: amount(22) },
            Action::EmitToken(SyntheticTokenEvent::SendFeesToMaster { amount_wcspr: amount(11), master_address: owner }),
            Action::ReadPool,
        ])
    );
    assert_eq!(flow.stage, Stage::ArbitragePool);
}

#[test]
fn arbitrage_buying_synthetic_tokens_back() {
    let owner = account(1);
    let own = contract(6);
    let wcspr = contract(1);
    let mut s = open_contract(owner);
    let mut flow = Flow { kind: FlowKind::Withdraw, caller: account(7), amount: amount(5), stage: Stage::ArbitragePool };
    let pool = PoolFigures {
        wrapped_balance: amount(1_000_000_000_000_000_000),
        synthetic_balance: amount(2_000_000_000_000_000_000),
        lp_token_balance: amount(1_000_000_000_000_000_000),
        total_supply: amount(2_000_000_000_000_000_000),
    };
    let profit = _profit_arbitrage_remove(
        pool.wrapped_balance,
        pool.synthetic_balance,
        pool.lp_token_balance,
        pool.total_supply,
    );
    assert_eq!(profit, Ok(amount(341_430_021_755_081_708)));
    assert_eq!(
        s.step(&mut flow, Answer::Pool(pool)),
        Ok(vec![Action::RemoveLiquidity { amount: amount(341_430_021_755_081_708) }])
    );
    assert_eq!(flow.stage, Stage::CsprFirstRemoved);
    assert_eq!(
        s.step(&mut flow, Answer::Removed { amount_wcspr: amount(3), amount_scspr: amount(4) }),
        Ok(vec![
            Action::EmitToken(SyntheticTokenEvent::LiquidityRemoved { amount_wcspr: amount(3), amount_scspr: amount(4) }),
            Action::Unwrap { amount_wcspr: amount(3) },
            Action::PayMaster { amount: amount(3) },
            Action::EmitToken(SyntheticTokenEvent::MasterProfit { amount_wcspr: amount(3), master_address: owner }),
            Action::ReadPool,
        ])
    );
    let second = PoolFigures {
        wrapped_balance: amount(1_000_000_000_000),
        synthetic_balance: amount(4_000_000_000_000),
        lp_token_balance: amount(1_000_000_000_000_000_000_000_000),
        total_supply: amount(250_000_000_000_000_000_000_000),
    };
    assert_eq!(
        s.step(&mut flow, Answer::Pool(second)),
        Ok(vec![Action::RemoveLiquidity { amount: amount(249_372_653_316) }])
    );
    assert_eq!(
        s.step(&mut flow, Answer::Removed { amount_wcspr: amount(50), amount_scspr: amount(60) }),
        Ok(vec![
            Action::EmitToken(SyntheticTokenEvent::LiquidityRemoved { amount_wcspr: amount(50), amount_scspr: amount(60) }),
            Action::ApproveWrapped { amount: limit_amount(), owner: None },
            Action::ApproveWrapped { amount: amount(50), owner: None },
            Action::Swap { amount: amount(50), from: wcspr, to: own },
        ])
    );
    assert_eq!(flow.stage, Stage::CsprSwapped { amount_wcspr: amount(50) });
    assert_eq!(
        s.step(&mut flow, Answer::Swapped(amount(70))),
        Ok(vec![Action::ForwardFunds { to: own, amount: amount(70) }, Action::ReadOwnBalance])
    );
    assert_eq!(
        s.step(&mut flow, Answer::OwnBalance(amount(80))),
        Ok(vec![
            Action::Burn { owner: own, amount: amount(80) },
            Action::EmitToken(SyntheticTokenEvent::SendArbitrageProfitToMaster {
                amount_wcspr: amount(50),
                master_address: owner,
            }),
            Action::RemoveLiquidity { amount: amount(5) },
        ])
    );
    assert_eq!(flow.stage, Stage::SettleRemoved);
}

#[test]
fn arbitrage_selling_synthetic_tokens() {
    let owner = account(1);
    let user = account(7);
    let own = contract(6);
    let wcspr = contract(1);
    let mut s = open_contract(owner);
    let mut flow = Flow { kind: FlowKind::Deposit, caller: user, amount: amount(9), stage: Stage::ArbitragePool };
    let pool = PoolFigures {
        wrapped_balance: amount(4),
        synthetic_balance: amount(1),
        lp_token_balance: amount(1_000_000_000_000_000_000),
        total_supply: amount(1_000_000_000_000_000_000),
    };
    assert_eq!(
        s.step(&mut flow, Answer::Pool(pool)),
        Ok(vec![Action::RemoveLiquidity { amount: amount(248_750_000_000_000_000) }])
    );
    assert_eq!(flow.stage, Stage::ScsprFirstRemoved);
    assert_eq!(
        s.step(&mut flow, Answer::Removed { amount_wcspr: amount(3), amount_scspr: amount(4) }),
        Ok(vec![
            Action::EmitToken(SyntheticTokenEvent::LiquidityRemoved { amount_wcspr: amount(3), amount_scspr: amount(4) }),
            Action::Unwrap { amount_wcspr: amount(3) },
            Action::PayMaster { amount: amount(3) },
            Action::EmitToken(SyntheticTokenEvent::MasterProfit { amount_wcspr: amount(3), master_address: owner }),
            Action::Mint { owner: own, amount: limit_amount() },
            Action::ReadPool,
        ])
    );
    let second = PoolFigures {
        wrapped_balance: amount(4_000_000),
        synthetic_balance: amount(1_000_000),
        lp_token_balance: amount(1),
        total_supply: amount(1),
    };
    assert_eq!(
        s.step(&mut flow, Answer::Pool(second)),
        Ok(vec![
            Action::ApproveWrapped { amount: amount(997_493), owner: Some(own) },
            Action::Swap { amount: amount(997_493), from: own, to: wcspr },
        ])
    );
    assert_eq!(
        s.step(&mut flow, Answer::Swapped(amount(8))),
        Ok(vec![Action::ForwardFunds { to: wcspr, amount: amount(8) }, Action::ReadOwnBalance])
    );
    assert_eq!(
        s.step(&mut flow, Answer::OwnBalance(amount(10))),
        Ok(vec![Action::AddLiquidity { amount_wcspr: amount(8), amount_scspr: amount(10) }])
    );
    assert_eq!(
        s.step(&mut flow, Answer::Added { amount_wcspr: amount(1), amount_scspr: amount(2), liquidity: amount(3) }),
        Ok(vec![
            Action::EmitToken(SyntheticTokenEvent::LiquidityAdded {
                amount_wcspr: amount(1),
                amount_scspr: amount(2),
                liquidity: amount(3),
            }),
            Action::ReadOwnBalance,
        ])
    );
    assert_eq!(
        s.step(&mut flow, Answer::OwnBalance(amount(5))),
        Ok(vec![
            Action::Burn { owner: own, amount: amount(5) },
            Action::EmitToken(SyntheticTokenEvent::SendArbitrageProfitToMaster {
                amount_wcspr: amount(3),
                master_address: owner,
            }),
            Action::Mint { owner: user, amount: amount(9) },
            Action::Mint { owner: contract(5), amount: limit_amount() },
            Action::WrapDeposit { amount: amount(9) },
            Action::AddLiquidity { amount_wcspr: amount(9), amount_scspr: limit_amount() },
        ])
    );
    assert_eq!(flow.stage, Stage::SettleAdded);
}

#[test]
fn unexpected_answers_are_refused() {
    let owner = account(1);
    let mut s = open_contract(owner);
    let mut flow = Flow::withdraw(account(7), amount(5));
    assert_eq!(s.step(&mut flow, Answer::Pool(balanced_pool())), Err(Revert::Trap));
    s.step(&mut flow, Answer::Done).unwrap();
    assert_eq!(s.step(&mut flow, Answer::Done), Err(Revert::Trap));
    assert_eq!(flow.stage, Stage::CleanUpBalance);
}

#[test]
fn withdrawal_above_usize_traps_at_settlement() {
    let owner = account(1);
    let mut s = open_contract(owner);
    let mut flow = Flow { kind: FlowKind::Withdraw, caller: account(7), amount: amount(5), stage: Stage::SettleRemoved };
    let huge = amount(u64::MAX as u128 + 1);
    assert_eq!(
        s.step(&mut flow, Answer::Removed { amount_wcspr: huge, amount_scspr: amount(1) }),
        Err(Revert::Trap)
    );
}

/// Runs `flow` to its end on a balanced pool, answering each step as the
/// host would with fixed figures, and returns every action handed out.
fn run_on_balanced_pool(s: &mut Scspr, mut flow: Flow) -> Vec<Action> {
    let mut all = Vec::new();
    let mut answer = Answer::Done;
    while !flow.is_finished() {
        let actions = s.step(&mut flow, answer).unwrap();
        answer = match actions.last() {
            Some(Action::ReadOwnBalance) => Answer::OwnBalance(amount(3)),
            Some(Action::ReadPurseBalance) => Answer::PurseBalance(amount(2_000)),
            Some(Action::ReadPool) => Answer::Pool(balanced_pool()),
            Some(Action::RemoveLiquidity { .. }) => {
                Answer::Removed { amount_wcspr: amount(40), amount_scspr: amount(30) }
            }
            Some(Action::AddLiquidity { .. }) => {
                Answer::Added { amount_wcspr: amount(1), amount_scspr: amount(2), liquidity: amount(3) }
            }
            _ => Answer::Done,
        };
        all.extend(actions);
    }
    all
}

/// What `actions` mint to `who` less what they burn from it.
fn net_change(actions: &[Action], who: Address) -> i128 {
    let mut net: i128 = 0;
    for a in actions {
        match *a {
            Action::Mint { owner, amount } if owner == who => net += amount.w0 as i128,
            Action::Burn { owner, amount } if owner == who => net -= amount.w0 as i128,
            _ => {}
        }
    }
    net
}

#[test]
fn withdrawal_undoes_a_deposit() {
    let owner = account(1);
    let user = account(7);
    let mut s = open_contract(owner);
    let deposited = run_on_balanced_pool(&mut s, Flow::deposit(user, amount(1000)));
    assert_eq!(net_change(&deposited, user), 1000);
    let withdrawn = run_on_balanced_pool(&mut s, Flow::withdraw(user, amount(1000)));
    assert_eq!(net_change(&withdrawn, user), -1000);
    assert_eq!(net_change(&deposited, user) + net_change(&withdrawn, user), 0);
}
