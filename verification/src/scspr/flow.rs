//! Deposits and withdrawals of synthetic CSPR, with the pool upkeep that
//! comes with each of them: the contract cleans up its purse, takes the
//! trading fees the pool earned, evens out the pool when its balances
//! drift apart, settles the deposit or withdrawal and records the pool's
//! new evaluation.
//!
//! The work alternates between calls to other contracts (the exchange, the
//! wrapped CSPR contract, the purses) and decisions on what they report.
//! It is written here as a sequence of steps: each step takes what the
//! previous actions reported, decides, and hands out the next actions.
//! The host performs the actions in order and answers with what the last
//! one reports; the run ends at `Stage::Finished`.
use vstd::prelude::*;
use crate::address::Address;
use crate::revert::Revert;
use crate::scspr::admits_master;
use crate::scspr::data::Scspr;
use crate::scspr::errors::Error;
use crate::scspr::event::SCSPREvent;
use crate::synthetic_helper::_get_balance_diff;
use crate::synthetic_helper::data::{limit_amount, spec_limit_amount};
use crate::synthetic_token::data::SyntheticToken;
use crate::synthetic_token::event::SyntheticTokenEvent;
use crate::synthetic_token::{
    ArbitrageDecision, _arbitrage_cspr_needed, _arbitrage_decision, _arbitrage_scspr_needed,
    _get_evaluation, _get_trading_fee_amount, _profit_arbitrage_remove,
    _swap_amount_arbitrage_scspr, _to_remove_cspr, arbitrage_cspr_gate, arbitrage_decision_outcome,
    arbitrage_scspr_gate, evaluation_outcome, fees_decision_outcome,
    profit_arbitrage_remove_outcome, swap_amount_arbitrage_scspr_outcome, to_remove_cspr_outcome,
    trading_fee_amount_outcome,
};
use crate::u256::{U256, lemma_u256_of_view, u256_of};

verus! {

/// What the exchange pair reports about the pool at one moment.
#[derive(Clone, Copy, Debug, PartialEq, Eq, Structural)]
pub struct PoolFigures {
    /// Wrapped CSPR held by the pair.
    pub wrapped_balance: U256,
    /// Synthetic tokens held by the pair.
    pub synthetic_balance: U256,
    /// The pair's liquidity tokens held by the contract.
    pub lp_token_balance: U256,
    /// All of the pair's liquidity tokens.
    pub total_supply: U256,
}

/// What the host reports after performing a step's actions: the result of
/// the last one.
#[derive(Clone, Copy, Debug, PartialEq, Eq, Structural)]
pub enum Answer {
    /// Nothing to report: the first step, or an action without a result.
    Done,
    /// The pool's figures (`Action::ReadPool`).
    Pool(PoolFigures),
    /// The contract's own synthetic tokens (`Action::ReadOwnBalance`).
    OwnBalance(U256),
    /// The motes in the contract purse (`Action::ReadPurseBalance`).
    PurseBalance(U256),
    /// What a removal of liquidity returned (`Action::RemoveLiquidity`).
    Removed { amount_wcspr: U256, amount_scspr: U256 },
    /// What a swap returned (`Action::Swap`).
    Swapped(U256),
    /// What adding liquidity returned (`Action::AddLiquidity`).
    Added { amount_wcspr: U256, amount_scspr: U256, liquidity: U256 },
}

/// Work that the contract hands to the host.
#[derive(Clone, Copy, Debug, PartialEq, Eq, Structural)]
pub enum Action {
    /// Move the deposited motes from the depositor's purse to the contract purse.
    CollectDeposit { amount: U256 },
    /// Have the pair send its surplus to the master.
    SkimPair,
    /// Read the pool's figures.
    ReadPool,
    /// Read the contract's own synthetic-token balance.
    ReadOwnBalance,
    /// Read the motes in the contract purse.
    ReadPurseBalance,
    /// Remove `amount` liquidity tokens from the pool.
    RemoveLiquidity { amount: U256 },
    /// Turn wrapped CSPR back into CSPR in the contract purse, with deposits
    /// bypassed for the time of the call.
    Unwrap { amount_wcspr: U256 },
    /// Move motes from the contract purse to the master's purse.
    PayMaster { amount: U256 },
    /// Move motes from the contract purse to the withdrawer's purse.
    PaySuccessor { amount: U256 },
    /// Wrap motes of the contract purse into wrapped CSPR.
    WrapDeposit { amount: U256 },
    /// Mint synthetic tokens.
    Mint { owner: Address, amount: U256 },
    /// Burn synthetic tokens.
    Burn { owner: Address, amount: U256 },
    /// Let the router spend the contract's wrapped CSPR.
    ApproveWrapped { amount: U256, owner: Option<Address> },
    /// Swap `amount` of token `from` for token `to` on the exchange.
    Swap { amount: U256, from: Address, to: Address },
    /// Have the transfer helper forward `amount` of what a swap bought.
    ForwardFunds { to: Address, amount: U256 },
    /// Add wrapped CSPR and synthetic tokens to the pool.
    AddLiquidity { amount_wcspr: U256, amount_scspr: U256 },
    /// Take `amount` liquidity tokens from the master.
    TransferLpTokens { amount: U256 },
    /// Record an event of the synthetic token.
    EmitToken(SyntheticTokenEvent),
    /// Record an event of the synthetic CSPR contract.
    EmitScspr(SCSPREvent),
}

/// The operation a run performs.
#[derive(Clone, Copy, Debug, PartialEq, Eq, Structural)]
pub enum FlowKind {
    /// `deposit`: CSPR in, synthetic tokens out.
    Deposit,
    /// `withdraw`: synthetic tokens in, CSPR out.
    Withdraw,
    /// `add_lp_tokens`: the master deposits and adds liquidity tokens.
    AddLpTokens { token_amount: U256 },
}

/// Where a run stands: what it awaits from the host.
#[derive(Clone, Copy, Debug, PartialEq, Eq, Structural)]
pub enum Stage {
    Start,
    CleanUpBalance,
    CleanUpPurse,
    FeesPool,
    FeesRemoved,
    ArbitragePool,
    CsprFirstRemoved,
    CsprPool,
    CsprSecondRemoved,
    CsprSwapped { amount_wcspr: U256 },
    CsprBurn { amount_wcspr: U256 },
    ScsprFirstRemoved,
    ScsprPool { amount_wcspr: U256 },
    ScsprSwapped { amount_wcspr: U256 },
    ScsprOwnBalance { amount_wcspr: U256, received: U256 },
    ScsprAdded { amount_wcspr: U256 },
    ScsprBurn { amount_wcspr: U256 },
    SettleRemoved,
    SettleAdded,
    SettleBurn,
    UpdatePool,
    LpUpdatePool,
    Finished,
}

/// A run: the operation, its caller, the amount deposited or withdrawn,
/// and the stage reached.
#[derive(Clone, Copy, Debug, PartialEq, Eq, Structural)]
pub struct Flow {
    pub kind: FlowKind,
    pub caller: Address,
    pub amount: U256,
    pub stage: Stage,
}

/// The order of the stages: every step moves to a later one.
pub open spec fn stage_rank(stage: Stage) -> nat {
    match stage {
        Stage::Start => 0,
        Stage::CleanUpBalance => 1,
        Stage::CleanUpPurse => 2,
        Stage::FeesPool => 3,
        Stage::FeesRemoved => 4,
        Stage::ArbitragePool => 5,
        Stage::CsprFirstRemoved => 6,
        Stage::CsprPool => 7,
        Stage::CsprSecondRemoved => 8,
        Stage::CsprSwapped { .. } => 9,
        Stage::CsprBurn { .. } => 10,
        Stage::ScsprFirstRemoved => 6,
        Stage::ScsprPool { .. } => 7,
        Stage::ScsprSwapped { .. } => 8,
        Stage::ScsprOwnBalance { .. } => 9,
        Stage::ScsprAdded { .. } => 10,
        Stage::ScsprBurn { .. } => 11,
        Stage::SettleRemoved => 12,
        Stage::SettleAdded => 12,
        Stage::SettleBurn => 13,
        Stage::UpdatePool => 14,
        Stage::LpUpdatePool => 15,
        Stage::Finished => 16,
    }
}

/// How an action changes the synthetic-token balance of `who`: a mint to
/// it adds, a burn from it takes away.
pub open spec fn action_change(action: Action, who: Address) -> int {
    match action {
        Action::Mint { owner, amount } => if owner == who {
            amount@ as int
        } else {
            0
        },
        Action::Burn { owner, amount } => if owner == who {
            -(amount@ as int)
        } else {
            0
        },
        _ => 0,
    }
}

/// How the first `k` of `actions` change the synthetic-token balance of
/// `who`.
pub open spec fn change_upto(actions: Seq<Action>, who: Address, k: int) -> int
    decreases k,
{
    if k <= 0 {
        0
    } else {
        change_upto(actions, who, k - 1) + action_change(actions[k - 1], who)
    }
}

/// How a sequence of actions changes the synthetic-token balance of `who`.
pub open spec fn balance_change(actions: Seq<Action>, who: Address) -> int {
    change_upto(actions, who, actions.len() as int)
}

/// `states`, `flows`, `answers` and `actions` record a run: step `i` takes
/// the contract from `states[i]` to `states[i + 1]` and the run from
/// `flows[i]` to `flows[i + 1]` on `answers[i]`, handing out `actions[i]`.
pub open spec fn is_run(
    states: Seq<Scspr>,
    flows: Seq<Flow>,
    answers: Seq<Answer>,
    actions: Seq<Seq<Action>>,
) -> bool {
    &&& flows.len() == states.len()
    &&& answers.len() + 1 == states.len()
    &&& actions.len() == answers.len()
    &&& forall|i: int|
        0 <= i < answers.len() ==> #[trigger] step_effect(
            states[i],
            states[i + 1],
            flows[i],
            flows[i + 1],
            answers[i],
            Ok::<Seq<Action>, Revert>(actions[i]),
        )
}

/// How all the actions of a run change the synthetic-token balance of `who`.
pub open spec fn run_change(actions: Seq<Seq<Action>>, who: Address) -> int
    decreases actions.len(),
{
    if actions.len() == 0 {
        0
    } else {
        run_change(actions.drop_last(), who) + balance_change(actions.last(), who)
    }
}

/// What a step returned, with its actions as a sequence.
pub open spec fn actions_of(r: Result<Vec<Action>, Revert>) -> Result<Seq<Action>, Revert> {
    match r {
        Ok(v) => Ok(v@),
        Err(e) => Err(e),
    }
}

/// What `_get_balance_diff` gives: the purse's surplus over `amount`, or a
/// trap for an amount above `usize::MAX`.
pub open spec fn balance_diff_outcome(balance: nat, amount: nat) -> Result<nat, Revert> {
    if amount > usize::MAX {
        Err(Revert::Trap)
    } else if balance > amount {
        Ok((balance - amount) as nat)
    } else {
        Ok(0)
    }
}

/// The amount that the clean-up leaves in the contract purse: the deposit,
/// or nothing on a withdrawal.
pub open spec fn clean_up_amount(flow: Flow) -> nat {
    match flow.kind {
        FlowKind::Withdraw => 0,
        _ => flow.amount@,
    }
}

/// 10^50 as a `U256`.
pub open spec fn limit() -> U256 {
    u256_of(spec_limit_amount())
}

/// How a run settles once the pool is evened out: a withdrawal removes the
/// withdrawn liquidity; a deposit mints the deposit to the depositor,
/// wraps it and adds it to the pool with 10^50 synthetic tokens.
pub open spec fn settlement(o: Scspr, flow: Flow) -> Seq<Action> {
    match flow.kind {
        FlowKind::Withdraw => seq![Action::RemoveLiquidity { amount: flow.amount }],
        _ => seq![
            Action::Mint { owner: flow.caller, amount: flow.amount },
            Action::Mint { owner: o.token.contract_hash, amount: limit() },
            Action::WrapDeposit { amount: flow.amount },
            Action::AddLiquidity { amount_wcspr: flow.amount, amount_scspr: limit() },
        ],
    }
}

/// The stage that awaits the result of `settlement`.
pub open spec fn settlement_stage(flow: Flow) -> Stage {
    match flow.kind {
        FlowKind::Withdraw => Stage::SettleRemoved,
        _ => Stage::SettleAdded,
    }
}

/// The step moves on to `stage` with `actions`; the contract is unchanged.
pub open spec fn moves(
    o: Scspr,
    f: Scspr,
    flow: Flow,
    next: Flow,
    r: Result<Seq<Action>, Revert>,
    stage: Stage,
    actions: Seq<Action>,
) -> bool {
    &&& f == o
    &&& next == Flow { stage, ..flow }
    &&& r matches Ok(a) && a =~= actions
}

/// The step is refused with `e`; nothing changes.
pub open spec fn fails(o: Scspr, f: Scspr, flow: Flow, next: Flow, r: Result<Seq<Action>, Revert>, e: Revert) -> bool {
    f == o && next == flow && r == Err::<Seq<Action>, Revert>(e)
}

/// The step that records the pool's evaluation at the end of a run.
pub open spec fn update_effect(
    o: Scspr,
    f: Scspr,
    flow: Flow,
    next: Flow,
    answer: Answer,
    r: Result<Seq<Action>, Revert>,
) -> bool {
    match answer {
        Answer::Pool(p) => match evaluation_outcome(
            p.wrapped_balance@,
            p.synthetic_balance@,
            p.total_supply@,
            p.lp_token_balance@,
        ) {
            Err(e) => fails(o, f, flow, next, r, e),
            Ok(v) => {
                let updated = Scspr {
                    token: SyntheticToken { current_evaluation: u256_of(v), ..o.token },
                    ..o
                };
                let deposited = Action::EmitScspr(
                    SCSPREvent::DepositedLiquidity { deposit_amount: flow.amount, transformer_address: flow.caller },
                );
                if flow.stage == Stage::LpUpdatePool {
                    moves(updated, f, flow, next, r, Stage::Finished, Seq::empty())
                } else {
                    match flow.kind {
                        FlowKind::Deposit => moves(updated, f, flow, next, r, Stage::Finished, seq![deposited]),
                        FlowKind::Withdraw => moves(
                            updated,
                            f,
                            flow,
                            next,
                            r,
                            Stage::Finished,
                            seq![Action::EmitScspr(
                                SCSPREvent::Withdrawal { from_address: flow.caller, token_amount: flow.amount },
                            )],
                        ),
                        FlowKind::AddLpTokens { token_amount } => moves(
                            updated,
                            f,
                            flow,
                            next,
                            r,
                            Stage::LpUpdatePool,
                            seq![
                                deposited,
                                Action::CollectDeposit { amount: flow.amount },
                                Action::TransferLpTokens { amount: token_amount },
                                Action::ReadPool,
                            ],
                        ),
                    }
                }
            },
        },
        _ => fails(o, f, flow, next, r, Revert::Trap),
    }
}

/// The first step: the guards of the operation, the deposit, and the
/// start of the clean-up.
pub open spec fn start_effect(
    o: Scspr,
    f: Scspr,
    flow: Flow,
    next: Flow,
    answer: Answer,
    r: Result<Seq<Action>, Revert>,
) -> bool {
    let clean_up = seq![Action::SkimPair, Action::ReadOwnBalance];
    let collect = seq![Action::CollectDeposit { amount: flow.amount }];
    if answer != Answer::Done {
        fails(o, f, flow, next, r, Revert::Trap)
    } else {
        match flow.kind {
            FlowKind::Withdraw => moves(o, f, flow, next, r, Stage::CleanUpBalance, clean_up),
            FlowKind::Deposit => if !o.token.allow_deposit {
                fails(o, f, flow, next, r, Error::InvalidDeposit.spec_revert())
            } else {
                moves(o, f, flow, next, r, Stage::CleanUpBalance, collect + clean_up)
            },
            FlowKind::AddLpTokens { .. } => if !admits_master(o, flow.caller) {
                fails(o, f, flow, next, r, Error::InvalidAddress.spec_revert())
            } else if !o.token.allow_deposit {
                fails(o, f, flow, next, r, Error::InvalidDeposit.spec_revert())
            } else {
                moves(o, f, flow, next, r, Stage::CleanUpBalance, collect + clean_up)
            },
        }
    }
}

/// The clean-up and the trading fees: the contract burns its own synthetic
/// tokens, pays the purse's surplus over the deposit to the master, and
/// takes the fees the pool earned when its evaluation grew.
pub open spec fn upkeep_effect(
    o: Scspr,
    f: Scspr,
    flow: Flow,
    next: Flow,
    answer: Answer,
    r: Result<Seq<Action>, Revert>,
) -> bool {
    let t = o.token;
    let own = t.package_hash;
    let master = t.master_address;
    match (flow.stage, answer) {
        (Stage::CleanUpBalance, Answer::OwnBalance(b)) => moves(
            o,
            f,
            flow,
            next,
            r,
            Stage::CleanUpPurse,
            seq![Action::Burn { owner: own, amount: b }, Action::ReadPurseBalance],
        ),
        (Stage::CleanUpPurse, Answer::PurseBalance(p)) => match balance_diff_outcome(p@, clean_up_amount(flow)) {
            Err(e) => fails(o, f, flow, next, r, e),
            Ok(d) => moves(
                o,
                f,
                flow,
                next,
                r,
                Stage::FeesPool,
                seq![
                    Action::PayMaster { amount: u256_of(d) },
                    Action::EmitToken(
                        SyntheticTokenEvent::MasterProfit { amount_wcspr: u256_of(d), master_address: master },
                    ),
                    Action::ReadPool,
                ],
            ),
        },
        (Stage::FeesPool, Answer::Pool(p)) => match evaluation_outcome(
            p.wrapped_balance@,
            p.synthetic_balance@,
            p.total_supply@,
            p.lp_token_balance@,
        ) {
            Err(e) => fails(o, f, flow, next, r, e),
            Ok(v) => match fees_decision_outcome(t.current_evaluation@, v) {
                Err(e) => fails(o, f, flow, next, r, e),
                Ok(false) => moves(o, f, flow, next, r, Stage::ArbitragePool, seq![Action::ReadPool]),
                Ok(true) => match trading_fee_amount_outcome(
                    t.current_evaluation@,
                    v,
                    p.synthetic_balance@,
                    p.wrapped_balance@,
                    p.lp_token_balance@,
                    p.total_supply@,
                ) {
                    Err(e) => fails(o, f, flow, next, r, e),
                    Ok(fee) => moves(
                        o,
                        f,
                        flow,
                        next,
                        r,
                        Stage::FeesRemoved,
                        seq![Action::RemoveLiquidity { amount: u256_of(fee) }],
                    ),
                },
            },
        },
        (Stage::FeesRemoved, Answer::Removed { amount_wcspr, amount_scspr }) => moves(
            o,
            f,
            flow,
            next,
            r,
            Stage::ArbitragePool,
            seq![
                Action::EmitToken(SyntheticTokenEvent::LiquidityRemoved { amount_wcspr, amount_scspr }),
                Action::Unwrap { amount_wcspr },
                Action::PayMaster { amount: amount_wcspr },
                Action::EmitToken(SyntheticTokenEvent::MasterProfit { amount_wcspr, master_address: master }),
                Action::Burn { owner: own, amount: amount_scspr },
                Action::EmitToken(SyntheticTokenEvent::SendFeesToMaster { amount_wcspr, master_address: master }),
                Action::ReadPool,
            ],
        ),
        _ => fails(o, f, flow, next, r, Revert::Trap),
    }
}

/// The arbitrage decision on the pool's figures: nothing to do when the
/// balances are equal or within a millionth of each other; otherwise the
/// profit is removed first.
pub open spec fn arbitrage_effect(
    o: Scspr,
    f: Scspr,
    flow: Flow,
    next: Flow,
    answer: Answer,
    r: Result<Seq<Action>, Revert>,
) -> bool {
    match answer {
        Answer::Pool(p) => {
            let w = p.wrapped_balance@;
            let s = p.synthetic_balance@;
            let settle = moves(o, f, flow, next, r, settlement_stage(flow), settlement(o, flow));
            let gate = match arbitrage_decision_outcome(w, s) {
                ArbitrageDecision::Balanced => Ok(false),
                ArbitrageDecision::Cspr => arbitrage_cspr_gate(w, s),
                ArbitrageDecision::Scspr => arbitrage_scspr_gate(w, s),
            };
            let first = if arbitrage_decision_outcome(w, s) == ArbitrageDecision::Cspr {
                Stage::CsprFirstRemoved
            } else {
                Stage::ScsprFirstRemoved
            };
            match gate {
                Err(e) => fails(o, f, flow, next, r, e),
                Ok(false) => settle,
                Ok(true) => match profit_arbitrage_remove_outcome(w, s, p.lp_token_balance@, p.total_supply@) {
                    Err(e) => fails(o, f, flow, next, r, e),
                    Ok(a) => moves(o, f, flow, next, r, first, seq![Action::RemoveLiquidity { amount: u256_of(a) }]),
                },
            }
        },
        _ => fails(o, f, flow, next, r, Revert::Trap),
    }
}

/// The arbitrage when the pool holds more synthetic than wrapped CSPR: after
/// the profit, more liquidity is removed and its wrapped CSPR buys
/// synthetic tokens, which are burnt.
pub open spec fn cspr_effect(
    o: Scspr,
    f: Scspr,
    flow: Flow,
    next: Flow,
    answer: Answer,
    r: Result<Seq<Action>, Revert>,
) -> bool {
    let t = o.token;
    let own = t.package_hash;
    let master = t.master_address;
    match (flow.stage, answer) {
        (Stage::CsprFirstRemoved, Answer::Removed { amount_wcspr, amount_scspr }) => moves(
            o,
            f,
            flow,
            next,
            r,
            Stage::CsprPool,
            seq![
                Action::EmitToken(SyntheticTokenEvent::LiquidityRemoved { amount_wcspr, amount_scspr }),
                Action::Unwrap { amount_wcspr },
                Action::PayMaster { amount: amount_wcspr },
                Action::EmitToken(SyntheticTokenEvent::MasterProfit { amount_wcspr, master_address: master }),
                Action::ReadPool,
            ],
        ),
        (Stage::CsprPool, Answer::Pool(p)) => match to_remove_cspr_outcome(
            p.wrapped_balance@,
            p.synthetic_balance@,
            p.total_supply@,
            p.lp_token_balance@,
        ) {
            Err(e) => fails(o, f, flow, next, r, e),
            Ok(a) => moves(
                o,
                f,
                flow,
                next,
                r,
                Stage::CsprSecondRemoved,
                seq![Action::RemoveLiquidity { amount: u256_of(a) }],
            ),
        },
        (Stage::CsprSecondRemoved, Answer::Removed { amount_wcspr, amount_scspr }) => moves(
            o,
            f,
            flow,
            next,
            r,
            Stage::CsprSwapped { amount_wcspr },
            seq![
                Action::EmitToken(SyntheticTokenEvent::LiquidityRemoved { amount_wcspr, amount_scspr }),
                Action::ApproveWrapped { amount: limit(), owner: None },
                Action::ApproveWrapped { amount: amount_wcspr, owner: None },
                Action::Swap { amount: amount_wcspr, from: t.wcspr, to: own },
            ],
        ),
        (Stage::CsprSwapped { amount_wcspr }, Answer::Swapped(received)) => moves(
            o,
            f,
            flow,
            next,
            r,
            Stage::CsprBurn { amount_wcspr },
            seq![Action::ForwardFunds { to: own, amount: received }, Action::ReadOwnBalance],
        ),
        (Stage::CsprBurn { amount_wcspr }, Answer::OwnBalance(b)) => moves(
            o,
            f,
            flow,
            next,
            r,
            settlement_stage(flow),
            seq![
                Action::Burn { owner: own, amount: b },
                Action::EmitToken(
                    SyntheticTokenEvent::SendArbitrageProfitToMaster { amount_wcspr, master_address: master },
                ),
            ] + settlement(o, flow),
        ),
        _ => fails(o, f, flow, next, r, Revert::Trap),
    }
}

/// The arbitrage when the pool holds more wrapped than synthetic CSPR: after
/// the profit, 10^50 synthetic tokens are minted, some are sold for wrapped
/// CSPR, the proceeds go back into the pool and the rest is burnt.
pub open spec fn scspr_effect(
    o: Scspr,
    f: Scspr,
    flow: Flow,
    next: Flow,
    answer: Answer,
    r: Result<Seq<Action>, Revert>,
) -> bool {
    let t = o.token;
    let own = t.package_hash;
    let master = t.master_address;
    match (flow.stage, answer) {
        (Stage::ScsprFirstRemoved, Answer::Removed { amount_wcspr, amount_scspr }) => moves(
            o,
            f,
            flow,
            next,
            r,
            Stage::ScsprPool { amount_wcspr },
            seq![
                Action::EmitToken(SyntheticTokenEvent::LiquidityRemoved { amount_wcspr, amount_scspr }),
                Action::Unwrap { amount_wcspr },
                Action::PayMaster { amount: amount_wcspr },
                Action::EmitToken(SyntheticTokenEvent::MasterProfit { amount_wcspr, master_address: master }),
                Action::Mint { owner: own, amount: limit() },
                Action::ReadPool,
            ],
        ),
        (Stage::ScsprPool { amount_wcspr }, Answer::Pool(p)) => match swap_amount_arbitrage_scspr_outcome(
            p.synthetic_balance@,
            p.wrapped_balance@,
        ) {
            Err(e) => fails(o, f, flow, next, r, e),
            Ok(a) => moves(
                o,
                f,
                flow,
                next,
                r,
                Stage::ScsprSwapped { amount_wcspr },
                seq![
                    Action::ApproveWrapped { amount: u256_of(a), owner: Some(own) },
                    Action::Swap { amount: u256_of(a), from: own, to: t.wcspr },
                ],
            ),
        },
        (Stage::ScsprSwapped { amount_wcspr }, Answer::Swapped(received)) => moves(
            o,
            f,
            flow,
            next,
            r,
            Stage::ScsprOwnBalance { amount_wcspr, received },
            seq![Action::ForwardFunds { to: t.wcspr, amount: received }, Action::ReadOwnBalance],
        ),
        (Stage::ScsprOwnBalance { amount_wcspr, received }, Answer::OwnBalance(b)) => moves(
            o,
            f,
            flow,
            next,
            r,
            Stage::ScsprAdded { amount_wcspr },
            seq![Action::AddLiquidity { amount_wcspr: received, amount_scspr: b }],
        ),
        (Stage::ScsprAdded { amount_wcspr }, Answer::Added { amount_wcspr: a, amount_scspr, liquidity }) => moves(
            o,
            f,
            flow,
            next,
            r,
            Stage::ScsprBurn { amount_wcspr },
            seq![
                Action::EmitToken(
                    SyntheticTokenEvent::LiquidityAdded { amount_wcspr: a, amount_scspr, liquidity },
                ),
                Action::ReadOwnBalance,
            ],
        ),
        (Stage::ScsprBurn { amount_wcspr }, Answer::OwnBalance(b)) => moves(
            o,
            f,
            flow,
            next,
            r,
            settlement_stage(flow),
            seq![
                Action::Burn { owner: own, amount: b },
                Action::EmitToken(
                    SyntheticTokenEvent::SendArbitrageProfitToMaster { amount_wcspr, master_address: master },
                ),
            ] + settlement(o, flow),
        ),
        _ => fails(o, f, flow, next, r, Revert::Trap),
    }
}

/// The settlement: a withdrawal pays the wrapped CSPR it removed to the
/// withdrawer and burns the withdrawn tokens; a deposit burns what is left
/// of the minted synthetic tokens once the liquidity is added.
pub open spec fn settle_effect(
    o: Scspr,
    f: Scspr,
    flow: Flow,
    next: Flow,
    answer: Answer,
    r: Result<Seq<Action>, Revert>,
) -> bool {
    let t = o.token;
    let own = t.package_hash;
    match (flow.stage, answer) {
        (Stage::SettleRemoved, Answer::Removed { amount_wcspr, amount_scspr }) => if amount_wcspr@
            > usize::MAX {
            fails(o, f, flow, next, r, Revert::Trap)
        } else {
            moves(
                o,
                f,
                flow,
                next,
                r,
                Stage::UpdatePool,
                seq![
                    Action::Unwrap { amount_wcspr },
                    Action::PaySuccessor { amount: amount_wcspr },
                    Action::Burn { owner: flow.caller, amount: flow.amount },
                    Action::Burn { owner: t.contract_hash, amount: amount_scspr },
                    Action::ReadPool,
                ],
            )
        },
        (Stage::SettleAdded, Answer::Added { amount_wcspr, amount_scspr, liquidity }) => moves(
            o,
            f,
            flow,
            next,
            r,
            Stage::SettleBurn,
            seq![
                Action::EmitToken(SyntheticTokenEvent::LiquidityAdded { amount_wcspr, amount_scspr, liquidity }),
                Action::ReadOwnBalance,
            ],
        ),
        (Stage::SettleBurn, Answer::OwnBalance(b)) => moves(
            o,
            f,
            flow,
            next,
            r,
            Stage::UpdatePool,
            seq![Action::Burn { owner: own, amount: b }, Action::ReadPool],
        ),
        _ => fails(o, f, flow, next, r, Revert::Trap),
    }
}

/// What one step does: `o` and `flow` before, `f` and `next` after, the
/// host's `answer` in, the actions (or the refusal) `r` out. An answer of
/// another kind than the stage awaits is refused with `Revert::Trap`, as
/// the contract traps on a call result it cannot read; a finished run
/// stays finished and asks for nothing.
pub open spec fn step_effect(
    o: Scspr,
    f: Scspr,
    flow: Flow,
    next: Flow,
    answer: Answer,
    r: Result<Seq<Action>, Revert>,
) -> bool {
    match flow.stage {
        Stage::Start => start_effect(o, f, flow, next, answer, r),
        Stage::CleanUpBalance | Stage::CleanUpPurse | Stage::FeesPool | Stage::FeesRemoved => upkeep_effect(
            o,
            f,
            flow,
            next,
            answer,
            r,
        ),
        Stage::ArbitragePool => arbitrage_effect(o, f, flow, next, answer, r),
        Stage::CsprFirstRemoved | Stage::CsprPool | Stage::CsprSecondRemoved | Stage::CsprSwapped { .. }
        | Stage::CsprBurn { .. } => cspr_effect(o, f, flow, next, answer, r),
        Stage::ScsprFirstRemoved | Stage::ScsprPool { .. } | Stage::ScsprSwapped { .. }
        | Stage::ScsprOwnBalance { .. } | Stage::ScsprAdded { .. } | Stage::ScsprBurn { .. } => scspr_effect(
            o,
            f,
            flow,
            next,
            answer,
            r,
        ),
        Stage::SettleRemoved | Stage::SettleAdded | Stage::SettleBurn => settle_effect(
            o,
            f,
            flow,
            next,
            answer,
            r,
        ),
        Stage::UpdatePool | Stage::LpUpdatePool => update_effect(o, f, flow, next, answer, r),
        Stage::Finished => f == o && next == flow && r == Ok::<Seq<Action>, Revert>(Seq::empty()),
    }
}

/// The flow after a step that moves on (or not) as `r` says.
pub open spec fn moved(flow: Flow, r: Result<(Stage, Vec<Action>), Revert>) -> Flow {
    match r {
        Ok((stage, _)) => Flow { stage, ..flow },
        Err(_) => flow,
    }
}

/// The actions (or the refusal) of a step that moves on as `r` says.
pub open spec fn moved_actions(r: Result<(Stage, Vec<Action>), Revert>) -> Result<Seq<Action>, Revert> {
    match r {
        Ok((_, actions)) => Ok(actions@),
        Err(e) => Err(e),
    }
}

impl Flow {
    /// A deposit of `amount` motes by `caller`, about to start.
    pub fn deposit(caller: Address, amount: U256) -> (r: Flow)
        ensures
            r == (Flow { kind: FlowKind::Deposit, caller, amount, stage: Stage::Start }),
    {
        Flow { kind: FlowKind::Deposit, caller, amount, stage: Stage::Start }
    }

    /// A withdrawal of `amount` synthetic tokens by `caller`, about to start.
    pub fn withdraw(caller: Address, amount: U256) -> (r: Flow)
        ensures
            r == (Flow { kind: FlowKind::Withdraw, caller, amount, stage: Stage::Start }),
    {
        Flow { kind: FlowKind::Withdraw, caller, amount, stage: Stage::Start }
    }

    /// The master's deposit of `amount` motes with `token_amount` liquidity
    /// tokens, about to start.
    pub fn add_lp_tokens(caller: Address, amount: U256, token_amount: U256) -> (r: Flow)
        ensures
            r == (Flow { kind: FlowKind::AddLpTokens { token_amount }, caller, amount, stage: Stage::Start }),
    {
        Flow { kind: FlowKind::AddLpTokens { token_amount }, caller, amount, stage: Stage::Start }
    }

    /// Whether the run is over.
    pub fn is_finished(&self) -> (r: bool)
        ensures
            r == (self.stage == Stage::Finished),
    {
        match self.stage {
            Stage::Finished => true,
            _ => false,
        }
    }
}

/// 10^50 as a `U256`; see `limit`.
fn limit_value() -> (r: U256)
    ensures
        r == limit(),
{
    let r = limit_amount();
    proof {
        lemma_u256_of_view(r);
    }
    r
}

impl Scspr {
    /// How `flow` settles; see `settlement`.
    fn settle_start(&self, flow: Flow) -> (r: (Stage, Vec<Action>))
        ensures
            r.0 == settlement_stage(flow),
            r.1@ == settlement(*self, flow),
    {
        let mut actions: Vec<Action> = Vec::new();
        match flow.kind {
            FlowKind::Withdraw => {
                actions.push(Action::RemoveLiquidity { amount: flow.amount });
                proof {
                    assert(actions@ =~= settlement(*self, flow));
                }
                (Stage::SettleRemoved, actions)
            },
            _ => {
                let l = limit_value();
                actions.push(Action::Mint { owner: flow.caller, amount: flow.amount });
                actions.push(Action::Mint { owner: self.token.contract_hash, amount: l });
                actions.push(Action::WrapDeposit { amount: flow.amount });
                actions.push(Action::AddLiquidity { amount_wcspr: flow.amount, amount_scspr: l });
                proof {
                    assert(actions@ =~= settlement(*self, flow));
                }
                (Stage::SettleAdded, actions)
            },
        }
    }

    /// The first step of a run; see `start_effect`.
    fn start_step(&self, flow: Flow, answer: Answer) -> (r: Result<(Stage, Vec<Action>), Revert>)
        requires
            flow.stage == Stage::Start,
        ensures
            step_effect(*self, *self, flow, moved(flow, r), answer, moved_actions(r)),
    {
        match answer {
            Answer::Done => {},
            _ => {
                return Err(Revert::Trap);
            },
        }
        let mut actions: Vec<Action> = Vec::new();
        match flow.kind {
            FlowKind::Withdraw => {},
            FlowKind::Deposit => {
                self.check_deposit()?;
                actions.push(Action::CollectDeposit { amount: flow.amount });
            },
            FlowKind::AddLpTokens { .. } => {
                self.check_add_lp_tokens(flow.caller)?;
                actions.push(Action::CollectDeposit { amount: flow.amount });
            },
        }
        actions.push(Action::SkimPair);
        actions.push(Action::ReadOwnBalance);
        proof {
            let clean_up = seq![Action::SkimPair, Action::ReadOwnBalance];
            let collect = seq![Action::CollectDeposit { amount: flow.amount }];
            match flow.kind {
                FlowKind::Withdraw => assert(actions@ =~= clean_up),
                _ => assert(actions@ =~= collect + clean_up),
            }
        }
        Ok((Stage::CleanUpBalance, actions))
    }

    /// The clean-up and the trading fees; see `upkeep_effect`.
    fn upkeep_step(&self, flow: Flow, answer: Answer) -> (r: Result<(Stage, Vec<Action>), Revert>)
        requires
            flow.stage == Stage::CleanUpBalance || flow.stage == Stage::CleanUpPurse || flow.stage
                == Stage::FeesPool || flow.stage == Stage::FeesRemoved,
        ensures
            step_effect(*self, *self, flow, moved(flow, r), answer, moved_actions(r)),
    {
        let own = self.token.package_hash;
        let master = self.token.master_address;
        match (flow.stage, answer) {
            (Stage::CleanUpBalance, Answer::OwnBalance(b)) => {
                let actions = vec![Action::Burn { owner: own, amount: b }, Action::ReadPurseBalance];
                Ok((Stage::CleanUpPurse, actions))
            },
            (Stage::CleanUpPurse, Answer::PurseBalance(p)) => {
                let base = match flow.kind {
                    FlowKind::Withdraw => U256::zero(),
                    _ => flow.amount,
                };
                let d = _get_balance_diff(p, base)?;
                proof {
                    lemma_u256_of_view(d);
                }
                let actions = vec![
                    Action::PayMaster { amount: d },
                    Action::EmitToken(SyntheticTokenEvent::MasterProfit { amount_wcspr: d, master_address: master }),
                    Action::ReadPool,
                ];
                Ok((Stage::FeesPool, actions))
            },
            (Stage::FeesPool, Answer::Pool(p)) => {
                let v = _get_evaluation(
                    p.wrapped_balance,
                    p.synthetic_balance,
                    p.total_supply,
                    p.lp_token_balance,
                )?;
                let take = self.token._fees_decision(v)?;
                if !take {
                    return Ok((Stage::ArbitragePool, vec![Action::ReadPool]));
                }
                let fee = _get_trading_fee_amount(
                    self.token.current_evaluation,
                    v,
                    p.synthetic_balance,
                    p.wrapped_balance,
                    p.lp_token_balance,
                    p.total_supply,
                )?;
                proof {
                    lemma_u256_of_view(fee);
                }
                Ok((Stage::FeesRemoved, vec![Action::RemoveLiquidity { amount: fee }]))
            },
            (Stage::FeesRemoved, Answer::Removed { amount_wcspr, amount_scspr }) => {
                let actions = vec![
                    Action::EmitToken(SyntheticTokenEvent::LiquidityRemoved { amount_wcspr, amount_scspr }),
                    Action::Unwrap { amount_wcspr },
                    Action::PayMaster { amount: amount_wcspr },
                    Action::EmitToken(SyntheticTokenEvent::MasterProfit { amount_wcspr, master_address: master }),
                    Action::Burn { owner: own, amount: amount_scspr },
                    Action::EmitToken(SyntheticTokenEvent::SendFeesToMaster { amount_wcspr, master_address: master }),
                    Action::ReadPool,
                ];
                Ok((Stage::ArbitragePool, actions))
            },
            _ => Err(Revert::Trap),
        }
    }

    /// The arbitrage decision; see `arbitrage_effect`.
    fn arbitrage_step(&self, flow: Flow, answer: Answer) -> (r: Result<(Stage, Vec<Action>), Revert>)
        requires
            flow.stage == Stage::ArbitragePool,
        ensures
            step_effect(*self, *self, flow, moved(flow, r), answer, moved_actions(r)),
    {
        match answer {
            Answer::Pool(p) => {
                let decision = _arbitrage_decision(p.wrapped_balance, p.synthetic_balance);
                let go = match decision {
                    ArbitrageDecision::Balanced => false,
                    ArbitrageDecision::Cspr => _arbitrage_cspr_needed(p.wrapped_balance, p.synthetic_balance)?,
                    ArbitrageDecision::Scspr => _arbitrage_scspr_needed(p.wrapped_balance, p.synthetic_balance)?,
                };
                if !go {
                    return Ok(self.settle_start(flow));
                }
                let a = _profit_arbitrage_remove(
                    p.wrapped_balance,
                    p.synthetic_balance,
                    p.lp_token_balance,
                    p.total_supply,
                )?;
                proof {
                    lemma_u256_of_view(a);
                }
                let first = match decision {
                    ArbitrageDecision::Cspr => Stage::CsprFirstRemoved,
                    _ => Stage::ScsprFirstRemoved,
                };
                Ok((first, vec![Action::RemoveLiquidity { amount: a }]))
            },
            _ => Err(Revert::Trap),
        }
    }

    /// The arbitrage that buys synthetic tokens back; see `cspr_effect`.
    fn cspr_step(&self, flow: Flow, answer: Answer) -> (r: Result<(Stage, Vec<Action>), Revert>)
        requires
            flow.stage is CsprFirstRemoved || flow.stage is CsprPool || flow.stage is CsprSecondRemoved
                || flow.stage is CsprSwapped || flow.stage is CsprBurn,
        ensures
            step_effect(*self, *self, flow, moved(flow, r), answer, moved_actions(r)),
    {
        let own = self.token.package_hash;
        let master = self.token.master_address;
        match (flow.stage, answer) {
            (Stage::CsprFirstRemoved, Answer::Removed { amount_wcspr, amount_scspr }) => {
                let actions = vec![
                    Action::EmitToken(SyntheticTokenEvent::LiquidityRemoved { amount_wcspr, amount_scspr }),
                    Action::Unwrap { amount_wcspr },
                    Action::PayMaster { amount: amount_wcspr },
                    Action::EmitToken(SyntheticTokenEvent::MasterProfit { amount_wcspr, master_address: master }),
                    Action::ReadPool,
                ];
                Ok((Stage::CsprPool, actions))
            },
            (Stage::CsprPool, Answer::Pool(p)) => {
                let a = _to_remove_cspr(
                    p.wrapped_balance,
                    p.synthetic_balance,
                    p.total_supply,
                    p.lp_token_balance,
                )?;
                proof {
                    lemma_u256_of_view(a);
                }
                Ok((Stage::CsprSecondRemoved, vec![Action::RemoveLiquidity { amount: a }]))
            },
            (Stage::CsprSecondRemoved, Answer::Removed { amount_wcspr, amount_scspr }) => {
                let actions = vec![
                    Action::EmitToken(SyntheticTokenEvent::LiquidityRemoved { amount_wcspr, amount_scspr }),
                    Action::ApproveWrapped { amount: limit_value(), owner: None },
                    Action::ApproveWrapped { amount: amount_wcspr, owner: None },
                    Action::Swap { amount: amount_wcspr, from: self.token.wcspr, to: own },
                ];
                Ok((Stage::CsprSwapped { amount_wcspr }, actions))
            },
            (Stage::CsprSwapped { amount_wcspr }, Answer::Swapped(received)) => {
                let actions = vec![Action::ForwardFunds { to: own, amount: received }, Action::ReadOwnBalance];
                Ok((Stage::CsprBurn { amount_wcspr }, actions))
            },
            (Stage::CsprBurn { amount_wcspr }, Answer::OwnBalance(b)) => {
                let mut actions = vec![
                    Action::Burn { owner: own, amount: b },
                    Action::EmitToken(
                        SyntheticTokenEvent::SendArbitrageProfitToMaster { amount_wcspr, master_address: master },
                    ),
                ];
                let (stage, mut rest) = self.settle_start(flow);
                actions.append(&mut rest);
                Ok((stage, actions))
            },
            _ => Err(Revert::Trap),
        }
    }

    /// The arbitrage that sells synthetic tokens; see `scspr_effect`.
    fn scspr_step(&self, flow: Flow, answer: Answer) -> (r: Result<(Stage, Vec<Action>), Revert>)
        requires
            flow.stage is ScsprFirstRemoved || flow.stage is ScsprPool || flow.stage is ScsprSwapped
                || flow.stage is ScsprOwnBalance || flow.stage is ScsprAdded || flow.stage is ScsprBurn,
        ensures
            step_effect(*self, *self, flow, moved(flow, r), answer, moved_actions(r)),
    {
        let own = self.token.package_hash;
        let master = self.token.master_address;
        match (flow.stage, answer) {
            (Stage::ScsprFirstRemoved, Answer::Removed { amount_wcspr, amount_scspr }) => {
                let actions = vec![
                    Action::EmitToken(SyntheticTokenEvent::LiquidityRemoved { amount_wcspr, amount_scspr }),
                    Action::Unwrap { amount_wcspr },
                    Action::PayMaster { amount: amount_wcspr },
                    Action::EmitToken(SyntheticTokenEvent::MasterProfit { amount_wcspr, master_address: master }),
                    Action::Mint { owner: own, amount: limit_value() },
                    Action::ReadPool,
                ];
                Ok((Stage::ScsprPool { amount_wcspr }, actions))
            },
            (Stage::ScsprPool { amount_wcspr }, Answer::Pool(p)) => {
                let a = _swap_amount_arbitrage_scspr(p.synthetic_balance, p.wrapped_balance)?;
                proof {
                    lemma_u256_of_view(a);
                }
                let actions = vec![
                    Action::ApproveWrapped { amount: a, owner: Some(own) },
                    Action::Swap { amount: a, from: own, to: self.token.wcspr },
                ];
                Ok((Stage::ScsprSwapped { amount_wcspr }, actions))
            },
            (Stage::ScsprSwapped { amount_wcspr }, Answer::Swapped(received)) => {
                let actions = vec![
                    Action::ForwardFunds { to: self.token.wcspr, amount: received },
                    Action::ReadOwnBalance,
                ];
                Ok((Stage::ScsprOwnBalance { amount_wcspr, received }, actions))
            },
            (Stage::ScsprOwnBalance { amount_wcspr, received }, Answer::OwnBalance(b)) => {
                let actions = vec![Action::AddLiquidity { amount_wcspr: received, amount_scspr: b }];
                Ok((Stage::ScsprAdded { amount_wcspr }, actions))
            },
            (
                Stage::ScsprAdded { amount_wcspr },
                Answer::Added { amount_wcspr: added_wcspr, amount_scspr, liquidity },
            ) => {
                let actions = vec![
                    Action::EmitToken(
                        SyntheticTokenEvent::LiquidityAdded { amount_wcspr: added_wcspr, amount_scspr, liquidity },
                    ),
                    Action::ReadOwnBalance,
                ];
                Ok((Stage::ScsprBurn { amount_wcspr }, actions))
            },
            (Stage::ScsprBurn { amount_wcspr }, Answer::OwnBalance(b)) => {
                let mut actions = vec![
                    Action::Burn { owner: own, amount: b },
                    Action::EmitToken(
                        SyntheticTokenEvent::SendArbitrageProfitToMaster { amount_wcspr, master_address: master },
                    ),
                ];
                let (stage, mut rest) = self.settle_start(flow);
                actions.append(&mut rest);
                Ok((stage, actions))
            },
            _ => Err(Revert::Trap),
        }
    }

    /// The settlement; see `settle_effect`.
    fn settle_step(&self, flow: Flow, answer: Answer) -> (r: Result<(Stage, Vec<Action>), Revert>)
        requires
            flow.stage == Stage::SettleRemoved || flow.stage == Stage::SettleAdded || flow.stage
                == Stage::SettleBurn,
        ensures
            step_effect(*self, *self, flow, moved(flow, r), answer, moved_actions(r)),
    {
        match (flow.stage, answer) {
            (Stage::SettleRemoved, Answer::Removed { amount_wcspr, amount_scspr }) => {
                let paid = self._settle_cspr_amount(amount_wcspr)?;
                let actions = vec![
                    Action::Unwrap { amount_wcspr },
                    Action::PaySuccessor { amount: paid },
                    Action::Burn { owner: flow.caller, amount: flow.amount },
                    Action::Burn { owner: self.token.contract_hash, amount: amount_scspr },
                    Action::ReadPool,
                ];
                Ok((Stage::UpdatePool, actions))
            },
            (Stage::SettleAdded, Answer::Added { amount_wcspr, amount_scspr, liquidity }) => {
                let actions = vec![
                    Action::EmitToken(SyntheticTokenEvent::LiquidityAdded { amount_wcspr, amount_scspr, liquidity }),
                    Action::ReadOwnBalance,
                ];
                Ok((Stage::SettleBurn, actions))
            },
            (Stage::SettleBurn, Answer::OwnBalance(b)) => {
                let actions = vec![
                    Action::Burn { owner: self.token.package_hash, amount: b },
                    Action::ReadPool,
                ];
                Ok((Stage::UpdatePool, actions))
            },
            _ => Err(Revert::Trap),
        }
    }

    /// The last pool reading of a run: the evaluation is recorded; see
    /// `update_effect`.
    fn update_step(&mut self, flow: &mut Flow, answer: Answer) -> (r: Result<Vec<Action>, Revert>)
        requires
            old(flow).stage == Stage::UpdatePool || old(flow).stage == Stage::LpUpdatePool,
        ensures
            step_effect(*old(self), *final(self), *old(flow), *final(flow), answer, actions_of(r)),
    {
        match answer {
            Answer::Pool(p) => {
                let v = _get_evaluation(
                    p.wrapped_balance,
                    p.synthetic_balance,
                    p.total_supply,
                    p.lp_token_balance,
                )?;
                proof {
                    lemma_u256_of_view(v);
                }
                self.token._update_evaluation(v);
                let deposited = Action::EmitScspr(
                    SCSPREvent::DepositedLiquidity { deposit_amount: flow.amount, transformer_address: flow.caller },
                );
                if flow.stage == Stage::LpUpdatePool {
                    flow.stage = Stage::Finished;
                    return Ok(Vec::new());
                }
                match flow.kind {
                    FlowKind::Deposit => {
                        flow.stage = Stage::Finished;
                        Ok(vec![deposited])
                    },
                    FlowKind::Withdraw => {
                        flow.stage = Stage::Finished;
                        Ok(
                            vec![Action::EmitScspr(
                                SCSPREvent::Withdrawal { from_address: flow.caller, token_amount: flow.amount },
                            )],
                        )
                    },
                    FlowKind::AddLpTokens { token_amount } => {
                        let actions = vec![
                            deposited,
                            Action::CollectDeposit { amount: flow.amount },
                            Action::TransferLpTokens { amount: token_amount },
                            Action::ReadPool,
                        ];
                        flow.stage = Stage::LpUpdatePool;
                        Ok(actions)
                    },
                }
            },
            _ => Err(Revert::Trap),
        }
    }

    /// One step of a run: takes the host's `answer` to the previous
    /// actions, decides, and returns the next actions; see `step_effect`.
    /// Each step moves the run to a later stage, so that a run finishes
    /// after at most `stage_rank(Stage::Finished)` steps.
    pub fn step(&mut self, flow: &mut Flow, answer: Answer) -> (r: Result<Vec<Action>, Revert>)
        ensures
            step_effect(*old(self), *final(self), *old(flow), *final(flow), answer, actions_of(r)),
            old(flow).stage != Stage::Finished && r is Ok ==> stage_rank(old(flow).stage) < stage_rank(
                final(flow).stage,
            ),
    {
        let current = *flow;
        let moved = match current.stage {
            Stage::Finished => {
                return Ok(Vec::new());
            },
            Stage::UpdatePool | Stage::LpUpdatePool => {
                return self.update_step(flow, answer);
            },
            Stage::Start => self.start_step(current, answer),
            Stage::CleanUpBalance | Stage::CleanUpPurse | Stage::FeesPool | Stage::FeesRemoved => self.upkeep_step(
                current,
                answer,
            ),
            Stage::ArbitragePool => self.arbitrage_step(current, answer),
            Stage::CsprFirstRemoved | Stage::CsprPool | Stage::CsprSecondRemoved | Stage::CsprSwapped { .. }
            | Stage::CsprBurn { .. } => self.cspr_step(current, answer),
            Stage::ScsprFirstRemoved | Stage::ScsprPool { .. } | Stage::ScsprSwapped { .. }
            | Stage::ScsprOwnBalance { .. } | Stage::ScsprAdded { .. } | Stage::ScsprBurn { .. } => self.scspr_step(
                current,
                answer,
            ),
            Stage::SettleRemoved | Stage::SettleAdded | Stage::SettleBurn => self.settle_step(current, answer),
        };
        let (stage, actions) = moved?;
        flow.stage = stage;
        Ok(actions)
    }
}

} // verus!
