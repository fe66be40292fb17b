//! Properties of the synthetic CSPR contract that span several operations.
use vstd::prelude::*;
use crate::address::{Address, spec_zero_address};
use crate::revert::Revert;
use crate::synthetic_token::data::SyntheticToken;
use crate::u256::U256;
use super::data::Scspr;
use super::errors::Error;
use super::{
    admits_master, define_helper_effect, define_token_effect, form_liquidity_effect,
    master_only_effect,
};
use super::flow::{
    Action, Answer, Flow, FlowKind, PoolFigures, Stage, balance_change, change_upto, is_run,
    run_change, settlement, settlement_stage, stage_rank, step_effect,
};
use crate::synthetic_token::{evaluation_outcome, fees_decision_outcome};
use crate::synthetic_helper::data::EQUALIZE_SIZE_VALUE;
use crate::synthetic_helper::data::TRADING_FEE_CONDITION;

verus! {

/// The first liquidity is formed once: a second attempt is refused.
pub proof fn law_form_liquidity_once(
    s0: Scspr,
    s1: Scspr,
    s2: Scspr,
    caller1: Address,
    caller2: Address,
    transformer: Address,
    balance1: U256,
    balance2: U256,
    r1: Result<U256, Revert>,
    r2: Result<U256, Revert>,
)
    requires
        form_liquidity_effect(s0, s1, caller1, transformer, balance1, r1),
        r1 is Ok,
        form_liquidity_effect(s1, s2, caller2, transformer, balance2, r2),
    ensures
        r2 is Err,
        s2 == s1,
{
}

/// Forming the liquidity ends the transformer's liquidity deposits and
/// opens deposits to everyone.
pub proof fn law_form_liquidity_opens_deposits(
    s0: Scspr,
    s1: Scspr,
    caller: Address,
    transformer: Address,
    balance: U256,
    r: Result<U256, Revert>,
)
    requires
        form_liquidity_effect(s0, s1, caller, transformer, balance, r),
        r is Ok,
    ensures
        !s0.token.allow_deposit,
        s1.token.allow_deposit,
{
}

/// The WISE token is defined once: a second definition is refused.
pub proof fn law_define_token_once(
    s0: Scspr,
    s1: Scspr,
    s2: Scspr,
    caller1: Address,
    caller2: Address,
    a1: Address,
    a2: Address,
    r1: Result<Address, Revert>,
    r2: Result<Address, Revert>,
)
    requires
        define_token_effect(s0, s1, caller1, a1, r1),
        r1 is Ok,
        define_token_effect(s1, s2, caller2, a2, r2),
    ensures
        r2 is Err,
        s2 == s1,
{
}

/// The transfer helper is defined once: a second definition is refused.
pub proof fn law_define_helper_once(
    s0: Scspr,
    s1: Scspr,
    s2: Scspr,
    caller1: Address,
    caller2: Address,
    helper1: Address,
    helper2: Address,
    a1: Address,
    a2: Address,
    r1: Result<Address, Revert>,
    r2: Result<Address, Revert>,
)
    requires
        define_helper_effect(s0, s1, caller1, helper1, a1, r1),
        r1 is Ok,
        define_helper_effect(s1, s2, caller2, helper2, a2, r2),
    ensures
        r2 is Err,
        s2 == s1,
        s1.token.transfer_helper == helper1,
{
}

/// After the master hands the role on, the new master passes the master
/// check, and the old one passes it only if it is the new master or the
/// new master is the zero address.
pub proof fn law_forward_ownership(
    s0: Scspr,
    s1: Scspr,
    master: Address,
    new_master: Address,
    other: Address,
    r: Result<(), Revert>,
)
    requires
        master_only_effect(
            s0,
            s1,
            master,
            Scspr { token: SyntheticToken { master_address: new_master, ..s0.token }, ..s0 },
            r,
        ),
        r is Ok,
    ensures
        admits_master(s1, new_master),
        admits_master(s1, other) <==> (other == new_master || new_master == spec_zero_address()),
{
}

/// Once the master role is renounced, the master check admits every
/// caller.
pub proof fn law_renounced_ownership_admits_everyone(
    s0: Scspr,
    s1: Scspr,
    master: Address,
    anyone: Address,
    r: Result<(), Revert>,
)
    requires
        master_only_effect(
            s0,
            s1,
            master,
            Scspr { token: SyntheticToken { master_address: spec_zero_address(), ..s0.token }, ..s0 },
            r,
        ),
        r is Ok,
    ensures
        admits_master(s1, anyone),
{
}

/// A caller that the master check refuses changes nothing with a
/// master-only operation.
pub proof fn law_master_only_refusal(s0: Scspr, s1: Scspr, caller: Address, after: Scspr, r: Result<(), Revert>)
    requires
        master_only_effect(s0, s1, caller, after, r),
        !admits_master(s0, caller),
    ensures
        r == Err::<(), Revert>(Error::InvalidAddress.spec_revert()),
        s1 == s0,
{
}

/// A step of a deposit or withdrawal changes nothing of the contract but
/// the recorded evaluation of the pool; a refused step changes nothing.
pub proof fn law_step_changes_only_evaluation(
    o: Scspr,
    f: Scspr,
    flow: Flow,
    next: Flow,
    answer: Answer,
    r: Result<Seq<Action>, Revert>,
)
    requires
        step_effect(o, f, flow, next, answer, r),
    ensures
        f == (Scspr { token: SyntheticToken { current_evaluation: f.token.current_evaluation, ..o.token }, ..o }),
        r is Err ==> f == o && next == flow,
        next.kind == flow.kind && next.caller == flow.caller && next.amount == flow.amount,
{
}

/// A deposit (or the master's deposit with liquidity tokens) is refused
/// while deposits are not allowed, and nothing changes.
pub proof fn law_deposit_refused_while_disabled(
    o: Scspr,
    f: Scspr,
    flow: Flow,
    next: Flow,
    r: Result<Seq<Action>, Revert>,
)
    requires
        step_effect(o, f, flow, next, Answer::Done, r),
        flow.stage == Stage::Start,
        flow.kind == FlowKind::Deposit,
        !o.token.allow_deposit,
    ensures
        r == Err::<Seq<Action>, Revert>(Error::InvalidDeposit.spec_revert()),
        f == o,
        next == flow,
{
}

/// A pool whose wrapped and synthetic balances are equal calls for no
/// arbitrage: the run goes straight to its settlement.
pub proof fn law_balanced_pool_settles_directly(
    o: Scspr,
    f: Scspr,
    flow: Flow,
    next: Flow,
    p: PoolFigures,
    r: Result<Seq<Action>, Revert>,
)
    requires
        step_effect(o, f, flow, next, Answer::Pool(p), r),
        flow.stage == Stage::ArbitragePool,
        p.wrapped_balance@ == p.synthetic_balance@,
    ensures
        r matches Ok(actions) && actions == settlement(o, flow),
        next.stage == settlement_stage(flow),
        f == o,
{
    let actions = r->Ok_0;
    assert(actions == settlement(o, flow));
}

/// Trading fees are taken only when the pool's evaluation grew by more
/// than 10^-8 of the evaluation recorded last.
pub proof fn law_fees_only_when_evaluation_grew(
    o: Scspr,
    f: Scspr,
    flow: Flow,
    next: Flow,
    p: PoolFigures,
    r: Result<Seq<Action>, Revert>,
)
    requires
        step_effect(o, f, flow, next, Answer::Pool(p), r),
        flow.stage == Stage::FeesPool,
        next.stage == Stage::FeesRemoved,
    ensures
        evaluation_outcome(
            p.wrapped_balance@,
            p.synthetic_balance@,
            p.total_supply@,
            p.lp_token_balance@,
        ) matches Ok(v) && fees_decision_outcome(o.token.current_evaluation@, v) == Ok::<bool, Revert>(true)
            && v * (EQUALIZE_SIZE_VALUE as nat) > o.token.current_evaluation@ * (TRADING_FEE_CONDITION as nat),
{
}

/// A withdrawal pays the withdrawer exactly the wrapped CSPR that removing
/// the withdrawn liquidity returned, and burns exactly the withdrawn
/// synthetic tokens from the withdrawer.
pub proof fn law_withdrawal_pays_what_it_removed(
    o: Scspr,
    f: Scspr,
    flow: Flow,
    next: Flow,
    amount_wcspr: U256,
    amount_scspr: U256,
    r: Result<Seq<Action>, Revert>,
)
    requires
        step_effect(o, f, flow, next, Answer::Removed { amount_wcspr, amount_scspr }, r),
        flow.stage == Stage::SettleRemoved,
        r is Ok,
    ensures
        r->Ok_0.contains(Action::PaySuccessor { amount: amount_wcspr }),
        r->Ok_0.contains(Action::Burn { owner: flow.caller, amount: flow.amount }),
        forall|i: int| 0 <= i < r->Ok_0.len() ==> !(#[trigger] r->Ok_0[i] is PayMaster),
{
    let actions = r->Ok_0;
    assert(actions[1] == Action::PaySuccessor { amount: amount_wcspr });
    assert(actions[2] == Action::Burn { owner: flow.caller, amount: flow.amount });
}

/// A deposit mints exactly the deposited amount of synthetic tokens to the
/// depositor: the step with which it enters its settlement hands out that
/// mint.
pub proof fn law_deposit_mints_the_deposit(
    o: Scspr,
    f: Scspr,
    flow: Flow,
    next: Flow,
    answer: Answer,
    r: Result<Seq<Action>, Revert>,
)
    requires
        step_effect(o, f, flow, next, answer, r),
        flow.kind == FlowKind::Deposit,
        flow.stage != Stage::SettleAdded,
        next.stage == Stage::SettleAdded,
    ensures
        r matches Ok(actions) && actions.contains(Action::Mint { owner: flow.caller, amount: flow.amount }),
{
    let actions = r->Ok_0;
    let mint = Action::Mint { owner: flow.caller, amount: flow.amount };
    if flow.stage == Stage::ArbitragePool {
        assert(actions[0] == mint);
    } else {
        assert(actions[2] == mint);
    }
}

/// A run ends by recording the evaluation of the pool as last read.
pub proof fn law_run_ends_with_evaluation(
    o: Scspr,
    f: Scspr,
    flow: Flow,
    next: Flow,
    p: PoolFigures,
    r: Result<Seq<Action>, Revert>,
)
    requires
        step_effect(o, f, flow, next, Answer::Pool(p), r),
        flow.stage == Stage::UpdatePool || flow.stage == Stage::LpUpdatePool,
        r is Ok,
    ensures
        evaluation_outcome(
            p.wrapped_balance@,
            p.synthetic_balance@,
            p.total_supply@,
            p.lp_token_balance@,
        ) == Ok::<nat, Revert>(f.token.current_evaluation@),
        next.stage == Stage::Finished || next.stage == Stage::LpUpdatePool,
{
}

/// What a run of `flow` has done to its caller's synthetic-token balance
/// once it has reached its stage: a deposit mints the deposit when it
/// enters its settlement; a withdrawal burns the withdrawn tokens when it
/// settles.
pub open spec fn settled_change(flow: Flow) -> int {
    match flow.kind {
        FlowKind::Withdraw => if stage_rank(flow.stage) >= 14 {
            -(flow.amount@ as int)
        } else {
            0
        },
        _ => if stage_rank(flow.stage) >= 12 {
            flow.amount@ as int
        } else {
            0
        },
    }
}

proof fn lemma_start_step_change(
    o: Scspr,
    f: Scspr,
    flow: Flow,
    next: Flow,
    answer: Answer,
    actions: Seq<Action>,
)
    requires
        step_effect(o, f, flow, next, answer, Ok::<Seq<Action>, Revert>(actions)),
        flow.stage == Stage::Start,
        flow.caller != o.token.package_hash,
        flow.caller != o.token.contract_hash,
        settles_by_kind(flow),
    ensures
        balance_change(actions, flow.caller) == settled_change(next) - settled_change(flow),
        settles_by_kind(next),
{
    reveal_with_fuel(change_upto, 10);
}

proof fn lemma_upkeep_step_change(
    o: Scspr,
    f: Scspr,
    flow: Flow,
    next: Flow,
    answer: Answer,
    actions: Seq<Action>,
)
    requires
        step_effect(o, f, flow, next, answer, Ok::<Seq<Action>, Revert>(actions)),
        flow.stage == Stage::CleanUpBalance || flow.stage == Stage::CleanUpPurse || flow.stage == Stage::FeesPool || flow.stage == Stage::FeesRemoved,
        flow.caller != o.token.package_hash,
        flow.caller != o.token.contract_hash,
        settles_by_kind(flow),
    ensures
        balance_change(actions, flow.caller) == settled_change(next) - settled_change(flow),
        settles_by_kind(next),
{
    reveal_with_fuel(change_upto, 10);
}

proof fn lemma_arbitrage_step_change(
    o: Scspr,
    f: Scspr,
    flow: Flow,
    next: Flow,
    answer: Answer,
    actions: Seq<Action>,
)
    requires
        step_effect(o, f, flow, next, answer, Ok::<Seq<Action>, Revert>(actions)),
        flow.stage == Stage::ArbitragePool,
        flow.caller != o.token.package_hash,
        flow.caller != o.token.contract_hash,
        settles_by_kind(flow),
    ensures
        balance_change(actions, flow.caller) == settled_change(next) - settled_change(flow),
        settles_by_kind(next),
{
    reveal_with_fuel(change_upto, 10);
}

proof fn lemma_cspr_step_change(
    o: Scspr,
    f: Scspr,
    flow: Flow,
    next: Flow,
    answer: Answer,
    actions: Seq<Action>,
)
    requires
        step_effect(o, f, flow, next, answer, Ok::<Seq<Action>, Revert>(actions)),
        flow.stage is CsprFirstRemoved || flow.stage is CsprPool || flow.stage is CsprSecondRemoved || flow.stage is CsprSwapped || flow.stage is CsprBurn,
        flow.caller != o.token.package_hash,
        flow.caller != o.token.contract_hash,
        settles_by_kind(flow),
    ensures
        balance_change(actions, flow.caller) == settled_change(next) - settled_change(flow),
        settles_by_kind(next),
{
    reveal_with_fuel(change_upto, 10);
}

proof fn lemma_scspr_step_change(
    o: Scspr,
    f: Scspr,
    flow: Flow,
    next: Flow,
    answer: Answer,
    actions: Seq<Action>,
)
    requires
        step_effect(o, f, flow, next, answer, Ok::<Seq<Action>, Revert>(actions)),
        flow.stage is ScsprFirstRemoved || flow.stage is ScsprPool || flow.stage is ScsprSwapped || flow.stage is ScsprOwnBalance || flow.stage is ScsprAdded || flow.stage is ScsprBurn,
        flow.caller != o.token.package_hash,
        flow.caller != o.token.contract_hash,
        settles_by_kind(flow),
    ensures
        balance_change(actions, flow.caller) == settled_change(next) - settled_change(flow),
        settles_by_kind(next),
{
    reveal_with_fuel(change_upto, 10);
}

proof fn lemma_settle_step_change(
    o: Scspr,
    f: Scspr,
    flow: Flow,
    next: Flow,
    answer: Answer,
    actions: Seq<Action>,
)
    requires
        step_effect(o, f, flow, next, answer, Ok::<Seq<Action>, Revert>(actions)),
        flow.stage == Stage::SettleRemoved || flow.stage == Stage::SettleAdded || flow.stage == Stage::SettleBurn,
        flow.caller != o.token.package_hash,
        flow.caller != o.token.contract_hash,
        settles_by_kind(flow),
    ensures
        balance_change(actions, flow.caller) == settled_change(next) - settled_change(flow),
        settles_by_kind(next),
{
    reveal_with_fuel(change_upto, 10);
}

proof fn lemma_update_step_change(
    o: Scspr,
    f: Scspr,
    flow: Flow,
    next: Flow,
    answer: Answer,
    actions: Seq<Action>,
)
    requires
        step_effect(o, f, flow, next, answer, Ok::<Seq<Action>, Revert>(actions)),
        flow.stage == Stage::UpdatePool || flow.stage == Stage::LpUpdatePool || flow.stage == Stage::Finished,
        flow.caller != o.token.package_hash,
        flow.caller != o.token.contract_hash,
        settles_by_kind(flow),
    ensures
        balance_change(actions, flow.caller) == settled_change(next) - settled_change(flow),
        settles_by_kind(next),
{
    reveal_with_fuel(change_upto, 10);
}

/// One step changes the caller's balance by what its stages say.
pub proof fn lemma_step_change(
    o: Scspr,
    f: Scspr,
    flow: Flow,
    next: Flow,
    answer: Answer,
    actions: Seq<Action>,
)
    requires
        step_effect(o, f, flow, next, answer, Ok::<Seq<Action>, Revert>(actions)),
        flow.caller != o.token.package_hash,
        flow.caller != o.token.contract_hash,
        settles_by_kind(flow),
    ensures
        balance_change(actions, flow.caller) == settled_change(next) - settled_change(flow),
        settles_by_kind(next),
{
    match flow.stage {
        Stage::Start => lemma_start_step_change(o, f, flow, next, answer, actions),
        Stage::CleanUpBalance | Stage::CleanUpPurse | Stage::FeesPool | Stage::FeesRemoved => lemma_upkeep_step_change(
            o,
            f,
            flow,
            next,
            answer,
            actions,
        ),
        Stage::ArbitragePool => lemma_arbitrage_step_change(o, f, flow, next, answer, actions),
        Stage::CsprFirstRemoved | Stage::CsprPool | Stage::CsprSecondRemoved | Stage::CsprSwapped { .. }
        | Stage::CsprBurn { .. } => lemma_cspr_step_change(o, f, flow, next, answer, actions),
        Stage::ScsprFirstRemoved | Stage::ScsprPool { .. } | Stage::ScsprSwapped { .. }
        | Stage::ScsprOwnBalance { .. } | Stage::ScsprAdded { .. } | Stage::ScsprBurn { .. } => lemma_scspr_step_change(
            o,
            f,
            flow,
            next,
            answer,
            actions,
        ),
        Stage::SettleRemoved | Stage::SettleAdded | Stage::SettleBurn => lemma_settle_step_change(
            o,
            f,
            flow,
            next,
            answer,
            actions,
        ),
        Stage::UpdatePool | Stage::LpUpdatePool | Stage::Finished => lemma_update_step_change(
            o,
            f,
            flow,
            next,
            answer,
            actions,
        ),
    }
}

/// A run settles as its kind says: only a withdrawal by removing
/// liquidity, only a deposit by adding it.
pub open spec fn settles_by_kind(flow: Flow) -> bool {
    &&& flow.stage == Stage::SettleRemoved ==> flow.kind == FlowKind::Withdraw
    &&& (flow.stage == Stage::SettleAdded || flow.stage == Stage::SettleBurn) ==> flow.kind != FlowKind::Withdraw
}

/// Along a run, the caller's balance changes by what the stage reached says.
pub proof fn lemma_run_change(
    states: Seq<Scspr>,
    flows: Seq<Flow>,
    answers: Seq<Answer>,
    actions: Seq<Seq<Action>>,
    k: int,
)
    requires
        is_run(states, flows, answers, actions),
        0 <= k <= answers.len(),
        settles_by_kind(flows[0]),
        flows[0].caller != states[0].token.package_hash,
        flows[0].caller != states[0].token.contract_hash,
    ensures
        run_change(actions.subrange(0, k), flows[0].caller) == settled_change(flows[k]) - settled_change(
            flows[0],
        ),
        flows[k].caller == flows[0].caller,
        flows[k].kind == flows[0].kind,
        flows[k].amount == flows[0].amount,
        states[k].token.package_hash == states[0].token.package_hash,
        states[k].token.contract_hash == states[0].token.contract_hash,
        settles_by_kind(flows[k]),
    decreases k,
{
    if k == 0 {
        assert(actions.subrange(0, 0) =~= Seq::<Seq<Action>>::empty());
    } else {
        lemma_run_change(states, flows, answers, actions, k - 1);
        let i = k - 1;
        assert(step_effect(
            states[i],
            states[i + 1],
            flows[i],
            flows[i + 1],
            answers[i],
            Ok::<Seq<Action>, Revert>(actions[i]),
        ));
        law_step_changes_only_evaluation(
            states[i],
            states[i + 1],
            flows[i],
            flows[i + 1],
            answers[i],
            Ok::<Seq<Action>, Revert>(actions[i]),
        );
        lemma_step_change(states[i], states[i + 1], flows[i], flows[i + 1], answers[i], actions[i]);
        assert(actions.subrange(0, k).drop_last() =~= actions.subrange(0, i));
    }
}

/// A deposit or withdrawal, run from its start to its end, changes the
/// caller's synthetic-token balance by exactly its amount: a deposit adds
/// it, a withdrawal takes it away.
pub proof fn law_run_changes_balance_by_amount(
    states: Seq<Scspr>,
    flows: Seq<Flow>,
    answers: Seq<Answer>,
    actions: Seq<Seq<Action>>,
)
    requires
        is_run(states, flows, answers, actions),
        flows[0].stage == Stage::Start,
        flows.last().stage == Stage::Finished,
        flows[0].caller != states[0].token.package_hash,
        flows[0].caller != states[0].token.contract_hash,
    ensures
        run_change(actions, flows[0].caller) == match flows[0].kind {
            FlowKind::Withdraw => -(flows[0].amount@ as int),
            _ => flows[0].amount@ as int,
        },
{
    let n = answers.len() as int;
    lemma_run_change(states, flows, answers, actions, n);
    assert(actions.subrange(0, n) =~= actions);
}

/// A withdrawal undoes a deposit of the same amount: after a deposit of
/// `x` by a caller and then a withdrawal of `x` by the same caller, both
/// run to their end, the caller holds as many synthetic tokens as before.
pub proof fn law_withdrawal_undoes_deposit(
    deposit_states: Seq<Scspr>,
    deposit_flows: Seq<Flow>,
    deposit_answers: Seq<Answer>,
    deposit_actions: Seq<Seq<Action>>,
    withdraw_states: Seq<Scspr>,
    withdraw_flows: Seq<Flow>,
    withdraw_answers: Seq<Answer>,
    withdraw_actions: Seq<Seq<Action>>,
)
    requires
        is_run(deposit_states, deposit_flows, deposit_answers, deposit_actions),
        is_run(withdraw_states, withdraw_flows, withdraw_answers, withdraw_actions),
        deposit_flows[0].kind == FlowKind::Deposit,
        withdraw_flows[0].kind == FlowKind::Withdraw,
        deposit_flows[0].stage == Stage::Start,
        withdraw_flows[0].stage == Stage::Start,
        deposit_flows.last().stage == Stage::Finished,
        withdraw_flows.last().stage == Stage::Finished,
        withdraw_states[0] == deposit_states.last(),
        withdraw_flows[0].caller == deposit_flows[0].caller,
        withdraw_flows[0].amount == deposit_flows[0].amount,
        deposit_flows[0].caller != deposit_states[0].token.package_hash,
        deposit_flows[0].caller != deposit_states[0].token.contract_hash,
    ensures
        run_change(deposit_actions, deposit_flows[0].caller) + run_change(
            withdraw_actions,
            deposit_flows[0].caller,
        ) == 0,
{
    law_run_changes_balance_by_amount(deposit_states, deposit_flows, deposit_answers, deposit_actions);
    let n = deposit_answers.len() as int;
    lemma_run_change(deposit_states, deposit_flows, deposit_answers, deposit_actions, n);
    law_run_changes_balance_by_amount(withdraw_states, withdraw_flows, withdraw_answers, withdraw_actions);
}

} // verus!
