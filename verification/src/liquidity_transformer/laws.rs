//! Properties of the liquidity transformer that span several operations.
use vstd::prelude::*;
use crate::address::{Address, spec_zero_address};
use crate::revert::Revert;
use crate::u256::U256;
use super::data::{Globals, MAX_INVEST, MAX_SUPPLY};
use super::{
    Error, LiquidityForwarding, LiquidityTransformerEvent, LiquidityTransformer, Reservation, Settings, forward_liquidity_effect,
    payout_effect, refund_effect, renounce_keeper_effect, reservation_effect, set_settings_effect,
    token_amount_outcome,
};

verus! {

/// A reservation never takes the WISE reserved beyond `MAX_SUPPLY`, and
/// never returns more than was paid.
pub proof fn law_reservation_within_supply(total_cspr: nat, total_tokens: nat, value: nat)
    requires
        total_tokens <= MAX_SUPPLY,
        token_amount_outcome(total_cspr, total_tokens, value) is Ok,
    ensures
        total_tokens + token_amount_outcome(total_cspr, total_tokens, value)->Ok_0.0 <= MAX_SUPPLY,
        token_amount_outcome(total_cspr, total_tokens, value)->Ok_0.1 <= value,
{
}

/// Below the supply cap, a reservation buys one WISE token (10^9 units)
/// for every whole `TOKEN_COST` motes paid, and returns nothing.
pub proof fn law_reservation_price(total_cspr: nat, total_tokens: nat, value: nat)
    requires
        total_tokens + (value / 757575) * 1_000_000_000 <= MAX_SUPPLY,
    ensures
        token_amount_outcome(total_cspr, total_tokens, value) == Ok::<(nat, nat), Revert>(
            ((value / 757575) * 1_000_000_000, 0),
        ),
{
    super::data::lemma_token_cost();
}

/// A second payout to the same investor pays nothing.
pub proof fn law_second_payout_pays_nothing(
    s0: LiquidityTransformer,
    s1: LiquidityTransformer,
    s2: LiquidityTransformer,
    investor: Address,
    r1: Result<U256, Revert>,
    r2: Result<U256, Revert>,
)
    requires
        payout_effect(s0, s1, investor, r1),
        payout_effect(s1, s2, investor, r2),
        r1 is Ok,
    ensures
        r2 matches Ok(p) && p@ == 0,
{
}

/// A refund can be had only once: asking again is refused.
pub proof fn law_refund_once(
    s0: LiquidityTransformer,
    s1: LiquidityTransformer,
    s2: LiquidityTransformer,
    caller: Address,
    day1: u64,
    day2: u64,
    r1: Result<(U256, U256), Revert>,
    r2: Result<(U256, U256), Revert>,
)
    requires
        refund_effect(s0, s1, caller, day1, r1),
        refund_effect(s1, s2, caller, day2, r2),
        r1 is Ok,
    ensures
        r2 == Err::<(U256, U256), Revert>(Error::RefundNotPossible.spec_revert()),
        s2 == s1,
{
}

/// The liquidity is forwarded at most once: a second forwarding is refused.
pub proof fn law_forward_once(
    s0: LiquidityTransformer,
    s1: LiquidityTransformer,
    s2: LiquidityTransformer,
    day1: u64,
    day2: u64,
    r1: Result<LiquidityForwarding, Revert>,
    r2: Result<LiquidityForwarding, Revert>,
)
    requires
        forward_liquidity_effect(s0, s1, day1, r1),
        forward_liquidity_effect(s1, s2, day2, r2),
        r1 is Ok,
    ensures
        r2 is Err,
        s2 == s1,
{
}

/// Once the keeper has renounced, no caller but the zero address can change
/// the settings.
pub proof fn law_renounced_keeper_locks_settings(
    s0: LiquidityTransformer,
    s1: LiquidityTransformer,
    s2: LiquidityTransformer,
    keeper: Address,
    caller: Address,
    settings: Settings,
    r2: Result<(), Revert>,
)
    requires
        renounce_keeper_effect(s0, s1, keeper, Ok(())),
        set_settings_effect(s1, s2, caller, settings, r2),
        caller != spec_zero_address(),
    ensures
        r2 == Err::<(), Revert>(Error::NotKeeper.spec_revert()),
        s2 == s1,
{
}

/// A refund gives back what a new investor paid and the tokens that the
/// payment reserved.
pub proof fn law_refund_returns_reservation(
    s0: LiquidityTransformer,
    s1: LiquidityTransformer,
    s2: LiquidityTransformer,
    investor: Address,
    value: U256,
    mode: u8,
    day1: u64,
    day2: u64,
    r1: Result<Reservation, Revert>,
    r2: Result<(U256, U256), Revert>,
)
    requires
        s0.consistent(),
        !s0.globals.uniswap_swaped,
        s0.investor_balance.amount(investor) == 0,
        s0.purchased_tokens.amount(investor) == 0,
        reservation_effect(s0, s1, investor, value, mode, day1, r1),
        r1 matches Ok(res) && res.token_amount@ > 0,
        value@ > 0,
        refund_effect(s1, s2, investor, day2, r2),
        day2 > 25,
    ensures
        r2 matches Ok((paid, tokens)) && paid@ == value@ && tokens@ == r1->Ok_0.token_amount@,
{
}

/// After the liquidity is forwarded, an investor's payout is all the
/// tokens reserved, including those of the last reservation.
pub proof fn law_payout_returns_reservations(
    s0: LiquidityTransformer,
    s1: LiquidityTransformer,
    s2: LiquidityTransformer,
    s3: LiquidityTransformer,
    investor: Address,
    value: U256,
    mode: u8,
    day1: u64,
    day2: u64,
    r1: Result<Reservation, Revert>,
    r2: Result<LiquidityForwarding, Revert>,
    r3: Result<U256, Revert>,
)
    requires
        reservation_effect(s0, s1, investor, value, mode, day1, r1),
        r1 is Ok,
        forward_liquidity_effect(s1, s2, day2, r2),
        r2 is Ok,
        payout_effect(s2, s3, investor, r3),
    ensures
        r3 matches Ok(p) && p@ == s0.purchased_tokens.amount(investor) + r1->Ok_0.token_amount@,
{
}

/// Cash back is paid only in investment mode 0: a reservation in any other
/// mode pays none, records no `CashBackIssued` event and leaves the cash
/// back paid in all as it was.
pub proof fn law_cash_back_only_in_mode_zero(
    o: LiquidityTransformer,
    f: LiquidityTransformer,
    sender: Address,
    value: U256,
    mode: u8,
    day: u64,
    r: Result<Reservation, Revert>,
)
    requires
        reservation_effect(o, f, sender, value, mode, day, r),
        mode != 0,
        r is Ok,
    ensures
        r->Ok_0.cash_back_amount is None,
        f.globals.cash_back_total@ == o.globals.cash_back_total@,
        forall|i: int|
            0 <= i < r->Ok_0.events@.len() ==> !(#[trigger] r->Ok_0.events@[i] is CashBackIssued),
{
    let events = r->Ok_0.events@;
    assert forall|i: int| 0 <= i < events.len() implies !(#[trigger] events[i] is CashBackIssued) by {
        if r->Ok_0.return_amount@ > 0 {
            assert(events.len() == 2);
        } else {
            assert(events.len() == 1);
        }
    }
}

/// Forwarding the liquidity hands over all the CSPR paid in and all the
/// WISE reserved: after a reservation of `value` motes that reserved
/// `tokens`, a successful forwarding hands over the earlier total plus
/// `value` (whatever cash back the reservation paid) and the earlier WISE
/// total plus `tokens`.
pub proof fn law_forwarding_hands_over_all_payments(
    s0: LiquidityTransformer,
    s1: LiquidityTransformer,
    s2: LiquidityTransformer,
    sender: Address,
    value: U256,
    mode: u8,
    day1: u64,
    day2: u64,
    r1: Result<Reservation, Revert>,
    r2: Result<LiquidityForwarding, Revert>,
)
    requires
        reservation_effect(s0, s1, sender, value, mode, day1, r1),
        r1 is Ok,
        forward_liquidity_effect(s1, s2, day2, r2),
        r2 is Ok,
    ensures
        r2->Ok_0.scspr_tokens_amount@ == s0.globals.total_cspr_contributed@ + value@,
        r2->Ok_0.scspr_tokens_amount@ == s1.globals.total_cspr_contributed@,
        r2->Ok_0.wise_tokens_amount@ == s0.globals.total_transfer_tokens@ + r1->Ok_0.token_amount@,
{
}

} // verus!
