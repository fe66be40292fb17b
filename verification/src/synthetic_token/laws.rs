//! Properties of the synthetic token's formulas.
use vstd::prelude::*;
use crate::revert::Revert;
use crate::u256::{is_integer_sqrt, isqrt, lemma_integer_sqrt_exists};
use crate::u256::lemma_integer_sqrt_unique;
use vstd::arithmetic::div_mod::{
    lemma_div_is_ordered, lemma_fundamental_div_mod, lemma_fundamental_div_mod_converse,
};
use super::{
    ArbitrageDecision, amount_payout_outcome, arbitrage_cspr_gate, arbitrage_decision_outcome,
    arbitrage_scspr_gate, fees_decision_outcome, profit_arbitrage_remove_outcome,
};

verus! {

/// Synthetic tokens are bought back only when the balances call for it:
/// when `_arbitrage_scspr` goes on, the decision is `Scspr`.
pub proof fn law_scspr_arbitrage_follows_decision(wrapped_balance: nat, synthetic_balance: nat)
    requires
        arbitrage_scspr_gate(wrapped_balance, synthetic_balance) == Ok::<bool, Revert>(true),
    ensures
        arbitrage_decision_outcome(wrapped_balance, synthetic_balance) == ArbitrageDecision::Scspr,
{
}

/// CSPR is bought back only when the balances call for it: when
/// `_arbitrage_cspr` goes on, the decision is `Cspr`.
pub proof fn law_cspr_arbitrage_follows_decision(wrapped_balance: nat, synthetic_balance: nat)
    requires
        arbitrage_cspr_gate(wrapped_balance, synthetic_balance) == Ok::<bool, Revert>(true),
    ensures
        arbitrage_decision_outcome(wrapped_balance, synthetic_balance) == ArbitrageDecision::Cspr,
{
}

/// Balanced pools call for no arbitrage, and neither gate opens on them.
pub proof fn law_balanced_pool_no_arbitrage(balance: nat)
    ensures
        arbitrage_decision_outcome(balance, balance) == ArbitrageDecision::Balanced,
        arbitrage_scspr_gate(balance, balance) != Ok::<bool, Revert>(true),
        arbitrage_cspr_gate(balance, balance) != Ok::<bool, Revert>(true),
{
}

/// Fees are taken only when the evaluation has grown.
pub proof fn law_fees_only_on_growth(previous_evaluation: nat, new_evaluation: nat)
    requires
        fees_decision_outcome(previous_evaluation, new_evaluation) == Ok::<bool, Revert>(true),
    ensures
        new_evaluation > previous_evaluation,
{
}

/// Twice the integer square root of a product never exceeds the sum of the
/// factors, so removing the arbitrage profit never subtracts below zero.
pub proof fn law_double_root_below_sum(wrapped_balance: nat, synthetic_balance: nat)
    ensures
        2 * isqrt(wrapped_balance * synthetic_balance) <= wrapped_balance + synthetic_balance,
{
    let p = wrapped_balance * synthetic_balance;
    lemma_integer_sqrt_exists(p);
    let r = isqrt(p);
    assert(is_integer_sqrt(p, r));
    assert(2 * r <= wrapped_balance + synthetic_balance) by (nonlinear_arith)
        requires
            r * r <= wrapped_balance * synthetic_balance,
    ;
}

/// Scaling both sides of a ratio by two keeps its quotient.
proof fn lemma_scaled_ratio(a: nat, b: nat)
    requires
        b > 0,
    ensures
        (2 * a) / (2 * b) == a / b,
{
    lemma_fundamental_div_mod(a as int, b as int);
    let q = (a / b) as int;
    let r = (a % b) as int;
    assert(2 * a == (2 * b) * q + 2 * r) by (nonlinear_arith)
        requires
            a == b * q + r,
    ;
    lemma_fundamental_div_mod_converse((2 * a) as int, (2 * b) as int, q, 2 * r);
}

/// Doubling a dividend doubles the quotient, give or take one.
proof fn lemma_double_div(a: nat, d: nat)
    requires
        d > 0,
    ensures
        2 * (a / d) <= (2 * a) / d,
        (2 * a) / d <= 2 * (a / d) + 1,
        (2 * a + 1) / d <= 2 * (a / d) + 1,
{
    lemma_fundamental_div_mod(a as int, d as int);
    vstd::arithmetic::div_mod::lemma_mod_bound(a as int, d as int);
    let q = (a / d) as int;
    let r = (a % d) as int;
    assert(2 * a == (2 * q) * d + 2 * r) by (nonlinear_arith)
        requires
            a == d * q + r,
    ;
    if 2 * r < d {
        lemma_fundamental_div_mod_converse((2 * a) as int, d as int, 2 * q, 2 * r);
    } else {
        assert(2 * a == (2 * q + 1) * d + (2 * r - d)) by (nonlinear_arith)
            requires
                2 * a == (2 * q) * d + 2 * r,
        ;
        lemma_fundamental_div_mod_converse((2 * a) as int, d as int, 2 * q + 1, 2 * r - d);
    }
    if 2 * r + 1 < d {
        assert(2 * a + 1 == (2 * q) * d + (2 * r + 1)) by (nonlinear_arith)
            requires
                2 * a == (2 * q) * d + 2 * r,
        ;
        lemma_fundamental_div_mod_converse((2 * a + 1) as int, d as int, 2 * q, 2 * r + 1);
    } else {
        assert(2 * a + 1 == (2 * q + 1) * d + (2 * r + 1 - d)) by (nonlinear_arith)
            requires
                2 * a == (2 * q) * d + 2 * r,
        ;
        lemma_fundamental_div_mod_converse((2 * a + 1) as int, d as int, 2 * q + 1, 2 * r + 1 - d);
    }
}

/// The quotient of twice a product lies between twice and twice plus one
/// of the quotient, after a second division too.
proof fn lemma_double_div_div(a: nat, w: nat, d: nat)
    requires
        w > 0,
        d > 0,
    ensures
        2 * ((a / w) / d) <= ((2 * a) / w) / d,
        ((2 * a) / w) / d <= 2 * ((a / w) / d) + 1,
{
    let q = a / w;
    lemma_double_div(a, w);
    lemma_double_div(q, d);
    lemma_div_is_ordered((2 * q) as int, ((2 * a) / w) as int, d as int);
    lemma_div_is_ordered(((2 * a) / w) as int, (2 * q + 1) as int, d as int);
}

/// The wrapped CSPR paid out grows in proportion to the contract's
/// liquidity tokens: with the contract's share of the pair's liquidity
/// tokens held the same (twice the tokens of twice the supply), the payout
/// for the same amount from the same pool doubles, give or take one unit.
pub proof fn law_payout_proportional_to_liquidity_tokens(
    amount: nat,
    total_supply: nat,
    lp_token_balance: nat,
    wrapped_balance: nat,
    payout: nat,
    doubled_payout: nat,
)
    requires
        amount_payout_outcome(amount, total_supply, lp_token_balance, wrapped_balance) == Ok::<
            nat,
            Revert,
        >(payout),
        amount_payout_outcome(amount, 2 * total_supply, 2 * lp_token_balance, wrapped_balance)
            == Ok::<nat, Revert>(doubled_payout),
    ensures
        2 * payout <= doubled_payout <= 2 * payout + 1,
{
    let scaled = total_supply * 1_000_000_000_000;
    assert(2 * total_supply * 1_000_000_000_000 == 2 * scaled) by (nonlinear_arith)
        requires
            scaled == total_supply * 1_000_000_000_000,
    ;
    lemma_scaled_ratio(scaled, lp_token_balance);
    let percent = scaled / lp_token_balance;
    let p2 = amount * percent * 1_000_000;
    let p3 = p2 * lp_token_balance;
    assert(p2 * (2 * lp_token_balance) == 2 * p3) by (nonlinear_arith)
        requires
            p3 == p2 * lp_token_balance,
    ;
    lemma_double_div_div(p3, wrapped_balance, 1_000_000_000_000_000_000);
}

/// The liquidity removed for the arbitrage profit grows in proportion to
/// the contract's liquidity tokens: with the contract's share of the
/// pair's liquidity tokens held the same (twice the tokens of twice the
/// supply), the same pool gives twice the liquidity to remove, give or take
/// two units.
pub proof fn law_profit_removal_proportional_to_liquidity_tokens(
    wrapped_balance: nat,
    synthetic_balance: nat,
    lp_token_balance: nat,
    total_supply: nat,
    removed: nat,
    doubled_removed: nat,
)
    requires
        profit_arbitrage_remove_outcome(wrapped_balance, synthetic_balance, lp_token_balance, total_supply)
            == Ok::<nat, Revert>(removed),
        profit_arbitrage_remove_outcome(
            wrapped_balance,
            synthetic_balance,
            2 * lp_token_balance,
            2 * total_supply,
        ) == Ok::<nat, Revert>(doubled_removed),
    ensures
        2 * removed <= doubled_removed <= 2 * removed + 2,
{
    let scaled = total_supply * 1_000_000_000_000;
    assert(2 * total_supply * 1_000_000_000_000 == 2 * scaled) by (nonlinear_arith)
        requires
            scaled == total_supply * 1_000_000_000_000,
    ;
    lemma_scaled_ratio(scaled, lp_token_balance);
    let percent = scaled / lp_token_balance;
    let d = (wrapped_balance + synthetic_balance - 2 * isqrt(wrapped_balance * synthetic_balance)) as nat;
    let m = d * lp_token_balance * percent;
    assert(d * (2 * lp_token_balance) * percent == 2 * m) by (nonlinear_arith)
        requires
            m == d * lp_token_balance * percent,
    ;
    let w = wrapped_balance;
    let q = m / w;
    let c: nat = 995_000;
    let big: nat = 1_000_000_000_000_000_000;
    lemma_double_div(m, w);
    // the doubled quotient is 2q or 2q + 1
    lemma_double_div(q * c, big);
    assert((2 * q) * c == 2 * (q * c)) by (nonlinear_arith);
    assert((2 * q + 1) * c == 2 * (q * c) + c) by (nonlinear_arith);
    vstd::arithmetic::mul::lemma_mul_inequality((2 * q) as int, ((2 * m) / w) as int, c as int);
    lemma_div_is_ordered(((2 * q) * c) as int, (((2 * m) / w) * c) as int, big as int);
    vstd::arithmetic::mul::lemma_mul_inequality(((2 * m) / w) as int, (2 * q + 1) as int, c as int);
    lemma_div_is_ordered((((2 * m) / w) * c) as int, ((2 * q + 1) * c) as int, big as int);
    lemma_div_small_addend(2 * (q * c), c, big);
}

/// Adding less than the divisor raises the quotient by one at most.
proof fn lemma_div_small_addend(x: nat, c: nat, d: nat)
    requires
        c < d,
    ensures
        (x + c) / d <= x / d + 1,
{
    lemma_fundamental_div_mod(x as int, d as int);
    vstd::arithmetic::div_mod::lemma_mod_bound(x as int, d as int);
    let q = (x / d) as int;
    let r = (x % d) as int;
    if r + c < d {
        assert(x + c == q * d + (r + c)) by (nonlinear_arith)
            requires
                x == d * q + r,
        ;
        lemma_fundamental_div_mod_converse((x + c) as int, d as int, q, r + c);
    } else {
        assert(x + c == (q + 1) * d + (r + c - d)) by (nonlinear_arith)
            requires
                x == d * q + r,
        ;
        lemma_fundamental_div_mod_converse((x + c) as int, d as int, q + 1, r + c - d);
    }
}

/// A balanced pool yields no arbitrage profit: when the wrapped and
/// synthetic balances are equal, no liquidity is removed for it.
pub proof fn law_balanced_pool_no_profit_removal(
    balance: nat,
    lp_token_balance: nat,
    total_supply: nat,
    removed: nat,
)
    requires
        profit_arbitrage_remove_outcome(balance, balance, lp_token_balance, total_supply) == Ok::<
            nat,
            Revert,
        >(removed),
    ensures
        removed == 0,
{
    let p = balance * balance;
    lemma_integer_sqrt_exists(p);
    assert(is_integer_sqrt(p, balance)) by (nonlinear_arith)
        requires
            p == balance * balance,
    ;
    lemma_integer_sqrt_unique(p, balance, isqrt(p));
    assert(isqrt(p) == balance);
    let percent = (total_supply * 1_000_000_000_000) / lp_token_balance;
    assert(0nat * lp_token_balance == 0) by (nonlinear_arith);
    assert(0nat * percent == 0) by (nonlinear_arith);
    if balance > 0 {
        assert(0nat / balance == 0);
    }
}

/// The wrapped CSPR paid out for `amount` synthetic tokens is at most the
/// pool's wrapped CSPR per synthetic token times the amount, as the pair's
/// supply measures it: `payout * wrapped_balance <= amount * total_supply`.
pub proof fn law_payout_bounded_by_supply_share(
    amount: nat,
    total_supply: nat,
    lp_token_balance: nat,
    wrapped_balance: nat,
    payout: nat,
)
    requires
        amount_payout_outcome(amount, total_supply, lp_token_balance, wrapped_balance) == Ok::<
            nat,
            Revert,
        >(payout),
    ensures
        payout * wrapped_balance <= amount * total_supply,
{
    let scaled = total_supply * 1_000_000_000_000;
    let percent = scaled / lp_token_balance;
    lemma_fundamental_div_mod(scaled as int, lp_token_balance as int);
    vstd::arithmetic::div_mod::lemma_mod_bound(scaled as int, lp_token_balance as int);
    assert(percent * lp_token_balance <= scaled) by (nonlinear_arith)
        requires
            scaled == lp_token_balance * percent + scaled % lp_token_balance,
            scaled % lp_token_balance >= 0,
    ;
    let p3 = amount * percent * 1_000_000 * lp_token_balance;
    let big: nat = 1_000_000_000_000_000_000;
    assert(p3 <= amount * total_supply * big) by (nonlinear_arith)
        requires
            p3 == amount * percent * 1_000_000 * lp_token_balance,
            percent * lp_token_balance <= scaled,
            scaled == total_supply * 1_000_000_000_000,
            big == 1_000_000_000_000_000_000,
    ;
    let q = p3 / wrapped_balance;
    lemma_fundamental_div_mod(p3 as int, wrapped_balance as int);
    vstd::arithmetic::div_mod::lemma_mod_bound(p3 as int, wrapped_balance as int);
    lemma_fundamental_div_mod(q as int, big as int);
    vstd::arithmetic::div_mod::lemma_mod_bound(q as int, big as int);
    assert(payout * wrapped_balance * big <= p3) by (nonlinear_arith)
        requires
            payout == q / big,
            q == p3 / wrapped_balance,
            p3 == wrapped_balance * q + p3 % wrapped_balance,
            p3 % wrapped_balance >= 0,
            q == big * (q / big) + q % big,
            q % big >= 0,
            wrapped_balance > 0,
    ;
    assert(payout * wrapped_balance <= amount * total_supply) by (nonlinear_arith)
        requires
            payout * wrapped_balance * big <= amount * total_supply * big,
            big > 0,
    ;
}

} // verus!
