//! The synthetic token: a token pooled with wrapped CSPR on the exchange.
//! The formulas here decide how much liquidity to remove or swap; they take
//! the figures that the contract reads from the exchange pair (the pool's
//! wrapped and synthetic balances, the contract's liquidity tokens and the
//! pair's total supply) as arguments.
//!
//! Each formula states, in the order in which the contract computes, when
//! it fails: a checked step that the contract unwraps fails with
//! `Revert::NoValue`, a checked division by zero with the error code that
//! the contract gives it, and an unchecked step that overflows (or divides
//! by zero) with `Revert::Trap`.
use vstd::prelude::*;
use crate::revert::Revert;
use crate::synthetic_helper::_get_double_root;
use crate::synthetic_helper::data::{
    ARBITRAGE_CONDITION, EQUALIZE_SIZE_VALUE, LIQUIDITY_PERCENTAGE_CORRECTION, PRECISION_DIFF,
    PRECISION_FEES_PROD, PRECISION_POINTS, PRECISION_POINTS_POWER2, PRECISION_POINTS_POWER3,
    PRECISION_POINTS_POWER4, PRECISION_POINTS_POWER5, PRECISION_PROD, TRADING_FEE_CONDITION,
};
use crate::u256::{U256, isqrt, result_value, u256_modulus};

pub mod data;
pub mod error;
pub mod event;
pub mod laws;

use self::data::SyntheticToken;
use self::error::Error;

verus! {

/// The share of the pair's liquidity tokens that the contract holds,
/// inverted and scaled: `total_supply * 10^12 / lp_token_balance`.
pub open spec fn liquidity_percent_outcome(total_supply: nat, lp_token_balance: nat) -> Result<
    nat,
    Revert,
> {
    let scaled = total_supply * (PRECISION_POINTS_POWER2 as nat);
    if scaled >= u256_modulus() {
        Err(Revert::NoValue)
    } else if lp_token_balance == 0 {
        Err(Error::Div5.spec_revert())
    } else {
        Ok(scaled / lp_token_balance)
    }
}

/// The trading fees earned by the pool between two evaluations, in
/// liquidity tokens: `(10^12 - sqrt(previous * 10^24 / current)) *
/// sqrt(synthetic * 10^12 / wrapped) * lp_token_balance / liquidity_percent / 10^6`.
pub open spec fn trading_fee_amount_outcome(
    previous_evaluation: nat,
    current_evaluation: nat,
    synthetic_balance: nat,
    wrapped_balance: nat,
    lp_token_balance: nat,
    total_supply: nat,
) -> Result<nat, Revert> {
    let p = previous_evaluation * (PRECISION_POINTS_POWER4 as nat);
    let s = synthetic_balance * (PRECISION_POINTS_POWER2 as nat);
    if p >= u256_modulus() {
        Err(Revert::NoValue)
    } else if current_evaluation == 0 {
        Err(Error::Div1.spec_revert())
    } else if s >= u256_modulus() {
        Err(Revert::NoValue)
    } else if wrapped_balance == 0 {
        Err(Error::Div2.spec_revert())
    } else {
        let ratio_root = isqrt(p / current_evaluation);
        let recipient_root = isqrt(s / wrapped_balance);
        if ratio_root > (PRECISION_POINTS_POWER2 as nat) {
            Err(Error::Sub1.spec_revert())
        } else {
            let d1 = ((PRECISION_POINTS_POWER2 as nat) - ratio_root) as nat * recipient_root;
            let d2 = d1 * lp_token_balance;
            if d1 >= u256_modulus() || d2 >= u256_modulus() {
                Err(Revert::NoValue)
            } else {
                match liquidity_percent_outcome(total_supply, lp_token_balance) {
                    Err(e) => Err(e),
                    Ok(percent) => if percent == 0 {
                        Err(Error::Div3.spec_revert())
                    } else {
                        Ok(d2 / percent / (PRECISION_POINTS as nat))
                    },
                }
            }
        }
    }
}

/// The wrapped CSPR paid out for `amount` synthetic tokens:
/// `amount * liquidity_percent * 10^6 * lp_token_balance / wrapped / 10^18`.
pub open spec fn amount_payout_outcome(
    amount: nat,
    total_supply: nat,
    lp_token_balance: nat,
    wrapped_balance: nat,
) -> Result<nat, Revert> {
    match liquidity_percent_outcome(total_supply, lp_token_balance) {
        Err(e) => Err(e),
        Ok(percent) => {
            let p1 = amount * percent;
            let p2 = p1 * (PRECISION_POINTS as nat);
            let p3 = p2 * lp_token_balance;
            if p1 >= u256_modulus() || p2 >= u256_modulus() || p3 >= u256_modulus() {
                Err(Revert::NoValue)
            } else if wrapped_balance == 0 {
                Err(Error::Div6.spec_revert())
            } else {
                Ok(p3 / wrapped_balance / (PRECISION_POINTS_POWER3 as nat))
            }
        },
    }
}

/// The evaluation of the pool:
/// `wrapped * 10^24 * synthetic / liquidity_percent^2`.
pub open spec fn evaluation_outcome(
    wrapped_balance: nat,
    synthetic_balance: nat,
    total_supply: nat,
    lp_token_balance: nat,
) -> Result<nat, Revert> {
    match liquidity_percent_outcome(total_supply, lp_token_balance) {
        Err(e) => Err(e),
        Ok(percent) => {
            let square = percent * percent;
            let w = wrapped_balance * (PRECISION_POINTS_POWER4 as nat);
            let ws = w * synthetic_balance;
            if square >= u256_modulus() || w >= u256_modulus() || ws >= u256_modulus() {
                Err(Revert::NoValue)
            } else if square == 0 {
                Err(Error::Div8.spec_revert())
            } else {
                Ok(ws / square)
            }
        },
    }
}

/// Whether fees are taken: the evaluation grew by more than 10^-8 of
/// itself, `new * 10^8 > previous * (10^8 + 1)`; both products are
/// unchecked.
pub open spec fn fees_decision_outcome(previous_evaluation: nat, new_evaluation: nat) -> Result<
    bool,
    Revert,
> {
    let previous_condition = previous_evaluation * (TRADING_FEE_CONDITION as nat);
    let new_condition = new_evaluation * (EQUALIZE_SIZE_VALUE as nat);
    if previous_condition >= u256_modulus() || new_condition >= u256_modulus() {
        Err(Revert::Trap)
    } else {
        Ok(new_condition > previous_condition)
    }
}

/// The liquidity tokens to remove to take the arbitrage profit:
/// `((wrapped + synthetic - 2 * sqrt(wrapped * synthetic)) * lp_token_balance
/// * liquidity_percent / wrapped) * 995000 / 10^18`, all steps unchecked.
pub open spec fn profit_arbitrage_remove_outcome(
    wrapped_balance: nat,
    synthetic_balance: nat,
    lp_token_balance: nat,
    total_supply: nat,
) -> Result<nat, Revert> {
    let product = wrapped_balance * synthetic_balance;
    let sum = wrapped_balance + synthetic_balance;
    if product >= u256_modulus() || sum >= u256_modulus() {
        Err(Revert::Trap)
    } else {
        let double_root = 2 * isqrt(product);
        if sum < double_root {
            Err(Revert::Trap)
        } else {
            let difference = (sum - double_root) as nat * lp_token_balance;
            if difference >= u256_modulus() {
                Err(Revert::Trap)
            } else {
                match liquidity_percent_outcome(total_supply, lp_token_balance) {
                    Err(e) => Err(e),
                    Ok(percent) => {
                        let m = difference * percent;
                        if m >= u256_modulus() || wrapped_balance == 0 {
                            Err(Revert::Trap)
                        } else {
                            let q = (m / wrapped_balance) * (LIQUIDITY_PERCENTAGE_CORRECTION as nat);
                            if q >= u256_modulus() {
                                Err(Revert::Trap)
                            } else {
                                Ok(q / (PRECISION_POINTS_POWER3 as nat))
                            }
                        }
                    },
                }
            }
        }
    }
}

/// The liquidity tokens to remove before buying synthetic tokens back:
/// with `q = sqrt(wrapped) * (PRECISION_PROD as nat) / (sqrt(synthetic * 10^24) -
/// sqrt(wrapped) * (PRECISION_DIFF as nat))`, the result is
/// `(10^12 - q - liquidity_percent) * lp_token_balance * 995000 / 10^30`,
/// all steps unchecked.
pub open spec fn to_remove_cspr_outcome(
    wrapped_balance: nat,
    synthetic_balance: nat,
    total_supply: nat,
    lp_token_balance: nat,
) -> Result<nat, Revert> {
    let wrapped_root = isqrt(wrapped_balance);
    let product_a = wrapped_root * (PRECISION_DIFF as nat);
    let product_b = synthetic_balance * (PRECISION_POINTS_POWER4 as nat);
    if product_a >= u256_modulus() || product_b >= u256_modulus() {
        Err(Revert::Trap)
    } else if isqrt(product_b) < product_a {
        Err(Revert::Trap)
    } else {
        let difference = (isqrt(product_b) - product_a) as nat;
        let numerator = wrapped_root * (PRECISION_PROD as nat);
        if numerator >= u256_modulus() || difference == 0 {
            Err(Revert::Trap)
        } else {
            let quotient = numerator / difference;
            if quotient > (PRECISION_POINTS_POWER2 as nat) {
                Err(Revert::Trap)
            } else {
                match liquidity_percent_outcome(total_supply, lp_token_balance) {
                    Err(e) => Err(e),
                    Ok(percent) => if ((PRECISION_POINTS_POWER2 as nat) - quotient) < percent {
                        Err(Revert::Trap)
                    } else {
                        let t = (((PRECISION_POINTS_POWER2 as nat) - quotient) - percent) as nat
                            * lp_token_balance;
                        let u = t * (LIQUIDITY_PERCENTAGE_CORRECTION as nat);
                        if t >= u256_modulus() || u >= u256_modulus() {
                            Err(Revert::Trap)
                        } else {
                            Ok(u / (PRECISION_POINTS_POWER5 as nat))
                        }
                    },
                }
            }
        }
    }
}

/// The synthetic tokens to swap when the pool holds more wrapped CSPR:
/// `(sqrt(synthetic * wrapped) - synthetic) * (PRECISION_FEES_PROD as nat) / 10^18`,
/// all steps unchecked.
pub open spec fn swap_amount_arbitrage_scspr_outcome(
    synthetic_balance: nat,
    wrapped_balance: nat,
) -> Result<nat, Revert> {
    let product = synthetic_balance * wrapped_balance;
    if product >= u256_modulus() || isqrt(product) < synthetic_balance {
        Err(Revert::Trap)
    } else {
        let m = (isqrt(product) - synthetic_balance) as nat * (PRECISION_FEES_PROD as nat);
        if m >= u256_modulus() {
            Err(Revert::Trap)
        } else {
            Ok(m / (PRECISION_POINTS_POWER3 as nat))
        }
    }
}

/// Which arbitrage the pool's balances call for.
#[derive(Clone, Copy, Debug, PartialEq, Eq, Structural)]
pub enum ArbitrageDecision {
    /// The balances are equal.
    Balanced,
    /// More synthetic than wrapped CSPR: `_arbitrage_cspr`.
    Cspr,
    /// More wrapped than synthetic CSPR: `_arbitrage_scspr`.
    Scspr,
}

/// Which arbitrage the balances call for; see `_arbitrage_decision`.
pub open spec fn arbitrage_decision_outcome(wrapped_balance: nat, synthetic_balance: nat) -> ArbitrageDecision {
    if wrapped_balance < synthetic_balance {
        ArbitrageDecision::Cspr
    } else if wrapped_balance > synthetic_balance {
        ArbitrageDecision::Scspr
    } else {
        ArbitrageDecision::Balanced
    }
}

/// Whether `_arbitrage_scspr` goes on; see `_arbitrage_scspr_needed`.
pub open spec fn arbitrage_scspr_gate(wrapped_balance: nat, synthetic_balance: nat) -> Result<bool, Revert> {
    if wrapped_balance * (PRECISION_POINTS as nat) >= u256_modulus() || synthetic_balance
        * (ARBITRAGE_CONDITION as nat) >= u256_modulus() {
        Err(Revert::Trap)
    } else {
        Ok(wrapped_balance * (PRECISION_POINTS as nat) > synthetic_balance * (ARBITRAGE_CONDITION as nat))
    }
}

/// Whether `_arbitrage_cspr` goes on; see `_arbitrage_cspr_needed`.
pub open spec fn arbitrage_cspr_gate(wrapped_balance: nat, synthetic_balance: nat) -> Result<bool, Revert> {
    if wrapped_balance * (ARBITRAGE_CONDITION as nat) >= u256_modulus() || synthetic_balance
        * (PRECISION_POINTS as nat) >= u256_modulus() {
        Err(Revert::Trap)
    } else {
        Ok(wrapped_balance * (ARBITRAGE_CONDITION as nat) < synthetic_balance * (PRECISION_POINTS as nat))
    }
}

/// `lhs * rhs` for a multiplication that the contract leaves unchecked.
fn mul_or_trap(lhs: U256, rhs: U256) -> (r: Result<U256, Revert>)
    ensures
        result_value(r) == if lhs@ * rhs@ >= u256_modulus() {
            Err::<nat, Revert>(Revert::Trap)
        } else {
            Ok(lhs@ * rhs@)
        },
{
    match lhs.checked_mul(rhs) {
        Some(v) => Ok(v),
        None => Err(Revert::Trap),
    }
}

/// `lhs * rhs` for a checked multiplication that the contract unwraps.
fn mul_or_no_value(lhs: U256, rhs: U256) -> (r: Result<U256, Revert>)
    ensures
        result_value(r) == if lhs@ * rhs@ >= u256_modulus() {
            Err::<nat, Revert>(Revert::NoValue)
        } else {
            Ok(lhs@ * rhs@)
        },
{
    match lhs.checked_mul(rhs) {
        Some(v) => Ok(v),
        None => Err(Revert::NoValue),
    }
}

/// `lhs / rhs`, failing with `e` for a zero divisor.
fn div_or(lhs: U256, rhs: U256, e: Revert) -> (r: Result<U256, Revert>)
    ensures
        result_value(r) == if rhs@ == 0 {
            Err::<nat, Revert>(e)
        } else {
            Ok(lhs@ / rhs@)
        },
{
    match lhs.checked_div(rhs) {
        Some(v) => Ok(v),
        None => Err(e),
    }
}

/// `lhs - rhs` for a subtraction that the contract leaves unchecked.
fn sub_or_trap(lhs: U256, rhs: U256) -> (r: Result<U256, Revert>)
    ensures
        result_value(r) == if lhs@ < rhs@ {
            Err::<nat, Revert>(Revert::Trap)
        } else {
            Ok((lhs@ - rhs@) as nat)
        },
{
    match lhs.checked_sub(rhs) {
        Some(v) => Ok(v),
        None => Err(Revert::Trap),
    }
}

/// The inverted, scaled share of liquidity tokens held by the contract;
/// see `liquidity_percent_outcome`.
pub fn _get_liquidity_percent(total_supply: U256, lp_token_balance: U256) -> (r: Result<U256, Revert>)
    ensures
        result_value(r) == liquidity_percent_outcome(total_supply@, lp_token_balance@),
{
    let scaled = mul_or_no_value(total_supply, U256::from_u128(PRECISION_POINTS_POWER2))?;
    div_or(scaled, lp_token_balance, Error::Div5.revert())
}

/// The trading fees earned between two evaluations; see
/// `trading_fee_amount_outcome`.
pub fn _get_trading_fee_amount(
    previous_evaluation: U256,
    current_evaluation: U256,
    synthetic_balance: U256,
    wrapped_balance: U256,
    lp_token_balance: U256,
    total_supply: U256,
) -> (r: Result<U256, Revert>)
    ensures
        result_value(r) == trading_fee_amount_outcome(
            previous_evaluation@,
            current_evaluation@,
            synthetic_balance@,
            wrapped_balance@,
            lp_token_balance@,
            total_supply@,
        ),
{
    let p = mul_or_no_value(previous_evaluation, U256::from_u128(PRECISION_POINTS_POWER4))?;
    let ratio_amount = div_or(p, current_evaluation, Error::Div1.revert())?;
    let s = mul_or_no_value(synthetic_balance, U256::from_u128(PRECISION_POINTS_POWER2))?;
    let recipient_amount = div_or(s, wrapped_balance, Error::Div2.revert())?;
    let d0 = match U256::from_u128(PRECISION_POINTS_POWER2).checked_sub(ratio_amount.sqrt()) {
        Some(d) => d,
        None => {
            return Err(Error::Sub1.revert());
        },
    };
    let d1 = mul_or_no_value(d0, recipient_amount.sqrt())?;
    let d2 = mul_or_no_value(d1, lp_token_balance)?;
    let percent = _get_liquidity_percent(total_supply, lp_token_balance)?;
    let difference = div_or(d2, percent, Error::Div3.revert())?;
    Ok(difference.checked_div(U256::from_u128(PRECISION_POINTS)).unwrap())
}

/// The wrapped CSPR paid out for `amount` synthetic tokens; see
/// `amount_payout_outcome`.
pub fn _get_amount_payout(
    amount: U256,
    total_supply: U256,
    lp_token_balance: U256,
    wrapped_balance: U256,
) -> (r: Result<U256, Revert>)
    ensures
        result_value(r) == amount_payout_outcome(
            amount@,
            total_supply@,
            lp_token_balance@,
            wrapped_balance@,
        ),
{
    let percent = _get_liquidity_percent(total_supply, lp_token_balance)?;
    let p1 = mul_or_no_value(amount, percent)?;
    let product = mul_or_no_value(p1, U256::from_u128(PRECISION_POINTS))?;
    let p3 = mul_or_no_value(product, lp_token_balance)?;
    let quotient = div_or(p3, wrapped_balance, Error::Div6.revert())?;
    Ok(quotient.checked_div(U256::from_u128(PRECISION_POINTS_POWER3)).unwrap())
}

/// The evaluation of the pool; see `evaluation_outcome`.
pub fn _get_evaluation(
    wrapped_balance: U256,
    synthetic_balance: U256,
    total_supply: U256,
    lp_token_balance: U256,
) -> (r: Result<U256, Revert>)
    ensures
        result_value(r) == evaluation_outcome(
            wrapped_balance@,
            synthetic_balance@,
            total_supply@,
            lp_token_balance@,
        ),
{
    let percent = _get_liquidity_percent(total_supply, lp_token_balance)?;
    let square = mul_or_no_value(percent, percent)?;
    let w = mul_or_no_value(wrapped_balance, U256::from_u128(PRECISION_POINTS_POWER4))?;
    let ws = mul_or_no_value(w, synthetic_balance)?;
    div_or(ws, square, Error::Div8.revert())
}

/// The liquidity tokens to remove to take the arbitrage profit; see
/// `profit_arbitrage_remove_outcome`.
pub fn _profit_arbitrage_remove(
    wrapped_balance: U256,
    synthetic_balance: U256,
    lp_token_balance: U256,
    total_supply: U256,
) -> (r: Result<U256, Revert>)
    ensures
        result_value(r) == profit_arbitrage_remove_outcome(
            wrapped_balance@,
            synthetic_balance@,
            lp_token_balance@,
            total_supply@,
        ),
{
    let product = mul_or_trap(wrapped_balance, synthetic_balance)?;
    let double_root = _get_double_root(product);
    proof {
        let root = choose|root: nat| crate::u256::is_integer_sqrt(product@, root) && double_root@ == 2
            * root;
        crate::u256::lemma_integer_sqrt_unique(product@, root, isqrt(product@));
    }
    let sum = match wrapped_balance.checked_add(synthetic_balance) {
        Some(s) => s,
        None => {
            return Err(Revert::Trap);
        },
    };
    let d0 = sub_or_trap(sum, double_root)?;
    let difference = mul_or_trap(d0, lp_token_balance)?;
    let percent = _get_liquidity_percent(total_supply, lp_token_balance)?;
    let m = mul_or_trap(difference, percent)?;
    let q = div_or(m, wrapped_balance, Revert::Trap)?;
    let q2 = mul_or_trap(q, U256::from_u128(LIQUIDITY_PERCENTAGE_CORRECTION))?;
    Ok(q2.checked_div(U256::from_u128(PRECISION_POINTS_POWER3)).unwrap())
}

/// The liquidity tokens to remove before buying synthetic tokens back; see
/// `to_remove_cspr_outcome`.
pub fn _to_remove_cspr(
    wrapped_balance: U256,
    synthetic_balance: U256,
    total_supply: U256,
    lp_token_balance: U256,
) -> (r: Result<U256, Revert>)
    ensures
        result_value(r) == to_remove_cspr_outcome(
            wrapped_balance@,
            synthetic_balance@,
            total_supply@,
            lp_token_balance@,
        ),
{
    let wrapped_root = wrapped_balance.sqrt();
    let product_a = mul_or_trap(wrapped_root, U256::from_u128(PRECISION_DIFF))?;
    let product_b = mul_or_trap(synthetic_balance, U256::from_u128(PRECISION_POINTS_POWER4))?;
    let difference = sub_or_trap(product_b.sqrt(), product_a)?;
    let numerator = mul_or_trap(wrapped_root, U256::from_u128(PRECISION_PROD))?;
    let quotient = div_or(numerator, difference, Revert::Trap)?;
    let t0 = sub_or_trap(U256::from_u128(PRECISION_POINTS_POWER2), quotient)?;
    let percent = _get_liquidity_percent(total_supply, lp_token_balance)?;
    let t1 = sub_or_trap(t0, percent)?;
    let t2 = mul_or_trap(t1, lp_token_balance)?;
    let t3 = mul_or_trap(t2, U256::from_u128(LIQUIDITY_PERCENTAGE_CORRECTION))?;
    Ok(t3.checked_div(U256::from_u128(PRECISION_POINTS_POWER5)).unwrap())
}

/// The synthetic tokens to swap when the pool holds more wrapped CSPR; see
/// `swap_amount_arbitrage_scspr_outcome`.
pub fn _swap_amount_arbitrage_scspr(synthetic_balance: U256, wrapped_balance: U256) -> (r: Result<
    U256,
    Revert,
>)
    ensures
        result_value(r) == swap_amount_arbitrage_scspr_outcome(synthetic_balance@, wrapped_balance@),
{
    let product = mul_or_trap(synthetic_balance, wrapped_balance)?;
    let difference = sub_or_trap(product.sqrt(), synthetic_balance)?;
    let m = mul_or_trap(difference, U256::from_u128(PRECISION_FEES_PROD))?;
    Ok(m.checked_div(U256::from_u128(PRECISION_POINTS_POWER3)).unwrap())
}

/// Which arbitrage the pool's balances call for: buying CSPR back when the
/// pool holds less wrapped than synthetic CSPR, synthetic tokens in the
/// opposite case, none when they are equal.
pub fn _arbitrage_decision(wrapped_balance: U256, synthetic_balance: U256) -> (r: ArbitrageDecision)
    ensures
        r == arbitrage_decision_outcome(wrapped_balance@, synthetic_balance@),
{
    if wrapped_balance.lt(synthetic_balance) {
        ArbitrageDecision::Cspr
    } else if synthetic_balance.lt(wrapped_balance) {
        ArbitrageDecision::Scspr
    } else {
        ArbitrageDecision::Balanced
    }
}

/// Whether `_arbitrage_scspr` goes on: the wrapped balance exceeds the
/// synthetic one by more than a millionth,
/// `wrapped * 10^6 > synthetic * 1000001` (unchecked products).
pub fn _arbitrage_scspr_needed(wrapped_balance: U256, synthetic_balance: U256) -> (r: Result<
    bool,
    Revert,
>)
    ensures
        r == arbitrage_scspr_gate(wrapped_balance@, synthetic_balance@),
{
    let condition_wcspr = mul_or_trap(wrapped_balance, U256::from_u128(PRECISION_POINTS))?;
    let condition_scspr = mul_or_trap(synthetic_balance, U256::from_u128(ARBITRAGE_CONDITION))?;
    Ok(condition_scspr.lt(condition_wcspr))
}

/// Whether `_arbitrage_cspr` goes on: the synthetic balance exceeds the
/// wrapped one by more than a millionth,
/// `wrapped * 1000001 < synthetic * 10^6` (unchecked products).
pub fn _arbitrage_cspr_needed(wrapped_balance: U256, synthetic_balance: U256) -> (r: Result<
    bool,
    Revert,
>)
    ensures
        r == arbitrage_cspr_gate(wrapped_balance@, synthetic_balance@),
{
    let condition_wcspr = mul_or_trap(wrapped_balance, U256::from_u128(ARBITRAGE_CONDITION))?;
    let condition_scspr = mul_or_trap(synthetic_balance, U256::from_u128(PRECISION_POINTS))?;
    Ok(condition_wcspr.lt(condition_scspr))
}

impl SyntheticToken {
    /// Whether fees are taken after the pool reached `new_evaluation`; see
    /// `fees_decision_outcome`.
    pub fn _fees_decision(&self, new_evaluation: U256) -> (r: Result<bool, Revert>)
        ensures
            r == fees_decision_outcome(self.current_evaluation@, new_evaluation@),
    {
        let previous_condition = mul_or_trap(
            self.current_evaluation,
            U256::from_u128(TRADING_FEE_CONDITION),
        )?;
        let new_condition = mul_or_trap(new_evaluation, U256::from_u128(EQUALIZE_SIZE_VALUE))?;
        Ok(previous_condition.lt(new_condition))
    }

    /// Records the pool's evaluation.
    pub fn _update_evaluation(&mut self, evaluation: U256)
        ensures
            *final(self) == (SyntheticToken { current_evaluation: evaluation, ..*old(self) }),
    {
        self.current_evaluation = evaluation;
    }
}

} // verus!
