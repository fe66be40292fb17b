//! 256-bit token amounts.
//!
//! Amounts are held as four little-endian 64-bit limbs, the layout of
//! `casper_types::U256`; every operation on them is performed by that type
//! and is specified here over the mathematical value of the limbs.
use vstd::prelude::*;

verus! {

/// 2^64.
pub open spec fn limb_base() -> nat {
    0x1_0000_0000_0000_0000nat
}

/// 2^256: the first value that no `U256` holds.
pub open spec fn u256_modulus() -> nat {
    0x1_0000_0000_0000_0000_0000_0000_0000_0000_0000_0000_0000_0000_0000_0000_0000_0000nat
}

/// The floor of the square root of `x`.
pub open spec fn is_integer_sqrt(x: nat, r: nat) -> bool {
    r * r <= x && x < (r + 1) * (r + 1)
}

/// The integer square root of `x`: the greatest `r` with `r * r <= x`.
pub open spec fn isqrt(x: nat) -> nat {
    choose|r: nat| is_integer_sqrt(x, r)
}

/// The integer square root is unique.
pub proof fn lemma_integer_sqrt_unique(x: nat, a: nat, b: nat)
    requires
        is_integer_sqrt(x, a),
        is_integer_sqrt(x, b),
    ensures
        a == b,
{
    if a < b {
        assert((a + 1) * (a + 1) <= b * b) by (nonlinear_arith)
            requires
                a + 1 <= b,
        ;
    }
    if b < a {
        assert((b + 1) * (b + 1) <= a * a) by (nonlinear_arith)
            requires
                b + 1 <= a,
        ;
    }
}

/// Every natural number has an integer square root.
pub proof fn lemma_integer_sqrt_exists(x: nat)
    ensures
        is_integer_sqrt(x, isqrt(x)),
    decreases x,
{
    if x == 0 {
        assert(is_integer_sqrt(0, 0)) by (nonlinear_arith);
    } else {
        lemma_integer_sqrt_exists((x - 1) as nat);
        let r = isqrt((x - 1) as nat);
        if x < (r + 1) * (r + 1) {
            assert(is_integer_sqrt(x, r));
        } else {
            assert((r + 1) * (r + 1) == x);
            assert(x < (r + 2) * (r + 2)) by (nonlinear_arith)
                requires
                    (r + 1) * (r + 1) == x,
            ;
            assert(is_integer_sqrt(x, r + 1));
        }
    }
}

/// The value of a result that carries an amount.
pub open spec fn result_value<E>(r: Result<U256, E>) -> Result<nat, E> {
    match r {
        Ok(v) => Ok(v@),
        Err(e) => Err(e),
    }
}

/// An unsigned 256-bit integer, least significant limb first.
#[derive(Clone, Copy, Debug, PartialEq, Eq, Structural)]
pub struct U256 {
    pub w0: u64,
    pub w1: u64,
    pub w2: u64,
    pub w3: u64,
}

impl View for U256 {
    type V = nat;

    open spec fn view(&self) -> nat {
        self.w0 as nat + (self.w1 as nat) * 0x1_0000_0000_0000_0000nat + (self.w2 as nat)
            * 0x1_0000_0000_0000_0000_0000_0000_0000_0000nat + (self.w3 as nat)
            * 0x1_0000_0000_0000_0000_0000_0000_0000_0000_0000_0000_0000_0000nat
    }
}

/// The `U256` that holds `n`, for `n` below 2^256.
pub open spec fn u256_of(n: nat) -> U256 {
    U256 {
        w0: (n % limb_base()) as u64,
        w1: ((n / limb_base()) % limb_base()) as u64,
        w2: ((n / limb_base() / limb_base()) % limb_base()) as u64,
        w3: ((n / limb_base() / limb_base() / limb_base()) % limb_base()) as u64,
    }
}

/// A `U256` is determined by its value.
pub proof fn lemma_u256_of_view(a: U256)
    ensures
        u256_of(a@) == a,
{
    let b: int = limb_base() as int;
    let x: int = a@ as int;
    let q2: int = a.w2 as int + a.w3 as int * b;
    let q1: int = a.w1 as int + q2 * b;
    assert(x == q1 * b + a.w0 as int) by (nonlinear_arith)
        requires
            b == 0x1_0000_0000_0000_0000int,
            q2 == a.w2 as int + a.w3 as int * b,
            q1 == a.w1 as int + q2 * b,
            x == a.w0 as int + (a.w1 as int) * 0x1_0000_0000_0000_0000int + (a.w2 as int)
                * 0x1_0000_0000_0000_0000_0000_0000_0000_0000int + (a.w3 as int)
                * 0x1_0000_0000_0000_0000_0000_0000_0000_0000_0000_0000_0000_0000int,
    ;
    vstd::arithmetic::div_mod::lemma_fundamental_div_mod_converse(x, b, q1, a.w0 as int);
    vstd::arithmetic::div_mod::lemma_fundamental_div_mod_converse(q1, b, q2, a.w1 as int);
    vstd::arithmetic::div_mod::lemma_fundamental_div_mod_converse(q2, b, a.w3 as int, a.w2 as int);
    vstd::arithmetic::div_mod::lemma_fundamental_div_mod_converse(a.w3 as int, b, 0, a.w3 as int);
}

/// Every `U256` holds a value below 2^256.
pub proof fn lemma_u256_bounded(a: U256)
    ensures
        a@ < u256_modulus(),
{
}

impl U256 {
    /// Zero.
    pub fn zero() -> (r: U256)
        ensures
            r@ == 0,
    {
        U256 { w0: 0, w1: 0, w2: 0, w3: 0 }
    }

    /// The value of a `u64`.
    pub fn from_u64(x: u64) -> (r: U256)
        ensures
            r@ == x,
    {
        U256 { w0: x, w1: 0, w2: 0, w3: 0 }
    }

    /// The value of a `u128`.
    pub fn from_u128(x: u128) -> (r: U256)
        ensures
            r@ == x,
    {
        let lo: u64 = x as u64;
        let hi: u64 = (x >> 64u32) as u64;
        assert(x == (x as u64) as u128 + ((x >> 64u32) as u64) as u128 * 0x1_0000_0000_0000_0000u128)
            by (bit_vector);
        U256 { w0: lo, w1: hi, w2: 0, w3: 0 }
    }

    /// `casper_types::U256::checked_add`: the sum, or `None` where it reaches 2^256.
    #[verifier::external_body]
    pub(crate) fn checked_add(self, other: U256) -> (r: Option<U256>)
        ensures
            r is Some <==> self@ + other@ < u256_modulus(),
            r matches Some(v) ==> v@ == self@ + other@,
    {
        let x = casper_types::U256([self.w0, self.w1, self.w2, self.w3]);
        let y = casper_types::U256([other.w0, other.w1, other.w2, other.w3]);
        match x.checked_add(y) {
            Some(v) => Some(U256 { w0: v.0[0], w1: v.0[1], w2: v.0[2], w3: v.0[3] }),
            None => None,
        }
    }

    /// `casper_types::U256::checked_sub`: the difference, or `None` below zero.
    #[verifier::external_body]
    pub(crate) fn checked_sub(self, other: U256) -> (r: Option<U256>)
        ensures
            r is Some <==> other@ <= self@,
            r matches Some(v) ==> v@ == self@ - other@,
    {
        let x = casper_types::U256([self.w0, self.w1, self.w2, self.w3]);
        let y = casper_types::U256([other.w0, other.w1, other.w2, other.w3]);
        match x.checked_sub(y) {
            Some(v) => Some(U256 { w0: v.0[0], w1: v.0[1], w2: v.0[2], w3: v.0[3] }),
            None => None,
        }
    }

    /// `casper_types::U256::checked_mul`: the product, or `None` where it reaches 2^256.
    #[verifier::external_body]
    pub(crate) fn checked_mul(self, other: U256) -> (r: Option<U256>)
        ensures
            r is Some <==> self@ * other@ < u256_modulus(),
            r matches Some(v) ==> v@ == self@ * other@,
    {
        let x = casper_types::U256([self.w0, self.w1, self.w2, self.w3]);
        let y = casper_types::U256([other.w0, other.w1, other.w2, other.w3]);
        match x.checked_mul(y) {
            Some(v) => Some(U256 { w0: v.0[0], w1: v.0[1], w2: v.0[2], w3: v.0[3] }),
            None => None,
        }
    }

    /// `casper_types::U256::checked_div`: the floor of the quotient, or `None` for a zero divisor.
    #[verifier::external_body]
    pub(crate) fn checked_div(self, other: U256) -> (r: Option<U256>)
        ensures
            r is Some <==> other@ != 0,
            r matches Some(v) ==> v@ == self@ / other@,
    {
        let x = casper_types::U256([self.w0, self.w1, self.w2, self.w3]);
        let y = casper_types::U256([other.w0, other.w1, other.w2, other.w3]);
        match x.checked_div(y) {
            Some(v) => Some(U256 { w0: v.0[0], w1: v.0[1], w2: v.0[2], w3: v.0[3] }),
            None => None,
        }
    }

    /// `casper_types::U256::integer_sqrt`: the greatest `n` with `n * n <= self`.
    #[verifier::external_body]
    pub(crate) fn integer_sqrt(self) -> (r: U256)
        ensures
            is_integer_sqrt(self@, r@),
    {
        let v = casper_types::U256([self.w0, self.w1, self.w2, self.w3]).integer_sqrt();
        U256 { w0: v.0[0], w1: v.0[1], w2: v.0[2], w3: v.0[3] }
    }

    /// The integer square root, as `isqrt` states it.
    pub(crate) fn sqrt(self) -> (r: U256)
        ensures
            r@ == isqrt(self@),
    {
        let r = self.integer_sqrt();
        proof {
            let c = choose|c: nat| is_integer_sqrt(self@, c);
            lemma_integer_sqrt_unique(self@, c, r@);
        }
        r
    }

    /// `<` of `casper_types::U256`: the order of the values.
    #[verifier::external_body]
    pub(crate) fn lt(self, other: U256) -> (r: bool)
        ensures
            r == (self@ < other@),
    {
        let x = casper_types::U256([self.w0, self.w1, self.w2, self.w3]);
        let y = casper_types::U256([other.w0, other.w1, other.w2, other.w3]);
        x < y
    }

    /// `casper_types::U256::is_zero`: whether the value is zero.
    #[verifier::external_body]
    pub(crate) fn is_zero(self) -> (r: bool)
        ensures
            r == (self@ == 0),
    {
        casper_types::U256([self.w0, self.w1, self.w2, self.w3]).is_zero()
    }

    /// `casper_types::U256::as_u128`, which panics above `u128::MAX`: the value as a `u128`.
    #[verifier::external_body]
    pub(crate) fn as_u128(self) -> (r: u128)
        requires
            self@ <= u128::MAX,
        ensures
            r == self@,
    {
        casper_types::U256([self.w0, self.w1, self.w2, self.w3]).as_u128()
    }
}

} // verus!
