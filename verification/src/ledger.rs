//! Per-address amounts and the numbered list of investors, the contract
//! dictionaries of the liquidity transformer.
use vstd::prelude::*;
use crate::address::Address;
use crate::u256::U256;

verus! {

/// The amount recorded for `a` in `s` (zero when `a` has no entry).
pub open spec fn seq_amount(s: Seq<(Address, U256)>, a: Address) -> nat
    decreases s.len(),
{
    if s.len() == 0 {
        0
    } else if s.last().0 == a {
        s.last().1@
    } else {
        seq_amount(s.drop_last(), a)
    }
}

/// The sum of all amounts in `s`.
pub open spec fn seq_total(s: Seq<(Address, U256)>) -> nat
    decreases s.len(),
{
    if s.len() == 0 {
        0
    } else {
        seq_total(s.drop_last()) + s.last().1@
    }
}

/// No address has two entries in `s`.
pub open spec fn distinct_addresses(s: Seq<(Address, U256)>) -> bool {
    forall|i: int, j: int| 0 <= i < j < s.len() ==> s[i].0 != s[j].0
}

proof fn lemma_amount_at(s: Seq<(Address, U256)>, i: int)
    requires
        distinct_addresses(s),
        0 <= i < s.len(),
    ensures
        seq_amount(s, s[i].0) == s[i].1@,
    decreases s.len(),
{
    if i < s.len() - 1 {
        assert(s.last().0 != s[i].0);
        assert(s.drop_last()[i] == s[i]);
        lemma_amount_at(s.drop_last(), i);
    }
}

proof fn lemma_amount_absent(s: Seq<(Address, U256)>, a: Address)
    requires
        forall|i: int| 0 <= i < s.len() ==> s[i].0 != a,
    ensures
        seq_amount(s, a) == 0,
    decreases s.len(),
{
    if s.len() > 0 {
        assert(s.last().0 != a);
        lemma_amount_absent(s.drop_last(), a);
    }
}

proof fn lemma_amount_le_total(s: Seq<(Address, U256)>, a: Address)
    ensures
        seq_amount(s, a) <= seq_total(s),
    decreases s.len(),
{
    if s.len() > 0 {
        lemma_amount_le_total(s.drop_last(), a);
    }
}

proof fn lemma_push(s: Seq<(Address, U256)>, a: Address, v: U256)
    ensures
        seq_total(s.push((a, v))) == seq_total(s) + v@,
        seq_amount(s.push((a, v)), a) == v@,
        forall|b: Address| b != a ==> seq_amount(s.push((a, v)), b) == seq_amount(s, b),
{
    assert(s.push((a, v)).drop_last() =~= s);
}

proof fn lemma_update(s: Seq<(Address, U256)>, i: int, v: U256)
    requires
        distinct_addresses(s),
        0 <= i < s.len(),
    ensures
        seq_total(s.update(i, (s[i].0, v))) + s[i].1@ == seq_total(s) + v@,
        forall|b: Address| b != s[i].0 ==> seq_amount(s.update(i, (s[i].0, v)), b) == seq_amount(s, b),
    decreases s.len(),
{
    let t = s.update(i, (s[i].0, v));
    if i == s.len() - 1 {
        assert(t.drop_last() =~= s.drop_last());
        assert forall|b: Address| b != s[i].0 implies seq_amount(t, b) == seq_amount(s, b) by {
            assert(t.last().0 == s[i].0);
            assert(s.last().0 == s[i].0);
            assert(seq_amount(t, b) == seq_amount(t.drop_last(), b));
            assert(seq_amount(s, b) == seq_amount(s.drop_last(), b));
        }
    } else {
        assert(t.drop_last() =~= s.drop_last().update(i, (s[i].0, v)));
        assert(s.drop_last()[i] == s[i]);
        lemma_update(s.drop_last(), i, v);
        assert(t.last() == s.last());
        assert forall|b: Address| b != s[i].0 implies seq_amount(t, b) == seq_amount(s, b) by {
            if t.last().0 != b {
                let s2 = s.drop_last();
                assert(seq_amount(t, b) == seq_amount(t.drop_last(), b));
                assert(seq_amount(s2.update(i, (s2[i].0, v)), b) == seq_amount(s2, b));
                assert(t.drop_last() == s2.update(i, (s2[i].0, v)));
                assert(seq_amount(s, b) == seq_amount(s2, b));
            }
        }
    }
}

/// Amounts recorded per address, such as what each investor paid in or
/// the tokens each investor has reserved. An address without an entry
/// holds zero.
pub struct AmountLedger {
    entries: Vec<(Address, U256)>,
}

impl AmountLedger {
    #[verifier::type_invariant]
    spec fn inv(self) -> bool {
        distinct_addresses(self.entries@)
    }

    /// The amount recorded for `a`.
    pub closed spec fn amount(self, a: Address) -> nat {
        seq_amount(self.entries@, a)
    }

    /// The sum of the amounts of all addresses.
    pub closed spec fn total(self) -> nat {
        seq_total(self.entries@)
    }

    /// No amount exceeds the sum of all amounts.
    pub proof fn lemma_amount_le_total(self, a: Address)
        ensures
            self.amount(a) <= self.total(),
    {
        lemma_amount_le_total(self.entries@, a);
    }

    /// A ledger in which every address holds zero.
    pub fn new() -> (r: AmountLedger)
        ensures
            forall|a: Address| r.amount(a) == 0,
            r.total() == 0,
    {
        let r = AmountLedger { entries: Vec::new() };
        assert forall|a: Address| r.amount(a) == 0 by {
            lemma_amount_absent(r.entries@, a);
        }
        r
    }

    fn find(&self, a: &Address) -> (r: Option<usize>)
        ensures
            r matches Some(i) ==> i < self.entries@.len() && self.entries@[i as int].0 == *a,
            r is None ==> forall|i: int| 0 <= i < self.entries@.len() ==> self.entries@[i].0 != *a,
    {
        let mut i: usize = 0;
        while i < self.entries.len()
            invariant
                i <= self.entries@.len(),
                forall|j: int| 0 <= j < i ==> self.entries@[j].0 != *a,
            decreases self.entries@.len() - i,
        {
            if self.entries[i].0 == *a {
                return Some(i);
            }
            i = i + 1;
        }
        None
    }

    /// The amount recorded for `a` (zero when there is none).
    pub fn get(&self, a: &Address) -> (r: U256)
        ensures
            r@ == self.amount(*a),
    {
        proof {
            use_type_invariant(self);
        }
        match self.find(a) {
            Some(i) => {
                proof {
                    lemma_amount_at(self.entries@, i as int);
                }
                self.entries[i].1
            },
            None => {
                proof {
                    lemma_amount_absent(self.entries@, *a);
                }
                U256::zero()
            },
        }
    }

    /// Records `value` as the amount of `a`.
    pub fn set(&mut self, a: &Address, value: U256)
        ensures
            final(self).amount(*a) == value@,
            forall|b: Address| b != *a ==> final(self).amount(b) == old(self).amount(b),
            final(self).total() + old(self).amount(*a) == old(self).total() + value@,
    {
        proof {
            use_type_invariant(&*self);
        }
        let ghost s = self.entries@;
        let found = self.find(a);
        let mut entries: Vec<(Address, U256)> = Vec::new();
        std::mem::swap(&mut entries, &mut self.entries);
        match found {
            Some(i) => {
                entries.set(i, (*a, value));
                proof {
                    lemma_amount_at(s, i as int);
                    lemma_update(s, i as int, value);
                    assert(entries@ == s.update(i as int, (s[i as int].0, value)));
                    assert(distinct_addresses(entries@)) by {
                        assert forall|x: int, y: int| 0 <= x < y < entries@.len() implies entries@[x].0
                            != entries@[y].0 by {
                            assert(entries@[x].0 == s[x].0);
                            assert(entries@[y].0 == s[y].0);
                        }
                    }
                    lemma_amount_at(entries@, i as int);
                }
            },
            None => {
                entries.push((*a, value));
                proof {
                    lemma_amount_absent(s, *a);
                    lemma_push(s, *a, value);
                    assert(entries@ == s.push((*a, value)));
                }
            },
        }
        self.entries = entries;
    }
}

/// The investors in the order of their first reservation: the number under
/// which each investor was recorded, and the investor.
pub struct UniqueInvestors {
    entries: Vec<(U256, Address)>,
}

/// The investor recorded under the number `n` in `s`, if any.
pub open spec fn seq_investor(s: Seq<(U256, Address)>, n: nat) -> Option<Address>
    decreases s.len(),
{
    if s.len() == 0 {
        None
    } else if s.last().0@ == n {
        Some(s.last().1)
    } else {
        seq_investor(s.drop_last(), n)
    }
}

proof fn lemma_investor_push(s: Seq<(U256, Address)>, n: U256, a: Address)
    ensures
        seq_investor(s.push((n, a)), n@) == Some(a),
        forall|m: nat| m != n@ ==> seq_investor(s.push((n, a)), m) == seq_investor(s, m),
{
    assert(s.push((n, a)).drop_last() =~= s);
}

impl UniqueInvestors {
    /// The investor recorded under the number `n`, if any.
    pub closed spec fn investor(self, n: nat) -> Option<Address> {
        seq_investor(self.entries@, n)
    }

    /// No investor is recorded.
    pub fn new() -> (r: UniqueInvestors)
        ensures
            forall|n: nat| r.investor(n) is None,
    {
        UniqueInvestors { entries: Vec::new() }
    }

    /// The investor recorded under the number `n`, if any.
    pub fn get(&self, n: &U256) -> (r: Option<Address>)
        ensures
            r == self.investor(n@),
    {
        let mut i: usize = self.entries.len();
        proof {
            assert(self.entries@.take(i as int) =~= self.entries@);
        }
        while i > 0
            invariant
                i <= self.entries@.len(),
                seq_investor(self.entries@, n@) == seq_investor(self.entries@.take(i as int), n@),
            decreases i,
        {
            let ghost t = self.entries@.take(i as int);
            assert(t.drop_last() =~= self.entries@.take(i - 1));
            let k = self.entries[i - 1].0;
            if !k.lt(*n) && !n.lt(k) {
                return Some(self.entries[i - 1].1);
            }
            i = i - 1;
        }
        proof {
            assert(self.entries@.take(0) =~= Seq::<(U256, Address)>::empty());
        }
        None
    }

    /// Records `investor` under the number `n`.
    pub fn set(&mut self, n: &U256, investor: Address)
        ensures
            final(self).investor(n@) == Some(investor),
            forall|m: nat| m != n@ ==> final(self).investor(m) == old(self).investor(m),
    {
        proof {
            lemma_investor_push(self.entries@, *n, investor);
        }
        self.entries.push((*n, investor));
    }
}

} // verus!
