use vstd::prelude::*;
use crate::types::{Address, Entry};

verus! {

/// Sum of all amounts in `s`.
pub open spec fn total(s: Seq<Entry>) -> int
    decreases s.len(),
{
    if s.len() == 0 {
        0
    } else {
        total(s.drop_last()) + s.last().amount
    }
}

/// Sum of the amounts that `s` records for account `a`.
pub open spec fn balance(s: Seq<Entry>, a: Address) -> int
    decreases s.len(),
{
    if s.len() == 0 {
        0
    } else {
        balance(s.drop_last(), a) + if s.last().account == a {
            s.last().amount as int
        } else {
            0int
        }
    }
}

/// The entries of `s` with a positive amount, in their order.
pub open spec fn payouts(s: Seq<Entry>) -> Seq<Entry>
    decreases s.len(),
{
    if s.len() == 0 {
        Seq::empty()
    } else if s.last().amount > 0 {
        payouts(s.drop_last()).push(s.last())
    } else {
        payouts(s.drop_last())
    }
}

/// `s` with every amount set to zero.
pub open spec fn zeroed(s: Seq<Entry>) -> Seq<Entry> {
    Seq::new(s.len(), |i: int| Entry { account: s[i].account, amount: 0 })
}

/// The accounts of `s`, in their order.
pub open spec fn accounts(s: Seq<Entry>) -> Seq<Address> {
    s.map_values(|e: Entry| e.account)
}

/// `s` after adding `v` to `a`'s amount: in place when `a` has an entry,
/// as a new last entry otherwise.
pub open spec fn credited(s: Seq<Entry>, a: Address, v: int) -> Seq<Entry> {
    if accounts(s).contains(a) {
        let k = accounts(s).index_of(a);
        s.update(k, Entry { account: a, amount: (s[k].amount + v) as i128 })
    } else {
        s.push(Entry { account: a, amount: v as i128 })
    }
}

/// `s` after crediting, in order, every positive entry of `o`.
pub open spec fn absorbed(s: Seq<Entry>, o: Seq<Entry>) -> Seq<Entry>
    decreases o.len(),
{
    if o.len() == 0 {
        s
    } else if o.last().amount > 0 {
        credited(absorbed(s, o.drop_last()), o.last().account, o.last().amount as int)
    } else {
        absorbed(s, o.drop_last())
    }
}

pub open spec fn unique(s: Seq<Entry>) -> bool {
    forall|i: int, j: int| 0 <= i < j < s.len() ==> s[i].account != s[j].account
}

pub open spec fn nonneg(s: Seq<Entry>) -> bool {
    forall|i: int| 0 <= i < s.len() ==> s[i].amount >= 0
}

pub open spec fn positive(s: Seq<Entry>) -> bool {
    forall|i: int| 0 <= i < s.len() ==> s[i].amount > 0
}

/// The greatest amount in `s`, or zero when none is positive.
pub open spec fn largest(s: Seq<Entry>) -> int
    decreases s.len(),
{
    if s.len() == 0 {
        0
    } else if s.last().amount > largest(s.drop_last()) {
        s.last().amount as int
    } else {
        largest(s.drop_last())
    }
}

/// `largest(s)` is zero or an amount of `s`, and no amount exceeds it.
pub proof fn lemma_largest(s: Seq<Entry>)
    ensures
        largest(s) >= 0,
        forall|i: int| 0 <= i < s.len() ==> s[i].amount <= largest(s),
        largest(s) == 0 || exists|i: int| 0 <= i < s.len() && s[i].amount == largest(s),
    decreases s.len(),
{
    if s.len() > 0 {
        let d = s.drop_last();
        lemma_largest(d);
        assert forall|i: int| #![trigger s[i]] 0 <= i < d.len() implies d[i] == s[i] by {}
        if largest(d) != 0 && largest(s) == largest(d) {
            let j = choose|j: int| 0 <= j < d.len() && d[j].amount == largest(d);
            assert(s[j].amount == largest(s));
        }
        if largest(s) == s.last().amount {
            assert(s[s.len() - 1].amount == largest(s));
        }
    }
}

pub proof fn lemma_balance_absent(s: Seq<Entry>, a: Address)
    requires
        forall|i: int| 0 <= i < s.len() ==> s[i].account != a,
    ensures
        balance(s, a) == 0,
    decreases s.len(),
{
    if s.len() > 0 {
        lemma_balance_absent(s.drop_last(), a);
    }
}

pub proof fn lemma_balance_at(s: Seq<Entry>, k: int)
    requires
        unique(s),
        0 <= k < s.len(),
    ensures
        balance(s, s[k].account) == s[k].amount,
    decreases s.len(),
{
    let d = s.drop_last();
    if k == s.len() - 1 {
        lemma_balance_absent(d, s[k].account);
    } else {
        lemma_balance_at(d, k);
    }
}

proof fn lemma_update_one(s: Seq<Entry>, k: int, v: int, x: Address)
    requires
        0 <= k < s.len(),
        i128::MIN <= v <= i128::MAX,
    ensures
        ({
            let t = s.update(k, Entry { account: s[k].account, amount: v as i128 });
            &&& total(t) == total(s) + v - s[k].amount
            &&& balance(t, x) == balance(s, x) + if x == s[k].account {
                v - s[k].amount
            } else {
                0
            }
        }),
    decreases s.len(),
{
    let e = Entry { account: s[k].account, amount: v as i128 };
    let t = s.update(k, e);
    if k == s.len() - 1 {
        assert(t.drop_last() =~= s.drop_last());
    } else {
        assert(t.drop_last() =~= s.drop_last().update(k, e));
        lemma_update_one(s.drop_last(), k, v, x);
    }
}

pub proof fn lemma_update(s: Seq<Entry>, k: int, v: int)
    requires
        0 <= k < s.len(),
        i128::MIN <= v <= i128::MAX,
    ensures
        ({
            let t = s.update(k, Entry { account: s[k].account, amount: v as i128 });
            &&& total(t) == total(s) + v - s[k].amount
            &&& forall|x: Address|
                #![trigger balance(t, x)]
                balance(t, x) == balance(s, x) + if x == s[k].account {
                    v - s[k].amount
                } else {
                    0
                }
        }),
{
    lemma_update_one(s, k, v, s[k].account);
    let t = s.update(k, Entry { account: s[k].account, amount: v as i128 });
    assert forall|x: Address| #![trigger balance(t, x)]
        balance(t, x) == balance(s, x) + if x == s[k].account { v - s[k].amount } else { 0 } by {
        lemma_update_one(s, k, v, x);
    }
}

proof fn lemma_remove_one(s: Seq<Entry>, k: int, x: Address)
    requires
        0 <= k < s.len(),
    ensures
        ({
            let t = s.remove(k);
            &&& total(t) == total(s) - s[k].amount
            &&& balance(t, x) == balance(s, x) - if x == s[k].account {
                s[k].amount as int
            } else {
                0
            }
        }),
    decreases s.len(),
{
    let t = s.remove(k);
    if k == s.len() - 1 {
        assert(t =~= s.drop_last());
    } else {
        assert(t.drop_last() =~= s.drop_last().remove(k));
        assert(t.last() == s.last());
        lemma_remove_one(s.drop_last(), k, x);
    }
}

pub proof fn lemma_remove(s: Seq<Entry>, k: int)
    requires
        0 <= k < s.len(),
    ensures
        ({
            let t = s.remove(k);
            &&& total(t) == total(s) - s[k].amount
            &&& forall|x: Address|
                #![trigger balance(t, x)]
                balance(t, x) == balance(s, x) - if x == s[k].account {
                    s[k].amount as int
                } else {
                    0
                }
        }),
{
    lemma_remove_one(s, k, s[k].account);
    let t = s.remove(k);
    assert forall|x: Address| #![trigger balance(t, x)]
        balance(t, x) == balance(s, x) - if x == s[k].account { s[k].amount as int } else { 0 } by {
        lemma_remove_one(s, k, x);
    }
}

proof fn lemma_zeroed_one(s: Seq<Entry>, x: Address)
    ensures
        total(zeroed(s)) == 0,
        balance(zeroed(s), x) == 0,
    decreases s.len(),
{
    if s.len() > 0 {
        assert(zeroed(s).drop_last() =~= zeroed(s.drop_last()));
        lemma_zeroed_one(s.drop_last(), x);
    }
}

pub proof fn lemma_zeroed(s: Seq<Entry>)
    ensures
        total(zeroed(s)) == 0,
        forall|x: Address| #![trigger balance(zeroed(s), x)] balance(zeroed(s), x) == 0,
        accounts(zeroed(s)) =~= accounts(s),
{
    assert forall|x: Address| #![trigger balance(zeroed(s), x)] balance(zeroed(s), x) == 0 by {
        lemma_zeroed_one(s, x);
    }
    if s.len() > 0 {
        lemma_zeroed_one(s, s[0].account);
    }
    assert(total(zeroed(s)) == 0) by {
        lemma_zeroed_one(s, Address(0));
    }
}

proof fn lemma_payouts_one(s: Seq<Entry>, x: Address)
    requires
        nonneg(s),
    ensures
        total(payouts(s)) == total(s),
        balance(payouts(s), x) == balance(s, x),
        positive(payouts(s)),
    decreases s.len(),
{
    if s.len() > 0 {
        let d = s.drop_last();
        lemma_payouts_one(d, x);
        if s.last().amount > 0 {
            assert(payouts(s).drop_last() =~= payouts(d));
        }
    }
}

pub proof fn lemma_payouts(s: Seq<Entry>)
    requires
        nonneg(s),
    ensures
        total(payouts(s)) == total(s),
        forall|x: Address| #![trigger balance(payouts(s), x)] balance(payouts(s), x) == balance(s, x),
        positive(payouts(s)),
{
    lemma_payouts_one(s, Address(0));
    assert forall|x: Address| #![trigger balance(payouts(s), x)] balance(payouts(s), x) == balance(s, x) by {
        lemma_payouts_one(s, x);
    }
}

proof fn lemma_bounds_one(s: Seq<Entry>, x: Address)
    requires
        nonneg(s),
    ensures
        0 <= total(s),
        0 <= balance(s, x) <= total(s),
    decreases s.len(),
{
    if s.len() > 0 {
        lemma_bounds_one(s.drop_last(), x);
    }
}

pub proof fn lemma_bounds(s: Seq<Entry>)
    requires
        nonneg(s),
    ensures
        0 <= total(s),
        forall|x: Address| #![trigger balance(s, x)] 0 <= balance(s, x) <= total(s),
{
    lemma_bounds_one(s, Address(0));
    assert forall|x: Address| #![trigger balance(s, x)] 0 <= balance(s, x) <= total(s) by {
        lemma_bounds_one(s, x);
    }
}

pub proof fn lemma_prefix_total(s: Seq<Entry>, i: int)
    requires
        nonneg(s),
        0 <= i <= s.len(),
    ensures
        0 <= total(s.subrange(0, i)) <= total(s),
    decreases s.len(),
{
    lemma_bounds(s.subrange(0, i));
    if i < s.len() {
        assert(s.drop_last().subrange(0, i) =~= s.subrange(0, i));
        lemma_prefix_total(s.drop_last(), i);
    } else {
        assert(s.subrange(0, i) =~= s);
    }
}

pub proof fn lemma_prefix_step(s: Seq<Entry>, i: int)
    requires
        0 <= i < s.len(),
    ensures
        s.subrange(0, i + 1).drop_last() =~= s.subrange(0, i),
        s.subrange(0, i + 1).last() == s[i],
{
}

/// An insertion-ordered record of amounts per account, one entry per account.
pub struct Ledger {
    pub entries: Vec<Entry>,
}

impl View for Ledger {
    type V = Seq<Entry>;

    open spec fn view(&self) -> Seq<Entry> {
        self.entries@
    }
}

impl Ledger {
    /// Well formed: one entry per account, no negative amount.
    pub open spec fn wf(&self) -> bool {
        unique(self@) && nonneg(self@)
    }

    /// What the ledger records for `a`: zero for an account it does not hold.
    pub open spec fn spec_balance(&self, a: Address) -> int {
        balance(self@, a)
    }

    pub open spec fn holds(&self, a: Address) -> bool {
        accounts(self@).contains(a)
    }

    pub fn new() -> (r: Ledger)
        ensures
            r@ == Seq::<Entry>::empty(),
            r.wf(),
    {
        Ledger { entries: Vec::new() }
    }

    pub fn len(&self) -> (r: usize)
        ensures
            r == self@.len(),
    {
        self.entries.len()
    }

    /// The index of `a`'s entry, if it has one.
    pub fn position(&self, a: Address) -> (r: Option<usize>)
        ensures
            match r {
                Some(k) => k < self@.len() && self@[k as int].account == a,
                None => forall|i: int| 0 <= i < self@.len() ==> self@[i].account != a,
            },
    {
        let n = self.entries.len();
        let mut i: usize = 0;
        while i < n
            invariant
                n == self@.len(),
                i <= n,
                forall|j: int| 0 <= j < i ==> self@[j].account != a,
            decreases n - i,
        {
            if self.entries[i].account == a {
                return Some(i);
            }
            i = i + 1;
        }
        None
    }

    /// The amount recorded for `a`, zero when there is none.
    pub fn balance_of(&self, a: Address) -> (r: i128)
        requires
            self.wf(),
        ensures
            r == self.spec_balance(a),
            r >= 0,
    {
        match self.position(a) {
            Some(k) => {
                proof {
                    lemma_balance_at(self@, k as int);
                }
                self.entries[k].amount
            },
            None => {
                proof {
                    lemma_balance_absent(self@, a);
                }
                0
            },
        }
    }

    /// Adds `v` to `a`'s amount, opening an entry for `a` at the end if it has none.
    pub fn credit(&mut self, a: Address, v: i128)
        requires
            old(self).wf(),
            v >= 0,
            old(self).spec_balance(a) + v <= i128::MAX,
        ensures
            final(self).wf(),
            final(self)@ == credited(old(self)@, a, v as int),
            total(final(self)@) == total(old(self)@) + v,
            forall|x: Address|
                #![trigger final(self).spec_balance(x)]
                final(self).spec_balance(x) == old(self).spec_balance(x) + if x == a {
                    v as int
                } else {
                    0
                },
            accounts(final(self)@) == if old(self).holds(a) {
                accounts(old(self)@)
            } else {
                accounts(old(self)@).push(a)
            },
            positive(old(self)@) && v > 0 ==> positive(final(self)@),
    {
        match self.position(a) {
            Some(k) => {
                let ghost s = self@;
                proof {
                    lemma_balance_at(s, k as int);
                    lemma_update(s, k as int, s[k as int].amount + v);
                }
                let cur = self.entries[k].amount;
                self.entries.set(k, Entry { account: a, amount: cur + v });
                proof {
                    assert(self@ == s.update(k as int, Entry { account: a, amount: (cur + v) as i128 }));
                    assert(accounts(self@) =~= accounts(s));
                    assert(accounts(s)[k as int] == a);
                    let j = accounts(s).index_of(a);
                    assert(s[j].account == a);
                    assert(j == k);
                }
            },
            None => {
                let ghost s = self@;
                self.entries.push(Entry { account: a, amount: v });
                proof {
                    assert(self@.drop_last() =~= s);
                    assert(accounts(self@) =~= accounts(s).push(a));
                    assert(!accounts(s).contains(a)) by {
                        if accounts(s).contains(a) {
                            let j = accounts(s).index_of(a);
                            assert(s[j].account == a);
                        }
                    }
                }
            },
        }
    }

    /// Removes `a`'s entry and returns its amount, zero when there is none.
    pub fn take(&mut self, a: Address) -> (r: i128)
        requires
            old(self).wf(),
        ensures
            final(self).wf(),
            r == old(self).spec_balance(a),
            total(final(self)@) == total(old(self)@) - r,
            forall|x: Address|
                #![trigger final(self).spec_balance(x)]
                final(self).spec_balance(x) == if x == a {
                    0
                } else {
                    old(self).spec_balance(x)
                },
            !final(self).holds(a),
            forall|x: Address| x != a ==> (final(self).holds(x) <==> old(self).holds(x)),
            positive(old(self)@) ==> positive(final(self)@),
    {
        let ghost s = self@;
        match self.position(a) {
            Some(k) => {
                proof {
                    lemma_balance_at(s, k as int);
                    lemma_remove(s, k as int);
                }
                let amount = self.entries.remove(k);
                let r = amount.amount;
                proof {
                    let t = self@;
                    assert(t == s.remove(k as int));
                    lemma_balance_absent(t, a);
                    assert forall|x: Address| x != a implies (accounts(t).contains(x) <==> accounts(s).contains(x)) by {
                        if accounts(t).contains(x) {
                            let j = accounts(t).index_of(x);
                            if j < k {
                                assert(accounts(s)[j] == x);
                            } else {
                                assert(accounts(s)[j + 1] == x);
                            }
                        }
                        if accounts(s).contains(x) {
                            let j = accounts(s).index_of(x);
                            if j < k {
                                assert(accounts(t)[j] == x);
                            } else {
                                assert(j != k);
                                assert(accounts(t)[j - 1] == x);
                            }
                        }
                    }
                    if accounts(t).contains(a) {
                        let j = accounts(t).index_of(a);
                        assert(t[j].account == a);
                    }
                }
                r
            },
            None => {
                proof {
                    lemma_balance_absent(s, a);
                    if accounts(s).contains(a) {
                        let j = accounts(s).index_of(a);
                        assert(s[j].account == a);
                    }
                }
                0
            },
        }
    }

    /// Takes `v` from `a`'s amount, and removes `a`'s entry when nothing is left.
    pub fn debit(&mut self, a: Address, v: i128)
        requires
            old(self).wf(),
            0 < v <= old(self).spec_balance(a),
        ensures
            final(self).wf(),
            total(final(self)@) == total(old(self)@) - v,
            forall|x: Address|
                #![trigger final(self).spec_balance(x)]
                final(self).spec_balance(x) == old(self).spec_balance(x) - if x == a {
                    v as int
                } else {
                    0
                },
            final(self).holds(a) <==> final(self).spec_balance(a) > 0,
            forall|x: Address| x != a ==> (final(self).holds(x) <==> old(self).holds(x)),
            positive(old(self)@) ==> positive(final(self)@),
    {
        let cur = self.balance_of(a);
        if cur == v {
            let _ = self.take(a);
        } else {
            let ghost s = self@;
            match self.position(a) {
                Some(k) => {
                    proof {
                        lemma_balance_at(s, k as int);
                        lemma_update(s, k as int, cur - v);
                    }
                    self.entries.set(k, Entry { account: a, amount: cur - v });
                    proof {
                        assert(accounts(self@) =~= accounts(s));
                        assert(accounts(s)[k as int] == a);
                        assert(accounts(self@)[k as int] == a);
                    }
                },
                None => {
                    proof {
                        lemma_balance_absent(s, a);
                    }
                },
            }
        }
    }

    /// Sets every amount to zero, keeping the accounts, and returns the positive
    /// entries as they were.
    pub fn drain(&mut self) -> (r: Vec<Entry>)
        requires
            old(self).wf(),
        ensures
            r@ == payouts(old(self)@),
            final(self)@ == zeroed(old(self)@),
            final(self).wf(),
    {
        let ghost s = self@;
        let n = self.entries.len();
        let mut out: Vec<Entry> = Vec::new();
        let mut i: usize = 0;
        while i < n
            invariant
                n == s.len(),
                i <= n,
                self@.len() == n,
                forall|j: int| 0 <= j < i ==> self@[j] == (Entry { account: s[j].account, amount: 0 }),
                forall|j: int| i <= j < n ==> self@[j] == s[j],
                out@ == payouts(s.subrange(0, i as int)),
            decreases n - i,
        {
            proof {
                lemma_prefix_step(s, i as int);
            }
            let e = self.entries[i];
            if e.amount > 0 {
                out.push(e);
            }
            self.entries.set(i, Entry { account: e.account, amount: 0 });
            i = i + 1;
        }
        proof {
            assert(s.subrange(0, n as int) =~= s);
            assert(self@ =~= zeroed(s));
        }
        out
    }

    /// The greatest amount, zero when none is positive.
    pub fn largest(&self) -> (r: i128)
        ensures
            r == largest(self@),
    {
        let n = self.entries.len();
        let mut best: i128 = 0;
        let mut i: usize = 0;
        while i < n
            invariant
                n == self@.len(),
                i <= n,
                best == largest(self@.subrange(0, i as int)),
            decreases n - i,
        {
            proof {
                lemma_prefix_step(self@, i as int);
            }
            if self.entries[i].amount > best {
                best = self.entries[i].amount;
            }
            i = i + 1;
        }
        proof {
            assert(self@.subrange(0, n as int) =~= self@);
        }
        best
    }

    /// Adds every amount of `other` to this ledger, in `other`'s order, and
    /// returns `other`'s positive entries.
    pub fn absorb(&mut self, other: &Ledger) -> (r: Vec<Entry>)
        requires
            old(self).wf(),
            other.wf(),
            total(old(self)@) + total(other@) <= i128::MAX,
        ensures
            final(self).wf(),
            r@ == payouts(other@),
            final(self)@ == absorbed(old(self)@, other@),
            total(final(self)@) == total(old(self)@) + total(other@),
            forall|x: Address|
                #![trigger final(self).spec_balance(x)]
                final(self).spec_balance(x) == old(self).spec_balance(x) + balance(other@, x),
            positive(old(self)@) ==> positive(final(self)@),
    {
        let ghost s0 = self@;
        let ghost o = other@;
        let n = other.entries.len();
        let mut out: Vec<Entry> = Vec::new();
        let mut i: usize = 0;
        while i < n
            invariant
                n == o.len(),
                o == other@,
                other.wf(),
                i <= n,
                self.wf(),
                total(s0) + total(o) <= i128::MAX,
                total(self@) == total(s0) + total(o.subrange(0, i as int)),
                forall|x: Address|
                    #![trigger balance(self@, x)]
                    balance(self@, x) == balance(s0, x) + balance(o.subrange(0, i as int), x),
                positive(s0) ==> positive(self@),
                out@ == payouts(o.subrange(0, i as int)),
                self@ == absorbed(s0, o.subrange(0, i as int)),
            decreases n - i,
        {
            proof {
                lemma_prefix_step(o, i as int);
                lemma_prefix_total(o, i + 1);
                lemma_bounds(self@);
            }
            let e = other.entries[i];
            let ghost prev = self@;
            if e.amount > 0 {
                self.credit(e.account, e.amount);
                out.push(e);
            }
            proof {
                let p1 = o.subrange(0, i + 1);
                assert forall|x: Address| #![trigger balance(self@, x)]
                    balance(self@, x) == balance(s0, x) + balance(p1, x) by {
                    assert(balance(p1, x) == balance(o.subrange(0, i as int), x) + if e.account == x {
                        e.amount as int
                    } else {
                        0int
                    });
                    if e.amount > 0 {
                        assert(self.spec_balance(x) == balance(prev, x) + if x == e.account {
                            e.amount as int
                        } else {
                            0
                        });
                    }
                }
            }
            i = i + 1;
        }
        proof {
            assert(o.subrange(0, n as int) =~= o);
        }
        out
    }
}

} // verus!
