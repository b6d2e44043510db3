//! The engine's persistent state as one value: the admin, the registry of
//! components in ascending key order, and the withdrawal taxes accrued per
//! asset key.
use vstd::prelude::*;

use crate::error::{ContractError, StdError};
use crate::order::{key_less, key_lt, lemma_key_lt_irreflexive, lemma_key_lt_total, lemma_key_lt_transitive};
use crate::state::{Component, State};

verus! {

/// Taxes withheld on withdrawals of the asset with key `key`, not yet paid
/// to the admin.
#[derive(Debug, PartialEq, Eq)]
pub struct TaxAccrual {
    pub key: String,
    pub amount: u128,
}

/// The components are in strictly ascending key order, so no key occurs twice.
pub open spec fn sorted_by_key(cs: Seq<Component>) -> bool {
    forall|i: int, j: int|
        #![trigger cs[i], cs[j]]
        0 <= i < j < cs.len() ==> key_lt(cs[i].spec_key(), cs[j].spec_key())
}

/// The component registered under key `k`, if any.
pub open spec fn lookup(cs: Seq<Component>, k: Seq<char>) -> Option<Component> {
    if exists|i: int| 0 <= i < cs.len() && (#[trigger] cs[i]).spec_key() == k {
        Some(cs[choose|i: int| 0 <= i < cs.len() && (#[trigger] cs[i]).spec_key() == k])
    } else {
        None
    }
}

/// No two accruals share a key.
pub open spec fn unique_keys(ts: Seq<TaxAccrual>) -> bool {
    forall|i: int, j: int|
        #![trigger ts[i], ts[j]]
        0 <= i < ts.len() && 0 <= j < ts.len() && i != j ==> ts[i].key@ != ts[j].key@
}

/// The taxes accrued under key `k`, if any.
pub open spec fn accrued(ts: Seq<TaxAccrual>, k: Seq<char>) -> Option<u128> {
    if exists|i: int| 0 <= i < ts.len() && (#[trigger] ts[i]).key@ == k {
        Some(ts[choose|i: int| 0 <= i < ts.len() && (#[trigger] ts[i]).key@ == k].amount)
    } else {
        None
    }
}

/// In a sorted registry the component at `i` is the one found under its key.
pub proof fn lemma_lookup_at(cs: Seq<Component>, i: int)
    requires
        sorted_by_key(cs),
        0 <= i < cs.len(),
    ensures
        lookup(cs, cs[i].spec_key()) == Some(cs[i]),
{
    let k = cs[i].spec_key();
    assert(exists|j: int| 0 <= j < cs.len() && (#[trigger] cs[j]).spec_key() == k);
    let j = choose|j: int| 0 <= j < cs.len() && (#[trigger] cs[j]).spec_key() == k;
    lemma_key_lt_irreflexive(k);
    if j < i {
        assert(key_lt(cs[j].spec_key(), cs[i].spec_key()));
    } else if i < j {
        assert(key_lt(cs[i].spec_key(), cs[j].spec_key()));
    }
}

/// With unique keys the accrual at `i` is the one found under its key.
pub proof fn lemma_accrued_at(ts: Seq<TaxAccrual>, i: int)
    requires
        unique_keys(ts),
        0 <= i < ts.len(),
    ensures
        accrued(ts, ts[i].key@) == Some(ts[i].amount),
{
    let k = ts[i].key@;
    assert(exists|j: int| 0 <= j < ts.len() && (#[trigger] ts[j]).key@ == k);
    let j = choose|j: int| 0 <= j < ts.len() && (#[trigger] ts[j]).key@ == k;
    if j != i {
        assert(ts[i].key@ != ts[j].key@);
    }
}

/// When every accrual under a key other than `key` is carried over from `ts`
/// to `ns` and back, the taxes found under those keys are the same in both.
proof fn lemma_accrued_frame(ts: Seq<TaxAccrual>, ns: Seq<TaxAccrual>, key: Seq<char>)
    requires
        unique_keys(ts),
        unique_keys(ns),
        forall|j: int|
            0 <= j < ts.len() && (#[trigger] ts[j]).key@ != key ==> exists|m: int|
                0 <= m < ns.len() && (#[trigger] ns[m]) == ts[j],
        forall|m: int|
            0 <= m < ns.len() && (#[trigger] ns[m]).key@ != key ==> exists|j: int|
                0 <= j < ts.len() && (#[trigger] ts[j]) == ns[m],
    ensures
        forall|k: Seq<char>| k != key ==> accrued(ns, k) == accrued(ts, k),
{
    assert forall|k: Seq<char>| k != key implies accrued(ns, k) == accrued(ts, k) by {
        if exists|j: int| 0 <= j < ts.len() && (#[trigger] ts[j]).key@ == k {
            let j = choose|j: int| 0 <= j < ts.len() && (#[trigger] ts[j]).key@ == k;
            lemma_accrued_at(ts, j);
            let m = choose|m: int| 0 <= m < ns.len() && (#[trigger] ns[m]) == ts[j];
            lemma_accrued_at(ns, m);
        } else if exists|m: int| 0 <= m < ns.len() && (#[trigger] ns[m]).key@ == k {
            let m = choose|m: int| 0 <= m < ns.len() && (#[trigger] ns[m]).key@ == k;
            let j = choose|j: int| 0 <= j < ts.len() && (#[trigger] ts[j]) == ns[m];
            assert(ts[j].key@ == k);
        }
    }
}

/// The abstract content of a store.
pub struct StoreView {
    pub admin: Seq<char>,
    pub components: Seq<Component>,
    pub taxes: Seq<TaxAccrual>,
}

/// The engine's persistent state.
pub struct Store {
    state: State,
    components: Vec<Component>,
    withdrawal_taxes: Vec<TaxAccrual>,
}

impl View for Store {
    type V = StoreView;

    closed spec fn view(&self) -> StoreView {
        StoreView { admin: self.state.admin@, components: self.components@, taxes: self.withdrawal_taxes@ }
    }
}

impl Store {
    /// The registry is ordered by key and no asset key has two accruals.
    pub open spec fn wf(&self) -> bool {
        sorted_by_key(self@.components) && unique_keys(self@.taxes)
    }

    /// A store with the given admin, no components and no accrued taxes.
    pub fn new(admin: String) -> (r: Store)
        ensures
            r.wf(),
            r@.admin == admin@,
            r@.components.len() == 0,
            r@.taxes.len() == 0,
    {
        Store { state: State { admin }, components: Vec::new(), withdrawal_taxes: Vec::new() }
    }

    /// The engine's settings.
    pub fn state(&self) -> (r: &State)
        ensures
            r.admin@ == self@.admin,
    {
        &self.state
    }

    /// All registered components, in ascending key order.
    pub fn components(&self) -> (r: &Vec<Component>)
        ensures
            r@ == self@.components,
    {
        &self.components
    }

    /// The position of the component registered under `key`.
    fn find_component(&self, key: &String) -> (r: Option<usize>)
        requires
            self.wf(),
        ensures
            match r {
                Some(i) => i < self@.components.len() && self@.components[i as int].spec_key() == key@,
                None => lookup(self@.components, key@) is None,
            },
    {
        let n = self.components.len();
        let mut i: usize = 0;
        while i < n
            invariant
                n == self.components@.len(),
                i <= n,
                forall|j: int| 0 <= j < i ==> (#[trigger] self.components@[j]).spec_key() != key@,
            decreases n - i,
        {
            let k = self.components[i].token.key();
            if k == *key {
                return Some(i);
            }
            i = i + 1;
        }
        None
    }

    /// The component registered under `key`, if any.
    pub fn component(&self, key: &String) -> (r: Option<Component>)
        requires
            self.wf(),
        ensures
            r == lookup(self@.components, key@),
    {
        match self.find_component(key) {
            Some(i) => {
                proof {
                    lemma_lookup_at(self@.components, i as int);
                }
                Some(self.components[i].clone())
            },
            None => None,
        }
    }

    /// Registers `c`, whose key is not registered yet, at its place in key
    /// order.
    pub fn insert_component(&mut self, c: Component)
        requires
            old(self).wf(),
            lookup(old(self)@.components, c.spec_key()) is None,
        ensures
            final(self).wf(),
            final(self)@.admin == old(self)@.admin,
            final(self)@.taxes == old(self)@.taxes,
            exists|p: int|
                0 <= p <= old(self)@.components.len() && final(self)@.components == old(
                    self,
                )@.components.insert(p, c),
    {
        let key = c.token.key();
        let n = self.components.len();
        let mut p: usize = 0;
        while p < n
            invariant
                n == self.components@.len(),
                p <= n,
                key@ == c.spec_key(),
                forall|j: int| 0 <= j < p ==> key_lt((#[trigger] self.components@[j]).spec_key(), key@),
            ensures
                p <= n,
                p < n ==> !key_lt(self.components@[p as int].spec_key(), key@),
                forall|j: int| 0 <= j < p ==> key_lt((#[trigger] self.components@[j]).spec_key(), key@),
            decreases n - p,
        {
            let kp = self.components[p].token.key();
            if !key_less(kp.as_str(), key.as_str()) {
                break;
            }
            p = p + 1;
        }
        let ghost cs = self.components@;
        proof {
            if p < n {
                assert(!key_lt(cs[p as int].spec_key(), key@));
                if cs[p as int].spec_key() == key@ {
                    assert(exists|i: int| 0 <= i < cs.len() && (#[trigger] cs[i]).spec_key() == key@);
                }
                lemma_key_lt_total(cs[p as int].spec_key(), key@);
            }
        }
        self.components.insert(p, c);
        proof {
            let ns = self.components@;
            assert forall|i: int, j: int| 0 <= i < j < ns.len() implies key_lt(
                (#[trigger] ns[i]).spec_key(),
                (#[trigger] ns[j]).spec_key(),
            ) by {
                if j < p {
                } else if j == p {
                } else if i < p {
                    lemma_key_lt_transitive(ns[i].spec_key(), key@, cs[p as int].spec_key());
                    if j - 1 > p {
                        assert(key_lt(cs[p as int].spec_key(), cs[j - 1].spec_key()));
                        lemma_key_lt_transitive(ns[i].spec_key(), cs[p as int].spec_key(), ns[j].spec_key());
                    }
                } else if i == p {
                    if j - 1 > p {
                        assert(key_lt(cs[p as int].spec_key(), cs[j - 1].spec_key()));
                        lemma_key_lt_transitive(key@, cs[p as int].spec_key(), ns[j].spec_key());
                    }
                } else {
                    assert(key_lt(cs[i - 1].spec_key(), cs[j - 1].spec_key()));
                }
            }
            assert(self@.components == cs.insert(p as int, c));
        }
    }

    /// All accrued taxes, one entry per asset key.
    pub fn withdrawal_taxes(&self) -> (r: &Vec<TaxAccrual>)
        ensures
            r@ == self@.taxes,
    {
        &self.withdrawal_taxes
    }

    /// The position of the accrual under `key`.
    fn find_tax(&self, key: &String) -> (r: Option<usize>)
        requires
            self.wf(),
        ensures
            match r {
                Some(i) => i < self@.taxes.len() && self@.taxes[i as int].key@ == key@,
                None => accrued(self@.taxes, key@) is None,
            },
    {
        let n = self.withdrawal_taxes.len();
        let mut i: usize = 0;
        while i < n
            invariant
                n == self.withdrawal_taxes@.len(),
                i <= n,
                forall|j: int| 0 <= j < i ==> (#[trigger] self.withdrawal_taxes@[j]).key@ != key@,
            decreases n - i,
        {
            if self.withdrawal_taxes[i].key == *key {
                return Some(i);
            }
            i = i + 1;
        }
        None
    }

    /// The taxes accrued under `key`, if any.
    pub fn withdrawal_tax(&self, key: &String) -> (r: Option<u128>)
        requires
            self.wf(),
        ensures
            r == accrued(self@.taxes, key@),
    {
        match self.find_tax(key) {
            Some(i) => {
                proof {
                    lemma_accrued_at(self@.taxes, i as int);
                }
                Some(self.withdrawal_taxes[i].amount)
            },
            None => None,
        }
    }

    /// Records `amount` as the taxes accrued under `key`, replacing any
    /// earlier amount.
    pub fn save_withdrawal_tax(&mut self, key: String, amount: u128)
        requires
            old(self).wf(),
        ensures
            final(self).wf(),
            final(self)@.admin == old(self)@.admin,
            final(self)@.components == old(self)@.components,
            accrued(final(self)@.taxes, key@) == Some(amount),
            forall|k: Seq<char>| k != key@ ==> accrued(final(self)@.taxes, k) == accrued(old(self)@.taxes, k),
    {
        let ghost ts = self.withdrawal_taxes@;
        let ghost kv = key@;
        match self.find_tax(&key) {
            Some(i) => {
                self.withdrawal_taxes.set(i, TaxAccrual { key, amount });
                proof {
                    let ns = self.withdrawal_taxes@;
                    assert forall|a: int, b: int| 0 <= a < ns.len() && 0 <= b < ns.len() && a != b implies (
                    #[trigger] ns[a]).key@ != (#[trigger] ns[b]).key@ by {
                        assert(ts[a].key@ != ts[b].key@);
                    }
                    lemma_accrued_at(ns, i as int);
                    assert forall|j: int| 0 <= j < ts.len() && (#[trigger] ts[j]).key@ != kv implies exists|m: int|
                        0 <= m < ns.len() && (#[trigger] ns[m]) == ts[j] by {
                        assert(ns[j] == ts[j]);
                    }
                    assert forall|m: int| 0 <= m < ns.len() && (#[trigger] ns[m]).key@ != kv implies exists|j: int|
                        0 <= j < ts.len() && (#[trigger] ts[j]) == ns[m] by {
                        assert(ts[m] == ns[m]);
                    }
                    lemma_accrued_frame(ts, ns, kv);
                }
            },
            None => {
                self.withdrawal_taxes.push(TaxAccrual { key, amount });
                proof {
                    let ns = self.withdrawal_taxes@;
                    assert forall|a: int, b: int| 0 <= a < ns.len() && 0 <= b < ns.len() && a != b implies (
                    #[trigger] ns[a]).key@ != (#[trigger] ns[b]).key@ by {
                        if a < ts.len() && b < ts.len() {
                            assert(ts[a].key@ != ts[b].key@);
                        } else if a < ts.len() {
                            assert(ts[a] == ns[a]);
                        } else {
                            assert(ts[b] == ns[b]);
                        }
                    }
                    lemma_accrued_at(ns, ts.len() as int);
                    assert forall|j: int| 0 <= j < ts.len() && (#[trigger] ts[j]).key@ != kv implies exists|m: int|
                        0 <= m < ns.len() && (#[trigger] ns[m]) == ts[j] by {
                        assert(ns[j] == ts[j]);
                    }
                    assert forall|m: int| 0 <= m < ns.len() && (#[trigger] ns[m]).key@ != kv implies exists|j: int|
                        0 <= j < ts.len() && (#[trigger] ts[j]) == ns[m] by {
                        assert(ts[m] == ns[m]);
                    }
                    lemma_accrued_frame(ts, ns, kv);
                }
            },
        }
    }

    /// Removes and returns the taxes accrued under `key`, if any.
    pub fn take_withdrawal_tax(&mut self, key: &String) -> (r: Option<u128>)
        requires
            old(self).wf(),
        ensures
            final(self).wf(),
            r == accrued(old(self)@.taxes, key@),
            r is None ==> final(self)@ == old(self)@,
            final(self)@.admin == old(self)@.admin,
            final(self)@.components == old(self)@.components,
            accrued(final(self)@.taxes, key@) is None,
            forall|k: Seq<char>| k != key@ ==> accrued(final(self)@.taxes, k) == accrued(old(self)@.taxes, k),
    {
        let ghost ts = self.withdrawal_taxes@;
        match self.find_tax(key) {
            Some(i) => {
                proof {
                    lemma_accrued_at(ts, i as int);
                }
                let t = self.withdrawal_taxes.remove(i);
                proof {
                    let ns = self.withdrawal_taxes@;
                    assert forall|a: int, b: int| 0 <= a < ns.len() && 0 <= b < ns.len() && a != b implies (
                    #[trigger] ns[a]).key@ != (#[trigger] ns[b]).key@ by {
                        let a0 = if a < i { a } else { a + 1 };
                        let b0 = if b < i { b } else { b + 1 };
                        assert(ns[a] == ts[a0] && ns[b] == ts[b0]);
                        assert(ts[a0].key@ != ts[b0].key@);
                    }
                    assert(!exists|j: int| 0 <= j < ns.len() && (#[trigger] ns[j]).key@ == key@) by {
                        if exists|j: int| 0 <= j < ns.len() && (#[trigger] ns[j]).key@ == key@ {
                            let j = choose|j: int| 0 <= j < ns.len() && (#[trigger] ns[j]).key@ == key@;
                            let j0 = if j < i { j } else { j + 1 };
                            assert(ns[j] == ts[j0]);
                            assert(ts[j0].key@ != ts[i as int].key@);
                        }
                    }
                    assert forall|j: int| 0 <= j < ts.len() && (#[trigger] ts[j]).key@ != key@ implies exists|m: int|
                        0 <= m < ns.len() && (#[trigger] ns[m]) == ts[j] by {
                        let m = if j < i { j } else { j - 1 };
                        assert(ns[m] == ts[j]);
                    }
                    assert forall|m: int| 0 <= m < ns.len() && (#[trigger] ns[m]).key@ != key@ implies exists|j: int|
                        0 <= j < ts.len() && (#[trigger] ts[j]) == ns[m] by {
                        let j = if m < i { m } else { m + 1 };
                        assert(ts[j] == ns[m]);
                    }
                    lemma_accrued_frame(ts, ns, key@);
                }
                Some(t.amount)
            },
            None => None,
        }
    }

    /// Makes `admin` the admin.
    pub fn set_admin(&mut self, admin: String)
        ensures
            final(self)@.admin == admin@,
            final(self)@.components == old(self)@.components,
            final(self)@.taxes == old(self)@.taxes,
    {
        self.state.admin = admin;
    }
}

} // verus!
