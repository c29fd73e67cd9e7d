//! A registry of records keyed by a string, with at most one record per key
//! and the records kept in registry order.

use vstd::prelude::*;
use crate::types::{str_eq, AgentId};

verus! {

/// A record with a string key and the worker it belongs to.
pub trait Keyed {
    spec fn key(&self) -> Seq<char>;

    spec fn agent_of(&self) -> AgentId;

    fn key_str(&self) -> (r: &str)
        ensures
            r@ == self.key(),
    ;

    fn agent(&self) -> (r: AgentId)
        ensures
            r == self.agent_of(),
    ;
}

/// Whether some record of `s` has key `p`.
pub open spec fn key_registered<T: Keyed>(s: Seq<T>, p: Seq<char>) -> bool {
    exists|i: int| 0 <= i < s.len() && (#[trigger] s[i]).key() == p
}

/// No two records of `s` have the same key.
pub open spec fn keys_unique<T: Keyed>(s: Seq<T>) -> bool {
    forall|i: int, j: int|
        0 <= i < s.len() && 0 <= j < s.len() && (#[trigger] s[i]).key() == (#[trigger] s[j]).key()
            ==> i == j
}

/// The registry as a map from key to its record.
pub open spec fn registry_map<T: Keyed>(s: Seq<T>) -> Map<Seq<char>, T> {
    Map::new(
        |p: Seq<char>| key_registered(s, p),
        |p: Seq<char>| s[choose|i: int| 0 <= i < s.len() && (#[trigger] s[i]).key() == p],
    )
}

/// In a registry without duplicate keys, the map entry of a record's key is
/// that record.
pub proof fn lemma_map_entry<T: Keyed>(s: Seq<T>, i: int)
    requires
        keys_unique(s),
        0 <= i < s.len(),
    ensures
        registry_map(s).contains_key(s[i].key()),
        registry_map(s)[s[i].key()] == s[i],
{
    let p = s[i].key();
    assert(key_registered(s, p));
    let j = choose|j: int| 0 <= j < s.len() && (#[trigger] s[j]).key() == p;
    assert(j == i);
}

/// Whether some record of the map belongs to `agent`.
pub open spec fn has_agent_record<T: Keyed>(m: Map<Seq<char>, T>, agent: AgentId) -> bool {
    exists|k: Seq<char>| m.contains_key(k) && (#[trigger] m[k]).agent_of() == agent
}

/// The records of `agent` listed in registry order are there exactly when the
/// map holds one of them.
pub proof fn lemma_agent_records_nonempty<T: Keyed>(s: Seq<T>, agent: AgentId)
    requires
        keys_unique(s),
    ensures
        (s.filter(|o: T| o.agent_of() == agent).len() > 0) == has_agent_record(registry_map(s), agent),
{
    let pred = |o: T| o.agent_of() == agent;
    let f = s.filter(pred);
    s.filter_lemma(pred);
    if f.len() > 0 {
        let x = f[0];
        assert(f.contains(x));
        s.lemma_filter_contains_rev(pred, x);
        let j = choose|j: int| 0 <= j < s.len() && s[j] == x;
        lemma_map_entry(s, j);
        assert(registry_map(s)[s[j].key()].agent_of() == agent);
    }
    if has_agent_record(registry_map(s), agent) {
        let k = choose|k: Seq<char>|
            registry_map(s).contains_key(k) && (#[trigger] registry_map(s)[k]).agent_of() == agent;
        let j = choose|j: int| 0 <= j < s.len() && (#[trigger] s[j]).key() == k;
        lemma_map_entry(s, j);
        assert(pred(s[j]));
        assert(f.contains(s[j]));
    }
}

/// Records keyed by string, at most one per key.
pub struct Registry<T> {
    items: Vec<T>,
}

impl<T: Keyed> View for Registry<T> {
    type V = Map<Seq<char>, T>;

    open spec fn view(&self) -> Map<Seq<char>, T> {
        registry_map(self.entries())
    }
}

impl<T: Keyed> Registry<T> {
    /// The records in registry order.
    pub closed spec fn entries(&self) -> Seq<T> {
        self.items@
    }

    pub open spec fn wf(&self) -> bool {
        keys_unique(self.entries())
    }

    pub fn new() -> (r: Self)
        ensures
            r.wf(),
            r.entries() == Seq::<T>::empty(),
            r@ == Map::<Seq<char>, T>::empty(),
    {
        let r = Registry { items: Vec::new() };
        assert(r@ =~= Map::<Seq<char>, T>::empty());
        r
    }

    /// The position of the record with key `key`, if any.
    pub fn position(&self, key: &str) -> (r: Option<usize>)
        ensures
            match r {
                Some(i) => i < self.entries().len() && self.entries()[i as int].key() == key@,
                None => !key_registered(self.entries(), key@),
            },
    {
        let mut i: usize = 0;
        while i < self.items.len()
            invariant
                i <= self.entries().len(),
                forall|k: int| 0 <= k < i ==> (#[trigger] self.entries()[k]).key() != key@,
            decreases self.entries().len() - i,
        {
            if str_eq(self.items[i].key_str(), key) {
                return Some(i);
            }
            i = i + 1;
        }
        None
    }

    /// The record with key `key`, if any.
    pub fn lookup(&self, key: &str) -> (r: Option<&T>)
        requires
            self.wf(),
        ensures
            match r {
                Some(o) => self@.contains_key(key@) && *o == self@[key@],
                None => !self@.contains_key(key@),
            },
    {
        match self.position(key) {
            Some(i) => {
                proof {
                    lemma_map_entry(self.entries(), i as int);
                }
                Some(&self.items[i])
            },
            None => None,
        }
    }

    /// Inserts a record, replacing the one with the same key.
    pub fn register(&mut self, item: T)
        requires
            old(self).wf(),
        ensures
            final(self).wf(),
            final(self)@ == old(self)@.insert(item.key(), item),
    {
        let ghost p = item.key();
        let ghost s0 = self.entries();
        match self.position(item.key_str()) {
            Some(i) => {
                self.items.set(i, item);
                let ghost s1 = self.entries();
                assert(s1 == s0.update(i as int, item));
                assert(keys_unique(s1)) by {
                    assert forall|a: int, b: int|
                        0 <= a < s1.len() && 0 <= b < s1.len() && (#[trigger] s1[a]).key()
                            == (#[trigger] s1[b]).key() implies a == b by {
                        if a != i as int && b != i as int {
                            assert(s0[a] == s1[a] && s0[b] == s1[b]);
                        } else if a == i as int && b != i as int {
                            assert(s0[b] == s1[b]);
                            assert(s0[i as int].key() == p);
                        } else if a != i as int && b == i as int {
                            assert(s0[a] == s1[a]);
                            assert(s0[i as int].key() == p);
                        }
                    }
                }
                assert(self@ =~= registry_map(s0).insert(p, item)) by {
                    assert forall|q: Seq<char>| #[trigger] self@.contains_key(q)
                        <==> registry_map(s0).insert(p, item).contains_key(q) by {
                        if key_registered(s1, q) {
                            let k = choose|k: int| 0 <= k < s1.len() && (#[trigger] s1[k]).key() == q;
                            if k != i as int {
                                assert(s0[k] == s1[k]);
                            }
                        }
                        if key_registered(s0, q) {
                            let k = choose|k: int| 0 <= k < s0.len() && (#[trigger] s0[k]).key() == q;
                            if k != i as int {
                                assert(s0[k] == s1[k]);
                            } else {
                                assert(s1[k].key() == q);
                            }
                        }
                        if q == p {
                            assert(s1[i as int].key() == q);
                        }
                    }
                    assert forall|q: Seq<char>| #[trigger] self@.contains_key(q)
                        implies self@[q] == registry_map(s0).insert(p, item)[q] by {
                        let k = choose|k: int| 0 <= k < s1.len() && (#[trigger] s1[k]).key() == q;
                        lemma_map_entry(s1, k);
                        if k != i as int {
                            assert(s0[k] == s1[k]);
                            lemma_map_entry(s0, k);
                        }
                    }
                }
            },
            None => {
                self.items.push(item);
                let ghost s1 = self.entries();
                assert(s1 == s0.push(item));
                assert(keys_unique(s1)) by {
                    assert forall|a: int, b: int|
                        0 <= a < s1.len() && 0 <= b < s1.len() && (#[trigger] s1[a]).key()
                            == (#[trigger] s1[b]).key() implies a == b by {
                        if a < s0.len() && b < s0.len() {
                            assert(s0[a] == s1[a] && s0[b] == s1[b]);
                        } else if a < s0.len() {
                            assert(s0[a] == s1[a]);
                        } else if b < s0.len() {
                            assert(s0[b] == s1[b]);
                        }
                    }
                }
                assert(self@ =~= registry_map(s0).insert(p, item)) by {
                    assert forall|q: Seq<char>| #[trigger] self@.contains_key(q)
                        <==> registry_map(s0).insert(p, item).contains_key(q) by {
                        if key_registered(s1, q) {
                            let k = choose|k: int| 0 <= k < s1.len() && (#[trigger] s1[k]).key() == q;
                            if k < s0.len() {
                                assert(s0[k] == s1[k]);
                            }
                        }
                        if key_registered(s0, q) {
                            let k = choose|k: int| 0 <= k < s0.len() && (#[trigger] s0[k]).key() == q;
                            assert(s0[k] == s1[k]);
                        }
                        if q == p {
                            assert(s1[s0.len() as int].key() == q);
                        }
                    }
                    assert forall|q: Seq<char>| #[trigger] self@.contains_key(q)
                        implies self@[q] == registry_map(s0).insert(p, item)[q] by {
                        let k = choose|k: int| 0 <= k < s1.len() && (#[trigger] s1[k]).key() == q;
                        lemma_map_entry(s1, k);
                        if k < s0.len() {
                            assert(s0[k] == s1[k]);
                            lemma_map_entry(s0, k);
                        }
                    }
                }
            },
        }
    }

    /// The records that belong to `agent`, in registry order.
    pub fn by_agent(&self, agent: AgentId) -> (r: Vec<&T>)
        ensures
            r@.len() == self.entries().filter(|o: T| o.agent_of() == agent).len(),
            forall|k: int|
                0 <= k < r@.len() ==> *r@[k] == self.entries().filter(
                    |o: T| o.agent_of() == agent,
                )[k],
    {
        let ghost pred = |o: T| o.agent_of() == agent;
        proof {
            reveal(Seq::filter);
        }
        let mut r: Vec<&T> = Vec::new();
        let mut i: usize = 0;
        while i < self.items.len()
            invariant
                i <= self.entries().len(),
                pred == (|o: T| o.agent_of() == agent),
                r@.len() == self.entries().subrange(0, i as int).filter(pred).len(),
                forall|k: int|
                    0 <= k < r@.len() ==> *r@[k] == self.entries().subrange(0, i as int).filter(
                        pred,
                    )[k],
            decreases self.entries().len() - i,
        {
            let ghost before = self.entries().subrange(0, i as int);
            let ghost after = self.entries().subrange(0, i as int + 1);
            assert(after.drop_last() =~= before);
            proof {
                reveal(Seq::filter);
            }
            assert(after.last() == self.entries()[i as int]);
            let o = &self.items[i];
            if o.agent() == agent {
                r.push(o);
            }
            i = i + 1;
        }
        assert(self.entries().subrange(0, self.entries().len() as int) =~= self.entries());
        r
    }
}

} // verus!
