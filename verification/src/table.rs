//! An ordered table: unique keys kept in ascending order, viewed as a map from
//! key views to value views.

use vstd::prelude::*;
use crate::order::{Duplicate, Key, Order};

verus! {

/// A map whose entries stand in ascending key order.
#[derive(Debug, PartialEq, Eq)]
pub struct Table<K: Key, V: View> {
    entries: Vec<(K, V)>,
}

/// Whether the keys of `entries` ascend strictly.
spec fn ascending<K: Key, V: View>(entries: Seq<(K, V)>) -> bool {
    forall|i: int, j: int|
        0 <= i < j < entries.len() ==> K::before(#[trigger] entries[i].0@, #[trigger] entries[j].0@)
}

/// Whether the keys `keys` ascend strictly.
pub open spec fn ascending_keys<K: Key>(keys: Seq<K::V>) -> bool {
    forall|i: int, j: int| 0 <= i < j < keys.len() ==> K::before(#[trigger] keys[i], #[trigger] keys[j])
}

spec fn has_key<K: Key, V: View>(entries: Seq<(K, V)>, key: K::V) -> bool {
    exists|i: int| 0 <= i < entries.len() && #[trigger] entries[i].0@ == key
}

spec fn position<K: Key, V: View>(entries: Seq<(K, V)>, key: K::V) -> int {
    choose|i: int| 0 <= i < entries.len() && #[trigger] entries[i].0@ == key
}

spec fn content<K: Key, V: View>(entries: Seq<(K, V)>) -> Map<K::V, V::V> {
    Map::new(
        |key: K::V| has_key(entries, key),
        |key: K::V| entries[position(entries, key)].1@,
    )
}

proof fn lemma_position<K: Key, V: View>(entries: Seq<(K, V)>, i: int)
    requires
        ascending(entries),
        0 <= i < entries.len(),
    ensures
        has_key(entries, entries[i].0@),
        position(entries, entries[i].0@) == i,
        content(entries).dom().contains(entries[i].0@),
        content(entries)[entries[i].0@] == entries[i].1@,
{
    let p = position(entries, entries[i].0@);
    assert(entries[i].0@ == entries[i].0@);
    K::before_irreflexive(entries[i].0@);
    if p < i {
        assert(K::before(entries[p].0@, entries[i].0@));
    } else if i < p {
        assert(K::before(entries[i].0@, entries[p].0@));
    }
}

impl<K: Key, V: View> View for Table<K, V> {
    type V = Map<K::V, V::V>;

    closed spec fn view(&self) -> Map<K::V, V::V> {
        content(self.entries@)
    }
}

impl<K: Key, V: View> Table<K, V> {
    #[verifier::type_invariant]
    spec fn well_formed(self) -> bool {
        ascending(self.entries@)
    }

    /// The keys in the order in which the table holds them.
    pub closed spec fn keys(self) -> Seq<K::V> {
        Seq::new(self.entries@.len(), |i: int| self.entries@[i].0@)
    }

    /// An empty table.
    pub fn new() -> (table: Self)
        ensures
            table@ == Map::<K::V, V::V>::empty(),
            table.keys() == Seq::<K::V>::empty(),
    {
        let table = Table { entries: Vec::new() };
        assert(table@ =~= Map::<K::V, V::V>::empty());
        assert(table.keys() =~= Seq::<K::V>::empty());
        table
    }

    /// The number of entries. The keys ascend and are exactly the table's domain.
    pub fn len(&self) -> (n: usize)
        ensures
            n == self.keys().len(),
            ascending_keys::<K>(self.keys()),
            forall|key: K::V| #[trigger] self@.dom().contains(key) <==> self.keys().contains(key),
            forall|i: int| 0 <= i < n ==> self@.dom().contains(#[trigger] self.keys()[i]),
            (n == 0) == (self@ == Map::<K::V, V::V>::empty()),
            self@.dom().finite(),
            n == self@.dom().len(),
    {
        proof {
            use_type_invariant(self);
            let keys = self.keys();
            assert forall|i: int, j: int| 0 <= i < keys.len() && 0 <= j < keys.len() && i != j implies keys[i]
                != keys[j] by {
                K::before_irreflexive(keys[i]);
                if i < j {
                    assert(K::before(self.entries@[i].0@, self.entries@[j].0@));
                } else {
                    assert(K::before(self.entries@[j].0@, self.entries@[i].0@));
                }
            }
            keys.unique_seq_to_set();
            assert forall|key: K::V| #[trigger] self@.dom().contains(key) <==> self.keys().contains(
                key,
            ) by {
                if self@.dom().contains(key) {
                    let i = position(self.entries@, key);
                    assert(self.keys()[i] == key);
                }
                if self.keys().contains(key) {
                    let i = choose|i: int| 0 <= i < self.keys().len() && self.keys()[i] == key;
                    assert(self.entries@[i].0@ == key);
                }
            }
            assert forall|i: int| 0 <= i < self.keys().len() implies self@.dom().contains(
                #[trigger] self.keys()[i],
            ) by {
                assert(self.keys().contains(self.keys()[i]));
            }
            if self.entries@.len() == 0 {
                assert(self@ =~= Map::<K::V, V::V>::empty());
            } else {
                assert(self@.dom().contains(self.keys()[0]));
            }
            assert(self@.dom() =~= keys.to_set());
        }
        self.entries.len()
    }

    /// Whether the table holds nothing.
    pub fn is_empty(&self) -> (empty: bool)
        ensures
            empty == (self@ == Map::<K::V, V::V>::empty()),
    {
        self.len() == 0
    }

    /// The key and value of the `i`-th entry.
    pub fn entry_at(&self, i: usize) -> (entry: (&K, &V))
        requires
            i < self.keys().len(),
        ensures
            entry.0@ == self.keys()[i as int],
            self@.dom().contains(entry.0@),
            self@[entry.0@] == entry.1@,
    {
        proof {
            use_type_invariant(self);
            lemma_position(self.entries@, i as int);
        }
        (&self.entries[i].0, &self.entries[i].1)
    }

    /// The first index whose key does not come before `key`.
    fn lower_bound(&self, key: &K) -> (at: usize)
        ensures
            at <= self.entries@.len(),
            forall|i: int| 0 <= i < at ==> K::before(#[trigger] self.entries@[i].0@, key@),
            forall|i: int|
                at <= i < self.entries@.len() ==> #[trigger] self.entries@[i].0@ == key@
                    || K::before(key@, self.entries@[i].0@),
    {
        proof {
            use_type_invariant(self);
        }
        let mut at: usize = 0;
        while at < self.entries.len()
            invariant
                at <= self.entries@.len(),
                ascending(self.entries@),
                forall|i: int| 0 <= i < at ==> K::before(#[trigger] self.entries@[i].0@, key@),
            decreases self.entries@.len() - at,
        {
            let o = self.entries[at].0.order(key);
            match o {
                Order::Before => {
                    at = at + 1;
                },
                _ => {
                    proof {
                        let a = at as int;
                        assert forall|i: int| a <= i < self.entries@.len() implies #[trigger] self.entries@[i].0@
                            == key@ || K::before(key@, self.entries@[i].0@) by {
                            if i > a {
                                assert(K::before(self.entries@[a].0@, self.entries@[i].0@));
                                if self.entries@[a].0@ != key@ {
                                    K::before_transitive(
                                        key@,
                                        self.entries@[a].0@,
                                        self.entries@[i].0@,
                                    );
                                }
                            }
                        }
                    }
                    return at;
                },
            }
        }
        at
    }

    /// The index of `key`, when the table holds it.
    fn find(&self, key: &K) -> (found: Option<usize>)
        ensures
            match found {
                Some(i) => i < self.entries@.len() && self.entries@[i as int].0@ == key@
                    && self@.dom().contains(key@) && self@[key@] == self.entries@[i as int].1@,
                None => !self@.dom().contains(key@),
            },
    {
        let at = self.lower_bound(key);
        proof {
            use_type_invariant(self);
        }
        if at < self.entries.len() {
            if let Order::Same = self.entries[at].0.order(key) {
                proof {
                    lemma_position(self.entries@, at as int);
                }
                return Some(at);
            }
        }
        proof {
            if has_key(self.entries@, key@) {
                let p = position(self.entries@, key@);
                K::before_irreflexive(key@);
                if p > at {
                    assert(K::before(self.entries@[at as int].0@, self.entries@[p].0@));
                    K::before_transitive(key@, self.entries@[at as int].0@, self.entries@[p].0@);
                }
            }
        }
        None
    }

    /// The value stored under `key`.
    pub fn get(&self, key: &K) -> (value: Option<&V>)
        ensures
            match value {
                Some(v) => self@.dom().contains(key@) && self@[key@] == v@,
                None => !self@.dom().contains(key@),
            },
    {
        match self.find(key) {
            Some(i) => Some(&self.entries[i].1),
            None => None,
        }
    }

    /// Whether `key` has an entry.
    pub fn contains_key(&self, key: &K) -> (found: bool)
        ensures
            found == self@.dom().contains(key@),
    {
        self.find(key).is_some()
    }

    /// Stores `value` under `key`, replacing what was there.
    pub fn insert(&mut self, key: K, value: V)
        ensures
            final(self)@ == old(self)@.insert(key@, value@),
    {
        let at = self.lower_bound(&key);
        let replace = match self.find(&key) {
            Some(i) => {
                proof {
                    use_type_invariant(&*self);
                    K::before_irreflexive(key@);
                    lemma_position(self.entries@, i as int);
                    if at < i {
                        assert(K::before(self.entries@[at as int].0@, self.entries@[i as int].0@));
                        K::before_transitive(key@, self.entries@[at as int].0@, key@);
                    }
                }
                true
            },
            None => false,
        };
        proof {
            use_type_invariant(&*self);
        }
        let ghost before = self.entries@;
        let mut entries: Vec<(K, V)> = Vec::new();
        std::mem::swap(&mut entries, &mut self.entries);
        let ghost gk = key@;
        let ghost gv = value@;
        if replace {
            let stale = entries.remove(at);
            assert(stale.0@ == gk);
        }
        entries.insert(at, (key, value));
        proof {
            assert forall|i: int, j: int| 0 <= i < j < entries@.len() implies K::before(
                #[trigger] entries@[i].0@,
                #[trigger] entries@[j].0@,
            ) by {
                if replace {
                    assert(i == at || entries@[i] == before[i]);
                    assert(j == at || entries@[j] == before[j]);
                    assert(K::before(before[i].0@, before[j].0@));
                } else {
                    let bi = if i < at { i } else { i - 1 };
                    let bj = if j < at { j } else { j - 1 };
                    if i != at {
                        assert(entries@[i] == before[bi]);
                    }
                    if j != at {
                        assert(entries@[j] == before[bj]);
                    }
                    if i != at && j != at {
                        assert(K::before(before[bi].0@, before[bj].0@));
                    } else if i == at {
                        if before[bj].0@ == gk {
                            assert(has_key(before, gk));
                        }
                    }
                }
            }
            lemma_inserted(before, entries@, at as int, gk, gv, replace);
        }
        self.entries = entries;
    }

    /// Takes out the entry of `key`.
    pub fn remove(&mut self, key: &K) -> (value: Option<V>)
        ensures
            final(self)@ == old(self)@.remove(key@),
            match value {
                Some(v) => old(self)@.dom().contains(key@) && v@ == old(self)@[key@],
                None => !old(self)@.dom().contains(key@),
            },
    {
        let found = self.find(key);
        proof {
            use_type_invariant(&*self);
        }
        match found {
            None => {
                assert(self@.remove(key@) =~= self@);
                None
            },
            Some(i) => {
                let ghost before = self.entries@;
                let mut entries: Vec<(K, V)> = Vec::new();
                std::mem::swap(&mut entries, &mut self.entries);
                let (_, value) = entries.remove(i);
                proof {
                    lemma_removed(before, entries@, i as int, key@);
                }
                self.entries = entries;
                Some(value)
            },
        }
    }

    /// Takes out the entry with the greatest key.
    pub fn pop_last(&mut self) -> (entry: Option<(K, V)>)
        ensures
            match entry {
                Some((k, v)) => old(self)@.dom().contains(k@) && v@ == old(self)@[k@]
                    && final(self)@ == old(self)@.remove(k@) && old(self).keys().len() > 0
                    && final(self).keys() == old(self).keys().drop_last() && k@ == old(
                    self,
                ).keys().last(),
                None => old(self)@ == Map::<K::V, V::V>::empty() && final(self)@ == old(self)@
                    && old(self).keys().len() == 0,
            },
    {
        proof {
            use_type_invariant(&*self);
        }
        let n = self.len();
        if n == 0 {
            return None;
        }
        let ghost before = self.entries@;
        let ghost whole = *self;
        let mut entries: Vec<(K, V)> = Vec::new();
        std::mem::swap(&mut entries, &mut self.entries);
        let (key, value) = entries.remove(n - 1);
        proof {
            lemma_removed(before, entries@, n - 1, key@);
            lemma_position(before, n - 1);
        }
        self.entries = entries;
        assert(self.keys() =~= whole.keys().drop_last());
        Some((key, value))
    }
}

proof fn lemma_inserted<K: Key, V: View>(
    before: Seq<(K, V)>,
    after: Seq<(K, V)>,
    at: int,
    key: K::V,
    value: V::V,
    replaced: bool,
)
    requires
        ascending(before),
        ascending(after),
        0 <= at < after.len(),
        after[at].0@ == key,
        after[at].1@ == value,
        replaced ==> after.len() == before.len() && before[at].0@ == key && forall|i: int|
            0 <= i < after.len() && i != at ==> #[trigger] after[i] == before[i],
        !replaced ==> after.len() == before.len() + 1 && (forall|i: int|
            0 <= i < at ==> #[trigger] after[i] == before[i]) && forall|i: int|
            at < i < after.len() ==> #[trigger] after[i] == before[i - 1],
    ensures
        content(after) == content(before).insert(key, value),
{
    lemma_position(after, at);
    assert forall|k: K::V| #[trigger] content(after).dom().contains(k) <==> content(before).insert(
        key,
        value,
    ).dom().contains(k) by {
        if has_key(after, k) && k != key {
            let p = position(after, k);
            let q = if replaced || p < at { p } else { p - 1 };
            assert(before[q] == after[p]);
            assert(before[q].0@ == k);
        }
        if has_key(before, k) && k != key {
            let q = position(before, k);
            let p = if replaced || q < at { q } else { q + 1 };
            assert(after[p] == before[q]);
            assert(after[p].0@ == k);
        }
    }
    assert forall|k: K::V| content(after).dom().contains(k) implies #[trigger] content(after)[k]
        == content(before).insert(key, value)[k] by {
        if k != key {
            let p = position(after, k);
            let q = if replaced || p < at { p } else { p - 1 };
            assert(before[q] == after[p]);
            lemma_position(before, q);
            lemma_position(after, p);
        }
    }
    assert(content(after) =~= content(before).insert(key, value));
}

proof fn lemma_removed<K: Key, V: View>(
    before: Seq<(K, V)>,
    after: Seq<(K, V)>,
    at: int,
    key: K::V,
)
    requires
        ascending(before),
        0 <= at < before.len(),
        before[at].0@ == key,
        after == before.remove(at),
    ensures
        ascending(after),
        content(after) == content(before).remove(key),
{
    assert forall|i: int, j: int| 0 <= i < j < after.len() implies K::before(
        #[trigger] after[i].0@,
        #[trigger] after[j].0@,
    ) by {
        let bi = if i < at { i } else { i + 1 };
        let bj = if j < at { j } else { j + 1 };
        assert(after[i] == before[bi] && after[j] == before[bj]);
        assert(K::before(before[bi].0@, before[bj].0@));
    }
    lemma_position(before, at);
    assert forall|k: K::V| #[trigger] content(after).dom().contains(k) <==> content(before).remove(
        key,
    ).dom().contains(k) by {
        if has_key(after, k) {
            let p = position(after, k);
            let q = if p < at { p } else { p + 1 };
            assert(before[q] == after[p]);
            assert(before[q].0@ == k);
            lemma_position(before, q);
        }
        if has_key(before, k) && k != key {
            let q = position(before, k);
            let p = if q < at { q } else { q - 1 };
            assert(after[p] == before[q]);
            assert(after[p].0@ == k);
        }
    }
    assert forall|k: K::V| content(after).dom().contains(k) implies #[trigger] content(after)[k]
        == content(before).remove(key)[k] by {
        let p = position(after, k);
        let q = if p < at { p } else { p + 1 };
        assert(before[q] == after[p]);
        lemma_position(before, q);
        lemma_position(after, p);
    }
    assert(content(after) =~= content(before).remove(key));
}

impl<K: Key + Duplicate, V: Duplicate> Duplicate for Table<K, V> {
    fn duplicate(&self) -> (copy: Self) {
        let mut copy = Table::<K, V>::new();
        let n = self.len();
        let mut i: usize = 0;
        while i < n
            invariant
                i <= n,
                n == self.keys().len(),
                forall|j: int| 0 <= j < n ==> self@.dom().contains(#[trigger] self.keys()[j]),
                copy@.submap_of(self@),
                forall|j: int| 0 <= j < i ==> copy@.dom().contains(#[trigger] self.keys()[j]),
            decreases n - i,
        {
            let (key, value) = self.entry_at(i);
            let ghost before = copy@;
            copy.insert(key.duplicate(), value.duplicate());
            assert forall|k: K::V| #[trigger] copy@.dom().contains(k) implies self@.dom().contains(k)
                && copy@[k] == self@[k] by {
                if k != key@ {
                    assert(before.dom().contains(k));
                }
            }
            i = i + 1;
        }
        proof {
            assert forall|k: K::V| #[trigger] self@.dom().contains(k) implies copy@.dom().contains(k) by {
                let j = choose|j: int| 0 <= j < self.keys().len() && self.keys()[j] == k;
                assert(copy@.dom().contains(self.keys()[j]));
            }
            assert(copy@ =~= self@);
        }
        copy
    }
}

} // verus!
