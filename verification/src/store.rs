//! A small key-value table: the in-memory model of one persistent collection.
//!
//! A table is a finite map from keys to values. It also lists its keys in a
//! fixed order, which callers may walk by position; no operation of the
//! library depends on that order beyond what its contract says.

use vstd::prelude::*;

verus! {

/// A key of a [`Table`]: it can be compared and copied, in agreement with its
/// deep view.
pub trait Key: DeepView + Sized {
    /// Whether two keys stand for the same abstract key.
    fn same_key(&self, other: &Self) -> (same: bool)
        ensures
            same == (self.deep_view() == other.deep_view()),
    ;

    /// A copy of the key.
    fn copy_key(&self) -> (copy: Self)
        ensures
            copy.deep_view() == self.deep_view(),
    ;
}

impl Key for String {
    fn same_key(&self, other: &String) -> (same: bool) {
        *self == *other
    }

    fn copy_key(&self) -> (copy: String) {
        self.clone()
    }
}

impl Key for u64 {
    fn same_key(&self, other: &u64) -> (same: bool) {
        *self == *other
    }

    fn copy_key(&self) -> (copy: u64) {
        *self
    }
}

impl Key for (u64, String) {
    fn same_key(&self, other: &(u64, String)) -> (same: bool) {
        self.0 == other.0 && self.1 == other.1
    }

    fn copy_key(&self) -> (copy: (u64, String)) {
        (self.0, self.1.clone())
    }
}

/// The count kept for `name`; zero where none is kept.
pub open spec fn score_of(counts: Map<Seq<char>, u64>, name: Seq<char>) -> u64 {
    if counts.contains_key(name) {
        counts[name]
    } else {
        0
    }
}

/// The set of the first `n + 1` items of a sequence is the set of the first
/// `n` with the next item added.
pub proof fn lemma_prefix_set_step<A>(items: Seq<A>, n: int)
    requires
        0 <= n < items.len(),
    ensures
        items.take(n + 1).to_set() == items.take(n).to_set().insert(items[n]),
{
    let longer = items.take(n + 1);
    let shorter = items.take(n);
    assert forall|x: A| longer.contains(x) implies shorter.contains(x) || x == items[n] by {
        let j = longer.index_of(x);
        assert(longer[j] == x);
        if j < n {
            assert(shorter[j] == x);
        }
    }
    assert forall|x: A| shorter.contains(x) || x == items[n] implies longer.contains(x) by {
        if shorter.contains(x) {
            let j = shorter.index_of(x);
            assert(shorter[j] == x);
            assert(longer[j] == x);
        } else {
            assert(longer[n] == x);
        }
    }
    assert(longer.to_set() =~= shorter.to_set().insert(items[n]));
}

/// A finite map from keys to values that lists its keys in a fixed order.
pub struct Table<K: Key, V: DeepView> {
    entries: Vec<(K, V)>,
}

impl<K: Key, V: DeepView> View for Table<K, V> {
    type V = Map<K::V, V::V>;

    /// The table as a map from abstract keys to abstract values.
    closed spec fn view(&self) -> Map<K::V, V::V> {
        Map::new(
            |k: K::V| self.keys().contains(k),
            |k: K::V| self.entries[self.keys().index_of(k)].1.deep_view(),
        )
    }
}

impl<K: Key, V: DeepView> Table<K, V> {
    /// The abstract keys, in the order in which the table lists them.
    pub closed spec fn keys(&self) -> Seq<K::V> {
        Self::keys_of(self.entries@)
    }

    spec fn keys_of(entries: Seq<(K, V)>) -> Seq<K::V> {
        Seq::new(entries.len(), |i: int| entries[i].0.deep_view())
    }

    #[verifier::type_invariant]
    spec fn keys_are_distinct(&self) -> bool {
        self.keys().no_duplicates()
    }

    /// The keys listed by a table are exactly the keys of its map.
    pub proof fn lemma_keys_are_domain(&self)
        ensures
            forall|k: K::V| self@.contains_key(k) <==> self.keys().contains(k),
            self@.dom() =~= self.keys().to_set(),
            self@.dom().finite(),
    {
        assert forall|k: K::V| self@.contains_key(k) <==> self.keys().contains(k) by {}
        assert(self@.dom() =~= self.keys().to_set());
        vstd::seq_lib::seq_to_set_is_finite(self.keys());
    }

    /// An empty table.
    pub fn new() -> (table: Self)
        ensures
            table@ == Map::<K::V, V::V>::empty(),
            table.keys() == Seq::<K::V>::empty(),
    {
        let table = Table { entries: Vec::new() };
        assert(table.keys() =~= Seq::<K::V>::empty());
        assert(table@ =~= Map::<K::V, V::V>::empty());
        table
    }

    /// The number of entries.
    pub fn len(&self) -> (n: usize)
        ensures
            n == self.keys().len(),
            n == self@.dom().len(),
            self.keys().no_duplicates(),
    {
        proof {
            use_type_invariant(self);
            self.lemma_keys_are_domain();
            self.keys().unique_seq_to_set();
        }
        self.entries.len()
    }

    /// The position of `key` among the listed keys, if the table holds it.
    fn position(&self, key: &K) -> (found: Option<usize>)
        ensures
            match found {
                Some(i) => i < self.keys().len() && self.keys()[i as int] == key.deep_view(),
                None => !self.keys().contains(key.deep_view()),
            },
    {
        let mut i: usize = 0;
        while i < self.entries.len()
            invariant
                i <= self.entries.len(),
                forall|j: int| 0 <= j < i ==> self.keys()[j] != key.deep_view(),
            decreases self.entries.len() - i,
        {
            if self.entries[i].0.same_key(key) {
                return Some(i);
            }
            i += 1;
        }
        None
    }

    /// Whether the table holds `key`.
    pub fn contains_key(&self, key: &K) -> (held: bool)
        ensures
            held == self@.contains_key(key.deep_view()),
    {
        self.position(key).is_some()
    }

    /// The value stored under `key`, if any.
    pub fn get(&self, key: &K) -> (value: Option<&V>)
        ensures
            match value {
                Some(v) => self@.contains_key(key.deep_view()) && v.deep_view() == self@[key.deep_view()],
                None => !self@.contains_key(key.deep_view()),
            },
    {
        match self.position(key) {
            Some(i) => {
                proof {
                    use_type_invariant(self);
                    assert(self.keys()[self.keys().index_of(key.deep_view())] == key.deep_view());
                }
                Some(&self.entries[i].1)
            },
            None => None,
        }
    }

    /// The key listed at position `i`.
    pub fn key_at(&self, i: usize) -> (key: &K)
        requires
            i < self.keys().len(),
        ensures
            key.deep_view() == self.keys()[i as int],
            self@.contains_key(key.deep_view()),
    {
        assert(self.keys().contains(self.keys()[i as int]));
        &self.entries[i].0
    }

    /// The value of the key listed at position `i`.
    pub fn value_at(&self, i: usize) -> (value: &V)
        requires
            i < self.keys().len(),
        ensures
            self@.contains_key(self.keys()[i as int]),
            value.deep_view() == self@[self.keys()[i as int]],
    {
        proof {
            use_type_invariant(self);
            let k = self.keys()[i as int];
            assert(self.keys().contains(k));
            assert(self.keys()[self.keys().index_of(k)] == k);
        }
        &self.entries[i].1
    }

    /// Stores `value` under `key`, replacing what was stored there. A new key
    /// is listed last; a key already held keeps its place.
    pub fn insert(&mut self, key: K, value: V)
        ensures
            final(self)@ == old(self)@.insert(key.deep_view(), value.deep_view()),
            final(self).keys() == if old(self)@.contains_key(key.deep_view()) {
                old(self).keys()
            } else {
                old(self).keys().push(key.deep_view())
            },
    {
        proof {
            use_type_invariant(&*self);
        }
        let ghost before = *self;
        let ghost k = key.deep_view();
        let ghost v = value.deep_view();
        match self.position(&key) {
            Some(i) => {
                let mut entries: Vec<(K, V)> = Vec::new();
                core::mem::swap(&mut self.entries, &mut entries);
                entries[i] = (key, value);
                assert(Self::keys_of(entries@) =~= before.keys());
                self.entries = entries;
                proof {
                    assert forall|q: K::V| #[trigger] self@.contains_key(q) implies self@[q]
                        == before@.insert(k, v)[q] by {
                        let j = self.keys().index_of(q);
                        assert(self.keys()[j] == q);
                        if q != k {
                            assert(j != i);
                        } else {
                            assert(before.keys()[j] == before.keys()[i as int]);
                        }
                    }
                    assert(self@ =~= before@.insert(k, v));
                }
            },
            None => {
                let mut entries: Vec<(K, V)> = Vec::new();
                core::mem::swap(&mut self.entries, &mut entries);
                entries.push((key, value));
                assert(Self::keys_of(entries@) =~= before.keys().push(k));
                self.entries = entries;
                proof {
                    assert forall|q: K::V| #[trigger] self@.contains_key(q) implies self@[q]
                        == before@.insert(k, v)[q] by {
                        let j = self.keys().index_of(q);
                        assert(self.keys()[j] == q);
                        if q != k {
                            assert(j < before.keys().len());
                            assert(before.keys()[j] == q);
                            let j0 = before.keys().index_of(q);
                            assert(before.keys()[j0] == q);
                            assert(j0 == j);
                        } else {
                            assert(j == before.keys().len());
                        }
                    }
                    assert forall|q: K::V| before@.insert(k, v).contains_key(q) implies
                        #[trigger] self@.contains_key(q) by {
                        if q != k {
                            let j0 = before.keys().index_of(q);
                            assert(before.keys()[j0] == q);
                            assert(self.keys()[j0] == q);
                        } else {
                            assert(self.keys()[before.keys().len() as int] == k);
                        }
                    }
                    assert(self@ =~= before@.insert(k, v));
                }
            },
        }
    }

    /// Removes `key` and what is stored under it. The other keys keep their order.
    pub fn remove(&mut self, key: &K)
        ensures
            final(self)@ == old(self)@.remove(key.deep_view()),
            final(self).keys() == if old(self)@.contains_key(key.deep_view()) {
                old(self).keys().remove(old(self).keys().index_of(key.deep_view()))
            } else {
                old(self).keys()
            },
    {
        proof {
            use_type_invariant(&*self);
        }
        let ghost before = *self;
        let ghost k = key.deep_view();
        match self.position(key) {
            Some(i) => {
                let mut entries: Vec<(K, V)> = Vec::new();
                core::mem::swap(&mut self.entries, &mut entries);
                let _ = entries.remove(i);
                proof {
                    let at = before.keys().index_of(k);
                    assert(before.keys()[at] == k);
                    assert(at == i);
                    let after = Self::keys_of(entries@);
                    assert(after =~= before.keys().remove(at));
                    assert forall|a: int, b: int|
                        0 <= a < after.len() && 0 <= b < after.len() && a != b
                        implies after[a] != after[b] by {
                        let a0 = if a < i { a } else { a + 1 };
                        let b0 = if b < i { b } else { b + 1 };
                        assert(before.keys()[a0] == after[a]);
                        assert(before.keys()[b0] == after[b]);
                    }
                }
                self.entries = entries;
                proof {
                    let at = before.keys().index_of(k);
                    assert forall|q: K::V| #[trigger] self@.contains_key(q) implies q != k
                        && before@.contains_key(q) && self@[q] == before@[q] by {
                        let j = self.keys().index_of(q);
                        assert(self.keys()[j] == q);
                        let j0 = if j < i { j } else { j + 1 };
                        assert(before.keys()[j0] == q);
                        let j1 = before.keys().index_of(q);
                        assert(before.keys()[j1] == q);
                        assert(j1 == j0);
                    }
                    assert forall|q: K::V| q != k && before@.contains_key(q) implies
                        #[trigger] self@.contains_key(q) by {
                        let j0 = before.keys().index_of(q);
                        assert(before.keys()[j0] == q);
                        let j = if j0 < i { j0 } else { j0 - 1 };
                        assert(self.keys()[j] == q);
                    }
                    assert(self@ =~= before@.remove(k));
                }
            },
            None => {
                proof {
                    assert(self@ =~= before@.remove(k));
                }
            },
        }
    }

    /// The entries of the table, in the order in which it lists its keys.
    pub open spec fn listing(&self) -> Seq<(K::V, V::V)> {
        Seq::new(self.keys().len(), |i: int| (self.keys()[i], self@[self.keys()[i]]))
    }

    /// The map that a list of entries stands for: each entry stored under
    /// its key, a later entry replacing an earlier one with the same key.
    pub open spec fn map_of(entries: Seq<(K::V, V::V)>) -> Map<K::V, V::V>
        decreases entries.len(),
    {
        if entries.len() == 0 {
            Map::empty()
        } else {
            Self::map_of(entries.drop_last()).insert(entries.last().0, entries.last().1)
        }
    }

    /// The table that holds the given entries, stored first to last.
    pub fn from_entries(entries: Vec<(K, V)>) -> (table: Self)
        ensures
            table@ == Self::map_of(entries.deep_view()),
    {
        let ghost all = entries.deep_view();
        let mut rest = entries;
        let mut table = Self::new();
        let ghost mut done: int = 0;
        proof {
            assert(all.take(0) =~= Seq::<(K::V, V::V)>::empty());
            assert(rest.deep_view().skip(0) =~= rest.deep_view());
        }
        while rest.len() > 0
            invariant
                0 <= done <= all.len(),
                rest.deep_view() == all.skip(done),
                table@ == Self::map_of(all.take(done)),
            decreases rest.len(),
        {
            let ghost rest_before = rest.deep_view();
            let ghost rows_before = rest@;
            proof {
                assert(rest_before.len() == rest@.len());
                assert(all.skip(done).len() == all.len() - done);
            }
            let entry = rest.remove(0);
            proof {
                assert(entry.deep_view() == rest_before[0]);
                assert(rest_before[0] == all[done]);
                assert forall|k: int| 0 <= k < rest@.len() implies #[trigger] rest.deep_view()[k]
                    == all.skip(done + 1)[k] by {
                    assert(rest@[k] == rows_before[k + 1]);
                    assert(rest_before[k + 1] == rows_before[k + 1].deep_view());
                    assert(all.skip(done)[k + 1] == all[done + 1 + k]);
                }
                assert(rest.deep_view() =~= all.skip(done + 1));
                assert(all.take(done + 1).drop_last() =~= all.take(done));
                assert(all.take(done + 1).last() == all[done]);
            }
            table.insert(entry.0, entry.1);
            proof {
                done = done + 1;
            }
        }
        proof {
            assert(all.take(done) =~= all);
        }
        table
    }

    /// The entries of the table, in the order in which it lists its keys.
    pub fn into_entries(self) -> (entries: Vec<(K, V)>)
        ensures
            entries.deep_view() == self.listing(),
    {
        proof {
            use_type_invariant(&self);
            assert forall|i: int| 0 <= i < self.keys().len() implies #[trigger] self.listing()[i] == (
                self.entries[i].0.deep_view(),
                self.entries[i].1.deep_view(),
            ) by {
                let k = self.keys()[i];
                assert(self.keys().contains(k));
                assert(self.keys()[self.keys().index_of(k)] == k);
            }
            assert(self.entries.deep_view() =~= self.listing());
        }
        self.entries
    }

    /// Removes every entry.
    pub fn clear(&mut self)
        ensures
            final(self)@ == Map::<K::V, V::V>::empty(),
            final(self).keys() == Seq::<K::V>::empty(),
    {
        let entries: Vec<(K, V)> = Vec::new();
        assert(Self::keys_of(entries@) =~= Seq::<K::V>::empty());
        self.entries = entries;
        proof {
            assert(self.keys() =~= Seq::<K::V>::empty());
            assert(self@ =~= Map::<K::V, V::V>::empty());
        }
    }
}

} // verus!
