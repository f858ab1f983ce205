//! A small map that keeps its entries in a vector and finds them by
//! comparing keys, for stores that live in memory.

use vstd::prelude::*;

use crate::hub::referral::Code;
use crate::id::Id;

verus! {

/// What can serve as a key: it stands for a mathematical value, and two
/// keys can be told apart when they run.
pub trait Key: Sized {
    type Model;

    /// The value the key stands for.
    spec fn model(&self) -> Self::Model;

    /// Whether two keys stand for the same value.
    fn same(&self, other: &Self) -> (r: bool)
        ensures
            r == (self.model() == other.model()),
    ;
}

impl Key for Id {
    type Model = Seq<char>;

    open spec fn model(&self) -> Seq<char> {
        self@
    }

    fn same(&self, other: &Id) -> (r: bool) {
        self == other
    }
}

impl Key for Code {
    type Model = u64;

    open spec fn model(&self) -> u64 {
        self@
    }

    fn same(&self, other: &Code) -> (r: bool) {
        self.to_u64() == other.to_u64()
    }
}

impl Key for (Id, Code) {
    type Model = (Seq<char>, u64);

    open spec fn model(&self) -> (Seq<char>, u64) {
        (self.0@, self.1@)
    }

    fn same(&self, other: &(Id, Code)) -> (r: bool) {
        self.0 == other.0 && self.1.to_u64() == other.1.to_u64()
    }
}

/// A map from keys to values. It stands for the mathematical map from
/// what the keys stand for to what the values stand for. Of two entries
/// under one key the first counts; the table never makes a second.
pub struct Table<K: Key, V: DeepView> {
    entries: Vec<(K, V)>,
}

impl<K: Key, V: DeepView> Table<K, V> {
    /// Whether the entry at `i` is the first under `key`.
    closed spec fn first_at(&self, key: K::Model, i: int) -> bool {
        &&& 0 <= i < self.entries.len()
        &&& self.entries[i].0.model() == key
        &&& forall|j: int| 0 <= j < i ==> (#[trigger] self.entries[j]).0.model() != key
    }

    /// Whether some entry stands under `key`.
    closed spec fn holds(&self, key: K::Model) -> bool {
        exists|i: int| 0 <= i < self.entries.len() && (#[trigger] self.entries[i]).0.model() == key
    }

    /// Where the first entry under `key` stands.
    closed spec fn first(&self, key: K::Model) -> int {
        choose|i: int| self.first_at(key, i)
    }

    /// The mathematical map that the table stands for.
    pub closed spec fn model(&self) -> Map<K::Model, V::V> {
        Map::new(
            |key: K::Model| self.holds(key),
            |key: K::Model| self.entries[self.first(key)].1.deep_view(),
        )
    }

    /// Among the entries up to `i`, where `i` stands under `key`, one is
    /// the first under `key`.
    proof fn lemma_first_exists(&self, key: K::Model, i: int)
        requires
            0 <= i < self.entries.len(),
            self.entries[i].0.model() == key,
        ensures
            self.first_at(key, self.first(key)),
        decreases i,
    {
        if exists|j: int| 0 <= j < i && (#[trigger] self.entries[j]).0.model() == key {
            let j = choose|j: int| 0 <= j < i && (#[trigger] self.entries[j]).0.model() == key;
            self.lemma_first_exists(key, j);
        } else {
            assert(self.first_at(key, i));
        }
    }

    /// The entry that is the first under its key is the one the model
    /// shows.
    proof fn lemma_first(&self, key: K::Model, i: int)
        requires
            self.first_at(key, i),
        ensures
            self.first(key) == i,
            self.model().contains_key(key),
            self.model()[key] == self.entries[i].1.deep_view(),
    {
        let chosen = self.first(key);
        assert(self.first_at(key, chosen));
        if chosen < i {
            assert(self.entries[chosen].0.model() != key);
        } else if i < chosen {
            assert(self.entries[i].0.model() != key);
        }
    }

    /// A map that shows, for each key, its first entry, and no key without
    /// an entry, is the table's model.
    proof fn lemma_model_is(&self, m: Map<K::Model, V::V>)
        requires
            forall|k: K::Model, i: int| #[trigger]
                self.first_at(k, i) ==> m.contains_key(k) && m[k] == self.entries[i].1.deep_view(),
            forall|k: K::Model| #[trigger] m.contains_key(k) ==> self.holds(k),
        ensures
            self.model() == m,
    {
        assert forall|k: K::Model| #[trigger]
            self.model().dom().contains(k) == m.dom().contains(k) && (m.dom().contains(k)
                ==> self.model()[k] == m[k]) by {
            if self.model().contains_key(k) || m.contains_key(k) {
                assert(self.holds(k));
                let i = choose|i: int|
                    0 <= i < self.entries.len() && (#[trigger] self.entries[i]).0.model() == k;
                self.lemma_first_exists(k, i);
                self.lemma_first(k, self.first(k));
            }
        }
        assert(self.model() =~= m);
    }

    /// What the model shows of a key is its first entry.
    proof fn lemma_model(&self)
        ensures
            forall|k: K::Model, i: int| #[trigger]
                self.first_at(k, i) ==> self.model().contains_key(k) && self.model()[k]
                    == self.entries[i].1.deep_view(),
            forall|k: K::Model| #[trigger] self.model().contains_key(k) ==> self.holds(k),
    {
        assert forall|k: K::Model, i: int| #[trigger] self.first_at(k, i) implies self.model().contains_key(
            k,
        ) && self.model()[k] == self.entries[i].1.deep_view() by {
            self.lemma_first(k, i);
        }
    }

    /// The table without entries.
    pub fn new() -> (table: Self)
        ensures
            table.model() == Map::<K::Model, V::V>::empty(),
    {
        let table = Table { entries: Vec::new() };
        assert(table.model() =~= Map::<K::Model, V::V>::empty());
        table
    }

    /// The index of the first entry under `key`, if there is one.
    fn find(&self, key: &K) -> (at: Option<usize>)
        ensures
            at matches Some(i) ==> self.first_at(key.model(), i as int),
            at is None ==> !self.holds(key.model()),
    {
        let mut i: usize = 0;
        while i < self.entries.len()
            invariant
                i <= self.entries.len(),
                forall|j: int| 0 <= j < i ==> (#[trigger] self.entries[j]).0.model() != key.model(),
            decreases self.entries.len() - i,
        {
            if self.entries[i].0.same(key) {
                return Some(i);
            }
            i += 1;
        }
        None
    }

    /// Whether `key` has a value.
    pub fn contains_key(&self, key: &K) -> (found: bool)
        ensures
            found == self.model().contains_key(key.model()),
    {
        match self.find(key) {
            Some(i) => {
                proof {
                    self.lemma_first(key.model(), i as int);
                }
                true
            },
            None => false,
        }
    }

    /// The value of `key`, if it has one.
    pub fn get(&self, key: &K) -> (value: Option<&V>)
        ensures
            value is Some <==> self.model().contains_key(key.model()),
            value matches Some(v) ==> v.deep_view() == self.model()[key.model()],
    {
        match self.find(key) {
            Some(i) => {
                proof {
                    self.lemma_first(key.model(), i as int);
                }
                Some(&self.entries[i].1)
            },
            None => None,
        }
    }

    /// Gives `key` the value `value`, in place of the one it had, if any.
    pub fn insert(&mut self, key: K, value: V)
        ensures
            final(self).model() == old(self).model().insert(key.model(), value.deep_view()),
    {
        let ghost before = *self;
        let ghost target = before.model().insert(key.model(), value.deep_view());
        let ghost k0 = key.model();
        let ghost v0 = value.deep_view();
        proof {
            before.lemma_model();
        }
        match self.find(&key) {
            Some(i) => {
                self.entries.set(i, (key, value));
                proof {
                    assert forall|j: int| 0 <= j < self.entries.len() implies (
                    #[trigger] self.entries[j]).0.model() == before.entries[j].0.model() by {}
                    assert forall|k: K::Model, j: int| #[trigger]
                        self.first_at(k, j) implies target.contains_key(k) && target[k]
                        == self.entries[j].1.deep_view() by {
                        assert(before.entries[j].0.model() == self.entries[j].0.model());
                        assert forall|a: int| 0 <= a < j implies (#[trigger] before.entries[a]).0.model()
                            != k by {
                            assert(self.entries[a].0.model() != k);
                        }
                        assert(before.first_at(k, j));
                        if k == k0 {
                            before.lemma_first(k, i as int);
                            before.lemma_first(k, j);
                        }
                    }
                    assert forall|k: K::Model| #[trigger] target.contains_key(k) implies self.holds(
                        k,
                    ) by {
                        if k == k0 {
                            assert(self.entries[i as int].0.model() == k);
                        } else {
                            assert(before.holds(k));
                            let j = choose|j: int|
                                0 <= j < before.entries.len() && (
                                #[trigger] before.entries[j]).0.model() == k;
                            assert(self.entries[j].0.model() == k);
                        }
                    }
                    self.lemma_model_is(target);
                }
            },
            None => {
                self.entries.push((key, value));
                proof {
                    let last = before.entries.len() as int;
                    assert forall|j: int| 0 <= j < last implies (#[trigger] self.entries[j])
                        == before.entries[j] by {}
                    assert forall|k: K::Model, j: int| #[trigger]
                        self.first_at(k, j) implies target.contains_key(k) && target[k]
                        == self.entries[j].1.deep_view() by {
                        if j < last {
                            assert(self.entries[j] == before.entries[j]);
                            assert forall|a: int| 0 <= a < j implies (
                            #[trigger] before.entries[a]).0.model() != k by {
                                assert(self.entries[a].0.model() != k);
                            }
                            assert(before.first_at(k, j));
                            assert(before.holds(k));
                        } else {
                            assert(k == k0);
                        }
                    }
                    assert forall|k: K::Model| #[trigger] target.contains_key(k) implies self.holds(
                        k,
                    ) by {
                        if k == k0 {
                            assert(self.entries[last].0.model() == k);
                        } else {
                            assert(before.holds(k));
                            let j = choose|j: int|
                                0 <= j < before.entries.len() && (
                                #[trigger] before.entries[j]).0.model() == k;
                            assert(self.entries[j] == before.entries[j]);
                        }
                    }
                    self.lemma_model_is(target);
                }
            },
        }
    }
}

} // verus!
