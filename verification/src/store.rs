//! A keyed store that remembers the order in which keys first arrived.
//!
//! The model of a store is the sequence of its `(key, value)` entries. A key is
//! looked up at its first entry, and writing an existing key replaces that entry
//! in place, so a store filled through [`Registry::insert`] never holds a key
//! twice.

use vstd::prelude::*;

verus! {

/// Entry `i` is the first one that carries `key`.
pub open spec fn is_first_at<K, T>(entries: Seq<(K, T)>, key: K, i: int) -> bool {
    &&& 0 <= i < entries.len()
    &&& entries[i].0 == key
    &&& forall|j: int| 0 <= j < i ==> (#[trigger] entries[j]).0 != key
}

/// Index of the first entry that carries `key`.
pub open spec fn position<K, T>(entries: Seq<(K, T)>, key: K) -> Option<int> {
    if exists|i: int| is_first_at(entries, key, i) {
        Some(choose|i: int| is_first_at(entries, key, i))
    } else {
        None
    }
}

/// The value stored under `key`.
pub open spec fn lookup<K, T>(entries: Seq<(K, T)>, key: K) -> Option<T> {
    match position(entries, key) {
        Some(i) => Some(entries[i].1),
        None => None,
    }
}

/// The entries after `value` was written under `key`: replaced in place where
/// the key exists, appended otherwise.
pub open spec fn upsert<K, T>(entries: Seq<(K, T)>, key: K, value: T) -> Seq<(K, T)> {
    match position(entries, key) {
        Some(i) => entries.update(i, (key, value)),
        None => entries.push((key, value)),
    }
}

/// No two entries carry the same key.
pub open spec fn distinct_keys<K, T>(entries: Seq<(K, T)>) -> bool {
    forall|i: int, j: int|
        0 <= i < j < entries.len() ==> (#[trigger] entries[i]).0 != (#[trigger] entries[j]).0
}

/// The values of the entries, in order.
pub open spec fn values_of<K, T>(entries: Seq<(K, T)>) -> Seq<T> {
    Seq::new(entries.len(), |i: int| entries[i].1)
}

/// The keys of the entries, in order.
pub open spec fn keys_of<K, T>(entries: Seq<(K, T)>) -> Seq<K> {
    Seq::new(entries.len(), |i: int| entries[i].0)
}

/// The first entry with a key is the one that [`position`] names.
pub proof fn lemma_position_is<K, T>(entries: Seq<(K, T)>, key: K, i: int)
    requires
        is_first_at(entries, key, i),
    ensures
        position(entries, key) == Some(i),
{
    let k = choose|k: int| is_first_at(entries, key, k);
    assert(is_first_at(entries, key, k));
    if k < i {
        assert(entries[k].0 != key);
    }
    if i < k {
        assert(entries[i].0 != key);
    }
}

/// A key that no entry carries has no position.
pub proof fn lemma_position_absent<K, T>(entries: Seq<(K, T)>, key: K)
    requires
        forall|j: int| 0 <= j < entries.len() ==> (#[trigger] entries[j]).0 != key,
    ensures
        position(entries, key) is None,
{
}

/// A position that [`position`] reports is the first entry with the key; a
/// key without position occurs nowhere.
pub proof fn lemma_position_sound<K, T>(entries: Seq<(K, T)>, key: K)
    ensures
        match position(entries, key) {
            Some(i) => is_first_at(entries, key, i),
            None => forall|j: int| 0 <= j < entries.len() ==> (#[trigger] entries[j]).0 != key,
        },
{
    if position(entries, key) is None {
        assert forall|j: int| 0 <= j < entries.len() implies (#[trigger] entries[j]).0 != key by {
            if entries[j].0 == key {
                lemma_first_exists(entries, key, j);
            }
        }
    }
}

/// Where some entry carries the key, a first such entry exists.
proof fn lemma_first_exists<K, T>(entries: Seq<(K, T)>, key: K, j: int)
    requires
        0 <= j < entries.len(),
        entries[j].0 == key,
    ensures
        exists|i: int| is_first_at(entries, key, i),
    decreases j,
{
    if forall|k: int| 0 <= k < j ==> (#[trigger] entries[k]).0 != key {
        assert(is_first_at(entries, key, j));
    } else {
        let k = choose|k: int| 0 <= k < j && (#[trigger] entries[k]).0 == key;
        lemma_first_exists(entries, key, k);
    }
}

/// Reading after a write: the written key yields the new value, every other
/// key what it held before.
pub proof fn lemma_lookup_upsert<K, T>(
    entries: Seq<(K, T)>,
    key: K,
    value: T,
    other: K,
)
    ensures
        lookup(upsert(entries, key, value), other) == if other == key {
            Some(value)
        } else {
            lookup(entries, other)
        },
{
    let after = upsert(entries, key, value);
    lemma_position_sound(entries, key);
    lemma_position_sound(entries, other);
    match position(entries, key) {
        Some(i) => {
            if other == key {
                assert(is_first_at(after, key, i));
                lemma_position_is(after, key, i);
            } else {
                match position(entries, other) {
                    Some(k) => {
                        assert(is_first_at(after, other, k));
                        lemma_position_is(after, other, k);
                    },
                    None => {
                        assert forall|j: int| 0 <= j < after.len() implies (#[trigger] after[j]).0
                            != other by {
                            assert(entries[j].0 != other);
                        }
                        lemma_position_absent(after, other);
                    },
                }
            }
        },
        None => {
            let n = entries.len() as int;
            if other == key {
                assert forall|j: int| 0 <= j < n implies (#[trigger] after[j]).0 != key by {
                    assert(entries[j].0 != key);
                }
                assert(is_first_at(after, key, n));
                lemma_position_is(after, key, n);
            } else {
                match position(entries, other) {
                    Some(k) => {
                        assert forall|j: int| 0 <= j < k implies (#[trigger] after[j]).0
                            != other by {
                            assert(entries[j].0 != other);
                        }
                        assert(is_first_at(after, other, k));
                        lemma_position_is(after, other, k);
                    },
                    None => {
                        assert forall|j: int| 0 <= j < after.len() implies (#[trigger] after[j]).0
                            != other by {
                            if j < n {
                                assert(entries[j].0 != other);
                            }
                        }
                        lemma_position_absent(after, other);
                    },
                }
            }
        },
    }
}

/// Writing keeps the keys distinct.
pub proof fn lemma_upsert_distinct<K, T>(entries: Seq<(K, T)>, key: K, value: T)
    requires
        distinct_keys(entries),
    ensures
        distinct_keys(upsert(entries, key, value)),
{
    let after = upsert(entries, key, value);
    lemma_position_sound(entries, key);
    assert forall|i: int, j: int| 0 <= i < j < after.len() implies (#[trigger] after[i]).0 != (
    #[trigger] after[j]).0 by {
        match position(entries, key) {
            Some(k) => {
                assert(entries[i].0 != entries[j].0);
            },
            None => {
                if j < entries.len() {
                    assert(entries[i].0 != entries[j].0);
                } else {
                    assert(entries[i].0 != key);
                }
            },
        }
    }
}

/// No more than `n` numbers below `n` are all different: a function that
/// maps the first `m` numbers to different numbers below `n` has `m <= n`.
proof fn lemma_pigeonhole(f: spec_fn(int) -> int, m: int, n: int)
    requires
        0 <= m,
        0 <= n,
        forall|i: int| 0 <= i < m ==> 0 <= #[trigger] f(i) < n,
        forall|i: int, j: int| 0 <= i < j < m ==> #[trigger] f(i) != #[trigger] f(j),
    ensures
        m <= n,
    decreases m,
{
    if m > 0 {
        let p = f(m - 1);
        assert(0 <= p < n);
        let g = |i: int|
            if f(i) > p {
                f(i) - 1
            } else {
                f(i)
            };
        assert forall|i: int| 0 <= i < m - 1 implies 0 <= #[trigger] g(i) < n - 1 by {
            assert(f(i) != f(m - 1));
        }
        assert forall|i: int, j: int| 0 <= i < j < m - 1 implies #[trigger] g(i) != #[trigger] g(
            j,
        ) by {
            assert(f(i) != f(j));
            assert(f(i) != f(m - 1));
            assert(f(j) != f(m - 1));
        }
        lemma_pigeonhole(g, m - 1, n - 1);
    }
}

/// Keys that are all different and all present are no more than there are
/// entries.
pub proof fn lemma_present_keys_fit<K, T>(entries: Seq<(K, T)>, keys: Seq<K>)
    requires
        forall|i: int, j: int| 0 <= i < j < keys.len() ==> keys[i] != keys[j],
        forall|i: int| 0 <= i < keys.len() ==> position(entries, #[trigger] keys[i]) is Some,
    ensures
        keys.len() <= entries.len(),
{
    let f = |i: int| position(entries, keys[i])->0;
    assert forall|i: int| 0 <= i < keys.len() implies 0 <= #[trigger] f(i) < entries.len() by {
        lemma_position_sound(entries, keys[i]);
    }
    assert forall|i: int, j: int| 0 <= i < j < keys.len() implies #[trigger] f(i) != #[trigger] f(
        j,
    ) by {
        lemma_position_sound(entries, keys[i]);
        lemma_position_sound(entries, keys[j]);
        if f(i) == f(j) {
            assert(entries[f(i)].0 == keys[i]);
            assert(entries[f(j)].0 == keys[j]);
        }
    }
    lemma_pigeonhole(f, keys.len() as int, entries.len() as int);
}

/// An insertion-ordered store from text keys to values.
pub struct Registry<V> {
    entries: Vec<(String, V)>,
}

impl<V: View> View for Registry<V> {
    type V = Seq<(Seq<char>, V::V)>;

    closed spec fn view(&self) -> Seq<(Seq<char>, V::V)> {
        Seq::new(self.entries@.len(), |i: int| (self.entries@[i].0@, self.entries@[i].1@))
    }
}

impl<V: View> Registry<V> {
    /// An empty store.
    pub fn new() -> (r: Self)
        ensures
            r@ == Seq::<(Seq<char>, V::V)>::empty(),
            distinct_keys(r@),
    {
        let r = Registry { entries: Vec::new() };
        assert(r@ =~= Seq::<(Seq<char>, V::V)>::empty());
        r
    }

    /// Number of entries.
    pub fn len(&self) -> (n: usize)
        ensures
            n == self@.len(),
    {
        self.entries.len()
    }

    /// Index of the entry for `key`.
    pub fn find(&self, key: &String) -> (r: Option<usize>)
        ensures
            match r {
                Some(i) => position(self@, key@) == Some(i as int),
                None => position(self@, key@) is None,
            },
    {
        let mut i: usize = 0;
        while i < self.entries.len()
            invariant
                i <= self.entries.len(),
                forall|j: int| 0 <= j < i ==> (#[trigger] self@[j]).0 != key@,
            decreases self.entries.len() - i,
        {
            if self.entries[i].0 == *key {
                proof {
                    assert(self@[i as int].0 == key@);
                    lemma_position_is(self@, key@, i as int);
                }
                return Some(i);
            }
            assert(self@[i as int].0 != key@);
            i = i + 1;
        }
        proof {
            lemma_position_absent(self@, key@);
        }
        None
    }

    /// Whether an entry for `key` exists.
    pub fn contains_key(&self, key: &String) -> (r: bool)
        ensures
            r == lookup(self@, key@).is_some(),
    {
        self.find(key).is_some()
    }

    /// The value stored under `key`.
    pub fn get(&self, key: &String) -> (r: Option<&V>)
        ensures
            match r {
                Some(v) => lookup(self@, key@) == Some(v@),
                None => lookup(self@, key@) is None,
            },
    {
        match self.find(key) {
            Some(i) => {
                assert(self@[i as int].1 == self.entries@[i as int].1@);
                Some(&self.entries[i].1)
            },
            None => None,
        }
    }

    /// Writes `value` under `key`, in place where the key exists, at the end
    /// otherwise.
    pub fn insert(&mut self, key: String, value: V)
        ensures
            final(self)@ == upsert(old(self)@, key@, value@),
            distinct_keys(old(self)@) ==> distinct_keys(final(self)@),
    {
        proof {
            if distinct_keys(old(self)@) {
                lemma_upsert_distinct(old(self)@, key@, value@);
            }
        }
        match self.find(&key) {
            Some(i) => {
                self.entries.set(i, (key, value));
                assert(self@ =~= old(self)@.update(i as int, (key@, value@)));
            },
            None => {
                self.entries.push((key, value));
                assert(self@ =~= old(self)@.push((key@, value@)));
            },
        }
    }

    /// The key of entry `i`.
    pub fn key_at(&self, i: usize) -> (r: &String)
        requires
            i < self@.len(),
        ensures
            r@ == self@[i as int].0,
    {
        &self.entries[i].0
    }

    /// The value of entry `i`.
    pub fn value_at(&self, i: usize) -> (r: &V)
        requires
            i < self@.len(),
        ensures
            r@ == self@[i as int].1,
    {
        &self.entries[i].1
    }
}

} // verus!
