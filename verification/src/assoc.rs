//! A small association map: each key occurs at most once, and inserting a key that is
//! already present replaces its value.

use vstd::prelude::*;

verus! {

/// A key that can be compared by what it denotes.
pub trait MapKey: View + Sized {
    /// Whether two keys denote the same thing.
    fn same_key(&self, other: &Self) -> (same: bool)
        ensures
            same == (self@ == other@),
    ;
}

impl MapKey for String {
    fn same_key(&self, other: &Self) -> (same: bool) {
        *self == *other
    }
}

/// Whether `key` occurs among `entries`.
pub open spec fn has_key<K: View, V>(entries: Seq<(K, V)>, key: K::V) -> bool {
    exists|i: int| 0 <= i < entries.len() && (#[trigger] entries[i]).0@ == key
}

/// The value that `entries` hold for `key`.
pub open spec fn value_of<K: View, V>(entries: Seq<(K, V)>, key: K::V) -> V {
    entries[choose|i: int| 0 <= i < entries.len() && (#[trigger] entries[i]).0@ == key].1
}

/// The map that a list of entries stands for.
pub open spec fn map_of<K: View, V>(entries: Seq<(K, V)>) -> Map<K::V, V> {
    Map::new(|key: K::V| has_key(entries, key), |key: K::V| value_of(entries, key))
}

/// Whether no key occurs twice.
pub open spec fn keys_distinct<K: View, V>(entries: Seq<(K, V)>) -> bool {
    forall|i: int, j: int|
        0 <= i < j < entries.len() ==> (#[trigger] entries[i]).0@ != (#[trigger] entries[j]).0@
}

/// In a list of distinct keys, the entry at an index is the entry of its key.
pub proof fn lemma_entry_of_key<K: View, V>(entries: Seq<(K, V)>, i: int)
    requires
        keys_distinct(entries),
        0 <= i < entries.len(),
    ensures
        map_of(entries).contains_key(entries[i].0@),
        map_of(entries)[entries[i].0@] == entries[i].1,
{
    let key = entries[i].0@;
    let j = choose|j: int| 0 <= j < entries.len() && (#[trigger] entries[j]).0@ == key;
    assert(entries[i].0@ == key);
    assert(entries[j].0@ == key);
}

/// An association map.
pub struct AssocMap<K: MapKey, V> {
    entries: Vec<(K, V)>,
}

impl<K: MapKey, V> View for AssocMap<K, V> {
    type V = Map<K::V, V>;

    closed spec fn view(&self) -> Map<K::V, V> {
        map_of(self.entries@)
    }
}

impl<K: MapKey, V> AssocMap<K, V> {
    #[verifier::type_invariant]
    spec fn distinct(self) -> bool {
        keys_distinct(self.entries@)
    }

    /// An empty map.
    pub fn new() -> (map: Self)
        ensures
            map@ == Map::<K::V, V>::empty(),
    {
        let map = AssocMap { entries: Vec::new() };
        assert(map@ =~= Map::<K::V, V>::empty());
        map
    }

    /// The entries, in no particular order, each key once.
    pub fn entries(&self) -> (entries: &Vec<(K, V)>)
        ensures
            keys_distinct(entries@),
            self@ == map_of(entries@),
    {
        proof {
            use_type_invariant(self);
        }
        &self.entries
    }

    fn position(entries: &Vec<(K, V)>, key: &K) -> (at: Option<usize>)
        ensures
            at matches Some(i) ==> i < entries@.len() && entries@[i as int].0@ == key@,
            at is None ==> !has_key(entries@, key@),
    {
        let mut i: usize = 0;
        while i < entries.len()
            invariant
                i <= entries@.len(),
                forall|j: int| 0 <= j < i ==> (#[trigger] entries@[j]).0@ != key@,
            decreases entries@.len() - i,
        {
            if entries[i].0.same_key(key) {
                return Some(i);
            }
            i += 1;
        }
        None
    }

    /// The value of a key.
    pub fn get(&self, key: &K) -> (value: Option<&V>)
        ensures
            value is Some <==> self@.contains_key(key@),
            value matches Some(v) ==> *v == self@[key@],
    {
        proof {
            use_type_invariant(self);
        }
        match Self::position(&self.entries, key) {
            Some(i) => {
                proof {
                    lemma_entry_of_key(self.entries@, i as int);
                }
                Some(&self.entries[i].1)
            },
            None => None,
        }
    }

    /// Sets the value of a key.
    pub fn insert(&mut self, key: K, value: V)
        ensures
            final(self)@ == old(self)@.insert(key@, value),
    {
        proof {
            use_type_invariant(&*self);
        }
        let mut entries: Vec<(K, V)> = Vec::new();
        std::mem::swap(&mut entries, &mut self.entries);
        let ghost before = entries@;
        match Self::position(&entries, &key) {
            Some(i) => {
                let ghost k = key@;
                entries.set(i, (key, value));
                proof {
                    lemma_replaced(before, entries@, i as int, k, value);
                }
            },
            None => {
                let ghost k = key@;
                entries.push((key, value));
                proof {
                    assert(entries@.drop_last() =~= before);
                    lemma_appended(before, entries@, k, value);
                }
            },
        }
        self.entries = entries;
    }

    /// Takes a key out of the map.
    pub fn remove(&mut self, key: &K) -> (value: Option<V>)
        ensures
            final(self)@ == old(self)@.remove(key@),
            value is Some <==> old(self)@.contains_key(key@),
            value matches Some(v) ==> v == old(self)@[key@],
    {
        proof {
            use_type_invariant(&*self);
        }
        let mut entries: Vec<(K, V)> = Vec::new();
        std::mem::swap(&mut entries, &mut self.entries);
        let ghost before = entries@;
        let taken = match Self::position(&entries, key) {
            Some(i) => {
                let entry = entries.remove(i);
                proof {
                    lemma_entry_of_key(before, i as int);
                    lemma_removed(before, entries@, i as int, key@);
                }
                Some(entry.1)
            },
            None => {
                assert(map_of(before) =~= map_of(before).remove(key@));
                None
            },
        };
        self.entries = entries;
        taken
    }
}

proof fn lemma_replaced<K: View, V>(
    before: Seq<(K, V)>,
    after: Seq<(K, V)>,
    at: int,
    key: K::V,
    value: V,
)
    requires
        keys_distinct(before),
        0 <= at < before.len(),
        before[at].0@ == key,
        after == before.update(at, after[at]),
        after[at].0@ == key,
        after[at].1 == value,
    ensures
        keys_distinct(after),
        map_of(after) == map_of(before).insert(key, value),
{
    assert(keys_distinct(after)) by {
        assert forall|i: int, j: int| 0 <= i < j < after.len() implies (#[trigger] after[i]).0@ != (
        #[trigger] after[j]).0@ by {
            assert(before[i].0@ != before[j].0@);
        }
    }
    assert forall|k: K::V| has_key(after, k) == (has_key(before, k) || k == key) by {
        if has_key(before, k) {
            let i = choose|i: int| 0 <= i < before.len() && (#[trigger] before[i]).0@ == k;
            assert(after[i].0@ == k);
        }
        if has_key(after, k) {
            let i = choose|i: int| 0 <= i < after.len() && (#[trigger] after[i]).0@ == k;
            assert(before[i].0@ == k);
        }
        assert(after[at].0@ == key);
    }
    assert forall|k: K::V| has_key(after, k) implies value_of(after, k) == (if k == key {
        value
    } else {
        value_of(before, k)
    }) by {
        let i = choose|i: int| 0 <= i < after.len() && (#[trigger] after[i]).0@ == k;
        lemma_entry_of_key(after, i);
        lemma_entry_of_key(before, i);
        lemma_entry_of_key(after, at);
        assert(before[i].0@ == k);
    }
    assert(map_of(after) =~= map_of(before).insert(key, value));
}

proof fn lemma_appended<K: View, V>(
    before: Seq<(K, V)>,
    after: Seq<(K, V)>,
    key: K::V,
    value: V,
)
    requires
        keys_distinct(before),
        !has_key(before, key),
        after.len() == before.len() + 1,
        after.drop_last() == before,
        after.last().0@ == key,
        after.last().1 == value,
    ensures
        keys_distinct(after),
        map_of(after) == map_of(before).insert(key, value),
{
    assert forall|i: int| 0 <= i < before.len() implies after[i] == before[i] by {
        assert(after.drop_last()[i] == after[i]);
    }
    assert(keys_distinct(after)) by {
        assert forall|i: int, j: int| 0 <= i < j < after.len() implies (#[trigger] after[i]).0@ != (
        #[trigger] after[j]).0@ by {
            assert(before[i].0@ != key);
            if j < before.len() {
                assert(before[i].0@ != before[j].0@);
            }
        }
    }
    assert forall|k: K::V| has_key(after, k) == (has_key(before, k) || k == key) by {
        if has_key(before, k) {
            let i = choose|i: int| 0 <= i < before.len() && (#[trigger] before[i]).0@ == k;
            assert(after[i].0@ == k);
        }
        if has_key(after, k) {
            let i = choose|i: int| 0 <= i < after.len() && (#[trigger] after[i]).0@ == k;
            if i < before.len() {
                assert(before[i].0@ == k);
            }
        }
        assert(after[before.len() as int].0@ == key);
    }
    assert forall|k: K::V| has_key(after, k) implies value_of(after, k) == (if k == key {
        value
    } else {
        value_of(before, k)
    }) by {
        let i = choose|i: int| 0 <= i < after.len() && (#[trigger] after[i]).0@ == k;
        lemma_entry_of_key(after, i);
        if i < before.len() {
            lemma_entry_of_key(before, i);
            assert(before[i].0@ != key);
        }
    }
    assert(map_of(after) =~= map_of(before).insert(key, value));
}

proof fn lemma_removed<K: View, V>(before: Seq<(K, V)>, after: Seq<(K, V)>, at: int, key: K::V)
    requires
        keys_distinct(before),
        0 <= at < before.len(),
        before[at].0@ == key,
        after == before.remove(at),
    ensures
        keys_distinct(after),
        map_of(after) == map_of(before).remove(key),
{
    assert forall|i: int| 0 <= i < after.len() implies after[i] == before[if i < at {
        i
    } else {
        i + 1
    }] by {}
    assert(keys_distinct(after)) by {
        assert forall|i: int, j: int| 0 <= i < j < after.len() implies (#[trigger] after[i]).0@ != (
        #[trigger] after[j]).0@ by {
            let bi = if i < at {
                i
            } else {
                i + 1
            };
            let bj = if j < at {
                j
            } else {
                j + 1
            };
            assert(before[bi].0@ != before[bj].0@);
        }
    }
    assert forall|k: K::V| has_key(after, k) == (has_key(before, k) && k != key) by {
        if has_key(before, k) && k != key {
            let i = choose|i: int| 0 <= i < before.len() && (#[trigger] before[i]).0@ == k;
            assert(i != at);
            let ai = if i < at {
                i
            } else {
                i - 1
            };
            assert(after[ai].0@ == k);
        }
        if has_key(after, k) {
            let i = choose|i: int| 0 <= i < after.len() && (#[trigger] after[i]).0@ == k;
            let bi = if i < at {
                i
            } else {
                i + 1
            };
            assert(before[bi].0@ == k);
            assert(before[at].0@ == key);
        }
    }
    assert forall|k: K::V| has_key(after, k) implies value_of(after, k) == value_of(before, k) by {
        let i = choose|i: int| 0 <= i < after.len() && (#[trigger] after[i]).0@ == k;
        let bi = if i < at {
            i
        } else {
            i + 1
        };
        lemma_entry_of_key(after, i);
        lemma_entry_of_key(before, bi);
    }
    assert(map_of(after) =~= map_of(before).remove(key));
}

} // verus!
