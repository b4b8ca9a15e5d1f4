//! The ledger store: an in-memory association table from keys to copyable
//! records, with a mathematical `Map` view. Absence is a first-class
//! outcome: `get` returns `None` for a missing key. The table keeps at most
//! one entry per key view, so the `Map` view is exact.

use vstd::prelude::*;

verus! {

/// A key whose executable equality agrees with equality of views.
pub trait TableKey: View + Sized {
    /// Decides whether two keys are the same key of the store.
    fn key_eq(&self, other: &Self) -> (r: bool)
        ensures
            r == (self@ == other@),
    ;
}

impl TableKey for u128 {
    fn key_eq(&self, other: &Self) -> (r: bool) {
        *self == *other
    }
}

impl TableKey for String {
    fn key_eq(&self, other: &Self) -> (r: bool) {
        *self == *other
    }
}

/// The `Map` denoted by a sequence of key-value entries, later entries
/// winning.
pub open spec fn map_of<K: View, U>(entries: Seq<(K, U)>) -> Map<<K as View>::V, U>
    decreases entries.len(),
{
    if entries.len() == 0 {
        Map::empty()
    } else {
        map_of(entries.drop_last()).insert(entries.last().0@, entries.last().1)
    }
}

/// Whether no two entries share a key view.
pub open spec fn distinct_keys<K: View, U>(entries: Seq<(K, U)>) -> bool {
    forall|i: int, j: int|
        0 <= i < j < entries.len() ==> entries[i].0@ != entries[j].0@
}

/// One table of the ledger store.
pub struct Table<K: TableKey, U: Copy> {
    entries: Vec<(K, U)>,
}

impl<K: TableKey, U: Copy> View for Table<K, U> {
    type V = Map<<K as View>::V, U>;

    closed spec fn view(&self) -> Map<<K as View>::V, U> {
        map_of(self.entries@)
    }
}

/// A key of the map view is exactly a key of some entry.
proof fn lemma_map_of_contains<K: View, U>(entries: Seq<(K, U)>, k: <K as View>::V)
    ensures
        map_of(entries).contains_key(k) <==> exists|i: int|
            0 <= i < entries.len() && entries[i].0@ == k,
    decreases entries.len(),
{
    if entries.len() > 0 {
        lemma_map_of_contains(entries.drop_last(), k);
        if entries.last().0@ != k && map_of(entries).contains_key(k) {
            let i = choose|i: int|
                0 <= i < entries.drop_last().len() && entries.drop_last()[i].0@ == k;
            assert(entries[i].0@ == k);
        }
        if exists|i: int| 0 <= i < entries.len() && entries[i].0@ == k {
            let i = choose|i: int| 0 <= i < entries.len() && entries[i].0@ == k;
            if i < entries.len() - 1 {
                assert(entries.drop_last()[i].0@ == k);
            }
        }
    }
}

/// With distinct keys, the map view sends each entry's key to its value.
proof fn lemma_map_of_index<K: View, U>(entries: Seq<(K, U)>, i: int)
    requires
        distinct_keys(entries),
        0 <= i < entries.len(),
    ensures
        map_of(entries).contains_key(entries[i].0@),
        map_of(entries)[entries[i].0@] == entries[i].1,
    decreases entries.len(),
{
    if i < entries.len() - 1 {
        assert(distinct_keys(entries.drop_last()));
        lemma_map_of_index(entries.drop_last(), i);
        assert(entries.drop_last()[i] == entries[i]);
    }
}

/// Replacing the value at one entry, under a key with the same view, is an
/// insert on the map view.
proof fn lemma_map_of_update<K: View, U>(entries: Seq<(K, U)>, i: int, pair: (K, U))
    requires
        distinct_keys(entries),
        0 <= i < entries.len(),
        pair.0@ == entries[i].0@,
    ensures
        map_of(entries.update(i, pair)) =~= map_of(entries).insert(pair.0@, pair.1),
        distinct_keys(entries.update(i, pair)),
    decreases entries.len(),
{
    let updated = entries.update(i, pair);
    assert forall|a: int, b: int| 0 <= a < b < updated.len() implies
        updated[a].0@ != updated[b].0@ by {
        assert(entries[a].0@ != entries[b].0@);
    }
    if i == entries.len() - 1 {
        assert(updated.drop_last() =~= entries.drop_last());
    } else {
        assert(updated.drop_last() =~= entries.drop_last().update(i, pair));
        assert(distinct_keys(entries.drop_last()));
        lemma_map_of_update(entries.drop_last(), i, pair);
        assert(entries.last().0@ != entries[i].0@);
    }
}

impl<K: TableKey, U: Copy> Table<K, U> {
    #[verifier::type_invariant]
    closed spec fn wf(self) -> bool {
        distinct_keys(self.entries@)
    }

    /// An empty table.
    pub fn new() -> (r: Self)
        ensures
            r@ == Map::<<K as View>::V, U>::empty(),
    {
        let r = Table { entries: Vec::new() };
        proof {
            assert(r@ =~= Map::<<K as View>::V, U>::empty());
        }
        r
    }

    /// The index of the entry holding `key`, if the table has one.
    fn find(&self, key: &K) -> (r: Option<usize>)
        ensures
            match r {
                Some(i) => i < self.entries@.len() && self.entries@[i as int].0@ == key@,
                None => forall|j: int|
                    0 <= j < self.entries@.len() ==> self.entries@[j].0@ != key@,
            },
    {
        let mut i: usize = 0;
        while i < self.entries.len()
            invariant
                i <= self.entries@.len(),
                forall|j: int| 0 <= j < i ==> self.entries@[j].0@ != key@,
            decreases self.entries@.len() - i,
        {
            if self.entries[i].0.key_eq(key) {
                return Some(i);
            }
            i = i + 1;
        }
        None
    }

    /// Whether the table holds an entry for `key`.
    pub fn contains(&self, key: &K) -> (r: bool)
        ensures
            r == self@.contains_key(key@),
    {
        proof {
            lemma_map_of_contains(self.entries@, key@);
        }
        match self.find(key) {
            Some(_) => true,
            None => false,
        }
    }

    /// The value stored under `key`, or `None` when the table has no entry
    /// for it.
    pub fn get(&self, key: &K) -> (r: Option<U>)
        ensures
            r == (if self@.contains_key(key@) {
                Some(self@[key@])
            } else {
                None::<U>
            }),
    {
        proof {
            use_type_invariant(self);
            lemma_map_of_contains(self.entries@, key@);
        }
        match self.find(key) {
            Some(i) => {
                proof {
                    lemma_map_of_index(self.entries@, i as int);
                }
                Some(self.entries[i].1)
            },
            None => None,
        }
    }

    /// Stores `value` under `key`, replacing any earlier entry for the same
    /// key.
    pub fn insert(&mut self, key: K, value: U)
        ensures
            final(self)@ == old(self)@.insert(key@, value),
    {
        proof {
            use_type_invariant(&*self);
            lemma_map_of_contains(self.entries@, key@);
        }
        let found = self.find(&key);
        let mut entries: Vec<(K, U)> = Vec::new();
        core::mem::swap(&mut entries, &mut self.entries);
        let ghost orig = entries@;
        match found {
            Some(i) => {
                proof {
                    lemma_map_of_update(orig, i as int, (key, value));
                }
                entries[i] = (key, value);
            },
            None => {
                entries.push((key, value));
                proof {
                    assert(entries@.drop_last() =~= orig);
                    assert(map_of(entries@) =~= map_of(orig).insert(key@, value));
                }
            },
        }
        core::mem::swap(&mut entries, &mut self.entries);
    }
}

} // verus!
