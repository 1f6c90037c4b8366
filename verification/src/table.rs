//! A small table from keys to records: the entries of one kind that a request can see.
use vstd::prelude::*;

use crate::types::{Address, EscrowStatus, Text};

verus! {

/// A key of a [`Table`]: a value that can be compared by its model.
pub trait Key: View + Sized {
    /// Whether the two keys are the same.
    fn same_key(&self, other: &Self) -> (r: bool)
        ensures
            r == (self@ == other@),
    ;
}

impl Key for u64 {
    fn same_key(&self, other: &u64) -> (r: bool) {
        *self == *other
    }
}

impl Key for (u64, u32) {
    fn same_key(&self, other: &(u64, u32)) -> (r: bool) {
        self.0 == other.0 && self.1 == other.1
    }
}

impl Key for Address {
    fn same_key(&self, other: &Address) -> (r: bool) {
        self.same(other)
    }
}

impl Key for EscrowStatus {
    fn same_key(&self, other: &EscrowStatus) -> (r: bool) {
        *self == *other
    }
}

impl Key for Text {
    fn same_key(&self, other: &Text) -> (r: bool) {
        if self.len() != other.len() {
            return false;
        }
        let mut i: usize = 0;
        while i < self.len()
            invariant
                i <= self.len(),
                self.len() == other.len(),
                forall|j: int| 0 <= j < i ==> self@[j] == other@[j],
            decreases self.len() - i,
        {
            if self[i] != other[i] {
                assert(self@[i as int] != other@[i as int]);
                return false;
            }
            i = i + 1;
        }
        assert(self@ =~= other@);
        true
    }
}

/// A table from keys to records, with at most one record under each key.
#[derive(Clone, Debug)]
pub struct Table<K, V> {
    entries: Vec<(K, V)>,
}

/// What a list of entries stands for: a later entry hides an earlier one of the same key.
pub closed spec fn map_of<K: View, V: View>(entries: Seq<(K, V)>) -> Map<K::V, V::V>
    decreases entries.len(),
{
    if entries.len() == 0 {
        Map::empty()
    } else {
        map_of(entries.drop_last()).insert(entries.last().0@, entries.last().1@)
    }
}

/// `i` is the last place in `entries` that holds `key`.
spec fn last_place<K: View, V>(entries: Seq<(K, V)>, key: K::V, i: int) -> bool {
    &&& 0 <= i < entries.len()
    &&& entries[i].0@ == key
    &&& forall|j: int| i < j < entries.len() ==> (#[trigger] entries[j]).0@ != key
}

/// `key` occurs nowhere in `entries`.
spec fn nowhere<K: View, V>(entries: Seq<(K, V)>, key: K::V) -> bool {
    forall|j: int| 0 <= j < entries.len() ==> (#[trigger] entries[j]).0@ != key
}

proof fn lemma_last_place<K: View, V: View>(entries: Seq<(K, V)>, key: K::V, i: int)
    requires
        last_place(entries, key, i),
    ensures
        map_of(entries).contains_key(key),
        map_of(entries)[key] == entries[i].1@,
    decreases entries.len(),
{
    if i < entries.len() - 1 {
        lemma_last_place(entries.drop_last(), key, i);
        assert(entries[entries.len() - 1].0@ != key);
    }
}

proof fn lemma_nowhere<K: View, V: View>(entries: Seq<(K, V)>, key: K::V)
    requires
        nowhere(entries, key),
    ensures
        !map_of(entries).contains_key(key),
    decreases entries.len(),
{
    if entries.len() > 0 {
        lemma_nowhere(entries.drop_last(), key);
        assert(entries[entries.len() - 1].0@ != key);
    }
}

proof fn lemma_update<K: View, V: View>(entries: Seq<(K, V)>, i: int, entry: (K, V))
    requires
        last_place(entries, entry.0@, i),
    ensures
        map_of(entries.update(i, entry)) == map_of(entries).insert(entry.0@, entry.1@),
    decreases entries.len(),
{
    let updated = entries.update(i, entry);
    if i == entries.len() - 1 {
        assert(updated.drop_last() == entries.drop_last());
        assert(map_of(updated) =~= map_of(entries).insert(entry.0@, entry.1@));
    } else {
        lemma_update(entries.drop_last(), i, entry);
        assert(updated.drop_last() == entries.drop_last().update(i, entry));
        assert(entries[entries.len() - 1].0@ != entry.0@);
        assert(map_of(updated) =~= map_of(entries).insert(entry.0@, entry.1@));
    }
}

proof fn lemma_push<K: View, V: View>(entries: Seq<(K, V)>, entry: (K, V))
    ensures
        map_of(entries.push(entry)) == map_of(entries).insert(entry.0@, entry.1@),
{
    assert(entries.push(entry).drop_last() == entries);
}

proof fn lemma_remove<K: View, V: View>(entries: Seq<(K, V)>, i: int)
    requires
        0 <= i < entries.len(),
    ensures
        map_of(entries.remove(i)).remove(entries[i].0@) == map_of(entries).remove(entries[i].0@),
    decreases entries.len(),
{
    let key = entries[i].0@;
    let shorter = entries.remove(i);
    if i == entries.len() - 1 {
        assert(shorter == entries.drop_last());
        assert(map_of(shorter).remove(key) =~= map_of(entries).remove(key));
    } else {
        lemma_remove(entries.drop_last(), i);
        assert(shorter.drop_last() == entries.drop_last().remove(i));
        assert(shorter.last() == entries.last());
        let a = map_of(shorter.drop_last());
        let b = map_of(entries.drop_last());
        let last = entries.last();
        assert(map_of(shorter) == a.insert(last.0@, last.1@));
        assert(map_of(entries) == b.insert(last.0@, last.1@));
        assert(a.remove(key) == b.remove(key));
        assert forall|k: K::V| k != key implies #[trigger] a.contains_key(k) == b.contains_key(k) && (
        a.contains_key(k) ==> a[k] == b[k]) by {
            assert(a.remove(key).contains_key(k) == b.remove(key).contains_key(k));
            assert(a.contains_key(k) ==> a.remove(key)[k] == a[k]);
            assert(b.contains_key(k) ==> b.remove(key)[k] == b[k]);
        }
        let x = map_of(shorter).remove(key);
        let y = map_of(entries).remove(key);
        assert forall|k: K::V| x.dom().contains(k) == y.dom().contains(k) by {
            if k != key {
                assert(a.contains_key(k) == b.contains_key(k));
            }
        }
        assert forall|k: K::V| x.dom().contains(k) implies x[k] == y[k] by {
            assert(a.contains_key(k) == b.contains_key(k));
        }
        assert(x =~= y);
    }
}

impl<K: Key, V: View> View for Table<K, V> {
    type V = Map<K::V, V::V>;

    closed spec fn view(&self) -> Map<K::V, V::V> {
        map_of(self.entries@)
    }
}

impl<K: Key, V: View> Table<K, V> {
    /// The stored entries, in the order in which their keys first came.
    pub closed spec fn entries(&self) -> Seq<(K, V)> {
        self.entries@
    }

    /// The empty table.
    pub fn new() -> (r: Table<K, V>)
        ensures
            r@ == Map::<K::V, V::V>::empty(),
            r.entries().len() == 0,
    {
        Table { entries: Vec::new() }
    }

    /// The place of `key`, if it is in the table.
    fn place(&self, key: &K) -> (r: Option<usize>)
        ensures
            match r {
                Some(i) => last_place(self.entries@, key@, i as int),
                None => nowhere(self.entries@, key@),
            },
    {
        let mut i: usize = self.entries.len();
        while i > 0
            invariant
                i <= self.entries.len(),
                forall|j: int|
                    i <= j < self.entries@.len() ==> (#[trigger] self.entries@[j]).0@ != key@,
            decreases i,
        {
            i = i - 1;
            if self.entries[i].0.same_key(key) {
                return Some(i);
            }
        }
        None
    }

    /// Whether a record is kept under `key`.
    pub fn has(&self, key: &K) -> (r: bool)
        ensures
            r == self@.contains_key(key@),
    {
        match self.place(key) {
            Some(i) => {
                proof {
                    lemma_last_place(self.entries@, key@, i as int);
                }
                true
            },
            None => {
                proof {
                    lemma_nowhere(self.entries@, key@);
                }
                false
            },
        }
    }

    /// The record kept under `key`, if there is one.
    pub fn get(&self, key: &K) -> (r: Option<&V>)
        ensures
            match r {
                Some(v) => self@.contains_key(key@) && v@ == self@[key@],
                None => !self@.contains_key(key@),
            },
    {
        match self.place(key) {
            Some(i) => {
                proof {
                    lemma_last_place(self.entries@, key@, i as int);
                }
                Some(&self.entries[i].1)
            },
            None => {
                proof {
                    lemma_nowhere(self.entries@, key@);
                }
                None
            },
        }
    }

    /// Keeps `value` under `key`, in place of what was there.
    pub fn set(&mut self, key: K, value: V)
        ensures
            final(self)@ == old(self)@.insert(key@, value@),
    {
        match self.place(&key) {
            Some(i) => {
                proof {
                    lemma_update(self.entries@, i as int, (key, value));
                }
                self.entries.set(i, (key, value));
            },
            None => {
                proof {
                    lemma_push(self.entries@, (key, value));
                }
                self.entries.push((key, value));
            },
        }
    }

    /// Drops what is kept under `key`, if anything.
    pub fn remove(&mut self, key: &K)
        ensures
            final(self)@ == old(self)@.remove(key@),
    {
        let mut i: usize = 0;
        while i < self.entries.len()
            invariant
                i <= self.entries.len(),
                forall|j: int| 0 <= j < i ==> (#[trigger] self.entries@[j]).0@ != key@,
                map_of(self.entries@).remove(key@) == map_of(old(self).entries@).remove(key@),
            decreases self.entries.len() - i,
        {
            if self.entries[i].0.same_key(key) {
                proof {
                    lemma_remove(self.entries@, i as int);
                }
                self.entries.remove(i);
            } else {
                i = i + 1;
            }
        }
        proof {
            lemma_nowhere(self.entries@, key@);
            assert(map_of(self.entries@).remove(key@) =~= map_of(self.entries@));
        }
    }

    /// The number of stored entries.
    pub fn len(&self) -> (r: usize)
        ensures
            r == self.entries().len(),
    {
        self.entries.len()
    }

    /// The stored entry at place `i`.
    pub fn entry(&self, i: usize) -> (r: &(K, V))
        requires
            i < self.entries().len(),
        ensures
            *r == self.entries()[i as int],
    {
        &self.entries[i]
    }
}

} // verus!
