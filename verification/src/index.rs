//! Lists of escrow numbers, kept under a key each.
use vstd::prelude::*;

use crate::table::{Key, Table};
use crate::types::copy_list;

verus! {

/// The list under `key`; the empty list where none is kept.
pub fn ids_at<K: Key>(index: &Table<K, Vec<u64>>, key: &K) -> (r: Vec<u64>)
    ensures
        r@ == crate::ledger::list_at(index@, key@),
{
    match index.get(key) {
        Some(ids) => copy_list(ids),
        None => Vec::new(),
    }
}

/// Adds `id` at the end of the list under `key`.
pub fn append_to_vec_index<K: Key>(index: &mut Table<K, Vec<u64>>, key: K, id: u64)
    ensures
        final(index)@ == crate::ledger::index_added(old(index)@, key@, id),
{
    let mut ids: Vec<u64> = ids_at(index, &key);
    ids.push(id);
    index.set(key, ids);
}

/// Drops every `id` from the list under `key`.
pub fn remove_from_vec_index<K: Key>(index: &mut Table<K, Vec<u64>>, key: K, id: u64)
    ensures
        final(index)@ == crate::ledger::index_dropped(old(index)@, key@, id),
{
    if !index.has(&key) {
        return;
    }
    let ids: Vec<u64> = ids_at(index, &key);
    let mut updated: Vec<u64> = Vec::new();
    let mut i: usize = 0;
    assert(crate::ledger::without(ids@.take(0), id) =~= Seq::<u64>::empty()) by {
        reveal(Seq::filter);
    }
    while i < ids.len()
        invariant
            i <= ids.len(),
            updated@ == crate::ledger::without(ids@.take(i as int), id),
        decreases ids.len() - i,
    {
        proof {
            reveal(Seq::filter);
            assert(ids@.take(i + 1).drop_last() =~= ids@.take(i as int));
        }
        if ids[i] != id {
            updated.push(ids[i]);
        }
        i = i + 1;
    }
    assert(ids@.take(i as int) == ids@);
    index.set(key, updated);
}

/// The page of `ids` that starts after `offset` entries and holds at most `limit` of them,
/// never more than fifty.
pub open spec fn page_of(ids: Seq<u64>, offset: u32, limit: u32) -> Seq<u64> {
    let size: int = if limit < 50 { limit as int } else { 50 };
    let start: int = if offset < ids.len() { offset as int } else { ids.len() as int };
    let end: int = if start + size < ids.len() { start + size } else { ids.len() as int };
    ids.subrange(start, end)
}

/// The page of `ids` that starts after `offset` entries and holds at most `limit` of them,
/// never more than fifty.
pub fn page(ids: &Vec<u64>, offset: u32, limit: u32) -> (r: Vec<u64>)
    ensures
        r@ == page_of(ids@, offset, limit),
{
    let size: usize = if limit < 50 { limit as usize } else { 50 };
    let start: usize = if (offset as usize) < ids.len() { offset as usize } else { ids.len() };
    let end: usize = if ids.len() - start > size { start + size } else { ids.len() };
    let mut result: Vec<u64> = Vec::new();
    let mut i: usize = start;
    while i < end
        invariant
            start <= i <= end <= ids.len(),
            result@ == ids@.subrange(start as int, i as int),
        decreases end - i,
    {
        result.push(ids[i]);
        i = i + 1;
    }
    result
}

} // verus!
