use indexmap::IndexMap;
use vstd::prelude::*;
use crate::workspace_domain::design_system_domain::{keys_distinct, Entries};

verus! {

/// `indexmap::IndexMap`, a map that keeps its entries in the order in which
/// their keys were first inserted.
#[verifier::external_type_specification]
#[verifier::external_body]
#[verifier::reject_recursive_types(K)]
#[verifier::reject_recursive_types(V)]
#[verifier::reject_recursive_types(S)]
pub struct ExIndexMap<K, V, S>(IndexMap<K, V, S>);

/// The entries of a map from texts to texts, in the map's own order.
pub uninterp spec fn index_map_entries(map: IndexMap<String, String>) -> Entries;

/// The first place in `entries` that holds `key`, if any.
pub open spec fn key_position(entries: Entries, key: Seq<char>) -> Option<int>
    decreases entries.len(),
{
    if entries.len() == 0 {
        None
    } else {
        match key_position(entries.drop_last(), key) {
            Some(i) => Some(i),
            None => if entries.last().0 == key {
                Some(entries.len() - 1)
            } else {
                None
            },
        }
    }
}

/// The entries after `key` was given `value`: where the key is present, its
/// entry keeps its place and takes the value; else the entry comes last.
pub open spec fn inserted(entries: Entries, key: Seq<char>, value: Seq<char>) -> Entries {
    match key_position(entries, key) {
        Some(i) => entries.update(i, (entries[i].0, value)),
        None => entries.push((key, value)),
    }
}

/// The entries after each of `items` was inserted, in order.
pub open spec fn inserted_all(entries: Entries, items: Entries) -> Entries
    decreases items.len(),
{
    if items.len() == 0 {
        entries
    } else {
        inserted(inserted_all(entries, items.drop_last()), items.last().0, items.last().1)
    }
}

/// Calls `IndexMap::new`: the new map has no entries.
#[verifier::external_body]
pub(crate) fn index_map_new() -> (res: IndexMap<String, String>)
    ensures
        index_map_entries(res) == Seq::<(Seq<char>, Seq<char>)>::empty(),
{
    IndexMap::new()
}

/// Calls `IndexMap::insert`: where the map holds the key, the entry keeps its
/// place and its key and takes the new value; else the new entry is the last.
#[verifier::external_body]
pub(crate) fn index_map_insert(map: &mut IndexMap<String, String>, key: String, value: String)
    ensures
        index_map_entries(*final(map)) == inserted(index_map_entries(*old(map)), key@, value@),
{
    map.insert(key, value);
}

/// Walks `IndexMap::iter` and copies each entry: the entries come in the
/// map's order.
#[verifier::external_body]
pub(crate) fn index_map_to_vec(map: &IndexMap<String, String>) -> (res: Vec<(String, String)>)
    ensures
        res.deep_view() == index_map_entries(*map),
{
    map.iter().map(|(key, value)| (key.clone(), value.clone())).collect()
}

/// The keys of `entries` that stand before `n`, none of them `key`.
pub open spec fn absent_before(entries: Entries, key: Seq<char>, n: int) -> bool {
    forall|i: int| 0 <= i < n ==> (#[trigger] entries[i]).0 != key
}

/// A key that stands nowhere in `entries` has no position there.
pub proof fn lemma_absent_key_has_no_position(entries: Entries, key: Seq<char>)
    requires
        absent_before(entries, key, entries.len() as int),
    ensures
        key_position(entries, key) is None,
    decreases entries.len(),
{
    if entries.len() > 0 {
        let front = entries.drop_last();
        assert forall|i: int| 0 <= i < front.len() implies (#[trigger] front[i]).0 != key by {
            assert(front[i] == entries[i]);
        }
        lemma_absent_key_has_no_position(front, key);
    }
}

/// Inserting entries whose keys are all different into a map without
/// entries gives those entries, in their order.
pub proof fn lemma_distinct_entries_are_kept(items: Entries)
    requires
        keys_distinct(items),
    ensures
        inserted_all(Seq::empty(), items) == items,
    decreases items.len(),
{
    if items.len() == 0 {
        assert(items =~= Seq::empty());
    } else {
        let front = items.drop_last();
        assert forall|i: int, j: int| 0 <= i < j < front.len() implies (#[trigger] front[i]).0 != (
        #[trigger] front[j]).0 by {
            assert(front[i] == items[i]);
            assert(front[j] == items[j]);
        }
        lemma_distinct_entries_are_kept(front);
        assert forall|i: int| 0 <= i < front.len() implies (#[trigger] front[i]).0
            != items.last().0 by {
            assert(front[i] == items[i]);
        }
        lemma_absent_key_has_no_position(front, items.last().0);
        assert(front.push(items.last()) =~= items);
    }
}

} // verus!
