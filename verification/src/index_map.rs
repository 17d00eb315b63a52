//! The window registry's storage: an `indexmap::IndexMap` from window
//! identity to display name. This module states, without proof, what the
//! map's methods do to the entries it holds; everything built on it is
//! proved from these statements.

use indexmap::IndexMap;
use std::any::TypeId;
use vstd::prelude::*;

verus! {

/// `indexmap::IndexMap`, opaque to the verifier.
#[verifier::external_type_specification]
#[verifier::external_body]
#[verifier::reject_recursive_types(K)]
#[verifier::reject_recursive_types(V)]
#[verifier::reject_recursive_types(S)]
pub struct ExIndexMap<K, V, S>(indexmap::IndexMap<K, V, S>);

/// The key-value pairs a map holds, in the map's order, each name as its
/// characters.
pub uninterp spec fn window_entries(map: &IndexMap<TypeId, &'static str>) -> Seq<
    (TypeId, Seq<char>),
>;

/// The keys of a sequence of entries, in order.
pub open spec fn entry_keys(entries: Seq<(TypeId, Seq<char>)>) -> Seq<TypeId> {
    Seq::new(entries.len(), |i: int| entries[i].0)
}

/// Whether some entry has this key.
pub open spec fn has_key(entries: Seq<(TypeId, Seq<char>)>, key: TypeId) -> bool {
    exists|i: int| 0 <= i < entries.len() && (#[trigger] entries[i]).0 == key
}

/// `IndexMap::new`: the map it returns holds no entries.
#[verifier::external_body]
pub(crate) fn index_map_new() -> (map: IndexMap<TypeId, &'static str>)
    ensures
        window_entries(&map) == Seq::<(TypeId, Seq<char>)>::empty(),
{
    IndexMap::new()
}

/// `IndexMap::insert`: a key that the map does not hold yet is added with
/// its value as the last entry, and `None` is returned. For a key that the
/// map holds, the entry keeps its place, its value is replaced, and the
/// former value is returned.
#[verifier::external_body]
pub(crate) fn index_map_insert(
    map: &mut IndexMap<TypeId, &'static str>,
    key: TypeId,
    value: &'static str,
) -> (previous: Option<&'static str>)
    ensures
        !has_key(window_entries(old(map)), key) ==> {
            &&& previous is None
            &&& window_entries(final(map)) == window_entries(old(map)).push((key, value@))
        },
        has_key(window_entries(old(map)), key) ==> exists|i: int|
            {
                &&& 0 <= i < window_entries(old(map)).len()
                &&& (#[trigger] window_entries(old(map))[i]).0 == key
                &&& previous matches Some(name) && name@ == window_entries(old(map))[i].1
                &&& window_entries(final(map)) == window_entries(old(map)).update(
                    i,
                    (key, value@),
                )
            },
{
    map.insert(key, value)
}

/// `IndexMap::contains_key`: whether some entry has this key.
#[verifier::external_body]
pub(crate) fn index_map_contains_key(map: &IndexMap<TypeId, &'static str>, key: &TypeId) -> (found:
    bool)
    ensures
        found == has_key(window_entries(map), *key),
{
    map.contains_key(key)
}

/// `IndexMap::get`: the value of the entry with this key, or `None` when no
/// entry has it.
#[verifier::external_body]
pub(crate) fn index_map_get(map: &IndexMap<TypeId, &'static str>, key: &TypeId) -> (value: Option<
    &'static str,
>)
    ensures
        match value {
            Some(name) => exists|i: int|
                0 <= i < window_entries(map).len() && #[trigger] window_entries(map)[i] == (
                    *key,
                    name@,
                ),
            None => !has_key(window_entries(map), *key),
        },
{
    map.get(key).copied()
}

/// `IndexMap::keys`: the keys of the entries, in the map's order.
#[verifier::external_body]
pub(crate) fn index_map_keys(map: &IndexMap<TypeId, &'static str>) -> (keys: Vec<TypeId>)
    ensures
        keys@ == entry_keys(window_entries(map)),
{
    map.keys().copied().collect()
}

/// `IndexMap::iter`: the entries, in the map's order.
#[verifier::external_body]
pub(crate) fn index_map_iter(map: &IndexMap<TypeId, &'static str>) -> (entries: Vec<
    (TypeId, &'static str),
>)
    ensures
        entries@.len() == window_entries(map).len(),
        forall|i: int|
            0 <= i < entries@.len() ==> (#[trigger] entries@[i]).0 == window_entries(map)[i].0
                && entries@[i].1@ == window_entries(map)[i].1,
{
    map.iter().map(|(key, value)| (*key, *value)).collect()
}

} // verus!
