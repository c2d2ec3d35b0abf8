//! The ordered property mapping of an object: an `IndexMap` from the
//! `indexmap` crate, and what the library takes on trust about it.

use crate::object::{Property, PropertyKey};
use indexmap::IndexMap;
use vstd::prelude::*;

verus! {

#[verifier::external_type_specification]
#[verifier::external_body]
#[verifier::reject_recursive_types(K)]
#[verifier::reject_recursive_types(V)]
#[verifier::reject_recursive_types(S)]
pub struct ExIndexMap<K, V, S>(IndexMap<K, V, S>);

/// The key-value pairs that a property mapping holds, in insertion order.
pub uninterp spec fn property_entries(map: IndexMap<PropertyKey, Property>) -> Seq<
    (PropertyKey, Property),
>;

/// `IndexMap::new`: a mapping that holds no pair.
#[verifier::external_body]
pub(crate) fn empty_map() -> (map: IndexMap<PropertyKey, Property>)
    ensures
        property_entries(map) == Seq::<(PropertyKey, Property)>::empty(),
{
    IndexMap::new()
}

/// `IndexMap::len`: the number of pairs in the mapping.
#[verifier::external_body]
pub(crate) fn entry_count(map: &IndexMap<PropertyKey, Property>) -> (count: usize)
    ensures
        count == property_entries(*map).len(),
{
    map.len()
}

/// `IndexMap::get_index`: the pair at position `index` in insertion order,
/// or `None` where `index` is not below the number of pairs.
#[verifier::external_body]
pub(crate) fn entry_at(map: &IndexMap<PropertyKey, Property>, index: usize) -> (entry: Option<
    (&PropertyKey, &Property),
>)
    ensures
        index < property_entries(*map).len() ==> entry == Some(
            (&property_entries(*map)[index as int].0, &property_entries(*map)[index as int].1),
        ),
        index >= property_entries(*map).len() ==> entry is None,
{
    map.get_index(index)
}

} // verus!
