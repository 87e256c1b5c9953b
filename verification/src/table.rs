//! Tables from a text to a number, kept in a hash map of the `ahash` crate.
use vstd::prelude::*;
use ahash::AHashMap;
use crate::text::{distinct, texts};

verus! {

#[verifier::external_type_specification]
#[verifier::external_body]
pub struct ExRandomState(ahash::RandomState);

#[verifier::external_type_specification]
#[verifier::external_body]
#[verifier::reject_recursive_types(K)]
#[verifier::reject_recursive_types(V)]
#[verifier::reject_recursive_types(S)]
pub struct ExAHashMap<K, V, S>(ahash::AHashMap<K, V, S>);

/// The number that a table holds for each text it has an entry for.
pub uninterp spec fn entries_of(table: AHashMap<String, usize>) -> Map<Seq<char>, usize>;

/// The entries of a table that holds nothing.
pub open spec fn no_entries() -> Map<Seq<char>, usize> {
    Map::empty()
}

/// `AHashMap::new`: a table without entries.
#[verifier::external_body]
pub(crate) fn new_table() -> (r: AHashMap<String, usize>)
    ensures
        entries_of(r) == no_entries(),
{
    AHashMap::new()
}

/// `AHashMap::get`: the number under a key, if the table has the key.
#[verifier::external_body]
pub(crate) fn entry(table: &AHashMap<String, usize>, key: &str) -> (r: Option<usize>)
    ensures
        r == if entries_of(*table).contains_key(key@) {
            Some(entries_of(*table)[key@])
        } else {
            None
        },
{
    table.get(key).copied()
}

/// `AHashMap::insert`: afterwards the table holds the number under the key,
/// and what it held under every other key before.
#[verifier::external_body]
pub(crate) fn set_entry(table: &mut AHashMap<String, usize>, key: String, number: usize)
    ensures
        entries_of(*final(table)) == entries_of(*old(table)).insert(key@, number),
{
    table.insert(key, number);
}

/// `HashMap::keys`, which an `AHashMap` offers through the map it wraps, each
/// key copied: every key of the table once, in no order that can be relied on.
#[verifier::external_body]
pub(crate) fn keys(table: &AHashMap<String, usize>) -> (r: Vec<String>)
    ensures
        distinct(texts(r@)),
        forall|k: Seq<char>| texts(r@).contains(k) <==> entries_of(*table).contains_key(k),
{
    table.keys().cloned().collect()
}

} // verus!
