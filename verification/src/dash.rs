//! The concurrent hash map of `dashmap`, from numbers to numbers.

use dashmap::DashMap;
use vstd::prelude::*;

verus! {

/// `dashmap::DashMap`, whose shards stay hidden.
#[verifier::external_type_specification]
#[verifier::external_body]
#[verifier::reject_recursive_types(K)]
#[verifier::reject_recursive_types(V)]
#[verifier::reject_recursive_types(S)]
pub struct ExDashMap<K, V, S>(DashMap<K, V, S>);

/// The entries that a `DashMap` holds.
pub uninterp spec fn dash_entries(table: DashMap<usize, usize>) -> Map<usize, usize>;

/// `DashMap::new`: the map that it makes holds no entry.
#[verifier::external_body]
pub(crate) fn dash_new() -> (table: DashMap<usize, usize>)
    ensures
        dash_entries(table) == (Map::<usize, usize>::empty()),
{
    DashMap::new()
}

/// `DashMap::insert`: afterwards the key maps to the value and every other key to what
/// it mapped to before. The method itself takes a shared reference; the exclusive one
/// here keeps every other writer out.
#[verifier::external_body]
pub(crate) fn dash_insert(table: &mut DashMap<usize, usize>, key: usize, value: usize)
    ensures
        dash_entries(*final(table)) == dash_entries(*old(table)).insert(key, value),
{
    table.insert(key, value);
}

/// `DashMap::view`, with a closure that copies the value out: the value that the key
/// maps to, or nothing where there is no entry for the key.
#[verifier::external_body]
pub(crate) fn dash_view(table: &DashMap<usize, usize>, key: &usize) -> (found: Option<usize>)
    ensures
        found == (if dash_entries(*table).contains_key(*key) {
            Some(dash_entries(*table)[*key])
        } else {
            None
        }),
{
    table.view(key, |_, value| *value)
}

}
