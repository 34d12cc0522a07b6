//! Hash tables keyed by a number, hashed with the Fx hasher.
//!
//! `rustc_hash::FxHashMap` is std's `HashMap` with another hasher. vstd describes
//! std's map only for the hashers it knows, so the four operations used here are
//! stated in this file and believed, not proved.

use rustc_hash::{FxHashMap, FxHasher};
use std::hash::BuildHasherDefault;
use vstd::prelude::*;

verus! {

/// `rustc_hash::FxHasher`, the hasher state of an Fx table. Nothing is read from it.
#[verifier::external_type_specification]
#[verifier::external_body]
pub struct ExFxHasher(FxHasher);

/// `std::hash::BuildHasherDefault`, which makes a table's hashers with
/// `Default`. Nothing is read from it.
#[verifier::external_type_specification]
#[verifier::external_body]
#[verifier::reject_recursive_types(H)]
pub struct ExBuildHasherDefault<H>(BuildHasherDefault<H>);

/// `HashMap::insert` on an Fx table: afterwards `key` maps to `value` and every
/// other key is as before; the value that `key` had, if any, is returned.
#[verifier::external_body]
pub(crate) fn table_insert<V>(table: &mut FxHashMap<u64, V>, key: u64, value: V) -> (previous:
    Option<V>)
    ensures
        final(table)@ == old(table)@.insert(key, value),
        previous == (if old(table)@.contains_key(key) {
            Some(old(table)@[key])
        } else {
            None
        }),
{
    table.insert(key, value)
}

/// `HashMap::remove` on an Fx table: afterwards `key` is absent and every other
/// key is as before; the value that `key` had, if any, is returned.
#[verifier::external_body]
pub(crate) fn table_remove<V>(table: &mut FxHashMap<u64, V>, key: u64) -> (previous: Option<V>)
    ensures
        final(table)@ == old(table)@.remove(key),
        previous == (if old(table)@.contains_key(key) {
            Some(old(table)@[key])
        } else {
            None
        }),
{
    table.remove(&key)
}

/// `HashMap::get` on an Fx table: the value filed under `key`, if there is one.
#[verifier::external_body]
pub(crate) fn table_get<'a, V>(table: &'a FxHashMap<u64, V>, key: u64) -> (found: Option<&'a V>)
    ensures
        found == (if table@.contains_key(key) {
            Some(&table@[key])
        } else {
            None
        }),
{
    table.get(&key)
}

/// `HashMap::len` on an Fx table: the number of keys filed.
#[verifier::external_body]
pub(crate) fn table_len<V>(table: &FxHashMap<u64, V>) -> (count: usize)
    ensures
        count == table@.len(),
{
    table.len()
}

/// Whether `key` is filed in `table`.
pub(crate) fn table_contains<V>(table: &FxHashMap<u64, V>, key: u64) -> (found: bool)
    ensures
        found == table@.contains_key(key),
{
    table_get(table, key).is_some()
}

} // verus!
