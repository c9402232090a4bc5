use std::any::TypeId;
use std::hash::Hash;

use rustc_hash::{FxBuildHasher, FxHashMap};
use vstd::prelude::*;

verus! {

/// The hasher builder of `rustc_hash`, which makes a `HashMap` an `FxHashMap`.
#[verifier::external_type_specification]
#[verifier::external_body]
pub struct ExFxBuildHasher(FxBuildHasher);

/// The identity of a Rust type.
#[verifier::external_type_specification]
#[verifier::external_body]
pub struct ExTypeId(TypeId);

/// The types of the keys that are looked up in this crate. Their `==` holds of equal
/// values only, and equal values have equal hashes.
pub(crate) trait MapKey: Eq + Hash {

}

impl MapKey for u64 {

}

impl MapKey for TypeId {

}

/// `FxHashMap::insert`: the map then holds `value` under `key` and is otherwise as it
/// was; what it held under `key` before is handed back.
#[verifier::external_body]
pub(crate) fn fx_insert<K: MapKey, V>(map: &mut FxHashMap<K, V>, key: K, value: V) -> (previous:
    Option<V>)
    ensures
        final(map)@ == old(map)@.insert(key, value),
        previous == (if old(map)@.contains_key(key) {
            Some(old(map)@[key])
        } else {
            None
        }),
{
    map.insert(key, value)
}

/// `FxHashMap::get`: what the map holds under `key`.
#[verifier::external_body]
pub(crate) fn fx_get<'a, K: MapKey, V>(map: &'a FxHashMap<K, V>, key: &K) -> (value: Option<&'a V>)
    ensures
        value == (if map@.contains_key(*key) {
            Some(&map@[*key])
        } else {
            None
        }),
{
    map.get(key)
}

/// `FxHashMap::contains_key`: whether the map holds anything under `key`.
#[verifier::external_body]
pub(crate) fn fx_contains_key<K: MapKey, V>(map: &FxHashMap<K, V>, key: &K) -> (result: bool)
    ensures
        result == map@.contains_key(*key),
{
    map.contains_key(key)
}

/// `FxHashMap::remove`: the map then holds nothing under `key` and is otherwise as it
/// was; what it held under `key` before is handed back.
#[verifier::external_body]
pub(crate) fn fx_remove<K: MapKey, V>(map: &mut FxHashMap<K, V>, key: &K) -> (previous: Option<V>)
    ensures
        final(map)@ == old(map)@.remove(*key),
        previous == (if old(map)@.contains_key(*key) {
            Some(old(map)@[*key])
        } else {
            None
        }),
{
    map.remove(key)
}

} // verus!
