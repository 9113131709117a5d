//! The mathematical model of a store's contents: a finite map from
//! byte-string keys to byte-string values, together with the laws that the
//! data operations obey at that level.
//!
//! The executable operations in `store` state their contracts over this
//! model, so each law below transfers to runs of the real operations.

use vstd::prelude::*;

verus! {

/// Abstract contents of one open store.
pub type StoreModel = Map<Seq<u8>, Seq<u8>>;

/// What a successful insert does to the contents.
pub open spec fn store_put(m: StoreModel, key: Seq<u8>, value: Seq<u8>) -> StoreModel {
    m.insert(key, value)
}

/// What a successful delete does to the contents.
pub open spec fn store_delete(m: StoreModel, key: Seq<u8>) -> StoreModel {
    m.remove(key)
}

/// What a successful lookup returns: the bound value, or nothing.
pub open spec fn store_lookup(m: StoreModel, key: Seq<u8>) -> Option<Seq<u8>> {
    if m.contains_key(key) {
        Some(m[key])
    } else {
        None
    }
}

/// Law: a lookup right after an insert of `key -> value` finds exactly
/// `value` (round trip).
pub proof fn lemma_put_then_lookup(m: StoreModel, key: Seq<u8>, value: Seq<u8>)
    ensures
        store_lookup(store_put(m, key, value), key) == Some(value),
{
}

/// Law: a key that was never bound is reported absent by a lookup.
pub proof fn lemma_absent_lookup(m: StoreModel, key: Seq<u8>)
    requires
        !m.contains_key(key),
    ensures
        store_lookup(m, key) is None,
{
}

/// Law: after a delete the key is absent, and deleting an absent key leaves
/// the contents unchanged (idempotence on absent keys).
pub proof fn lemma_delete_absent(m: StoreModel, key: Seq<u8>)
    ensures
        store_lookup(store_delete(m, key), key) is None,
        !m.contains_key(key) ==> store_delete(m, key) == m,
{
    if !m.contains_key(key) {
        assert(store_delete(m, key) =~= m);
    }
}

/// Law: the latest insert for a key wins (overwrite).
pub proof fn lemma_overwrite(m: StoreModel, key: Seq<u8>, v1: Seq<u8>, v2: Seq<u8>)
    ensures
        store_lookup(store_put(store_put(m, key, v1), key, v2), key) == Some(v2),
{
}

/// Law: an insert under one key does not disturb a lookup under a distinct
/// key, so writes under distinct keys are independently readable in any
/// serialization order.
pub proof fn lemma_distinct_keys_independent(
    m: StoreModel,
    key: Seq<u8>,
    other: Seq<u8>,
    value: Seq<u8>,
)
    requires
        key != other,
    ensures
        store_lookup(store_put(m, other, value), key) == store_lookup(m, key),
{
}

} // verus!
