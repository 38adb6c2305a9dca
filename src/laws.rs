//! Laws that relate successive accesses, stated over the terms in which the
//! handles' contracts describe a container after a write.
use crate::seq_entry::grown_len;
use vstd::prelude::*;

verus! {

/// A map that a handle on `key` left holding `written` (the contracts of
/// `deep_entry` on a map and of `map_child` give `before.insert(key, value)`,
/// with `value` the handle's final value) maps `key` to `written`. So a
/// later handle on `key` is occupied by `written`, a get-or-insert on it
/// returns `written` whatever default it is given, and leaving that value
/// in place gives back the same map.
pub proof fn lemma_map_resolve_after_write<K, V>(before: Map<K, V>, key: K, written: V)
    ensures
        before.insert(key, written).get(key) == Some(written),
        before.insert(key, written).insert(key, written) == before.insert(key, written),
{
    assert(before.insert(key, written).insert(key, written) =~= before.insert(key, written));
}

/// A sequence that a handle on index `key` left with `written` at `key`
/// (the contracts of `VecEntry` give length `grown_len(before.len(), key)`
/// and the handle's final value at `key`) covers `key`. So a later handle
/// on `key` grows nothing, a get-or-insert on it returns `written` whatever
/// default it is given, and leaving that value in place gives back the same
/// sequence.
pub proof fn lemma_seq_resolve_after_write<T>(before: Seq<T>, after: Seq<T>, key: nat, written: T)
    requires
        after.len() == grown_len(before.len(), key),
        after[key as int] == written,
    ensures
        key < after.len(),
        grown_len(after.len(), key) == after.len(),
        after.update(key as int, written) == after,
{
    assert(after.update(key as int, written) =~= after);
}

} // verus!
