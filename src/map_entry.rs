//! The mapping half of deep access: an entry of a `HashMap`, and the step
//! that fetches or creates the child container stored under a key.
use std::collections::hash_map::Entry;
use std::collections::HashMap;
use std::hash::Hash;
use vstd::prelude::*;
use vstd::std_specs::hash::obeys_key_model;
use vstd::std_specs::hash::EntrySpecFns;

verus! {

broadcast use vstd::std_specs::hash::group_hash_axioms;

/// Hands out the value of `entry`, first inserting one computed by `default`
/// if the entry is vacant; `default` runs only in that case.
pub fn entry_or_insert_with<'a, K, V, F: FnOnce() -> V>(entry: Entry<'a, K, V>, default: F) -> (r:
    &'a mut V)
    requires
        default.requires(()),
    ensures
        entry.value() is Some ==> *r == entry.value().unwrap(),
        entry.value() is None ==> default.ensures((), *r),
        entry.final_value() == Some(*final(r)),
{
    match entry {
        Entry::Occupied(o) => o.into_mut(),
        Entry::Vacant(v) => {
            let x = default();
            v.insert(x)
        },
    }
}

/// Hands out the child stored under `key`, first inserting a
/// default-constructed one if `key` is absent. No other key is touched.
pub fn map_child<'a, K: Eq + Hash, V: Default>(m: &'a mut HashMap<K, V>, key: K) -> (r: &'a mut V)
    ensures
        obeys_key_model::<K>() ==> {
            &&& old(m)@.contains_key(key) ==> *r == old(m)@[key]
            &&& !old(m)@.contains_key(key) ==> call_ensures(V::default, (), *r)
            &&& final(m)@ == old(m)@.insert(key, *final(r))
            &&& forall|k: K|
                k != key ==> (#[trigger] final(m)@.contains_key(k) == old(m)@.contains_key(k)
                    && final(m)@.get(k) == old(m)@.get(k))
            &&& old(m)@.is_empty() ==> final(m)@.dom() == set![key]
        },
{
    let entry = m.entry(key);
    entry_or_insert_with(entry, || -> (d: V)
        ensures
            call_ensures(V::default, (), d),
        { V::default() })
}

} // verus!
