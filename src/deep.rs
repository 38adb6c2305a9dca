//! Resolution of a composite key against nested containers.
//!
//! A composite key is either a scalar key of the outermost container (a key
//! of a `HashMap`, an index of a `Vec`) or a pair `(key, rest)`, where `rest`
//! is resolved inside the child stored under `key`. The shape of the key is
//! checked by the type system: each impl below accepts exactly the key shape
//! that matches the nesting of the container.
use crate::map_entry::map_child;
use crate::seq_entry::grown_len;
use crate::seq_entry::VecEntry;
use std::collections::hash_map::Entry;
use std::collections::HashMap;
use std::hash::Hash;
use vstd::prelude::*;
use vstd::std_specs::hash::obeys_key_model;
use vstd::std_specs::hash::EntrySpecFns;

verus! {

/// Access to the slot that a composite key `I` addresses inside `Self`,
/// creating on the way every missing container along the path.
pub trait DeepEntry<'a, I>: Sized {
    /// The handle on the addressed slot.
    type Entry;

    /// Resolves `key` against `self` and hands out the handle on the slot it
    /// addresses.
    fn deep_entry(&'a mut self, key: I) -> Self::Entry;
}

/// A scalar key of a map: its entry.
impl<'a, K: 'a + Eq + Hash, V: 'a> DeepEntry<'a, K> for HashMap<K, V> {
    type Entry = Entry<'a, K, V>;

    fn deep_entry(&'a mut self, key: K) -> (e: Self::Entry)
        ensures
            obeys_key_model::<K>() ==> {
                &&& e.spec_key() == key
                &&& e.value() == old(self)@.get(key)
                &&& final(self)@ == match e.final_value() {
                    Some(v) => old(self)@.insert(key, v),
                    None => old(self)@.remove(key),
                }
            },
            obeys_key_model::<K>() ==> forall|k: K|
                k != key ==> #[trigger] final(self)@.get(k) == old(self)@.get(k),
            obeys_key_model::<K>() && old(self)@.is_empty() && e.final_value() is Some
                ==> final(self)@.dom() == set![key],
    {
        self.entry(key)
    }
}

/// A pair `(key, rest)` against a map: `rest` inside the child under `key`,
/// created empty if absent.
impl<'a, K: Eq + Hash, V, I> DeepEntry<'a, (K, I)> for HashMap<K, V> where
    V: DeepEntry<'a, I> + Default,
 {
    type Entry = V::Entry;

    fn deep_entry(&'a mut self, key: (K, I)) -> (e: Self::Entry)
        ensures
            obeys_key_model::<K>() ==> exists|child: &'a mut V|
                {
                    &&& old(self)@.contains_key(key.0) ==> *child == old(self)@[key.0]
                    &&& !old(self)@.contains_key(key.0) ==> call_ensures(V::default, (), *child)
                    &&& final(self)@ == old(self)@.insert(key.0, *final(child))
                    &&& call_ensures(V::deep_entry, (child, key.1), e)
                },
            obeys_key_model::<K>() ==> forall|k: K|
                k != key.0 ==> #[trigger] final(self)@.get(k) == old(self)@.get(k),
            obeys_key_model::<K>() && old(self)@.is_empty() ==> final(self)@.dom() == set![key.0],
    {
        let (k, rest) = key;
        map_child(self, k).deep_entry(rest)
    }
}

/// An index of a sequence: a handle that grows the sequence when used.
impl<'a, T: 'a> DeepEntry<'a, usize> for Vec<T> {
    type Entry = VecEntry<'a, T>;

    fn deep_entry(&'a mut self, key: usize) -> (e: Self::Entry)
        ensures
            e.key == key,
            *e.v == *old(self),
            *final(e.v) == *final(self),
    {
        VecEntry { v: self, key }
    }
}

/// A pair `(index, rest)` against a sequence: `rest` inside the child at
/// `index`, after growing the sequence with default children to cover it.
impl<'a, T, I> DeepEntry<'a, (usize, I)> for Vec<T> where T: DeepEntry<'a, I> + Default {
    type Entry = T::Entry;

    fn deep_entry(&'a mut self, key: (usize, I)) -> (e: Self::Entry)
        ensures
            final(self)@.len() == grown_len(old(self)@.len(), key.0 as nat),
            key.0 < old(self)@.len() ==> final(self)@.len() == old(self)@.len(),
            forall|j: int|
                0 <= j < old(self)@.len() && j != key.0 ==> #[trigger] final(self)@[j]
                    == old(self)@[j],
            forall|j: int|
                old(self)@.len() <= j < key.0 ==> call_ensures(
                    T::default,
                    (),
                    #[trigger] final(self)@[j],
                ),
            exists|child: &'a mut T|
                {
                    &&& key.0 < old(self)@.len() ==> *child == old(self)@[key.0 as int]
                    &&& key.0 >= old(self)@.len() ==> call_ensures(T::default, (), *child)
                    &&& final(self)@[key.0 as int] == *final(child)
                    &&& call_ensures(T::deep_entry, (child, key.1), e)
                },
    {
        let (index, rest) = key;
        VecEntry { v: self, key: index }.or_default().deep_entry(rest)
    }
}

} // verus!
