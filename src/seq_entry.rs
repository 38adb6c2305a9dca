//! The sequence half of deep access: a slot of a `Vec` addressed by index,
//! grown on demand.
use vstd::prelude::*;

verus! {

/// A pending access to slot `key` of a sequence. Nothing happens to the
/// sequence until one of the get-or-insert methods consumes the handle.
pub struct VecEntry<'a, T> {
    /// The sequence, borrowed for as long as the handle lives.
    pub v: &'a mut Vec<T>,
    /// The index of the slot.
    pub key: usize,
}

/// Length of a sequence of length `len` once it has been grown to cover
/// index `key`: growth never shrinks.
pub open spec fn grown_len(len: nat, key: nat) -> nat {
    if key < len {
        len
    } else {
        key + 1
    }
}

impl<'a, T> VecEntry<'a, T> {
    /// Hands out slot `key`, first making it present if the sequence is
    /// too short: the slots before it that the growth creates hold
    /// default-constructed values, and slot `key` itself holds the value
    /// computed by `default`, which runs only in that case.
    pub fn or_insert_with<F: FnOnce() -> T>(self, default: F) -> (r: &'a mut T) where T: Default
        requires
            default.requires(()),
        ensures
            final(self.v)@.len() == grown_len(old(self.v)@.len(), self.key as nat),
            self.key < old(self.v)@.len() ==> final(self.v)@.len() == old(self.v)@.len(),
            forall|j: int|
                0 <= j < old(self.v)@.len() && j != self.key ==> #[trigger] final(self.v)@[j]
                    == old(self.v)@[j],
            forall|j: int|
                old(self.v)@.len() <= j < self.key ==> call_ensures(
                    T::default,
                    (),
                    #[trigger] final(self.v)@[j],
                ),
            self.key < old(self.v)@.len() ==> *r == old(self.v)@[self.key as int],
            self.key >= old(self.v)@.len() ==> default.ensures((), *r),
            final(self.v)@[self.key as int] == *final(r),
    {
        let v = self.v;
        let key = self.key;
        if key < v.len() {
            return &mut v[key];
        }
        let ghost n = v@.len();
        let ghost s0 = v@;
        while v.len() < key
            invariant
                n == s0.len(),
                n <= key,
                n <= v@.len() <= key,
                forall|j: int| 0 <= j < n ==> #[trigger] v@[j] == s0[j],
                forall|j: int| n <= j < v@.len() ==> call_ensures(T::default, (), #[trigger] v@[j]),
            decreases key - v.len(),
        {
            let x = T::default();
            v.push(x);
        }
        let x = default();
        v.push(x);
        &mut v[key]
    }

    /// Hands out slot `key`, first making it present if the sequence is
    /// too short: the slots before it that the growth creates hold
    /// default-constructed values, and slot `key` itself holds `value`.
    pub fn or_insert(self, value: T) -> (r: &'a mut T) where T: Default
        ensures
            final(self.v)@.len() == grown_len(old(self.v)@.len(), self.key as nat),
            self.key < old(self.v)@.len() ==> final(self.v)@.len() == old(self.v)@.len(),
            forall|j: int|
                0 <= j < old(self.v)@.len() && j != self.key ==> #[trigger] final(self.v)@[j]
                    == old(self.v)@[j],
            forall|j: int|
                old(self.v)@.len() <= j < self.key ==> call_ensures(
                    T::default,
                    (),
                    #[trigger] final(self.v)@[j],
                ),
            self.key < old(self.v)@.len() ==> *r == old(self.v)@[self.key as int],
            self.key >= old(self.v)@.len() ==> *r == value,
            final(self.v)@[self.key as int] == *final(r),
    {
        let v = self.v;
        let key = self.key;
        if key < v.len() {
            return &mut v[key];
        }
        let ghost n = v@.len();
        let ghost s0 = v@;
        while v.len() < key
            invariant
                n == s0.len(),
                n <= key,
                n <= v@.len() <= key,
                forall|j: int| 0 <= j < n ==> #[trigger] v@[j] == s0[j],
                forall|j: int| n <= j < v@.len() ==> call_ensures(T::default, (), #[trigger] v@[j]),
            decreases key - v.len(),
        {
            let x = T::default();
            v.push(x);
        }
        v.push(value);
        &mut v[key]
    }

    /// Makes slot `key` present, filling any slot that the growth creates
    /// with a default-constructed value, and hands out that slot.
    pub fn or_default(self) -> (r: &'a mut T) where T: Default
        ensures
            final(self.v)@.len() == grown_len(old(self.v)@.len(), self.key as nat),
            self.key < old(self.v)@.len() ==> final(self.v)@.len() == old(self.v)@.len(),
            forall|j: int|
                0 <= j < old(self.v)@.len() && j != self.key ==> #[trigger] final(self.v)@[j]
                    == old(self.v)@[j],
            forall|j: int|
                old(self.v)@.len() <= j < self.key ==> call_ensures(
                    T::default,
                    (),
                    #[trigger] final(self.v)@[j],
                ),
            self.key < old(self.v)@.len() ==> *r == old(self.v)@[self.key as int],
            self.key >= old(self.v)@.len() ==> call_ensures(T::default, (), *r),
            final(self.v)@[self.key as int] == *final(r),
    {
        self.or_insert_with(|| -> (d: T)
            ensures
                call_ensures(T::default, (), d),
            { T::default() })
    }
}

} // verus!
