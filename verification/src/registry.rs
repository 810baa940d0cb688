//! A registry with stable handles.
//!
//! The hardware-notify layer keeps per-pin and per-channel subscription
//! tables: a fixed-capacity arena keyed by a small integer that is known at
//! build time, written once per slot from the initialization path and only
//! read from the notification path.  This module is that arena; the
//! write-once discipline is part of `register`'s contract, so no slot is
//! ever replaced behind a reader's back.

use vstd::prelude::*;

verus! {

/// A fixed-capacity arena of optional entries, keyed by index.
pub struct Registry<T> {
    slots: Vec<Option<T>>,
}

impl<T> View for Registry<T> {
    type V = Seq<Option<T>>;

    closed spec fn view(&self) -> Seq<Option<T>> {
        self.slots@
    }
}

impl<T> Registry<T> {
    /// An arena of `capacity` empty slots.
    pub fn new(capacity: usize) -> (r: Self)
        ensures
            r@.len() == capacity,
            forall|i: int| 0 <= i < capacity ==> r@[i] is None,
    {
        let mut slots: Vec<Option<T>> = Vec::new();
        let mut i: usize = 0;
        while i < capacity
            invariant
                i <= capacity,
                slots@.len() == i,
                forall|j: int| 0 <= j < i ==> slots@[j] is None,
            decreases capacity - i,
        {
            slots.push(None);
            i += 1;
        }
        Registry { slots }
    }

    /// How many slots exist.
    pub fn capacity(&self) -> (r: usize)
        ensures
            r == self@.len(),
    {
        self.slots.len()
    }

    /// Claims a slot, once: succeeds exactly when the index exists and the
    /// slot is still empty, and never touches any other slot.
    pub fn register(&mut self, index: usize, item: T) -> (ok: bool)
        ensures
            ok == (index < old(self)@.len() && old(self)@[index as int] is None),
            ok ==> final(self)@ == old(self)@.update(index as int, Some(item)),
            !ok ==> final(self)@ == old(self)@,
    {
        if index >= self.slots.len() {
            return false;
        }
        if self.slots[index].is_some() {
            return false;
        }
        let ghost pre = self.slots@;
        self.slots.remove(index);
        self.slots.insert(index, Some(item));
        proof {
            assert(self.slots@ =~= pre.update(index as int, self.slots@[index as int]));
        }
        true
    }

    /// Whether a slot is taken.
    pub fn is_registered(&self, index: usize) -> (r: bool)
        ensures
            r == (index < self@.len() && self@[index as int] is Some),
    {
        index < self.slots.len() && self.slots[index].is_some()
    }

    /// Reads a slot; the notification path only ever does this.
    pub fn get(&self, index: usize) -> (r: Option<&T>)
        ensures
            match r {
                Some(item) => index < self@.len() && self@[index as int] == Some(*item),
                None => !(index < self@.len() && self@[index as int] is Some),
            },
    {
        if index < self.slots.len() {
            self.slots[index].as_ref()
        } else {
            None
        }
    }
}

} // verus!
