//! A fixed-length row of slots: the storage backing one ring buffer's worth of
//! capacity. Slots are created in bulk, all `READY`, and individually cycled by
//! [`SlotArr::set`] / [`SlotArr::unset`] for the structure's lifetime.

use vstd::prelude::*;
use crate::slot::Slot;

verus! {

/// A fixed-length array of [`Slot`]s, addressed by index.
pub struct SlotArr<T> {
    slots: Vec<Slot<T>>,
}

impl<T> View for SlotArr<T> {
    type V = Seq<Slot<T>>;

    closed spec fn view(&self) -> Seq<Slot<T>> {
        self.slots@
    }
}

impl<T> SlotArr<T> {
    /// A new array of `capacity` slots, each empty and `READY`.
    pub fn new(capacity: usize) -> (arr: Self)
        ensures
            arr@.len() == capacity,
            forall|i: int|
                0 <= i < capacity ==> (#[trigger] arr@[i]).is_ready() && arr@[i].stored() is None,
    {
        let mut slots: Vec<Slot<T>> = Vec::new();
        let mut idx: usize = 0;
        while idx < capacity
            invariant
                idx <= capacity,
                slots@.len() == idx,
                forall|i: int|
                    0 <= i < idx ==> (#[trigger] slots@[i]).is_ready() && slots@[i].stored()
                        is None,
            decreases capacity - idx,
        {
            slots.push(Slot::new());
            idx = idx + 1;
        }
        SlotArr { slots }
    }

    /// The number of slots.
    pub fn capacity(&self) -> (n: usize)
        ensures
            n == self@.len(),
    {
        self.slots.len()
    }

    /// Attempts to store `data` in the slot at `index`; succeeds exactly when
    /// that slot is `READY`, leaving it `REGISTERED`.
    pub fn set(&mut self, index: usize, data: T) -> (r: Result<(), T>)
        requires
            index < old(self)@.len(),
        ensures
            final(self)@.len() == old(self)@.len(),
            forall|i: int|
                0 <= i < old(self)@.len() && i != index ==> final(self)@[i] == old(self)@[i],
            old(self)@[index as int].is_ready() ==> {
                &&& r is Ok
                &&& final(self)@[index as int].is_registered()
                &&& final(self)@[index as int].stored() == Some(data)
            },
            !old(self)@[index as int].is_ready() ==> r == Err::<(), T>(data) && final(self)@
                == old(self)@,
    {
        let mut slot = self.slots.remove(index);
        let r = slot.set(data);
        self.slots.insert(index, slot);
        proof {
            if old(self)@[index as int].is_ready() {
                assert(final(self)@ =~= old(self)@.update(index as int, final(self)@[index as int]));
            } else {
                assert(final(self)@ =~= old(self)@);
            }
        }
        r
    }

    /// Attempts to take the value out of the slot at `index`; succeeds exactly
    /// when that slot is `REGISTERED`, leaving it `READY`.
    pub fn unset(&mut self, index: usize) -> (r: Result<T, ()>)
        requires
            index < old(self)@.len(),
            old(self)@[index as int].wf(),
        ensures
            final(self)@.len() == old(self)@.len(),
            forall|i: int|
                0 <= i < old(self)@.len() && i != index ==> final(self)@[i] == old(self)@[i],
            old(self)@[index as int].is_registered() ==> {
                &&& r == Ok::<T, ()>(old(self)@[index as int].stored().unwrap())
                &&& final(self)@[index as int].is_ready()
                &&& final(self)@[index as int].stored() is None
            },
            !old(self)@[index as int].is_registered() ==> r == Err::<T, ()>(()) && final(self)@
                == old(self)@,
    {
        let mut slot = self.slots.remove(index);
        let r = slot.unset();
        self.slots.insert(index, slot);
        proof {
            if old(self)@[index as int].is_registered() {
                assert(final(self)@ =~= old(self)@.update(index as int, final(self)@[index as int]));
            } else {
                assert(final(self)@ =~= old(self)@);
            }
        }
        r
    }
}

} // verus!
