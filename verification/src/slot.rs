//! A single-value concurrent-style cell with a state tag.
//!
//! A [`Slot`] owns zero or one value of type `T` together with a tag that says
//! whether the cell is empty (`READY`), claimed by a writer (`RESERVED`), or
//! holding a value (`REGISTERED`). The only permitted transitions are
//! `READY -> RESERVED -> REGISTERED` on [`Slot::set`] and `REGISTERED -> READY`
//! on [`Slot::unset`].

use vstd::prelude::*;

verus! {

/// State tag: the slot is empty and ready to accept a value.
pub const READY: u8 = 0;

/// State tag: a writer has claimed the slot but not yet published a value.
pub const RESERVED: u8 = 1;

/// State tag: the slot holds a value.
pub const REGISTERED: u8 = 2;

/// A cell that stores at most one value of type `T`, guarded by a state tag.
pub struct Slot<T> {
    /// The stored value, present exactly while the tag says `REGISTERED`
    /// (for slots that keep their well-formedness).
    value: Option<T>,
    /// The occupancy tag: `READY`, `RESERVED` or `REGISTERED`.
    state: u8,
}

impl<T> Slot<T> {
    /// The slot's state tag.
    pub closed spec fn spec_state(self) -> u8 {
        self.state
    }

    /// The value the slot currently holds, if any.
    pub closed spec fn stored(self) -> Option<T> {
        self.value
    }

    pub open spec fn is_ready(self) -> bool {
        self.spec_state() == READY
    }

    pub open spec fn is_reserved(self) -> bool {
        self.spec_state() == RESERVED
    }

    pub open spec fn is_registered(self) -> bool {
        self.spec_state() == REGISTERED
    }

    /// A ready slot is empty; a registered slot holds a value.
    pub open spec fn wf(self) -> bool {
        &&& self.is_ready() ==> self.stored() is None
        &&& self.is_registered() ==> self.stored() is Some
    }

    /// A fresh, empty slot in the `READY` state.
    pub fn new() -> (s: Self)
        ensures
            s.is_ready(),
            s.stored() is None,
            s.wf(),
    {
        Slot { value: None, state: READY }
    }

    /// An empty slot whose tag starts at `state`; used to exercise the state
    /// machine from states other than `READY`.
    pub fn new_with_state(state: u8) -> (s: Self)
        ensures
            s.spec_state() == state,
            s.stored() is None,
            state != REGISTERED ==> s.wf(),
    {
        Slot { value: None, state }
    }

    /// The current state tag.
    pub fn state(&self) -> (s: u8)
        ensures
            s == self.spec_state(),
    {
        self.state
    }

    /// Attempts to store `data`, moving the slot from `READY` through `RESERVED`
    /// to `REGISTERED`. A slot in any other state hands `data` back unchanged.
    pub fn set(&mut self, data: T) -> (r: Result<(), T>)
        ensures
            old(self).is_ready() ==> {
                &&& r is Ok
                &&& final(self).is_registered()
                &&& final(self).stored() == Some(data)
            },
            !old(self).is_ready() ==> r == Err::<(), T>(data) && *final(self) == *old(self),
    {
        if self.state == READY {
            self.state = RESERVED;
            self.unchecked_set(data);
            self.state = REGISTERED;
            Ok(())
        } else {
            Err(data)
        }
    }

    /// Attempts to take the value out, moving the slot from `REGISTERED` back to
    /// `READY`. A slot in any other state is left unchanged and yields `Err(())`.
    pub fn unset(&mut self) -> (r: Result<T, ()>)
        requires
            old(self).wf(),
        ensures
            old(self).is_registered() ==> {
                &&& r == Ok::<T, ()>(old(self).stored().unwrap())
                &&& final(self).is_ready()
                &&& final(self).stored() is None
            },
            !old(self).is_registered() ==> r == Err::<T, ()>(()) && *final(self) == *old(self),
    {
        if self.state == REGISTERED {
            self.state = READY;
            Ok(self.unchecked_unset())
        } else {
            Err(())
        }
    }

    /// Writes `data` without consulting or changing the state tag; for callers
    /// that already hold exclusive access to the slot.
    pub fn unchecked_set(&mut self, data: T)
        ensures
            final(self).stored() == Some(data),
            final(self).spec_state() == old(self).spec_state(),
    {
        self.value = Some(data);
    }

    /// Takes the value out without consulting or changing the state tag; for
    /// callers that already know the slot holds a value.
    pub fn unchecked_unset(&mut self) -> (r: T)
        requires
            old(self).stored() is Some,
        ensures
            r == old(self).stored().unwrap(),
            final(self).stored() is None,
            final(self).spec_state() == old(self).spec_state(),
    {
        let mut taken: Option<T> = None;
        core::mem::swap(&mut self.value, &mut taken);
        taken.unwrap()
    }
}

} // verus!
