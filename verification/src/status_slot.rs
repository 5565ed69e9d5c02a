//! A slot variant that always owns a value and tracks a three-way status:
//! empty, full, or being processed. The status cycles through plain stores and
//! a compare-and-swap that reports the previous status on success and the
//! actual status on failure.

use vstd::prelude::*;

verus! {

/// The occupancy status of a [`Slot`].
#[derive(Clone, Copy, PartialEq, Eq, Structural, Debug)]
pub enum SlotStatus {
    /// The slot is empty.
    Empty,
    /// The slot is full.
    Full,
    /// The slot is being processed.
    Processing,
}

/// The byte encoding of a status.
pub open spec fn status_byte(status: SlotStatus) -> u8 {
    match status {
        SlotStatus::Empty => 0,
        SlotStatus::Full => 1,
        SlotStatus::Processing => 2,
    }
}

impl SlotStatus {
    /// The status as its byte encoding.
    pub fn as_u8(self) -> (b: u8)
        ensures
            b == status_byte(self),
    {
        match self {
            SlotStatus::Empty => 0,
            SlotStatus::Full => 1,
            SlotStatus::Processing => 2,
        }
    }

    /// The status encoded by byte `b`; only the three used encodings are
    /// accepted.
    pub fn from_u8(b: u8) -> (status: SlotStatus)
        requires
            b < 3,
        ensures
            status_byte(status) == b,
    {
        if b == 0 {
            SlotStatus::Empty
        } else if b == 1 {
            SlotStatus::Full
        } else {
            SlotStatus::Processing
        }
    }
}

/// A cell that owns one value of type `T` together with its status.
pub struct Slot<T> {
    /// The value stored in the slot.
    value: T,
    /// The status of the slot, indicating whether it is occupied or not.
    status: SlotStatus,
}

impl<T> Slot<T> {
    /// The slot's status.
    pub closed spec fn spec_status(self) -> SlotStatus {
        self.status
    }

    /// The slot's value.
    pub closed spec fn spec_value(self) -> T {
        self.value
    }

    /// A new slot with the given value and status.
    pub fn new(value: T, status: SlotStatus) -> (s: Self)
        ensures
            s.spec_status() == status,
            s.spec_value() == value,
    {
        Slot { value, status }
    }

    /// The status of the slot.
    pub fn get_status(&self) -> (status: SlotStatus)
        ensures
            status == self.spec_status(),
    {
        self.status
    }

    /// Sets the status of the slot.
    pub fn set_status(&mut self, status: SlotStatus)
        ensures
            final(self).spec_status() == status,
            final(self).spec_value() == old(self).spec_value(),
    {
        self.status = status;
    }

    /// Replaces the status with `new` exactly when it currently equals
    /// `expected`; reports the previous status on success and the actual status
    /// on failure, as their byte encodings.
    pub fn cas_status(&mut self, expected: SlotStatus, new: SlotStatus) -> (r: Result<u8, u8>)
        ensures
            final(self).spec_value() == old(self).spec_value(),
            old(self).spec_status() == expected ==> {
                &&& r == Ok::<u8, u8>(status_byte(expected))
                &&& final(self).spec_status() == new
            },
            old(self).spec_status() != expected ==> {
                &&& r == Err::<u8, u8>(status_byte(old(self).spec_status()))
                &&& final(self).spec_status() == old(self).spec_status()
            },
    {
        if self.status == expected {
            self.status = new;
            Ok(expected.as_u8())
        } else {
            Err(self.status.as_u8())
        }
    }
}

} // verus!
