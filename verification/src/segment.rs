//! One fixed-size link of the unbounded queue's chain.
//!
//! A [`Segment`] is a miniature ring buffer of [`SEGMENT_SIZE`] slots with its
//! own write and read cursors, filled by writers through the same
//! claim-then-store protocol as the bounded queue and drained by the single
//! reader. One slot of the ring always stays unused, so a segment accepts at
//! most `SEGMENT_SIZE - 1` values before the queue grows a new segment.

use vstd::prelude::*;
use crate::ring;
use crate::slot::Slot;

verus! {

/// The number of slots in every segment.
pub const SEGMENT_SIZE: usize = 128;

/// A fixed-size ring of slots, one link of the unbounded queue's chain.
pub struct Segment<T> {
    /// The next index a writer will claim.
    next_head: usize,
    /// The next index the reader will drain.
    tail: usize,
    /// The storage: `SEGMENT_SIZE` slots.
    buff: Vec<Slot<T>>,
}

impl<T> Segment<T> {
    /// The segment's slots.
    pub closed spec fn slots(self) -> Seq<Slot<T>> {
        self.buff@
    }

    /// The write cursor.
    pub closed spec fn spec_head(self) -> usize {
        self.next_head
    }

    /// The read cursor.
    pub closed spec fn spec_tail(self) -> usize {
        self.tail
    }

    /// The cursors are in range, occupied slots hold values and free slots are
    /// empty.
    pub closed spec fn wf(self) -> bool {
        &&& self.buff@.len() == SEGMENT_SIZE
        &&& ring::ring_wf(self.buff@, self.tail as int, self.next_head as int)
    }

    /// The segment's contents, oldest first.
    pub closed spec fn contents(self) -> Seq<T> {
        ring::ring_view(self.buff@, self.tail as int, self.next_head as int)
    }

    /// A new, empty segment of `SEGMENT_SIZE` ready slots.
    pub fn new() -> (s: Self)
        ensures
            s.wf(),
            s.contents() == Seq::<T>::empty(),
    {
        let mut buff: Vec<Slot<T>> = Vec::new();
        let mut idx: usize = 0;
        while idx < SEGMENT_SIZE
            invariant
                idx <= SEGMENT_SIZE,
                buff@.len() == idx,
                forall|i: int|
                    0 <= i < idx ==> (#[trigger] buff@[i]).is_ready() && buff@[i].stored() is None,
            decreases SEGMENT_SIZE - idx,
        {
            buff.push(Slot::new());
            idx = idx + 1;
        }
        let s = Segment { next_head: 0, tail: 0, buff };
        proof {
            assert(s.contents() =~= Seq::<T>::empty());
        }
        s
    }

    /// Attempts to store `data` in the slot at `index`; succeeds exactly when
    /// that slot is `READY`. The cursors are untouched.
    pub fn set(&mut self, index: usize, data: T) -> (r: Result<(), T>)
        requires
            index < old(self).slots().len(),
        ensures
            final(self).slots().len() == old(self).slots().len(),
            final(self).spec_head() == old(self).spec_head(),
            final(self).spec_tail() == old(self).spec_tail(),
            forall|i: int|
                0 <= i < old(self).slots().len() && i != index ==> final(self).slots()[i] == old(self).slots()[i],
            old(self).slots()[index as int].is_ready() ==> {
                &&& r is Ok
                &&& final(self).slots()[index as int].is_registered()
                &&& final(self).slots()[index as int].stored() == Some(data)
            },
            !old(self).slots()[index as int].is_ready() ==> r == Err::<(), T>(data) && final(self).slots() == old(self).slots(),
    {
        let mut slot = self.buff.remove(index);
        let r = slot.set(data);
        self.buff.insert(index, slot);
        proof {
            if old(self).slots()[index as int].is_ready() {
                assert(final(self).slots() =~= old(self).slots().update(
                    index as int,
                    final(self).slots()[index as int],
                ));
            } else {
                assert(final(self).slots() =~= old(self).slots());
            }
        }
        r
    }

    /// Attempts to take the value out of the slot at `index`; succeeds exactly
    /// when that slot is `REGISTERED`. The cursors are untouched.
    pub fn unset(&mut self, index: usize) -> (r: Option<T>)
        requires
            index < old(self).slots().len(),
            old(self).slots()[index as int].wf(),
        ensures
            final(self).slots().len() == old(self).slots().len(),
            final(self).spec_head() == old(self).spec_head(),
            final(self).spec_tail() == old(self).spec_tail(),
            forall|i: int|
                0 <= i < old(self).slots().len() && i != index ==> final(self).slots()[i] == old(self).slots()[i],
            old(self).slots()[index as int].is_registered() ==> {
                &&& r == Some(old(self).slots()[index as int].stored().unwrap())
                &&& final(self).slots()[index as int].is_ready()
                &&& final(self).slots()[index as int].stored() is None
            },
            !old(self).slots()[index as int].is_registered() ==> r is None && final(self).slots()
                == old(self).slots(),
    {
        let mut slot = self.buff.remove(index);
        let r = slot.unset();
        self.buff.insert(index, slot);
        proof {
            if old(self).slots()[index as int].is_registered() {
                assert(final(self).slots() =~= old(self).slots().update(
                    index as int,
                    final(self).slots()[index as int],
                ));
            } else {
                assert(final(self).slots() =~= old(self).slots());
            }
        }
        match r {
            Ok(data) => Some(data),
            Err(_) => None,
        }
    }

    /// Writes `data` into the slot at `index` without consulting the slot's
    /// state; for callers that already hold the index exclusively.
    pub fn set_unchecked(&mut self, index: usize, data: T)
        requires
            index < old(self).slots().len(),
        ensures
            final(self).slots().len() == old(self).slots().len(),
            final(self).spec_head() == old(self).spec_head(),
            final(self).spec_tail() == old(self).spec_tail(),
            forall|i: int|
                0 <= i < old(self).slots().len() && i != index ==> final(self).slots()[i] == old(self).slots()[i],
            final(self).slots()[index as int].stored() == Some(data),
            final(self).slots()[index as int].spec_state() == old(self).slots()[
                index as int
            ].spec_state(),
    {
        let mut slot = self.buff.remove(index);
        slot.unchecked_set(data);
        self.buff.insert(index, slot);
        proof {
            assert(final(self).slots() =~= old(self).slots().update(
                index as int,
                final(self).slots()[index as int],
            ));
        }
    }

    /// Takes the value out of the slot at `index` without consulting the
    /// slot's state; for callers that already know the slot holds a value.
    pub fn unset_unchecked(&mut self, index: usize) -> (r: T)
        requires
            index < old(self).slots().len(),
            old(self).slots()[index as int].stored() is Some,
        ensures
            final(self).slots().len() == old(self).slots().len(),
            final(self).spec_head() == old(self).spec_head(),
            final(self).spec_tail() == old(self).spec_tail(),
            forall|i: int|
                0 <= i < old(self).slots().len() && i != index ==> final(self).slots()[i] == old(self).slots()[i],
            r == old(self).slots()[index as int].stored().unwrap(),
            final(self).slots()[index as int].stored() is None,
            final(self).slots()[index as int].spec_state() == old(self).slots()[
                index as int
            ].spec_state(),
    {
        let mut slot = self.buff.remove(index);
        let r = slot.unchecked_unset();
        self.buff.insert(index, slot);
        proof {
            assert(final(self).slots() =~= old(self).slots().update(
                index as int,
                final(self).slots()[index as int],
            ));
        }
        r
    }

    /// The segment-local push protocol: claim the write cursor's slot, store
    /// `data` there, and advance the cursor. Fails, handing `data` back, exactly
    /// when the segment already holds `SEGMENT_SIZE - 1` values.
    pub(crate) fn segment_push(&mut self, data: T) -> (r: Result<(), T>)
        requires
            old(self).wf(),
        ensures
            final(self).wf(),
            old(self).contents().len() < SEGMENT_SIZE - 1 ==> r is Ok && final(self).contents()
                == old(self).contents().push(data),
            old(self).contents().len() >= SEGMENT_SIZE - 1 ==> r == Err::<(), T>(data) && *final(self) == *old(self),
    {
        proof {
            ring::lemma_ring_bounds(self.buff@, self.tail as int, self.next_head as int);
        }
        let curr_head = self.next_head;
        let next_head = ring::wrap_inc(curr_head, SEGMENT_SIZE);
        if self.tail != next_head {
            proof {
                ring::lemma_ring_head_free(self.buff@, self.tail as int, self.next_head as int);
            }
            self.next_head = next_head;
            let mut slot = self.buff.remove(curr_head);
            let r = slot.set(data);
            self.buff.insert(curr_head, slot);
            proof {
                assert(self.buff@ =~= old(self).buff@.update(
                    curr_head as int,
                    self.buff@[curr_head as int],
                ));
                ring::lemma_ring_push(
                    old(self).buff@,
                    self.buff@,
                    self.tail as int,
                    curr_head as int,
                    data,
                );
            }
            match r {
                Ok(_) => Ok(()),
                Err(_) => vstd::pervasive::unreached(),
            }
        } else {
            Err(data)
        }
    }

    /// The segment-local pop protocol: drain the read cursor's slot and advance
    /// the cursor. Returns nothing exactly when the segment is empty.
    pub(crate) fn segment_pop(&mut self) -> (r: Option<T>)
        requires
            old(self).wf(),
        ensures
            final(self).wf(),
            old(self).contents().len() == 0 ==> r is None && *final(self) == *old(self),
            old(self).contents().len() > 0 ==> r == Some(old(self).contents()[0]) && final(self).contents() == old(self).contents().skip(1),
    {
        proof {
            ring::lemma_ring_bounds(self.buff@, self.tail as int, self.next_head as int);
        }
        let head = self.next_head;
        let tail = self.tail;
        if head != tail {
            proof {
                ring::lemma_ring_first(self.buff@, tail as int, head as int);
            }
            let next_tail = ring::wrap_inc(tail, SEGMENT_SIZE);
            self.tail = next_tail;
            let mut slot = self.buff.remove(tail);
            let r = slot.unset();
            self.buff.insert(tail, slot);
            proof {
                assert(self.buff@ =~= old(self).buff@.update(tail as int, self.buff@[tail as int]));
                ring::lemma_ring_pop(old(self).buff@, self.buff@, tail as int, head as int);
            }
            match r {
                Ok(data) => Some(data),
                Err(_) => vstd::pervasive::unreached(),
            }
        } else {
            None
        }
    }
}

} // verus!
