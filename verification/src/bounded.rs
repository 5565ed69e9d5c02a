//! A bounded multi-producer/single-consumer queue: one ring buffer over a slot
//! array, with a `next_head` cursor for writers, a `tail` cursor for the single
//! reader, and a shared backoff for contention between writers.
//!
//! The array holds `capacity + 1` slots; the extra slot keeps "full" and
//! "empty" distinguishable, since both would otherwise present as equal
//! cursors. [`RawMpsc::push`] fails, handing the value back, exactly when the
//! queue already holds `capacity` values.

use vstd::prelude::*;
use crate::backoff::GlobalBackoff;
use crate::ring;
use crate::slot_arr::SlotArr;

verus! {

/// A bounded queue over a ring of `capacity + 1` slots.
pub struct RawMpsc<T> {
    /// The next index a writer will claim.
    next_head: usize,
    /// The next index the reader will drain.
    tail: usize,
    /// Shared backoff for writers contending on `next_head`.
    global_wait: GlobalBackoff,
    /// The storage: `capacity + 1` slots.
    slots: SlotArr<T>,
}

impl<T> View for RawMpsc<T> {
    type V = Seq<T>;

    /// The queue's contents, oldest first.
    closed spec fn view(&self) -> Seq<T> {
        ring::ring_view(self.slots@, self.tail as int, self.next_head as int)
    }
}

impl<T> RawMpsc<T> {
    /// The cursors are in range, occupied slots hold values, free slots are
    /// empty, and no backoff registration is leaked.
    pub closed spec fn wf(self) -> bool {
        &&& ring::ring_wf(self.slots@, self.tail as int, self.next_head as int)
        &&& self.global_wait.count() == 0
    }

    /// The greatest number of values the queue can hold at once.
    pub closed spec fn capacity(self) -> int {
        self.slots@.len() - 1
    }

    /// A new queue that can hold up to `capacity` values; `capacity + 1` slots
    /// are allocated to keep "full" and "empty" distinguishable.
    pub fn new(capacity: usize) -> (q: Self)
        requires
            capacity < usize::MAX,
        ensures
            q.wf(),
            q@ == Seq::<T>::empty(),
            q.capacity() == capacity,
    {
        let slots = SlotArr::new(capacity + 1);
        let q = RawMpsc { next_head: 0, tail: 0, global_wait: GlobalBackoff::new(), slots };
        proof {
            assert(q@ =~= Seq::<T>::empty());
        }
        q
    }

    /// Attempts to append `data`. Fails, handing `data` back unchanged, exactly
    /// when the queue is full; otherwise the contents gain `data` at the end.
    pub fn push(&mut self, data: T) -> (r: Result<(), T>)
        requires
            old(self).wf(),
        ensures
            final(self).wf(),
            final(self).capacity() == old(self).capacity(),
            old(self)@.len() < old(self).capacity() ==> r is Ok && final(self)@ == old(self)@.push(
                data,
            ),
            old(self)@.len() == old(self).capacity() ==> r == Err::<(), T>(data) && final(self)@
                == old(self)@,
    {
        proof {
            ring::lemma_ring_bounds(self.slots@, self.tail as int, self.next_head as int);
        }
        self.global_wait.reg_wait();
        let curr_head = self.next_head;
        let next_head_bounded = ring::wrap_inc(curr_head, self.slots.capacity());

        if next_head_bounded != self.tail {
            // A writer that wins the head-advance owns the slot at `curr_head`
            // until the reader later frees it.
            self.next_head = next_head_bounded;
            self.global_wait.de_reg();
            proof {
                ring::lemma_ring_head_free(
                    old(self).slots@,
                    old(self).tail as int,
                    old(self).next_head as int,
                );
            }
            let r = self.slots.set(curr_head, data);
            proof {
                ring::lemma_ring_push(
                    old(self).slots@,
                    self.slots@,
                    self.tail as int,
                    curr_head as int,
                    data,
                );
            }
            match r {
                Ok(_) => Ok(()),
                Err(_) => vstd::pervasive::unreached(),
            }
        } else {
            self.global_wait.de_reg();
            Err(data)
        }
    }

    /// Attempts to remove the oldest value. Returns nothing exactly when the
    /// queue is empty; otherwise the first value leaves the queue.
    pub fn pop(&mut self) -> (r: Option<T>)
        requires
            old(self).wf(),
        ensures
            final(self).wf(),
            final(self).capacity() == old(self).capacity(),
            old(self)@.len() == 0 ==> r is None && final(self)@ == old(self)@,
            old(self)@.len() > 0 ==> r == Some(old(self)@[0]) && final(self)@ == old(self)@.skip(1),
    {
        proof {
            ring::lemma_ring_bounds(self.slots@, self.tail as int, self.next_head as int);
        }
        let tail = self.tail;
        let head = self.next_head;

        if tail != head {
            proof {
                ring::lemma_ring_first(self.slots@, tail as int, head as int);
            }
            let r = self.slots.unset(tail);
            let next_tail_bounded = ring::wrap_inc(tail, self.slots.capacity());
            self.tail = next_tail_bounded;
            proof {
                ring::lemma_ring_pop(old(self).slots@, self.slots@, tail as int, head as int);
            }
            match r {
                Ok(data) => Some(data),
                Err(_) => vstd::pervasive::unreached(),
            }
        } else {
            None
        }
    }
}

} // verus!
