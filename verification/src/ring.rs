//! The mathematical model of one ring buffer's worth of slots.
//!
//! Both the bounded queue and the unbounded queue's segments are rings: a
//! fixed-length row of slots addressed by two wrapping cursors, `tail` (next
//! read position) and `head` (next write position). The occupied region is the
//! cyclic interval `[tail, head)`; the ring is empty when the cursors are equal
//! and full when advancing `head` by one would land on `tail`, so one slot
//! always stays unused to keep "full" and "empty" distinguishable.

use vstd::prelude::*;
use crate::slot::Slot;

verus! {

/// Whether index `i` lies in the occupied cyclic region `[tail, head)`.
pub(crate) open spec fn in_ring(len: int, tail: int, head: int, i: int) -> bool {
    if tail <= head {
        tail <= i < head
    } else {
        i >= tail || i < head
    }
}

/// The number of occupied cells of a ring of `len` cells.
pub(crate) open spec fn ring_count(len: int, tail: int, head: int) -> int {
    if tail <= head {
        head - tail
    } else {
        len - tail + head
    }
}

/// The physical index of the `j`-th occupied cell, counting from `tail`.
pub(crate) open spec fn ring_index(len: int, tail: int, j: int) -> int {
    if tail + j < len {
        tail + j
    } else {
        tail + j - len
    }
}

/// A cursor advanced by one with wraparound.
pub(crate) open spec fn wrap_add1(len: int, i: int) -> int {
    if i + 1 < len {
        i + 1
    } else {
        0
    }
}

/// Advances a cursor by one with wraparound, without a division: the successor
/// is replaced by zero exactly when it would reach `len`.
pub(crate) fn wrap_inc(i: usize, len: usize) -> (r: usize)
    requires
        i < len,
    ensures
        r == wrap_add1(len as int, i as int),
        r < len,
{
    let next = i + 1;
    if next < len {
        next
    } else {
        0
    }
}

/// The cursors are in range, every occupied cell holds a value in the
/// `REGISTERED` state, and every other cell is empty and `READY`.
pub(crate) open spec fn ring_wf<T>(slots: Seq<Slot<T>>, tail: int, head: int) -> bool {
    &&& 0 <= tail < slots.len()
    &&& 0 <= head < slots.len()
    &&& forall|i: int|
        0 <= i < slots.len() ==> {
            &&& (#[trigger] slots[i]).wf()
            &&& (in_ring(slots.len() as int, tail, head, i) ==> slots[i].is_registered())
            &&& (!in_ring(slots.len() as int, tail, head, i) ==> slots[i].is_ready())
        }
}

/// The ring's contents: the occupied cells' values, oldest first.
pub(crate) open spec fn ring_view<T>(slots: Seq<Slot<T>>, tail: int, head: int) -> Seq<T> {
    Seq::new(
        ring_count(slots.len() as int, tail, head) as nat,
        |j: int| slots[ring_index(slots.len() as int, tail, j)].stored().unwrap(),
    )
}

/// A well-formed ring holds between zero and `len - 1` values; it is empty
/// exactly when the cursors coincide, and it is full (advancing `head` would
/// land on `tail`) exactly when it holds `len - 1` values.
pub(crate) proof fn lemma_ring_bounds<T>(slots: Seq<Slot<T>>, tail: int, head: int)
    requires
        ring_wf(slots, tail, head),
    ensures
        0 <= ring_count(slots.len() as int, tail, head) <= slots.len() - 1,
        ring_count(slots.len() as int, tail, head) == 0 <==> tail == head,
        wrap_add1(slots.len() as int, head) == tail <==> ring_count(slots.len() as int, tail, head)
            == slots.len() - 1,
{
}

/// Storing `data` into the cell at `head` and advancing `head` by one appends
/// `data` to the ring's contents.
pub(crate) proof fn lemma_ring_push<T>(
    slots: Seq<Slot<T>>,
    slots2: Seq<Slot<T>>,
    tail: int,
    head: int,
    data: T,
)
    requires
        ring_wf(slots, tail, head),
        ring_count(slots.len() as int, tail, head) < slots.len() - 1,
        slots2.len() == slots.len(),
        forall|i: int| 0 <= i < slots.len() && i != head ==> slots2[i] == slots[i],
        slots2[head].is_registered(),
        slots2[head].stored() == Some(data),
    ensures
        ring_wf(slots2, tail, wrap_add1(slots.len() as int, head)),
        ring_view(slots2, tail, wrap_add1(slots.len() as int, head)) == ring_view(
            slots,
            tail,
            head,
        ).push(data),
{
    let len = slots.len() as int;
    let head2 = wrap_add1(len, head);
    let n = ring_count(len, tail, head);
    assert(ring_count(len, tail, head2) == n + 1);
    assert forall|i: int| 0 <= i < len implies {
        &&& (#[trigger] slots2[i]).wf()
        &&& (in_ring(len, tail, head2, i) ==> slots2[i].is_registered())
        &&& (!in_ring(len, tail, head2, i) ==> slots2[i].is_ready())
    } by {
        assert(in_ring(len, tail, head2, i) <==> (in_ring(len, tail, head, i) || i == head));
    }
    let v1 = ring_view(slots, tail, head).push(data);
    let v2 = ring_view(slots2, tail, head2);
    assert forall|j: int| 0 <= j <= n implies v2[j] == v1[j] by {
        let idx = ring_index(len, tail, j);
        if j < n {
            assert(in_ring(len, tail, head, idx));
            assert(idx != head);
        } else {
            assert(idx == head);
        }
    }
    assert(v2 =~= v1);
}

/// Taking the value out of the cell at `tail` and advancing `tail` by one
/// removes the oldest element from the ring's contents.
pub(crate) proof fn lemma_ring_pop<T>(
    slots: Seq<Slot<T>>,
    slots2: Seq<Slot<T>>,
    tail: int,
    head: int,
)
    requires
        ring_wf(slots, tail, head),
        tail != head,
        slots2.len() == slots.len(),
        forall|i: int| 0 <= i < slots.len() && i != tail ==> slots2[i] == slots[i],
        slots2[tail].is_ready(),
        slots2[tail].stored() is None,
    ensures
        ring_wf(slots2, wrap_add1(slots.len() as int, tail), head),
        ring_view(slots, tail, head).len() > 0,
        ring_view(slots2, wrap_add1(slots.len() as int, tail), head) == ring_view(
            slots,
            tail,
            head,
        ).skip(1),
{
    let len = slots.len() as int;
    let tail2 = wrap_add1(len, tail);
    let n = ring_count(len, tail, head);
    assert(n > 0);
    assert(ring_count(len, tail2, head) == n - 1);
    assert forall|i: int| 0 <= i < len implies {
        &&& (#[trigger] slots2[i]).wf()
        &&& (in_ring(len, tail2, head, i) ==> slots2[i].is_registered())
        &&& (!in_ring(len, tail2, head, i) ==> slots2[i].is_ready())
    } by {
        assert(in_ring(len, tail, head, i) <==> (in_ring(len, tail2, head, i) || i == tail));
    }
    let v1 = ring_view(slots, tail, head).skip(1);
    let v2 = ring_view(slots2, tail2, head);
    assert forall|j: int| 0 <= j < n - 1 implies v2[j] == v1[j] by {
        assert(ring_index(len, tail2, j) == ring_index(len, tail, j + 1));
        assert(in_ring(len, tail, head, ring_index(len, tail, j + 1)));
        assert(ring_index(len, tail, j + 1) != tail);
    }
    assert(v2 =~= v1);
}

/// In a well-formed ring the cell at `tail` is the oldest element.
pub(crate) proof fn lemma_ring_first<T>(slots: Seq<Slot<T>>, tail: int, head: int)
    requires
        ring_wf(slots, tail, head),
        tail != head,
    ensures
        ring_view(slots, tail, head).len() > 0,
        ring_view(slots, tail, head)[0] == slots[tail].stored().unwrap(),
        slots[tail].is_registered(),
    {
    assert(ring_index(slots.len() as int, tail, 0) == tail);
    assert(in_ring(slots.len() as int, tail, head, tail));
}

/// In a well-formed, non-full ring the cell at `head` is free.
pub(crate) proof fn lemma_ring_head_free<T>(slots: Seq<Slot<T>>, tail: int, head: int)
    requires
        ring_wf(slots, tail, head),
        ring_count(slots.len() as int, tail, head) < slots.len() - 1,
    ensures
        slots[head].is_ready(),
        slots[head].stored() is None,
{
    assert(!in_ring(slots.len() as int, tail, head, head));
}

} // verus!
