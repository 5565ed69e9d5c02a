//! An unbounded multi-producer/single-consumer queue: a chain of fixed-size
//! [`Segment`]s. The first segment of the chain is drained by the single
//! reader and reclaimed once it is both empty and superseded; the last segment
//! receives new values; when the last segment is full, exactly one writer is
//! elected (guarded by an allocation-in-flight flag) to grow the chain by one
//! segment. [`RawMpsc::push`] therefore never fails.

use vstd::prelude::*;
use crate::segment::Segment;
use crate::segment::SEGMENT_SIZE;

verus! {

/// The values held by a chain of segments, oldest segment first.
spec fn segs_contents<T>(segs: Seq<Segment<T>>) -> Seq<T>
    decreases segs.len(),
{
    if segs.len() == 0 {
        Seq::empty()
    } else {
        segs[0].contents() + segs_contents(segs.skip(1))
    }
}

/// An empty chain holds nothing.
proof fn lemma_contents_empty<T>(segs: Seq<Segment<T>>)
    requires
        segs.len() == 0,
    ensures
        segs_contents(segs) == Seq::<T>::empty(),
{
}

/// Appending a segment to the chain appends its contents to the chain's.
proof fn lemma_contents_push<T>(segs: Seq<Segment<T>>, s: Segment<T>)
    ensures
        segs_contents(segs.push(s)) == segs_contents(segs) + s.contents(),
    decreases segs.len(),
{
    if segs.len() == 0 {
        assert(segs.push(s).skip(1) =~= Seq::<Segment<T>>::empty());
        lemma_contents_empty(segs);
        lemma_contents_empty(segs.push(s).skip(1));
        assert(segs.push(s)[0] == s);
        assert(s.contents() + Seq::<T>::empty() =~= s.contents());
        assert(segs_contents(segs) + s.contents() =~= s.contents());
    } else {
        lemma_contents_push(segs.skip(1), s);
        assert(segs.push(s).skip(1) =~= segs.skip(1).push(s));
        assert(segs.push(s)[0] == segs[0]);
        assert(segs[0].contents() + (segs_contents(segs.skip(1)) + s.contents()) =~= (segs[
            0
        ].contents() + segs_contents(segs.skip(1))) + s.contents());
    }
}

/// Putting a segment at the front of the chain prepends its contents.
proof fn lemma_contents_cons<T>(segs: Seq<Segment<T>>, s: Segment<T>)
    ensures
        segs_contents(segs.insert(0, s)) == s.contents() + segs_contents(segs),
{
    let t = segs.insert(0, s);
    assert(t[0] == s);
    assert(t.skip(1) =~= segs);
}

/// An unbounded queue: a chain of segments grown one segment at a time.
pub struct RawMpsc<T> {
    /// The chain; the first segment is being drained, the last receives writes.
    segments: Vec<Segment<T>>,
    /// Whether a writer is currently allocating a new segment.
    segment_allocation_pending: bool,
}

impl<T> View for RawMpsc<T> {
    type V = Seq<T>;

    /// The queue's contents, oldest first.
    closed spec fn view(&self) -> Seq<T> {
        segs_contents(self.segments@)
    }
}

impl<T> RawMpsc<T> {
    /// The chain always holds at least one well-formed segment, and no
    /// allocation is left marked in-flight.
    pub closed spec fn wf(self) -> bool {
        &&& self.segments@.len() >= 1
        &&& !self.segment_allocation_pending
        &&& forall|i: int| 0 <= i < self.segments@.len() ==> (#[trigger] self.segments@[i]).wf()
    }

    /// How many segments the chain currently holds.
    pub closed spec fn seg_count(self) -> int {
        self.segments@.len() as int
    }

    /// A new, empty queue of one empty segment.
    pub fn new() -> (q: Self)
        ensures
            q.wf(),
            q@ == Seq::<T>::empty(),
            q.seg_count() == 1,
    {
        let mut segments: Vec<Segment<T>> = Vec::new();
        segments.push(Segment::new());
        let q = RawMpsc { segments, segment_allocation_pending: false };
        proof {
            assert(q.segments@.skip(1) =~= Seq::<Segment<T>>::empty());
            lemma_contents_empty(q.segments@.skip(1));
            assert(q@ =~= Seq::<T>::empty());
        }
        q
    }

    /// The number of segments currently allocated; drained segments have been
    /// reclaimed and no longer count.
    pub fn segment_count(&self) -> (n: usize)
        ensures
            n == self.seg_count(),
    {
        self.segments.len()
    }

    /// Spins while a segment allocation is marked in-flight by another writer.
    fn wait_for_seg_alloc(&self)
        requires
            !self.segment_allocation_pending,
    {
        while self.segment_allocation_pending
            invariant
                !self.segment_allocation_pending,
            decreases 0int,
        {
        }
    }

    /// Appends `data`. Never fails: when the last segment of the chain is full,
    /// a new segment is allocated, linked and published, and the value goes
    /// there; the chain grows by at most one segment per push.
    pub fn push(&mut self, data: T)
        requires
            old(self).wf(),
        ensures
            final(self).wf(),
            final(self)@ == old(self)@.push(data),
            old(self).seg_count() <= final(self).seg_count() <= old(self).seg_count() + 1,
    {
        self.wait_for_seg_alloc();
        let mut tail_seg = match self.segments.pop() {
            Some(s) => s,
            None => vstd::pervasive::unreached(),
        };
        let ghost front = self.segments@;
        proof {
            assert(old(self).segments@ =~= front.push(tail_seg));
            lemma_contents_push(front, tail_seg);
        }
        match tail_seg.segment_push(data) {
            Ok(_) => {
                self.segments.push(tail_seg);
                proof {
                    lemma_contents_push(front, tail_seg);
                    assert(segs_contents(front) + old(self).segments@.last().contents().push(data)
                        =~= (segs_contents(front) + old(self).segments@.last().contents()).push(
                        data,
                    ));
                }
            },
            Err(d) => {
                self.segments.push(tail_seg);
                proof {
                    lemma_contents_push(front, tail_seg);
                }
                self.segment_allocation_pending = true;
                let mut new_seg = Segment::new();
                let _ = new_seg.segment_push(d);
                let ghost chain = self.segments@;
                self.segments.push(new_seg);
                self.segment_allocation_pending = false;
                proof {
                    lemma_contents_push(chain, new_seg);
                    assert(new_seg.contents() == Seq::<T>::empty().push(data));
                    assert(old(self)@ + Seq::<T>::empty().push(data) =~= old(self)@.push(data));
                    assert forall|i: int| 0 <= i < self.segments@.len() implies (
                    #[trigger] self.segments@[i]).wf() by {
                        if i < chain.len() {
                            assert(self.segments@[i] == chain[i]);
                        }
                    }
                }
            },
        }
    }

    /// Removes the oldest value, if any. A segment found empty while a later
    /// segment exists has been fully drained and superseded: it is unlinked and
    /// reclaimed, exactly once, before the next segment is tried.
    pub fn pop(&mut self) -> (r: Option<T>)
        requires
            old(self).wf(),
        ensures
            final(self).wf(),
            1 <= final(self).seg_count() <= old(self).seg_count(),
            old(self)@.len() == 0 ==> r is None && final(self)@ == old(self)@
                && final(self).seg_count() == 1,
            old(self)@.len() > 0 ==> r == Some(old(self)@[0]) && final(self)@ == old(self)@.skip(1),
    {
        loop
            invariant
                self.segments@.len() >= 1,
                !self.segment_allocation_pending,
                forall|i: int| 0 <= i < self.segments@.len() ==> (#[trigger] self.segments@[i]).wf(),
                self@ == old(self)@,
                self.seg_count() <= old(self).seg_count(),
            decreases self.segments@.len(),
        {
            let ghost prev = self.segments@;
            let mut seg0 = self.segments.remove(0);
            let ghost rest = self.segments@;
            proof {
                assert(rest =~= prev.skip(1));
            }
            match seg0.segment_pop() {
                Some(v) => {
                    self.segments.insert(0, seg0);
                    proof {
                        lemma_contents_cons(rest, seg0);
                        assert(prev[0].contents().len() > 0);
                        assert((prev[0].contents() + segs_contents(rest)).skip(1) =~= prev[
                            0
                        ].contents().skip(1) + segs_contents(rest));
                        assert forall|i: int| 0 <= i < self.segments@.len() implies (
                        #[trigger] self.segments@[i]).wf() by {
                            if i > 0 {
                                assert(self.segments@[i] == rest[i - 1]);
                            }
                        }
                    }
                    return Some(v);
                },
                None => {
                    if self.segments.len() == 0 {
                        self.segments.insert(0, seg0);
                        proof {
                            assert(rest =~= Seq::<Segment<T>>::empty());
                            assert(seg0.contents() =~= Seq::<T>::empty());
                            lemma_contents_cons(rest, seg0);
                            assert(self@ =~= Seq::<T>::empty());
                            assert forall|i: int| 0 <= i < self.segments@.len() implies (
                            #[trigger] self.segments@[i]).wf() by {}
                        }
                        return None;
                    }
                    // The segment is empty and a later segment exists: nothing
                    // can still reach it, so it is dropped here, reclaiming its
                    // storage.
                    proof {
                        assert(seg0.contents() =~= Seq::<T>::empty());
                        assert(Seq::<T>::empty() + segs_contents(rest) =~= segs_contents(rest));
                    }
                },
            }
        }
    }
}

} // verus!
