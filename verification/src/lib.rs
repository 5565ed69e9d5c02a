//! Multi-producer/single-consumer queue primitives: a fixed-capacity
//! ring-buffer queue, an unbounded segmented queue, the per-cell slot state
//! machine they share, and the contention-backoff strategies used between
//! retries.
//!
//! The load-bearing logic — the slot state machine, the wrapping cursor
//! arithmetic, the full/empty tests, capacity bounds, FIFO order and segment
//! reclamation — is verified here over a sequential model of each operation:
//! every queue is specified by its contents as a `Seq`, pushes append, pops
//! remove the oldest value, and a bounded push fails exactly when the queue is
//! at capacity.

use vstd::prelude::*;

pub mod backoff;
pub mod bounded;
pub mod local_backoff;
mod ring;
pub mod segment;
pub mod slot;
pub mod slot_arr;
pub mod status_slot;
pub mod unbounded;

verus! {

/// First-in, first-out order: a queue that holds the values `s` hands them back
/// in exactly the order they entered. After `k` pops its contents are `s.skip(k)`,
/// so the `k`-th pop (counting from zero) returns `s[k]` and leaves `s.skip(k + 1)`.
pub proof fn lemma_fifo_order<T>(s: Seq<T>, k: int)
    requires
        0 <= k < s.len(),
    ensures
        s.skip(k).len() == s.len() - k,
        s.skip(k)[0] == s[k],
        s.skip(k).skip(1) == s.skip(k + 1),
{
    assert(s.skip(k).skip(1) =~= s.skip(k + 1));
}

} // verus!
