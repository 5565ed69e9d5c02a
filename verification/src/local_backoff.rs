//! A caller-private exponential backoff strategy.
//!
//! [`LocalBackoff`] backs a single caller's retry loop: each [`LocalBackoff::wait`]
//! spins for the previous call's iteration count and then doubles that count,
//! capped at a maximum. [`LocalBackoff::reset`] returns the count to the smallest
//! non-zero value after a successful operation, so the next contention burst
//! still sees a minimal delay rather than a zero-length spin.

use vstd::prelude::*;

verus! {

/// Largest number of spin iterations one wait may take (2^16).
pub const MAX_SPIN: u32 = 65536;

/// A backoff private to one caller; no state is shared.
pub struct LocalBackoff {
    /// The number of spin iterations the next wait will take.
    spins: u32,
}

impl LocalBackoff {
    /// The number of spin iterations the next wait will take.
    pub closed spec fn count(self) -> u32 {
        self.spins
    }

    /// A new backoff with a spin count of zero.
    pub fn new() -> (b: Self)
        ensures
            b.count() == 0,
    {
        LocalBackoff { spins: 0 }
    }

    /// Spins for the current count, then doubles the count for the next call,
    /// capped at `MAX_SPIN`.
    pub fn wait(&mut self)
        ensures
            old(self).count() <= MAX_SPIN / 2 ==> final(self).count() == 2 * old(self).count(),
            old(self).count() > MAX_SPIN / 2 ==> final(self).count() == MAX_SPIN,
    {
        let curr_spin = self.spins;
        self.spins = if curr_spin <= MAX_SPIN / 2 {
            curr_spin * 2
        } else {
            MAX_SPIN
        };

        let mut k: u32 = 0;
        while k < curr_spin
            invariant
                k <= curr_spin,
            decreases curr_spin - k,
        {
            core::hint::spin_loop();
            k = k + 1;
        }
    }

    /// Resets the count to `1`, the smallest non-zero spin; called after a
    /// successful acquisition.
    pub fn reset(&mut self)
        ensures
            final(self).count() == 1,
    {
        self.spins = 1;
    }
}

} // verus!
