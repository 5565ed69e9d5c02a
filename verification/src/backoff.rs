//! A shared, contention-count-aware exponential backoff strategy.
//!
//! [`GlobalBackoff`] keeps one counter of currently contending callers. A caller
//! registers before entering a contention-sensitive region, waits between failed
//! retries with a spin whose length grows exponentially in the *current*
//! contention level, and deregisters on the way out. Every registration must be
//! paired with exactly one deregistration, else the perceived contention level
//! is permanently inflated.

use vstd::prelude::*;

verus! {

/// Largest number of spin iterations one wait may take (2^18).
pub const MAX_WAIT_SPIN: u32 = 262144;

/// Smallest number of spin iterations one wait takes (2^5).
pub const MIN_WAIT_SPIN: u32 = 32;

/// Relies on core::hint::spin_loop: a CPU spin-wait hint with no effect on
/// program state.
pub assume_specification[ core::hint::spin_loop ]();

/// The spin length for one wait under `active` contending callers:
/// `MIN_WAIT_SPIN` doubled `active` times, saturating at `MAX_WAIT_SPIN`.
pub open spec fn spin_count(active: nat) -> nat
    decreases active,
{
    if active == 0 {
        MIN_WAIT_SPIN as nat
    } else if spin_count((active - 1) as nat) * 2 > MAX_WAIT_SPIN as nat {
        MAX_WAIT_SPIN as nat
    } else {
        spin_count((active - 1) as nat) * 2
    }
}

/// Once the spin length has reached its cap it stays there for any higher
/// contention level.
proof fn lemma_spin_count_saturates(a: nat, b: nat)
    requires
        a <= b,
        spin_count(a) == MAX_WAIT_SPIN as nat,
    ensures
        spin_count(b) == MAX_WAIT_SPIN as nat,
    decreases b,
{
    if b > a {
        lemma_spin_count_saturates(a, (b - 1) as nat);
    }
}

/// A backoff mechanism shared by all threads contending on one resource.
pub struct GlobalBackoff {
    /// Number of callers currently registered as contending.
    active_threads: usize,
}

impl GlobalBackoff {
    /// How many callers are currently registered.
    pub closed spec fn count(self) -> usize {
        self.active_threads
    }

    /// A new backoff with no registered callers.
    pub fn new() -> (b: Self)
        ensures
            b.count() == 0,
    {
        GlobalBackoff { active_threads: 0 }
    }

    /// Registers the caller as contending and immediately spins for a length
    /// proportional to the number of callers registered before it.
    pub fn reg_wait(&mut self)
        requires
            old(self).count() < usize::MAX,
        ensures
            final(self).count() == old(self).count() + 1,
    {
        let n_iters = self.active_threads;
        self.active_threads = self.active_threads + 1;
        let iters: u32 = if n_iters > MAX_WAIT_SPIN as usize {
            MAX_WAIT_SPIN
        } else {
            n_iters as u32
        };
        self.spin_for(iters);
    }

    /// Deregisters the caller; the mandatory pair of a preceding [`Self::reg_wait`].
    pub fn de_reg(&mut self)
        requires
            old(self).count() > 0,
        ensures
            final(self).count() == old(self).count() - 1,
    {
        self.active_threads = self.active_threads - 1;
    }

    /// Spins for `spin_count` iterations of the current contention level:
    /// exponential in how many callers are registered now, capped at
    /// `MAX_WAIT_SPIN`. Called between failed retries.
    pub fn wait(&self) {
        let iters = Self::spin_iters(self.active_threads);
        self.spin_for(iters);
    }

    /// Computes the spin length for `active` contending callers.
    fn spin_iters(active: usize) -> (n: u32)
        ensures
            n as nat == spin_count(active as nat),
    {
        let mut n: u32 = MIN_WAIT_SPIN;
        let mut i: usize = 0;
        while i < active && n < MAX_WAIT_SPIN
            invariant
                i <= active,
                MIN_WAIT_SPIN <= n <= MAX_WAIT_SPIN,
                n as nat == spin_count(i as nat),
            decreases active - i,
        {
            i = i + 1;
            n = if n <= MAX_WAIT_SPIN / 2 {
                n * 2
            } else {
                MAX_WAIT_SPIN
            };
        }
        proof {
            if i < active {
                lemma_spin_count_saturates(i as nat, active as nat);
            }
        }
        n
    }

    /// Performs exactly `iters` spin iterations of pure CPU busy-waiting;
    /// nothing is yielded to the scheduler.
    pub fn spin_for(&self, iters: u32) {
        let mut k: u32 = 0;
        while k < iters
            invariant
                k <= iters,
            decreases iters - k,
        {
            core::hint::spin_loop();
            k = k + 1;
        }
    }
}

} // verus!
