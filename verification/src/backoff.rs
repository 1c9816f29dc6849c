//! Retry delay policy: exponential backoff with a configurable ceiling,
//! reset to the base delay after every success.

use vstd::prelude::*;

verus! {

/// What one failure does to the current delay: double it, capped at the
/// ceiling.
pub open spec fn advanced_delay(delay: u64, ceiling: u64) -> u64 {
    if 2 * delay > ceiling {
        ceiling
    } else {
        (2 * delay) as u64
    }
}

/// The delay controller wrapped around the pipeline: it starts at a base
/// delay, doubles on every failure up to a ceiling, and resets to the base
/// on any success.
pub struct Backoff {
    pub base_secs: u64,
    pub ceiling_secs: u64,
    pub delay_secs: u64,
}

impl Backoff {
    /// The controller is well formed when the base is positive and the
    /// current delay sits between base and ceiling.
    pub open spec fn wf(&self) -> bool {
        0 < self.base_secs <= self.delay_secs <= self.ceiling_secs
    }

    pub fn new(base_secs: u64, ceiling_secs: u64) -> (r: Backoff)
        requires
            0 < base_secs <= ceiling_secs,
        ensures
            r.wf(),
            r.base_secs == base_secs,
            r.ceiling_secs == ceiling_secs,
            r.delay_secs == base_secs,
    {
        Backoff { base_secs, ceiling_secs, delay_secs: base_secs }
    }

    /// After a successful run the delay drops back to the base immediately.
    pub fn on_success(&mut self)
        requires
            old(self).wf(),
        ensures
            final(self).wf(),
            final(self).base_secs == old(self).base_secs,
            final(self).ceiling_secs == old(self).ceiling_secs,
            final(self).delay_secs == old(self).base_secs,
    {
        self.delay_secs = self.base_secs;
    }

    /// After a failed run the caller sleeps for the returned number of
    /// seconds; the stored delay doubles, capped at the ceiling.
    pub fn on_failure(&mut self) -> (sleep_secs: u64)
        requires
            old(self).wf(),
        ensures
            final(self).wf(),
            final(self).base_secs == old(self).base_secs,
            final(self).ceiling_secs == old(self).ceiling_secs,
            sleep_secs == old(self).delay_secs,
            final(self).delay_secs == advanced_delay(old(self).delay_secs, old(self).ceiling_secs),
    {
        let sleep_secs = self.delay_secs;
        if self.delay_secs > self.ceiling_secs / 2 {
            self.delay_secs = self.ceiling_secs;
        } else {
            self.delay_secs = 2 * self.delay_secs;
        }
        sleep_secs
    }
}

/// One failure never decreases the delay and never pushes it past the
/// ceiling; a success puts it back at the base (which `on_success` states
/// directly).
pub proof fn lemma_backoff_non_decreasing(delay: u64, ceiling: u64)
    requires
        delay <= ceiling,
    ensures
        advanced_delay(delay, ceiling) >= delay,
        advanced_delay(delay, ceiling) <= ceiling,
{
}

/// The stored delay after `n` consecutive failures, starting from
/// `delay`: what `on_failure`, applied `n` times, leaves behind.
pub open spec fn delay_after_failures(delay: u64, ceiling: u64, n: nat) -> u64
    decreases n,
{
    if n == 0 {
        delay
    } else {
        advanced_delay(delay_after_failures(delay, ceiling, (n - 1) as nat), ceiling)
    }
}

/// Across any run of consecutive failures the delay is non-decreasing
/// and stays at or under the ceiling.
pub proof fn lemma_backoff_non_decreasing_across_failures(delay: u64, ceiling: u64, n: nat)
    requires
        delay <= ceiling,
    ensures
        delay_after_failures(delay, ceiling, n) <= ceiling,
        delay_after_failures(delay, ceiling, n) <= delay_after_failures(delay, ceiling, n + 1),
    decreases n,
{
    if n == 0 {
        lemma_backoff_non_decreasing(delay, ceiling);
    } else {
        lemma_backoff_non_decreasing_across_failures(delay, ceiling, (n - 1) as nat);
        lemma_backoff_non_decreasing(delay_after_failures(delay, ceiling, n), ceiling);
    }
}

} // verus!
