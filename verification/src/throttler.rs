//! Sliding-window admission control.
//!
//! A throttler bounds the number of in-flight requests per connection.
//! `add_task` counts a request in; the count comes back down when the
//! task completes or is cancelled.  Admission (`would_admit`) is granted
//! while the in-flight count is below the configured threshold; callers
//! that want to pre-hedge can ask `nearly_full`.  Callers release in
//! completion order, not admission order; no fairness is promised.

use vstd::prelude::*;

verus! {

/// A semaphore-like counter bounded by a configured threshold.
#[derive(Debug, Clone, PartialEq, Eq, Structural)]
pub struct Throttler {
    threshold: u64,
    inflight: u64,
}

impl Throttler {
    /// The configured window.
    pub closed spec fn spec_threshold(self) -> u64 {
        self.threshold
    }

    /// How many requests are in flight.
    pub closed spec fn spec_inflight(self) -> u64 {
        self.inflight
    }

    /// A throttler is only built for a positive window; zero means
    /// throttling is disabled and no throttler exists at all.
    pub closed spec fn wf(self) -> bool {
        self.threshold > 0
    }

    /// A new throttler with window `threshold` and nothing in flight.
    pub fn new(threshold: u64) -> (t: Throttler)
        requires
            threshold > 0,
        ensures
            t.wf(),
            t.spec_threshold() == threshold,
            t.spec_inflight() == 0,
    {
        Throttler { threshold, inflight: 0 }
    }

    /// Counts one more request in flight.
    pub fn add_task(&mut self)
        requires
            old(self).spec_inflight() < u64::MAX,
        ensures
            final(self).spec_inflight() == old(self).spec_inflight() + 1,
            final(self).spec_threshold() == old(self).spec_threshold(),
            final(self).wf() == old(self).wf(),
    {
        self.inflight = self.inflight + 1;
    }

    /// Counts a completed or cancelled request out; the guard that
    /// `add_task` stands for has dropped.
    pub fn release(&mut self)
        requires
            old(self).spec_inflight() > 0,
        ensures
            final(self).spec_inflight() == old(self).spec_inflight() - 1,
            final(self).spec_threshold() == old(self).spec_threshold(),
            final(self).wf() == old(self).wf(),
    {
        self.inflight = self.inflight - 1;
    }

    /// Admission is granted while the in-flight count is below the window.
    pub fn would_admit(&self) -> (r: bool)
        ensures
            r == (self.spec_inflight() < self.spec_threshold()),
    {
        self.inflight < self.threshold
    }

    /// One admission short of the window (or past it): callers use this
    /// to pre-hedge before they would block.
    pub fn nearly_full(&self) -> (r: bool)
        ensures
            r == (self.spec_inflight() + 1 >= self.spec_threshold()),
    {
        if self.threshold == 0 {
            true
        } else {
            self.inflight >= self.threshold - 1
        }
    }

    /// Counts several completed or cancelled requests out at once, as
    /// when a sweep or a teardown settles a batch of tasks.
    pub fn release_many(&mut self, n: u64)
        requires
            old(self).spec_inflight() >= n,
        ensures
            final(self).spec_inflight() == old(self).spec_inflight() - n,
            final(self).spec_threshold() == old(self).spec_threshold(),
            final(self).wf() == old(self).wf(),
    {
        self.inflight = self.inflight - n;
    }

    /// Executable mirror of `spec_inflight`.
    pub fn inflight_count(&self) -> (r: u64)
        ensures
            r == self.spec_inflight(),
    {
        self.inflight
    }
}

} // verus!
