//! A stopwatch over the readings of a millisecond clock.
//!
//! The engine never reads a clock. Its caller does, and hands each reading
//! in; the stopwatch turns readings into the time that has passed since it
//! was started, and that time never runs backwards.

use vstd::prelude::*;

verus! {

/// The later of two readings.
pub open spec fn later_of(a: u64, b: u64) -> u64 {
    if a >= b {
        a
    } else {
        b
    }
}

/// The instant at which something began, and the latest reading seen since.
#[derive(Clone, Copy, Debug, PartialEq, Eq)]
pub struct Stopwatch {
    start_ms: u64,
    latest_ms: u64,
}

impl Stopwatch {
    /// The reading at which the stopwatch was started.
    pub closed spec fn started_at(&self) -> u64 {
        self.start_ms
    }

    /// The latest reading that the stopwatch has seen.
    pub closed spec fn latest(&self) -> u64 {
        self.latest_ms
    }

    /// The latest reading is not before the start. This holds of every
    /// stopwatch.
    #[verifier::type_invariant]
    pub open spec fn wf(&self) -> bool {
        self.started_at() <= self.latest()
    }

    /// The time that has passed between the start and the latest reading.
    pub open spec fn elapsed(&self) -> u64 {
        (self.latest() - self.started_at()) as u64
    }

    /// Starts a stopwatch at the reading `now_ms`.
    pub fn start(now_ms: u64) -> (watch: Stopwatch)
        ensures
            watch.started_at() == now_ms,
            watch.latest() == now_ms,
            watch.wf(),
    {
        Stopwatch { start_ms: now_ms, latest_ms: now_ms }
    }

    /// Takes the reading `now_ms` and returns the time that has passed since
    /// the start. A reading that lies before the latest one counts as the
    /// latest one, so the time returned never falls from one call to the next.
    pub fn read(&mut self, now_ms: u64) -> (elapsed_ms: u64)
        ensures
            final(self).started_at() == old(self).started_at(),
            final(self).latest() == later_of(old(self).latest(), now_ms),
            final(self).wf(),
            elapsed_ms == final(self).elapsed(),
            elapsed_ms >= old(self).elapsed(),
    {
        proof {
            use_type_invariant(&*self);
        }
        if now_ms > self.latest_ms {
            self.latest_ms = now_ms;
        }
        self.latest_ms - self.start_ms
    }

    /// The time between the start and the latest reading.
    pub fn elapsed_ms(&self) -> (elapsed_ms: u64)
        ensures
            elapsed_ms == self.elapsed(),
    {
        proof {
            use_type_invariant(self);
        }
        self.latest_ms - self.start_ms
    }
}

} // verus!
