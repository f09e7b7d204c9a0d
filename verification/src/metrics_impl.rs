//! Counters that also account for how often they were concluded.
//!
//! `MetricsTracker` wraps the plain counter aggregate with a ghost count of
//! concluded invocations and maintains the accounting invariant: every
//! invocation ends in exactly one terminal state, so the processed and
//! invalid counters together count the invocations.

use vstd::prelude::*;
use crate::metrics::{Metrics, MetricsSnapshot};

verus! {

/// The counter aggregate together with a ghost invocation count.
pub struct MetricsTracker {
    pub metrics: Metrics,
    /// Ghost count of the invocations concluded so far.
    pub invocations: Ghost<nat>,
}

impl MetricsTracker {
    /// The accounting invariant: each concluded invocation incremented
    /// exactly one of the two frame counters.
    pub open spec fn wf(&self) -> bool {
        self.metrics.frames_processed + self.metrics.frames_invalid == self.invocations@
    }

    /// A fresh tracker: no invocations, everything zero.
    pub fn new() -> (t: MetricsTracker)
        ensures
            t.wf(),
            t.invocations@ == 0,
            t.metrics.frames_processed == 0,
            t.metrics.frames_invalid == 0,
            t.metrics.bytes_in == 0,
            t.metrics.bytes_out == 0,
            t.metrics.last_error is None,
    {
        MetricsTracker { metrics: Metrics::new(), invocations: Ghost(0) }
    }

    /// Conclude one invocation as successfully processed: see
    /// `Metrics::record_frame`.
    pub fn record_frame(&mut self, size: u64)
        requires
            old(self).wf(),
            old(self).metrics.frames_processed < u64::MAX,
            old(self).metrics.bytes_in + size <= u64::MAX,
        ensures
            final(self).wf(),
            final(self).invocations@ == old(self).invocations@ + 1,
            final(self).metrics.frames_processed == old(self).metrics.frames_processed + 1,
            final(self).metrics.bytes_in == old(self).metrics.bytes_in + size,
            final(self).metrics.frames_invalid == old(self).metrics.frames_invalid,
            final(self).metrics.bytes_out == old(self).metrics.bytes_out,
            final(self).metrics.last_error == old(self).metrics.last_error,
    {
        self.metrics.record_frame(size);
        self.invocations = Ghost(self.invocations@ + 1);
    }

    /// Conclude one invocation as failed: see `Metrics::record_error`.
    pub fn record_error(&mut self, msg: String)
        requires
            old(self).wf(),
            old(self).metrics.frames_invalid < u64::MAX,
        ensures
            final(self).wf(),
            final(self).invocations@ == old(self).invocations@ + 1,
            final(self).metrics.frames_invalid == old(self).metrics.frames_invalid + 1,
            final(self).metrics.last_error == Some(msg),
            final(self).metrics.frames_processed == old(self).metrics.frames_processed,
            final(self).metrics.bytes_in == old(self).metrics.bytes_in,
            final(self).metrics.bytes_out == old(self).metrics.bytes_out,
    {
        self.metrics.record_error(msg);
        self.invocations = Ghost(self.invocations@ + 1);
    }

    /// Add outbound bytes to an already concluded successful invocation:
    /// see `Metrics::record_outbound`. Concludes nothing by itself.
    pub fn record_outbound(&mut self, size: u64)
        requires
            old(self).wf(),
            old(self).metrics.bytes_out + size <= u64::MAX,
        ensures
            final(self).wf(),
            final(self).invocations@ == old(self).invocations@,
            final(self).metrics.bytes_out == old(self).metrics.bytes_out + size,
            final(self).metrics.frames_processed == old(self).metrics.frames_processed,
            final(self).metrics.frames_invalid == old(self).metrics.frames_invalid,
            final(self).metrics.bytes_in == old(self).metrics.bytes_in,
            final(self).metrics.last_error == old(self).metrics.last_error,
    {
        self.metrics.record_outbound(size);
    }

    /// A copy of the current counters. Side-effect free.
    pub fn get_snapshot(&self) -> (s: MetricsSnapshot)
        ensures
            s.frames_processed == self.metrics.frames_processed,
            s.frames_invalid == self.metrics.frames_invalid,
            s.bytes_in == self.metrics.bytes_in,
            s.bytes_out == self.metrics.bytes_out,
            s.last_error == self.metrics.last_error,
    {
        self.metrics.get_snapshot()
    }
}

} // verus!
