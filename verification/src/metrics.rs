//! Cumulative gateway counters.
//!
//! The counters are the only state that outlives an invocation. They are
//! updated exactly once per invocation by the pipeline and read on demand by
//! the stats query port, which never mutates them.

use vstd::prelude::*;

verus! {

/// A read-only copy of the counters, as handed to the stats query port.
#[derive(Debug)]
pub struct MetricsSnapshot {
    pub frames_processed: u64,
    pub frames_invalid: u64,
    pub bytes_in: u64,
    pub bytes_out: u64,
    pub last_error: Option<String>,
}

/// The cumulative counters of the gateway: monotonic counts of accepted and
/// rejected invocations, byte totals, and the most recent failure message.
#[derive(Debug)]
pub struct Metrics {
    pub frames_processed: u64,
    pub frames_invalid: u64,
    pub bytes_in: u64,
    pub bytes_out: u64,
    pub last_error: Option<String>,
}

impl Metrics {
    /// Fresh counters: everything zero, no error recorded.
    pub fn new() -> (m: Metrics)
        ensures
            m.frames_processed == 0,
            m.frames_invalid == 0,
            m.bytes_in == 0,
            m.bytes_out == 0,
            m.last_error is None,
    {
        Metrics {
            frames_processed: 0,
            frames_invalid: 0,
            bytes_in: 0,
            bytes_out: 0,
            last_error: None,
        }
    }

    /// Record one successfully processed frame of `size` inbound bytes.
    /// Called only after decoding and publishing both succeeded.
    pub fn record_frame(&mut self, size: u64)
        requires
            old(self).frames_processed < u64::MAX,
            old(self).bytes_in + size <= u64::MAX,
        ensures
            final(self).frames_processed == old(self).frames_processed + 1,
            final(self).bytes_in == old(self).bytes_in + size,
            final(self).frames_invalid == old(self).frames_invalid,
            final(self).bytes_out == old(self).bytes_out,
            final(self).last_error == old(self).last_error,
    {
        self.frames_processed = self.frames_processed + 1;
        self.bytes_in = self.bytes_in + size;
    }

    /// Record one failed invocation with its message, which overwrites any
    /// earlier message.
    pub fn record_error(&mut self, msg: String)
        requires
            old(self).frames_invalid < u64::MAX,
        ensures
            final(self).frames_invalid == old(self).frames_invalid + 1,
            final(self).last_error == Some(msg),
            final(self).frames_processed == old(self).frames_processed,
            final(self).bytes_in == old(self).bytes_in,
            final(self).bytes_out == old(self).bytes_out,
    {
        self.frames_invalid = self.frames_invalid + 1;
        self.last_error = Some(msg);
    }

    /// Record `size` outbound bytes after a successful publish.
    pub fn record_outbound(&mut self, size: u64)
        requires
            old(self).bytes_out + size <= u64::MAX,
        ensures
            final(self).bytes_out == old(self).bytes_out + size,
            final(self).frames_processed == old(self).frames_processed,
            final(self).frames_invalid == old(self).frames_invalid,
            final(self).bytes_in == old(self).bytes_in,
            final(self).last_error == old(self).last_error,
    {
        self.bytes_out = self.bytes_out + size;
    }

    /// A copy of the current counters. Side-effect free: the counters are
    /// left exactly as they were.
    pub fn get_snapshot(&self) -> (s: MetricsSnapshot)
        ensures
            s.frames_processed == self.frames_processed,
            s.frames_invalid == self.frames_invalid,
            s.bytes_in == self.bytes_in,
            s.bytes_out == self.bytes_out,
            s.last_error == self.last_error,
    {
        let last_error = match &self.last_error {
            None => None,
            Some(m) => Some(m.clone()),
        };
        MetricsSnapshot {
            frames_processed: self.frames_processed,
            frames_invalid: self.frames_invalid,
            bytes_in: self.bytes_in,
            bytes_out: self.bytes_out,
            last_error,
        }
    }
}

} // verus!
