//! The pipeline that orchestrates one invocation per inbound frame.
//!
//! Data flows one way: raw bytes, header, validated header, function
//! response, telemetry record, serialized payload, publish attempt, metrics
//! update. The pure part of an invocation is `process_frame`; the host
//! performs the receive and publish I/O and then concludes the invocation
//! through `succeed` or `fail`, which update the counters exactly once.

use vstd::prelude::*;
use vstd::string::StringExecFns;
use crate::error::{message_of, GatewayError};
use crate::metrics::MetricsSnapshot;
use crate::metrics_impl::MetricsTracker;
use crate::modbus::frame::{header_valid, spec_header, MbapHeader};
use crate::modbus::function::{
    reg_count_of, response_error, response_wf, spec_function_code, spec_registers, ReadResponse,
};
use crate::mqtt::payload::{built_payload, json_of, TelemetryPayload};
use crate::text::{dec_str, push_dec_u16};

verus! {

/// What the pipeline asks the host to publish for one accepted frame.
#[derive(Debug)]
pub struct PublishRequest {
    pub topic: String,
    pub payload: String,
}

/// Whether a whole inbound frame passes decoding, validation and dispatch.
pub open spec fn frame_accepted(s: Seq<u8>) -> bool {
    &&& s.len() >= 7
    &&& header_valid(spec_header(s))
    &&& response_wf(s.skip(7))
}

/// The failure a rejected frame is reported with: the earliest failing stage
/// decides, and a bad protocol id is reported before a bad length.
pub open spec fn frame_failure(s: Seq<u8>) -> GatewayError {
    if s.len() < 7 {
        GatewayError::MalformedHeader
    } else if spec_header(s).protocol_id != 0 {
        GatewayError::BadProtocolId
    } else if !(2 <= spec_header(s).length <= 253) {
        GatewayError::BadLength
    } else {
        response_error(s.skip(7))
    }
}

/// The topic an accepted frame publishes under: a fixed prefix followed by
/// the unit id in decimal.
pub open spec fn topic_of(unit_id: u8) -> Seq<char> {
    "ics/telemetry/unit_"@ + dec_str(unit_id as nat)
}

/// The JSON text an accepted frame publishes; meaningful when
/// `frame_accepted(s)`.
pub open spec fn frame_json(s: Seq<u8>) -> Seq<char> {
    let pdu = s.skip(7);
    match spec_function_code(pdu[0]) {
        Some(f) => json_of(
            built_payload(spec_header(s).unit_id, f, spec_registers(pdu, reg_count_of(pdu[1]))),
        ),
        None => Seq::empty(),
    }
}

/// Decode, validate, dispatch, build and serialize one inbound frame. Pure:
/// no state is touched, and every byte sequence gets either a publish
/// request or the typed failure of the earliest failing stage - never a
/// panic.
pub fn process_frame(frame: &[u8]) -> (r: Result<PublishRequest, GatewayError>)
    ensures
        r is Ok <==> frame_accepted(frame@),
        r matches Ok(req) ==> {
            &&& req.topic@ == topic_of(spec_header(frame@).unit_id)
            &&& req.payload@ == frame_json(frame@)
        },
        r matches Err(e) ==> e == frame_failure(frame@),
{
    let (header, rest) = match MbapHeader::parse(frame) {
        Ok(v) => v,
        Err(e) => {
            return Err(e);
        },
    };
    match header.validate() {
        Ok(()) => {},
        Err(e) => {
            return Err(e);
        },
    }
    let (response, _unconsumed) = match ReadResponse::parse(rest) {
        Ok(v) => v,
        Err(e) => {
            return Err(e);
        },
    };
    let payload = TelemetryPayload::build(&header, &response);
    let json = payload.to_json();
    let mut topic = String::from_str("ics/telemetry/unit_");
    push_dec_u16(&mut topic, header.unit_id as u16);
    Ok(PublishRequest { topic, payload: json })
}

/// The per-invocation orchestrator. It owns the cumulative counters; the
/// host drives it with one `process_frame` and exactly one conclusion -
/// `succeed` or `fail` - per inbound frame.
pub struct GatewayPipeline {
    pub tracker: MetricsTracker,
}

impl GatewayPipeline {
    /// The pipeline invariant: the tracker's accounting holds.
    pub open spec fn wf(&self) -> bool {
        self.tracker.wf()
    }

    /// Ghost count of the invocations concluded so far.
    pub open spec fn invocations(&self) -> nat {
        self.tracker.invocations@
    }

    /// A fresh pipeline: no invocations concluded, all counters zero.
    pub fn new() -> (p: GatewayPipeline)
        ensures
            p.wf(),
            p.invocations() == 0,
            p.tracker.metrics.frames_processed == 0,
            p.tracker.metrics.frames_invalid == 0,
            p.tracker.metrics.bytes_in == 0,
            p.tracker.metrics.bytes_out == 0,
            p.tracker.metrics.last_error is None,
    {
        GatewayPipeline { tracker: MetricsTracker::new() }
    }

    /// Conclude one invocation in the Success terminal state, after the host
    /// accepted the publish: counts the frame, its inbound bytes and the
    /// outbound payload bytes. Nothing else changes.
    pub fn succeed(&mut self, frame_len: u64, payload_len: u64)
        requires
            old(self).wf(),
            old(self).tracker.metrics.frames_processed < u64::MAX,
            old(self).tracker.metrics.bytes_in + frame_len <= u64::MAX,
            old(self).tracker.metrics.bytes_out + payload_len <= u64::MAX,
        ensures
            final(self).wf(),
            final(self).invocations() == old(self).invocations() + 1,
            final(self).tracker.metrics.frames_processed == old(
                self,
            ).tracker.metrics.frames_processed + 1,
            final(self).tracker.metrics.bytes_in == old(self).tracker.metrics.bytes_in
                + frame_len,
            final(self).tracker.metrics.bytes_out == old(self).tracker.metrics.bytes_out
                + payload_len,
            final(self).tracker.metrics.frames_invalid == old(
                self,
            ).tracker.metrics.frames_invalid,
            final(self).tracker.metrics.last_error == old(self).tracker.metrics.last_error,
    {
        self.tracker.record_frame(frame_len);
        self.tracker.record_outbound(payload_len);
    }

    /// Conclude one invocation in the Failed terminal state: counts the
    /// invalid frame and overwrites `last_error` with the failure's message.
    /// The byte counters do not move.
    pub fn fail(&mut self, error: &GatewayError)
        requires
            old(self).wf(),
            old(self).tracker.metrics.frames_invalid < u64::MAX,
        ensures
            final(self).wf(),
            final(self).invocations() == old(self).invocations() + 1,
            final(self).tracker.metrics.frames_invalid == old(
                self,
            ).tracker.metrics.frames_invalid + 1,
            final(self).tracker.metrics.last_error matches Some(m) && m@ == message_of(*error),
            final(self).tracker.metrics.frames_processed == old(
                self,
            ).tracker.metrics.frames_processed,
            final(self).tracker.metrics.bytes_in == old(self).tracker.metrics.bytes_in,
            final(self).tracker.metrics.bytes_out == old(self).tracker.metrics.bytes_out,
    {
        let msg = error.message();
        self.tracker.record_error(msg);
    }

    /// Read-only snapshot for the stats query port.
    pub fn get_stats(&self) -> (s: MetricsSnapshot)
        ensures
            s.frames_processed == self.tracker.metrics.frames_processed,
            s.frames_invalid == self.tracker.metrics.frames_invalid,
            s.bytes_in == self.tracker.metrics.bytes_in,
            s.bytes_out == self.tracker.metrics.bytes_out,
            s.last_error == self.tracker.metrics.last_error,
    {
        self.tracker.get_snapshot()
    }
}

/// Law: after any sequence of concluded invocations, the processed and
/// invalid counters sum to the number of invocations - each conclusion
/// reaches exactly one terminal state.
pub proof fn lemma_invocation_accounting(p: &GatewayPipeline)
    requires
        p.wf(),
    ensures
        p.tracker.metrics.frames_processed + p.tracker.metrics.frames_invalid == p.invocations(),
{
}

} // verus!
