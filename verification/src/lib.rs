//! Verified core of a Modbus TCP telemetry gateway.
//!
//! The library decodes the 7-byte MBAP envelope of a Modbus TCP frame,
//! validates it, decodes a read-registers response, turns the result into a
//! structured telemetry record with a JSON rendering, and keeps cumulative
//! metrics over all invocations. Every function is total over its inputs:
//! malformed or adversarial bytes are rejected with a typed error, never a
//! panic. The host that supplies frames and delivers telemetry lives outside
//! this crate and talks to it through plain values.

pub mod error;
pub mod gateway;
pub mod metrics;
pub mod metrics_impl;
pub mod modbus;
pub mod mqtt;
pub mod text;
