//! Telemetry records for the message sink, with their JSON rendering.

pub mod payload;
