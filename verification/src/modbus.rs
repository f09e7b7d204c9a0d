//! Modbus TCP decoding: the MBAP envelope and the read-registers response.

pub mod frame;
pub mod function;
