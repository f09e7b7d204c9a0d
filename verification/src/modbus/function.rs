//! Function codes and the read-registers response.
//!
//! Only the two read codes have a representation at all: every other byte is
//! rejected when decoding. This is a deliberate design constraint that keeps
//! the attack surface of the gateway minimal, not a missing feature.

use vstd::prelude::*;
use vstd::slice::slice_subrange;
use crate::error::GatewayError;
use crate::modbus::frame::{be_u16, be_u16_value};

verus! {

/// The closed set of supported function codes.
#[derive(Debug, Clone, Copy, PartialEq, Eq, Structural)]
pub enum FunctionCode {
    /// 0x03 - read analog outputs / configuration registers.
    ReadHoldingRegisters,
    /// 0x04 - read analog inputs from field devices.
    ReadInputRegisters,
}

/// The function code a byte stands for, if any. A partial mapping: bytes
/// outside the closed set have no representation.
pub open spec fn spec_function_code(byte: u8) -> Option<FunctionCode> {
    if byte == 0x03 {
        Some(FunctionCode::ReadHoldingRegisters)
    } else if byte == 0x04 {
        Some(FunctionCode::ReadInputRegisters)
    } else {
        None
    }
}

impl FunctionCode {
    /// Decode a function byte. Every byte outside {0x03, 0x04} is rejected.
    pub fn from_byte(byte: u8) -> (r: Option<FunctionCode>)
        ensures
            r == spec_function_code(byte),
    {
        match byte {
            0x03 => Some(FunctionCode::ReadHoldingRegisters),
            0x04 => Some(FunctionCode::ReadInputRegisters),
            _ => None,
        }
    }

    /// The byte representation of a function code.
    pub fn to_byte(&self) -> (r: u8)
        ensures
            spec_function_code(r) == Some(*self),
    {
        match self {
            FunctionCode::ReadHoldingRegisters => 0x03,
            FunctionCode::ReadInputRegisters => 0x04,
        }
    }
}

/// A read request, as a master would send it. The gateway only decodes
/// responses, so this type is data only.
#[derive(Debug, Clone, PartialEq, Eq, Structural)]
pub struct ReadRequest {
    pub function: FunctionCode,
    pub start_address: u16,
    pub quantity: u16,
}

/// A decoded read-registers response: the function code, the declared payload
/// length in bytes, and the big-endian register values in input order.
#[derive(Debug, Clone, PartialEq)]
pub struct ReadResponse {
    pub function: FunctionCode,
    pub byte_count: u8,
    pub registers: Vec<u16>,
}

/// How many registers a declared byte count announces. Integer division
/// truncates: an odd byte count silently drops its trailing byte, which is
/// the behaviour the fielded gateway shows and is kept for compatibility.
pub open spec fn reg_count_of(byte_count: u8) -> int {
    byte_count as int / 2
}

/// The `n` big-endian register values starting at offset 2 of `s`.
pub open spec fn spec_registers(s: Seq<u8>, n: int) -> Seq<u16> {
    Seq::new(n as nat, |k: int| be_u16_value(s[2 + 2 * k], s[3 + 2 * k]))
}

/// Whether `s` starts with a well-formed read response: a supported function
/// byte, a byte count, and enough bytes for every declared register.
pub open spec fn response_wf(s: Seq<u8>) -> bool {
    &&& s.len() >= 2
    &&& spec_function_code(s[0]) is Some
    &&& s.len() >= 2 + 2 * reg_count_of(s[1])
}

/// The error a malformed response decodes to: an unsupported function byte is
/// reported as such, and any shortage of bytes as a malformed PDU.
pub open spec fn response_error(s: Seq<u8>) -> GatewayError {
    if s.len() >= 1 && spec_function_code(s[0]) is None {
        GatewayError::UnsupportedFunctionCode
    } else {
        GatewayError::MalformedPdu
    }
}

impl ReadResponse {
    /// Decode a read response from the bytes following the MBAP header.
    ///
    /// The decode is strictly left to right - function byte, byte count,
    /// then `byte_count / 2` big-endian registers - and stops as soon as the
    /// declared register count is consumed; bytes beyond that are returned
    /// unconsumed, not validated. Insufficient bytes fail, never panic.
    pub fn parse(input: &[u8]) -> (r: Result<(ReadResponse, &[u8]), GatewayError>)
        ensures
            r is Ok <==> response_wf(input@),
            r matches Ok((resp, rest)) ==> {
                &&& Some(resp.function) == spec_function_code(input@[0])
                &&& resp.byte_count == input@[1]
                &&& resp.registers@ == spec_registers(input@, reg_count_of(input@[1]))
                &&& resp.registers@.len() == reg_count_of(input@[1])
                &&& rest@ == input@.skip(2 + 2 * reg_count_of(input@[1]))
            },
            r matches Err(e) ==> e == response_error(input@),
    {
        if input.len() < 1 {
            return Err(GatewayError::MalformedPdu);
        }
        let function = match FunctionCode::from_byte(input[0]) {
            Some(f) => f,
            None => {
                return Err(GatewayError::UnsupportedFunctionCode);
            },
        };
        if input.len() < 2 {
            return Err(GatewayError::MalformedPdu);
        }
        let byte_count = input[1];
        let n: usize = (byte_count / 2) as usize;
        if input.len() < 2 + 2 * n {
            return Err(GatewayError::MalformedPdu);
        }
        let mut registers: Vec<u16> = Vec::new();
        let mut i: usize = 0;
        while i < n
            invariant
                n == reg_count_of(byte_count),
                i <= n,
                input@.len() >= 2 + 2 * n,
                registers@ =~= spec_registers(input@, i as int),
            decreases n - i,
        {
            let value = be_u16(input[2 + 2 * i], input[3 + 2 * i]);
            registers.push(value);
            assert(registers@ =~= spec_registers(input@, i + 1));
            i = i + 1;
        }
        let rest = slice_subrange(input, 2 + 2 * n, input.len());
        assert(rest@ =~= input@.skip(2 + 2 * n));
        Ok((ReadResponse { function, byte_count, registers }, rest))
    }
}

} // verus!
