//! The MBAP header: the 7-byte envelope that wraps every Modbus TCP message.
//!
//! Decoding only checks that enough bytes are present and extracts the fields
//! in their fixed big-endian order; the semantic checks live in `validate`.

use vstd::prelude::*;
use vstd::slice::slice_subrange;
use crate::error::GatewayError;

verus! {

/// The value of a big-endian 16-bit field with the given two bytes.
pub open spec fn be_u16_value(hi: u8, lo: u8) -> u16 {
    (hi as int * 256 + lo as int) as u16
}

/// Read one big-endian 16-bit value from its two bytes.
pub fn be_u16(hi: u8, lo: u8) -> (r: u16)
    ensures
        r == be_u16_value(hi, lo),
{
    (hi as u16) * 256 + (lo as u16)
}

/// The 7-byte envelope prefixed to every Modbus TCP message.
/// It is specific to the TCP transport and not part of serial Modbus.
#[derive(Debug, Clone, PartialEq, Eq, Structural)]
pub struct MbapHeader {
    /// Correlation token echoed by the server; never interpreted here.
    pub transaction_id: u16,
    /// Must be zero for Modbus.
    pub protocol_id: u16,
    /// Count of the bytes that follow the header: unit id plus PDU.
    pub length: u16,
    /// Address of the logical device behind the gateway.
    pub unit_id: u8,
}

/// The header encoded in the first 7 bytes of `s`; meaningful when
/// `s.len() >= 7`.
pub open spec fn spec_header(s: Seq<u8>) -> MbapHeader {
    MbapHeader {
        transaction_id: be_u16_value(s[0], s[1]),
        protocol_id: be_u16_value(s[2], s[3]),
        length: be_u16_value(s[4], s[5]),
        unit_id: s[6],
    }
}

/// The semantic invariant a decoded header must meet: the protocol id is
/// zero and the length field covers at least a unit id and a function code
/// but no more than a maximal PDU.
pub open spec fn header_valid(h: MbapHeader) -> bool {
    h.protocol_id == 0 && 2 <= h.length <= 253
}

impl MbapHeader {
    /// Decode the header from the start of `input`, returning it together
    /// with the bytes that follow it. Any input shorter than 7 bytes is
    /// rejected; no input panics.
    pub fn parse(input: &[u8]) -> (r: Result<(MbapHeader, &[u8]), GatewayError>)
        ensures
            r is Ok <==> input@.len() >= 7,
            r matches Ok((h, rest)) ==> {
                &&& h == spec_header(input@)
                &&& rest@ == input@.skip(7)
            },
            r matches Err(e) ==> e == GatewayError::MalformedHeader,
    {
        if input.len() < 7 {
            return Err(GatewayError::MalformedHeader);
        }
        let header = MbapHeader {
            transaction_id: be_u16(input[0], input[1]),
            protocol_id: be_u16(input[2], input[3]),
            length: be_u16(input[4], input[5]),
            unit_id: input[6],
        };
        let rest = slice_subrange(input, 7, input.len());
        assert(rest@ =~= input@.skip(7));
        Ok((header, rest))
    }

    /// Check the semantic invariant of a decoded header. The protocol id is
    /// checked first, so a bad protocol id is reported even when the length
    /// is also out of bounds. Validation reads nothing beyond the header.
    pub fn validate(&self) -> (r: Result<(), GatewayError>)
        ensures
            r is Ok <==> header_valid(*self),
            r matches Err(e) ==> e == (if self.protocol_id != 0 {
                GatewayError::BadProtocolId
            } else {
                GatewayError::BadLength
            }),
    {
        if self.protocol_id != 0 {
            return Err(GatewayError::BadProtocolId);
        }
        if self.length < 2 || self.length > 253 {
            return Err(GatewayError::BadLength);
        }
        Ok(())
    }
}

} // verus!
