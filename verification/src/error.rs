//! The failure taxonomy of the gateway.
//!
//! Every way an invocation can abort is one variant here, and each variant
//! renders to the one-line message that the metrics record as `last_error`.

use vstd::prelude::*;
use vstd::string::StringExecFns;

verus! {

/// Everything that can end an invocation before a successful publish.
///
/// The transport and publish variants carry the message reported by the host,
/// since the gateway itself cannot observe why the host failed.
#[derive(Debug, Clone)]
pub enum GatewayError {
    /// The host failed to supply a frame.
    TransportReceiveFailure(String),
    /// Fewer than 7 bytes were available for the MBAP header.
    MalformedHeader,
    /// The header's protocol id was not zero.
    BadProtocolId,
    /// The header's length field was below 2 or above 253.
    BadLength,
    /// The function byte was not one of the two supported read codes.
    UnsupportedFunctionCode,
    /// Too few bytes remained for the declared register payload.
    MalformedPdu,
    /// The downstream sink rejected the serialized telemetry.
    PublishFailure(String),
}

/// The one-line description of an error, as recorded in `last_error`.
pub open spec fn message_of(e: GatewayError) -> Seq<char> {
    match e {
        GatewayError::TransportReceiveFailure(m) => "receive error: "@ + m@,
        GatewayError::MalformedHeader => "malformed mbap header"@,
        GatewayError::BadProtocolId => "invalid protocol id - must be 0x0000 for modbus"@,
        GatewayError::BadLength => "invalid length field - must be 2-253"@,
        GatewayError::UnsupportedFunctionCode => "unsupported function code"@,
        GatewayError::MalformedPdu => "malformed pdu"@,
        GatewayError::PublishFailure(m) => "mqtt publish error: "@ + m@,
    }
}

impl GatewayError {
    /// Render the error as its one-line message.
    pub fn message(&self) -> (m: String)
        ensures
            m@ == message_of(*self),
    {
        match self {
            GatewayError::TransportReceiveFailure(host_msg) => {
                let mut s = String::from_str("receive error: ");
                s.append(host_msg.as_str());
                s
            },
            GatewayError::MalformedHeader => String::from_str("malformed mbap header"),
            GatewayError::BadProtocolId => String::from_str(
                "invalid protocol id - must be 0x0000 for modbus",
            ),
            GatewayError::BadLength => String::from_str("invalid length field - must be 2-253"),
            GatewayError::UnsupportedFunctionCode => String::from_str("unsupported function code"),
            GatewayError::MalformedPdu => String::from_str("malformed pdu"),
            GatewayError::PublishFailure(host_msg) => {
                let mut s = String::from_str("mqtt publish error: ");
                s.append(host_msg.as_str());
                s
            },
        }
    }
}

} // verus!
