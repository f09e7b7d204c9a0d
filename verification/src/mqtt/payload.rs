//! The telemetry record built from a decoded frame, and its JSON form.
//!
//! The JSON emitter is written out here and verified character for character,
//! so serialization is total: unlike an encoder that could fail and force a
//! fallback, `to_json` always returns exactly the rendering that `json_of`
//! describes. The field names of the rendering are part of the contract.

use vstd::prelude::*;
use vstd::string::StringExecFns;
use crate::modbus::frame::MbapHeader;
use crate::modbus::function::{FunctionCode, ReadResponse};
use crate::text::{dec_str, escape, push_dec_u16, push_escaped};

verus! {

/// One register value inside a telemetry record. The address is the
/// zero-based position of the value in the response, not a protocol-level
/// register address.
#[derive(Debug)]
pub struct Register {
    pub address: u16,
    pub value: u16,
    /// Human-readable name if configured; label assignment is out of scope
    /// for the pipeline, which always leaves it absent.
    pub label: Option<String>,
}

/// The mathematical image of a `Register`.
pub ghost struct RegisterV {
    pub address: u16,
    pub value: u16,
    pub label: Option<Seq<char>>,
}

impl View for Register {
    type V = RegisterV;

    open spec fn view(&self) -> RegisterV {
        RegisterV {
            address: self.address,
            value: self.value,
            label: match self.label {
                Some(l) => Some(l@),
                None => None,
            },
        }
    }
}

/// The structured record published for one successfully decoded frame.
#[derive(Debug)]
pub struct TelemetryPayload {
    /// Fixed tag identifying the input transport.
    pub source: String,
    /// Device address, copied verbatim from the header.
    pub unit_id: u8,
    /// Human-readable function name.
    pub function: String,
    /// Decoded register values in input order.
    pub registers: Vec<Register>,
    /// ISO-8601 timestamp.
    pub timestamp: String,
}

/// The mathematical image of a `TelemetryPayload`.
pub ghost struct TelemetryPayloadV {
    pub source: Seq<char>,
    pub unit_id: u8,
    pub function: Seq<char>,
    pub registers: Seq<RegisterV>,
    pub timestamp: Seq<char>,
}

impl View for TelemetryPayload {
    type V = TelemetryPayloadV;

    open spec fn view(&self) -> TelemetryPayloadV {
        TelemetryPayloadV {
            source: self.source@,
            unit_id: self.unit_id,
            function: self.function@,
            registers: self.registers@.map_values(|r: Register| r@),
            timestamp: self.timestamp@,
        }
    }
}

/// The JSON rendering of one register object.
pub open spec fn json_register(r: RegisterV) -> Seq<char> {
    "{\"address\":"@ + dec_str(r.address as nat) + ",\"value\":"@ + dec_str(r.value as nat)
        + (match r.label {
        None => Seq::<char>::empty(),
        Some(l) => ",\"label\":\""@ + escape(l) + "\""@,
    }) + "}"@
}

/// The JSON rendering of a register array's contents, comma separated.
pub open spec fn json_registers(rs: Seq<RegisterV>) -> Seq<char>
    decreases rs.len(),
{
    if rs.len() == 0 {
        Seq::empty()
    } else if rs.len() == 1 {
        json_register(rs[0])
    } else {
        json_registers(rs.drop_last()) + ","@ + json_register(rs.last())
    }
}

/// The JSON rendering of a whole telemetry record.
pub open spec fn json_of(p: TelemetryPayloadV) -> Seq<char> {
    "{\"source\":\""@ + escape(p.source) + "\",\"unit_id\":"@ + dec_str(p.unit_id as nat)
        + ",\"function\":\""@ + escape(p.function) + "\",\"registers\":["@ + json_registers(
        p.registers,
    ) + "],\"timestamp\":\""@ + escape(p.timestamp) + "\"}"@
}

/// The fixed mapping from a function code to its human-readable name.
pub open spec fn function_name(f: FunctionCode) -> Seq<char> {
    match f {
        FunctionCode::ReadHoldingRegisters => "read_holding_registers"@,
        FunctionCode::ReadInputRegisters => "read_input_registers"@,
    }
}

/// The fixed tag naming the input transport.
pub open spec fn source_tag() -> Seq<char> {
    "modbus://plc:502"@
}

/// The timestamp stamped on every record. The hosting component supplies no
/// clock, so the tag is a fixed ISO-8601 literal.
pub open spec fn fixed_timestamp() -> Seq<char> {
    "2026-01-05T00:00:00Z"@
}

/// The record that `TelemetryPayload::build` produces from decoded values:
/// fixed source and timestamp tags, the unit id copied verbatim, the mapped
/// function name, and each register value paired with its position, with no
/// label.
pub open spec fn built_payload(unit_id: u8, f: FunctionCode, vals: Seq<u16>) -> TelemetryPayloadV {
    TelemetryPayloadV {
        source: source_tag(),
        unit_id: unit_id,
        function: function_name(f),
        registers: Seq::new(
            vals.len(),
            |i: int| RegisterV { address: i as u16, value: vals[i], label: None },
        ),
        timestamp: fixed_timestamp(),
    }
}

/// Append the JSON object for one register.
fn push_register_json(out: &mut String, r: &Register)
    ensures
        final(out)@ == old(out)@ + json_register(r@),
{
    out.append("{\"address\":");
    push_dec_u16(out, r.address);
    out.append(",\"value\":");
    push_dec_u16(out, r.value);
    match &r.label {
        None => {},
        Some(l) => {
            out.append(",\"label\":\"");
            push_escaped(out, l.as_str());
            out.append("\"");
        },
    }
    out.append("}");
    assert(out@ =~= old(out)@ + json_register(r@));
}

impl TelemetryPayload {
    /// Map a validated header and a decoded response into the telemetry
    /// record: source and timestamp are fixed tags, the unit id is copied
    /// verbatim, the function name comes from the fixed mapping, and each
    /// register value is paired with its zero-based position as the address,
    /// with no label.
    pub fn build(header: &MbapHeader, response: &ReadResponse) -> (p: TelemetryPayload)
        requires
            response.registers@.len() <= u16::MAX,
        ensures
            p@ == built_payload(header.unit_id, response.function, response.registers@),
    {
        let n = response.registers.len();
        let mut registers: Vec<Register> = Vec::new();
        let mut i: usize = 0;
        while i < n
            invariant
                i <= n,
                n == response.registers@.len(),
                n <= u16::MAX,
                registers@.len() == i,
                forall|k: int|
                    0 <= k < i ==> (#[trigger] registers@[k])@ == (RegisterV {
                        address: k as u16,
                        value: response.registers@[k],
                        label: None,
                    }),
            decreases n - i,
        {
            let ghost pre = registers@;
            registers.push(
                Register { address: i as u16, value: response.registers[i], label: None },
            );
            proof {
                assert forall|k: int| 0 <= k < i + 1 implies (#[trigger] registers@[k])@
                    == (RegisterV {
                    address: k as u16,
                    value: response.registers@[k],
                    label: None,
                }) by {
                    if k < i {
                        assert(registers@[k] == pre[k]);
                    }
                }
            }
            i = i + 1;
        }
        let function = match response.function {
            FunctionCode::ReadHoldingRegisters => String::from_str("read_holding_registers"),
            FunctionCode::ReadInputRegisters => String::from_str("read_input_registers"),
        };
        let p = TelemetryPayload {
            source: String::from_str("modbus://plc:502"),
            unit_id: header.unit_id,
            function,
            registers,
            timestamp: String::from_str("2026-01-05T00:00:00Z"),
        };
        proof {
            let built = built_payload(header.unit_id, response.function, response.registers@);
            assert(p@.registers =~= built.registers);
            assert(p@ == built);
        }
        p
    }

    /// Serialize the record to its JSON text. The emitter is total: the
    /// result is exactly the rendering that `json_of` describes, for every
    /// record, so serialization can never fail and never disturbs the
    /// pipeline.
    pub fn to_json(&self) -> (r: String)
        ensures
            r@ == json_of(self@),
    {
        let mut out = String::from_str("{\"source\":\"");
        push_escaped(&mut out, self.source.as_str());
        out.append("\",\"unit_id\":");
        push_dec_u16(&mut out, self.unit_id as u16);
        out.append(",\"function\":\"");
        push_escaped(&mut out, self.function.as_str());
        out.append("\",\"registers\":[");
        let ghost prefix = out@;
        let n = self.registers.len();
        let mut i: usize = 0;
        while i < n
            invariant
                i <= n,
                n == self.registers@.len(),
                out@ == prefix + json_registers(self@.registers.subrange(0, i as int)),
            decreases n - i,
        {
            if i > 0 {
                out.append(",");
            }
            push_register_json(&mut out, &self.registers[i]);
            proof {
                let rs = self@.registers;
                let longer = rs.subrange(0, i + 1 as int);
                assert(longer.drop_last() =~= rs.subrange(0, i as int));
                assert(longer.last() == rs[i as int]);
                assert(rs[i as int] == self.registers@[i as int]@);
                assert(out@ =~= prefix + json_registers(longer));
            }
            i = i + 1;
        }
        out.append("],\"timestamp\":\"");
        push_escaped(&mut out, self.timestamp.as_str());
        out.append("\"}");
        proof {
            assert(self@.registers.subrange(0, n as int) =~= self@.registers);
            assert(out@ =~= json_of(self@));
        }
        out
    }
}

} // verus!
