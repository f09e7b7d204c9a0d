use modbus_gateway::error::GatewayError;
use modbus_gateway::gateway::{process_frame, GatewayPipeline};

// Scenario: a fully valid frame with two holding registers.
const VALID_FRAME: [u8; 13] = [
    0x00, 0x01, 0x00, 0x00, 0x00, 0x06, 0x01, 0x03, 0x04, 0x03, 0xE8, 0x07, 0xD0,
];

#[test]
fn valid_frame_produces_publish_request() {
    let request = process_frame(&VALID_FRAME).unwrap();
    assert_eq!(request.topic, "ics/telemetry/unit_1");
    assert!(request.payload.contains("\"unit_id\":1"));
    assert!(request.payload.contains("\"value\":1000"));
    assert!(request.payload.contains("\"value\":2000"));
    assert!(request.payload.contains("\"function\":\"read_holding_registers\""));
    assert!(request.payload.contains("\"source\":\"modbus://plc:502\""));
}

#[test]
fn valid_frame_payload_is_exact() {
    let request = process_frame(&VALID_FRAME).unwrap();
    assert_eq!(
        request.payload,
        "{\"source\":\"modbus://plc:502\",\"unit_id\":1,\"function\":\"read_holding_registers\",\
         \"registers\":[{\"address\":0,\"value\":1000},{\"address\":1,\"value\":2000}],\
         \"timestamp\":\"2026-01-05T00:00:00Z\"}"
    );
}

#[test]
fn truncated_header_counts_one_invalid_frame() {
    // 3 bytes cannot hold the 7-byte header
    let mut pipeline = GatewayPipeline::new();
    let error = process_frame(&[0x00, 0x01, 0x00]).unwrap_err();
    assert!(matches!(error, GatewayError::MalformedHeader));
    pipeline.fail(&error);
    let stats = pipeline.get_stats();
    assert_eq!(stats.frames_invalid, 1);
    assert_eq!(stats.frames_processed, 0);
    assert_eq!(stats.last_error.as_deref(), Some("malformed mbap header"));
}

#[test]
fn illegal_function_code_leaves_bytes_in_unchanged() {
    // valid header, then function byte 0xFF
    let frame = [0x00, 0x01, 0x00, 0x00, 0x00, 0x06, 0x01, 0xFF, 0x04, 0x03, 0xE8, 0x07, 0xD0];
    let mut pipeline = GatewayPipeline::new();
    let error = process_frame(&frame).unwrap_err();
    assert!(matches!(error, GatewayError::UnsupportedFunctionCode));
    pipeline.fail(&error);
    let stats = pipeline.get_stats();
    assert_eq!(stats.bytes_in, 0);
    assert_eq!(stats.frames_invalid, 1);
    assert_eq!(stats.last_error.as_deref(), Some("unsupported function code"));
}

#[test]
fn wrong_protocol_id_fails_despite_valid_length() {
    // protocol id 0xDEAD with a valid length and unit id
    let frame = [0x00, 0x01, 0xDE, 0xAD, 0x00, 0x06, 0x01, 0x03, 0x04, 0x03, 0xE8, 0x07, 0xD0];
    let error = process_frame(&frame).unwrap_err();
    assert!(matches!(error, GatewayError::BadProtocolId));
}

#[test]
fn bad_length_is_reported_after_protocol_id() {
    // protocol id 0, length 255: out of the 2..=253 bounds
    let frame = [0x00, 0x01, 0x00, 0x00, 0x00, 0xFF, 0x01, 0x03, 0x00];
    let error = process_frame(&frame).unwrap_err();
    assert!(matches!(error, GatewayError::BadLength));
}

#[test]
fn truncated_pdu_is_a_malformed_pdu() {
    // header declares a response, but the register bytes are missing
    let frame = [0x00, 0x01, 0x00, 0x00, 0x00, 0x06, 0x01, 0x03, 0x04, 0x03];
    let error = process_frame(&frame).unwrap_err();
    assert!(matches!(error, GatewayError::MalformedPdu));
}

#[test]
fn success_counts_frame_and_both_byte_totals() {
    let mut pipeline = GatewayPipeline::new();
    let request = process_frame(&VALID_FRAME).unwrap();
    pipeline.succeed(VALID_FRAME.len() as u64, request.payload.len() as u64);
    let stats = pipeline.get_stats();
    assert_eq!(stats.frames_processed, 1);
    assert_eq!(stats.frames_invalid, 0);
    assert_eq!(stats.bytes_in, 13);
    assert_eq!(stats.bytes_out, request.payload.len() as u64);
    assert!(stats.last_error.is_none());
}

#[test]
fn every_invocation_reaches_exactly_one_terminal_state() {
    // processed + invalid always equals the number of concluded invocations,
    // bytes_in moves only on success, bytes_out only after a publish
    let mut pipeline = GatewayPipeline::new();
    let mut concluded: u64 = 0;
    for round in 0..20u64 {
        if round % 3 == 0 {
            let request = process_frame(&VALID_FRAME).unwrap();
            pipeline.succeed(VALID_FRAME.len() as u64, request.payload.len() as u64);
        } else if round % 3 == 1 {
            let error = process_frame(&[0x00]).unwrap_err();
            pipeline.fail(&error);
        } else {
            pipeline.fail(&GatewayError::PublishFailure("sink closed".to_string()));
        }
        concluded += 1;
        let stats = pipeline.get_stats();
        assert_eq!(stats.frames_processed + stats.frames_invalid, concluded);
    }
    let stats = pipeline.get_stats();
    assert_eq!(stats.frames_processed, 7);
    assert_eq!(stats.frames_invalid, 13);
    assert_eq!(stats.bytes_in, 7 * 13);
    // the last concluded round failed on the truncated frame
    assert_eq!(stats.last_error.as_deref(), Some("malformed mbap header"));
}

#[test]
fn failure_messages_are_exact() {
    assert_eq!(GatewayError::MalformedHeader.message(), "malformed mbap header");
    assert_eq!(
        GatewayError::BadProtocolId.message(),
        "invalid protocol id - must be 0x0000 for modbus"
    );
    assert_eq!(GatewayError::BadLength.message(), "invalid length field - must be 2-253");
    assert_eq!(GatewayError::UnsupportedFunctionCode.message(), "unsupported function code");
    assert_eq!(GatewayError::MalformedPdu.message(), "malformed pdu");
    assert_eq!(
        GatewayError::TransportReceiveFailure("host away".to_string()).message(),
        "receive error: host away"
    );
    assert_eq!(
        GatewayError::PublishFailure("broker refused".to_string()).message(),
        "mqtt publish error: broker refused"
    );
}

#[test]
fn transport_failure_is_recorded_like_any_other() {
    let mut pipeline = GatewayPipeline::new();
    pipeline.fail(&GatewayError::TransportReceiveFailure("no frame".to_string()));
    let stats = pipeline.get_stats();
    assert_eq!(stats.frames_invalid, 1);
    assert_eq!(stats.last_error.as_deref(), Some("receive error: no frame"));
}

#[test]
fn topic_carries_the_unit_id_in_decimal() {
    let mut frame = VALID_FRAME;
    frame[6] = 0; // unit id
    assert_eq!(process_frame(&frame).unwrap().topic, "ics/telemetry/unit_0");
    frame[6] = 255;
    assert_eq!(process_frame(&frame).unwrap().topic, "ics/telemetry/unit_255");
    frame[6] = 42;
    assert_eq!(process_frame(&frame).unwrap().topic, "ics/telemetry/unit_42");
}

#[test]
fn empty_input_is_rejected_without_panic() {
    assert!(matches!(process_frame(&[]), Err(GatewayError::MalformedHeader)));
}

#[test]
fn last_error_keeps_only_the_most_recent_message() {
    let mut pipeline = GatewayPipeline::new();
    pipeline.fail(&GatewayError::MalformedHeader);
    pipeline.fail(&GatewayError::MalformedPdu);
    assert_eq!(pipeline.get_stats().last_error.as_deref(), Some("malformed pdu"));
}
