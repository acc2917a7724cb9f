use buddy_choreography::step_protocol::{
    motion_timeout_step_failed_response, parse_sidecar_state_snapshot_response,
    parse_sidecar_step_response, protocol_error_response, state_snapshot_response,
    step_completed_response, step_interrupted_response, SidecarInterruptReasonCode,
    SidecarStepErrorCode, SidecarStepResponse,
};

#[test]
fn parse_sidecar_step_response_reads_step_completed_json_line() {
    let response = parse_sidecar_step_response(
        r#"{"protocolVersion":1,"correlationId":"message_019f4800-0000-7000-8000-000000000009","type":"stepCompleted","stepId":"step_019f4800-0000-7000-8000-000000000009","elapsedMs":1720}"#,
    )
    .expect("parse stepCompleted response");

    assert_eq!(
        response,
        SidecarStepResponse::StepCompleted(step_completed_response(
            "step_019f4800-0000-7000-8000-000000000009",
            1_720,
        ))
    );
}

#[test]
fn parse_sidecar_state_snapshot_response_reads_state_snapshot_json_line() {
    let response = parse_sidecar_state_snapshot_response(
        r#"{"protocolVersion":1,"correlationId":"message_019f5500-0000-7000-8000-000000000003","type":"stateSnapshot","requestId":"state_019f5500-0000-7000-8000-000000000003","position":{"x":120,"y":640}}"#,
    )
    .expect("parse stateSnapshot response");

    assert_eq!(
        response,
        state_snapshot_response("state_019f5500-0000-7000-8000-000000000003", 120, 640)
    );
}

#[test]
fn parse_sidecar_state_snapshot_response_rejects_unknown_fields() {
    let error = parse_sidecar_state_snapshot_response(
        r#"{"protocolVersion":1,"correlationId":"message_019f5500-0000-7000-8000-000000000004","type":"stateSnapshot","requestId":"state_019f5500-0000-7000-8000-000000000004","position":{"x":120,"y":640},"debug":true}"#,
    )
    .expect_err("stateSnapshot extra field should be rejected");

    assert_eq!(
        error.message(),
        "buddy state validation failed: unsupported sidecar stateSnapshot field: debug"
    );
}

#[test]
fn parse_sidecar_step_response_reads_protocol_error_json_line() {
    let response = parse_sidecar_step_response(
        r#"{"protocolVersion":1,"type":"protocolError","stepId":null,"code":"invalidStepProtocol","message":"missing type"}"#,
    )
    .expect("parse protocolError response");

    assert_eq!(
        response,
        SidecarStepResponse::ProtocolError(protocol_error_response(
            None,
            SidecarStepErrorCode::InvalidStepProtocol,
            "missing type",
        ))
    );
}

#[test]
fn parse_sidecar_step_response_reads_step_failed_json_line() {
    let response = parse_sidecar_step_response(
        r#"{"protocolVersion":1,"correlationId":"message_019f4800-0000-7000-8000-000000000011","type":"stepFailed","stepId":"step_019f4800-0000-7000-8000-000000000011","code":"motionTimeout","message":"native pet motion did not settle before timeout","elapsedMs":15000}"#,
    )
    .expect("parse stepFailed response");

    assert_eq!(
        response,
        SidecarStepResponse::StepFailed(motion_timeout_step_failed_response(
            "step_019f4800-0000-7000-8000-000000000011",
            Some(15_000),
        ))
    );
}

#[test]
fn parse_sidecar_step_response_reads_interrupt_rejected_step_failed_json_line() {
    let response = parse_sidecar_step_response(
        r#"{"protocolVersion":1,"correlationId":"message_019f4800-0000-7000-8000-000000000024","type":"stepFailed","stepId":"step_019f4800-0000-7000-8000-000000000024","code":"interruptRejected","message":"native pet step rejected interrupt due to interrupt policy","elapsedMs":90}"#,
    )
    .expect("parse interruptRejected stepFailed response");

    let SidecarStepResponse::StepFailed(response) = response else {
        panic!("interruptRejected response should be stepFailed");
    };

    assert_eq!(response.protocol_version, 1);
    assert_eq!(
        response.correlation_id.as_deref(),
        Some("message_019f4800-0000-7000-8000-000000000024")
    );
    assert_eq!(response.step_id, "step_019f4800-0000-7000-8000-000000000024");
    assert_eq!(response.code, SidecarStepErrorCode::InterruptRejected);
    assert_eq!(response.code.as_str(), "interruptRejected");
    assert_eq!(
        response.message,
        "native pet step rejected interrupt due to interrupt policy"
    );
    assert_eq!(response.elapsed_ms, Some(90));
}

#[test]
fn parse_sidecar_step_response_rejects_unknown_fields() {
    let cases = [
        (
            r#"{"protocolVersion":1,"correlationId":"message_019f4800-0000-7000-8000-000000000025","type":"stepCompleted","stepId":"step_019f4800-0000-7000-8000-000000000025","elapsedMs":1720,"debug":true}"#,
            "stepCompleted",
        ),
        (
            r#"{"protocolVersion":1,"correlationId":"message_019f4800-0000-7000-8000-000000000026","type":"stepFailed","stepId":"step_019f4800-0000-7000-8000-000000000026","code":"motionTimeout","message":"native pet motion did not settle before timeout","debug":true}"#,
            "stepFailed",
        ),
        (
            r#"{"protocolVersion":1,"correlationId":"message_019f4800-0000-7000-8000-000000000027","type":"stepInterrupted","stepId":"step_019f4800-0000-7000-8000-000000000027","reasonCode":"admission.preemptedByHigherPriorityPlan","debug":true}"#,
            "stepInterrupted",
        ),
        (
            r#"{"protocolVersion":1,"type":"protocolError","stepId":null,"code":"invalidStepProtocol","message":"missing type","debug":true}"#,
            "protocolError",
        ),
    ];

    for (line, message_type) in cases {
        let error = parse_sidecar_step_response(line)
            .expect_err("sidecar step response extra field should be rejected");

        assert_eq!(
            error.message(),
            format!("buddy state validation failed: unsupported sidecar {message_type} field: debug")
        );
    }
}

#[test]
fn parse_sidecar_step_response_reads_step_interrupted_json_line() {
    let response = parse_sidecar_step_response(
        r#"{"protocolVersion":1,"correlationId":"message_019f4800-0000-7000-8000-000000000012","type":"stepInterrupted","stepId":"step_019f4800-0000-7000-8000-000000000012","reasonCode":"admission.preemptedByHigherPriorityPlan"}"#,
    )
    .expect("parse stepInterrupted response");

    assert_eq!(
        response,
        SidecarStepResponse::StepInterrupted(step_interrupted_response(
            "step_019f4800-0000-7000-8000-000000000012",
            SidecarInterruptReasonCode::AdmissionPreemptedByHigherPriorityPlan,
            None,
        ))
    );
}

#[test]
fn parse_sidecar_step_response_rejects_unknown_protocol_values() {
    let cases = [
        (
            r#"{"protocolVersion":1,"correlationId":"message_019f4800-0000-7000-8000-000000000021","type":"stepFailed","stepId":"step_019f4800-0000-7000-8000-000000000021","code":"futureFailure","message":"future failure"}"#,
            "buddy state validation failed: unsupported sidecar step error code: futureFailure",
        ),
        (
            r#"{"protocolVersion":1,"correlationId":"message_019f4800-0000-7000-8000-000000000022","type":"protocolError","stepId":"step_019f4800-0000-7000-8000-000000000022","code":"futureProtocolError","message":"future protocol error"}"#,
            "buddy state validation failed: unsupported sidecar step error code: futureProtocolError",
        ),
        (
            r#"{"protocolVersion":1,"correlationId":"message_019f4800-0000-7000-8000-000000000023","type":"stepInterrupted","stepId":"step_019f4800-0000-7000-8000-000000000023","reasonCode":"futureInterrupt"}"#,
            "buddy state validation failed: unsupported sidecar interrupt reason code: futureInterrupt",
        ),
        (
            r#"{"protocolVersion":1,"type":"ready","stepId":"step_019f4800-0000-7000-8000-000000000010"}"#,
            "buddy state validation failed: unsupported sidecar step response type: ready",
        ),
        (
            r#"{"protocolVersion":2,"type":"stepCompleted","stepId":"step_019f4800-0000-7000-8000-000000000013","elapsedMs":1720}"#,
            "buddy state validation failed: unsupported sidecar protocol version: 2",
        ),
    ];

    for (line, expected_error) in cases {
        let error = parse_sidecar_step_response(line)
            .expect_err("unknown sidecar protocol value should be rejected");

        assert_eq!(error.message(), expected_error);
    }
}

#[test]
fn parse_sidecar_step_response_rejects_invalid_json_and_missing_fields() {
    let error = parse_sidecar_step_response("{not json").expect_err("invalid JSON");
    assert_eq!(
        error.message(),
        "buddy state validation failed: invalid sidecar step response JSON"
    );

    let error = parse_sidecar_step_response(r#"{"type":"stepCompleted"}"#)
        .expect_err("missing protocol version");
    assert_eq!(
        error.message(),
        "buddy state validation failed: missing sidecar protocolVersion"
    );

    let error = parse_sidecar_step_response(
        r#"{"protocolVersion":1,"type":"stepCompleted","stepId":"step_1"}"#,
    )
    .expect_err("missing elapsedMs");
    assert_eq!(
        error.message(),
        "buddy state validation failed: invalid sidecar stepCompleted field: elapsedMs"
    );

    let error = parse_sidecar_step_response(
        r#"{"protocolVersion":-3,"type":"stepCompleted"}"#,
    )
    .expect_err("negative protocol version");
    assert_eq!(
        error.message(),
        "buddy state validation failed: unsupported sidecar protocol version: -3"
    );
}

#[test]
fn response_builders_derive_correlation_ids_from_step_ids() {
    let response = step_completed_response("step_abc", 5);
    assert_eq!(response.correlation_id.as_deref(), Some("message_abc"));
    let response = state_snapshot_response("noprefix", 1, 2);
    assert_eq!(response.correlation_id.as_deref(), Some("message_noprefix"));
    let response =
        protocol_error_response(None, SidecarStepErrorCode::InvalidStepProtocol, "bad");
    assert_eq!(response.correlation_id, None);
    assert_eq!(response.step_id, None);
}
