use buddy_choreography::executor::{
    move_by_path_execute_step_request, move_to_execute_step_request, play_action_execute_step_request,
};
use buddy_choreography::json::JsonValue;
use buddy_choreography::registry::StepResolution;
use buddy_choreography::step_protocol::{
    interrupt_step_request, motion_timeout_step_failed_response, protocol_error_response_with_code,
    query_state_request, state_snapshot_response, step_completed_response, step_interrupted_response,
    SidecarInterruptPolicy, SidecarInterruptReasonCode, SidecarStepErrorCode, SidecarStepResponse,
};
use buddy_choreography::timeline::{MoveByPathStep, MoveEdge, MoveTarget, MoveToStep, PlayActionStep};
use buddy_choreography::wire::{
    execute_step_request_json, interrupt_step_request_json, query_state_request_json,
    state_snapshot_response_json, step_response_json,
};

fn s(v: &str) -> JsonValue {
    JsonValue::Str(v.to_owned())
}

fn n(v: i128) -> JsonValue {
    JsonValue::Number(Some(v))
}

fn obj(members: Vec<(&str, JsonValue)>) -> JsonValue {
    JsonValue::Object(members.into_iter().map(|(k, v)| (k.to_owned(), v)).collect())
}

fn resolution(playback_kind: &str, duration_ms: u64, clip_duration_ms: u64) -> StepResolution {
    StepResolution {
        action_id: "celebrate".to_owned(),
        animation_ref: "celebrate".to_owned(),
        playback_kind: playback_kind.to_owned(),
        duration_ms,
        loop_animation: playback_kind == "loopForDuration",
        interrupt_policy: SidecarInterruptPolicy::Interruptible,
        fallback: None,
        clip_duration_ms,
    }
}

#[test]
fn protocol_error_response_serializes_stable_json_line_payload() {
    let response = protocol_error_response_with_code(
        Some("step_019f4800-0000-7000-8000-000000000003"),
        SidecarStepErrorCode::InvalidStepProtocol,
        "executeStep step.kind is unsupported",
    );

    assert_eq!(
        step_response_json(&SidecarStepResponse::ProtocolError(response)),
        obj(vec![
            ("protocolVersion", n(1)),
            ("correlationId", s("message_019f4800-0000-7000-8000-000000000003")),
            ("type", s("protocolError")),
            ("stepId", s("step_019f4800-0000-7000-8000-000000000003")),
            ("code", s("invalidStepProtocol")),
            ("message", s("executeStep step.kind is unsupported")),
        ])
    );
}

#[test]
fn interrupt_step_request_serializes_stable_json_line_payload() {
    let request = interrupt_step_request(
        "step_019f4800-0000-7000-8000-000000000005",
        SidecarInterruptReasonCode::AdmissionPreemptedByHigherPriorityPlan,
    );

    assert_eq!(
        interrupt_step_request_json(&request),
        obj(vec![
            ("protocolVersion", n(1)),
            ("messageId", s("message_019f4800-0000-7000-8000-000000000005")),
            ("type", s("interruptStep")),
            ("stepId", s("step_019f4800-0000-7000-8000-000000000005")),
            ("reasonCode", s("admission.preemptedByHigherPriorityPlan")),
        ])
    );
}

#[test]
fn query_state_request_serializes_stable_json_line_payload() {
    let request = query_state_request("state_019f5500-0000-7000-8000-000000000001");

    assert_eq!(
        query_state_request_json(&request),
        obj(vec![
            ("protocolVersion", n(1)),
            ("messageId", s("message_019f5500-0000-7000-8000-000000000001")),
            ("type", s("queryState")),
            ("requestId", s("state_019f5500-0000-7000-8000-000000000001")),
        ])
    );
}

#[test]
fn state_snapshot_response_serializes_stable_json_line_payload() {
    let response = state_snapshot_response("state_019f5500-0000-7000-8000-000000000002", 120, 640);

    assert_eq!(
        state_snapshot_response_json(&response),
        obj(vec![
            ("protocolVersion", n(1)),
            ("correlationId", s("message_019f5500-0000-7000-8000-000000000002")),
            ("type", s("stateSnapshot")),
            ("requestId", s("state_019f5500-0000-7000-8000-000000000002")),
            ("position", obj(vec![("x", n(120)), ("y", n(640))])),
        ])
    );
}

#[test]
fn step_completed_response_serializes_stable_json_line_payload() {
    let response = step_completed_response("step_019f4800-0000-7000-8000-000000000006", 1_720);

    assert_eq!(
        step_response_json(&SidecarStepResponse::StepCompleted(response)),
        obj(vec![
            ("protocolVersion", n(1)),
            ("correlationId", s("message_019f4800-0000-7000-8000-000000000006")),
            ("type", s("stepCompleted")),
            ("stepId", s("step_019f4800-0000-7000-8000-000000000006")),
            ("elapsedMs", n(1720)),
        ])
    );
}

#[test]
fn step_failed_response_serializes_stable_json_line_payload() {
    let response = motion_timeout_step_failed_response("step_019f4800-0000-7000-8000-000000000007", Some(15_000));

    assert_eq!(
        step_response_json(&SidecarStepResponse::StepFailed(response)),
        obj(vec![
            ("protocolVersion", n(1)),
            ("correlationId", s("message_019f4800-0000-7000-8000-000000000007")),
            ("type", s("stepFailed")),
            ("stepId", s("step_019f4800-0000-7000-8000-000000000007")),
            ("code", s("motionTimeout")),
            ("message", s("native pet motion did not settle before timeout")),
            ("elapsedMs", n(15000)),
        ])
    );
}

#[test]
fn step_interrupted_response_serializes_stable_json_line_payload() {
    let response = step_interrupted_response(
        "step_019f4800-0000-7000-8000-000000000008",
        SidecarInterruptReasonCode::AdmissionPreemptedByHigherPriorityPlan,
        None,
    );

    assert_eq!(
        step_response_json(&SidecarStepResponse::StepInterrupted(response)),
        obj(vec![
            ("protocolVersion", n(1)),
            ("correlationId", s("message_019f4800-0000-7000-8000-000000000008")),
            ("type", s("stepInterrupted")),
            ("stepId", s("step_019f4800-0000-7000-8000-000000000008")),
            ("reasonCode", s("admission.preemptedByHigherPriorityPlan")),
        ])
    );
}

#[test]
fn step_interrupted_response_writes_elapsed_time_when_known() {
    let response = step_interrupted_response(
        "step_019f4800-0000-7000-8000-000000000009",
        SidecarInterruptReasonCode::AdmissionPreemptedByHigherPriorityPlan,
        Some(40),
    );

    let json = step_response_json(&SidecarStepResponse::StepInterrupted(response));
    match json {
        JsonValue::Object(members) => {
            assert_eq!(members.last(), Some(&("elapsedMs".to_owned(), n(40))));
        }
        other => panic!("expected an object, got {other:?}"),
    }
}

#[test]
fn play_action_execute_step_request_serializes_resolved_animation_for_sidecar_protocol() {
    let step = PlayActionStep::once("step_019f4500-0000-7000-8000-000000000037", "celebrate", 5_000);

    let request = play_action_execute_step_request(&step, &resolution("once", 1_720, 1_720));

    assert_eq!(
        execute_step_request_json(&request),
        obj(vec![
            ("protocolVersion", n(1)),
            ("messageId", s("message_019f4500-0000-7000-8000-000000000037")),
            ("type", s("executeStep")),
            ("stepId", s("step_019f4500-0000-7000-8000-000000000037")),
            (
                "step",
                obj(vec![
                    ("kind", s("playAction")),
                    ("animation", s("celebrate")),
                    ("playback", obj(vec![("kind", s("once")), ("durationMs", n(1720))])),
                    ("interruptPolicy", s("interruptible")),
                    ("timeoutMs", n(5000)),
                ]),
            ),
        ])
    );
}

#[test]
fn loop_for_duration_execute_step_request_writes_clip_duration() {
    let step = PlayActionStep::once("step_019f4500-0000-7000-8000-000000000040", "celebrate", 11_000);

    let request = play_action_execute_step_request(&step, &resolution("loopForDuration", 10_000, 1_720));

    assert_eq!(
        execute_step_request_json(&request),
        obj(vec![
            ("protocolVersion", n(1)),
            ("messageId", s("message_019f4500-0000-7000-8000-000000000040")),
            ("type", s("executeStep")),
            ("stepId", s("step_019f4500-0000-7000-8000-000000000040")),
            (
                "step",
                obj(vec![
                    ("kind", s("playAction")),
                    ("animation", s("celebrate")),
                    (
                        "playback",
                        obj(vec![
                            ("kind", s("loopForDuration")),
                            ("durationMs", n(10000)),
                            ("clipDurationMs", n(1720)),
                        ]),
                    ),
                    ("interruptPolicy", s("interruptible")),
                    ("timeoutMs", n(11000)),
                ]),
            ),
        ])
    );
}

#[test]
fn move_to_execute_step_request_serializes_resolved_target_for_sidecar_protocol() {
    let mut step = MoveToStep::home("step_019f4500-0000-7000-8000-000000000036", 15_000);
    step.after_action_id = Some("sleep".to_owned());

    let request =
        move_to_execute_step_request(&step, Some("sleep")).expect("serialize moveTo executeStep request");

    assert_eq!(
        execute_step_request_json(&request),
        obj(vec![
            ("protocolVersion", n(1)),
            ("messageId", s("message_019f4500-0000-7000-8000-000000000036")),
            ("type", s("executeStep")),
            ("stepId", s("step_019f4500-0000-7000-8000-000000000036")),
            (
                "step",
                obj(vec![
                    ("kind", s("moveTo")),
                    ("target", obj(vec![("kind", s("home"))])),
                    ("after", s("sleep")),
                    ("interruptPolicy", s("interruptible")),
                    ("timeoutMs", n(15000)),
                ]),
            ),
        ])
    );
}

#[test]
fn move_to_execute_step_request_leaves_out_an_absent_after_animation() {
    let step = MoveToStep::home("step_019f4500-0000-7000-8000-000000000041", 15_000);

    let request = move_to_execute_step_request(&step, None).expect("serialize moveTo executeStep request");

    match execute_step_request_json(&request) {
        JsonValue::Object(members) => {
            let step = &members.last().expect("step member").1;
            match step {
                JsonValue::Object(step_members) => {
                    assert!(step_members.iter().all(|(key, _)| key != "after"));
                }
                other => panic!("expected an object, got {other:?}"),
            }
        }
        other => panic!("expected an object, got {other:?}"),
    }
}

#[test]
fn move_by_path_execute_step_request_serializes_path_for_sidecar_protocol() {
    let mut step = MoveByPathStep::new(
        "step_019f4500-0000-7000-8000-000000000038",
        vec![
            MoveTarget::Edge { edge: MoveEdge::Left },
            MoveTarget::Center,
            MoveTarget::Position { x: 320, y: 640 },
        ],
        30_000,
    );
    step.after_action_id = Some("sleep".to_owned());

    let request = move_by_path_execute_step_request(&step, Some("sleep"))
        .expect("serialize moveByPath executeStep request");

    assert_eq!(
        execute_step_request_json(&request),
        obj(vec![
            ("protocolVersion", n(1)),
            ("messageId", s("message_019f4500-0000-7000-8000-000000000038")),
            ("type", s("executeStep")),
            ("stepId", s("step_019f4500-0000-7000-8000-000000000038")),
            (
                "step",
                obj(vec![
                    ("kind", s("moveByPath")),
                    (
                        "path",
                        JsonValue::Array(vec![
                            obj(vec![("kind", s("edge")), ("edge", s("left"))]),
                            obj(vec![("kind", s("center"))]),
                            obj(vec![("kind", s("position")), ("x", n(320)), ("y", n(640))]),
                        ]),
                    ),
                    ("after", s("sleep")),
                    ("interruptPolicy", s("interruptible")),
                    ("timeoutMs", n(30000)),
                ]),
            ),
        ])
    );
}
