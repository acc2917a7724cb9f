use buddy_choreography::error::BuddyError;
use buddy_choreography::executor::{
    ensure_sidecar_step_completed, is_window_anchor_target_unavailable_error,
    nested_timeline_step_event_index, resolved_after_animation_ref,
    runtime_safe_fallback_reason_for_execution_error, unsupported_step_capability_from_message,
    validate_wait_step, RuntimeSafeFallbackReason, TimelineRuntimeState,
    TimelineStepExecutionReport,
};
use buddy_choreography::step_protocol::{
    motion_timeout_step_failed_response, protocol_error_response_with_code,
    step_completed_response, step_interrupted_response, SidecarInterruptReasonCode,
    SidecarStepErrorCode, SidecarStepResponse,
};
use buddy_choreography::timeline::{MoveTarget, RestorePositionStep, WaitStep};

#[test]
fn ensure_sidecar_step_completed_preserves_unsupported_step_capability() {
    let error = ensure_sidecar_step_completed(SidecarStepResponse::ProtocolError(
        protocol_error_response_with_code(
            Some("step_019f4500-0000-7000-8000-000000000039"),
            SidecarStepErrorCode::UnsupportedStepCapability,
            "windowAnchor is unsupported",
        ),
    ))
    .expect_err("unsupported capability should remain typed");

    match error {
        BuddyError::UnsupportedCapability { scope, capability } => {
            assert_eq!(scope, "native pet executeStep");
            assert_eq!(capability, "windowAnchor");
        }
        error => panic!("expected unsupported capability error, got {}", error.message()),
    }
}

#[test]
fn sidecar_failures_keep_their_reason_through_fallback_mapping() {
    assert!(ensure_sidecar_step_completed(SidecarStepResponse::StepCompleted(
        step_completed_response("step_1", 10)
    ))
    .is_ok());

    let error = ensure_sidecar_step_completed(SidecarStepResponse::StepFailed(
        motion_timeout_step_failed_response("step_2", Some(15_000)),
    ))
    .expect_err("failed step");
    assert_eq!(
        error.message(),
        "buddy runtime failed: native pet step failed: motionTimeout: native pet motion did not settle before timeout"
    );
    assert_eq!(
        runtime_safe_fallback_reason_for_execution_error(&error),
        RuntimeSafeFallbackReason::MotionTimeout
    );

    let error = ensure_sidecar_step_completed(SidecarStepResponse::StepInterrupted(
        step_interrupted_response(
            "step_3",
            SidecarInterruptReasonCode::AdmissionPreemptedByHigherPriorityPlan,
            None,
        ),
    ))
    .expect_err("interrupted step");
    assert_eq!(
        runtime_safe_fallback_reason_for_execution_error(&error),
        RuntimeSafeFallbackReason::StepInterrupted
    );

    let error = ensure_sidecar_step_completed(SidecarStepResponse::ProtocolError(
        protocol_error_response_with_code(
            Some("step_4"),
            SidecarStepErrorCode::InvalidStepProtocol,
            "bad",
        ),
    ))
    .expect_err("protocol error");
    assert_eq!(
        error.message(),
        "buddy runtime failed: native pet step protocol error: invalidStepProtocol: bad"
    );
    assert_eq!(
        runtime_safe_fallback_reason_for_execution_error(&error),
        RuntimeSafeFallbackReason::ProtocolError
    );
    assert_eq!(
        runtime_safe_fallback_reason_for_execution_error(&BuddyError::Validation("x".to_owned())),
        RuntimeSafeFallbackReason::ExecutorError
    );
    assert_eq!(unsupported_step_capability_from_message("something else"), "unknown");
}

#[test]
fn window_anchor_unavailable_errors_are_recognized() {
    assert!(is_window_anchor_target_unavailable_error(&BuddyError::Runtime(
        "native pet step failed: targetUnavailable: active window rect is unavailable".to_owned()
    )));
    assert!(!is_window_anchor_target_unavailable_error(&BuddyError::Runtime(
        "native pet step failed: motionTimeout: active window rect is unavailable".to_owned()
    )));
}

#[test]
fn wait_steps_must_last_and_fit_their_timeout() {
    assert!(validate_wait_step(&WaitStep::new("w", 250, 1_000)).is_ok());
    assert_eq!(
        validate_wait_step(&WaitStep::new("w", 0, 1_000)).unwrap_err().message(),
        "buddy state validation failed: wait durationMs must be greater than 0"
    );
    assert_eq!(
        validate_wait_step(&WaitStep::new("w", 500, 100)).unwrap_err().message(),
        "buddy state validation failed: wait timeoutMs must be greater than or equal to durationMs"
    );
}

#[test]
fn after_animation_refs_must_match_after_actions() {
    assert_eq!(
        resolved_after_animation_ref("moveTo", Some("sleep"), Some("sleep_anim")).unwrap(),
        Some("sleep_anim".to_owned())
    );
    assert_eq!(
        resolved_after_animation_ref("moveTo", Some("sleep"), None).unwrap_err().message(),
        "buddy state validation failed: moveTo afterActionId requires registry resolution before native dispatch: sleep"
    );
    assert_eq!(
        resolved_after_animation_ref("moveByPath", None, Some("x")).unwrap_err().message(),
        "buddy state validation failed: moveByPath after animation requires afterActionId"
    );
    assert_eq!(resolved_after_animation_ref("moveTo", None, None).unwrap(), None);
}

#[test]
fn restore_position_reads_the_last_saved_position() {
    let mut state = TimelineRuntimeState::new();
    state.save_position_snapshot("snap", (1, 2));
    state.save_position_snapshot("other", (5, 6));
    state.save_position_snapshot("snap", (3, 4));
    let step = RestorePositionStep {
        step_id: "restore".to_owned(),
        kind: "restorePosition".to_owned(),
        snapshot_id: "snap".to_owned(),
        after_action_id: Some("sleep".to_owned()),
        fallback_after_action_id: None,
        timeout_ms: 9_000,
    };
    let move_to = state.restore_position_step(&step).expect("restore");
    assert_eq!(move_to.target, MoveTarget::Position { x: 3, y: 4 });
    assert_eq!(move_to.kind, "moveTo");
    assert_eq!(move_to.after_action_id.as_deref(), Some("sleep"));

    let missing = RestorePositionStep {
        snapshot_id: "nope".to_owned(),
        ..step
    };
    assert_eq!(
        state.restore_position_step(&missing).unwrap_err().message(),
        "buddy runtime failed: timeline position snapshot is missing: nope"
    );
}

#[test]
fn execution_reports_add_up_and_keep_first_yield() {
    let mut report = TimelineStepExecutionReport::completed(100);
    report.add(TimelineStepExecutionReport::failed());
    report.add(TimelineStepExecutionReport::skipped());
    let mut yielded = TimelineStepExecutionReport::completed(5);
    yielded.yielded_to_pending_plan_after_step_id = Some("a".to_owned());
    report.add(yielded);
    let mut later = TimelineStepExecutionReport::completed(1);
    later.yielded_to_pending_plan_after_step_id = Some("b".to_owned());
    report.add(later);
    assert_eq!(report.completed_step_count, 3);
    assert_eq!(report.failed_step_count, 1);
    assert_eq!(report.skipped_step_count, 1);
    assert_eq!(report.duration_ms, 106);
    assert_eq!(report.yielded_to_pending_plan_after_step_id.as_deref(), Some("a"));
}

#[test]
fn nested_step_event_indexes_are_spaced_by_branch() {
    assert_eq!(nested_timeline_step_event_index(0, 0, 0), 1_000_000);
    assert_eq!(nested_timeline_step_event_index(2, 1, 7), 3_100_007);
}
