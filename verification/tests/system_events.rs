use buddy_choreography::action_log::ActionLogEvent;
use buddy_choreography::admission::ChoreographyTriggerSource;
use buddy_choreography::json::JsonValue;
use buddy_choreography::timeline::{MoveEdge, WindowAnchorEdge};
use buddy_choreography::system_events::{
    action_log_index_sync_failed, affective_context_invalid_state_file, choreography_scheduler_pending_body_deleted,
    choreography_scheduler_pending_body_missing, choreography_scheduler_pending_body_stored,
    choreography_scheduler_stale_pending_bodies_cleared, health_gate_failed, health_gate_passed,
    plan_interrupted_after_runtime_restart, step_interrupted_after_runtime_restart,
    ActionLogRuntimeRestartStepInterruption,
};

fn s(v: &str) -> JsonValue {
    JsonValue::Str(v.to_owned())
}

fn n(v: i128) -> JsonValue {
    JsonValue::Number(Some(v))
}

fn obj(members: Vec<(&str, JsonValue)>) -> JsonValue {
    JsonValue::Object(members.into_iter().map(|(k, v)| (k.to_owned(), v)).collect())
}

fn detail(message: &str, source: &str) -> JsonValue {
    obj(vec![("message", s(message)), ("source", s(source))])
}

#[test]
fn health_gate_events_name_the_recovery_that_asked() {
    let passed = health_gate_passed("evt_1", ChoreographyTriggerSource::AiChoreography, "2026-07-16T00:00:00.000Z");
    assert_eq!(passed.event_type, "healthGate.passed");
    assert_eq!(passed.status, "passed");
    assert_eq!(passed.reason_code, "sidecar.available");
    assert_eq!(passed.trigger_source, "healthGate");
    assert_eq!(passed.source_ref, obj(vec![("kind", s("healthGate"))]));
    assert_eq!(
        passed.payload,
        obj(vec![
            ("recoveryTriggerSource", s("aiChoreography")),
            ("check", s("sidecar.queryState")),
            (
                "detail",
                detail(
                    "choreography runtime readiness recovered after aiChoreography health gate",
                    "choreographyRuntimeReadiness",
                ),
            ),
        ])
    );

    let failed = health_gate_failed("evt_2", ChoreographyTriggerSource::UserRequested, "no answer", "2026-07-16T00:00:01.000Z");
    assert_eq!(failed.event_type, "healthGate.failed");
    assert_eq!(failed.reason_code, "sidecar.unavailable");
    assert_eq!(
        failed.payload,
        obj(vec![
            ("recoveryTriggerSource", s("userRequested")),
            ("check", s("sidecar.queryState")),
            ("error", s("no answer")),
            (
                "detail",
                detail(
                    "choreography runtime readiness health gate failed for userRequested",
                    "choreographyRuntimeReadiness",
                ),
            ),
        ])
    );
}

#[test]
fn scheduler_events_describe_the_pending_bodies() {
    let body = obj(vec![("schemaVersion", n(1))]);
    let stored = choreography_scheduler_pending_body_stored("evt_3", "plan_a", "timeline", 1, &body, "t");
    assert_eq!(stored.event_type, "choreographyScheduler.pendingBodyStored");
    assert_eq!(stored.status, "completed");
    assert_eq!(
        stored.payload,
        obj(vec![
            ("planId", s("plan_a")),
            ("bodyKind", s("timeline")),
            ("schemaVersion", n(1)),
            ("body", obj(vec![("schemaVersion", n(1))])),
            ("detail", detail("stored pending choreography execution body for plan plan_a", "choreographyScheduler")),
        ])
    );

    let deleted = choreography_scheduler_pending_body_deleted("evt_4", "plan_a", "timeline", 1, "t");
    assert_eq!(deleted.reason_code, "choreographyScheduler.pendingBodyDeleted");

    let cleared = choreography_scheduler_stale_pending_bodies_cleared("evt_5", 3, 12, "t");
    assert_eq!(cleared.reason_code, "runtime.restarted");
    assert_eq!(
        cleared.payload,
        obj(vec![
            ("clearedBodyCount", n(3)),
            ("recoverablePendingAdmissionCount", n(12)),
            (
                "detail",
                detail(
                    "cleared 3 stale choreography pending execution body cache row(s) after runtime restart; 12 recoverable pending admission(s) were discarded instead of replayed",
                    "choreographyScheduler",
                ),
            ),
        ])
    );

    let missing = choreography_scheduler_pending_body_missing("evt_6", "plan_active", "plan_waiting", "release", "t");
    assert_eq!(missing.status, "degraded");
    assert_eq!(
        missing.payload,
        obj(vec![
            ("activePlanId", s("plan_active")),
            ("pendingPlanId", s("plan_waiting")),
            ("phase", s("release")),
            ("detail", detail("pending choreography plan plan_waiting has no queued execution body", "choreographyScheduler")),
        ])
    );
}

#[test]
fn degraded_runtime_facilities_are_recorded() {
    let index = action_log_index_sync_failed("evt_7", "disk full", "t");
    assert_eq!(index.event_type, "actionLogIndex.syncFailed");
    assert_eq!(index.payload, obj(vec![("detail", detail("disk full", "sync_choreography_action_log_index"))]));

    let invalid = affective_context_invalid_state_file("evt_8", "pet-affective-state.json", "t");
    assert_eq!(
        invalid.source_ref,
        obj(vec![("kind", s("affectiveContext")), ("stateFileName", s("pet-affective-state.json"))])
    );
    assert_eq!(
        invalid.payload,
        obj(vec![
            ("stateFileName", s("pet-affective-state.json")),
            ("fallbackContext", obj(vec![("mood", s("neutral")), ("energy", s("medium"))])),
        ])
    );
}

#[test]
fn restart_interruptions_keep_what_ran_before() {
    let source = obj(vec![("kind", s("conversationMessage"))]);
    let plan = plan_interrupted_after_runtime_restart("evt_9", "plan_a", source.duplicate(), "running", "plan.started", "timeline.started", "t");
    assert_eq!(plan.event_type, "plan.interrupted");
    assert_eq!(plan.trigger_source, "startupSystem");
    assert_eq!(plan.step_id, None);
    assert_eq!(
        plan.payload,
        obj(vec![
            ("status", s("interrupted")),
            ("resultKind", s("interrupted")),
            ("previousStatus", s("running")),
            ("previousEventType", s("plan.started")),
            ("previousReasonCode", s("timeline.started")),
        ])
    );

    let step = step_interrupted_after_runtime_restart(ActionLogRuntimeRestartStepInterruption {
        event_id: "evt_10".to_owned(),
        plan_id: "plan_a",
        step_id: "step_a",
        source_ref: &source,
        previous_status: "resolved",
        previous_event_type: "step.resolved",
        previous_reason_code: "timeline.resolved",
        created_at: "t",
    });
    assert_eq!(step.event_type, "step.interrupted");
    assert_eq!(step.step_id.as_deref(), Some("step_a"));
    assert_eq!(step.source_ref, source);
}

fn event_with_payload(payload: JsonValue) -> ActionLogEvent {
    ActionLogEvent {
        event_id: "evt".to_owned(),
        schema_version: 1,
        event_type: "step.resolved".to_owned(),
        status: "resolved".to_owned(),
        reason_code: "timeline.resolved".to_owned(),
        plan_id: "plan".to_owned(),
        step_id: Some("step".to_owned()),
        source_ref: JsonValue::Null,
        trigger_source: "aiChoreography".to_owned(),
        payload,
        created_at: "t".to_owned(),
    }
}

#[test]
fn resolved_action_is_read_from_the_resolution_first() {
    let nested = event_with_payload(obj(vec![
        ("actionId", s("outer")),
        ("resolution", obj(vec![("actionId", s("inner")), ("animationRef", s("inner_anim"))])),
    ]));
    assert_eq!(nested.resolved_action_id(), Some("inner"));
    assert_eq!(nested.resolved_animation_ref(), Some("inner_anim"));

    let flat = event_with_payload(obj(vec![("actionId", s("celebrate")), ("animationRef", s("celebrate_anim"))]));
    assert_eq!(flat.resolved_action_id(), Some("celebrate"));
    assert_eq!(flat.resolved_animation_ref(), Some("celebrate_anim"));

    let after_move = event_with_payload(obj(vec![
        ("afterResolvedActionId", s("sleep")),
        ("afterAnimationRef", s("sleep_anim")),
    ]));
    assert_eq!(after_move.resolved_action_id(), Some("sleep"));
    assert_eq!(after_move.resolved_animation_ref(), Some("sleep_anim"));

    let not_text = event_with_payload(obj(vec![("actionId", n(3)), ("afterResolvedActionId", s("sleep"))]));
    assert_eq!(not_text.resolved_action_id(), None);
    assert_eq!(event_with_payload(JsonValue::Null).resolved_action_id(), None);
}

#[test]
fn window_edges_name_the_same_side_as_screen_edges() {
    assert_eq!(WindowAnchorEdge::from(MoveEdge::Left), WindowAnchorEdge::Left);
    assert_eq!(WindowAnchorEdge::from(MoveEdge::Top), WindowAnchorEdge::Top);
    assert_eq!(WindowAnchorEdge::from(MoveEdge::Right), WindowAnchorEdge::Right);
    assert_eq!(WindowAnchorEdge::from(MoveEdge::Bottom), WindowAnchorEdge::Bottom);
}
