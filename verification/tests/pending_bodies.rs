use buddy_choreography::admission::ChoreographyTriggerSource;
use buddy_choreography::admitted_run::{TimelineAdmissionExecutionRequest, TimelinePendingExecutionBody};
use buddy_choreography::execution_context::{
    DevFixtureAdmissionExecutionRequest, DevFixtureExecutionContext, DevFixtureKind, DevFixturePendingExecutionBody,
    TimelineExecutionContext,
};
use buddy_choreography::json::JsonValue;
use buddy_choreography::registry::ResolveContext;
use buddy_choreography::timeline::{
    MoveByPathStep, MoveEdge, MoveTarget, TimelineFailurePolicy, TimelinePlan, TimelineStep, WaitStep,
    WindowAnchorEdge, WindowAnchorReveal, WindowAnchorSelector, WindowAnchorSelectorKind,
};

fn pending_plan() -> TimelinePlan {
    let mut move_step = MoveByPathStep::new(
        "step_pending_body_path",
        vec![
            MoveTarget::Edge { edge: MoveEdge::Left },
            MoveTarget::WindowAnchor {
                selector: WindowAnchorSelector { kind: WindowAnchorSelectorKind::ActiveWindow },
                edge: WindowAnchorEdge::Auto,
                reveal: WindowAnchorReveal::Head,
                duration_ms: 1_500,
            },
        ],
        30_000,
    );
    move_step.after_action_id = Some("sleep".to_owned());
    move_step.fallback_after_action_id = Some("idle".to_owned());
    TimelinePlan {
        plan_id: "plan_pending_body".to_owned(),
        source_ref: JsonValue::Object(vec![
            ("kind".to_owned(), JsonValue::Str("conversationMessage".to_owned())),
            ("conversationId".to_owned(), JsonValue::Str("conversation_pending_body".to_owned())),
            ("messageId".to_owned(), JsonValue::Str("message_pending_body".to_owned())),
        ]),
        failure_policy: TimelineFailurePolicy::Abort,
        steps: vec![
            TimelineStep::MoveByPath(move_step),
            TimelineStep::Wait(WaitStep::new("step_pending_body_wait", 500, 1_000)),
        ],
        created_at: "2026-07-12T00:00:00.000Z".to_owned(),
    }
}

#[test]
fn pending_timeline_execution_body_round_trips_without_runtime_handles() {
    let context = TimelineExecutionContext::fixed_for_test();
    let resolve_context = ResolveContext::default();
    let request = TimelineAdmissionExecutionRequest::new(
        pending_plan(),
        context.clone(),
        resolve_context,
        ChoreographyTriggerSource::AiChoreography,
    );

    let body = request.pending_body();
    assert_eq!(body.schema_version, 1);
    assert_eq!(body.trigger_source, ChoreographyTriggerSource::AiChoreography);
    assert_eq!(body.context.admission_event_id, "evt_timeline_019f4000-0000-7000-8000-000000000000");

    let restored = TimelineAdmissionExecutionRequest::from_pending_body(body).expect("restore pending request");

    assert_eq!(restored.plan, pending_plan());
    assert_eq!(restored.context, context);
    assert_eq!(restored.resolve_context, resolve_context);
    assert_eq!(restored.trigger_source, ChoreographyTriggerSource::AiChoreography);
}

#[test]
fn pending_timeline_body_of_another_schema_version_is_refused() {
    let body = TimelinePendingExecutionBody {
        schema_version: 2,
        plan: pending_plan(),
        context: TimelineExecutionContext::fixed_for_test(),
        resolve_context: ResolveContext::default(),
        trigger_source: ChoreographyTriggerSource::AiChoreography,
    };

    let error = TimelineAdmissionExecutionRequest::from_pending_body(body).expect_err("unsupported schema");

    assert_eq!(
        error.message(),
        "buddy state validation failed: unsupported pending timeline execution body schemaVersion=2"
    );
}

#[test]
fn pending_dev_fixture_body_round_trips() {
    let request = DevFixtureAdmissionExecutionRequest::new(
        DevFixtureExecutionContext::fixed_for_test(),
        ResolveContext::default(),
        DevFixtureKind::SinglePlayAction,
        ChoreographyTriggerSource::UserRequested,
    );

    let restored =
        DevFixtureAdmissionExecutionRequest::from_pending_body(request.pending_body()).expect("restore fixture run");

    assert_eq!(restored, request);
}

#[test]
fn pending_dev_fixture_body_of_another_schema_version_is_refused() {
    let body = DevFixturePendingExecutionBody {
        schema_version: 7,
        context: DevFixtureExecutionContext::fixed_for_test(),
        resolve_context: ResolveContext::default(),
        fixture_kind: DevFixtureKind::AiMacroDemo,
        trigger_source: ChoreographyTriggerSource::UserRequested,
    };

    let error = DevFixtureAdmissionExecutionRequest::from_pending_body(body).expect_err("unsupported schema");

    assert_eq!(
        error.message(),
        "buddy state validation failed: unsupported pending dev fixture execution body schemaVersion=7"
    );
}
