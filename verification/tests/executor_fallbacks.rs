use buddy_choreography::error::BuddyError;
use buddy_choreography::executor::{macro_semantic_fallback_intent, validate_pending_handoff_finalizer_interrupt_policies};
use buddy_choreography::json::JsonValue;
use buddy_choreography::macro_plan::{
    AwaitApprovalMacroParams, CastMacroParams, CelebrateMacroParams, CuriousMacroParams, DanceMacroParams,
    GetUpMacroParams, GetUpSide, MacroIntent, MacroSemanticFallback, ReassureMacroParams, SadMacroParams,
    ThinkingMacroParams, WorkingMacroParams,
};
use buddy_choreography::macro_run::macro_fallback_source_ref;
use buddy_choreography::registry::{ActionDefinition, ActionRegistry, ResolveContext};
use buddy_choreography::step_protocol::SidecarInterruptPolicy;
use buddy_choreography::timeline::{PlayActionStep, RecoverStep, TimelineFailurePolicy, TimelinePlan, TimelineStep};

fn definition(action_id: &str, interrupt_policy: SidecarInterruptPolicy) -> ActionDefinition {
    ActionDefinition {
        action_id: action_id.to_owned(),
        selector: None,
        animation_ref: action_id.to_owned(),
        playback_kind: "once".to_owned(),
        duration_ms: 1_000,
        clip_duration_ms: 1_000,
        loop_animation: false,
        interrupt_policy,
    }
}

fn registry() -> ActionRegistry {
    ActionRegistry {
        actions: vec![
            definition("explain", SidecarInterruptPolicy::Interruptible),
            definition("curious", SidecarInterruptPolicy::FinishStep),
            definition("reassure", SidecarInterruptPolicy::FinishStep),
            definition("idle", SidecarInterruptPolicy::Interruptible),
        ],
    }
}

fn dev_fixture_source() -> JsonValue {
    JsonValue::Object(vec![("kind".to_owned(), JsonValue::Str("devFixture".to_owned()))])
}

#[test]
fn maps_play_action_runtime_failures_to_semantic_fallback_intents() {
    let failed_step_id = "failed-action";
    let failed_plan = TimelinePlan {
        plan_id: "failed-plan".to_owned(),
        source_ref: JsonValue::Object(vec![("kind".to_owned(), JsonValue::Str("conversationMessage".to_owned()))]),
        failure_policy: TimelineFailurePolicy::Abort,
        steps: vec![TimelineStep::PlayAction(PlayActionStep::once(failed_step_id, "celebrate", 5_000))],
        created_at: "2026-07-16T00:00:00.000Z".to_owned(),
    };
    let error = BuddyError::Runtime("native pet step failed".to_owned());
    let cases = [
        (MacroIntent::AwaitApproval(AwaitApprovalMacroParams {}), "thinking"),
        (MacroIntent::Celebrate(CelebrateMacroParams {}), "reassure"),
        (MacroIntent::Cast(CastMacroParams {}), "celebrate"),
        (MacroIntent::Curious(CuriousMacroParams {}), "thinking"),
        (MacroIntent::Dance(DanceMacroParams { duration_ms: 2_500 }), "celebrate"),
        (MacroIntent::GetUp(GetUpMacroParams { side: GetUpSide::Left }), "reassure"),
        (MacroIntent::Reassure(ReassureMacroParams {}), "lieDown"),
        (MacroIntent::Sad(SadMacroParams {}), "reassure"),
        (MacroIntent::Thinking(ThinkingMacroParams {}), "curious"),
        (MacroIntent::Working(WorkingMacroParams {}), "thinking"),
    ];

    for (intent, expected_fallback_macro_id) in cases {
        let fallback = macro_semantic_fallback_intent(&intent, &failed_plan.steps, failed_step_id, &error)
            .expect("resolve semantic fallback");

        assert_eq!(fallback.intent.macro_id(), expected_fallback_macro_id);
        assert_eq!(fallback.semantic_fallback.fallback_macro_id(), expected_fallback_macro_id);
    }
}

#[test]
fn failures_that_are_not_play_action_runtime_errors_have_no_semantic_fallback() {
    let failed_plan_steps = vec![TimelineStep::PlayAction(PlayActionStep::once("failed-action", "celebrate", 5_000))];
    let validation = BuddyError::Validation("bad step".to_owned());

    assert!(macro_semantic_fallback_intent(
        &MacroIntent::AwaitApproval(AwaitApprovalMacroParams {}),
        &failed_plan_steps,
        "failed-action",
        &validation,
    )
    .is_none());
    assert!(macro_semantic_fallback_intent(
        &MacroIntent::AwaitApproval(AwaitApprovalMacroParams {}),
        &failed_plan_steps,
        "some-other-step",
        &BuddyError::Runtime("native pet step failed".to_owned()),
    )
    .is_none());
}

#[test]
fn macro_fallback_source_names_the_failure_and_both_macros() {
    let source = macro_fallback_source_ref(
        "plan_failed",
        "step_failed",
        MacroSemanticFallback::AwaitApprovalActionFailedToThinking,
        &MacroIntent::AwaitApproval(AwaitApprovalMacroParams {}),
    );
    let s = |v: &str| JsonValue::Str(v.to_owned());

    assert_eq!(
        source,
        JsonValue::Object(vec![
            ("kind".to_owned(), s("macroFallback")),
            ("triggeredByPlanId".to_owned(), s("plan_failed")),
            ("triggeredByStepId".to_owned(), s("step_failed")),
            (
                "triggerReason".to_owned(),
                s(MacroSemanticFallback::AwaitApprovalActionFailedToThinking.trigger_reason_code())
            ),
            ("originalMacroId".to_owned(), s("awaitApproval")),
            ("fallbackMacroId".to_owned(), s("thinking")),
        ])
    );
}

fn handoff_plan(plan_id: &str, source_action: &str, finalizer_action: &str) -> TimelinePlan {
    let mut source = PlayActionStep::once("source", source_action, 5_000);
    source.pending_handoff_finalizer_step_id = Some("finalizer".to_owned());
    TimelinePlan {
        plan_id: plan_id.to_owned(),
        source_ref: dev_fixture_source(),
        failure_policy: TimelineFailurePolicy::Abort,
        steps: vec![
            TimelineStep::PlayAction(source),
            TimelineStep::PlayAction(PlayActionStep::once("finalizer", finalizer_action, 5_000)),
        ],
        created_at: "2026-07-16T00:00:00.000Z".to_owned(),
    }
}

#[test]
fn pending_handoff_source_action_must_finish_before_interruption() {
    let plan = handoff_plan("plan_interruptible_handoff_source", "explain", "curious");

    let error = validate_pending_handoff_finalizer_interrupt_policies(&registry(), &ResolveContext::default(), &plan)
        .expect_err("interruptible source should fail");

    assert!(error.message().contains("pending handoff source action must finish before interruption: source"));
}

#[test]
fn nested_pending_handoff_source_action_must_finish_before_interruption() {
    let mut source = PlayActionStep::once("source", "explain", 5_000);
    source.pending_handoff_finalizer_step_id = Some("finalizer".to_owned());
    let plan = TimelinePlan {
        plan_id: "plan_nested_interruptible_handoff_source".to_owned(),
        source_ref: dev_fixture_source(),
        failure_policy: TimelineFailurePolicy::Abort,
        steps: vec![TimelineStep::Recover(RecoverStep {
            step_id: "recover".to_owned(),
            kind: "recover".to_owned(),
            steps: vec![
                TimelineStep::PlayAction(source),
                TimelineStep::PlayAction(PlayActionStep::once("finalizer", "curious", 5_000)),
            ],
            recovery_steps: vec![TimelineStep::PlayAction(PlayActionStep::once("recover-idle", "idle", 5_000))],
        })],
        created_at: "2026-07-16T00:00:00.000Z".to_owned(),
    };

    let error = validate_pending_handoff_finalizer_interrupt_policies(&registry(), &ResolveContext::default(), &plan)
        .expect_err("nested interruptible source should fail");

    assert!(error.message().contains("pending handoff source action must finish before interruption: source"));
}

#[test]
fn pending_handoff_finalizer_action_must_finish_before_interruption() {
    let plan = handoff_plan("plan_interruptible_handoff_finalizer", "reassure", "idle");

    let error = validate_pending_handoff_finalizer_interrupt_policies(&registry(), &ResolveContext::default(), &plan)
        .expect_err("interruptible finalizer should fail");

    assert!(error.message().contains("pending handoff finalizer action must finish before interruption: finalizer"));
}

#[test]
fn pending_handoff_between_steps_that_must_finish_is_accepted() {
    let plan = handoff_plan("plan_finishing_handoff", "reassure", "curious");

    assert!(validate_pending_handoff_finalizer_interrupt_policies(&registry(), &ResolveContext::default(), &plan).is_ok());
}
