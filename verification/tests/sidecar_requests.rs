use buddy_choreography::registry::{ActionDefinition, ActionRegistry, ResolveContext, StepResolutionFallback};
use buddy_choreography::sidecar_protocol::compile_execute_step_request;
use buddy_choreography::step_protocol::{
    interrupt_step_request, query_state_request, ExecuteStepPayload, ExecuteStepPlayback,
    SidecarInterruptPolicy, SidecarInterruptReasonCode, SidecarPlayActionCompletionBehavior,
};
use buddy_choreography::step_resolution::resolve_play_action_step;
use buddy_choreography::timeline::{
    MoveByPathStep, MoveEdge, MoveTarget, MoveToStep, PlayActionStep, RecoverStep, RepeatStep,
    ReplaceStep, RetryStep, SkipStep, TimelineSkipReason, TimelineStep, WaitStep,
};

fn definition(
    action_id: &str,
    animation_ref: &str,
    playback_kind: &str,
    duration_ms: u64,
    loop_animation: bool,
    interrupt_policy: SidecarInterruptPolicy,
) -> ActionDefinition {
    ActionDefinition {
        action_id: action_id.to_owned(),
        selector: None,
        animation_ref: animation_ref.to_owned(),
        playback_kind: playback_kind.to_owned(),
        duration_ms,
        clip_duration_ms: duration_ms,
        loop_animation,
        interrupt_policy,
    }
}

fn registry() -> ActionRegistry {
    ActionRegistry {
        actions: vec![
            definition("celebrate", "celebrate", "once", 1_720, false, SidecarInterruptPolicy::FinishStep),
            definition("sleep", "sleep", "idleLoop", 2_400, true, SidecarInterruptPolicy::Interruptible),
            definition("idle", "idle", "idleLoop", 2_000, true, SidecarInterruptPolicy::Interruptible),
        ],
    }
}

fn missing_action_step(step_id: &str, fallback: Option<&str>) -> PlayActionStep {
    PlayActionStep {
        step_id: step_id.to_owned(),
        kind: "playAction".to_owned(),
        action_id: "missing.action".to_owned(),
        fallback_action_id: fallback.map(|f| f.to_owned()),
        expected_playback: "once".to_owned(),
        duration_ms: None,
        pending_handoff_finalizer_step_id: None,
        completion_behavior: SidecarPlayActionCompletionBehavior::RestoreIdle,
        timeout_ms: 5_000,
    }
}

#[test]
fn play_action_step_uses_step_fallback_when_primary_action_is_unknown() {
    let step = missing_action_step("step_019f4a00-0000-7000-8000-000000000001", Some("celebrate"));

    let resolution = resolve_play_action_step(&registry(), &ResolveContext::default(), &step)
        .expect("resolve fallback action");

    assert_eq!(resolution.action_id, "celebrate");
    assert_eq!(resolution.animation_ref, "celebrate");
    assert_eq!(
        resolution.fallback,
        Some(StepResolutionFallback {
            requested_action_id: "missing.action".to_owned(),
            fallback_action_id: "celebrate".to_owned(),
            reason_code: "fallback.stepActionResolved".to_owned(),
            unsupported_capability: None,
        })
    );
    assert_eq!(step.fallback_action_id.as_deref(), Some("celebrate"));
}

#[test]
fn play_action_step_without_fallback_keeps_unknown_action_error() {
    let step = missing_action_step("step_019f4a00-0000-7000-8000-000000000002", None);

    let error = resolve_play_action_step(&registry(), &ResolveContext::default(), &step)
        .expect_err("missing action should still fail without fallback");

    assert_eq!(
        error.message(),
        "buddy state validation failed: unknown buddy actionId or selector: missing.action"
    );
    assert!(step.fallback_action_id.is_none());
}

#[test]
fn compile_execute_step_request_resolves_play_action_without_raw_action_id() {
    let mut step = PlayActionStep::once("step_019f4800-0000-7000-8000-000000000001", "celebrate", 5_000);
    step.completion_behavior = SidecarPlayActionCompletionBehavior::HoldLastFrame;
    let step = TimelineStep::PlayAction(step);

    let request = compile_execute_step_request(&registry(), &ResolveContext::default(), &step)
        .expect("compile executeStep request");

    assert_eq!(request.protocol_version, 1);
    assert_eq!(request.message_id, "message_019f4800-0000-7000-8000-000000000001");
    assert_eq!(request.step_id, "step_019f4800-0000-7000-8000-000000000001");
    assert_eq!(
        request.step,
        ExecuteStepPayload::PlayAction {
            animation: "celebrate".to_owned(),
            playback: ExecuteStepPlayback::Once { duration_ms: 1_720 },
            interrupt_policy: SidecarInterruptPolicy::FinishStep,
            completion_behavior: SidecarPlayActionCompletionBehavior::HoldLastFrame,
            timeout_ms: 5_000,
        }
    );
}

#[test]
fn compile_execute_step_request_resolves_loop_for_duration_play_action() {
    let step = TimelineStep::PlayAction(PlayActionStep::loop_for_duration(
        "step_019f4800-0000-7000-8000-000000000004",
        "celebrate",
        10_000,
        11_000,
    ));

    let request = compile_execute_step_request(&registry(), &ResolveContext::default(), &step)
        .expect("compile executeStep request");

    assert_eq!(request.message_id, "message_019f4800-0000-7000-8000-000000000004");
    assert_eq!(
        request.step,
        ExecuteStepPayload::PlayAction {
            animation: "celebrate".to_owned(),
            playback: ExecuteStepPlayback::LoopForDuration { duration_ms: 10_000, clip_duration_ms: 1_720 },
            interrupt_policy: SidecarInterruptPolicy::FinishStep,
            completion_behavior: SidecarPlayActionCompletionBehavior::RestoreIdle,
            timeout_ms: 11_000,
        }
    );
}

#[test]
fn compile_execute_step_request_resolves_move_after_action_to_animation() {
    let step = TimelineStep::MoveTo(MoveToStep::home_with_after_action(
        "step_019f4800-0000-7000-8000-000000000002",
        "sleep",
        15_000,
    ));

    let request = compile_execute_step_request(&registry(), &ResolveContext::default(), &step)
        .expect("compile executeStep request");

    assert_eq!(request.message_id, "message_019f4800-0000-7000-8000-000000000002");
    assert_eq!(
        request.step,
        ExecuteStepPayload::MoveTo {
            target: MoveTarget::Home,
            after: Some("sleep".to_owned()),
            interrupt_policy: SidecarInterruptPolicy::Interruptible,
            timeout_ms: 15_000,
        }
    );
}

#[test]
fn compile_execute_step_request_uses_move_after_action_fallback_when_primary_is_unknown() {
    let mut step = MoveToStep::home_with_after_action(
        "step_019f4800-0000-7000-8000-000000000012",
        "missing.after_action",
        15_000,
    );
    step.fallback_after_action_id = Some("sleep".to_owned());
    let step = TimelineStep::MoveTo(step);

    let request = compile_execute_step_request(&registry(), &ResolveContext::default(), &step)
        .expect("compile executeStep request with fallback after action");

    assert_eq!(
        request.step,
        ExecuteStepPayload::MoveTo {
            target: MoveTarget::Home,
            after: Some("sleep".to_owned()),
            interrupt_policy: SidecarInterruptPolicy::Interruptible,
            timeout_ms: 15_000,
        }
    );
}

#[test]
fn compile_execute_step_request_resolves_move_by_path_after_action_to_animation() {
    let mut step = MoveByPathStep::new(
        "step_019f4800-0000-7000-8000-000000000008",
        vec![MoveTarget::Edge { edge: MoveEdge::Left }, MoveTarget::Center],
        30_000,
    );
    step.after_action_id = Some("sleep".to_owned());
    let step = TimelineStep::MoveByPath(step);

    let request = compile_execute_step_request(&registry(), &ResolveContext::default(), &step)
        .expect("compile executeStep request");

    assert_eq!(request.message_id, "message_019f4800-0000-7000-8000-000000000008");
    assert_eq!(
        request.step,
        ExecuteStepPayload::MoveByPath {
            path: vec![MoveTarget::Edge { edge: MoveEdge::Left }, MoveTarget::Center],
            after: Some("sleep".to_owned()),
            interrupt_policy: SidecarInterruptPolicy::Interruptible,
            timeout_ms: 30_000,
        }
    );
}

#[test]
fn compile_execute_step_request_rejects_host_and_planner_side_steps() {
    let cases = [
        TimelineStep::Wait(WaitStep::new("step_019f4800-0000-7000-8000-000000000009", 250, 1_000)),
        TimelineStep::Skip(SkipStep {
            step_id: "step_019f4800-0000-7000-8000-000000000012".to_owned(),
            kind: "skipStep".to_owned(),
            reason: TimelineSkipReason::BranchNotRequired,
        }),
        TimelineStep::Retry(RetryStep {
            step_id: "step_019f4800-0000-7000-8000-000000000013".to_owned(),
            kind: "retry".to_owned(),
            max_attempts: 2,
            steps: vec![TimelineStep::PlayAction(PlayActionStep::once(
                "step_019f4800-0000-7000-8000-000000000014",
                "celebrate",
                5_000,
            ))],
        }),
        TimelineStep::Replace(ReplaceStep {
            step_id: "step_019f4800-0000-7000-8000-000000000015".to_owned(),
            kind: "replaceStep".to_owned(),
            steps: vec![],
            replacement_steps: vec![],
        }),
        TimelineStep::Recover(RecoverStep {
            step_id: "step_019f4800-0000-7000-8000-000000000018".to_owned(),
            kind: "recover".to_owned(),
            steps: vec![],
            recovery_steps: vec![],
        }),
        TimelineStep::Repeat(RepeatStep {
            step_id: "step_019f4800-0000-7000-8000-000000000010".to_owned(),
            kind: "repeat".to_owned(),
            times: 2,
            steps: vec![],
        }),
    ];

    for step in cases {
        let expected_kind = step.kind().to_owned();
        let error = compile_execute_step_request(&registry(), &ResolveContext::default(), &step)
            .expect_err("host and planner steps must not compile to sidecar executeStep");

        assert!(error.message().contains(&expected_kind));
    }
}

#[test]
fn move_after_action_must_be_a_stable_loop() {
    let step = TimelineStep::MoveTo(MoveToStep::home_with_after_action(
        "step_019f4800-0000-7000-8000-000000000020",
        "celebrate",
        15_000,
    ));

    let error = compile_execute_step_request(&registry(), &ResolveContext::default(), &step)
        .expect_err("a one-shot action is no after action");

    assert_eq!(
        error.message(),
        "buddy state validation failed: moveTo afterActionId must resolve to a stable loop action: celebrate"
    );
}

#[test]
fn interrupt_step_request_names_its_message_after_the_step() {
    let request = interrupt_step_request(
        "step_019f4800-0000-7000-8000-000000000005",
        SidecarInterruptReasonCode::AdmissionPreemptedByHigherPriorityPlan,
    );

    assert_eq!(request.protocol_version, 1);
    assert_eq!(request.message_id, "message_019f4800-0000-7000-8000-000000000005");
    assert_eq!(request.step_id, "step_019f4800-0000-7000-8000-000000000005");
    assert_eq!(request.reason_code.as_str(), "admission.preemptedByHigherPriorityPlan");
}

#[test]
fn query_state_request_names_its_message_after_the_request() {
    let request = query_state_request("state_019f5500-0000-7000-8000-000000000001");

    assert_eq!(request.protocol_version, 1);
    assert_eq!(request.message_id, "message_019f5500-0000-7000-8000-000000000001");
    assert_eq!(request.request_id, "state_019f5500-0000-7000-8000-000000000001");
}
