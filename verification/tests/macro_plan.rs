use buddy_choreography::beat_plan::{
    compile_beat_plan_to_timeline_steps, BeatAction, BeatFailureBranch, BeatGroup, BeatKind,
    BeatPath, BeatPlan, BeatPlanBeat, BeatPlanBeatBody, BeatTarget, BeatWait,
};
use buddy_choreography::json::JsonValue;
use buddy_choreography::macro_plan::{
    compile_macro_intent_to_beat_plan, is_public_macro_intent_id, macro_fallback_policy,
    AwaitApprovalMacroParams, BeatPlanBuildContext, CastMacroParams, CelebrateMacroParams,
    CuriousMacroParams, DanceMacroParams, GetUpMacroParams, GetUpSide, LieDownMacroParams,
    MacroIntent, MacroSemanticFallback, MacroTimelineFailureFallback,
    PatrolAroundScreenMacroParams, PeekBehindWindowMacroParams, PeekFromEdgeMacroParams,
    ReassureMacroParams, SadMacroParams, ThinkingMacroParams, WorkingMacroParams,
};
use buddy_choreography::registry::{ActionDefinition, ActionRegistry, ResolveContext};
use buddy_choreography::step_protocol::SidecarInterruptPolicy;
use buddy_choreography::timeline::{
    MoveByPathStep, MoveEdge, MoveTarget, MoveToStep, PlayActionStep, RecoverStep, TimelineStep,
    TryStep, WaitStep, WindowAnchorEdge, WindowAnchorReveal, WindowAnchorSelector,
    WindowAnchorSelectorKind,
};

const STEP: &str = "step_019f5100-0000-7000-8000-000000000003";

fn source_ref(fixture_name: &str) -> JsonValue {
    JsonValue::Object(vec![
        ("kind".to_owned(), JsonValue::Str("devFixture".to_owned())),
        ("fixtureName".to_owned(), JsonValue::Str(fixture_name.to_owned())),
    ])
}

fn fixed_context() -> BeatPlanBuildContext<'static> {
    BeatPlanBuildContext {
        plan_id: "plan_019f5100-0000-7000-8000-000000000001",
        beat_id: "beat_019f5100-0000-7000-8000-000000000002",
        step_id: STEP,
        source_ref: source_ref("ai-macro-demo"),
        created_at: "2026-07-09T12:00:00.000Z",
    }
}

fn play(step_id: &str, action_id: &str, fallback: Option<&str>) -> TimelineStep {
    let mut step = PlayActionStep::once(step_id, action_id, 5_000);
    step.fallback_action_id = fallback.map(|f| f.to_owned());
    TimelineStep::PlayAction(step)
}

fn wait(step_id: &str, duration_ms: u64, timeout_ms: u64) -> TimelineStep {
    TimelineStep::Wait(WaitStep::new(step_id, duration_ms, timeout_ms))
}

fn beat(beat_id: &str, kind: BeatKind, fallback: Option<&str>, body: BeatPlanBeatBody) -> BeatPlanBeat {
    BeatPlanBeat {
        beat_id: beat_id.to_owned(),
        kind,
        fallback_action_id: fallback.map(|f| f.to_owned()),
        body,
    }
}

fn action_body(step_id: &str, action_id: &str) -> BeatPlanBeatBody {
    BeatPlanBeatBody::Action { action: BeatAction::once(step_id, action_id, 5_000) }
}

fn wait_body(step_id: &str, duration_ms: u64) -> BeatPlanBeatBody {
    BeatPlanBeatBody::Wait { wait: BeatWait::new(step_id, duration_ms, 1_000) }
}

fn plan(plan_id: &str, fixture: &str, macro_id: &str, fallback: Option<&str>, beats: Vec<BeatPlanBeat>) -> BeatPlan {
    BeatPlan {
        plan_id: plan_id.to_owned(),
        source_ref: source_ref(fixture),
        macro_id: macro_id.to_owned(),
        fallback_action_id: fallback.map(|f| f.to_owned()),
        recovery: None,
        beats,
        created_at: "2026-07-09T12:00:00.000Z".to_owned(),
    }
}

fn validation_message(plan: &BeatPlan) -> String {
    match compile_beat_plan_to_timeline_steps(plan) {
        Ok(_) => panic!("beat plan should be rejected"),
        Err(error) => error.message(),
    }
}

fn home_sleep_recovery_steps(step_id: &str) -> Vec<TimelineStep> {
    let recovery = format!("{step_id}.recovery");
    vec![TimelineStep::Recover(RecoverStep {
        step_id: recovery.clone(),
        kind: "recover".to_owned(),
        steps: vec![TimelineStep::MoveTo(MoveToStep::home_with_after_action_fallback(
            &format!("{recovery}.primary"),
            "sleep",
            "idle",
            15_000,
        ))],
        recovery_steps: vec![play(&format!("{recovery}.fallback"), "sleep", None)],
    })]
}

fn active_window() -> WindowAnchorSelector {
    WindowAnchorSelector { kind: WindowAnchorSelectorKind::ActiveWindow }
}

fn peek_behind_window(edge: WindowAnchorEdge) -> MacroIntent {
    MacroIntent::PeekBehindWindow(PeekBehindWindowMacroParams {
        window_selector: active_window(),
        edge,
        reveal: WindowAnchorReveal::Head,
        duration_ms: 1_500,
    })
}

fn compiled_steps(intent: MacroIntent) -> (BeatPlan, Vec<TimelineStep>) {
    let beat_plan = compile_macro_intent_to_beat_plan(&intent, fixed_context()).expect("macro compiles");
    let steps = compile_beat_plan_to_timeline_steps(&beat_plan).expect("beat plan compiles");
    (beat_plan, steps)
}

#[test]
fn public_macro_intent_id_gate_uses_exact_registered_ids() {
    assert!(is_public_macro_intent_id("dance"));
    assert!(!is_public_macro_intent_id("Dance"));
    assert!(!is_public_macro_intent_id("dance "));
    assert!(!is_public_macro_intent_id("beatPlan"));
}

#[test]
fn macro_fallback_policy_covers_every_macro_intent() {
    let cases = [
        (
            MacroIntent::Celebrate(CelebrateMacroParams {}),
            "celebrate",
            Some("idle"),
            MacroTimelineFailureFallback::Semantic(MacroSemanticFallback::CelebrateActionFailedToReassure),
        ),
        (
            MacroIntent::Dance(DanceMacroParams { duration_ms: 1000 }),
            "dance",
            Some("idle"),
            MacroTimelineFailureFallback::Semantic(MacroSemanticFallback::DanceActionFailedToCelebrate),
        ),
        (
            MacroIntent::LieDown(LieDownMacroParams {}),
            "lieDown",
            None,
            MacroTimelineFailureFallback::SystemRecovery,
        ),
        (
            MacroIntent::PatrolAroundScreen(PatrolAroundScreenMacroParams { loops: 1 }),
            "patrolAroundScreen",
            None,
            MacroTimelineFailureFallback::SystemRecovery,
        ),
        (
            MacroIntent::Reassure(ReassureMacroParams {}),
            "reassure",
            Some("idle"),
            MacroTimelineFailureFallback::Semantic(MacroSemanticFallback::ReassureActionFailedToLieDown),
        ),
        (
            MacroIntent::Sad(SadMacroParams {}),
            "sad",
            Some("idle"),
            MacroTimelineFailureFallback::Semantic(MacroSemanticFallback::SadActionFailedToReassure),
        ),
        (
            MacroIntent::Thinking(ThinkingMacroParams {}),
            "thinking",
            Some("idle"),
            MacroTimelineFailureFallback::Semantic(MacroSemanticFallback::ThinkingActionFailedToCurious),
        ),
        (
            MacroIntent::Working(WorkingMacroParams {}),
            "working",
            Some("idle"),
            MacroTimelineFailureFallback::Semantic(MacroSemanticFallback::WorkingActionFailedToThinking),
        ),
        (
            MacroIntent::Curious(CuriousMacroParams {}),
            "curious",
            Some("idle"),
            MacroTimelineFailureFallback::Semantic(MacroSemanticFallback::CuriousActionFailedToThinking),
        ),
        (
            MacroIntent::AwaitApproval(AwaitApprovalMacroParams {}),
            "awaitApproval",
            Some("thinking"),
            MacroTimelineFailureFallback::Semantic(MacroSemanticFallback::AwaitApprovalActionFailedToThinking),
        ),
        (
            MacroIntent::GetUp(GetUpMacroParams { side: GetUpSide::Left }),
            "getUp",
            Some("idle"),
            MacroTimelineFailureFallback::Semantic(MacroSemanticFallback::GetUpActionFailedToReassure),
        ),
        (
            MacroIntent::PeekFromEdge(PeekFromEdgeMacroParams { edge: MoveEdge::Left }),
            "peekFromEdge",
            None,
            MacroTimelineFailureFallback::SystemRecovery,
        ),
        (
            peek_behind_window(WindowAnchorEdge::Left),
            "peekBehindWindow",
            None,
            MacroTimelineFailureFallback::Semantic(
                MacroSemanticFallback::WindowAnchorTargetUnavailableToPeekFromEdge,
            ),
        ),
        (
            MacroIntent::Cast(CastMacroParams {}),
            "cast",
            Some("celebrate"),
            MacroTimelineFailureFallback::Semantic(MacroSemanticFallback::CastActionFailedToCelebrate),
        ),
    ];

    for (intent, macro_id, action_fallback_id, timeline_failure_fallback) in cases {
        let policy = macro_fallback_policy(&intent);

        assert_eq!(policy.macro_id, macro_id);
        assert_eq!(policy.action_fallback_id, action_fallback_id);
        assert_eq!(policy.timeline_failure_fallback, timeline_failure_fallback);
    }
}

#[test]
fn macro_semantic_fallbacks_have_stable_trigger_reason_codes() {
    let cases = [
        (
            MacroSemanticFallback::WindowAnchorTargetUnavailableToPeekFromEdge,
            "semanticFallback.windowAnchorTargetUnavailable",
            "peekFromEdge",
        ),
        (
            MacroSemanticFallback::AwaitApprovalActionFailedToThinking,
            "semanticFallback.awaitApprovalActionFailed",
            "thinking",
        ),
        (
            MacroSemanticFallback::CelebrateActionFailedToReassure,
            "semanticFallback.celebrateActionFailed",
            "reassure",
        ),
        (
            MacroSemanticFallback::CastActionFailedToCelebrate,
            "semanticFallback.castActionFailed",
            "celebrate",
        ),
        (
            MacroSemanticFallback::CuriousActionFailedToThinking,
            "semanticFallback.curiousActionFailed",
            "thinking",
        ),
        (
            MacroSemanticFallback::DanceActionFailedToCelebrate,
            "semanticFallback.danceActionFailed",
            "celebrate",
        ),
        (
            MacroSemanticFallback::GetUpActionFailedToReassure,
            "semanticFallback.getUpActionFailed",
            "reassure",
        ),
        (
            MacroSemanticFallback::ReassureActionFailedToLieDown,
            "semanticFallback.reassureActionFailed",
            "lieDown",
        ),
        (
            MacroSemanticFallback::SadActionFailedToReassure,
            "semanticFallback.sadActionFailed",
            "reassure",
        ),
        (
            MacroSemanticFallback::ThinkingActionFailedToCurious,
            "semanticFallback.thinkingActionFailed",
            "curious",
        ),
        (
            MacroSemanticFallback::WorkingActionFailedToThinking,
            "semanticFallback.workingActionFailed",
            "thinking",
        ),
    ];

    for (semantic_fallback, trigger_reason_code, fallback_macro_id) in cases {
        assert_eq!(semantic_fallback.trigger_reason_code(), trigger_reason_code);
        assert_eq!(semantic_fallback.fallback_macro_id(), fallback_macro_id);
    }
}

#[test]
fn macro_intent_get_up_compiles_to_directional_recovery_action() {
    let (_, steps) = compiled_steps(MacroIntent::GetUp(GetUpMacroParams { side: GetUpSide::Right }));

    assert_eq!(steps, vec![play(STEP, "throw_after_drag.get_up.right", Some("idle"))]);
}

fn registry_action(action_id: &str, animation_ref: &str) -> ActionDefinition {
    ActionDefinition {
        action_id: action_id.to_owned(),
        selector: None,
        animation_ref: animation_ref.to_owned(),
        playback_kind: "once".to_owned(),
        duration_ms: 1_000,
        clip_duration_ms: 1_000,
        loop_animation: false,
        interrupt_policy: SidecarInterruptPolicy::FinishStep,
    }
}

#[test]
fn play_action_macros_compile_with_stable_fallback_actions() {
    let registry = ActionRegistry {
        actions: vec![
            registry_action("celebrate", "celebrate"),
            registry_action("reassure", "reassure"),
            registry_action("sad", "sad"),
            registry_action("thinking", "thinking"),
            registry_action("working", "working"),
            registry_action("curious", "curious"),
            registry_action("approval", "approval"),
            registry_action("throw_after_drag.get_up.left", "fallen_get_up_left"),
            registry_action("cast", "cast"),
        ],
    };
    let macro_expectations = [
        (MacroIntent::Celebrate(CelebrateMacroParams {}), "celebrate", "idle", "celebrate"),
        (MacroIntent::Dance(DanceMacroParams { duration_ms: 1000 }), "celebrate", "idle", "celebrate"),
        (MacroIntent::Reassure(ReassureMacroParams {}), "reassure", "idle", "reassure"),
        (MacroIntent::Sad(SadMacroParams {}), "sad", "idle", "sad"),
        (MacroIntent::Thinking(ThinkingMacroParams {}), "thinking", "idle", "thinking"),
        (MacroIntent::Working(WorkingMacroParams {}), "working", "idle", "working"),
        (MacroIntent::Curious(CuriousMacroParams {}), "curious", "idle", "curious"),
        (MacroIntent::AwaitApproval(AwaitApprovalMacroParams {}), "approval", "thinking", "approval"),
        (
            MacroIntent::GetUp(GetUpMacroParams { side: GetUpSide::Left }),
            "throw_after_drag.get_up.left",
            "idle",
            "fallen_get_up_left",
        ),
        (MacroIntent::Cast(CastMacroParams {}), "cast", "celebrate", "cast"),
    ];

    for (intent, action_id, fallback_action_id, animation_ref) in macro_expectations {
        let (beat_plan, steps) = compiled_steps(intent);
        let [TimelineStep::PlayAction(step)] = steps.as_slice() else {
            panic!("expected single playAction step for macro {}", beat_plan.macro_id);
        };

        assert_eq!(step.action_id, action_id);
        assert_eq!(
            step.fallback_action_id.as_deref(),
            Some(fallback_action_id),
            "unexpected fallback for macro {}",
            beat_plan.macro_id
        );
        let resolution = registry
            .resolve_play_action(action_id, &ResolveContext::default())
            .expect("action resolves");
        assert_eq!(resolution.animation_ref, animation_ref, "unexpected animation for macro {}", beat_plan.macro_id);
    }
}

#[test]
fn macro_intent_patrol_around_screen_compiles_with_plan_internal_recovery() {
    let (_, steps) = compiled_steps(MacroIntent::PatrolAroundScreen(PatrolAroundScreenMacroParams { loops: 1 }));
    let primary = format!("{STEP}.primary");

    assert_eq!(
        steps,
        vec![TimelineStep::Recover(RecoverStep {
            step_id: STEP.to_owned(),
            kind: "recover".to_owned(),
            steps: vec![
                TimelineStep::MoveTo(MoveToStep::edge(&primary, MoveEdge::Left, 15_000)),
                TimelineStep::MoveTo(MoveToStep::edge(&format!("{primary}.2"), MoveEdge::Top, 15_000)),
                TimelineStep::MoveTo(MoveToStep::edge(&format!("{primary}.3"), MoveEdge::Right, 15_000)),
                TimelineStep::MoveTo(MoveToStep::edge(&format!("{primary}.4"), MoveEdge::Bottom, 15_000)),
            ],
            recovery_steps: home_sleep_recovery_steps(STEP),
        })]
    );
}

fn peek_from_edge_move(edge: MoveEdge) -> TimelineStep {
    let mut step = MoveToStep::new(
        &format!("{STEP}.primary"),
        MoveTarget::EdgeAnchor { edge, reveal: WindowAnchorReveal::Head, duration_ms: 1_500 },
        16_500,
    );
    step.after_action_id = Some("peek_from_edge".to_owned());
    step.fallback_after_action_id = Some("idle".to_owned());
    TimelineStep::MoveTo(step)
}

#[test]
fn macro_intent_peek_from_edge_compiles_with_plan_internal_recovery() {
    let (beat_plan, steps) = compiled_steps(MacroIntent::PeekFromEdge(PeekFromEdgeMacroParams { edge: MoveEdge::Left }));

    assert_eq!(
        steps,
        vec![TimelineStep::Recover(RecoverStep {
            step_id: STEP.to_owned(),
            kind: "recover".to_owned(),
            steps: vec![peek_from_edge_move(MoveEdge::Left)],
            recovery_steps: home_sleep_recovery_steps(STEP),
        })]
    );
    assert_eq!(beat_plan.beats[0].kind, BeatKind::Approach);
}

#[test]
fn vertical_edge_peek_uses_the_generic_proxy() {
    let (_, steps) = compiled_steps(MacroIntent::PeekFromEdge(PeekFromEdgeMacroParams { edge: MoveEdge::Top }));
    let [TimelineStep::Recover(recover)] = steps.as_slice() else {
        panic!("expected a single recover step");
    };

    assert_eq!(recover.steps.len(), 1);
    let TimelineStep::MoveTo(primary) = &recover.steps[0] else {
        panic!("expected a moveTo primary step");
    };
    assert_eq!(
        primary.target,
        MoveTarget::EdgeAnchor { edge: MoveEdge::Top, reveal: WindowAnchorReveal::Head, duration_ms: 1_500 }
    );
    assert_eq!(primary.after_action_id.as_deref(), Some("peek_from_edge"));
}

fn window_anchor_move(edge: WindowAnchorEdge) -> TimelineStep {
    TimelineStep::MoveTo(MoveToStep::new(
        STEP,
        MoveTarget::WindowAnchor {
            selector: active_window(),
            edge,
            reveal: WindowAnchorReveal::Head,
            duration_ms: 1_500,
        },
        16_500,
    ))
}

#[test]
fn macro_intent_peek_behind_window_keeps_semantic_fallback_unwrapped() {
    let (beat_plan, steps) = compiled_steps(peek_behind_window(WindowAnchorEdge::Right));

    assert_eq!(steps, vec![window_anchor_move(WindowAnchorEdge::Right)]);
    assert!(beat_plan.recovery.is_none());
}

#[test]
fn macro_intent_peek_behind_window_accepts_auto_edge() {
    let (_, steps) = compiled_steps(peek_behind_window(WindowAnchorEdge::Auto));

    assert_eq!(steps, vec![window_anchor_move(WindowAnchorEdge::Auto)]);
}

#[test]
fn beat_plan_timeline_compilation_applies_action_beat_macro_fallback_priority() {
    let mut with_own_fallback = BeatAction::once("step_019f5200-0000-7000-8000-000000000103", "primary.action", 5_000);
    with_own_fallback.fallback_action_id = Some("action.fallback".to_owned());
    let beat_plan = plan(
        "plan_019f5200-0000-7000-8000-000000000001",
        "fallback-priority",
        "fallbackPriority",
        Some("macro.fallback"),
        vec![
            beat(
                "beat_019f5200-0000-7000-8000-000000000101",
                BeatKind::Perform,
                None,
                action_body("step_019f5200-0000-7000-8000-000000000101", "primary.macro"),
            ),
            beat(
                "beat_019f5200-0000-7000-8000-000000000102",
                BeatKind::Perform,
                Some("beat.fallback"),
                action_body("step_019f5200-0000-7000-8000-000000000102", "primary.beat"),
            ),
            beat(
                "beat_019f5200-0000-7000-8000-000000000103",
                BeatKind::Perform,
                Some("ignored.beat.fallback"),
                BeatPlanBeatBody::Action { action: with_own_fallback },
            ),
        ],
    );

    assert_eq!(
        compile_beat_plan_to_timeline_steps(&beat_plan).expect("compiles"),
        vec![
            play("step_019f5200-0000-7000-8000-000000000101", "primary.macro", Some("macro.fallback")),
            play("step_019f5200-0000-7000-8000-000000000102", "primary.beat", Some("beat.fallback")),
            play("step_019f5200-0000-7000-8000-000000000103", "primary.action", Some("action.fallback")),
        ]
    );
}

#[test]
fn beat_plan_timeline_compilation_preserves_hold_and_settle_wait_steps() {
    let beat_plan = plan(
        "plan_019f5200-0000-7000-8000-000000000201",
        "wait-beats",
        "waitBeats",
        None,
        vec![
            beat(
                "beat_019f5200-0000-7000-8000-000000000201",
                BeatKind::Perform,
                None,
                wait_body("step_019f5200-0000-7000-8000-000000000201", 750),
            ),
            beat(
                "beat_019f5200-0000-7000-8000-000000000202",
                BeatKind::Settle,
                None,
                wait_body("step_019f5200-0000-7000-8000-000000000202", 250),
            ),
        ],
    );

    assert_eq!(
        compile_beat_plan_to_timeline_steps(&beat_plan).expect("compiles"),
        vec![
            wait("step_019f5200-0000-7000-8000-000000000201", 750, 1_000),
            wait("step_019f5200-0000-7000-8000-000000000202", 250, 1_000),
        ]
    );
}

#[test]
fn beat_plan_timeline_compilation_rejects_beat_fallback_on_wait_beat() {
    let beat_plan = plan(
        "plan_019f5200-0000-7000-8000-000000000211",
        "invalid-wait-fallback",
        "invalidWaitFallback",
        None,
        vec![beat(
            "beat_019f5200-0000-7000-8000-000000000211",
            BeatKind::Perform,
            Some("idle"),
            wait_body("step_019f5200-0000-7000-8000-000000000211", 750),
        )],
    );

    assert_eq!(
        validation_message(&beat_plan),
        "buddy state validation failed: fallbackActionId on beat beat_019f5200-0000-7000-8000-000000000211 can only apply to playAction timeline steps"
    );
}

#[test]
fn beat_plan_timeline_compilation_rejects_beat_fallback_on_target_beat() {
    let beat_plan = plan(
        "plan_019f5200-0000-7000-8000-000000000212",
        "invalid-target-fallback",
        "invalidTargetFallback",
        None,
        vec![beat(
            "beat_019f5200-0000-7000-8000-000000000212",
            BeatKind::Approach,
            Some("idle"),
            BeatPlanBeatBody::Target {
                target: BeatTarget::move_to(
                    "step_019f5200-0000-7000-8000-000000000212",
                    MoveTarget::Edge { edge: MoveEdge::Left },
                    15_000,
                ),
            },
        )],
    );

    assert_eq!(
        validation_message(&beat_plan),
        "buddy state validation failed: fallbackActionId on beat beat_019f5200-0000-7000-8000-000000000212 can only apply to playAction timeline steps"
    );
}

#[test]
fn beat_plan_timeline_compilation_rejects_unused_macro_fallback_on_wait_only_plan() {
    let beat_plan = plan(
        "plan_019f5200-0000-7000-8000-000000000213",
        "invalid-macro-fallback",
        "invalidMacroFallback",
        Some("idle"),
        vec![beat(
            "beat_019f5200-0000-7000-8000-000000000213",
            BeatKind::Perform,
            None,
            wait_body("step_019f5200-0000-7000-8000-000000000213", 750),
        )],
    );

    assert_eq!(
        validation_message(&beat_plan),
        "buddy state validation failed: fallbackActionId on beat plan plan_019f5200-0000-7000-8000-000000000213 must apply to at least one playAction timeline step"
    );
}

#[test]
fn beat_plan_timeline_compilation_compiles_group_beat_to_multiple_steps() {
    let beat_plan = plan(
        "plan_019f5200-0000-7000-8000-000000000901",
        "beat-group",
        "groupBeat",
        None,
        vec![beat(
            "beat_019f5200-0000-7000-8000-000000000901",
            BeatKind::Perform,
            None,
            BeatPlanBeatBody::Group {
                group: BeatGroup::new(vec![
                    beat(
                        "beat_019f5200-0000-7000-8000-000000000902",
                        BeatKind::Perform,
                        None,
                        action_body("step_019f5200-0000-7000-8000-000000000901", "celebrate"),
                    ),
                    beat(
                        "beat_019f5200-0000-7000-8000-000000000903",
                        BeatKind::Perform,
                        None,
                        wait_body("step_019f5200-0000-7000-8000-000000000902", 250),
                    ),
                ]),
            },
        )],
    );

    assert_eq!(
        compile_beat_plan_to_timeline_steps(&beat_plan).expect("compiles"),
        vec![
            play("step_019f5200-0000-7000-8000-000000000901", "celebrate", None),
            wait("step_019f5200-0000-7000-8000-000000000902", 250, 1_000),
        ]
    );
}

#[test]
fn beat_plan_timeline_compilation_applies_group_fallback_to_nested_play_action() {
    let beat_plan = plan(
        "plan_019f5200-0000-7000-8000-000000000904",
        "beat-group-fallback",
        "groupFallback",
        None,
        vec![beat(
            "beat_019f5200-0000-7000-8000-000000000904",
            BeatKind::Perform,
            Some("group.fallback"),
            BeatPlanBeatBody::Group {
                group: BeatGroup::new(vec![
                    beat(
                        "beat_019f5200-0000-7000-8000-000000000905",
                        BeatKind::Perform,
                        None,
                        action_body("step_019f5200-0000-7000-8000-000000000904", "celebrate"),
                    ),
                    beat(
                        "beat_019f5200-0000-7000-8000-000000000906",
                        BeatKind::Perform,
                        None,
                        wait_body("step_019f5200-0000-7000-8000-000000000905", 250),
                    ),
                ]),
            },
        )],
    );

    assert_eq!(
        compile_beat_plan_to_timeline_steps(&beat_plan).expect("compiles"),
        vec![
            play("step_019f5200-0000-7000-8000-000000000904", "celebrate", Some("group.fallback")),
            wait("step_019f5200-0000-7000-8000-000000000905", 250, 1_000),
        ]
    );
}

#[test]
fn beat_plan_timeline_compilation_rejects_empty_group_beat() {
    let beat_plan = plan(
        "plan_019f5200-0000-7000-8000-000000000907",
        "empty-group-beat",
        "emptyGroupBeat",
        None,
        vec![beat(
            "beat_019f5200-0000-7000-8000-000000000907",
            BeatKind::Perform,
            None,
            BeatPlanBeatBody::Group { group: BeatGroup::new(Vec::new()) },
        )],
    );

    assert_eq!(
        validation_message(&beat_plan),
        "buddy state validation failed: group beat beat_019f5200-0000-7000-8000-000000000907 must contain at least one nested beat"
    );
}

#[test]
fn beat_plan_timeline_compilation_rejects_group_fallback_without_nested_play_action() {
    let beat_plan = plan(
        "plan_019f5200-0000-7000-8000-000000000908",
        "invalid-group-fallback",
        "invalidGroupFallback",
        None,
        vec![beat(
            "beat_019f5200-0000-7000-8000-000000000908",
            BeatKind::Perform,
            Some("idle"),
            BeatPlanBeatBody::Group {
                group: BeatGroup::new(vec![beat(
                    "beat_019f5200-0000-7000-8000-000000000909",
                    BeatKind::Perform,
                    None,
                    wait_body("step_019f5200-0000-7000-8000-000000000908", 250),
                )]),
            },
        )],
    );

    assert_eq!(
        validation_message(&beat_plan),
        "buddy state validation failed: fallbackActionId on group beat beat_019f5200-0000-7000-8000-000000000908 must apply to at least one nested playAction timeline step"
    );
}

fn failure_branch_plan(
    plan_id: &str,
    fixture: &str,
    macro_id: &str,
    beat_id: &str,
    fallback: Option<&str>,
    primary: Vec<BeatPlanBeat>,
    fallback_beats: Vec<BeatPlanBeat>,
) -> BeatPlan {
    let step_id = beat_id.replace("beat_", "step_");
    plan(
        plan_id,
        fixture,
        macro_id,
        None,
        vec![beat(
            beat_id,
            BeatKind::Perform,
            fallback,
            BeatPlanBeatBody::FailureBranch {
                failure_branch: BeatFailureBranch::new(&step_id, primary, fallback_beats),
            },
        )],
    )
}

#[test]
fn beat_plan_timeline_compilation_compiles_failure_branch_to_try_step() {
    let beat_plan = failure_branch_plan(
        "plan_019f5200-0000-7000-8000-000000001001",
        "beat-failure-branch",
        "failureBranchBeat",
        "beat_019f5200-0000-7000-8000-000000001001",
        None,
        vec![beat(
            "beat_019f5200-0000-7000-8000-000000001002",
            BeatKind::Perform,
            None,
            action_body("step_019f5200-0000-7000-8000-000000001002", "cast"),
        )],
        vec![beat(
            "beat_019f5200-0000-7000-8000-000000001003",
            BeatKind::Perform,
            None,
            action_body("step_019f5200-0000-7000-8000-000000001003", "celebrate"),
        )],
    );

    assert_eq!(
        compile_beat_plan_to_timeline_steps(&beat_plan).expect("compiles"),
        vec![TimelineStep::Try(TryStep {
            step_id: "step_019f5200-0000-7000-8000-000000001001".to_owned(),
            kind: "try".to_owned(),
            steps: vec![play("step_019f5200-0000-7000-8000-000000001002", "cast", None)],
            fallback_steps: vec![play("step_019f5200-0000-7000-8000-000000001003", "celebrate", None)],
        })]
    );
}

#[test]
fn beat_plan_timeline_compilation_applies_failure_branch_fallback_to_nested_play_actions() {
    let beat_plan = failure_branch_plan(
        "plan_019f5200-0000-7000-8000-000000001004",
        "beat-failure-branch-fallback",
        "failureBranchFallback",
        "beat_019f5200-0000-7000-8000-000000001004",
        Some("branch.fallback"),
        vec![beat(
            "beat_019f5200-0000-7000-8000-000000001005",
            BeatKind::Perform,
            None,
            action_body("step_019f5200-0000-7000-8000-000000001005", "cast"),
        )],
        vec![beat(
            "beat_019f5200-0000-7000-8000-000000001006",
            BeatKind::Perform,
            None,
            action_body("step_019f5200-0000-7000-8000-000000001006", "celebrate"),
        )],
    );

    assert_eq!(
        compile_beat_plan_to_timeline_steps(&beat_plan).expect("compiles"),
        vec![TimelineStep::Try(TryStep {
            step_id: "step_019f5200-0000-7000-8000-000000001004".to_owned(),
            kind: "try".to_owned(),
            steps: vec![play("step_019f5200-0000-7000-8000-000000001005", "cast", Some("branch.fallback"))],
            fallback_steps: vec![play(
                "step_019f5200-0000-7000-8000-000000001006",
                "celebrate",
                Some("branch.fallback"),
            )],
        })]
    );
}

#[test]
fn beat_plan_timeline_compilation_rejects_empty_failure_branch_primary() {
    let beat_plan = failure_branch_plan(
        "plan_019f5200-0000-7000-8000-000000001007",
        "empty-failure-branch-primary",
        "emptyFailureBranchPrimary",
        "beat_019f5200-0000-7000-8000-000000001007",
        None,
        Vec::new(),
        vec![beat(
            "beat_019f5200-0000-7000-8000-000000001008",
            BeatKind::Perform,
            None,
            wait_body("step_019f5200-0000-7000-8000-000000001008", 250),
        )],
    );

    assert_eq!(
        validation_message(&beat_plan),
        "buddy state validation failed: failure branch beat beat_019f5200-0000-7000-8000-000000001007 must contain at least one primary nested beat"
    );
}

#[test]
fn beat_plan_timeline_compilation_rejects_empty_failure_branch_fallback() {
    let beat_plan = failure_branch_plan(
        "plan_019f5200-0000-7000-8000-000000001009",
        "empty-failure-branch-fallback",
        "emptyFailureBranchFallback",
        "beat_019f5200-0000-7000-8000-000000001009",
        None,
        vec![beat(
            "beat_019f5200-0000-7000-8000-000000001010",
            BeatKind::Perform,
            None,
            wait_body("step_019f5200-0000-7000-8000-000000001010", 250),
        )],
        Vec::new(),
    );

    assert_eq!(
        validation_message(&beat_plan),
        "buddy state validation failed: failure branch beat beat_019f5200-0000-7000-8000-000000001009 must contain at least one fallback nested beat"
    );
}

#[test]
fn beat_plan_timeline_compilation_rejects_failure_branch_fallback_without_nested_play_action() {
    let beat_plan = failure_branch_plan(
        "plan_019f5200-0000-7000-8000-000000001011",
        "invalid-failure-branch-fallback",
        "invalidFailureBranchFallback",
        "beat_019f5200-0000-7000-8000-000000001011",
        Some("idle"),
        vec![beat(
            "beat_019f5200-0000-7000-8000-000000001012",
            BeatKind::Perform,
            None,
            wait_body("step_019f5200-0000-7000-8000-000000001012", 250),
        )],
        vec![beat(
            "beat_019f5200-0000-7000-8000-000000001013",
            BeatKind::Perform,
            None,
            wait_body("step_019f5200-0000-7000-8000-000000001013", 250),
        )],
    );

    assert_eq!(
        validation_message(&beat_plan),
        "buddy state validation failed: fallbackActionId on failure branch beat beat_019f5200-0000-7000-8000-000000001011 must apply to at least one nested playAction timeline step"
    );
}

#[test]
fn beat_plan_timeline_compilation_compiles_target_only_beat_to_move_to_step() {
    let beat_plan = plan(
        "plan_019f5200-0000-7000-8000-000000000301",
        "beat-target",
        "targetBeat",
        None,
        vec![beat(
            "beat_019f5200-0000-7000-8000-000000000301",
            BeatKind::Approach,
            None,
            BeatPlanBeatBody::Target {
                target: BeatTarget::move_to(
                    "step_019f5200-0000-7000-8000-000000000301",
                    MoveTarget::Edge { edge: MoveEdge::Left },
                    15_000,
                ),
            },
        )],
    );

    assert_eq!(
        compile_beat_plan_to_timeline_steps(&beat_plan).expect("compiles"),
        vec![TimelineStep::MoveTo(MoveToStep::edge(
            "step_019f5200-0000-7000-8000-000000000301",
            MoveEdge::Left,
            15_000,
        ))]
    );
}

#[test]
fn beat_plan_timeline_compilation_compiles_action_only_beat_to_play_action_step() {
    let beat_plan = plan(
        "plan_019f5200-0000-7000-8000-000000000501",
        "beat-action",
        "actionBeat",
        Some("macro.fallback"),
        vec![beat(
            "beat_019f5200-0000-7000-8000-000000000501",
            BeatKind::Perform,
            None,
            action_body("step_019f5200-0000-7000-8000-000000000501", "celebrate"),
        )],
    );

    assert_eq!(
        compile_beat_plan_to_timeline_steps(&beat_plan).expect("compiles"),
        vec![play("step_019f5200-0000-7000-8000-000000000501", "celebrate", Some("macro.fallback"))]
    );
}

#[test]
fn beat_plan_timeline_compilation_compiles_wait_only_beat_to_wait_step() {
    let beat_plan = plan(
        "plan_019f5200-0000-7000-8000-000000000601",
        "beat-wait",
        "waitBeat",
        None,
        vec![beat(
            "beat_019f5200-0000-7000-8000-000000000601",
            BeatKind::Perform,
            None,
            wait_body("step_019f5200-0000-7000-8000-000000000601", 750),
        )],
    );

    assert_eq!(
        compile_beat_plan_to_timeline_steps(&beat_plan).expect("compiles"),
        vec![wait("step_019f5200-0000-7000-8000-000000000601", 750, 1_000)]
    );
}

#[test]
fn beat_plan_timeline_compilation_compiles_path_beat_to_move_by_path_step() {
    let path = vec![MoveTarget::Edge { edge: MoveEdge::Left }, MoveTarget::Center, MoveTarget::Home];
    let beat_plan = plan(
        "plan_019f5200-0000-7000-8000-000000000801",
        "beat-path",
        "pathBeat",
        None,
        vec![beat(
            "beat_019f5200-0000-7000-8000-000000000801",
            BeatKind::Approach,
            None,
            BeatPlanBeatBody::Path {
                path: BeatPath::move_by_path("step_019f5200-0000-7000-8000-000000000801", path.clone(), 30_000),
            },
        )],
    );

    assert_eq!(
        compile_beat_plan_to_timeline_steps(&beat_plan).expect("compiles"),
        vec![TimelineStep::MoveByPath(MoveByPathStep::new(
            "step_019f5200-0000-7000-8000-000000000801",
            path,
            30_000,
        ))]
    );
}

#[test]
fn beat_plan_timeline_compilation_rejects_empty_path_beat() {
    let beat_plan = plan(
        "plan_019f5200-0000-7000-8000-000000000802",
        "empty-path-beat",
        "emptyPathBeat",
        None,
        vec![beat(
            "beat_019f5200-0000-7000-8000-000000000802",
            BeatKind::Approach,
            None,
            BeatPlanBeatBody::Path {
                path: BeatPath::move_by_path("step_019f5200-0000-7000-8000-000000000802", Vec::new(), 30_000),
            },
        )],
    );

    assert_eq!(
        validation_message(&beat_plan),
        "buddy state validation failed: path beat beat_019f5200-0000-7000-8000-000000000802 must contain at least one target"
    );
}

#[test]
fn patrol_loops_outside_the_public_range_are_rejected() {
    for loops in [0u8, 5u8] {
        let intent = MacroIntent::PatrolAroundScreen(PatrolAroundScreenMacroParams { loops });
        match compile_macro_intent_to_beat_plan(&intent, fixed_context()) {
            Ok(_) => panic!("loops {loops} should be rejected"),
            Err(error) => assert_eq!(
                error.message(),
                "buddy state validation failed: patrolAroundScreen loops must be between 1 and 4"
            ),
        }
    }
}

#[test]
fn patrol_with_two_loops_visits_every_edge_twice() {
    let (beat_plan, _) = compiled_steps(MacroIntent::PatrolAroundScreen(PatrolAroundScreenMacroParams { loops: 2 }));
    assert_eq!(beat_plan.beats.len(), 8);
    assert_eq!(beat_plan.beats[7].beat_id, "beat_019f5100-0000-7000-8000-000000000002.8");
}
