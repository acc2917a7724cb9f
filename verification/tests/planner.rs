use buddy_choreography::json::JsonValue;
use buddy_choreography::planner::expand_planner_timeline_plan;
use buddy_choreography::timeline::{
    ChooseOption, ChooseStep, PlayActionStep, RecoverStep, RepeatStep, SetFallbackStep,
    TimelineFailurePolicy, TimelinePlan, TimelineStep, WaitStep,
};

fn timeline_plan(steps: Vec<TimelineStep>) -> TimelinePlan {
    TimelinePlan {
        plan_id: "plan_pending_handoff_finalizer_test".to_owned(),
        source_ref: JsonValue::Object(vec![("kind".to_owned(), JsonValue::Str("devFixture".to_owned()))]),
        failure_policy: TimelineFailurePolicy::Abort,
        steps,
        created_at: "2026-07-16T00:00:00.000Z".to_owned(),
    }
}

fn action_step(step_id: &str) -> PlayActionStep {
    PlayActionStep::once(step_id, "celebrate", 5_000)
}

fn action_step_with_finalizer(step_id: &str, finalizer_step_id: &str) -> PlayActionStep {
    let mut step = action_step(step_id);
    step.pending_handoff_finalizer_step_id = Some(finalizer_step_id.to_owned());
    step
}

fn expansion_error(plan: TimelinePlan) -> String {
    match expand_planner_timeline_plan(plan) {
        Ok(_) => panic!("plan should be rejected"),
        Err(error) => error.message(),
    }
}

#[test]
fn planner_expansion_rejects_missing_pending_handoff_finalizer() {
    let error = expansion_error(timeline_plan(vec![TimelineStep::PlayAction(action_step_with_finalizer(
        "enter", "exit",
    ))]));

    assert!(error.contains("pending handoff finalizer step is missing: enter -> exit"));
}

#[test]
fn planner_expansion_rejects_missing_nested_pending_handoff_finalizer() {
    let error = expansion_error(timeline_plan(vec![TimelineStep::Recover(RecoverStep {
        step_id: "recover".to_owned(),
        kind: "recover".to_owned(),
        steps: vec![TimelineStep::PlayAction(action_step_with_finalizer("enter", "exit"))],
        recovery_steps: vec![TimelineStep::PlayAction(action_step("recover-idle"))],
    })]));

    assert!(error.contains("pending handoff finalizer step is missing: enter -> exit"));
}

#[test]
fn planner_expansion_rejects_backward_pending_handoff_finalizer() {
    let error = expansion_error(timeline_plan(vec![
        TimelineStep::PlayAction(action_step("exit")),
        TimelineStep::PlayAction(action_step_with_finalizer("loop", "exit")),
    ]));

    assert!(error.contains("pending handoff finalizer must be a later step: loop -> exit"));
}

#[test]
fn planner_expansion_rejects_non_action_pending_handoff_finalizer() {
    let error = expansion_error(timeline_plan(vec![
        TimelineStep::PlayAction(action_step_with_finalizer("enter", "wait")),
        TimelineStep::Wait(WaitStep::new("wait", 100, 100)),
    ]));

    assert!(error.contains("pending handoff finalizer must be a playAction step: enter -> wait"));
}

#[test]
fn repeat_expansion_rewrites_pending_handoff_finalizer_references() {
    let expanded = expand_planner_timeline_plan(timeline_plan(vec![TimelineStep::Repeat(RepeatStep {
        step_id: "repeat".to_owned(),
        kind: "repeat".to_owned(),
        times: 2,
        steps: vec![
            TimelineStep::PlayAction(action_step_with_finalizer("enter", "exit")),
            TimelineStep::PlayAction(action_step("exit")),
        ],
    })]))
    .expect("repeat finalizer references should expand");
    let expanded_ids = expanded
        .steps
        .iter()
        .map(|step| (step.step_id().to_owned(), step.pending_handoff_finalizer_step_id().map(str::to_owned)))
        .collect::<Vec<_>>();

    assert_eq!(
        expanded_ids,
        vec![
            ("enter__repeat_001".to_owned(), Some("exit__repeat_001".to_owned())),
            ("exit__repeat_001".to_owned(), None),
            ("enter__repeat_002".to_owned(), Some("exit__repeat_002".to_owned())),
            ("exit__repeat_002".to_owned(), None),
        ]
    );
}

#[test]
fn expansion_keeps_plan_identity_and_plain_steps() {
    let plan = timeline_plan(vec![
        TimelineStep::PlayAction(action_step("first")),
        TimelineStep::Wait(WaitStep::new("pause", 100, 200)),
    ]);
    let expanded = expand_planner_timeline_plan(plan).expect("plain steps expand to themselves");

    assert_eq!(expanded.plan_id, "plan_pending_handoff_finalizer_test");
    assert_eq!(expanded.created_at, "2026-07-16T00:00:00.000Z");
    assert_eq!(
        expanded.steps,
        vec![
            TimelineStep::PlayAction(action_step("first")),
            TimelineStep::Wait(WaitStep::new("pause", 100, 200)),
        ]
    );
}

#[test]
fn set_fallback_applies_to_nested_play_actions_without_their_own() {
    let expanded = expand_planner_timeline_plan(timeline_plan(vec![TimelineStep::SetFallback(SetFallbackStep {
        step_id: "fallback".to_owned(),
        kind: "setFallback".to_owned(),
        fallback_action_id: "idle".to_owned(),
        steps: vec![TimelineStep::PlayAction(action_step("inner"))],
    })]))
    .expect("setFallback expands");

    let mut expected = action_step("inner");
    expected.fallback_action_id = Some("idle".to_owned());
    assert_eq!(expanded.steps, vec![TimelineStep::PlayAction(expected)]);
}

#[test]
fn set_fallback_without_nested_play_action_is_rejected() {
    let error = expansion_error(timeline_plan(vec![TimelineStep::SetFallback(SetFallbackStep {
        step_id: "fallback".to_owned(),
        kind: "setFallback".to_owned(),
        fallback_action_id: "idle".to_owned(),
        steps: vec![TimelineStep::Wait(WaitStep::new("pause", 100, 200))],
    })]));

    assert_eq!(
        error,
        "buddy state validation failed: setFallback step fallback must apply to at least one playAction timeline step"
    );
}

fn option(option_id: &str, weight: u16, step_id: &str) -> ChooseOption {
    ChooseOption {
        option_id: option_id.to_owned(),
        weight,
        steps: vec![TimelineStep::PlayAction(action_step(step_id))],
    }
}

#[test]
fn weighted_choose_picks_the_heaviest_option_and_breaks_ties_by_id() {
    let choose = |strategy: &str, options: Vec<ChooseOption>| {
        expand_planner_timeline_plan(timeline_plan(vec![TimelineStep::Choose(ChooseStep {
            step_id: "choose".to_owned(),
            kind: "choose".to_owned(),
            strategy: strategy.to_owned(),
            options,
        })]))
        .expect("choose expands")
        .steps
    };

    assert_eq!(
        choose("weighted", vec![option("b", 1, "light"), option("a", 3, "heavy")]),
        vec![TimelineStep::PlayAction(action_step("heavy"))]
    );
    assert_eq!(
        choose("weighted", vec![option("b", 2, "second"), option("a", 2, "first")]),
        vec![TimelineStep::PlayAction(action_step("first"))]
    );
    assert_eq!(
        choose("first", vec![option("b", 1, "light"), option("a", 3, "heavy")]),
        vec![TimelineStep::PlayAction(action_step("light"))]
    );
}

#[test]
fn choose_with_unknown_strategy_is_rejected() {
    let error = expansion_error(timeline_plan(vec![TimelineStep::Choose(ChooseStep {
        step_id: "choose".to_owned(),
        kind: "choose".to_owned(),
        strategy: "random".to_owned(),
        options: vec![option("a", 1, "only")],
    })]));

    assert!(error.contains("unsupported choose timeline strategy `random`"));
}
