use buddy_choreography::action_log::{ActionLogEvent, ActionLogSink, ActionLogSystemEvent};
use buddy_choreography::error::BuddyResult;
use buddy_choreography::sidecar_protocol::compile_execute_step_request;
use buddy_choreography::wire::execute_step_payload_json;
use buddy_choreography::preset_behavior::{
    append_native_pet_preset_behavior_action_log,
    compile_native_pet_preset_behavior_timeline_plan,
    compile_native_pet_preset_behavior_timeline_step, preset_behavior_action_selector,
    NativePetPresetBehaviorEvent, NativePetPresetBehaviorLogContext,
};
use buddy_choreography::json::JsonValue;
use buddy_choreography::registry::{ActionDefinition, ActionRegistry, ResolveContext};
use buddy_choreography::step_protocol::SidecarInterruptPolicy;
use buddy_choreography::timeline::TimelineStep;

fn action(action_id: &str, selector: &str, animation: &str) -> ActionDefinition {
    ActionDefinition {
        action_id: action_id.to_owned(),
        selector: Some(selector.to_owned()),
        animation_ref: animation.to_owned(),
        playback_kind: "once".to_owned(),
        duration_ms: 1_230,
        clip_duration_ms: 1_230,
        loop_animation: false,
        interrupt_policy: SidecarInterruptPolicy::FinishStep,
    }
}

fn preset_registry() -> ActionRegistry {
    ActionRegistry {
        actions: vec![
            action("throw_after_drag.fall.left", "throw_after_drag.fall", "trip_fall_left"),
            action("throw_after_drag.fall.right", "throw_after_drag.fall", "trip_fall_right"),
            action(
                "throw_after_drag.stumble.left",
                "throw_after_drag.stumble",
                "stumble_recover_left",
            ),
            action(
                "throw_after_drag.stumble.right",
                "throw_after_drag.stumble",
                "stumble_recover_right",
            ),
            action(
                "throw_after_drag.get_up.left",
                "throw_after_drag.get_up",
                "fallen_get_up_left",
            ),
        ],
    }
}

#[test]
fn preset_behavior_fall_compiles_to_precise_directional_play_action_step() {
    let registry = preset_registry();
    let event = NativePetPresetBehaviorEvent {
        preset_behavior_id: "throw_after_drag".to_owned(),
        interaction_id: Some("interaction_test".to_owned()),
        outcome: "fall".to_owned(),
        animation: "trip_fall_right".to_owned(),
    };
    let context = NativePetPresetBehaviorLogContext::fixed_for_test();

    let step = compile_native_pet_preset_behavior_timeline_step(
        &registry,
        &event,
        &context,
        &ResolveContext::default(),
    )
    .expect("compile preset behavior step");

    let TimelineStep::PlayAction(step) = step else {
        panic!("expected playAction step");
    };
    assert_eq!(step.step_id, "step_019f4200-0000-7000-8000-000000000002");
    assert_eq!(step.action_id, "throw_after_drag.fall.right");
    assert_eq!(step.fallback_action_id.as_deref(), Some("idle"));
}

#[test]
fn preset_behavior_stumble_compiles_to_precise_directional_action() {
    let registry = preset_registry();
    let event = NativePetPresetBehaviorEvent {
        preset_behavior_id: "throw_after_drag".to_owned(),
        interaction_id: Some("interaction_test".to_owned()),
        outcome: "stumble".to_owned(),
        animation: "stumble_recover_right".to_owned(),
    };
    let context = NativePetPresetBehaviorLogContext::fixed_for_test();

    let step = compile_native_pet_preset_behavior_timeline_step(
        &registry,
        &event,
        &context,
        &ResolveContext::default(),
    )
    .expect("compile stumble preset behavior step");

    let TimelineStep::PlayAction(step) = step else {
        panic!("expected playAction step");
    };
    assert_eq!(step.action_id, "throw_after_drag.stumble.right");
    assert_eq!(step.fallback_action_id.as_deref(), Some("idle"));
}

#[test]
fn preset_behavior_event_compiles_to_timeline_plan_with_stable_source_ref() {
    let registry = preset_registry();
    let event = NativePetPresetBehaviorEvent {
        preset_behavior_id: "throw_after_drag".to_owned(),
        interaction_id: Some("interaction_test".to_owned()),
        outcome: "stumble".to_owned(),
        animation: "stumble_recover_left".to_owned(),
    };
    let context = NativePetPresetBehaviorLogContext::fixed_for_test();

    let plan = compile_native_pet_preset_behavior_timeline_plan(
        &registry,
        &event,
        &context,
        &ResolveContext::default(),
    )
    .expect("compile preset behavior plan");

    assert_eq!(plan.plan_id, "plan_019f4200-0000-7000-8000-000000000001");
    assert_eq!(
        plan.source_ref,
        JsonValue::Object(vec![
            ("kind".to_owned(), JsonValue::Str("presetBehavior".to_owned())),
            (
                "presetBehaviorId".to_owned(),
                JsonValue::Str("throw_after_drag".to_owned())
            ),
            (
                "interactionId".to_owned(),
                JsonValue::Str("interaction_test".to_owned())
            ),
        ])
    );
    assert_eq!(plan.created_at, "2026-07-09T00:00:00.000Z");
    assert_eq!(plan.steps.len(), 1);
    let TimelineStep::PlayAction(step) = &plan.steps[0] else {
        panic!("expected playAction step");
    };
    assert_eq!(step.action_id, "throw_after_drag.stumble.left");
}

#[test]
fn preset_behavior_selector_joins_behavior_and_outcome() {
    let event = NativePetPresetBehaviorEvent {
        preset_behavior_id: "throw_after_drag".to_owned(),
        interaction_id: None,
        outcome: "get_up".to_owned(),
        animation: "fallen_get_up_left".to_owned(),
    };
    assert_eq!(preset_behavior_action_selector(&event), "throw_after_drag.get_up");
}

#[test]
fn preset_behavior_with_unknown_animation_is_refused() {
    let registry = preset_registry();
    let event = NativePetPresetBehaviorEvent {
        preset_behavior_id: "throw_after_drag".to_owned(),
        interaction_id: None,
        outcome: "fall".to_owned(),
        animation: "somersault".to_owned(),
    };
    let error = compile_native_pet_preset_behavior_timeline_step(
        &registry,
        &event,
        &NativePetPresetBehaviorLogContext::fixed_for_test(),
        &ResolveContext::default(),
    )
    .expect_err("unknown animation");
    assert_eq!(
        error.message(),
        "buddy state validation failed: unknown buddy animation for selector throw_after_drag.fall: somersault"
    );
}

#[test]
fn preset_behavior_fresh_context_uses_prefixed_ids() {
    let context = NativePetPresetBehaviorLogContext::new("a", "b", "c");
    assert!(context.plan_id.starts_with("plan_"));
    assert_eq!(context.plan_id.len(), 5 + 36);
    assert!(context.step_id.starts_with("step_"));
    assert!(context.plan_started_event_id.starts_with("evt_"));
    assert_ne!(context.plan_started_event_id, context.step_resolved_event_id);
    assert_eq!(context.completed_at, "c");
}

fn s(v: &str) -> JsonValue {
    JsonValue::Str(v.to_owned())
}

fn n(v: i128) -> JsonValue {
    JsonValue::Number(Some(v))
}

fn obj(members: Vec<(&str, JsonValue)>) -> JsonValue {
    JsonValue::Object(members.into_iter().map(|(k, v)| (k.to_owned(), v)).collect())
}

fn member<'a>(value: &'a JsonValue, key: &str) -> Option<&'a JsonValue> {
    match value {
        JsonValue::Object(members) => members.iter().find(|(k, _)| k == key).map(|(_, v)| v),
        _ => None,
    }
}

fn idle_registry() -> ActionRegistry {
    let mut registry = preset_registry();
    registry.actions.push(ActionDefinition {
        action_id: "idle".to_owned(),
        selector: None,
        animation_ref: "idle".to_owned(),
        playback_kind: "idleLoop".to_owned(),
        duration_ms: 2_000,
        clip_duration_ms: 2_000,
        loop_animation: true,
        interrupt_policy: SidecarInterruptPolicy::Interruptible,
    });
    registry
}

#[test]
fn preset_behavior_get_up_compiles_to_sidecar_execute_step() {
    let registry = idle_registry();
    let event = NativePetPresetBehaviorEvent {
        preset_behavior_id: "throw_after_drag".to_owned(),
        interaction_id: Some("interaction_test".to_owned()),
        outcome: "get_up".to_owned(),
        animation: "fallen_get_up_left".to_owned(),
    };
    let context = NativePetPresetBehaviorLogContext::fixed_for_test();
    let step =
        compile_native_pet_preset_behavior_timeline_step(&registry, &event, &context, &ResolveContext::default())
            .expect("compile preset behavior step");

    let request = compile_execute_step_request(&registry, &ResolveContext::default(), &step)
        .expect("compile executeStep request");

    assert_eq!(request.step_id, "step_019f4200-0000-7000-8000-000000000002");
    assert_eq!(
        execute_step_payload_json(&request.step),
        obj(vec![
            ("kind", s("playAction")),
            ("animation", s("fallen_get_up_left")),
            ("playback", obj(vec![("kind", s("once")), ("durationMs", n(1230))])),
            ("interruptPolicy", s("finishStep")),
            ("timeoutMs", n(5000)),
        ])
    );
}

#[derive(Default)]
struct MemoryLog {
    events: Vec<ActionLogEvent>,
}

impl ActionLogSink for MemoryLog {
    fn append_event(&mut self, event: &ActionLogEvent) -> BuddyResult<()> {
        self.events.push(ActionLogEvent {
            event_id: event.event_id.clone(),
            schema_version: event.schema_version,
            event_type: event.event_type.clone(),
            status: event.status.clone(),
            reason_code: event.reason_code.clone(),
            plan_id: event.plan_id.clone(),
            step_id: event.step_id.clone(),
            source_ref: event.source_ref.duplicate(),
            trigger_source: event.trigger_source.clone(),
            payload: event.payload.duplicate(),
            created_at: event.created_at.clone(),
        });
        Ok(())
    }

    fn append_system_event(&mut self, _event: &ActionLogSystemEvent) -> BuddyResult<()> {
        Ok(())
    }
}

#[test]
fn preset_behavior_action_log_records_compiled_timeline_step() {
    let mut log = MemoryLog::default();
    append_native_pet_preset_behavior_action_log(
        &mut log,
        &idle_registry(),
        &NativePetPresetBehaviorEvent {
            preset_behavior_id: "throw_after_drag".to_owned(),
            interaction_id: Some("interaction_test".to_owned()),
            outcome: "fall".to_owned(),
            animation: "trip_fall_right".to_owned(),
        },
        &NativePetPresetBehaviorLogContext::fixed_for_test(),
    )
    .expect("append preset behavior action log");

    let resolved_event =
        log.events.iter().find(|event| event.event_type == "step.resolved").expect("step.resolved event");

    assert_eq!(
        member(&resolved_event.payload, "timelineStep"),
        Some(&obj(vec![
            ("stepId", s("step_019f4200-0000-7000-8000-000000000002")),
            ("kind", s("playAction")),
            ("actionId", s("throw_after_drag.fall.right")),
            ("fallbackActionId", s("idle")),
            ("expectedPlayback", s("once")),
            ("timeoutMs", n(5000)),
        ]))
    );
}

#[test]
fn preset_behavior_action_log_writes_the_plan_from_start_to_completion() {
    let mut log = MemoryLog::default();
    append_native_pet_preset_behavior_action_log(
        &mut log,
        &idle_registry(),
        &NativePetPresetBehaviorEvent {
            preset_behavior_id: "throw_after_drag".to_owned(),
            interaction_id: None,
            outcome: "stumble".to_owned(),
            animation: "stumble_recover_left".to_owned(),
        },
        &NativePetPresetBehaviorLogContext::fixed_for_test(),
    )
    .expect("append preset behavior action log");

    let types: Vec<&str> = log.events.iter().map(|e| e.event_type.as_str()).collect();
    assert_eq!(types, ["plan.started", "step.resolved", "step.completed", "plan.completed"]);
    assert!(log.events.iter().all(|e| e.trigger_source == "presetBehavior"));
    assert_eq!(member(&log.events[2].payload, "elapsedMs"), Some(&n(1230)));
    assert_eq!(member(&log.events[3].payload, "completedStepCount"), Some(&n(1)));
}

#[test]
fn preset_behavior_with_an_unknown_animation_writes_nothing() {
    let mut log = MemoryLog::default();
    let error = append_native_pet_preset_behavior_action_log(
        &mut log,
        &idle_registry(),
        &NativePetPresetBehaviorEvent {
            preset_behavior_id: "throw_after_drag".to_owned(),
            interaction_id: None,
            outcome: "fall".to_owned(),
            animation: "no_such_animation".to_owned(),
        },
        &NativePetPresetBehaviorLogContext::fixed_for_test(),
    )
    .expect_err("unknown animation");

    assert_eq!(
        error.message(),
        "buddy state validation failed: unknown buddy animation for selector throw_after_drag.fall: no_such_animation"
    );
    assert!(log.events.is_empty());
}
