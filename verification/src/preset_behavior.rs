use vstd::prelude::*;

use crate::error::{BuddyError, BuddyResult};
use crate::ids::prefixed_uuid_v7;
use crate::json::{JsonValue, JsonView};
use crate::action_log::{spec_log_event, ActionLogEvent, ActionLogSink};
use crate::json::{json_object, json_str, json_u64, members_view, push_member};
use crate::registry::{
    spec_resolve_action_for_animation, spec_resolve_play_action, ActionRegistry,
    ResolutionView, ResolveContext, StepResolution,
};
use crate::wire::{num, play_action_step_json, resolution_json, spec_play_action_step_json, spec_resolution_json};
use crate::step_protocol::SidecarPlayActionCompletionBehavior;
use crate::text::{concat3, opt_string_view};
use crate::timeline::{
    lemma_steps_view, steps_view, PlayActionStep, PlayActionStepView, TimelineFailurePolicy, TimelinePlan,
    TimelineStep, TimelineStepView,
};

verus! {

/// A preset behavior the native pet played on its own, such as landing after a throw.
#[derive(Debug, Clone, PartialEq, Eq)]
pub struct NativePetPresetBehaviorEvent {
    pub preset_behavior_id: String,
    pub interaction_id: Option<String>,
    pub outcome: String,
    pub animation: String,
}

/// The ids and times that the action log of a preset behavior is written with.
#[derive(Debug, Clone, PartialEq, Eq)]
pub struct NativePetPresetBehaviorLogContext {
    pub plan_id: String,
    pub step_id: String,
    pub plan_started_event_id: String,
    pub step_resolved_event_id: String,
    pub step_completed_event_id: String,
    pub plan_completed_event_id: String,
    pub created_at: String,
    pub resolved_at: String,
    pub completed_at: String,
}

impl NativePetPresetBehaviorLogContext {
    /// A context with fresh ids, written at the given times.
    pub fn new(created_at: &str, resolved_at: &str, completed_at: &str) -> (r: Self)
        ensures
            r.created_at@ == created_at@,
            r.resolved_at@ == resolved_at@,
            r.completed_at@ == completed_at@,
            r.plan_id@.subrange(0, 5) == "plan_"@,
            r.step_id@.subrange(0, 5) == "step_"@,
    {
        let plan_id = prefixed_uuid_v7("plan");
        let step_id = prefixed_uuid_v7("step");
        proof {
            reveal_strlit("plan");
            reveal_strlit("step");
            reveal_strlit("plan_");
            reveal_strlit("step_");
            reveal_strlit("_");
            assert("plan"@ + "_"@ =~= "plan_"@);
            assert("step"@ + "_"@ =~= "step_"@);
        }
        NativePetPresetBehaviorLogContext {
            plan_id,
            step_id,
            plan_started_event_id: prefixed_uuid_v7("evt"),
            step_resolved_event_id: prefixed_uuid_v7("evt"),
            step_completed_event_id: prefixed_uuid_v7("evt"),
            plan_completed_event_id: prefixed_uuid_v7("evt"),
            created_at: created_at.to_owned(),
            resolved_at: resolved_at.to_owned(),
            completed_at: completed_at.to_owned(),
        }
    }

    /// The context with the fixed ids and times used by tests.
    pub fn fixed_for_test() -> (r: Self)
        ensures
            r.plan_id@ == "plan_019f4200-0000-7000-8000-000000000001"@,
            r.step_id@ == "step_019f4200-0000-7000-8000-000000000002"@,
            r.created_at@ == "2026-07-09T00:00:00.000Z"@,
    {
        NativePetPresetBehaviorLogContext {
            plan_id: "plan_019f4200-0000-7000-8000-000000000001".to_owned(),
            step_id: "step_019f4200-0000-7000-8000-000000000002".to_owned(),
            plan_started_event_id: "evt_019f4200-0000-7000-8000-000000000003".to_owned(),
            step_resolved_event_id: "evt_019f4200-0000-7000-8000-000000000004".to_owned(),
            step_completed_event_id: "evt_019f4200-0000-7000-8000-000000000005".to_owned(),
            plan_completed_event_id: "evt_019f4200-0000-7000-8000-000000000006".to_owned(),
            created_at: "2026-07-09T00:00:00.000Z".to_owned(),
            resolved_at: "2026-07-09T00:00:00.010Z".to_owned(),
            completed_at: "2026-07-09T00:00:00.020Z".to_owned(),
        }
    }
}

/// The selector of the actions that can play a preset behavior's outcome.
pub open spec fn spec_preset_behavior_action_selector(preset_behavior_id: Seq<char>, outcome: Seq<char>) -> Seq<char> {
    preset_behavior_id + "."@ + outcome
}

/// The selector of the actions that can play a preset behavior's outcome.
pub fn preset_behavior_action_selector(event: &NativePetPresetBehaviorEvent) -> (r: String)
    ensures
        r@ == spec_preset_behavior_action_selector(event.preset_behavior_id@, event.outcome@),
{
    concat3(event.preset_behavior_id.as_str(), ".", event.outcome.as_str())
}

/// Where a preset behavior's plan came from: its kind, its id, and its interaction when there
/// is one.
pub open spec fn spec_preset_behavior_source_ref(preset_behavior_id: Seq<char>, interaction_id: Option<Seq<char>>) -> JsonView {
    match interaction_id {
        Some(i) => JsonView::Object(
            seq![
                ("kind"@, JsonView::Str("presetBehavior"@)),
                ("presetBehaviorId"@, JsonView::Str(preset_behavior_id)),
                ("interactionId"@, JsonView::Str(i)),
            ],
        ),
        None => JsonView::Object(
            seq![("kind"@, JsonView::Str("presetBehavior"@)), ("presetBehaviorId"@, JsonView::Str(preset_behavior_id))],
        ),
    }
}

/// Where a preset behavior's plan came from.
pub fn preset_behavior_source_ref(event: &NativePetPresetBehaviorEvent) -> (r: JsonValue)
    ensures
        r@ == spec_preset_behavior_source_ref(event.preset_behavior_id@, opt_string_view(event.interaction_id)),
{
    let mut members: Vec<(String, JsonValue)> = Vec::new();
    members.push(("kind".to_owned(), JsonValue::Str("presetBehavior".to_owned())));
    members.push(("presetBehaviorId".to_owned(), JsonValue::Str(event.preset_behavior_id.clone())));
    if let Some(interaction_id) = &event.interaction_id {
        members.push(("interactionId".to_owned(), JsonValue::Str(interaction_id.clone())));
    }
    let r = JsonValue::Object(members);
    proof {
        let v = crate::json::json_view(r)->Object_0;
        let want = spec_preset_behavior_source_ref(event.preset_behavior_id@, opt_string_view(event.interaction_id))->Object_0;
        assert(v.len() == want.len());
        assert forall|i: int| 0 <= i < v.len() implies v[i] == want[i] by {
            assert(v[i] == (members@[i].0@, crate::json::json_view(members@[i].1)));
        }
        assert(v =~= want);
    }
    r
}

/// The play action that replays a preset behavior: the resolved action once, with `idle` as
/// its fallback.
pub open spec fn spec_preset_behavior_step(action_id: Seq<char>, step_id: Seq<char>) -> PlayActionStepView {
    PlayActionStepView {
        step_id,
        kind: "playAction"@,
        action_id,
        fallback_action_id: Some("idle"@),
        expected_playback: "once"@,
        duration_ms: None,
        pending_handoff_finalizer_step_id: None,
        completion_behavior: SidecarPlayActionCompletionBehavior::RestoreIdle,
        timeout_ms: 5_000,
    }
}

/// Compiles a preset behavior to the play action that replays it: the action that answers the
/// behavior's selector and plays its animation.
pub fn compile_native_pet_preset_behavior_timeline_step(
    registry: &ActionRegistry,
    event: &NativePetPresetBehaviorEvent,
    context: &NativePetPresetBehaviorLogContext,
    resolve_context: &ResolveContext,
) -> (r: BuddyResult<TimelineStep>)
    ensures
        match spec_resolve_action_for_animation(
            registry@,
            spec_preset_behavior_action_selector(event.preset_behavior_id@, event.outcome@),
            event.animation@,
        ) {
            Ok(resolution) => r is Ok && r->Ok_0@ == TimelineStepView::PlayAction(
                spec_preset_behavior_step(resolution.action_id, context.step_id@),
            ),
            Err(e) => r is Err && r->Err_0@ == e,
        },
{
    let selector = preset_behavior_action_selector(event);
    let resolution = match registry.resolve_action_for_animation(selector.as_str(), event.animation.as_str(), resolve_context) {
        Ok(r) => r,
        Err(e) => return Err(e),
    };
    let mut step = PlayActionStep::once(context.step_id.as_str(), resolution.action_id.as_str(), 5_000);
    step.fallback_action_id = Some("idle".to_owned());
    Ok(TimelineStep::PlayAction(step))
}

/// Compiles a preset behavior to a one-step timeline plan that aborts on failure.
pub fn compile_native_pet_preset_behavior_timeline_plan(
    registry: &ActionRegistry,
    event: &NativePetPresetBehaviorEvent,
    context: &NativePetPresetBehaviorLogContext,
    resolve_context: &ResolveContext,
) -> (r: BuddyResult<TimelinePlan>)
    ensures
        match spec_resolve_action_for_animation(
            registry@,
            spec_preset_behavior_action_selector(event.preset_behavior_id@, event.outcome@),
            event.animation@,
        ) {
            Ok(resolution) => r is Ok && r->Ok_0.plan_id@ == context.plan_id@ && r->Ok_0.source_ref@
                == spec_preset_behavior_source_ref(event.preset_behavior_id@, opt_string_view(event.interaction_id))
                && r->Ok_0.failure_policy == TimelineFailurePolicy::Abort && steps_view(r->Ok_0.steps@) == seq![
                TimelineStepView::PlayAction(spec_preset_behavior_step(resolution.action_id, context.step_id@)),
            ] && r->Ok_0.created_at@ == context.created_at@,
            Err(e) => r is Err && r->Err_0@ == e,
        },
{
    let step = match compile_native_pet_preset_behavior_timeline_step(registry, event, context, resolve_context) {
        Ok(s) => s,
        Err(e) => return Err(e),
    };
    let mut steps: Vec<TimelineStep> = Vec::new();
    steps.push(step);
    proof {
        lemma_steps_view(steps@);
        assert(steps_view(steps@) =~= seq![crate::timeline::step_view(steps@[0])]);
    }
    Ok(TimelinePlan {
        plan_id: context.plan_id.clone(),
        source_ref: preset_behavior_source_ref(event),
        failure_policy: TimelineFailurePolicy::Abort,
        steps,
        created_at: context.created_at.clone(),
    })
}

/// What the log records when a preset behavior's plan starts: its source, the behavior, its
/// outcome, the selector and the action it replays.
pub open spec fn spec_preset_started_payload(
    source_ref: JsonView,
    preset_behavior_id: Seq<char>,
    outcome: Seq<char>,
    selector: Seq<char>,
    action_id: Seq<char>,
) -> JsonView {
    JsonView::Object(
        Seq::empty().push(("sourceRef"@, source_ref)).push(("presetBehaviorId"@, JsonView::Str(preset_behavior_id))).push(
            ("outcome"@, JsonView::Str(outcome)),
        ).push(("actionSelector"@, JsonView::Str(selector))).push(("actionId"@, JsonView::Str(action_id))),
    )
}

/// What the log records when a preset behavior's step resolved: the resolution, the step, the
/// selector and the outcome.
pub open spec fn spec_preset_resolved_payload(
    resolution: ResolutionView,
    step: PlayActionStepView,
    selector: Seq<char>,
    outcome: Seq<char>,
) -> JsonView {
    JsonView::Object(
        Seq::empty().push(("resolution"@, spec_resolution_json(resolution))).push(
            ("timelineStep"@, spec_play_action_step_json(step)),
        ).push(("actionSelector"@, JsonView::Str(selector))).push(("outcome"@, JsonView::Str(outcome))),
    )
}

/// What the log records when a preset behavior's step completed: the action, its animation,
/// the time it took (the action's duration) and the outcome.
pub open spec fn spec_preset_step_completed_payload(resolution: ResolutionView, outcome: Seq<char>) -> JsonView {
    JsonView::Object(
        Seq::empty().push(("actionId"@, JsonView::Str(resolution.action_id))).push(
            ("animationRef"@, JsonView::Str(resolution.animation_ref)),
        ).push(("elapsedMs"@, num(resolution.duration_ms))).push(("outcome"@, JsonView::Str(outcome))),
    )
}

/// What the log records when a preset behavior's plan completed: one step, in the action's
/// duration.
pub open spec fn spec_preset_completed_payload(resolution: ResolutionView, outcome: Seq<char>) -> JsonView {
    JsonView::Object(
        Seq::empty().push(("status"@, JsonView::Str("completed"@))).push(("completedStepCount"@, num(1))).push(
            ("durationMs"@, num(resolution.duration_ms)),
        ).push(("outcome"@, JsonView::Str(outcome))),
    )
}

fn preset_event(
    event_id: &str,
    event_type: &str,
    status: &str,
    reason_code: &str,
    plan_id: &str,
    step_id: Option<&str>,
    source_ref: &JsonValue,
    payload: JsonValue,
    created_at: &str,
) -> (r: ActionLogEvent)
    ensures
        r@ == spec_log_event(
            event_id@,
            plan_id@,
            match step_id {
                Some(s) => Some(s@),
                None => None,
            },
            event_type@,
            status@,
            reason_code@,
            source_ref@,
            "presetBehavior"@,
            payload@,
            created_at@,
        ),
{
    let step_id = match step_id {
        Some(s) => Some(s.to_owned()),
        None => None,
    };
    ActionLogEvent {
        event_id: event_id.to_owned(),
        schema_version: 1,
        event_type: event_type.to_owned(),
        status: status.to_owned(),
        reason_code: reason_code.to_owned(),
        plan_id: plan_id.to_owned(),
        step_id,
        source_ref: source_ref.duplicate(),
        trigger_source: "presetBehavior".to_owned(),
        payload,
        created_at: created_at.to_owned(),
    }
}

/// The four events that record a preset behavior the pet played on its own: its plan started,
/// its one step resolved and completed, and its plan completed.
pub fn preset_behavior_action_log_events(
    event: &NativePetPresetBehaviorEvent,
    context: &NativePetPresetBehaviorLogContext,
    source_ref: &JsonValue,
    step: &PlayActionStep,
    resolution: &StepResolution,
) -> (r: Vec<ActionLogEvent>)
    ensures
        r@.len() == 4,
        r@[0]@ == spec_log_event(
            context.plan_started_event_id@,
            context.plan_id@,
            None,
            "plan.started"@,
            "started"@,
            "presetBehavior.started"@,
            source_ref@,
            "presetBehavior"@,
            spec_preset_started_payload(
                source_ref@,
                event.preset_behavior_id@,
                event.outcome@,
                spec_preset_behavior_action_selector(event.preset_behavior_id@, event.outcome@),
                step.action_id@,
            ),
            context.created_at@,
        ),
        r@[1]@ == spec_log_event(
            context.step_resolved_event_id@,
            context.plan_id@,
            Some(context.step_id@),
            "step.resolved"@,
            "resolved"@,
            "presetBehavior.resolved"@,
            source_ref@,
            "presetBehavior"@,
            spec_preset_resolved_payload(
                resolution@,
                step@,
                spec_preset_behavior_action_selector(event.preset_behavior_id@, event.outcome@),
                event.outcome@,
            ),
            context.resolved_at@,
        ),
        r@[2]@ == spec_log_event(
            context.step_completed_event_id@,
            context.plan_id@,
            Some(context.step_id@),
            "step.completed"@,
            "completed"@,
            "presetBehavior.stepCompleted"@,
            source_ref@,
            "presetBehavior"@,
            spec_preset_step_completed_payload(resolution@, event.outcome@),
            context.completed_at@,
        ),
        r@[3]@ == spec_log_event(
            context.plan_completed_event_id@,
            context.plan_id@,
            None,
            "plan.completed"@,
            "completed"@,
            "presetBehavior.completed"@,
            source_ref@,
            "presetBehavior"@,
            spec_preset_completed_payload(resolution@, event.outcome@),
            context.completed_at@,
        ),
{
    let selector = preset_behavior_action_selector(event);
    let mut started = Vec::new();
    assert(members_view(started@) =~= Seq::empty());
    push_member(&mut started, "sourceRef", source_ref.duplicate());
    push_member(&mut started, "presetBehaviorId", json_str(event.preset_behavior_id.as_str()));
    push_member(&mut started, "outcome", json_str(event.outcome.as_str()));
    push_member(&mut started, "actionSelector", json_str(selector.as_str()));
    push_member(&mut started, "actionId", json_str(step.action_id.as_str()));
    let mut resolved = Vec::new();
    assert(members_view(resolved@) =~= Seq::empty());
    push_member(&mut resolved, "resolution", resolution_json(resolution));
    push_member(&mut resolved, "timelineStep", play_action_step_json(step));
    push_member(&mut resolved, "actionSelector", json_str(selector.as_str()));
    push_member(&mut resolved, "outcome", json_str(event.outcome.as_str()));
    let mut step_completed = Vec::new();
    assert(members_view(step_completed@) =~= Seq::empty());
    push_member(&mut step_completed, "actionId", json_str(resolution.action_id.as_str()));
    push_member(&mut step_completed, "animationRef", json_str(resolution.animation_ref.as_str()));
    push_member(&mut step_completed, "elapsedMs", json_u64(resolution.duration_ms));
    push_member(&mut step_completed, "outcome", json_str(event.outcome.as_str()));
    let mut completed = Vec::new();
    assert(members_view(completed@) =~= Seq::empty());
    push_member(&mut completed, "status", json_str("completed"));
    push_member(&mut completed, "completedStepCount", json_u64(1));
    push_member(&mut completed, "durationMs", json_u64(resolution.duration_ms));
    push_member(&mut completed, "outcome", json_str(event.outcome.as_str()));
    let mut events: Vec<ActionLogEvent> = Vec::new();
    events.push(
        preset_event(
            context.plan_started_event_id.as_str(),
            "plan.started",
            "started",
            "presetBehavior.started",
            context.plan_id.as_str(),
            None,
            source_ref,
            json_object(started),
            context.created_at.as_str(),
        ),
    );
    events.push(
        preset_event(
            context.step_resolved_event_id.as_str(),
            "step.resolved",
            "resolved",
            "presetBehavior.resolved",
            context.plan_id.as_str(),
            Some(context.step_id.as_str()),
            source_ref,
            json_object(resolved),
            context.resolved_at.as_str(),
        ),
    );
    events.push(
        preset_event(
            context.step_completed_event_id.as_str(),
            "step.completed",
            "completed",
            "presetBehavior.stepCompleted",
            context.plan_id.as_str(),
            Some(context.step_id.as_str()),
            source_ref,
            json_object(step_completed),
            context.completed_at.as_str(),
        ),
    );
    events.push(
        preset_event(
            context.plan_completed_event_id.as_str(),
            "plan.completed",
            "completed",
            "presetBehavior.completed",
            context.plan_id.as_str(),
            None,
            source_ref,
            json_object(completed),
            context.completed_at.as_str(),
        ),
    );
    events
}

/// Records a preset behavior the pet played on its own: its one-step plan is compiled, its
/// action resolved, and its four events written in order; the first failure stops and is
/// returned. A behavior whose action cannot be found writes nothing.
#[verifier::loop_isolation(false)]
pub fn append_native_pet_preset_behavior_action_log<L: ActionLogSink>(
    log: &mut L,
    registry: &ActionRegistry,
    event: &NativePetPresetBehaviorEvent,
    context: &NativePetPresetBehaviorLogContext,
) -> (r: BuddyResult<()>)
    ensures
        final(log).keeps_record() == old(log).keeps_record(),
        old(log).keeps_record() ==> crate::action_log::log_kept(old(log).requested_events(), final(log).requested_events()),
        match spec_resolve_action_for_animation(
            registry@,
            spec_preset_behavior_action_selector(event.preset_behavior_id@, event.outcome@),
            event.animation@,
        ) {
            Err(e) => r matches Err(x) && x@ == e,
            Ok(found) => spec_resolve_play_action(registry@, found.action_id) matches Err(e) ==> r matches Err(x)
                && x@ == e,
        },
{
    let resolve_context = ResolveContext::default();
    let plan = match compile_native_pet_preset_behavior_timeline_plan(registry, event, context, &resolve_context) {
        Ok(p) => p,
        Err(e) => return Err(e),
    };
    proof {
        lemma_steps_view(plan.steps@);
        assert(steps_view(plan.steps@)[0] == crate::timeline::step_view(plan.steps@[0]));
    }
    if plan.steps.len() == 0 {
        return Err(BuddyError::Runtime("preset behavior compiled to empty timeline plan".to_owned()));
    }
    let step = match &plan.steps[0] {
        TimelineStep::PlayAction(s) => s,
        _ => return Err(BuddyError::Runtime("preset behavior compiled to non-playAction timeline step".to_owned())),
    };
    let resolution = match registry.resolve_play_action(step.action_id.as_str(), &resolve_context) {
        Ok(r) => r,
        Err(e) => return Err(e),
    };
    let events = preset_behavior_action_log_events(event, context, &plan.source_ref, step, &resolution);
    let mut i: usize = 0;
    while i < events.len()
        invariant
            i <= events@.len(),
            log.keeps_record() == old(log).keeps_record(),
            old(log).keeps_record() ==> crate::action_log::log_kept(old(log).requested_events(), log.requested_events()),
        decreases events@.len() - i,
    {
        match log.append_event(&events[i]) {
            Ok(_) => {},
            Err(e) => return Err(e),
        }
        i = i + 1;
    }
    Ok(())
}

} // verus!
