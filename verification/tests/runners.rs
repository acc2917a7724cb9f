use std::cell::RefCell;
use std::rc::Rc;

use buddy_choreography::action_log::{
    ActionLogEvent, ActionLogSink, ActionLogSystemEvent, MemoryActionLog, RuntimeSafeFallbackPlan,
};
use buddy_choreography::admission::{
    ChoreographyAdmissionDecision, ChoreographyAdmissionRelease, ChoreographyAdmissionRequest,
    ChoreographyAdmissionState, ChoreographyTriggerSource,
};
use buddy_choreography::admitted_exec::{execute_admitted_timeline_plan, AdmittedExecutionHooks};
use buddy_choreography::admitted_run::{
    admit_timeline_plan_with_pending_queue, PendingExecutionStore, PendingTimelineExecutionQueue,
    TimelineAdmissionExecutionRequest,
};
use buddy_choreography::error::{BuddyError, BuddyResult};
use buddy_choreography::execution_context::{
    DevFixtureAdmissionExecutionRequest, DevFixtureExecutionContext, DevFixtureKind, MacroIntentExecutionContext,
    PendingDevFixtureExecutionQueue, TimelineExecutionContext,
};
use buddy_choreography::fixture::DevFixturePlan;
use buddy_choreography::fixture_run::DevFixtureExecutionError;
use buddy_choreography::json::JsonValue;
use buddy_choreography::macro_plan::{AwaitApprovalMacroParams, CelebrateMacroParams, MacroIntent};
use buddy_choreography::macro_run::{
    create_timeline_plan_from_macro_intent, execute_macro_intent_with_admission, MacroIntentExecutionRequest,
    MacroIntentRecovery,
};
use buddy_choreography::plan_run::{StepCompletionDecision, TimelineExecutionError};
use buddy_choreography::recovery_run::{
    RuntimeSafeFallbackExecutionError, RuntimeSafeFallbackPlanContext, RuntimeSafeFallbackPlanner,
    RuntimeSafeFallbackRecovery,
};
use buddy_choreography::registry::{ActionDefinition, ActionRegistry, ResolveContext, StepResolution};
use buddy_choreography::step_execution::ChoreographyStepExecutor;
use buddy_choreography::step_protocol::SidecarInterruptPolicy;
use buddy_choreography::timeline::{
    MoveByPathStep, MoveToStep, PlayActionStep, TimelineFailurePolicy, TimelinePlan, TimelineStep, WaitStep,
};

type Journal = Rc<RefCell<Vec<String>>>;

struct RecordingLog {
    journal: Journal,
    events: Vec<ActionLogEvent>,
}

impl RecordingLog {
    fn new(journal: &Journal) -> Self {
        RecordingLog { journal: journal.clone(), events: Vec::new() }
    }

    fn event_types_for(&self, plan_id: &str) -> Vec<String> {
        self.events.iter().filter(|e| e.plan_id == plan_id).map(|e| e.event_type.clone()).collect()
    }
}

impl ActionLogSink for RecordingLog {
    fn append_event(&mut self, event: &ActionLogEvent) -> BuddyResult<()> {
        self.journal.borrow_mut().push(format!("event:{}:{}", event.event_type, event.plan_id));
        self.events.push(ActionLogEvent {
            event_id: event.event_id.clone(),
            schema_version: event.schema_version,
            event_type: event.event_type.clone(),
            status: event.status.clone(),
            reason_code: event.reason_code.clone(),
            plan_id: event.plan_id.clone(),
            step_id: event.step_id.clone(),
            source_ref: event.source_ref.duplicate(),
            trigger_source: event.trigger_source.clone(),
            payload: event.payload.duplicate(),
            created_at: event.created_at.clone(),
        });
        Ok(())
    }

    fn append_system_event(&mut self, event: &ActionLogSystemEvent) -> BuddyResult<()> {
        self.journal.borrow_mut().push(format!("system:{}", event.event_type));
        Ok(())
    }
}

struct RecordingStore {
    journal: Journal,
    bodies: Vec<String>,
    fail: bool,
}

impl RecordingStore {
    fn new(journal: &Journal) -> Self {
        RecordingStore { journal: journal.clone(), bodies: Vec::new(), fail: false }
    }

    fn store(&mut self, plan_id: &str) -> BuddyResult<()> {
        if self.fail {
            return Err(BuddyError::Runtime("pending body store unavailable".to_owned()));
        }
        self.journal.borrow_mut().push(format!("stored:{plan_id}"));
        self.bodies.retain(|id| id != plan_id);
        self.bodies.push(plan_id.to_owned());
        Ok(())
    }
}

impl PendingExecutionStore for RecordingStore {
    fn persist_dev_fixture(&mut self, request: &DevFixtureAdmissionExecutionRequest) -> BuddyResult<()> {
        self.store(request.context.plan_id.as_str())
    }

    fn persist_timeline(&mut self, request: &TimelineAdmissionExecutionRequest) -> BuddyResult<()> {
        self.store(request.plan.plan_id.as_str())
    }

    fn delete_pending_body(&mut self, plan_id: &str) -> BuddyResult<()> {
        self.bodies.retain(|id| id != plan_id);
        Ok(())
    }
}

struct ScriptedExecutor {
    failing_action: Option<String>,
    interrupt_fails: bool,
    played: RefCell<Vec<String>>,
}

impl ScriptedExecutor {
    fn ok() -> Self {
        ScriptedExecutor { failing_action: None, interrupt_fails: false, played: RefCell::new(Vec::new()) }
    }
}

impl ChoreographyStepExecutor for ScriptedExecutor {
    fn play_action_step(&self, _step: &PlayActionStep, resolution: &StepResolution) -> BuddyResult<()> {
        self.played.borrow_mut().push(resolution.action_id.clone());
        if self.failing_action.as_deref() == Some(resolution.action_id.as_str()) {
            return Err(BuddyError::Runtime("native pet step failed".to_owned()));
        }
        Ok(())
    }

    fn move_to_step(&self, _step: &MoveToStep, _after_animation_ref: Option<&str>) -> BuddyResult<()> {
        Ok(())
    }

    fn move_by_path_step(&self, _step: &MoveByPathStep, _after_animation_ref: Option<&str>) -> BuddyResult<()> {
        Ok(())
    }

    fn wait_step(&self, _step: &WaitStep) -> BuddyResult<()> {
        Ok(())
    }

    fn interrupt_step(&self, _step_id: &str, _reason_code: &str) -> BuddyResult<()> {
        if self.interrupt_fails {
            return Err(BuddyError::Runtime("interrupt failed".to_owned()));
        }
        Ok(())
    }

    fn query_state_position(&self) -> BuddyResult<Option<(i32, i32)>> {
        Ok(None)
    }
}

struct EmptyRecoveryPlanner;

impl RuntimeSafeFallbackPlanner for EmptyRecoveryPlanner {
    fn create_runtime_safe_fallback_plan(&self, context: &RuntimeSafeFallbackPlanContext) -> RuntimeSafeFallbackPlan {
        RuntimeSafeFallbackPlan {
            plan_id: context.plan_id.to_owned(),
            source_ref: JsonValue::Object(vec![(
                "kind".to_owned(),
                JsonValue::Str("runtimeSafeFallback".to_owned()),
            )]),
            posture: "rest".to_owned(),
            steps: vec![],
            created_at: context.created_at.to_owned(),
        }
    }
}

fn definition(action_id: &str, interrupt_policy: SidecarInterruptPolicy) -> ActionDefinition {
    ActionDefinition {
        action_id: action_id.to_owned(),
        selector: None,
        animation_ref: action_id.to_owned(),
        playback_kind: "once".to_owned(),
        duration_ms: 1_000,
        clip_duration_ms: 1_000,
        loop_animation: false,
        interrupt_policy,
    }
}

fn registry() -> ActionRegistry {
    let finish = SidecarInterruptPolicy::FinishStep;
    let interruptible = SidecarInterruptPolicy::Interruptible;
    ActionRegistry {
        actions: vec![
            definition("approval", finish),
            definition("thinking", finish),
            definition("curious", finish),
            definition("celebrate", finish),
            definition("reassure", finish),
            definition("explain", interruptible),
            definition("idle", interruptible),
        ],
    }
}

fn empty_plan(plan_id: &str) -> TimelinePlan {
    TimelinePlan {
        plan_id: plan_id.to_owned(),
        source_ref: JsonValue::Object(vec![("kind".to_owned(), JsonValue::Str("test".to_owned()))]),
        failure_policy: TimelineFailurePolicy::Abort,
        steps: vec![],
        created_at: "2026-07-16T00:00:00.000Z".to_owned(),
    }
}

fn active_admission(step_policy: SidecarInterruptPolicy) -> ChoreographyAdmissionState {
    let mut admission = ChoreographyAdmissionState::new();
    let decision = admission.admit_request(
        ChoreographyAdmissionRequest::new("plan_active", ChoreographyTriggerSource::AiChoreography)
            .with_active_step("step_active", step_policy),
    );
    assert!(matches!(decision, ChoreographyAdmissionDecision::Accepted { .. }));
    admission
}

#[test]
fn taking_pending_execution_requests_keeps_bodies_until_admission_is_recorded() {
    let journal: Journal = Rc::new(RefCell::new(Vec::new()));
    let mut store = RecordingStore::new(&journal);
    let timeline_plan_id = "plan_pending_timeline_handoff";
    let timeline_request = TimelineAdmissionExecutionRequest {
        plan: empty_plan(timeline_plan_id),
        context: TimelineExecutionContext::fixed_for_test(),
        resolve_context: ResolveContext::default(),
        trigger_source: ChoreographyTriggerSource::AiChoreography,
    };
    let mut timeline_queue = PendingTimelineExecutionQueue::new();
    timeline_queue.enqueue(&mut store, timeline_request).expect("enqueue timeline request");

    assert!(timeline_queue.take(timeline_plan_id).is_some());
    assert!(store.bodies.iter().any(|id| id == timeline_plan_id));

    let fixture_context = DevFixtureExecutionContext::fixed_for_test();
    let fixture_plan_id = fixture_context.plan_id.clone();
    let fixture_request = DevFixtureAdmissionExecutionRequest::new(
        fixture_context,
        ResolveContext::default(),
        DevFixtureKind::AiMacroDemo,
        ChoreographyTriggerSource::UserRequested,
    );
    let mut fixture_queue = PendingDevFixtureExecutionQueue::new();
    fixture_queue.enqueue(&mut store, fixture_request).expect("enqueue fixture request");

    assert!(fixture_queue.take(fixture_plan_id.as_str()).is_some());
    assert!(store.bodies.iter().any(|id| *id == fixture_plan_id));
}

#[test]
fn enqueue_leaves_the_queue_unchanged_when_the_body_cannot_be_stored() {
    let journal: Journal = Rc::new(RefCell::new(Vec::new()));
    let mut store = RecordingStore::new(&journal);
    store.fail = true;
    let mut queue = PendingTimelineExecutionQueue::new();
    let request = TimelineAdmissionExecutionRequest {
        plan: empty_plan("plan_unstored"),
        context: TimelineExecutionContext::fixed_for_test(),
        resolve_context: ResolveContext::default(),
        trigger_source: ChoreographyTriggerSource::AiChoreography,
    };

    let error = queue.enqueue(&mut store, request).expect_err("store fails");

    assert_eq!(error, BuddyError::Runtime("pending body store unavailable".to_owned()));
    assert!(queue.plan_ids().is_empty());
}

#[test]
fn enqueue_replaces_an_earlier_run_of_the_same_plan() {
    let journal: Journal = Rc::new(RefCell::new(Vec::new()));
    let mut store = RecordingStore::new(&journal);
    let mut queue = PendingTimelineExecutionQueue::new();
    for plan_id in ["plan_a", "plan_b", "plan_a"] {
        let request = TimelineAdmissionExecutionRequest {
            plan: empty_plan(plan_id),
            context: TimelineExecutionContext::fixed_for_test(),
            resolve_context: ResolveContext::default(),
            trigger_source: ChoreographyTriggerSource::AiChoreography,
        };
        queue.enqueue(&mut store, request).expect("enqueue");
    }

    assert_eq!(queue.plan_ids(), vec!["plan_b".to_owned(), "plan_a".to_owned()]);
}

#[test]
fn deferred_admission_is_recorded_after_its_replayable_body() {
    let journal: Journal = Rc::new(RefCell::new(Vec::new()));
    let mut log = RecordingLog::new(&journal);
    let mut store = RecordingStore::new(&journal);
    let mut admission = active_admission(SidecarInterruptPolicy::FinishStep);
    let plan_id = "plan_pending_body_write_ahead_deferred";
    let request = TimelineAdmissionExecutionRequest {
        plan: empty_plan(plan_id),
        context: TimelineExecutionContext::fixed_for_test(),
        resolve_context: ResolveContext::default(),
        trigger_source: ChoreographyTriggerSource::UserRequested,
    };
    let mut pending_queue = PendingTimelineExecutionQueue::new();

    let scheduled = admit_timeline_plan_with_pending_queue(
        &mut log,
        &mut store,
        &mut admission,
        &mut pending_queue,
        Some(&registry()),
        request,
    )
    .expect("defer timeline request");
    assert!(scheduled.execution.is_none());
    assert!(pending_queue.contains(plan_id));

    let records = journal.borrow();
    let stored_index =
        records.iter().position(|r| *r == format!("stored:{plan_id}")).expect("pending body stored");
    let deferred_index = records
        .iter()
        .position(|r| *r == format!("event:executor.deferred:{plan_id}"))
        .expect("deferred admission event");
    assert!(stored_index < deferred_index);
}

#[derive(Default)]
struct CountingHooks {
    failure_release_calls: u32,
    normal_release_calls: u32,
    recovery_calls: u32,
}

impl AdmittedExecutionHooks for CountingHooks {
    fn refresh_active_step(
        &mut self,
        _plan_id: &str,
        _step: &TimelineStep,
        _interrupt_policy: SidecarInterruptPolicy,
    ) -> BuddyResult<()> {
        Ok(())
    }

    fn after_completed_step(&mut self, _plan_id: &str, _step: &TimelineStep) -> BuddyResult<StepCompletionDecision> {
        Ok(StepCompletionDecision::Continue)
    }

    fn release_failed_plan(&mut self, plan_id: &str) -> BuddyResult<ChoreographyAdmissionRelease> {
        self.failure_release_calls += 1;
        Ok(ChoreographyAdmissionRelease::Released { plan_id: plan_id.to_owned() })
    }

    fn release_plan(&mut self, plan_id: &str) -> BuddyResult<ChoreographyAdmissionRelease> {
        self.normal_release_calls += 1;
        Ok(ChoreographyAdmissionRelease::Released { plan_id: plan_id.to_owned() })
    }

    fn timeline_failed<L: ActionLogSink>(
        &mut self,
        _log: &mut L,
        _plan: &TimelinePlan,
        _failed_step_id: &str,
        _error: &BuddyError,
        _resolve_context: &ResolveContext,
    ) -> BuddyResult<()> {
        self.recovery_calls += 1;
        Ok(())
    }

    fn dev_fixture_failed<L: ActionLogSink>(
        &mut self,
        _log: &mut L,
        _plan: &DevFixturePlan,
        _failed_step_id: &str,
        _error: &BuddyError,
        _resolve_context: &ResolveContext,
    ) -> BuddyResult<()> {
        self.recovery_calls += 1;
        Ok(())
    }
}

#[test]
fn preempt_interrupt_failure_records_plan_failure_and_uses_failure_recovery() {
    let journal: Journal = Rc::new(RefCell::new(Vec::new()));
    let mut log = RecordingLog::new(&journal);
    let mut store = RecordingStore::new(&journal);
    let mut admission = active_admission(SidecarInterruptPolicy::Interruptible);
    let plan_id = "plan_preempt_interrupt_failure";
    let mut plan = empty_plan(plan_id);
    plan.steps = vec![TimelineStep::Wait(WaitStep::new("step_preempt_interrupt_failure", 1, 10))];
    let mut pending_queue = PendingTimelineExecutionQueue::new();
    let scheduled = admit_timeline_plan_with_pending_queue(
        &mut log,
        &mut store,
        &mut admission,
        &mut pending_queue,
        Some(&registry()),
        TimelineAdmissionExecutionRequest {
            plan,
            context: TimelineExecutionContext::fixed_for_test(),
            resolve_context: ResolveContext::default(),
            trigger_source: ChoreographyTriggerSource::UserRequested,
        },
    )
    .expect("admit preempting plan");
    let execution = scheduled.execution.expect("preempting plan executes");
    let executor = ScriptedExecutor { interrupt_fails: true, ..ScriptedExecutor::ok() };
    let mut hooks = CountingHooks::default();

    let result = execute_admitted_timeline_plan(&executor, &mut log, &mut hooks, &registry(), execution);

    assert!(result.is_err());
    assert_eq!(hooks.failure_release_calls, 1);
    assert_eq!(hooks.normal_release_calls, 0);
    assert_eq!(hooks.recovery_calls, 1);
    assert_eq!(log.event_types_for(plan_id).last().map(String::as_str), Some("plan.failed"));
}

#[test]
fn admitted_plan_that_completes_gives_its_slot_back_once() {
    let journal: Journal = Rc::new(RefCell::new(Vec::new()));
    let mut log = RecordingLog::new(&journal);
    let mut store = RecordingStore::new(&journal);
    let mut admission = ChoreographyAdmissionState::new();
    let plan_id = "plan_admitted_completes";
    let mut plan = empty_plan(plan_id);
    plan.steps = vec![TimelineStep::Wait(WaitStep::new("step_wait", 1, 10))];
    let mut pending_queue = PendingTimelineExecutionQueue::new();
    let scheduled = admit_timeline_plan_with_pending_queue(
        &mut log,
        &mut store,
        &mut admission,
        &mut pending_queue,
        Some(&registry()),
        TimelineAdmissionExecutionRequest {
            plan,
            context: TimelineExecutionContext::fixed_for_test(),
            resolve_context: ResolveContext::default(),
            trigger_source: ChoreographyTriggerSource::UserRequested,
        },
    )
    .expect("admit plan");
    let execution = scheduled.execution.expect("accepted plan executes");
    let mut hooks = CountingHooks::default();

    let done = execute_admitted_timeline_plan(&ScriptedExecutor::ok(), &mut log, &mut hooks, &registry(), execution)
        .expect("plan completes");

    assert_eq!(done.report.plan_id, plan_id);
    assert!(done.report.executed);
    assert_eq!(hooks.failure_release_calls, 0);
    assert_eq!(hooks.normal_release_calls, 1);
    assert_eq!(hooks.recovery_calls, 0);
    assert_eq!(log.event_types_for(plan_id).last().map(String::as_str), Some("plan.completed"));
}

#[test]
fn macro_intent_compiles_to_an_aborting_timeline_plan_with_the_run_ids() {
    let context = MacroIntentExecutionContext::fixed_for_test();
    let source_ref = JsonValue::Object(vec![("kind".to_owned(), JsonValue::Str("conversationMessage".to_owned()))]);

    let plan = create_timeline_plan_from_macro_intent(
        &MacroIntent::Celebrate(CelebrateMacroParams {}),
        &context,
        source_ref.duplicate(),
    )
    .expect("plan celebrate");

    assert_eq!(plan.plan_id, "plan_macro_019f4000-0000-7000-8000-000000000701");
    assert_eq!(plan.created_at, "2026-07-08T00:00:00.000Z");
    assert_eq!(plan.failure_policy, TimelineFailurePolicy::Abort);
    assert_eq!(plan.source_ref, source_ref);
    assert!(!plan.steps.is_empty());
}

#[test]
fn macro_runs_under_admission_and_reports_its_plan() {
    let journal: Journal = Rc::new(RefCell::new(Vec::new()));
    let mut log = RecordingLog::new(&journal);
    let mut store = RecordingStore::new(&journal);
    let mut admission = ChoreographyAdmissionState::new();
    let executor = ScriptedExecutor::ok();
    let registry = registry();
    let planner = EmptyRecoveryPlanner;
    let intent = MacroIntent::Celebrate(CelebrateMacroParams {});
    let mut recovery = MacroIntentRecovery {
        original_intent: &intent,
        trigger_source: ChoreographyTriggerSource::AiChoreography,
        fallback: RuntimeSafeFallbackRecovery::new(
            &executor,
            &planner,
            &registry,
            "2026-07-16T00:00:01.000Z",
            "2026-07-16T00:00:02.000Z",
            "2026-07-16T00:00:03.000Z",
        ),
        degradation: None,
    };
    let request = MacroIntentExecutionRequest {
        context: MacroIntentExecutionContext::fixed_for_test(),
        source_ref: JsonValue::Object(vec![("kind".to_owned(), JsonValue::Str("test".to_owned()))]),
        resolve_context: ResolveContext::default(),
        trigger_source: ChoreographyTriggerSource::AiChoreography,
    };

    let report = execute_macro_intent_with_admission(&mut log, &mut store, &mut admission, &mut recovery, &intent, request)
        .expect("macro runs");

    assert_eq!(report.plan_id, "plan_macro_019f4000-0000-7000-8000-000000000701");
    assert!(report.executed);
    assert_eq!(executor.played.borrow().as_slice(), ["celebrate".to_owned()]);
    assert!(recovery.degradation.is_none());
}

#[test]
fn failed_await_approval_macro_falls_back_to_thinking() {
    let journal: Journal = Rc::new(RefCell::new(Vec::new()));
    let mut log = RecordingLog::new(&journal);
    let mut store = RecordingStore::new(&journal);
    let mut admission = ChoreographyAdmissionState::new();
    let executor = ScriptedExecutor { failing_action: Some("approval".to_owned()), ..ScriptedExecutor::ok() };
    let registry = registry();
    let planner = EmptyRecoveryPlanner;
    let intent = MacroIntent::AwaitApproval(AwaitApprovalMacroParams {});
    let mut recovery = MacroIntentRecovery {
        original_intent: &intent,
        trigger_source: ChoreographyTriggerSource::AiChoreography,
        fallback: RuntimeSafeFallbackRecovery::new(
            &executor,
            &planner,
            &registry,
            "2026-07-16T00:00:01.000Z",
            "2026-07-16T00:00:02.000Z",
            "2026-07-16T00:00:03.000Z",
        ),
        degradation: None,
    };
    let request = MacroIntentExecutionRequest {
        context: MacroIntentExecutionContext::fixed_for_test(),
        source_ref: JsonValue::Object(vec![("kind".to_owned(), JsonValue::Str("test".to_owned()))]),
        resolve_context: ResolveContext::default(),
        trigger_source: ChoreographyTriggerSource::AiChoreography,
    };

    let error = execute_macro_intent_with_admission(&mut log, &mut store, &mut admission, &mut recovery, &intent, request)
        .expect_err("approval fails");

    assert!(matches!(error, TimelineExecutionError::Execution(BuddyError::Runtime(_))));
    assert_eq!(
        executor.played.borrow().as_slice(),
        ["approval".to_owned(), "thinking".to_owned()]
    );
    let fallback_started = log
        .events
        .iter()
        .find(|e| {
            e.event_type == "plan.started"
                && matches!(&e.source_ref, JsonValue::Object(members)
                    if members.iter().any(|(k, v)| k == "kind" && *v == JsonValue::Str("macroFallback".to_owned())))
        })
        .expect("fallback plan started");
    match &fallback_started.source_ref {
        JsonValue::Object(members) => {
            let member = |key: &str| members.iter().find(|(k, _)| k == key).map(|(_, v)| v.duplicate());
            assert_eq!(
                member("triggeredByPlanId"),
                Some(JsonValue::Str("plan_macro_019f4000-0000-7000-8000-000000000701".to_owned()))
            );
            assert_eq!(member("originalMacroId"), Some(JsonValue::Str("awaitApproval".to_owned())));
            assert_eq!(member("fallbackMacroId"), Some(JsonValue::Str("thinking".to_owned())));
        }
        other => panic!("expected an object, got {other:?}"),
    }
    assert!(admission.active_plan_id().is_none());
    assert!(recovery.degradation.is_none());
}

#[test]
fn run_errors_name_their_cause() {
    let error = || BuddyError::Runtime("native pet step failed".to_owned());
    assert_eq!(
        TimelineExecutionError::Execution(error()).message(),
        "timeline execution failed: buddy runtime failed: native pet step failed"
    );
    assert_eq!(
        TimelineExecutionError::ActionLog(error()).message(),
        "action log write failed: buddy runtime failed: native pet step failed"
    );
    assert_eq!(
        DevFixtureExecutionError::Execution(error()).message(),
        "fixture execution failed: buddy runtime failed: native pet step failed"
    );
    assert_eq!(
        RuntimeSafeFallbackExecutionError::Execution(error()).message(),
        "runtime safe fallback execution failed: buddy runtime failed: native pet step failed"
    );
}

#[test]
fn memory_log_holds_the_admission_decision_then_the_plan_start() {
    let journal: Journal = Rc::new(RefCell::new(Vec::new()));
    let mut log = MemoryActionLog::new();
    let mut store = RecordingStore::new(&journal);
    let mut admission = ChoreographyAdmissionState::new();
    let plan_id = "plan_memory_log";
    let mut plan = empty_plan(plan_id);
    plan.steps = vec![TimelineStep::Wait(WaitStep::new("step_wait", 1, 10))];
    let context = TimelineExecutionContext::fixed_for_test();
    let admission_event_id = context.admission_event_id.clone();
    let plan_started_event_id = context.plan_started_event_id.clone();
    let mut pending_queue = PendingTimelineExecutionQueue::new();
    let scheduled = admit_timeline_plan_with_pending_queue(
        &mut log,
        &mut store,
        &mut admission,
        &mut pending_queue,
        Some(&registry()),
        TimelineAdmissionExecutionRequest {
            plan,
            context,
            resolve_context: ResolveContext::default(),
            trigger_source: ChoreographyTriggerSource::UserRequested,
        },
    )
    .expect("admit plan");
    assert_eq!(log.events.len(), 1);
    let execution = scheduled.execution.expect("accepted plan executes");
    let mut hooks = CountingHooks::default();

    execute_admitted_timeline_plan(&ScriptedExecutor::ok(), &mut log, &mut hooks, &registry(), execution)
        .expect("plan completes");

    assert_eq!(log.events[0].event_id, admission_event_id);
    assert_eq!(log.events[0].plan_id, plan_id);
    assert_eq!(log.events[1].event_id, plan_started_event_id);
    assert_eq!(log.events[1].event_type, "plan.started");
    assert_eq!(log.events.last().map(|e| e.event_type.as_str()), Some("plan.completed"));
    assert!(log.system_events.is_empty());
}

#[test]
fn memory_log_holds_a_refused_step_as_resolved_then_failed() {
    let journal: Journal = Rc::new(RefCell::new(Vec::new()));
    let mut log = MemoryActionLog::new();
    let mut store = RecordingStore::new(&journal);
    let mut admission = ChoreographyAdmissionState::new();
    let plan_id = "plan_memory_log_failure";
    let mut plan = empty_plan(plan_id);
    plan.steps = vec![TimelineStep::PlayAction(PlayActionStep::once("step_curious", "curious", 5_000))];
    let context = TimelineExecutionContext::fixed_for_test();
    let resolved_id = context.step_resolved_event_id.clone();
    let failed_id = context.step_failed_event_id.clone();
    let plan_failed_id = context.plan_failed_event_id.clone();
    let mut pending_queue = PendingTimelineExecutionQueue::new();
    let scheduled = admit_timeline_plan_with_pending_queue(
        &mut log,
        &mut store,
        &mut admission,
        &mut pending_queue,
        Some(&registry()),
        TimelineAdmissionExecutionRequest {
            plan,
            context,
            resolve_context: ResolveContext::default(),
            trigger_source: ChoreographyTriggerSource::UserRequested,
        },
    )
    .expect("admit plan");
    let execution = scheduled.execution.expect("accepted plan executes");
    let mut hooks = CountingHooks::default();
    let executor = ScriptedExecutor {
        failing_action: Some("curious".to_owned()),
        interrupt_fails: false,
        played: RefCell::new(Vec::new()),
    };

    let result = execute_admitted_timeline_plan(&executor, &mut log, &mut hooks, &registry(), execution);

    assert!(matches!(result, Err(TimelineExecutionError::Execution(_))));
    let types: Vec<&str> = log.events.iter().map(|e| e.event_type.as_str()).collect();
    assert_eq!(types[1], "plan.started");
    assert_eq!(types[2], "step.resolved");
    assert!(log.events[2].event_id.starts_with(resolved_id.as_str()));
    assert_eq!(types[3], "step.failed");
    assert!(log.events[3].event_id.starts_with(failed_id.as_str()));
    assert!(log.events.iter().any(|e| e.event_id == plan_failed_id && e.status == "failed"));
}

#[test]
fn deferred_admission_is_not_logged_when_its_body_cannot_be_stored() {
    let journal: Journal = Rc::new(RefCell::new(Vec::new()));
    let mut log = RecordingLog::new(&journal);
    let mut store = RecordingStore::new(&journal);
    store.fail = true;
    let mut admission = active_admission(SidecarInterruptPolicy::FinishStep);
    let plan_id = "plan_pending_body_unstored";
    let request = TimelineAdmissionExecutionRequest {
        plan: empty_plan(plan_id),
        context: TimelineExecutionContext::fixed_for_test(),
        resolve_context: ResolveContext::default(),
        trigger_source: ChoreographyTriggerSource::UserRequested,
    };
    let mut pending_queue = PendingTimelineExecutionQueue::new();

    let result = admit_timeline_plan_with_pending_queue(
        &mut log,
        &mut store,
        &mut admission,
        &mut pending_queue,
        Some(&registry()),
        request,
    );

    assert!(matches!(result, Err(TimelineExecutionError::Execution(_))));
    assert!(log.events.is_empty());
    assert!(!pending_queue.contains(plan_id));
}
