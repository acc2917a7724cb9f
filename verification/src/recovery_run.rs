use vstd::prelude::*;

use crate::action_log::{
    executor_admission_decision_for_source, move_to_payload, move_to_resolved_payload,
    runtime_degraded_after_system_recovery_failed, step_event, system_recovery_plan_completed,
    system_recovery_plan_failed, system_recovery_plan_started, ActionLogEventIds, ActionLogEventView, ActionLogFamily,
    ActionLogSink, ActionLogSystemEventView, RuntimeSafeFallbackPlan,
};
use crate::admission::{
    spec_admit, ChoreographyAdmissionDecision, ChoreographyAdmissionRequest, ChoreographyAdmissionState, ChoreographyTriggerSource,
};
use crate::admitted_run::{interrupt_preempted_active_step, ExecutionFailureRecovery, PendingExecutionStore};
use crate::error::{spec_error_message, BuddyError, BuddyErrorView, BuddyResult};
use crate::execution_context::RuntimeSafeFallbackExecutionContext;
use crate::executor::{
    indexed_event_id, runtime_safe_fallback_reason_for_execution_error, should_execute_admission_decision,
    timeline_steps_active_step, ChoreographyRuntimeDegradation, RuntimeSafeFallbackReason, TimelineActiveStep,
};
use crate::fixture::DevFixturePlan;
use crate::registry::{ActionRegistry, ResolveContext};
use crate::step_execution::ChoreographyStepExecutor;
use crate::step_resolution::{resolve_move_to_after_action, spec_resolve_after_action, AfterActionResolution};
use crate::timeline::{TimelinePlan, TimelineStep, TimelineStepView};

verus! {

/// What a system recovery plan is made for: its ids, the plan and step whose failure it answers,
/// why, and when.
pub struct RuntimeSafeFallbackPlanContext<'a> {
    pub plan_id: &'a str,
    pub step_id: &'a str,
    pub triggered_by_plan_id: &'a str,
    pub triggered_by_step_id: Option<&'a str>,
    pub trigger_reason: RuntimeSafeFallbackReason,
    pub created_at: &'a str,
}

/// What makes the system recovery plan for a context. The plan it makes is the
/// implementation's own: nothing is claimed of it here.
pub trait RuntimeSafeFallbackPlanner {
    fn create_runtime_safe_fallback_plan(&self, context: &RuntimeSafeFallbackPlanContext) -> RuntimeSafeFallbackPlan;
}

/// The failure that asks for system recovery: the plan, the step when there was one, and why.
pub struct RuntimeSafeFallbackTrigger<'a> {
    pub triggered_by_plan_id: &'a str,
    pub triggered_by_step_id: Option<&'a str>,
    pub trigger_reason: RuntimeSafeFallbackReason,
}

/// Why a system recovery run stopped: the action log could not be written, or the recovery
/// failed.
#[derive(Debug, PartialEq, Eq)]
pub enum RuntimeSafeFallbackExecutionError {
    ActionLog(BuddyError),
    Execution(BuddyError),
}

impl RuntimeSafeFallbackExecutionError {
    pub open spec fn spec_message(self) -> Seq<char> {
        match self {
            RuntimeSafeFallbackExecutionError::ActionLog(e) => "action log write failed: "@
                + crate::error::spec_error_message(e@),
            RuntimeSafeFallbackExecutionError::Execution(e) => "runtime safe fallback execution failed: "@
                + crate::error::spec_error_message(e@),
        }
    }

    /// The text a user sees for this error.
    pub fn message(&self) -> (s: String)
        ensures
            s@ == self.spec_message(),
    {
        match self {
            RuntimeSafeFallbackExecutionError::ActionLog(e) => crate::text::concat_str(
                "action log write failed: ",
                e.message().as_str(),
            ),
            RuntimeSafeFallbackExecutionError::Execution(e) => crate::text::concat_str(
                "runtime safe fallback execution failed: ",
                e.message().as_str(),
            ),
        }
    }
}

/// The report of a system recovery run that ended: the plan that ran.
#[derive(Debug, Clone, PartialEq, Eq)]
pub struct RuntimeSafeFallbackExecutionReport {
    pub plan_id: String,
}

/// A system recovery plan that asked for admission, with the decision and whether it may run
/// now.
#[derive(Debug)]
pub struct AdmittedRuntimeSafeFallback {
    pub plan: RuntimeSafeFallbackPlan,
    pub context: RuntimeSafeFallbackExecutionContext,
    pub decision: ChoreographyAdmissionDecision,
    pub should_execute: bool,
}

/// Makes the recovery plan that answers a failure, with the run context's ids and time.
pub fn create_runtime_safe_fallback_plan_for_trigger<P: RuntimeSafeFallbackPlanner>(
    planner: &P,
    context: &RuntimeSafeFallbackExecutionContext,
    trigger: &RuntimeSafeFallbackTrigger,
) -> (r: RuntimeSafeFallbackPlan) {
    let plan_context = RuntimeSafeFallbackPlanContext {
        plan_id: context.plan_id.as_str(),
        step_id: context.step_id.as_str(),
        triggered_by_plan_id: trigger.triggered_by_plan_id,
        triggered_by_step_id: trigger.triggered_by_step_id,
        trigger_reason: trigger.trigger_reason,
        created_at: context.created_at.as_str(),
    };
    planner.create_runtime_safe_fallback_plan(&plan_context)
}

/// The step a recovery plan reports as running when it asks for admission.
pub fn runtime_safe_fallback_plan_active_step(
    plan: &RuntimeSafeFallbackPlan,
    registry: Option<&ActionRegistry>,
    resolve_context: &ResolveContext,
) -> (r: TimelineActiveStep)
    ensures
        plan.steps@.len() == 0 ==> r.step_id@ == plan.plan_id@,
        plan.steps@.len() > 0 ==> r.step_id@ == plan.steps@[0]@.step_id(),
{
    timeline_steps_active_step(plan.plan_id.as_str(), &plan.steps, registry, resolve_context)
}

/// What a recovery step runs with.
pub struct RuntimeSafeFallbackStepExecutionScope<'a> {
    pub registry: &'a ActionRegistry,
    pub resolve_context: &'a ResolveContext,
    pub plan: &'a RuntimeSafeFallbackPlan,
    pub context: &'a RuntimeSafeFallbackExecutionContext,
}

fn append_recovery_event<L: ActionLogSink>(log: &mut L, event: &crate::action_log::ActionLogEvent) -> (r: Result<
    (),
    RuntimeSafeFallbackExecutionError,
>)
    ensures
        final(log).keeps_record() == old(log).keeps_record(),
        r matches Err(e) ==> e is ActionLog,
        old(log).keeps_record() ==> (final(log).requested_events() == old(log).requested_events().push(event@)),
        old(log).keeps_record() ==> (final(log).requested_system_events() == old(log).requested_system_events()),
{
    match log.append_event(event) {
        Ok(_) => Ok(()),
        Err(e) => Err(RuntimeSafeFallbackExecutionError::ActionLog(e)),
    }
}

fn opt_as_str(a: &Option<String>) -> (r: Option<&str>)
    ensures
        crate::text::opt_str_view(r) == crate::text::opt_string_view(*a),
{
    match a {
        Some(x) => Some(x.as_str()),
        None => None,
    }
}

fn opt_ref(a: &Option<AfterActionResolution>) -> (r: Option<&AfterActionResolution>)
    ensures
        crate::action_log::opt_after_view(r) == match *a {
            Some(x) => Some(x@),
            None => None,
        },
{
    match a {
        Some(x) => Some(x),
        None => None,
    }
}

fn after_ref(a: &Option<AfterActionResolution>) -> (r: Option<&str>)
    ensures
        crate::text::opt_str_view(r) == match *a {
            Some(x) => Some(x.animation_ref@),
            None => None,
        },
{
    match a {
        Some(x) => Some(x.animation_ref.as_str()),
        None => None,
    }
}

/// Writes one event about a recovery step under the event id of its kind indexed by the step.
fn log_recovery_step<L: ActionLogSink>(
    log: &mut L,
    scope: &RuntimeSafeFallbackStepExecutionScope,
    base_event_id: &str,
    step_index: usize,
    step: &TimelineStep,
    kind: &str,
    reason: &str,
    payload: crate::json::JsonValue,
    at: &str,
) -> (r: Result<(), RuntimeSafeFallbackExecutionError>)
    requires
        step_index < usize::MAX,
    ensures
        final(log).keeps_record() == old(log).keeps_record(),
        r matches Err(e) ==> e is ActionLog,
        old(log).keeps_record() ==> (final(log).requested_events() == old(log).requested_events().push(
            crate::action_log::spec_step_event(
                ActionLogFamily::SystemRecovery,
                crate::macro_plan::spec_indexed_id(base_event_id@, step_index as nat),
                scope.plan.plan_id@,
                Some(step@.step_id()),
                kind@,
                reason@,
                scope.plan.source_ref@,
                payload@,
                at@,
            ),
        )),
        old(log).keeps_record() ==> (final(log).requested_system_events() == old(log).requested_system_events()),
{
    let event_id = indexed_event_id(base_event_id, step_index);
    let ids = ActionLogEventIds {
        event_id: event_id.as_str(),
        plan_id: scope.plan.plan_id.as_str(),
        step_id: Some(step.step_id()),
    };
    let event = step_event(ActionLogFamily::SystemRecovery, &ids, kind, reason, &scope.plan.source_ref, payload, at);
    append_recovery_event(log, &event)
}

/// Runs one recovery step: only moves are allowed; the move's after action is resolved, the
/// move runs, and each stage is logged as a fallback. A completed move reports no time.
pub fn execute_runtime_safe_fallback_timeline_step<E: ChoreographyStepExecutor, L: ActionLogSink>(
    executor: &E,
    log: &mut L,
    scope: &RuntimeSafeFallbackStepExecutionScope,
    step: &TimelineStep,
    step_index: usize,
) -> (r: Result<u64, RuntimeSafeFallbackExecutionError>)
    requires
        step_index < usize::MAX,
    ensures
        final(log).keeps_record() == old(log).keeps_record(),
        !(step@ is MoveTo) ==> (r matches Err(RuntimeSafeFallbackExecutionError::Execution(e)) && e@
            == BuddyErrorView::Validation("runtime safe fallback only supports moveTo steps"@)),
        step@ matches TimelineStepView::MoveTo(s) ==> (spec_resolve_after_action(
            scope.registry@,
            s.after_action_id,
            s.fallback_after_action_id,
            "moveTo"@,
        ) matches Err(e) ==> (r matches Err(RuntimeSafeFallbackExecutionError::Execution(x)) && x@ == e)),
        r matches Ok(d) ==> d == 0,
        old(log).keeps_record() ==> (crate::action_log::log_kept(old(log).requested_events(), final(log).requested_events())),
        old(log).keeps_record() ==> (final(log).requested_system_events() == old(log).requested_system_events()),
{
    let s = match step {
        TimelineStep::MoveTo(s) => s,
        _ => {
            return Err(RuntimeSafeFallbackExecutionError::Execution(
                BuddyError::Validation("runtime safe fallback only supports moveTo steps".to_owned()),
            ));
        },
    };
    let after = match resolve_move_to_after_action(scope.registry, scope.resolve_context, s) {
        Ok(a) => a,
        Err(e) => return Err(RuntimeSafeFallbackExecutionError::Execution(e)),
    };
    let payload = move_to_resolved_payload(
        &s.target,
        s.timeout_ms,
        opt_as_str(&s.after_action_id),
        opt_ref(&after),
        scope.resolve_context,
        true,
    );
    match log_recovery_step(
        log,
        scope,
        scope.context.step_resolved_event_id.as_str(),
        step_index,
        step,
        "resolved",
        "stepResolved",
        payload,
        scope.context.resolved_at.as_str(),
    ) {
        Ok(_) => {},
        Err(e) => return Err(e),
    }
    if let Err(error) = executor.move_to_step(s, after_ref(&after)) {
        let message = error.message();
        let payload = move_to_payload(&s.target, s.timeout_ms, Some(message.as_str()), true);
        return match log_recovery_step(
            log,
            scope,
            scope.context.step_failed_event_id.as_str(),
            step_index,
            step,
            "failed",
            "stepFailed",
            payload,
            scope.context.completed_at.as_str(),
        ) {
            Ok(_) => Err(RuntimeSafeFallbackExecutionError::Execution(error)),
            Err(e) => Err(e),
        };
    }
    match log_recovery_step(
        log,
        scope,
        scope.context.step_completed_event_id.as_str(),
        step_index,
        step,
        "completed",
        "stepCompleted",
        move_to_payload(&s.target, s.timeout_ms, None, true),
        scope.context.completed_at.as_str(),
    ) {
        Ok(_) => {},
        Err(e) => return Err(e),
    }
    Ok(0)
}

/// Logs that a recovery plan failed.
pub fn append_runtime_safe_fallback_plan_failed<L: ActionLogSink>(
    log: &mut L,
    plan: &RuntimeSafeFallbackPlan,
    context: &RuntimeSafeFallbackExecutionContext,
    error_message: &str,
) -> (r: Result<(), RuntimeSafeFallbackExecutionError>)
    ensures
        final(log).keeps_record() == old(log).keeps_record(),
        r matches Err(e) ==> e is ActionLog,
        old(log).keeps_record() ==> (final(log).requested_events() == old(log).requested_events().push(
            crate::action_log::spec_plan_event(
                ActionLogFamily::SystemRecovery,
                context.plan_failed_event_id@,
                plan.plan_id@,
                "failed"@,
                "failed"@,
                plan.source_ref@,
                crate::json::JsonView::Object(
                    seq![
                        ("status"@, crate::action_log::jstr("failed"@)),
                        ("error"@, crate::action_log::jstr(error_message@)),
                        ("resultKind"@, crate::action_log::jstr("fallback"@)),
                    ],
                ),
                context.completed_at@,
            ),
        )),
        old(log).keeps_record() ==> (final(log).requested_system_events() == old(log).requested_system_events()),
{
    let event = system_recovery_plan_failed(
        context.plan_failed_event_id.as_str(),
        plan,
        error_message,
        context.completed_at.as_str(),
    );
    append_recovery_event(log, &event)
}

/// Logs, under a fresh event id, that the runtime degraded because its recovery plan failed.
pub fn append_runtime_degraded_after_system_recovery_failed<L: ActionLogSink>(
    log: &mut L,
    plan: &RuntimeSafeFallbackPlan,
    error_message: &str,
    created_at: &str,
) -> (r: Result<(), RuntimeSafeFallbackExecutionError>)
    ensures
        final(log).keeps_record() == old(log).keeps_record(),
        r matches Err(e) ==> e is ActionLog,
        old(log).keeps_record() ==> (final(log).requested_events() == old(log).requested_events()),
        old(log).keeps_record() ==> (final(log).requested_system_events().len() == old(log).requested_system_events().len() + 1),
        old(log).keeps_record() ==> (final(log).requested_system_events().drop_last() == old(log).requested_system_events()),
        old(log).keeps_record() ==> (({
            let e = final(log).requested_system_events().last();
            &&& e.event_id.subrange(0, 4) == "evt_"@
            &&& e.schema_version == 1
            &&& e.event_type == "runtime.degraded"@
            &&& e.status == "degraded"@
            &&& e.reason_code == "runtime.systemRecoveryFailed"@
            &&& e.plan_id is None && e.step_id is None
            &&& e.source_ref == crate::json::JsonView::Object(seq![("kind"@, crate::action_log::jstr("runtime"@))])
            &&& e.trigger_source == "systemRecovery"@
            &&& e.payload == crate::json::JsonView::Object(
                crate::action_log::spec_runtime_degraded_payload(plan.plan_id@, plan.source_ref@, error_message@),
            )
            &&& e.created_at == created_at@
        })),
{
    let event_id = crate::ids::prefixed_uuid_v7("evt");
    proof {
        reveal_strlit("evt");
        reveal_strlit("_");
        reveal_strlit("evt_");
        assert(event_id@.subrange(0, 4) =~= "evt_"@);
    }
    let event = runtime_degraded_after_system_recovery_failed(event_id.as_str(), plan, error_message, created_at);
    match log.append_system_event(&event) {
        Ok(_) => Ok(()),
        Err(e) => Err(RuntimeSafeFallbackExecutionError::ActionLog(e)),
    }
}

/// The event that a recovery plan started, as the run context names and times it.
pub open spec fn spec_recovery_started_event(
    plan: &RuntimeSafeFallbackPlan,
    context: &RuntimeSafeFallbackExecutionContext,
) -> ActionLogEventView {
    crate::action_log::spec_plan_event(
        ActionLogFamily::SystemRecovery,
        context.plan_started_event_id@,
        plan.plan_id@,
        "started"@,
        "started"@,
        plan.source_ref@,
        crate::json::JsonView::Object(
            seq![
                ("sourceRef"@, plan.source_ref@),
                ("posture"@, crate::action_log::jstr(plan.posture@)),
                ("stepCount"@, crate::action_log::jnum(plan.steps@.len() as int)),
                ("resultKind"@, crate::action_log::jstr("fallback"@)),
            ],
        ),
        context.created_at@,
    )
}

/// The event that a recovery plan completed every one of its steps, which take no time.
pub open spec fn spec_recovery_completed_event(
    plan: &RuntimeSafeFallbackPlan,
    context: &RuntimeSafeFallbackExecutionContext,
) -> ActionLogEventView {
    crate::action_log::spec_plan_event(
        ActionLogFamily::SystemRecovery,
        context.plan_completed_event_id@,
        plan.plan_id@,
        "completed"@,
        "completed"@,
        plan.source_ref@,
        crate::action_log::spec_fixture_end_payload(
            "completed"@,
            plan.steps@.len() as u64,
            0u64,
            seq![("resultKind"@, crate::action_log::jstr("fallback"@))],
        ),
        context.completed_at@,
    )
}

/// The event that a recovery plan failed with the message.
pub open spec fn spec_recovery_failed_event(
    plan: &RuntimeSafeFallbackPlan,
    context: &RuntimeSafeFallbackExecutionContext,
    message: Seq<char>,
) -> ActionLogEventView {
    crate::action_log::spec_plan_event(
        ActionLogFamily::SystemRecovery,
        context.plan_failed_event_id@,
        plan.plan_id@,
        "failed"@,
        "failed"@,
        plan.source_ref@,
        crate::json::JsonView::Object(
            seq![
                ("status"@, crate::action_log::jstr("failed"@)),
                ("error"@, crate::action_log::jstr(message)),
                ("resultKind"@, crate::action_log::jstr("fallback"@)),
            ],
        ),
        context.completed_at@,
    )
}

/// One system event was added to the record: that the runtime degraded, at `at`, because a
/// recovery plan failed.
pub open spec fn spec_runtime_degraded_logged(
    before: Seq<ActionLogSystemEventView>,
    after: Seq<ActionLogSystemEventView>,
    at: Seq<char>,
) -> bool {
    &&& after.len() == before.len() + 1
    &&& after.drop_last() == before
    &&& after.last().event_type == "runtime.degraded"@
    &&& after.last().reason_code == "runtime.systemRecoveryFailed"@
    &&& after.last().created_at == at
}

/// The record kept what it held, and the first event added after it is one that a system
/// recovery logged under `event_id`, at `at`.
pub open spec fn spec_recovery_logged_first(
    before: Seq<ActionLogEventView>,
    after: Seq<ActionLogEventView>,
    event_id: Seq<char>,
    at: Seq<char>,
) -> bool {
    &&& spec_recovery_logged_first_at(before, after, at)
    &&& after[before.len() as int].event_id == event_id
}

/// The record kept what it held, and the first event added after it is one that a system
/// recovery logged at `at`.
pub open spec fn spec_recovery_logged_first_at(
    before: Seq<ActionLogEventView>,
    after: Seq<ActionLogEventView>,
    at: Seq<char>,
) -> bool {
    &&& crate::action_log::log_kept(before, after)
    &&& after.len() > before.len()
    &&& after[before.len() as int].trigger_source == "systemRecovery"@
    &&& after[before.len() as int].created_at == at
}

/// One system event was added to the record: that the runtime degraded, at `at`, because the
/// recovery plan failed with the message.
pub open spec fn spec_degraded_by_recovery(
    before: Seq<ActionLogSystemEventView>,
    after: Seq<ActionLogSystemEventView>,
    plan: &RuntimeSafeFallbackPlan,
    message: Seq<char>,
    at: Seq<char>,
) -> bool {
    &&& spec_runtime_degraded_logged(before, after, at)
    &&& after.last().payload == crate::json::JsonView::Object(
        crate::action_log::spec_runtime_degraded_payload(plan.plan_id@, plan.source_ref@, message),
    )
    &&& after.last().created_at == at
}

/// Runs a recovery plan step by step, writing its progress to the action log. The first step
/// that fails stops the plan: the failure is logged, and so is that the runtime degraded.
#[verifier::loop_isolation(false)]
pub fn execute_runtime_safe_fallback_plan<E: ChoreographyStepExecutor, L: ActionLogSink>(
    executor: &E,
    log: &mut L,
    registry: &ActionRegistry,
    plan: &RuntimeSafeFallbackPlan,
    context: &RuntimeSafeFallbackExecutionContext,
    resolve_context: &ResolveContext,
) -> (r: Result<RuntimeSafeFallbackExecutionReport, RuntimeSafeFallbackExecutionError>)
    ensures
        final(log).keeps_record() == old(log).keeps_record(),
        r matches Ok(rep) ==> rep.plan_id@ == plan.plan_id@,
        (exists|i: int| 0 <= i < plan.steps@.len() && !(plan.steps@[i]@ is MoveTo)) ==> r is Err,
        old(log).keeps_record() ==> (crate::action_log::log_kept(
            old(log).requested_events().push(spec_recovery_started_event(plan, context)),
            final(log).requested_events(),
        )),
        old(log).keeps_record() ==> (r is Ok ==> final(log).requested_events().last() == spec_recovery_completed_event(plan, context)
            && final(log).requested_system_events() == old(log).requested_system_events()),
        old(log).keeps_record() ==> (r matches Err(RuntimeSafeFallbackExecutionError::Execution(e)) ==> final(log).requested_events().last()
            == spec_recovery_failed_event(plan, context, spec_error_message(e@))
            && spec_degraded_by_recovery(
            old(log).requested_system_events(),
            final(log).requested_system_events(),
            plan,
            spec_error_message(e@),
            context.completed_at@,
        )),
{
    let started = system_recovery_plan_started(context.plan_started_event_id.as_str(), plan, context.created_at.as_str());
    match append_recovery_event(log, &started) {
        Ok(_) => {},
        Err(e) => return Err(e),
    }
    let scope = RuntimeSafeFallbackStepExecutionScope { registry, resolve_context, plan, context };
    let mut completed_step_count: u64 = 0;
    let mut duration_ms: u64 = 0;
    let mut step_index: usize = 0;
    while step_index < plan.steps.len()
        invariant
            step_index <= plan.steps@.len(),
            forall|i: int| 0 <= i < step_index ==> plan.steps@[i]@ is MoveTo,
            completed_step_count == step_index,
            duration_ms == 0,
            log.keeps_record() == old(log).keeps_record(),
            old(log).keeps_record() ==> crate::action_log::log_kept(
                old(log).requested_events().push(spec_recovery_started_event(plan, context)),
                log.requested_events(),
            ),
            old(log).keeps_record() ==> log.requested_system_events() == old(log).requested_system_events(),
        decreases plan.steps@.len() - step_index,
    {
        match execute_runtime_safe_fallback_timeline_step(executor, log, &scope, &plan.steps[step_index], step_index) {
            Ok(step_duration_ms) => {
                completed_step_count = completed_step_count.saturating_add(1);
                duration_ms = duration_ms.saturating_add(step_duration_ms);
            },
            Err(RuntimeSafeFallbackExecutionError::Execution(error)) => {
                let message = error.message();
                match append_runtime_safe_fallback_plan_failed(log, plan, context, message.as_str()) {
                    Ok(_) => {},
                    Err(e) => return Err(e),
                }
                match append_runtime_degraded_after_system_recovery_failed(
                    log,
                    plan,
                    message.as_str(),
                    context.completed_at.as_str(),
                ) {
                    Ok(_) => {},
                    Err(e) => return Err(e),
                }
                return Err(RuntimeSafeFallbackExecutionError::Execution(error));
            },
            Err(e) => return Err(e),
        }
        step_index = step_index + 1;
    }
    let completed = system_recovery_plan_completed(
        context.plan_completed_event_id.as_str(),
        plan,
        completed_step_count,
        duration_ms,
        context.completed_at.as_str(),
    );
    match append_recovery_event(log, &completed) {
        Ok(_) => Ok(RuntimeSafeFallbackExecutionReport { plan_id: plan.plan_id.clone() }),
        Err(e) => Err(e),
    }
}

/// Makes the recovery plan for a failure, asks admission for it as a system recovery, and logs
/// the decision; when the decision cannot be logged, a plan that took the active slot gives it
/// back.
pub fn admit_runtime_safe_fallback_plan<L: ActionLogSink, P: RuntimeSafeFallbackPlanner>(
    log: &mut L,
    admission: &mut ChoreographyAdmissionState,
    planner: &P,
    registry: Option<&ActionRegistry>,
    context: RuntimeSafeFallbackExecutionContext,
    trigger: &RuntimeSafeFallbackTrigger,
) -> (r: BuddyResult<AdmittedRuntimeSafeFallback>)
    ensures
        final(log).keeps_record() == old(log).keeps_record(),
        r matches Ok(a) ==> a.should_execute == (a.decision@ is Accepted || a.decision@ is Preempted) && a.context
            == context,
        old(log).keeps_record() ==> (final(log).requested_events().len() == old(log).requested_events().len() + 1),
        old(log).keeps_record() ==> (final(log).requested_events().drop_last() == old(log).requested_events()),
        old(log).keeps_record() ==> (final(log).requested_events().last().event_id == context.admission_event_id@),
        old(log).keeps_record() ==> (final(log).requested_events().last().trigger_source == "systemRecovery"@),
        old(log).keeps_record() ==> (final(log).requested_events().last().created_at == context.created_at@),
        old(log).keeps_record() ==> (final(log).requested_system_events() == old(log).requested_system_events()),
        old(log).keeps_record() ==> (r matches Ok(a) ==> final(log).requested_events().last()
            == crate::action_log::spec_admission_decision_event(
            context.admission_event_id@,
            a.plan.plan_id@,
            a.plan.source_ref@,
            "systemRecovery"@,
            a.decision@,
            context.created_at@,
        ) && crate::admitted_run::admitted_as(
            old(admission)@,
            final(admission)@,
            a.decision@,
            a.plan.plan_id@,
            ChoreographyTriggerSource::SystemRecovery,
        )),
{
    let plan = create_runtime_safe_fallback_plan_for_trigger(planner, &context, trigger);
    let default_context = ResolveContext::default();
    let active_step = runtime_safe_fallback_plan_active_step(&plan, registry, &default_context);
    let request = ChoreographyAdmissionRequest::new(plan.plan_id.as_str(), ChoreographyTriggerSource::SystemRecovery)
        .with_active_step(active_step.step_id.as_str(), active_step.interrupt_policy);
    let ghost before = admission@;
    let ghost q = request@;
    let decision = admission.admit_request(request);
    proof {
        assert(spec_admit(before, q) == (admission@, decision@));
        assert(crate::admitted_run::admitted_as(
            before,
            admission@,
            decision@,
            plan.plan_id@,
            ChoreographyTriggerSource::SystemRecovery,
        ));
    }
    let should_execute = should_execute_admission_decision(&decision);
    let event = executor_admission_decision_for_source(
        context.admission_event_id.as_str(),
        plan.plan_id.as_str(),
        &plan.source_ref,
        "systemRecovery",
        &decision,
        context.created_at.as_str(),
    );
    if let Err(error) = log.append_event(&event) {
        if should_execute {
            let _ = admission.release_plan_preserving_pending(plan.plan_id.as_str());
        }
        return Err(error);
    }
    Ok(AdmittedRuntimeSafeFallback { plan, context, decision, should_execute })
}

/// Runs system recovery for a failure under admission. A recovery that is not admitted, whose
/// preempted step cannot be interrupted, or whose admission cannot be logged is dropped; a
/// recovery plan that fails degrades the runtime, as of the recovery's completion time.
pub fn trigger_admitted_runtime_safe_fallback<E: ChoreographyStepExecutor, L: ActionLogSink, P: RuntimeSafeFallbackPlanner>(
    executor: &E,
    log: &mut L,
    admission: &mut ChoreographyAdmissionState,
    planner: &P,
    registry: &ActionRegistry,
    context: RuntimeSafeFallbackExecutionContext,
    trigger: &RuntimeSafeFallbackTrigger,
    resolve_context: &ResolveContext,
) -> (r: Option<ChoreographyRuntimeDegradation>)
    ensures
        final(log).keeps_record() == old(log).keeps_record(),
        r matches Some(d) ==> d.reason_code@ == "runtime.systemRecoveryFailed"@ && d.degraded_at@
            == context.completed_at@,
        old(log).keeps_record() ==> (spec_recovery_logged_first(
            old(log).requested_events(),
            final(log).requested_events(),
            context.admission_event_id@,
            context.created_at@,
        )),
        old(log).keeps_record() ==> (r is Some ==> spec_runtime_degraded_logged(
            old(log).requested_system_events(),
            final(log).requested_system_events(),
            context.completed_at@,
        )),
{
    let admitted = match admit_runtime_safe_fallback_plan(log, admission, planner, Some(registry), context, trigger) {
        Ok(a) => a,
        Err(_) => return None,
    };
    if !admitted.should_execute {
        return None;
    }
    if interrupt_preempted_active_step(executor, &admitted.decision).is_err() {
        let _ = admission.release_plan_preserving_pending(admitted.plan.plan_id.as_str());
        return None;
    }
    let result = execute_runtime_safe_fallback_plan(
        executor,
        log,
        registry,
        &admitted.plan,
        &admitted.context,
        resolve_context,
    );
    let _ = admission.release_plan_preserving_pending(admitted.plan.plan_id.as_str());
    match result {
        Err(RuntimeSafeFallbackExecutionError::Execution(_)) => Some(
            ChoreographyRuntimeDegradation::system_recovery_failed(admitted.context.completed_at.as_str()),
        ),
        _ => None,
    }
}

/// The degradation, as of the recovery's completion time, that a failed recovery run causes.
pub open spec fn degraded_by(r: Option<ChoreographyRuntimeDegradation>, completed_at: Seq<char>) -> bool {
    r matches Some(d) ==> d.reason_code@ == "runtime.systemRecoveryFailed"@ && d.degraded_at@ == completed_at
}

/// Runs system recovery, without asking for admission, after a developer fixture failed; a
/// recovery plan that fails degrades the runtime.
pub fn trigger_runtime_safe_fallback_after_dev_fixture_failure<E: ChoreographyStepExecutor, L: ActionLogSink, P: RuntimeSafeFallbackPlanner>(
    executor: &E,
    log: &mut L,
    planner: &P,
    registry: &ActionRegistry,
    context: RuntimeSafeFallbackExecutionContext,
    failed_plan: &DevFixturePlan,
    failed_step_id: &str,
    error: &BuddyError,
    resolve_context: &ResolveContext,
) -> (r: Option<ChoreographyRuntimeDegradation>)
    ensures
        final(log).keeps_record() == old(log).keeps_record(),
        degraded_by(r, context.completed_at@),
        old(log).keeps_record() ==> (spec_recovery_logged_first(
            old(log).requested_events(),
            final(log).requested_events(),
            context.plan_started_event_id@,
            context.created_at@,
        )),
        old(log).keeps_record() ==> (r is Some ==> spec_runtime_degraded_logged(
            old(log).requested_system_events(),
            final(log).requested_system_events(),
            context.completed_at@,
        )),
{
    let trigger = RuntimeSafeFallbackTrigger {
        triggered_by_plan_id: failed_plan.plan_id.as_str(),
        triggered_by_step_id: Some(failed_step_id),
        trigger_reason: runtime_safe_fallback_reason_for_execution_error(error),
    };
    let plan = create_runtime_safe_fallback_plan_for_trigger(planner, &context, &trigger);
    match execute_runtime_safe_fallback_plan(executor, log, registry, &plan, &context, resolve_context) {
        Err(RuntimeSafeFallbackExecutionError::Execution(_)) => Some(
            ChoreographyRuntimeDegradation::system_recovery_failed(context.completed_at.as_str()),
        ),
        _ => None,
    }
}

/// Runs system recovery under admission after a developer fixture failed at a step.
pub fn trigger_admitted_runtime_safe_fallback_after_dev_fixture_failure<E: ChoreographyStepExecutor, L: ActionLogSink, P: RuntimeSafeFallbackPlanner>(
    executor: &E,
    log: &mut L,
    admission: &mut ChoreographyAdmissionState,
    planner: &P,
    registry: &ActionRegistry,
    context: RuntimeSafeFallbackExecutionContext,
    failed_plan: &DevFixturePlan,
    failed_step_id: &str,
    error: &BuddyError,
    resolve_context: &ResolveContext,
) -> (r: Option<ChoreographyRuntimeDegradation>)
    ensures
        final(log).keeps_record() == old(log).keeps_record(),
        degraded_by(r, context.completed_at@),
        old(log).keeps_record() ==> (spec_recovery_logged_first(
            old(log).requested_events(),
            final(log).requested_events(),
            context.admission_event_id@,
            context.created_at@,
        )),
        old(log).keeps_record() ==> (r is Some ==> spec_runtime_degraded_logged(
            old(log).requested_system_events(),
            final(log).requested_system_events(),
            context.completed_at@,
        )),
{
    let trigger = RuntimeSafeFallbackTrigger {
        triggered_by_plan_id: failed_plan.plan_id.as_str(),
        triggered_by_step_id: Some(failed_step_id),
        trigger_reason: runtime_safe_fallback_reason_for_execution_error(error),
    };
    trigger_admitted_runtime_safe_fallback(executor, log, admission, planner, registry, context, &trigger, resolve_context)
}

/// Runs system recovery under admission after a timeline plan failed at a step.
pub fn trigger_admitted_runtime_safe_fallback_after_timeline_failure<E: ChoreographyStepExecutor, L: ActionLogSink, P: RuntimeSafeFallbackPlanner>(
    executor: &E,
    log: &mut L,
    admission: &mut ChoreographyAdmissionState,
    planner: &P,
    registry: &ActionRegistry,
    context: RuntimeSafeFallbackExecutionContext,
    failed_plan: &TimelinePlan,
    failed_step_id: &str,
    error: &BuddyError,
    resolve_context: &ResolveContext,
) -> (r: Option<ChoreographyRuntimeDegradation>)
    ensures
        final(log).keeps_record() == old(log).keeps_record(),
        degraded_by(r, context.completed_at@),
        old(log).keeps_record() ==> (spec_recovery_logged_first(
            old(log).requested_events(),
            final(log).requested_events(),
            context.admission_event_id@,
            context.created_at@,
        )),
        old(log).keeps_record() ==> (r is Some ==> spec_runtime_degraded_logged(
            old(log).requested_system_events(),
            final(log).requested_system_events(),
            context.completed_at@,
        )),
{
    let trigger = RuntimeSafeFallbackTrigger {
        triggered_by_plan_id: failed_plan.plan_id.as_str(),
        triggered_by_step_id: Some(failed_step_id),
        trigger_reason: runtime_safe_fallback_reason_for_execution_error(error),
    };
    trigger_admitted_runtime_safe_fallback(executor, log, admission, planner, registry, context, &trigger, resolve_context)
}

/// Runs system recovery under admission after a macro could not be planned: the recovery names
/// the macro's plan, no step, and that planning failed.
pub fn trigger_admitted_runtime_safe_fallback_after_macro_planning_failure<E: ChoreographyStepExecutor, L: ActionLogSink, P: RuntimeSafeFallbackPlanner>(
    executor: &E,
    log: &mut L,
    admission: &mut ChoreographyAdmissionState,
    planner: &P,
    registry: &ActionRegistry,
    context: RuntimeSafeFallbackExecutionContext,
    macro_plan_id: &str,
    resolve_context: &ResolveContext,
) -> (r: Option<ChoreographyRuntimeDegradation>)
    ensures
        final(log).keeps_record() == old(log).keeps_record(),
        degraded_by(r, context.completed_at@),
        old(log).keeps_record() ==> (spec_recovery_logged_first(
            old(log).requested_events(),
            final(log).requested_events(),
            context.admission_event_id@,
            context.created_at@,
        )),
        old(log).keeps_record() ==> (r is Some ==> spec_runtime_degraded_logged(
            old(log).requested_system_events(),
            final(log).requested_system_events(),
            context.completed_at@,
        )),
{
    let trigger = RuntimeSafeFallbackTrigger {
        triggered_by_plan_id: macro_plan_id,
        triggered_by_step_id: None,
        trigger_reason: RuntimeSafeFallbackReason::MacroPlanningFailed,
    };
    trigger_admitted_runtime_safe_fallback(executor, log, admission, planner, registry, context, &trigger, resolve_context)
}


/// The system recovery that answers a failed plan: each recovery plan is made by the planner
/// with fresh ids, logged at the times given here, and run; the degradation that the last
/// failed recovery caused is kept.
pub struct RuntimeSafeFallbackRecovery<'a, E: ChoreographyStepExecutor, P: RuntimeSafeFallbackPlanner> {
    pub(crate) executor: &'a E,
    pub(crate) planner: &'a P,
    pub(crate) registry: &'a ActionRegistry,
    pub(crate) created_at: String,
    pub(crate) resolved_at: String,
    pub(crate) completed_at: String,
    pub(crate) degradation: Option<ChoreographyRuntimeDegradation>,
}

impl<'a, E: ChoreographyStepExecutor, P: RuntimeSafeFallbackPlanner> RuntimeSafeFallbackRecovery<'a, E, P> {
    /// A kept degradation is the one a failed recovery causes, as of this recovery's
    /// completion time.
    #[verifier::type_invariant]
    pub(crate) closed spec fn kept_degradation_is_recovery_failure(self) -> bool {
        degraded_by(self.degradation, self.completed_at@)
    }

    /// The degradation this recovery keeps.
    pub closed spec fn spec_degradation(self) -> Option<ChoreographyRuntimeDegradation> {
        self.degradation
    }

    /// The times at which this recovery's runs are logged: created, resolved, completed.
    pub closed spec fn spec_times(self) -> (Seq<char>, Seq<char>, Seq<char>) {
        (self.created_at@, self.resolved_at@, self.completed_at@)
    }

    /// The degradation that the last failed recovery caused, if any.
    pub fn degradation(&self) -> (r: Option<ChoreographyRuntimeDegradation>)
        ensures
            r is Some == self.spec_degradation() is Some,
            degraded_by(r, self.spec_times().2),
    {
        proof {
            use_type_invariant(self);
        }
        match &self.degradation {
            Some(d) => Some(ChoreographyRuntimeDegradation::system_recovery_failed(d.degraded_at.as_str())),
            None => None,
        }
    }

    /// Takes out the degradation that the last failed recovery caused, if any.
    pub(crate) fn take_degradation(&mut self) -> (r: Option<ChoreographyRuntimeDegradation>)
        ensures
            r matches Some(d) ==> d.reason_code@ == "runtime.systemRecoveryFailed"@,
            r is Some == old(self).spec_degradation() is Some,
            final(self).degradation is None,
            final(self).spec_degradation() is None,
            final(self).completed_at == old(self).completed_at,
            final(self).spec_times() == old(self).spec_times(),
    {
        proof {
            use_type_invariant(&*self);
        }
        let taken = self.degradation();
        self.degradation = None;
        taken
    }

    /// A recovery that has degraded nothing yet.
    pub fn new(
        executor: &'a E,
        planner: &'a P,
        registry: &'a ActionRegistry,
        created_at: &str,
        resolved_at: &str,
        completed_at: &str,
    ) -> (r: Self)
        ensures
            r.spec_degradation() is None,
            r.spec_times() == (created_at@, resolved_at@, completed_at@),
    {
        RuntimeSafeFallbackRecovery {
            executor,
            planner,
            registry,
            created_at: created_at.to_owned(),
            resolved_at: resolved_at.to_owned(),
            completed_at: completed_at.to_owned(),
            degradation: None,
        }
    }

    /// A recovery run context with fresh ids, at this recovery's times.
    pub fn fresh_context(&self) -> (r: RuntimeSafeFallbackExecutionContext)
        ensures
            (r.created_at@, r.resolved_at@, r.completed_at@) == self.spec_times(),
    {
        RuntimeSafeFallbackExecutionContext::new(
            self.created_at.as_str(),
            self.resolved_at.as_str(),
            self.completed_at.as_str(),
        )
    }
}

impl<'a, E: ChoreographyStepExecutor, P: RuntimeSafeFallbackPlanner> ExecutionFailureRecovery for RuntimeSafeFallbackRecovery<
    'a,
    E,
    P,
> {
    fn dev_fixture_failed<L: ActionLogSink>(
        &mut self,
        log: &mut L,
        failed_plan: &DevFixturePlan,
        failed_step_id: &str,
        error: &BuddyError,
        resolve_context: &ResolveContext,
    )
        ensures
            final(log).keeps_record() == old(log).keeps_record(),
        final(self).spec_times() == old(self).spec_times(),
        old(log).keeps_record() ==> (spec_recovery_logged_first_at(
            old(log).requested_events(),
            final(log).requested_events(),
            old(self).spec_times().0,
        )),
        old(log).keeps_record() ==> (final(self).spec_degradation() is Some ==> spec_runtime_degraded_logged(
            old(log).requested_system_events(),
            final(log).requested_system_events(),
            old(self).spec_times().2,
        )),
    {
        let context = self.fresh_context();
        self.degradation = trigger_runtime_safe_fallback_after_dev_fixture_failure(
            self.executor,
            log,
            self.planner,
            self.registry,
            context,
            failed_plan,
            failed_step_id,
            error,
            resolve_context,
        );
    }

    fn admitted_dev_fixture_failed<L: ActionLogSink>(
        &mut self,
        log: &mut L,
        admission: &mut ChoreographyAdmissionState,
        failed_plan: &DevFixturePlan,
        failed_step_id: &str,
        error: &BuddyError,
        resolve_context: &ResolveContext,
    )
        ensures
            final(log).keeps_record() == old(log).keeps_record(),
        final(self).spec_times() == old(self).spec_times(),
        old(log).keeps_record() ==> (spec_recovery_logged_first_at(
            old(log).requested_events(),
            final(log).requested_events(),
            old(self).spec_times().0,
        )),
        old(log).keeps_record() ==> (final(self).spec_degradation() is Some ==> spec_runtime_degraded_logged(
            old(log).requested_system_events(),
            final(log).requested_system_events(),
            old(self).spec_times().2,
        )),
    {
        let context = self.fresh_context();
        self.degradation = trigger_admitted_runtime_safe_fallback_after_dev_fixture_failure(
            self.executor,
            log,
            admission,
            self.planner,
            self.registry,
            context,
            failed_plan,
            failed_step_id,
            error,
            resolve_context,
        );
    }

    fn admitted_timeline_failed<L: ActionLogSink, S: PendingExecutionStore>(
        &mut self,
        log: &mut L,
        store: &mut S,
        admission: &mut ChoreographyAdmissionState,
        failed_plan: &TimelinePlan,
        failed_step_id: &str,
        error: &BuddyError,
        resolve_context: &ResolveContext,
    ) -> (r: BuddyResult<()>)
        ensures
            final(log).keeps_record() == old(log).keeps_record(),
        r is Ok,
        final(self).spec_times() == old(self).spec_times(),
        old(log).keeps_record() ==> (spec_recovery_logged_first_at(
            old(log).requested_events(),
            final(log).requested_events(),
            old(self).spec_times().0,
        )),
        old(log).keeps_record() ==> (final(self).spec_degradation() is Some ==> spec_runtime_degraded_logged(
            old(log).requested_system_events(),
            final(log).requested_system_events(),
            old(self).spec_times().2,
        )),
    {
        let context = self.fresh_context();
        self.degradation = trigger_admitted_runtime_safe_fallback_after_timeline_failure(
            self.executor,
            log,
            admission,
            self.planner,
            self.registry,
            context,
            failed_plan,
            failed_step_id,
            error,
            resolve_context,
        );
        Ok(())
    }
}

} // verus!
