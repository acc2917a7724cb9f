use vstd::prelude::*;

use crate::action_log::{executor_admission_decision_for_source, ActionLogSink};
use crate::admission::{
    spec_admit, AdmissionRequestView, ChoreographyAdmissionDecision, ChoreographyAdmissionRelease,
    ChoreographyAdmissionRequest, ChoreographyAdmissionState, ChoreographyTriggerSource,
};
use crate::error::{BuddyError, BuddyResult};
use crate::execution_context::{
    DevFixtureAdmissionExecutionRequest, DevFixtureExecutionContext, DevFixtureKind, PendingDevFixtureExecutionQueue,
    TimelineExecutionContext,
};
use crate::executor::{
    refresh_admitted_plan_active_step, should_execute_admission_decision, timeline_steps_active_step,
    TimelineActiveStep,
};
use crate::fixture::DevFixturePlan;
use crate::fixture_run::{
    create_dev_fixture_plan, execute_dev_fixture_with_step_start, DevFixtureExecutionError, DevFixtureExecutionReport,
};
use crate::plan_run::{
    execute_timeline_plan_with_step_start, StepCompletionDecision, TimelineExecutionError, TimelineExecutionEvents,
};
use crate::planner::expand_planner_timeline_plan;
use crate::registry::{ActionRegistry, ResolveContext};
use crate::step_execution::ChoreographyStepExecutor;
use crate::step_protocol::SidecarInterruptPolicy;
use crate::timeline::{TimelinePlan, TimelineStep};

verus! {

/// A timeline plan run that asks for admission.
#[derive(Debug)]
pub struct TimelineAdmissionExecutionRequest {
    pub plan: TimelinePlan,
    pub context: TimelineExecutionContext,
    pub resolve_context: ResolveContext,
    pub trigger_source: ChoreographyTriggerSource,
}

pub const TIMELINE_PENDING_EXECUTION_BODY_SCHEMA_VERSION: u16 = 1;

/// What is stored of a timeline plan run that waits for admission.
#[derive(Debug, PartialEq, Eq)]
pub struct TimelinePendingExecutionBody {
    pub schema_version: u16,
    pub plan: TimelinePlan,
    pub context: TimelineExecutionContext,
    pub resolve_context: ResolveContext,
    pub trigger_source: ChoreographyTriggerSource,
}

/// The content of a waiting timeline run.
pub struct TimelineRequestView {
    pub plan: crate::timeline::TimelinePlanView,
    pub context: TimelineExecutionContext,
    pub resolve_context: ResolveContext,
    pub trigger_source: ChoreographyTriggerSource,
}

/// The content of a stored timeline body.
pub struct TimelineBodyView {
    pub schema_version: u16,
    pub plan: crate::timeline::TimelinePlanView,
    pub context: TimelineExecutionContext,
    pub resolve_context: ResolveContext,
    pub trigger_source: ChoreographyTriggerSource,
}

impl View for TimelineAdmissionExecutionRequest {
    type V = TimelineRequestView;

    open spec fn view(&self) -> TimelineRequestView {
        TimelineRequestView {
            plan: self.plan@,
            context: self.context,
            resolve_context: self.resolve_context,
            trigger_source: self.trigger_source,
        }
    }
}

impl View for TimelinePendingExecutionBody {
    type V = TimelineBodyView;

    open spec fn view(&self) -> TimelineBodyView {
        TimelineBodyView {
            schema_version: self.schema_version,
            plan: self.plan@,
            context: self.context,
            resolve_context: self.resolve_context,
            trigger_source: self.trigger_source,
        }
    }
}

/// What is stored of a timeline run while it waits: the run at the current schema version.
pub open spec fn spec_timeline_pending_body(r: TimelineRequestView) -> TimelineBodyView {
    TimelineBodyView {
        schema_version: TIMELINE_PENDING_EXECUTION_BODY_SCHEMA_VERSION,
        plan: r.plan,
        context: r.context,
        resolve_context: r.resolve_context,
        trigger_source: r.trigger_source,
    }
}

/// The timeline run a stored body describes, when the body has the current schema version.
pub open spec fn spec_restored_timeline_request(b: TimelineBodyView) -> Option<TimelineRequestView> {
    if b.schema_version == TIMELINE_PENDING_EXECUTION_BODY_SCHEMA_VERSION {
        Some(
            TimelineRequestView {
                plan: b.plan,
                context: b.context,
                resolve_context: b.resolve_context,
                trigger_source: b.trigger_source,
            },
        )
    } else {
        None
    }
}

/// Law: the body stored for a waiting timeline run reads back as that run.
pub proof fn law_timeline_pending_body_round_trips(request: TimelineRequestView)
    ensures
        spec_restored_timeline_request(spec_timeline_pending_body(request)) == Some(request),
{
}

impl TimelineAdmissionExecutionRequest {
    /// A timeline plan run that asks for admission.
    pub fn new(
        plan: TimelinePlan,
        context: TimelineExecutionContext,
        resolve_context: ResolveContext,
        trigger_source: ChoreographyTriggerSource,
    ) -> (r: Self)
        ensures
            r == (TimelineAdmissionExecutionRequest { plan, context, resolve_context, trigger_source }),
    {
        TimelineAdmissionExecutionRequest { plan, context, resolve_context, trigger_source }
    }

    /// What is stored of this run while it waits: everything but runtime handles, at the
    /// current schema version.
    pub fn pending_body(&self) -> (r: TimelinePendingExecutionBody)
        ensures
            r@ == spec_timeline_pending_body(self@),
    {
        TimelinePendingExecutionBody {
            schema_version: TIMELINE_PENDING_EXECUTION_BODY_SCHEMA_VERSION,
            plan: self.plan.duplicate(),
            context: self.context.clone(),
            resolve_context: self.resolve_context,
            trigger_source: self.trigger_source,
        }
    }

    /// The run a stored body describes; a body of another schema version is refused.
    pub fn from_pending_body(body: TimelinePendingExecutionBody) -> (r: BuddyResult<Self>)
        ensures
            spec_restored_timeline_request(body@) matches Some(q) ==> r matches Ok(x) && x@ == q,
            spec_restored_timeline_request(body@) is None ==> r is Err && r->Err_0@
                == crate::error::BuddyErrorView::Validation(
                "unsupported pending timeline execution body schemaVersion="@ + crate::text::spec_decimal(
                    body.schema_version as nat,
                ),
            ),
    {
        if body.schema_version != TIMELINE_PENDING_EXECUTION_BODY_SCHEMA_VERSION {
            let n = crate::text::decimal_string(body.schema_version as u128);
            return Err(BuddyError::Validation(crate::text::concat_str(
                "unsupported pending timeline execution body schemaVersion=",
                n.as_str(),
            )));
        }
        Ok(
            TimelineAdmissionExecutionRequest {
                plan: body.plan,
                context: body.context,
                resolve_context: body.resolve_context,
                trigger_source: body.trigger_source,
            },
        )
    }
}

/// What keeps the bodies of runs that wait for admission, so that they outlive the process. A
/// store that keeps a record holds, as that record, the plan of every body it was asked to
/// persist, in order; a store that keeps none is promised nothing of. Whether a write succeeds
/// is the implementation's own: nothing is claimed of it here.
pub trait PendingExecutionStore {
    /// Whether this store keeps a record of what it was asked to persist. A store that does not
    /// say so keeps none.
    closed spec fn keeps_record(&self) -> bool {
        false
    }

    /// The bodies this store was asked to persist, in order, where it keeps a record: each by
    /// its plan id, with whether the store answered that it stored it.
    closed spec fn requested_bodies(&self) -> Seq<(Seq<char>, bool)> {
        Seq::empty()
    }

    fn persist_dev_fixture(&mut self, request: &DevFixtureAdmissionExecutionRequest) -> (r: BuddyResult<()>)
        ensures
            final(self).keeps_record() == old(self).keeps_record(),
            old(self).keeps_record() ==> final(self).requested_bodies() == old(self).requested_bodies().push(
                (request.context.plan_id@, r is Ok),
            ),
    ;

    fn persist_timeline(&mut self, request: &TimelineAdmissionExecutionRequest) -> (r: BuddyResult<()>)
        ensures
            final(self).keeps_record() == old(self).keeps_record(),
            old(self).keeps_record() ==> final(self).requested_bodies() == old(self).requested_bodies().push(
                (request.plan.plan_id@, r is Ok),
            ),
    ;

    fn delete_pending_body(&mut self, plan_id: &str) -> (r: BuddyResult<()>)
        ensures
            final(self).keeps_record() == old(self).keeps_record(),
            old(self).keeps_record() ==> final(self).requested_bodies() == old(self).requested_bodies(),
    ;
}

/// What runs after a plan failed (the system's recovery). Whatever it does is the
/// implementation's own, but for one thing: it may add to the action log, and keeps what the
/// log holds.
pub trait ExecutionFailureRecovery {
    fn dev_fixture_failed<L: ActionLogSink>(
        &mut self,
        log: &mut L,
        failed_plan: &DevFixturePlan,
        failed_step_id: &str,
        error: &BuddyError,
        resolve_context: &ResolveContext,
    )
        ensures
            final(log).keeps_record() == old(log).keeps_record(),
            old(log).keeps_record() ==> crate::action_log::log_kept(old(log).requested_events(), final(log).requested_events()),
    ;

    fn admitted_dev_fixture_failed<L: ActionLogSink>(
        &mut self,
        log: &mut L,
        admission: &mut ChoreographyAdmissionState,
        failed_plan: &DevFixturePlan,
        failed_step_id: &str,
        error: &BuddyError,
        resolve_context: &ResolveContext,
    )
        ensures
            final(log).keeps_record() == old(log).keeps_record(),
            old(log).keeps_record() ==> crate::action_log::log_kept(old(log).requested_events(), final(log).requested_events()),
    ;

    fn admitted_timeline_failed<L: ActionLogSink, S: PendingExecutionStore>(
        &mut self,
        log: &mut L,
        store: &mut S,
        admission: &mut ChoreographyAdmissionState,
        failed_plan: &TimelinePlan,
        failed_step_id: &str,
        error: &BuddyError,
        resolve_context: &ResolveContext,
    ) -> (r: BuddyResult<()>)
        ensures
            final(log).keeps_record() == old(log).keeps_record(),
            old(log).keeps_record() ==> crate::action_log::log_kept(old(log).requested_events(), final(log).requested_events()),
    ;
}

/// The decision preempted a running step that must be interrupted before the plan runs.
pub open spec fn needs_interrupt(d: crate::admission::AdmissionDecisionView) -> bool {
    d matches crate::admission::AdmissionDecisionView::Preempted { interrupted_step_id, .. } && interrupted_step_id is Some
}

/// The running step that a decision preempted and that must be interrupted, with the reason
/// the executor is given: the decision's own reason code.
pub open spec fn spec_step_to_interrupt(d: crate::admission::AdmissionDecisionView) -> Option<(Seq<char>, Seq<char>)> {
    match d {
        crate::admission::AdmissionDecisionView::Preempted { interrupted_step_id: Some(step_id), reason_code, .. } => Some(
            (step_id, reason_code),
        ),
        _ => None,
    }
}

/// The running step that the decision preempted, with the reason to give the executor when it
/// is interrupted; none for any other decision.
pub fn step_to_interrupt(decision: &ChoreographyAdmissionDecision) -> (r: Option<(&str, &str)>)
    ensures
        match spec_step_to_interrupt(decision@) {
            Some((step_id, reason_code)) => r matches Some((s, c)) && s@ == step_id && c@ == reason_code,
            None => r is None,
        },
{
    match decision {
        ChoreographyAdmissionDecision::Preempted { interrupted_step_id: Some(step_id), reason_code, .. } => Some(
            (step_id.as_str(), reason_code.as_str()),
        ),
        _ => None,
    }
}

/// When the admitted plan preempted a running step, asks the executor to interrupt it, with
/// the decision's reason, and answers what the executor answered; otherwise there is nothing
/// to interrupt and the executor is not asked.
pub fn interrupt_preempted_active_step<E: ChoreographyStepExecutor>(executor: &E, decision: &ChoreographyAdmissionDecision) -> (r:
    BuddyResult<()>)
    ensures
        spec_step_to_interrupt(decision@) is None ==> r is Ok,
        !needs_interrupt(decision@) ==> r is Ok,
{
    match step_to_interrupt(decision) {
        Some((step_id, reason_code)) => executor.interrupt_step(step_id, reason_code),
        None => Ok(()),
    }
}

/// The step a fixture plan reports as running when it asks for admission.
pub fn dev_fixture_plan_active_step(
    plan: &DevFixturePlan,
    registry: Option<&ActionRegistry>,
    resolve_context: &ResolveContext,
) -> (r: TimelineActiveStep)
    ensures
        plan.steps@.len() == 0 ==> r.step_id@ == plan.plan_id@,
        plan.steps@.len() > 0 ==> r.step_id@ == plan.steps@[0]@.step_id(),
{
    timeline_steps_active_step(plan.plan_id.as_str(), &plan.steps, registry, resolve_context)
}

/// The step a timeline plan reports as running when it asks for admission.
pub fn timeline_plan_active_step(
    plan: &TimelinePlan,
    registry: Option<&ActionRegistry>,
    resolve_context: &ResolveContext,
) -> (r: TimelineActiveStep)
    ensures
        plan.steps@.len() == 0 ==> r.step_id@ == plan.plan_id@,
        plan.steps@.len() > 0 ==> r.step_id@ == plan.steps@[0]@.step_id(),
{
    timeline_steps_active_step(plan.plan_id.as_str(), &plan.steps, registry, resolve_context)
}

/// The admission request of a plan, from its source, with the step it starts by running.
fn admission_request(plan_id: &str, trigger_source: ChoreographyTriggerSource, active: &TimelineActiveStep) -> (r:
    ChoreographyAdmissionRequest)
    ensures
        r@.plan_id == plan_id@,
        r@.trigger_source == trigger_source,
{
    ChoreographyAdmissionRequest::new(plan_id, trigger_source).with_active_step(
        active.step_id.as_str(),
        active.interrupt_policy,
    )
}

/// The decision is what admission decides, from the state before, about a request for the plan
/// from the source.
pub open spec fn admitted_as(
    before: crate::admission::AdmissionStateView,
    after: crate::admission::AdmissionStateView,
    decision: crate::admission::AdmissionDecisionView,
    plan_id: Seq<char>,
    trigger_source: ChoreographyTriggerSource,
) -> bool {
    exists|q: AdmissionRequestView|
        q.plan_id == plan_id && q.trigger_source == trigger_source && #[trigger] spec_admit(before, q) == (after, decision)
}

/// A waiting run's body is written ahead of the admission decision: when the store was asked
/// for the plan's body and answered that it did not store it, nothing was handed to the log;
/// so the decision reaches the log only after the store answered that the body is stored.
pub open spec fn body_written_ahead(
    store_before: Seq<(Seq<char>, bool)>,
    store_after: Seq<(Seq<char>, bool)>,
    log_before: Seq<crate::action_log::ActionLogEventView>,
    log_after: Seq<crate::action_log::ActionLogEventView>,
    plan_id: Seq<char>,
) -> bool {
    store_after.len() > store_before.len() ==> store_after == store_before.push((plan_id, store_after.last().1)) && (
    !store_after.last().1 ==> log_after == log_before)
}

/// The plan does not hold the active slot.
pub open spec fn slot_given_back(state: crate::admission::AdmissionStateView, plan_id: Seq<char>) -> bool {
    !(state.active matches Some(a) && a.plan_id == plan_id)
}

/// Admission, from the state before, could make a request for the plan from the source wait.
pub open spec fn may_defer(
    before: crate::admission::AdmissionStateView,
    plan_id: Seq<char>,
    trigger_source: ChoreographyTriggerSource,
) -> bool {
    exists|after: crate::admission::AdmissionStateView, d: crate::admission::AdmissionDecisionView|
        d is Deferred && #[trigger] admitted_as(before, after, d, plan_id, trigger_source)
}

/// The record kept what it held, and the first event added after it records an admission
/// decision about the plan, under `event_id`, at `at`.
pub open spec fn admission_logged_first(
    before: Seq<crate::action_log::ActionLogEventView>,
    after: Seq<crate::action_log::ActionLogEventView>,
    event_id: Seq<char>,
    plan_id: Seq<char>,
    trigger_source: Seq<char>,
    at: Seq<char>,
) -> bool {
    &&& crate::action_log::log_kept(before, after)
    &&& after.len() > before.len()
    &&& crate::action_log::is_admission_event(after[before.len() as int], event_id, plan_id, trigger_source, at)
}

/// The report of a fixture that asked for admission: its plan, the decision, and whether it ran.
#[derive(Debug)]
pub struct DevFixtureAdmissionExecutionReport {
    pub plan_id: String,
    pub decision: ChoreographyAdmissionDecision,
    pub executed: bool,
}

/// A fixture that was admitted to run now.
#[derive(Debug)]
pub struct AdmittedDevFixtureExecution {
    pub context: DevFixtureExecutionContext,
    pub resolve_context: ResolveContext,
    pub fixture_kind: DevFixtureKind,
    pub decision: ChoreographyAdmissionDecision,
}

/// What admission decided about a fixture, with the run when it may run now.
#[derive(Debug)]
pub struct ScheduledDevFixtureExecution {
    pub plan_id: String,
    pub decision: ChoreographyAdmissionDecision,
    pub execution: Option<AdmittedDevFixtureExecution>,
}

/// Asks admission for a fixture run and logs the decision. A run that must wait is stored and
/// queued when a queue is given; a run that may go now comes back to be run. When the decision
/// cannot be logged, what was admitted is undone: a stored body is deleted and dropped from the
/// waiting plans, and a plan that took the active slot gives it back.
pub fn admit_dev_fixture_internal<L: ActionLogSink, S: PendingExecutionStore>(
    log: &mut L,
    store: &mut S,
    admission: &mut ChoreographyAdmissionState,
    pending_queue: Option<&mut PendingDevFixtureExecutionQueue>,
    registry: Option<&ActionRegistry>,
    request: DevFixtureAdmissionExecutionRequest,
) -> (r: Result<ScheduledDevFixtureExecution, DevFixtureExecutionError>)
    ensures
        final(log).keeps_record() == old(log).keeps_record(),
        old(log).keeps_record() ==> crate::action_log::log_kept(old(log).requested_events(), final(log).requested_events()),
        request.fixture_kind == DevFixtureKind::AiMacroDemo ==> (crate::fixture::spec_ai_macro_demo_steps(
            request.context.plan_id@,
            request.context.beat_id@,
            request.context.step_id@,
            request.context.created_at@,
        ) is Err ==> r is Err && final(admission)@ == old(admission)@),
        r matches Ok(s) ==> s.plan_id@ == request.context.plan_id@ && (s.execution is Some) == (s.decision@
            is Accepted || s.decision@ is Preempted) && exists|after: crate::admission::AdmissionStateView|
            admitted_as(old(admission)@, after, s.decision@, request.context.plan_id@, request.trigger_source),
        r matches Ok(s) ==> admitted_as(
            old(admission)@,
            final(admission)@,
            s.decision@,
            request.context.plan_id@,
            request.trigger_source,
        ),
        r matches Ok(s) && s.decision@ is Deferred && pending_queue is Some ==> (old(store).keeps_record()
            ==> final(store).requested_bodies() == old(store).requested_bodies().push((request.context.plan_id@, true))),
        pending_queue matches Some(q) ==> (r matches Ok(s) && s.decision@ is Deferred ==> final(q).requests@.len() > 0
            && final(q).requests@.last().context.plan_id@ == request.context.plan_id@),
        old(log).keeps_record() && (r is Ok || r matches Err(DevFixtureExecutionError::ActionLog(_)))
            ==> final(log).requested_events().len() == old(log).requested_events().len() + 1
            && admission_logged_first(
            old(log).requested_events(),
            final(log).requested_events(),
            request.context.admission_event_id@,
            request.context.plan_id@,
            "devFixture"@,
            request.context.created_at@,
        ),
        old(log).keeps_record() && (r matches Err(DevFixtureExecutionError::Execution(_)))
            ==> final(log).requested_events() == old(log).requested_events(),
        (r matches Err(DevFixtureExecutionError::Execution(_))) ==> !crate::fixture_run::spec_dev_fixture_plan_buildable(
            request.fixture_kind,
            request.context,
        ) || (pending_queue is Some && may_defer(old(admission)@, request.context.plan_id@, request.trigger_source)),
        old(store).keeps_record() && old(log).keeps_record() ==> body_written_ahead(
            old(store).requested_bodies(),
            final(store).requested_bodies(),
            old(log).requested_events(),
            final(log).requested_events(),
            request.context.plan_id@,
        ),
        old(store).keeps_record() ==> final(store).requested_bodies().len() <= old(store).requested_bodies().len() + 1,
{
    let plan = match create_dev_fixture_plan(request.fixture_kind, &request.context) {
        Ok(p) => p,
        Err(e) => return Err(DevFixtureExecutionError::Execution(e)),
    };
    let ghost before = admission@;
    let active_step = dev_fixture_plan_active_step(&plan, registry, &request.resolve_context);
    let admission_request = admission_request(plan.plan_id.as_str(), request.trigger_source, &active_step);
    let ghost q = admission_request@;
    let decision = admission.admit_request(admission_request);
    let ghost after = admission@;
    assert(spec_admit(before, q) == (after, decision@));
    assert(admitted_as(before, after, decision@, plan.plan_id@, request.trigger_source));
    let should_execute = should_execute_admission_decision(&decision);
    let deferred = match &decision {
        ChoreographyAdmissionDecision::Deferred { .. } => pending_queue.is_some(),
        _ => false,
    };
    let deferred_request = if deferred {
        Some(DevFixtureAdmissionExecutionRequest::new(
            request.context.clone().with_new_admission_event_id(),
            request.resolve_context,
            request.fixture_kind,
            request.trigger_source,
        ))
    } else {
        None
    };
    if let Some(deferred_request) = &deferred_request {
        if let Err(error) = store.persist_dev_fixture(deferred_request) {
            proof {
                assert(decision@ is Deferred);
                assert(may_defer(before, plan.plan_id@, request.trigger_source));
            }
            admission.discard_pending_plan(plan.plan_id.as_str());
            return Err(DevFixtureExecutionError::Execution(error));
        }
    }
    let event = executor_admission_decision_for_source(
        request.context.admission_event_id.as_str(),
        plan.plan_id.as_str(),
        &plan.source_ref,
        "devFixture",
        &decision,
        request.context.created_at.as_str(),
    );
    if let Err(error) = log.append_event(&event) {
        if deferred_request.is_some() {
            admission.discard_pending_plan(plan.plan_id.as_str());
            let _ = store.delete_pending_body(plan.plan_id.as_str());
        }
        if should_execute {
            let _ = admission.release_plan_preserving_pending(plan.plan_id.as_str());
        }
        return Err(DevFixtureExecutionError::ActionLog(error));
    }
    if !should_execute {
        if let Some(queue) = pending_queue {
            if let Some(deferred_request) = deferred_request {
                queue.enqueue_persisted(deferred_request);
            }
        }
        return Ok(ScheduledDevFixtureExecution { plan_id: plan.plan_id.clone(), decision, execution: None });
    }
    let copy = decision.duplicate();
    Ok(ScheduledDevFixtureExecution {
        plan_id: plan.plan_id.clone(),
        decision: copy,
        execution: Some(AdmittedDevFixtureExecution {
            context: request.context,
            resolve_context: request.resolve_context,
            fixture_kind: request.fixture_kind,
            decision,
        }),
    })
}

/// Asks admission for a fixture run; a run that must wait is stored and queued.
pub fn admit_dev_fixture_with_pending_queue<L: ActionLogSink, S: PendingExecutionStore>(
    log: &mut L,
    store: &mut S,
    admission: &mut ChoreographyAdmissionState,
    pending_queue: &mut PendingDevFixtureExecutionQueue,
    registry: Option<&ActionRegistry>,
    request: DevFixtureAdmissionExecutionRequest,
) -> (r: Result<ScheduledDevFixtureExecution, DevFixtureExecutionError>)
    ensures
        final(log).keeps_record() == old(log).keeps_record(),
        old(log).keeps_record() ==> crate::action_log::log_kept(old(log).requested_events(), final(log).requested_events()),
        r matches Ok(s) ==> s.plan_id@ == request.context.plan_id@ && (s.execution is Some) == (s.decision@
            is Accepted || s.decision@ is Preempted) && admitted_as(
            old(admission)@,
            final(admission)@,
            s.decision@,
            request.context.plan_id@,
            request.trigger_source,
        ),
        (r matches Err(DevFixtureExecutionError::Execution(_))) ==> !crate::fixture_run::spec_dev_fixture_plan_buildable(
            request.fixture_kind,
            request.context,
        ) || may_defer(old(admission)@, request.context.plan_id@, request.trigger_source),
        old(log).keeps_record() && (r is Ok || r matches Err(DevFixtureExecutionError::ActionLog(_)))
            ==> final(log).requested_events().len() == old(log).requested_events().len() + 1
            && admission_logged_first(
            old(log).requested_events(),
            final(log).requested_events(),
            request.context.admission_event_id@,
            request.context.plan_id@,
            "devFixture"@,
            request.context.created_at@,
        ),
        r matches Ok(s) && s.decision@ is Deferred ==> final(pending_queue).requests@.len() > 0
            && final(pending_queue).requests@.last().context.plan_id@ == request.context.plan_id@ && (old(store).keeps_record() ==> final(store).requested_bodies() == old(store).requested_bodies().push(
            (request.context.plan_id@, true),
        )),
        old(store).keeps_record() && old(log).keeps_record() ==> body_written_ahead(
            old(store).requested_bodies(),
            final(store).requested_bodies(),
            old(log).requested_events(),
            final(log).requested_events(),
            request.context.plan_id@,
        ),
        old(store).keeps_record() ==> final(store).requested_bodies().len() <= old(store).requested_bodies().len() + 1,
{
    admit_dev_fixture_internal(log, store, admission, Some(pending_queue), registry, request)
}

/// When a release handed the active slot to a waiting fixture, takes that fixture out of the
/// queue and asks admission for it again; otherwise there is nothing to admit.
pub fn admit_released_pending_dev_fixture<L: ActionLogSink, S: PendingExecutionStore>(
    log: &mut L,
    store: &mut S,
    admission: &mut ChoreographyAdmissionState,
    pending_queue: &mut PendingDevFixtureExecutionQueue,
    registry: Option<&ActionRegistry>,
    release: ChoreographyAdmissionRelease,
) -> (r: Option<Result<ScheduledDevFixtureExecution, DevFixtureExecutionError>>)
    ensures
        final(log).keeps_record() == old(log).keeps_record(),
        old(log).keeps_record() ==> crate::action_log::log_kept(old(log).requested_events(), final(log).requested_events()),
        !(release@ is ReleasedWithPending) ==> r is None && final(admission)@ == old(admission)@,
        release@ matches crate::admission::AdmissionReleaseView::ReleasedWithPending { pending_plan_id, .. } ==> (r is Some
            <==> crate::execution_context::spec_queue_position(old(pending_queue).requests@, pending_plan_id) is Some),
{
    let pending_plan_id = match release {
        ChoreographyAdmissionRelease::ReleasedWithPending { pending_plan_id, .. } => pending_plan_id,
        _ => return None,
    };
    let request = match pending_queue.take(pending_plan_id.as_str()) {
        Some(r) => r,
        None => return None,
    };
    Some(admit_dev_fixture_internal(log, store, admission, Some(pending_queue), registry, request))
}

/// The listener of a plan that runs under admission: each step it starts is recorded as the
/// plan's active step, and when it fails the plan gives up the active slot and the recovery
/// runs.
pub struct AdmittedDevFixtureEvents<'a, R: ExecutionFailureRecovery> {
    pub admission: &'a mut ChoreographyAdmissionState,
    pub recovery: &'a mut R,
    pub plan: &'a DevFixturePlan,
    pub resolve_context: &'a ResolveContext,
}

impl<'a, R: ExecutionFailureRecovery> TimelineExecutionEvents for AdmittedDevFixtureEvents<'a, R> {
    fn step_starting(&mut self, step: &TimelineStep, interrupt_policy: SidecarInterruptPolicy) -> BuddyResult<()> {
        refresh_admitted_plan_active_step(self.admission, self.plan.plan_id.as_str(), step, interrupt_policy)
    }

    fn step_completed(&mut self, step: &TimelineStep) -> BuddyResult<StepCompletionDecision> {
        Ok(StepCompletionDecision::Continue)
    }

    fn execution_failed<L: ActionLogSink>(&mut self, log: &mut L, failed_step_id: &str, error: &BuddyError) {
        let _ = self.admission.release_plan_preserving_pending(self.plan.plan_id.as_str());
        self.recovery.admitted_dev_fixture_failed(log, self.admission, self.plan, failed_step_id, error, self.resolve_context);
    }
}

/// The listener of a plan that runs without admission: only a failure is acted on, by running
/// the recovery.
pub struct UnadmittedDevFixtureEvents<'a, R: ExecutionFailureRecovery> {
    pub recovery: &'a mut R,
    pub plan: &'a DevFixturePlan,
    pub resolve_context: &'a ResolveContext,
}

impl<'a, R: ExecutionFailureRecovery> TimelineExecutionEvents for UnadmittedDevFixtureEvents<'a, R> {
    fn step_starting(&mut self, step: &TimelineStep, interrupt_policy: SidecarInterruptPolicy) -> BuddyResult<()> {
        Ok(())
    }

    fn step_completed(&mut self, step: &TimelineStep) -> BuddyResult<StepCompletionDecision> {
        Ok(StepCompletionDecision::Continue)
    }

    fn execution_failed<L: ActionLogSink>(&mut self, log: &mut L, failed_step_id: &str, error: &BuddyError) {
        self.recovery.dev_fixture_failed(log, self.plan, failed_step_id, error, self.resolve_context);
    }
}

/// Runs a developer fixture without asking for admission; when it fails, the recovery runs.
pub fn execute_dev_fixture<E: ChoreographyStepExecutor, L: ActionLogSink, R: ExecutionFailureRecovery>(
    executor: &E,
    log: &mut L,
    recovery: &mut R,
    registry: &ActionRegistry,
    context: &DevFixtureExecutionContext,
    resolve_context: &ResolveContext,
    fixture_kind: DevFixtureKind,
) -> (r: Result<DevFixtureExecutionReport, DevFixtureExecutionError>)
    ensures
        final(log).keeps_record() == old(log).keeps_record(),
        old(log).keeps_record() ==> crate::action_log::log_kept(old(log).requested_events(), final(log).requested_events()),
        r matches Ok(rep) ==> rep.plan_id@ == context.plan_id@,
        old(log).keeps_record() && crate::fixture_run::spec_dev_fixture_plan_buildable(fixture_kind, *context)
            ==> crate::action_log::logged_first_plan_started(
            old(log).requested_events(),
            final(log).requested_events(),
            context.plan_started_event_id@,
            context.plan_id@,
            context.created_at@,
        ),
{
    let plan = match create_dev_fixture_plan(fixture_kind, context) {
        Ok(p) => p,
        Err(e) => return Err(DevFixtureExecutionError::Execution(e)),
    };
    let mut events = UnadmittedDevFixtureEvents { recovery, plan: &plan, resolve_context };
    execute_dev_fixture_with_step_start(executor, log, &mut events, registry, context, resolve_context, fixture_kind)
}

/// Runs the fixture that plays one action, without asking for admission.
pub fn execute_single_play_action_dev_fixture<E: ChoreographyStepExecutor, L: ActionLogSink, R: ExecutionFailureRecovery>(
    executor: &E,
    log: &mut L,
    recovery: &mut R,
    registry: &ActionRegistry,
    context: &DevFixtureExecutionContext,
    resolve_context: &ResolveContext,
) -> (r: Result<DevFixtureExecutionReport, DevFixtureExecutionError>)
    ensures
        final(log).keeps_record() == old(log).keeps_record(),
        old(log).keeps_record() ==> crate::action_log::log_kept(old(log).requested_events(), final(log).requested_events()),
        r matches Ok(rep) ==> rep.plan_id@ == context.plan_id@,
        old(log).keeps_record() && crate::fixture_run::spec_dev_fixture_plan_buildable(DevFixtureKind::SinglePlayAction, *context)
            ==> crate::action_log::logged_first_plan_started(
            old(log).requested_events(),
            final(log).requested_events(),
            context.plan_started_event_id@,
            context.plan_id@,
            context.created_at@,
        ),
{
    execute_dev_fixture(executor, log, recovery, registry, context, resolve_context, DevFixtureKind::SinglePlayAction)
}

/// Runs the fixture that demonstrates the AI macros, without asking for admission.
pub fn execute_ai_macro_demo_dev_fixture<E: ChoreographyStepExecutor, L: ActionLogSink, R: ExecutionFailureRecovery>(
    executor: &E,
    log: &mut L,
    recovery: &mut R,
    registry: &ActionRegistry,
    context: &DevFixtureExecutionContext,
    resolve_context: &ResolveContext,
) -> (r: Result<DevFixtureExecutionReport, DevFixtureExecutionError>)
    ensures
        final(log).keeps_record() == old(log).keeps_record(),
        old(log).keeps_record() ==> crate::action_log::log_kept(old(log).requested_events(), final(log).requested_events()),
        r matches Ok(rep) ==> rep.plan_id@ == context.plan_id@,
        old(log).keeps_record() && crate::fixture_run::spec_dev_fixture_plan_buildable(DevFixtureKind::AiMacroDemo, *context)
            ==> crate::action_log::logged_first_plan_started(
            old(log).requested_events(),
            final(log).requested_events(),
            context.plan_started_event_id@,
            context.plan_id@,
            context.created_at@,
        ),
{
    execute_dev_fixture(executor, log, recovery, registry, context, resolve_context, DevFixtureKind::AiMacroDemo)
}

/// Asks admission for a fixture run, logs the decision, and runs the fixture when it may run
/// now: a preempted step is interrupted first, and the plan gives up the active slot when it
/// ends. A fixture that may not run now is reported as not run.
pub fn execute_dev_fixture_with_admission<E: ChoreographyStepExecutor, L: ActionLogSink, R: ExecutionFailureRecovery>(
    executor: &E,
    log: &mut L,
    recovery: &mut R,
    admission: &mut ChoreographyAdmissionState,
    registry: &ActionRegistry,
    context: &DevFixtureExecutionContext,
    resolve_context: &ResolveContext,
    fixture_kind: DevFixtureKind,
    trigger_source: ChoreographyTriggerSource,
) -> (r: Result<DevFixtureAdmissionExecutionReport, DevFixtureExecutionError>)
    ensures
        final(log).keeps_record() == old(log).keeps_record(),
        old(log).keeps_record() ==> crate::action_log::log_kept(old(log).requested_events(), final(log).requested_events()),
        r matches Ok(rep) ==> rep.plan_id@ == context.plan_id@ && rep.executed == (rep.decision@ is Accepted
            || rep.decision@ is Preempted),
        old(log).keeps_record() && crate::fixture_run::spec_dev_fixture_plan_buildable(fixture_kind, *context) ==> ({
            let before = old(log).requested_events();
            let after = final(log).requested_events();
            &&& crate::action_log::log_kept(before, after)
            &&& after.len() > before.len()
            &&& crate::action_log::is_admission_event(
                after[before.len() as int],
                context.admission_event_id@,
                context.plan_id@,
                "devFixture"@,
                context.created_at@,
            )
        }),
        old(log).keeps_record() ==> (r matches Ok(rep) && !rep.executed ==> final(log).requested_events().len()
            == old(log).requested_events().len() + 1),
        old(log).keeps_record() ==> (r matches Ok(rep) && rep.executed ==> crate::action_log::logged_first_plan_started(
            old(log).requested_events().push(final(log).requested_events()[old(log).requested_events().len() as int]),
            final(log).requested_events(),
            context.plan_started_event_id@,
            context.plan_id@,
            context.created_at@,
        )),
        r matches Ok(rep) ==> exists|after: crate::admission::AdmissionStateView|
            admitted_as(old(admission)@, after, rep.decision@, context.plan_id@, trigger_source),
        r matches Ok(rep) ==> (rep.executed ==> slot_given_back(final(admission)@, context.plan_id@)),
        r matches Ok(rep) ==> (!rep.executed ==> admitted_as(old(admission)@, final(admission)@, rep.decision@, context.plan_id@, trigger_source)),
{
    let plan = match create_dev_fixture_plan(fixture_kind, context) {
        Ok(p) => p,
        Err(e) => return Err(DevFixtureExecutionError::Execution(e)),
    };
    let active_step = dev_fixture_plan_active_step(&plan, Some(registry), resolve_context);
    let ghost before = admission@;
    let admission_request = admission_request(plan.plan_id.as_str(), trigger_source, &active_step);
    let ghost q = admission_request@;
    let decision = admission.admit_request(admission_request);
    let ghost decided = admission@;
    assert(spec_admit(before, q) == (decided, decision@));
    assert(admitted_as(before, decided, decision@, plan.plan_id@, trigger_source));
    let should_execute = should_execute_admission_decision(&decision);
    let event = executor_admission_decision_for_source(
        context.admission_event_id.as_str(),
        plan.plan_id.as_str(),
        &plan.source_ref,
        "devFixture",
        &decision,
        context.created_at.as_str(),
    );
    if let Err(error) = log.append_event(&event) {
        if should_execute {
            let _ = admission.release_plan_preserving_pending(plan.plan_id.as_str());
        }
        return Err(DevFixtureExecutionError::ActionLog(error));
    }
    if !should_execute {
        return Ok(DevFixtureAdmissionExecutionReport { plan_id: plan.plan_id.clone(), decision, executed: false });
    }
    if let Err(error) = interrupt_preempted_active_step(executor, &decision) {
        let _ = admission.release_plan_preserving_pending(plan.plan_id.as_str());
        return Err(DevFixtureExecutionError::Execution(error));
    }
    let result = {
        let mut events = AdmittedDevFixtureEvents { admission, recovery, plan: &plan, resolve_context };
        execute_dev_fixture_with_step_start(executor, log, &mut events, registry, context, resolve_context, fixture_kind)
    };
    let _ = admission.release_plan_preserving_pending(plan.plan_id.as_str());
    match result {
        Ok(report) => Ok(DevFixtureAdmissionExecutionReport { plan_id: report.plan_id, decision, executed: true }),
        Err(e) => Err(e),
    }
}

/// Runs the fixture that plays one action under admission.
pub fn execute_single_play_action_dev_fixture_with_admission<E: ChoreographyStepExecutor, L: ActionLogSink, R: ExecutionFailureRecovery>(
    executor: &E,
    log: &mut L,
    recovery: &mut R,
    admission: &mut ChoreographyAdmissionState,
    registry: &ActionRegistry,
    context: &DevFixtureExecutionContext,
    resolve_context: &ResolveContext,
    trigger_source: ChoreographyTriggerSource,
) -> (r: Result<DevFixtureAdmissionExecutionReport, DevFixtureExecutionError>)
    ensures
        final(log).keeps_record() == old(log).keeps_record(),
        old(log).keeps_record() ==> crate::action_log::log_kept(old(log).requested_events(), final(log).requested_events()),
        r matches Ok(rep) ==> rep.plan_id@ == context.plan_id@,
        old(log).keeps_record() && crate::fixture_run::spec_dev_fixture_plan_buildable(DevFixtureKind::SinglePlayAction, *context) ==> ({
            let before = old(log).requested_events();
            let after = final(log).requested_events();
            &&& crate::action_log::log_kept(before, after)
            &&& after.len() > before.len()
            &&& crate::action_log::is_admission_event(
                after[before.len() as int],
                context.admission_event_id@,
                context.plan_id@,
                "devFixture"@,
                context.created_at@,
            )
        }),
        old(log).keeps_record() ==> (r matches Ok(rep) && !rep.executed ==> final(log).requested_events().len()
            == old(log).requested_events().len() + 1),
        old(log).keeps_record() ==> (r matches Ok(rep) && rep.executed ==> crate::action_log::logged_first_plan_started(
            old(log).requested_events().push(final(log).requested_events()[old(log).requested_events().len() as int]),
            final(log).requested_events(),
            context.plan_started_event_id@,
            context.plan_id@,
            context.created_at@,
        )),
        r matches Ok(rep) ==> exists|after: crate::admission::AdmissionStateView|
            admitted_as(old(admission)@, after, rep.decision@, context.plan_id@, trigger_source),
{
    execute_dev_fixture_with_admission(
        executor,
        log,
        recovery,
        admission,
        registry,
        context,
        resolve_context,
        DevFixtureKind::SinglePlayAction,
        trigger_source,
    )
}

/// Runs the fixture that demonstrates the AI macros under admission.
pub fn execute_ai_macro_demo_dev_fixture_with_admission<E: ChoreographyStepExecutor, L: ActionLogSink, R: ExecutionFailureRecovery>(
    executor: &E,
    log: &mut L,
    recovery: &mut R,
    admission: &mut ChoreographyAdmissionState,
    registry: &ActionRegistry,
    context: &DevFixtureExecutionContext,
    resolve_context: &ResolveContext,
    trigger_source: ChoreographyTriggerSource,
) -> (r: Result<DevFixtureAdmissionExecutionReport, DevFixtureExecutionError>)
    ensures
        final(log).keeps_record() == old(log).keeps_record(),
        old(log).keeps_record() ==> crate::action_log::log_kept(old(log).requested_events(), final(log).requested_events()),
        r matches Ok(rep) ==> rep.plan_id@ == context.plan_id@,
        old(log).keeps_record() && crate::fixture_run::spec_dev_fixture_plan_buildable(DevFixtureKind::AiMacroDemo, *context) ==> ({
            let before = old(log).requested_events();
            let after = final(log).requested_events();
            &&& crate::action_log::log_kept(before, after)
            &&& after.len() > before.len()
            &&& crate::action_log::is_admission_event(
                after[before.len() as int],
                context.admission_event_id@,
                context.plan_id@,
                "devFixture"@,
                context.created_at@,
            )
        }),
        old(log).keeps_record() ==> (r matches Ok(rep) && !rep.executed ==> final(log).requested_events().len()
            == old(log).requested_events().len() + 1),
        old(log).keeps_record() ==> (r matches Ok(rep) && rep.executed ==> crate::action_log::logged_first_plan_started(
            old(log).requested_events().push(final(log).requested_events()[old(log).requested_events().len() as int]),
            final(log).requested_events(),
            context.plan_started_event_id@,
            context.plan_id@,
            context.created_at@,
        )),
        r matches Ok(rep) ==> exists|after: crate::admission::AdmissionStateView|
            admitted_as(old(admission)@, after, rep.decision@, context.plan_id@, trigger_source),
{
    execute_dev_fixture_with_admission(
        executor,
        log,
        recovery,
        admission,
        registry,
        context,
        resolve_context,
        DevFixtureKind::AiMacroDemo,
        trigger_source,
    )
}

/// The plan ids of queued timeline runs, in queue order.
pub open spec fn queued_timeline_plan_ids(requests: Seq<TimelineAdmissionExecutionRequest>) -> Seq<Seq<char>> {
    requests.map_values(|r: TimelineAdmissionExecutionRequest| r.plan.plan_id@)
}

/// The queue without the runs of one plan, in order.
pub open spec fn spec_timeline_queue_without(requests: Seq<TimelineAdmissionExecutionRequest>, plan_id: Seq<char>) -> Seq<
    TimelineAdmissionExecutionRequest,
>
    decreases requests.len(),
{
    if requests.len() == 0 {
        requests
    } else {
        let rest = spec_timeline_queue_without(requests.drop_last(), plan_id);
        if requests.last().plan.plan_id@ == plan_id {
            rest
        } else {
            rest.push(requests.last())
        }
    }
}

/// The first index of a run of one plan.
pub open spec fn spec_timeline_queue_position(requests: Seq<TimelineAdmissionExecutionRequest>, plan_id: Seq<char>) -> Option<int> {
    if exists|i: int| 0 <= i < requests.len() && requests[i].plan.plan_id@ == plan_id {
        Some(choose|i: int|
            0 <= i < requests.len() && requests[i].plan.plan_id@ == plan_id && forall|j: int|
                0 <= j < i ==> requests[j].plan.plan_id@ != plan_id)
    } else {
        None
    }
}

/// The queue without a plan's runs holds none of its runs, and only plan ids the queue held;
/// when the queue held each plan at most once, so does the result.
pub proof fn lemma_timeline_queue_without(requests: Seq<TimelineAdmissionExecutionRequest>, plan_id: Seq<char>)
    ensures
        forall|k: Seq<char>| #[trigger]
            queued_timeline_plan_ids(spec_timeline_queue_without(requests, plan_id)).contains(k) ==> k != plan_id
                && queued_timeline_plan_ids(requests).contains(k),
        queued_timeline_plan_ids(requests).no_duplicates() ==> queued_timeline_plan_ids(
            spec_timeline_queue_without(requests, plan_id),
        ).no_duplicates(),
    decreases requests.len(),
{
    if requests.len() > 0 {
        let init = requests.drop_last();
        lemma_timeline_queue_without(init, plan_id);
        let w = spec_timeline_queue_without(requests, plan_id);
        let wi = spec_timeline_queue_without(init, plan_id);
        let ids = queued_timeline_plan_ids(requests);
        assert(queued_timeline_plan_ids(init) =~= ids.drop_last());
        assert forall|k: Seq<char>| #[trigger] queued_timeline_plan_ids(w).contains(k) implies k != plan_id && ids.contains(k) by {
            let j = choose|j: int| 0 <= j < queued_timeline_plan_ids(w).len() && queued_timeline_plan_ids(w)[j] == k;
            if requests.last().plan.plan_id@ == plan_id || j < wi.len() {
                assert(queued_timeline_plan_ids(wi)[j] == k);
                assert(queued_timeline_plan_ids(wi).contains(k));
                let i = choose|i: int| 0 <= i < queued_timeline_plan_ids(init).len() && queued_timeline_plan_ids(init)[i] == k;
                assert(ids[i] == k);
            } else {
                assert(ids[requests.len() - 1] == k);
            }
        }
        if ids.no_duplicates() && requests.last().plan.plan_id@ != plan_id {
            let last_id = requests.last().plan.plan_id@;
            assert(ids.drop_last().no_duplicates());
            assert(!queued_timeline_plan_ids(wi).contains(last_id)) by {
                if queued_timeline_plan_ids(wi).contains(last_id) {
                    let i = choose|i: int| 0 <= i < queued_timeline_plan_ids(init).len() && queued_timeline_plan_ids(init)[i] == last_id;
                    assert(ids[i] == ids[requests.len() - 1]);
                }
            }
            assert(queued_timeline_plan_ids(w) =~= queued_timeline_plan_ids(wi).push(last_id));
            assert forall|a: int, b: int|
                0 <= a < queued_timeline_plan_ids(w).len() && 0 <= b < queued_timeline_plan_ids(w).len() && a != b implies queued_timeline_plan_ids(
                w,
            )[a] != queued_timeline_plan_ids(w)[b] by {
                if a < wi.len() && b < wi.len() {
                } else if a < wi.len() {
                    assert(queued_timeline_plan_ids(wi).contains(queued_timeline_plan_ids(w)[a]));
                } else if b < wi.len() {
                    assert(queued_timeline_plan_ids(wi).contains(queued_timeline_plan_ids(w)[b]));
                }
            }
        }
    }
}

/// Law: queueing a run keeps each plan queued at most once.
pub proof fn law_timeline_queue_holds_each_plan_once(
    requests: Seq<TimelineAdmissionExecutionRequest>,
    request: TimelineAdmissionExecutionRequest,
)
    requires
        queued_timeline_plan_ids(requests).no_duplicates(),
    ensures
        queued_timeline_plan_ids(spec_timeline_queue_without(requests, request.plan.plan_id@).push(request)).no_duplicates(),
{
    let id = request.plan.plan_id@;
    let w = spec_timeline_queue_without(requests, id);
    lemma_timeline_queue_without(requests, id);
    assert(queued_timeline_plan_ids(w.push(request)) =~= queued_timeline_plan_ids(w).push(id));
    assert forall|a: int, b: int|
        0 <= a < w.len() + 1 && 0 <= b < w.len() + 1 && a != b implies queued_timeline_plan_ids(w.push(request))[a]
        != queued_timeline_plan_ids(w.push(request))[b] by {
        if a < w.len() && b < w.len() {
        } else if a < w.len() {
            assert(queued_timeline_plan_ids(w).contains(queued_timeline_plan_ids(w)[a]));
        } else if b < w.len() {
            assert(queued_timeline_plan_ids(w).contains(queued_timeline_plan_ids(w)[b]));
        }
    }
}

/// Law: a run just queued is the one taken back for its plan, and taking it leaves the other
/// runs as they were, in order.
pub proof fn law_queued_timeline_run_is_taken_back(
    requests: Seq<TimelineAdmissionExecutionRequest>,
    request: TimelineAdmissionExecutionRequest,
)
    ensures
        ({
            let queue = spec_timeline_queue_without(requests, request.plan.plan_id@).push(request);
            &&& spec_timeline_queue_position(queue, request.plan.plan_id@) == Some(queue.len() - 1)
            &&& queue[queue.len() - 1] == request
            &&& queue.remove(queue.len() - 1) == spec_timeline_queue_without(requests, request.plan.plan_id@)
        }),
{
    let id = request.plan.plan_id@;
    let w = spec_timeline_queue_without(requests, id);
    let queue = w.push(request);
    lemma_timeline_queue_without(requests, id);
    assert forall|j: int| 0 <= j < w.len() implies queue[j].plan.plan_id@ != id by {
        assert(queued_timeline_plan_ids(w)[j] == w[j].plan.plan_id@);
        assert(queued_timeline_plan_ids(w).contains(w[j].plan.plan_id@));
    }
    let n = queue.len() - 1;
    assert(0 <= n < queue.len() && queue[n].plan.plan_id@ == id);
    let c = choose|i: int|
        0 <= i < queue.len() && queue[i].plan.plan_id@ == id && forall|j: int|
            0 <= j < i ==> queue[j].plan.plan_id@ != id;
    if c < n {
        assert(queue[c].plan.plan_id@ != id);
    }
    assert(queue.remove(n) =~= w);
}

/// Timeline runs that wait for admission, in the order they arrived.
#[derive(Debug, Default)]
pub struct PendingTimelineExecutionQueue {
    pub requests: Vec<TimelineAdmissionExecutionRequest>,
}

impl PendingTimelineExecutionQueue {
    /// An empty queue.
    pub fn new() -> (r: Self)
        ensures
            r.requests@.len() == 0,
    {
        PendingTimelineExecutionQueue { requests: Vec::new() }
    }

    fn position(&self, plan_id: &str) -> (r: Option<usize>)
        ensures
            match r {
                Some(i) => spec_timeline_queue_position(self.requests@, plan_id@) == Some(i as int) && i
                    < self.requests@.len() && self.requests@[i as int].plan.plan_id@ == plan_id@,
                None => spec_timeline_queue_position(self.requests@, plan_id@) is None,
            },
    {
        let mut i: usize = 0;
        while i < self.requests.len()
            invariant
                i <= self.requests@.len(),
                forall|j: int| 0 <= j < i ==> self.requests@[j].plan.plan_id@ != plan_id@,
            decreases self.requests@.len() - i,
        {
            if crate::text::str_eq(self.requests[i].plan.plan_id.as_str(), plan_id) {
                proof {
                    let c = choose|k: int|
                        0 <= k < self.requests@.len() && self.requests@[k].plan.plan_id@ == plan_id@ && forall|j: int|
                            0 <= j < k ==> self.requests@[j].plan.plan_id@ != plan_id@;
                    assert(0 <= i < self.requests@.len() && self.requests@[i as int].plan.plan_id@ == plan_id@);
                    if c < i {
                        assert(self.requests@[c].plan.plan_id@ != plan_id@);
                    } else if c > i {
                        assert(self.requests@[i as int].plan.plan_id@ != plan_id@);
                    }
                }
                return Some(i);
            }
            i = i + 1;
        }
        None
    }

    /// Stores a run's body and queues it; when the body cannot be stored the queue is left as
    /// it was and the error is returned.
    pub fn enqueue<S: PendingExecutionStore>(&mut self, store: &mut S, request: TimelineAdmissionExecutionRequest) -> (r:
        BuddyResult<()>)
        ensures
            r is Ok ==> final(self).requests@ == spec_timeline_queue_without(old(self).requests@, request.plan.plan_id@).push(
                request,
            ),
            r is Err ==> final(self).requests@ == old(self).requests@,
            final(store).keeps_record() == old(store).keeps_record(),
            old(store).keeps_record() ==> final(store).requested_bodies() == old(store).requested_bodies().push(
                (request.plan.plan_id@, r is Ok),
            ),
    {
        match store.persist_timeline(&request) {
            Ok(_) => {},
            Err(e) => return Err(e),
        }
        self.enqueue_persisted(request);
        Ok(())
    }

    /// Queues a run whose body is already stored; an earlier run of the same plan leaves.
    pub fn enqueue_persisted(&mut self, request: TimelineAdmissionExecutionRequest)
        ensures
            final(self).requests@ == spec_timeline_queue_without(old(self).requests@, request.plan.plan_id@).push(request),
    {
        let ghost old_requests = self.requests@;
        let mut rest: Vec<TimelineAdmissionExecutionRequest> = Vec::new();
        std::mem::swap(&mut rest, &mut self.requests);
        let mut kept: Vec<TimelineAdmissionExecutionRequest> = Vec::new();
        let ghost mut i: int = 0;
        assert(old_requests.take(0) =~= Seq::<TimelineAdmissionExecutionRequest>::empty());
        assert(rest@ =~= old_requests.skip(0));
        while rest.len() > 0
            invariant
                0 <= i <= old_requests.len(),
                rest@ == old_requests.skip(i),
                kept@ == spec_timeline_queue_without(old_requests.take(i), request.plan.plan_id@),
            decreases rest@.len(),
        {
            let item = rest.remove(0);
            proof {
                assert(item == old_requests[i]);
                assert(old_requests.take(i + 1).drop_last() =~= old_requests.take(i));
                assert(old_requests.take(i + 1).last() == old_requests[i]);
                assert(rest@ =~= old_requests.skip(i + 1));
            }
            if !crate::text::str_eq(item.plan.plan_id.as_str(), request.plan.plan_id.as_str()) {
                kept.push(item);
            }
            proof { i = i + 1; }
        }
        assert(old_requests.take(i) =~= old_requests);
        kept.push(request);
        self.requests = kept;
    }

    /// Takes the first run of a plan out of the queue.
    pub fn take(&mut self, plan_id: &str) -> (r: Option<TimelineAdmissionExecutionRequest>)
        ensures
            match spec_timeline_queue_position(old(self).requests@, plan_id@) {
                Some(i) => r == Some(old(self).requests@[i]) && final(self).requests@ == old(self).requests@.remove(i),
                None => r is None && final(self).requests@ == old(self).requests@,
            },
    {
        match self.position(plan_id) {
            Some(i) => Some(self.requests.remove(i)),
            None => None,
        }
    }

    /// Drops the first run of a plan that another run replaced; true when there was one.
    pub fn remove_replaced(&mut self, plan_id: &str) -> (r: bool)
        ensures
            match spec_timeline_queue_position(old(self).requests@, plan_id@) {
                Some(i) => r && final(self).requests@ == old(self).requests@.remove(i),
                None => !r && final(self).requests@ == old(self).requests@,
            },
    {
        match self.position(plan_id) {
            Some(i) => {
                let _ = self.requests.remove(i);
                true
            },
            None => false,
        }
    }

    /// True when a run of the plan is queued.
    pub fn contains(&self, plan_id: &str) -> (r: bool)
        ensures
            r == queued_timeline_plan_ids(self.requests@).contains(plan_id@),
    {
        let r = self.position(plan_id).is_some();
        proof {
            let ids = queued_timeline_plan_ids(self.requests@);
            if r {
                let i = spec_timeline_queue_position(self.requests@, plan_id@).unwrap();
                assert(ids[i] == plan_id@);
            } else {
                assert forall|k: int| 0 <= k < ids.len() implies ids[k] != plan_id@ by {
                    assert(ids[k] == self.requests@[k].plan.plan_id@);
                }
            }
        }
        r
    }

    /// The plan ids of the queued runs, in queue order.
    pub fn plan_ids(&self) -> (r: Vec<String>)
        ensures
            r@.map_values(|s: String| s@) == queued_timeline_plan_ids(self.requests@),
    {
        let mut out: Vec<String> = Vec::new();
        let mut i: usize = 0;
        while i < self.requests.len()
            invariant
                i <= self.requests@.len(),
                out@.len() == i,
                forall|k: int| 0 <= k < i ==> (#[trigger] out@[k])@ == self.requests@[k].plan.plan_id@,
            decreases self.requests@.len() - i,
        {
            out.push(self.requests[i].plan.plan_id.clone());
            i = i + 1;
        }
        assert(out@.map_values(|s: String| s@) =~= queued_timeline_plan_ids(self.requests@));
        out
    }
}

/// The report of a timeline plan that asked for admission: its plan, the decision, and whether
/// it ran.
#[derive(Debug)]
pub struct TimelineAdmissionExecutionReport {
    pub plan_id: String,
    pub decision: ChoreographyAdmissionDecision,
    pub executed: bool,
}

/// A timeline plan that was admitted to run now, expanded.
#[derive(Debug)]
pub struct AdmittedTimelineExecution {
    pub plan: TimelinePlan,
    pub context: TimelineExecutionContext,
    pub resolve_context: ResolveContext,
    pub trigger_source: ChoreographyTriggerSource,
    pub decision: ChoreographyAdmissionDecision,
}

/// What admission decided about a timeline plan, with the run when it may run now.
#[derive(Debug)]
pub struct ScheduledTimelineExecution {
    pub plan_id: String,
    pub decision: ChoreographyAdmissionDecision,
    pub execution: Option<AdmittedTimelineExecution>,
}

/// Expands a timeline plan's planner steps, asks admission for it and logs the decision. A
/// plan that must wait is stored and queued when a queue is given; a plan that may go now comes
/// back to be run. When the decision cannot be logged, what was admitted is undone.
pub fn admit_timeline_plan_internal<L: ActionLogSink, S: PendingExecutionStore>(
    log: &mut L,
    store: &mut S,
    admission: &mut ChoreographyAdmissionState,
    pending_queue: Option<&mut PendingTimelineExecutionQueue>,
    registry: Option<&ActionRegistry>,
    request: TimelineAdmissionExecutionRequest,
) -> (r: Result<ScheduledTimelineExecution, TimelineExecutionError>)
    ensures
        final(log).keeps_record() == old(log).keeps_record(),
        old(log).keeps_record() ==> crate::action_log::log_kept(old(log).requested_events(), final(log).requested_events()),
        crate::planner::spec_expand_steps(crate::timeline::steps_view(request.plan.steps@), None, None, Seq::empty())
            matches Err(e) ==> r matches Err(TimelineExecutionError::Execution(x)) && x@ == e && final(admission)@
            == old(admission)@,
        r matches Ok(s) ==> s.plan_id@ == request.plan.plan_id@ && (s.execution is Some) == (s.decision@
            is Accepted || s.decision@ is Preempted) && exists|after: crate::admission::AdmissionStateView|
            admitted_as(old(admission)@, after, s.decision@, request.plan.plan_id@, request.trigger_source),
        r matches Ok(s) ==> (s.execution matches Some(a) ==> a.plan.plan_id@ == request.plan.plan_id@ && a.decision@
            == s.decision@ && a.context == request.context && a.trigger_source == request.trigger_source),
        r matches Ok(s) ==> admitted_as(
            old(admission)@,
            final(admission)@,
            s.decision@,
            request.plan.plan_id@,
            request.trigger_source,
        ),
        crate::planner::spec_expand_planner_timeline_plan(crate::timeline::steps_view(request.plan.steps@)) matches Err(
            e,
        ) ==> r matches Err(TimelineExecutionError::Execution(x)) && x@ == e && final(admission)@ == old(admission)@
            && final(log).requested_events() == old(log).requested_events() && final(store).requested_bodies()
            == old(store).requested_bodies(),
        r matches Ok(s) && s.decision@ is Deferred && pending_queue is Some ==> (old(store).keeps_record()
            ==> final(store).requested_bodies() == old(store).requested_bodies().push((request.plan.plan_id@, true))),
        pending_queue matches Some(q) ==> (r matches Ok(s) && s.decision@ is Deferred ==> final(q).requests@.len() > 0
            && final(q).requests@.last().plan.plan_id@ == request.plan.plan_id@),
        old(log).keeps_record() && (r is Ok || r matches Err(TimelineExecutionError::ActionLog(_)))
            ==> final(log).requested_events().len() == old(log).requested_events().len() + 1
            && admission_logged_first(
            old(log).requested_events(),
            final(log).requested_events(),
            request.context.admission_event_id@,
            request.plan.plan_id@,
            request.trigger_source.spec_action_log_value(),
            request.context.created_at@,
        ),
        old(log).keeps_record() && (r matches Err(TimelineExecutionError::Execution(_)))
            ==> final(log).requested_events() == old(log).requested_events(),
        (r matches Err(TimelineExecutionError::Execution(_))) ==> crate::planner::spec_expand_planner_timeline_plan(
            crate::timeline::steps_view(request.plan.steps@),
        ) is Err || (pending_queue is Some && may_defer(old(admission)@, request.plan.plan_id@, request.trigger_source)),
        old(store).keeps_record() && old(log).keeps_record() ==> body_written_ahead(
            old(store).requested_bodies(),
            final(store).requested_bodies(),
            old(log).requested_events(),
            final(log).requested_events(),
            request.plan.plan_id@,
        ),
        old(store).keeps_record() ==> final(store).requested_bodies().len() <= old(store).requested_bodies().len() + 1,
{
    let TimelineAdmissionExecutionRequest { plan, context, resolve_context, trigger_source } = request;
    let plan = match expand_planner_timeline_plan(plan) {
        Ok(p) => p,
        Err(e) => return Err(TimelineExecutionError::Execution(e)),
    };
    let ghost before = admission@;
    let active_step = timeline_plan_active_step(&plan, registry, &resolve_context);
    let admission_request = admission_request(plan.plan_id.as_str(), trigger_source, &active_step);
    let ghost q = admission_request@;
    let decision = admission.admit_request(admission_request);
    let ghost decided = admission@;
    proof {
        assert(spec_admit(before, q) == (admission@, decision@));
        assert(admitted_as(before, decided, decision@, plan.plan_id@, trigger_source));
    }
    let should_execute = should_execute_admission_decision(&decision);
    let deferred = match &decision {
        ChoreographyAdmissionDecision::Deferred { .. } => pending_queue.is_some(),
        _ => false,
    };
    let deferred_request = if deferred {
        Some(TimelineAdmissionExecutionRequest {
            plan: plan.duplicate(),
            context: context.clone().with_new_admission_event_id(),
            resolve_context,
            trigger_source,
        })
    } else {
        None
    };
    if let Some(deferred_request) = &deferred_request {
        if let Err(error) = store.persist_timeline(deferred_request) {
            proof {
                assert(decision@ is Deferred);
                assert(may_defer(before, plan.plan_id@, trigger_source));
            }
            admission.discard_pending_plan(plan.plan_id.as_str());
            return Err(TimelineExecutionError::Execution(error));
        }
    }
    let event = executor_admission_decision_for_source(
        context.admission_event_id.as_str(),
        plan.plan_id.as_str(),
        &plan.source_ref,
        trigger_source.action_log_value(),
        &decision,
        context.created_at.as_str(),
    );
    if let Err(error) = log.append_event(&event) {
        if deferred_request.is_some() {
            admission.discard_pending_plan(plan.plan_id.as_str());
            let _ = store.delete_pending_body(plan.plan_id.as_str());
        }
        if should_execute {
            let _ = admission.release_plan_preserving_pending(plan.plan_id.as_str());
        }
        return Err(TimelineExecutionError::ActionLog(error));
    }
    if !should_execute {
        if let Some(queue) = pending_queue {
            if let Some(deferred_request) = deferred_request {
                queue.enqueue_persisted(deferred_request);
            }
        }
        return Ok(ScheduledTimelineExecution { plan_id: plan.plan_id.clone(), decision, execution: None });
    }
    let copy = decision.duplicate();
    let plan_id = plan.plan_id.clone();
    Ok(ScheduledTimelineExecution {
        plan_id,
        decision: copy,
        execution: Some(AdmittedTimelineExecution { plan, context, resolve_context, trigger_source, decision }),
    })
}

/// Asks admission for a timeline plan; a plan that must wait is stored and queued.
pub fn admit_timeline_plan_with_pending_queue<L: ActionLogSink, S: PendingExecutionStore>(
    log: &mut L,
    store: &mut S,
    admission: &mut ChoreographyAdmissionState,
    pending_queue: &mut PendingTimelineExecutionQueue,
    registry: Option<&ActionRegistry>,
    request: TimelineAdmissionExecutionRequest,
) -> (r: Result<ScheduledTimelineExecution, TimelineExecutionError>)
    ensures
        final(log).keeps_record() == old(log).keeps_record(),
        old(log).keeps_record() ==> crate::action_log::log_kept(old(log).requested_events(), final(log).requested_events()),
        r matches Ok(s) ==> s.plan_id@ == request.plan.plan_id@ && (s.execution is Some) == (s.decision@
            is Accepted || s.decision@ is Preempted) && admitted_as(
            old(admission)@,
            final(admission)@,
            s.decision@,
            request.plan.plan_id@,
            request.trigger_source,
        ),
        crate::planner::spec_expand_planner_timeline_plan(crate::timeline::steps_view(request.plan.steps@)) matches Err(
            e,
        ) ==> r matches Err(TimelineExecutionError::Execution(x)) && x@ == e && final(admission)@ == old(admission)@
            && final(log).requested_events() == old(log).requested_events(),
        (r matches Err(TimelineExecutionError::Execution(_))) ==> crate::planner::spec_expand_planner_timeline_plan(
            crate::timeline::steps_view(request.plan.steps@),
        ) is Err || may_defer(old(admission)@, request.plan.plan_id@, request.trigger_source),
        old(log).keeps_record() && (r is Ok || r matches Err(TimelineExecutionError::ActionLog(_)))
            ==> final(log).requested_events().len() == old(log).requested_events().len() + 1
            && admission_logged_first(
            old(log).requested_events(),
            final(log).requested_events(),
            request.context.admission_event_id@,
            request.plan.plan_id@,
            request.trigger_source.spec_action_log_value(),
            request.context.created_at@,
        ),
        r matches Ok(s) && s.decision@ is Deferred ==> final(pending_queue).requests@.len() > 0
            && final(pending_queue).requests@.last().plan.plan_id@ == request.plan.plan_id@ && (old(store).keeps_record()
            ==> final(store).requested_bodies() == old(store).requested_bodies().push((request.plan.plan_id@, true))),
        old(store).keeps_record() && old(log).keeps_record() ==> body_written_ahead(
            old(store).requested_bodies(),
            final(store).requested_bodies(),
            old(log).requested_events(),
            final(log).requested_events(),
            request.plan.plan_id@,
        ),
        old(store).keeps_record() ==> final(store).requested_bodies().len() <= old(store).requested_bodies().len() + 1,
{
    admit_timeline_plan_internal(log, store, admission, Some(pending_queue), registry, request)
}

/// When a release handed the active slot to a waiting timeline plan, takes it out of the queue
/// and asks admission for it again; otherwise there is nothing to admit.
pub fn admit_released_pending_timeline_plan<L: ActionLogSink, S: PendingExecutionStore>(
    log: &mut L,
    store: &mut S,
    admission: &mut ChoreographyAdmissionState,
    pending_queue: &mut PendingTimelineExecutionQueue,
    registry: Option<&ActionRegistry>,
    release: ChoreographyAdmissionRelease,
) -> (r: Option<Result<ScheduledTimelineExecution, TimelineExecutionError>>)
    ensures
        final(log).keeps_record() == old(log).keeps_record(),
        old(log).keeps_record() ==> crate::action_log::log_kept(old(log).requested_events(), final(log).requested_events()),
        !(release@ is ReleasedWithPending) ==> r is None && final(admission)@ == old(admission)@,
        release@ matches crate::admission::AdmissionReleaseView::ReleasedWithPending { pending_plan_id, .. } ==> (r is Some
            <==> spec_timeline_queue_position(old(pending_queue).requests@, pending_plan_id) is Some),
{
    let pending_plan_id = match release {
        ChoreographyAdmissionRelease::ReleasedWithPending { pending_plan_id, .. } => pending_plan_id,
        _ => return None,
    };
    let request = match pending_queue.take(pending_plan_id.as_str()) {
        Some(r) => r,
        None => return None,
    };
    Some(admit_timeline_plan_internal(log, store, admission, Some(pending_queue), registry, request))
}

/// The listener of a timeline plan that runs under admission: each step it starts is recorded
/// as the plan's active step, and when it fails the plan gives up the active slot and the
/// recovery runs.
pub struct AdmittedTimelineEvents<'a, S: PendingExecutionStore, R: ExecutionFailureRecovery> {
    pub store: &'a mut S,
    pub admission: &'a mut ChoreographyAdmissionState,
    pub recovery: &'a mut R,
    pub plan: &'a TimelinePlan,
    pub resolve_context: &'a ResolveContext,
}

impl<'a, S: PendingExecutionStore, R: ExecutionFailureRecovery> TimelineExecutionEvents for AdmittedTimelineEvents<
    'a,
    S,
    R,
> {
    fn step_starting(&mut self, step: &TimelineStep, interrupt_policy: SidecarInterruptPolicy) -> BuddyResult<()> {
        refresh_admitted_plan_active_step(self.admission, self.plan.plan_id.as_str(), step, interrupt_policy)
    }

    fn step_completed(&mut self, step: &TimelineStep) -> BuddyResult<StepCompletionDecision> {
        Ok(StepCompletionDecision::Continue)
    }

    fn execution_failed<L: ActionLogSink>(&mut self, log: &mut L, failed_step_id: &str, error: &BuddyError) {
        let _ = self.admission.release_plan_preserving_pending(self.plan.plan_id.as_str());
        let _ = self.recovery.admitted_timeline_failed(log, self.store, self.admission, self.plan, failed_step_id, error, self.resolve_context);
    }
}

/// Expands a timeline plan, asks admission for it, logs the decision, and runs it when it may
/// run now: a preempted step is interrupted first, and the plan gives up the active slot when
/// it ends. A plan that may not run now is reported as not run (and queued when a queue is
/// given).
pub fn execute_timeline_plan_with_admission_internal<
    E: ChoreographyStepExecutor,
    L: ActionLogSink,
    S: PendingExecutionStore,
    R: ExecutionFailureRecovery,
>(
    executor: &E,
    log: &mut L,
    store: &mut S,
    recovery: &mut R,
    admission: &mut ChoreographyAdmissionState,
    pending_queue: Option<&mut PendingTimelineExecutionQueue>,
    registry: &ActionRegistry,
    request: TimelineAdmissionExecutionRequest,
) -> (r: Result<TimelineAdmissionExecutionReport, TimelineExecutionError>)
    ensures
        final(log).keeps_record() == old(log).keeps_record(),
        old(log).keeps_record() ==> crate::action_log::log_kept(old(log).requested_events(), final(log).requested_events()),
        crate::planner::spec_expand_steps(crate::timeline::steps_view(request.plan.steps@), None, None, Seq::empty())
            matches Err(e) ==> r matches Err(TimelineExecutionError::Execution(x)) && x@ == e && final(admission)@
            == old(admission)@,
        r matches Ok(rep) ==> rep.plan_id@ == request.plan.plan_id@ && rep.executed == (rep.decision@ is Accepted
            || rep.decision@ is Preempted),
        old(log).keeps_record() && (r is Ok || r matches Err(TimelineExecutionError::ActionLog(_)))
            ==> admission_logged_first(
            old(log).requested_events(),
            final(log).requested_events(),
            request.context.admission_event_id@,
            request.plan.plan_id@,
            request.trigger_source.spec_action_log_value(),
            request.context.created_at@,
        ),
        old(log).keeps_record() && (r matches Err(TimelineExecutionError::Execution(_)))
            && crate::planner::spec_expand_planner_timeline_plan(crate::timeline::steps_view(request.plan.steps@)) is Ok
            && !(pending_queue is Some && may_defer(old(admission)@, request.plan.plan_id@, request.trigger_source))
            ==> admission_logged_first(
            old(log).requested_events(),
            final(log).requested_events(),
            request.context.admission_event_id@,
            request.plan.plan_id@,
            request.trigger_source.spec_action_log_value(),
            request.context.created_at@,
        ),
        old(log).keeps_record() ==> (r matches Ok(rep) && !rep.executed ==> final(log).requested_events().len()
            == old(log).requested_events().len() + 1),
        old(log).keeps_record() ==> (r matches Ok(rep) && rep.executed ==> crate::action_log::logged_first_plan_started(
            old(log).requested_events().push(final(log).requested_events()[old(log).requested_events().len() as int]),
            final(log).requested_events(),
            request.context.plan_started_event_id@,
            request.plan.plan_id@,
            request.context.created_at@,
        )),
        r matches Ok(rep) ==> (rep.executed ==> slot_given_back(final(admission)@, request.plan.plan_id@)),
        r matches Ok(rep) ==> (!rep.executed ==> admitted_as(old(admission)@, final(admission)@, rep.decision@, request.plan.plan_id@, request.trigger_source)),
{
    let scheduled = match admit_timeline_plan_internal(log, store, admission, pending_queue, Some(registry), request) {
        Ok(s) => s,
        Err(e) => return Err(e),
    };
    let admitted = match scheduled.execution {
        None => {
            return Ok(TimelineAdmissionExecutionReport {
                plan_id: scheduled.plan_id,
                decision: scheduled.decision,
                executed: false,
            });
        },
        Some(a) => a,
    };
    let AdmittedTimelineExecution { plan, context, resolve_context, trigger_source, decision } = admitted;
    if let Err(error) = interrupt_preempted_active_step(executor, &decision) {
        let _ = admission.release_plan_preserving_pending(plan.plan_id.as_str());
        return Err(TimelineExecutionError::Execution(error));
    }
    let result = {
        let mut events = AdmittedTimelineEvents {
            store,
            admission,
            recovery,
            plan: &plan,
            resolve_context: &resolve_context,
        };
        execute_timeline_plan_with_step_start(
            executor,
            log,
            &mut events,
            registry,
            &plan,
            &context,
            &resolve_context,
            trigger_source,
        )
    };
    let _ = admission.release_plan_preserving_pending(plan.plan_id.as_str());
    match result {
        Ok(report) => Ok(TimelineAdmissionExecutionReport { plan_id: report.plan_id, decision, executed: true }),
        Err(e) => Err(e),
    }
}

/// Runs a timeline plan under admission, without a queue for plans that must wait.
pub fn execute_timeline_plan_with_admission<
    E: ChoreographyStepExecutor,
    L: ActionLogSink,
    S: PendingExecutionStore,
    R: ExecutionFailureRecovery,
>(
    executor: &E,
    log: &mut L,
    store: &mut S,
    recovery: &mut R,
    admission: &mut ChoreographyAdmissionState,
    registry: &ActionRegistry,
    request: TimelineAdmissionExecutionRequest,
) -> (r: Result<TimelineAdmissionExecutionReport, TimelineExecutionError>)
    ensures
        final(log).keeps_record() == old(log).keeps_record(),
        old(log).keeps_record() ==> crate::action_log::log_kept(old(log).requested_events(), final(log).requested_events()),
        r matches Ok(rep) ==> rep.plan_id@ == request.plan.plan_id@,
        old(log).keeps_record() && (r is Ok || r matches Err(TimelineExecutionError::ActionLog(_)))
            ==> admission_logged_first(
            old(log).requested_events(),
            final(log).requested_events(),
            request.context.admission_event_id@,
            request.plan.plan_id@,
            request.trigger_source.spec_action_log_value(),
            request.context.created_at@,
        ),
        old(log).keeps_record() && (r matches Err(TimelineExecutionError::Execution(_)))
            && crate::planner::spec_expand_planner_timeline_plan(crate::timeline::steps_view(request.plan.steps@)) is Ok
            && !(false && may_defer(old(admission)@, request.plan.plan_id@, request.trigger_source))
            ==> admission_logged_first(
            old(log).requested_events(),
            final(log).requested_events(),
            request.context.admission_event_id@,
            request.plan.plan_id@,
            request.trigger_source.spec_action_log_value(),
            request.context.created_at@,
        ),
        old(log).keeps_record() ==> (r matches Ok(rep) && !rep.executed ==> final(log).requested_events().len()
            == old(log).requested_events().len() + 1),
        old(log).keeps_record() ==> (r matches Ok(rep) && rep.executed ==> crate::action_log::logged_first_plan_started(
            old(log).requested_events().push(final(log).requested_events()[old(log).requested_events().len() as int]),
            final(log).requested_events(),
            request.context.plan_started_event_id@,
            request.plan.plan_id@,
            request.context.created_at@,
        )),
{
    execute_timeline_plan_with_admission_internal(executor, log, store, recovery, admission, None, registry, request)
}

/// Runs a timeline plan under admission; a plan that must wait is stored and queued.
pub fn execute_timeline_plan_with_admission_and_pending_queue<
    E: ChoreographyStepExecutor,
    L: ActionLogSink,
    S: PendingExecutionStore,
    R: ExecutionFailureRecovery,
>(
    executor: &E,
    log: &mut L,
    store: &mut S,
    recovery: &mut R,
    admission: &mut ChoreographyAdmissionState,
    pending_queue: &mut PendingTimelineExecutionQueue,
    registry: &ActionRegistry,
    request: TimelineAdmissionExecutionRequest,
) -> (r: Result<TimelineAdmissionExecutionReport, TimelineExecutionError>)
    ensures
        final(log).keeps_record() == old(log).keeps_record(),
        old(log).keeps_record() ==> crate::action_log::log_kept(old(log).requested_events(), final(log).requested_events()),
        r matches Ok(rep) ==> rep.plan_id@ == request.plan.plan_id@,
        old(log).keeps_record() && (r is Ok || r matches Err(TimelineExecutionError::ActionLog(_)))
            ==> admission_logged_first(
            old(log).requested_events(),
            final(log).requested_events(),
            request.context.admission_event_id@,
            request.plan.plan_id@,
            request.trigger_source.spec_action_log_value(),
            request.context.created_at@,
        ),
        old(log).keeps_record() && (r matches Err(TimelineExecutionError::Execution(_)))
            && crate::planner::spec_expand_planner_timeline_plan(crate::timeline::steps_view(request.plan.steps@)) is Ok
            && !(true && may_defer(old(admission)@, request.plan.plan_id@, request.trigger_source))
            ==> admission_logged_first(
            old(log).requested_events(),
            final(log).requested_events(),
            request.context.admission_event_id@,
            request.plan.plan_id@,
            request.trigger_source.spec_action_log_value(),
            request.context.created_at@,
        ),
        old(log).keeps_record() ==> (r matches Ok(rep) && !rep.executed ==> final(log).requested_events().len()
            == old(log).requested_events().len() + 1),
        old(log).keeps_record() ==> (r matches Ok(rep) && rep.executed ==> crate::action_log::logged_first_plan_started(
            old(log).requested_events().push(final(log).requested_events()[old(log).requested_events().len() as int]),
            final(log).requested_events(),
            request.context.plan_started_event_id@,
            request.plan.plan_id@,
            request.context.created_at@,
        )),
{
    execute_timeline_plan_with_admission_internal(executor, log, store, recovery, admission, Some(pending_queue), registry, request)
}

/// When a release handed the active slot to a waiting timeline plan, takes it out of the queue
/// and runs it under admission; otherwise there is nothing to run.
pub fn execute_released_pending_timeline_plan<
    E: ChoreographyStepExecutor,
    L: ActionLogSink,
    S: PendingExecutionStore,
    R: ExecutionFailureRecovery,
>(
    executor: &E,
    log: &mut L,
    store: &mut S,
    recovery: &mut R,
    admission: &mut ChoreographyAdmissionState,
    pending_queue: &mut PendingTimelineExecutionQueue,
    registry: &ActionRegistry,
    release: ChoreographyAdmissionRelease,
) -> (r: Option<Result<TimelineAdmissionExecutionReport, TimelineExecutionError>>)
    ensures
        final(log).keeps_record() == old(log).keeps_record(),
        old(log).keeps_record() ==> crate::action_log::log_kept(old(log).requested_events(), final(log).requested_events()),
        !(release@ is ReleasedWithPending) ==> r is None && final(admission)@ == old(admission)@,
        release@ matches crate::admission::AdmissionReleaseView::ReleasedWithPending { pending_plan_id, .. } ==> (r is Some
            <==> spec_timeline_queue_position(old(pending_queue).requests@, pending_plan_id) is Some),
{
    let pending_plan_id = match release {
        ChoreographyAdmissionRelease::ReleasedWithPending { pending_plan_id, .. } => pending_plan_id,
        _ => return None,
    };
    let request = match pending_queue.take(pending_plan_id.as_str()) {
        Some(r) => r,
        None => return None,
    };
    Some(execute_timeline_plan_with_admission_internal(
        executor,
        log,
        store,
        recovery,
        admission,
        Some(pending_queue),
        registry,
        request,
    ))
}

} // verus!
