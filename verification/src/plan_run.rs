use vstd::prelude::*;

use crate::action_log::{
    move_by_path_payload, move_by_path_resolved_payload, move_to_payload, move_to_resolved_payload,
    play_action_completed_payload, play_action_failed_payload, play_action_resolved_payload, position_payload,
    resolve_context_json, restore_completed_payload, restore_resolved_payload, skip_payload, step_event,
    timeline_plan_completed, timeline_plan_failed, timeline_plan_interrupted, timeline_plan_started, wait_payload,
    ActionLogEventIds, ActionLogFamily, ActionLogSink, ActionLogTimelinePlanStats,
};
use crate::admission::ChoreographyTriggerSource;
use crate::json::{json_str, json_u64, JsonValue, JsonView};
use crate::error::{spec_error_message, BuddyError, BuddyErrorView, BuddyResult};
use crate::execution_context::TimelineExecutionContext;
use crate::executor::{
    indexed_event_id, spec_validate_handoff_policies, validate_pending_handoff_finalizer_interrupt_policies, nested_timeline_step_event_index, pending_handoff_finalizer_step_index,
    planner_side_timeline_step_error, snapshot_position_unavailable_error, spec_validate_wait_step, timeline_step_interrupt_policy, validate_wait_step, TimelineRuntimeState,
    TimelineStepExecutionReport,
};
use crate::registry::{ActionRegistry, ResolveContext};
use crate::step_execution::{retry_decision, ChoreographyStepExecutor, RetryDecision};
use crate::step_protocol::SidecarInterruptPolicy;
use crate::step_resolution::{
    resolve_move_by_path_after_action, resolve_move_to_after_action, resolve_play_action_step,
    spec_resolve_after_action, spec_resolve_play_action_step, AfterActionResolution,
};
use crate::text::concat_str;
use crate::timeline::{
    lemma_steps_view, steps_view, TimelineFailurePolicy, MoveToStep, RecoverStep, ReplaceStep, RestorePositionStep, RetryStep, SnapshotPositionStep, TimelinePlan,
    TimelineStep, TimelineStepView, TryStep,
};

verus! {

/// Whether a plan goes on after a step completed: with the next step, with the finalizer of a
/// pending handoff, or by yielding to a plan that waits.
#[derive(Debug, Clone, PartialEq, Eq)]
pub enum StepCompletionDecision {
    Continue,
    RunPendingHandoffFinalizer { step_id: String },
    YieldToPendingPlan,
}

/// Who is told as a plan runs: before each step (and may refuse it), after each completed step
/// (and decides how the plan goes on), and when the plan fails. Every answer is the
/// implementation's own; what is told of a failure may add to the action log but keeps what
/// the log holds. A listener that keeps a record holds the id of every step it was told was
/// starting, in order.
pub trait TimelineExecutionEvents {
    /// Whether this listener keeps a record of the steps it was told of. A listener that does
    /// not say so keeps none.
    open spec fn keeps_record(&self) -> bool {
        false
    }

    /// The ids of the steps this listener was told were starting, in order, where it keeps a
    /// record.
    open spec fn started_steps(&self) -> Seq<Seq<char>> {
        Seq::empty()
    }

    fn step_starting(&mut self, step: &TimelineStep, interrupt_policy: SidecarInterruptPolicy) -> (r: BuddyResult<()>)
        ensures
            final(self).keeps_record() == old(self).keeps_record(),
            old(self).keeps_record() ==> final(self).started_steps() == old(self).started_steps().push(step@.step_id()),
    ;

    fn step_completed(&mut self, step: &TimelineStep) -> BuddyResult<StepCompletionDecision>;

    fn execution_failed<L: ActionLogSink>(&mut self, log: &mut L, failed_step_id: &str, error: &BuddyError)
        ensures
            final(log).keeps_record() == old(log).keeps_record(),
            old(log).keeps_record() ==> crate::action_log::log_kept(old(log).requested_events(), final(log).requested_events()),
    ;
}

/// Why a plan run stopped: the action log could not be written, or the plan failed.
#[derive(Debug, PartialEq, Eq)]
pub enum TimelineExecutionError {
    ActionLog(BuddyError),
    Execution(BuddyError),
}

impl TimelineExecutionError {
    pub open spec fn spec_message(self) -> Seq<char> {
        match self {
            TimelineExecutionError::ActionLog(e) => "action log write failed: "@ + spec_error_message(e@),
            TimelineExecutionError::Execution(e) => "timeline execution failed: "@ + spec_error_message(e@),
        }
    }

    /// The text a user sees for this error.
    pub fn message(&self) -> (s: String)
        ensures
            s@ == self.spec_message(),
    {
        match self {
            TimelineExecutionError::ActionLog(e) => concat_str("action log write failed: ", e.message().as_str()),
            TimelineExecutionError::Execution(e) => concat_str("timeline execution failed: ", e.message().as_str()),
        }
    }
}

/// A step that stopped its plan: why, what ran before it stopped, and the nested step that
/// failed, when it was not the step itself.
#[derive(Debug, PartialEq, Eq)]
pub struct TimelineStepExecutionFailure {
    pub error: TimelineExecutionError,
    pub report: TimelineStepExecutionReport,
    pub failed_step_id: Option<String>,
}

/// What a plan step runs with.
pub struct TimelineStepExecutionScope<'a> {
    pub registry: &'a ActionRegistry,
    pub resolve_context: &'a ResolveContext,
    pub plan: &'a TimelinePlan,
    pub context: &'a TimelineExecutionContext,
    pub trigger_source: ChoreographyTriggerSource,
}

/// The report's counts and time, and that it holds no yield.
pub open spec fn report_is(r: TimelineStepExecutionReport, completed: u64, failed: u64, skipped: u64, duration_ms: u64) -> bool {
    &&& r.completed_step_count == completed
    &&& r.failed_step_count == failed
    &&& r.skipped_step_count == skipped
    &&& r.duration_ms == duration_ms
    &&& r.yielded_to_pending_plan_after_step_id is None
}

/// The step failed by itself with `e`, before or without a nested step failing.
pub open spec fn fails_with(r: Result<TimelineStepExecutionReport, TimelineStepExecutionFailure>, e: BuddyErrorView) -> bool {
    &&& r is Err
    &&& r->Err_0.error matches TimelineExecutionError::Execution(x) && x@ == e
    &&& report_is(r->Err_0.report, 0, 1, 0, 0)
    &&& r->Err_0.failed_step_id is None
}

/// The plan step is refused before anything of it runs, whatever the executor answers: it is
/// planner-side, cannot resolve, is invalid, restores a position never saved, or retries no
/// attempt.
pub open spec fn spec_plan_step_refused(
    actions: Seq<crate::registry::ActionDefinitionView>,
    saved: Map<Seq<char>, (i32, i32)>,
    step: TimelineStepView,
) -> bool {
    match step {
        TimelineStepView::Repeat { .. } | TimelineStepView::Choose { .. } | TimelineStepView::SetFallback { .. } => true,
        TimelineStepView::PlayAction(s) => spec_resolve_play_action_step(actions, s) is Err,
        TimelineStepView::MoveTo(s) => spec_resolve_after_action(
            actions,
            s.after_action_id,
            s.fallback_after_action_id,
            "moveTo"@,
        ) is Err,
        TimelineStepView::MoveByPath(s) => spec_resolve_after_action(
            actions,
            s.after_action_id,
            s.fallback_after_action_id,
            "moveByPath"@,
        ) is Err,
        TimelineStepView::Wait(s) => spec_validate_wait_step(s.duration_ms, s.timeout_ms) is Err,
        TimelineStepView::RestorePosition(s) => !saved.dom().contains(s.snapshot_id),
        TimelineStepView::Retry { max_attempts, .. } => max_attempts == 0,
        _ => false,
    }
}

/// A refused step fails with its own error and names no nested step.
proof fn lemma_refused_step_fails(
    actions: Seq<crate::registry::ActionDefinitionView>,
    saved: Map<Seq<char>, (i32, i32)>,
    step: TimelineStepView,
    r: Result<TimelineStepExecutionReport, TimelineStepExecutionFailure>,
)
    requires
        spec_plan_step_refused(actions, saved, step),
        spec_plan_step_outcome_known(actions, saved, step, r),
    ensures
        r is Err,
        r->Err_0.error is Execution,
        r->Err_0.failed_step_id is None,
        report_is(r->Err_0.report, 0, 1, 0, 0),
{
}

/// What running a plan step is known to give whatever the executor, the action log and the
/// listener answer: planner-side steps are refused; a step that cannot resolve, or is invalid,
/// fails with that error before anything runs; and a step that succeeds reports one completed
/// (or skipped) step and the time it took.
pub open spec fn spec_plan_step_outcome_known(
    actions: Seq<crate::registry::ActionDefinitionView>,
    saved: Map<Seq<char>, (i32, i32)>,
    step: TimelineStepView,
    r: Result<TimelineStepExecutionReport, TimelineStepExecutionFailure>,
) -> bool {
    match step {
        TimelineStepView::Repeat { .. } | TimelineStepView::Choose { .. } | TimelineStepView::SetFallback { .. } => {
            fails_with(
                r,
                BuddyErrorView::Validation(
                    step.kind() + " timeline step is planner-side and cannot execute directly: "@ + step.step_id(),
                ),
            )
        },
        TimelineStepView::PlayAction(s) => match spec_resolve_play_action_step(actions, s) {
            Err(e) => fails_with(r, e),
            Ok(res) => r is Ok ==> report_is(r->Ok_0, 1, 0, 0, res.duration_ms),
        },
        TimelineStepView::MoveTo(s) => match spec_resolve_after_action(
            actions,
            s.after_action_id,
            s.fallback_after_action_id,
            "moveTo"@,
        ) {
            Err(e) => fails_with(r, e),
            Ok(_) => r is Ok ==> report_is(r->Ok_0, 1, 0, 0, 0),
        },
        TimelineStepView::MoveByPath(s) => match spec_resolve_after_action(
            actions,
            s.after_action_id,
            s.fallback_after_action_id,
            "moveByPath"@,
        ) {
            Err(e) => fails_with(r, e),
            Ok(_) => r is Ok ==> report_is(r->Ok_0, 1, 0, 0, 0),
        },
        TimelineStepView::Wait(s) => match spec_validate_wait_step(s.duration_ms, s.timeout_ms) {
            Err(e) => fails_with(r, e),
            Ok(_) => r is Ok ==> report_is(r->Ok_0, 1, 0, 0, s.duration_ms),
        },
        TimelineStepView::Skip(_) => r is Ok ==> report_is(r->Ok_0, 0, 0, 1, 0),
        TimelineStepView::SnapshotPosition(_) => r is Ok ==> report_is(r->Ok_0, 1, 0, 0, 0),
        TimelineStepView::RestorePosition(s) => if !saved.dom().contains(s.snapshot_id) {
            fails_with(r, BuddyErrorView::Runtime("timeline position snapshot is missing: "@ + s.snapshot_id))
        } else {
            r is Ok ==> report_is(r->Ok_0, 1, 0, 0, 0)
        },
        TimelineStepView::Retry { step_id, max_attempts, steps, .. } => if max_attempts == 0 {
            fails_with(
                r,
                BuddyErrorView::Validation("retry timeline step must contain at least one attempt: "@ + step_id),
            )
        } else {
            &&& steps.len() == 0 ==> r is Ok && report_is(r->Ok_0, 0, 0, 0, 0)
            &&& steps.len() > 0 && spec_plan_step_refused(actions, saved, steps[0]) ==> r is Err
                && r->Err_0.error is Execution
        },
        TimelineStepView::Replace { steps, replacement_steps, .. } => spec_plan_alternative_outcome_known(
            actions,
            saved,
            steps,
            replacement_steps,
            r,
        ),
        TimelineStepView::Recover { steps, recovery_steps, .. } => spec_plan_alternative_outcome_known(
            actions,
            saved,
            steps,
            recovery_steps,
            r,
        ),
        TimelineStepView::Try { steps, fallback_steps, .. } => spec_plan_alternative_outcome_known(
            actions,
            saved,
            steps,
            fallback_steps,
            r,
        ),
        _ => true,
    }
}

/// What a plan step with an alternative branch is known to give: no primary steps succeed with
/// nothing run; when the first primary step is refused the alternative steps run in their
/// place, so that none succeed and a refused first one fails the step, naming it.
pub open spec fn spec_plan_alternative_outcome_known(
    actions: Seq<crate::registry::ActionDefinitionView>,
    saved: Map<Seq<char>, (i32, i32)>,
    primary: Seq<TimelineStepView>,
    alternative: Seq<TimelineStepView>,
    r: Result<TimelineStepExecutionReport, TimelineStepExecutionFailure>,
) -> bool {
    &&& primary.len() == 0 ==> r is Ok && report_is(r->Ok_0, 0, 0, 0, 0)
    &&& primary.len() > 0 && spec_plan_step_refused(actions, saved, primary[0]) ==> {
        &&& alternative.len() == 0 ==> r is Ok
        &&& alternative.len() > 0 && spec_plan_step_refused(actions, saved, alternative[0]) ==> r is Err
            && r->Err_0.error is Execution && (r->Err_0.failed_step_id matches Some(id) && id@
            == alternative[0].step_id())
    }
}

/// The events a step that runs on the executor hands to the log, where it keeps a record: its
/// resolved event with `resolved`; then, when the step succeeds, its completed event with
/// `completed`, and when the executor refuses it, its failed event with `failed` of the
/// error's message. A failed write ends the step after the event it was writing.
pub open spec fn spec_executor_step_logged(
    scope: TimelineStepExecutionScope,
    before: Seq<crate::action_log::ActionLogEventView>,
    after: Seq<crate::action_log::ActionLogEventView>,
    step_index: nat,
    step: TimelineStepView,
    r: Result<TimelineStepExecutionReport, TimelineStepExecutionFailure>,
    resolved: JsonView,
    completed: JsonView,
    failed: spec_fn(Seq<char>) -> JsonView,
) -> bool {
    let resolved_event = spec_scope_step_event(
        scope,
        scope.context.step_resolved_event_id@,
        step_index,
        step,
        "resolved"@,
        "stepResolved"@,
        resolved,
        scope.context.resolved_at@,
    );
    let completed_event = spec_scope_step_event(
        scope,
        scope.context.step_completed_event_id@,
        step_index,
        step,
        "completed"@,
        "stepCompleted"@,
        completed,
        scope.context.completed_at@,
    );
    &&& r is Ok ==> after == before.push(resolved_event).push(completed_event)
    &&& r is Err ==> match r->Err_0.error {
        TimelineExecutionError::Execution(e) => after == before.push(resolved_event).push(
            spec_scope_step_event(
                scope,
                scope.context.step_failed_event_id@,
                step_index,
                step,
                "failed"@,
                "stepFailed"@,
                failed(spec_error_message(e@)),
                scope.context.completed_at@,
            ),
        ),
        TimelineExecutionError::ActionLog(_) => before.len() < after.len() <= before.len() + 2
            && crate::action_log::log_kept(before.push(resolved_event), after),
    }
}

/// The events a plan step that runs on the executor hands to the log once it resolved, with
/// the payloads of its kind.
pub open spec fn spec_plan_step_logged(
    scope: TimelineStepExecutionScope,
    before: Seq<crate::action_log::ActionLogEventView>,
    after: Seq<crate::action_log::ActionLogEventView>,
    step_index: nat,
    step: TimelineStepView,
    r: Result<TimelineStepExecutionReport, TimelineStepExecutionFailure>,
) -> bool {
    match step {
        TimelineStepView::PlayAction(s) => match spec_resolve_play_action_step(scope.registry@, s) {
            Ok(res) => spec_executor_step_logged(
                scope,
                before,
                after,
                step_index,
                step,
                r,
                crate::action_log::spec_play_action_resolved_payload(res, *scope.resolve_context),
                crate::action_log::spec_play_action_completed_payload(res, res.duration_ms),
                |m: Seq<char>| crate::action_log::spec_play_action_failed_payload(res, m),
            ),
            Err(_) => true,
        },
        TimelineStepView::MoveTo(s) => match spec_resolve_after_action(
            scope.registry@,
            s.after_action_id,
            s.fallback_after_action_id,
            "moveTo"@,
        ) {
            Ok(a) => spec_executor_step_logged(
                scope,
                before,
                after,
                step_index,
                step,
                r,
                crate::action_log::spec_move_to_resolved_payload(
                    s.target,
                    s.timeout_ms,
                    s.after_action_id,
                    a,
                    *scope.resolve_context,
                    false,
                ),
                crate::action_log::spec_move_to_payload(s.target, s.timeout_ms, None, false),
                |m: Seq<char>| crate::action_log::spec_move_to_payload(s.target, s.timeout_ms, Some(m), false),
            ),
            Err(_) => true,
        },
        TimelineStepView::MoveByPath(s) => match spec_resolve_after_action(
            scope.registry@,
            s.after_action_id,
            s.fallback_after_action_id,
            "moveByPath"@,
        ) {
            Ok(a) => spec_executor_step_logged(
                scope,
                before,
                after,
                step_index,
                step,
                r,
                crate::action_log::spec_move_by_path_resolved_payload(
                    s.path,
                    s.timeout_ms,
                    s.after_action_id,
                    a,
                    *scope.resolve_context,
                ),
                crate::action_log::spec_move_by_path_payload(s.path, s.timeout_ms, None),
                |m: Seq<char>| crate::action_log::spec_move_by_path_payload(s.path, s.timeout_ms, Some(m)),
            ),
            Err(_) => true,
        },
        TimelineStepView::Wait(s) => match spec_validate_wait_step(s.duration_ms, s.timeout_ms) {
            Ok(_) => spec_executor_step_logged(
                scope,
                before,
                after,
                step_index,
                step,
                r,
                crate::action_log::spec_wait_payload(
                    s.duration_ms,
                    s.timeout_ms,
                    ("resolveContext"@, crate::action_log::spec_resolve_context_json(*scope.resolve_context)),
                ),
                crate::action_log::spec_wait_payload(
                    s.duration_ms,
                    s.timeout_ms,
                    ("elapsedMs"@, JsonView::Number(Some(s.duration_ms as i128))),
                ),
                |m: Seq<char>| crate::action_log::spec_wait_payload(s.duration_ms, s.timeout_ms, ("error"@, JsonView::Str(m))),
            ),
            Err(_) => true,
        },
        _ => true,
    }
}

/// Where a run goes after the step at `completed_index` completed and the listener decided
/// `decision`: the next step when it goes on; the finalizer of the pending handoff it names
/// (the error when there is none after this step); and nowhere when it yields.
pub fn next_step_after_completion(
    steps: &Vec<TimelineStep>,
    completed_index: usize,
    decision: &StepCompletionDecision,
) -> (r: BuddyResult<Option<usize>>)
    requires
        completed_index < steps@.len(),
    ensures
        match decision {
            StepCompletionDecision::Continue => r == Ok::<Option<usize>, BuddyError>(Some((completed_index + 1) as usize)),
            StepCompletionDecision::RunPendingHandoffFinalizer { step_id } => match crate::executor::spec_pending_handoff_finalizer_step_index(
                steps_view(steps@),
                completed_index as int,
                step_id@,
            ) {
                Ok(i) => r matches Ok(Some(x)) && x as int == i,
                Err(e) => r is Err && r->Err_0@ == e,
            },
            StepCompletionDecision::YieldToPendingPlan => r == Ok::<Option<usize>, BuddyError>(None),
        },
        r matches Ok(Some(i)) ==> completed_index < i <= steps@.len(),
{
    let _step_count: usize = steps.len();
    match decision {
        StepCompletionDecision::Continue => Ok(Some(completed_index + 1)),
        StepCompletionDecision::RunPendingHandoffFinalizer { step_id } => {
            match pending_handoff_finalizer_step_index(steps, completed_index, step_id.as_str()) {
                Ok(i) => Ok(Some(i)),
                Err(e) => Err(e),
            }
        },
        StepCompletionDecision::YieldToPendingPlan => Ok(None),
    }
}

/// The event that a timeline plan started, as the run context names and times it.
pub open spec fn spec_timeline_started_event(
    plan: TimelinePlan,
    context: TimelineExecutionContext,
    trigger_source: ChoreographyTriggerSource,
) -> crate::action_log::ActionLogEventView {
    crate::action_log::spec_plan_event(
        ActionLogFamily::Timeline(trigger_source),
        context.plan_started_event_id@,
        plan.plan_id@,
        "started"@,
        "started"@,
        plan.source_ref@,
        JsonView::Object(
            seq![
                ("sourceRef"@, plan.source_ref@),
                ("failurePolicy"@, crate::action_log::jstr(crate::action_log::spec_failure_policy_name(plan.failure_policy))),
                ("stepCount"@, crate::action_log::jnum(plan.steps@.len() as int)),
            ],
        ),
        context.created_at@,
    )
}

/// The event that a timeline plan completed with the counts of `stats`.
pub open spec fn spec_timeline_completed_event(
    plan: TimelinePlan,
    context: TimelineExecutionContext,
    trigger_source: ChoreographyTriggerSource,
    stats: ActionLogTimelinePlanStats,
) -> crate::action_log::ActionLogEventView {
    crate::action_log::spec_plan_event(
        ActionLogFamily::Timeline(trigger_source),
        context.plan_completed_event_id@,
        plan.plan_id@,
        "completed"@,
        "completed"@,
        plan.source_ref@,
        crate::action_log::spec_timeline_end_payload("completed"@, plan.failure_policy, stats, Seq::empty()),
        context.completed_at@,
    )
}

/// Every step of the plan is refused before it runs, on nothing saved.
pub open spec fn spec_all_steps_refused(actions: Seq<crate::registry::ActionDefinitionView>, plan: TimelinePlan) -> bool {
    forall|i: int| 0 <= i < plan.steps@.len() ==> #[trigger] spec_plan_step_refused(actions, Map::empty(), plan.steps@[i]@)
}

/// Among the events added to the record after `before`, one records that the plan `plan_id`
/// failed, under `event_id`, at `at`.
pub open spec fn logged_plan_failed(
    before: Seq<crate::action_log::ActionLogEventView>,
    after: Seq<crate::action_log::ActionLogEventView>,
    event_id: Seq<char>,
    plan_id: Seq<char>,
    at: Seq<char>,
) -> bool {
    exists|i: int|
        before.len() <= i < after.len() && #[trigger] crate::action_log::is_plan_event(
            after[i],
            event_id,
            plan_id,
            "failed"@,
            at,
        )
}

/// The starts a listener is told of over `attempts` attempts whose first step is refused: that
/// step, once per attempt.
pub open spec fn spec_attempts_started(step_id: Seq<char>, attempts: nat) -> Seq<Seq<char>> {
    Seq::new(attempts, |i: int| step_id)
}

/// Whether a plan goes on after one of its steps failed: exactly when its failure policy is to
/// continue.
pub fn failure_policy_continues(policy: TimelineFailurePolicy) -> (r: bool)
    ensures
        r == (policy == TimelineFailurePolicy::Continue),
{
    match policy {
        TimelineFailurePolicy::Continue => true,
        TimelineFailurePolicy::Abort => false,
    }
}

/// Whether a failed branch lets its step run the alternative steps: an execution failure
/// does; a failed write to the action log stops the step.
pub fn runs_alternative_after(error: &TimelineExecutionError) -> (r: bool)
    ensures
        r == error is Execution,
{
    match error {
        TimelineExecutionError::Execution(_) => true,
        TimelineExecutionError::ActionLog(_) => false,
    }
}

/// The report of nothing run yet.
pub fn empty_report() -> (r: TimelineStepExecutionReport)
    ensures
        report_is(r, 0, 0, 0, 0),
{
    TimelineStepExecutionReport {
        completed_step_count: 0,
        failed_step_count: 0,
        skipped_step_count: 0,
        duration_ms: 0,
        yielded_to_pending_plan_after_step_id: None,
    }
}

impl TimelineStepExecutionFailure {
    /// The failure of a write to the action log: nothing counted.
    pub fn action_log(error: BuddyError) -> (r: Self)
        ensures
            r.error == TimelineExecutionError::ActionLog(error),
            report_is(r.report, 0, 0, 0, 0),
            r.failed_step_id is None,
    {
        TimelineStepExecutionFailure {
            error: TimelineExecutionError::ActionLog(error),
            report: empty_report(),
            failed_step_id: None,
        }
    }

    /// The failure of a step that could not run: one failed step.
    pub fn execution(error: BuddyError) -> (r: Self)
        ensures
            r.error == TimelineExecutionError::Execution(error),
            report_is(r.report, 0, 1, 0, 0),
            r.failed_step_id is None,
    {
        TimelineStepExecutionFailure {
            error: TimelineExecutionError::Execution(error),
            report: TimelineStepExecutionReport::failed(),
            failed_step_id: None,
        }
    }

    /// A failure made of its parts.
    pub fn from_parts(
        error: TimelineExecutionError,
        report: TimelineStepExecutionReport,
        failed_step_id: Option<String>,
    ) -> (r: Self)
        ensures
            r == (TimelineStepExecutionFailure { error, report, failed_step_id }),
    {
        TimelineStepExecutionFailure { error, report, failed_step_id }
    }
}

/// The event about a plan step that a timeline run writes: the run's family, plan and source,
/// under the event id of its kind indexed by the step.
pub open spec fn spec_scope_step_event(
    scope: TimelineStepExecutionScope,
    base_event_id: Seq<char>,
    step_index: nat,
    step: TimelineStepView,
    kind: Seq<char>,
    reason: Seq<char>,
    payload: JsonView,
    at: Seq<char>,
) -> crate::action_log::ActionLogEventView {
    crate::action_log::spec_step_event(
        ActionLogFamily::Timeline(scope.trigger_source),
        crate::macro_plan::spec_indexed_id(base_event_id, step_index),
        scope.plan.plan_id@,
        Some(step.step_id()),
        kind,
        reason,
        scope.plan.source_ref@,
        payload,
        at,
    )
}

/// Writes one event about a step, under the event id of its kind indexed by the step; a failed
/// write stops the step.
fn log_step_event<L: ActionLogSink>(
    log: &mut L,
    family: ActionLogFamily,
    base_event_id: &str,
    step_index: usize,
    plan_id: &str,
    step: &TimelineStep,
    kind: &str,
    reason: &str,
    source_ref: &JsonValue,
    payload: JsonValue,
    at: &str,
) -> (r: Result<(), TimelineStepExecutionFailure>)
    requires
        step_index < usize::MAX,
    ensures
        final(log).keeps_record() == old(log).keeps_record(),
        r matches Err(f) ==> f.error is ActionLog && report_is(f.report, 0, 0, 0, 0) && f.failed_step_id is None,
        old(log).keeps_record() ==> (final(log).requested_events() == old(log).requested_events().push(
            crate::action_log::spec_step_event(
                family,
                crate::macro_plan::spec_indexed_id(base_event_id@, step_index as nat),
                plan_id@,
                Some(step@.step_id()),
                kind@,
                reason@,
                source_ref@,
                payload@,
                at@,
            ),
        )),
        old(log).keeps_record() ==> (final(log).requested_system_events() == old(log).requested_system_events()),
{
    let event_id = indexed_event_id(base_event_id, step_index);
    let ids = ActionLogEventIds { event_id: event_id.as_str(), plan_id, step_id: Some(step.step_id()) };
    let event = step_event(family, &ids, kind, reason, source_ref, payload, at);
    match log.append_event(&event) {
        Ok(_) => Ok(()),
        Err(e) => Err(TimelineStepExecutionFailure::action_log(e)),
    }
}

fn opt_as_str(a: &Option<String>) -> (r: Option<&str>)
    ensures
        crate::text::opt_str_view(r) == crate::text::opt_string_view(*a),
{
    match a {
        Some(x) => Some(x.as_str()),
        None => None,
    }
}

fn after_ref(a: &Option<AfterActionResolution>) -> (r: Option<&str>)
    ensures
        crate::text::opt_str_view(r) == match *a {
            Some(x) => Some(x.animation_ref@),
            None => None,
        },
{
    match a {
        Some(x) => Some(x.animation_ref.as_str()),
        None => None,
    }
}

fn opt_ref(a: &Option<AfterActionResolution>) -> (r: Option<&AfterActionResolution>)
    ensures
        crate::action_log::opt_after_view(r) == match *a {
            Some(x) => Some(x@),
            None => None,
        },
{
    match a {
        Some(x) => Some(x),
        None => None,
    }
}

/// The family, source and ids that the events of a timeline plan's steps are written with.
impl<'a> TimelineStepExecutionScope<'a> {
    pub fn family(&self) -> (r: ActionLogFamily)
        ensures
            r == ActionLogFamily::Timeline(self.trigger_source),
    {
        ActionLogFamily::Timeline(self.trigger_source)
    }

    /// Writes that the step resolved.
    fn log_resolved<L: ActionLogSink>(&self, log: &mut L, step: &TimelineStep, step_index: usize, payload: JsonValue) -> (r:
        Result<(), TimelineStepExecutionFailure>)
        requires
            step_index < usize::MAX,
        ensures
            final(log).keeps_record() == old(log).keeps_record(),
            r matches Err(f) ==> f.error is ActionLog && report_is(f.report, 0, 0, 0, 0) && f.failed_step_id is None,
            old(log).keeps_record() ==> (final(log).requested_events() == old(log).requested_events().push(
                spec_scope_step_event(
                    *self,
                    self.context.step_resolved_event_id@,
                    step_index as nat,
                    step@,
                    "resolved"@,
                    "stepResolved"@,
                    payload@,
                    self.context.resolved_at@,
                ),
            )),
            old(log).keeps_record() ==> (final(log).requested_system_events() == old(log).requested_system_events()),
    {
        log_step_event(
            log,
            self.family(),
            self.context.step_resolved_event_id.as_str(),
            step_index,
            self.plan.plan_id.as_str(),
            step,
            "resolved",
            "stepResolved",
            &self.plan.source_ref,
            payload,
            self.context.resolved_at.as_str(),
        )
    }

    /// Writes that the step completed.
    fn log_completed<L: ActionLogSink>(&self, log: &mut L, step: &TimelineStep, step_index: usize, payload: JsonValue) -> (r:
        Result<(), TimelineStepExecutionFailure>)
        requires
            step_index < usize::MAX,
        ensures
            final(log).keeps_record() == old(log).keeps_record(),
            r matches Err(f) ==> f.error is ActionLog && report_is(f.report, 0, 0, 0, 0) && f.failed_step_id is None,
            old(log).keeps_record() ==> (final(log).requested_events() == old(log).requested_events().push(
                spec_scope_step_event(
                    *self,
                    self.context.step_completed_event_id@,
                    step_index as nat,
                    step@,
                    "completed"@,
                    "stepCompleted"@,
                    payload@,
                    self.context.completed_at@,
                ),
            )),
            old(log).keeps_record() ==> (final(log).requested_system_events() == old(log).requested_system_events()),
    {
        log_step_event(
            log,
            self.family(),
            self.context.step_completed_event_id.as_str(),
            step_index,
            self.plan.plan_id.as_str(),
            step,
            "completed",
            "stepCompleted",
            &self.plan.source_ref,
            payload,
            self.context.completed_at.as_str(),
        )
    }

    /// Writes that the step failed, then fails the step with its error.
    fn log_failure<L: ActionLogSink>(
        &self,
        log: &mut L,
        step: &TimelineStep,
        step_index: usize,
        payload: JsonValue,
        error: BuddyError,
    ) -> (r: TimelineStepExecutionFailure)
        requires
            step_index < usize::MAX,
        ensures
            final(log).keeps_record() == old(log).keeps_record(),
            r.error is ActionLog ==> report_is(r.report, 0, 0, 0, 0),
            r.error is Execution ==> report_is(r.report, 0, 1, 0, 0) && r.error == TimelineExecutionError::Execution(
                error,
            ),
            r.failed_step_id is None,
            old(log).keeps_record() ==> (final(log).requested_events() == old(log).requested_events().push(
                spec_scope_step_event(
                    *self,
                    self.context.step_failed_event_id@,
                    step_index as nat,
                    step@,
                    "failed"@,
                    "stepFailed"@,
                    payload@,
                    self.context.completed_at@,
                ),
            )),
            old(log).keeps_record() ==> (final(log).requested_system_events() == old(log).requested_system_events()),
    {
        match log_step_event(
            log,
            self.family(),
            self.context.step_failed_event_id.as_str(),
            step_index,
            self.plan.plan_id.as_str(),
            step,
            "failed",
            "stepFailed",
            &self.plan.source_ref,
            payload,
            self.context.completed_at.as_str(),
        ) {
            Ok(_) => TimelineStepExecutionFailure::execution(error),
            Err(f) => f,
        }
    }
}

/// Runs one plan step on the executor and writes what happened to the action log: the
/// resolution, then the completion or the failure. Host-side steps (wait, skip, position
/// snapshots) are carried out here, and retry, replace, recover and try steps run their
/// branches; planner-side steps are refused.
#[verifier::loop_isolation(false)]
pub fn execute_timeline_plan_step<E: ChoreographyStepExecutor, L: ActionLogSink, H: TimelineExecutionEvents>(
    executor: &E,
    log: &mut L,
    events: &mut H,
    scope: &TimelineStepExecutionScope,
    step: &TimelineStep,
    step_index: usize,
    runtime_state: &mut TimelineRuntimeState,
) -> (r: Result<TimelineStepExecutionReport, TimelineStepExecutionFailure>)
    requires
        step_index < usize::MAX,
    ensures
        final(log).keeps_record() == old(log).keeps_record(),
        old(log).keeps_record() ==> crate::action_log::log_kept(old(log).requested_events(), final(log).requested_events()),
        old(runtime_state)@.dom().subset_of(final(runtime_state)@.dom()),
        spec_plan_step_outcome_known(scope.registry@, old(runtime_state)@, step@, r),
        spec_plan_step_refused(scope.registry@, old(runtime_state)@, step@) ==> final(runtime_state)@ == old(runtime_state)@
            && final(events).keeps_record() == old(events).keeps_record()
            && final(events).started_steps() == old(events).started_steps(),
        old(log).keeps_record() ==> spec_plan_step_logged(
            *scope,
            old(log).requested_events(),
            final(log).requested_events(),
            step_index as nat,
            step@,
            r,
        ),
        old(log).keeps_record() && spec_plan_step_refused(scope.registry@, old(runtime_state)@, step@) 
            ==> final(log).requested_events() == old(log).requested_events(),
    decreases step, 0int,
{
    match step {
        TimelineStep::PlayAction(s) => {
            let resolution = match resolve_play_action_step(scope.registry, scope.resolve_context, s) {
                Ok(res) => res,
                Err(e) => return Err(TimelineStepExecutionFailure::execution(e)),
            };
            let payload = play_action_resolved_payload(&resolution, scope.resolve_context);
            match scope.log_resolved(log, step, step_index, payload) {
                Ok(_) => {},
                Err(f) => return Err(f),
            }
            if let Err(error) = executor.play_action_step(s, &resolution) {
                let message = error.message();
                let payload = play_action_failed_payload(&resolution, message.as_str());
                return Err(scope.log_failure(log, step, step_index, payload, error));
            }
            let payload = play_action_completed_payload(&resolution, resolution.duration_ms);
            match scope.log_completed(log, step, step_index, payload) {
                Ok(_) => {},
                Err(f) => return Err(f),
            }
            Ok(TimelineStepExecutionReport::completed(resolution.duration_ms))
        },
        TimelineStep::MoveTo(s) => {
            let after = match resolve_move_to_after_action(scope.registry, scope.resolve_context, s) {
                Ok(a) => a,
                Err(e) => return Err(TimelineStepExecutionFailure::execution(e)),
            };
            let payload = move_to_resolved_payload(
                &s.target,
                s.timeout_ms,
                opt_as_str(&s.after_action_id),
                opt_ref(&after),
                scope.resolve_context,
                false,
            );
            match scope.log_resolved(log, step, step_index, payload) {
                Ok(_) => {},
                Err(f) => return Err(f),
            }
            if let Err(error) = executor.move_to_step(s, after_ref(&after)) {
                let message = error.message();
                let payload = move_to_payload(&s.target, s.timeout_ms, Some(message.as_str()), false);
                return Err(scope.log_failure(log, step, step_index, payload, error));
            }
            match scope.log_completed(log, step, step_index, move_to_payload(&s.target, s.timeout_ms, None, false)) {
                Ok(_) => {},
                Err(f) => return Err(f),
            }
            Ok(TimelineStepExecutionReport::completed(0))
        },
        TimelineStep::MoveByPath(s) => {
            let after = match resolve_move_by_path_after_action(scope.registry, scope.resolve_context, s) {
                Ok(a) => a,
                Err(e) => return Err(TimelineStepExecutionFailure::execution(e)),
            };
            let payload = move_by_path_resolved_payload(
                &s.path,
                s.timeout_ms,
                opt_as_str(&s.after_action_id),
                opt_ref(&after),
                scope.resolve_context,
            );
            match scope.log_resolved(log, step, step_index, payload) {
                Ok(_) => {},
                Err(f) => return Err(f),
            }
            if let Err(error) = executor.move_by_path_step(s, after_ref(&after)) {
                let message = error.message();
                let payload = move_by_path_payload(&s.path, s.timeout_ms, Some(message.as_str()));
                return Err(scope.log_failure(log, step, step_index, payload, error));
            }
            match scope.log_completed(log, step, step_index, move_by_path_payload(&s.path, s.timeout_ms, None)) {
                Ok(_) => {},
                Err(f) => return Err(f),
            }
            Ok(TimelineStepExecutionReport::completed(0))
        },
        TimelineStep::Wait(s) => {
            match validate_wait_step(s) {
                Ok(_) => {},
                Err(e) => return Err(TimelineStepExecutionFailure::execution(e)),
            }
            let payload = wait_payload(s.duration_ms, s.timeout_ms, "resolveContext", resolve_context_json(scope.resolve_context));
            match scope.log_resolved(log, step, step_index, payload) {
                Ok(_) => {},
                Err(f) => return Err(f),
            }
            if let Err(error) = executor.wait_step(s) {
                let message = error.message();
                let payload = wait_payload(s.duration_ms, s.timeout_ms, "error", json_str(message.as_str()));
                return Err(scope.log_failure(log, step, step_index, payload, error));
            }
            let payload = wait_payload(s.duration_ms, s.timeout_ms, "elapsedMs", json_u64(s.duration_ms));
            match scope.log_completed(log, step, step_index, payload) {
                Ok(_) => {},
                Err(f) => return Err(f),
            }
            Ok(TimelineStepExecutionReport::completed(s.duration_ms))
        },
        TimelineStep::Skip(s) => {
            match log_step_event(
                log,
                scope.family(),
                scope.context.step_completed_event_id.as_str(),
                step_index,
                scope.plan.plan_id.as_str(),
                step,
                "skipped",
                "stepSkipped",
                &scope.plan.source_ref,
                skip_payload(s.reason),
                scope.context.completed_at.as_str(),
            ) {
                Ok(_) => {},
                Err(f) => return Err(f),
            }
            Ok(TimelineStepExecutionReport::skipped())
        },
        TimelineStep::Retry(s) => {
            proof { assert(decreases_to!(*step => *s)); }
            execute_timeline_retry_step(executor, log, events, scope, s, step_index, runtime_state)
        },
        TimelineStep::Replace(s) => {
            proof { assert(decreases_to!(*step => *s)); }
            execute_timeline_replace_step(executor, log, events, scope, s, step_index, runtime_state)
        },
        TimelineStep::Recover(s) => {
            proof { assert(decreases_to!(*step => *s)); }
            execute_timeline_recover_step(executor, log, events, scope, s, step_index, runtime_state)
        },
        TimelineStep::Try(s) => {
            proof { assert(decreases_to!(*step => *s)); }
            execute_timeline_try_step(executor, log, events, scope, s, step_index, runtime_state)
        },
        TimelineStep::SnapshotPosition(s) => execute_timeline_snapshot_position_step(
            executor,
            log,
            scope,
            step,
            s,
            step_index,
            runtime_state,
        ),
        TimelineStep::RestorePosition(s) => execute_timeline_restore_position_step(
            executor,
            log,
            scope,
            step,
            s,
            step_index,
            runtime_state,
        ),
        TimelineStep::Repeat(_) | TimelineStep::Choose(_) | TimelineStep::SetFallback(_) => {
            Err(TimelineStepExecutionFailure::execution(planner_side_timeline_step_error(step)))
        },
    }
}

/// Asks the pet where it stands and saves that position under the step's snapshot id.
fn execute_timeline_snapshot_position_step<E: ChoreographyStepExecutor, L: ActionLogSink>(
    executor: &E,
    log: &mut L,
    scope: &TimelineStepExecutionScope,
    step: &TimelineStep,
    s: &SnapshotPositionStep,
    step_index: usize,
    runtime_state: &mut TimelineRuntimeState,
) -> (r: Result<TimelineStepExecutionReport, TimelineStepExecutionFailure>)
    requires
        step_index < usize::MAX,
        *step == TimelineStep::SnapshotPosition(*s),
    ensures
        final(log).keeps_record() == old(log).keeps_record(),
        old(log).keeps_record() ==> crate::action_log::log_kept(old(log).requested_events(), final(log).requested_events()),
        old(runtime_state)@.dom().subset_of(final(runtime_state)@.dom()),
        r is Ok ==> report_is(r->Ok_0, 1, 0, 0, 0) && final(runtime_state)@.dom().contains(s.snapshot_id@),
        r is Ok ==> exists|p: (i32, i32)| final(runtime_state)@ == old(runtime_state)@.insert(s.snapshot_id@, p),
        old(log).keeps_record() ==> crate::action_log::log_kept(
            old(log).requested_events().push(
                spec_scope_step_event(
                    *scope,
                    scope.context.step_resolved_event_id@,
                    step_index as nat,
                    step@,
                    "resolved"@,
                    "stepResolved"@,
                    crate::action_log::spec_position_payload("snapshotPosition"@, s.snapshot_id@, None, None),
                    scope.context.resolved_at@,
                ),
            ),
            final(log).requested_events(),
        ),
{
    let id = s.snapshot_id.as_str();
    match scope.log_resolved(log, step, step_index, position_payload("snapshotPosition", id, None, None)) {
        Ok(_) => {},
        Err(f) => return Err(f),
    }
    let position = match executor.query_state_position() {
        Ok(Some(p)) => p,
        Ok(None) => {
            let error = snapshot_position_unavailable_error(s);
            let message = error.message();
            let payload = position_payload("snapshotPosition", id, None, Some(message.as_str()));
            return Err(scope.log_failure(log, step, step_index, payload, error));
        },
        Err(error) => {
            let message = error.message();
            let payload = position_payload("snapshotPosition", id, None, Some(message.as_str()));
            return Err(scope.log_failure(log, step, step_index, payload, error));
        },
    };
    runtime_state.save_position_snapshot(id, position);
    match scope.log_completed(log, step, step_index, position_payload("snapshotPosition", id, Some(position), None)) {
        Ok(_) => {},
        Err(f) => return Err(f),
    }
    Ok(TimelineStepExecutionReport::completed(0))
}

/// Moves the pet back to a saved position; a position never saved fails the step.
fn execute_timeline_restore_position_step<E: ChoreographyStepExecutor, L: ActionLogSink>(
    executor: &E,
    log: &mut L,
    scope: &TimelineStepExecutionScope,
    step: &TimelineStep,
    s: &RestorePositionStep,
    step_index: usize,
    runtime_state: &mut TimelineRuntimeState,
) -> (r: Result<TimelineStepExecutionReport, TimelineStepExecutionFailure>)
    requires
        step_index < usize::MAX,
        *step == TimelineStep::RestorePosition(*s),
    ensures
        final(log).keeps_record() == old(log).keeps_record(),
        old(log).keeps_record() ==> crate::action_log::log_kept(old(log).requested_events(), final(log).requested_events()),
        final(runtime_state)@ == old(runtime_state)@,
        !old(runtime_state)@.dom().contains(s.snapshot_id@) ==> fails_with(
            r,
            BuddyErrorView::Runtime("timeline position snapshot is missing: "@ + s.snapshot_id@),
        ) && final(log).requested_events() == old(log).requested_events(),
        r is Ok ==> report_is(r->Ok_0, 1, 0, 0, 0),
{
    let move_to: MoveToStep = match runtime_state.restore_position_step(s) {
        Ok(m) => m,
        Err(e) => return Err(TimelineStepExecutionFailure::execution(e)),
    };
    let after = match resolve_move_to_after_action(scope.registry, scope.resolve_context, &move_to) {
        Ok(a) => a,
        Err(e) => return Err(TimelineStepExecutionFailure::execution(e)),
    };
    let id = s.snapshot_id.as_str();
    let payload = restore_resolved_payload(
        id,
        &move_to.target,
        s.timeout_ms,
        opt_as_str(&s.after_action_id),
        opt_ref(&after),
        scope.resolve_context,
    );
    match scope.log_resolved(log, step, step_index, payload) {
        Ok(_) => {},
        Err(f) => return Err(f),
    }
    if let Err(error) = executor.move_to_step(&move_to, after_ref(&after)) {
        let message = error.message();
        let payload = position_payload("restorePosition", id, None, Some(message.as_str()));
        return Err(scope.log_failure(log, step, step_index, payload, error));
    }
    match scope.log_completed(log, step, step_index, restore_completed_payload(id, &move_to.target, s.timeout_ms)) {
        Ok(_) => {},
        Err(f) => return Err(f),
    }
    Ok(TimelineStepExecutionReport::completed(0))
}

fn branch_failure(error: TimelineExecutionError, report: TimelineStepExecutionReport, step: &TimelineStep) -> (r:
    TimelineStepExecutionFailure)
    ensures
        r.error == error,
        r.report == report,
        r.failed_step_id matches Some(id) && id@ == step@.step_id(),
{
    TimelineStepExecutionFailure { error, report, failed_step_id: Some(step.step_id().to_owned()) }
}

/// Runs the steps of one branch of a plan step in order: each is announced, run and
/// reported; a completed step lets the listener go on, jump to a pending handoff's
/// finalizer, or yield, and the first failure stops the branch. The failure names the
/// nested step that failed.
#[verifier::loop_isolation(false)]
pub fn execute_timeline_branch_steps<E: ChoreographyStepExecutor, L: ActionLogSink, H: TimelineExecutionEvents>(
    executor: &E,
    log: &mut L,
    events: &mut H,
    scope: &TimelineStepExecutionScope,
    steps: &Vec<TimelineStep>,
    parent_step_index: usize,
    branch_index: usize,
    runtime_state: &mut TimelineRuntimeState,
) -> (r: Result<TimelineStepExecutionReport, TimelineStepExecutionFailure>)
    ensures
        final(log).keeps_record() == old(log).keeps_record(),
        old(log).keeps_record() ==> crate::action_log::log_kept(old(log).requested_events(), final(log).requested_events()),
        old(runtime_state)@.dom().subset_of(final(runtime_state)@.dom()),
        steps@.len() == 0 ==> r is Ok && report_is(r->Ok_0, 0, 0, 0, 0),
        r matches Err(f) ==> f.failed_step_id is Some,
        steps@.len() > 0 && spec_plan_step_refused(scope.registry@, old(runtime_state)@, steps@[0]@) ==> r is Err
            && r->Err_0.error is Execution && (r->Err_0.failed_step_id matches Some(id) && id@ == steps@[0]@.step_id()),
        steps@.len() > 0 && spec_plan_step_refused(scope.registry@, old(runtime_state)@, steps@[0]@) ==> final(runtime_state)@
            == old(runtime_state)@ && final(events).keeps_record() == old(events).keeps_record() && (old(events).keeps_record()
            ==> final(events).started_steps() == old(events).started_steps().push(steps@[0]@.step_id())),
    decreases steps, 0int,
{
    let mut report = empty_report();
    let mut nested_index: usize = 0;
    while nested_index < steps.len()
        invariant
            nested_index <= steps@.len(),
            old(runtime_state)@.dom().subset_of(runtime_state@.dom()),
            nested_index == 0 ==> report_is(report, 0, 0, 0, 0),
            nested_index == 0 ==> runtime_state@ == old(runtime_state)@,
            nested_index == 0 ==> events.keeps_record() == old(events).keeps_record() && events.started_steps()
                == old(events).started_steps(),
            nested_index > 0 ==> !spec_plan_step_refused(scope.registry@, old(runtime_state)@, steps@[0]@),
            log.keeps_record() == old(log).keeps_record(),
            old(log).keeps_record() ==> crate::action_log::log_kept(old(log).requested_events(), log.requested_events()),
        decreases steps@.len() - nested_index,
    {
        let step = &steps[nested_index];
        proof { vstd::std_specs::vec::axiom_vec_index_decreases(*steps, nested_index as int); }
        let nested_step_index = nested_timeline_step_event_index(parent_step_index, branch_index, nested_index);
        let interrupt_policy = timeline_step_interrupt_policy(Some(scope.registry), scope.resolve_context, step);
        if let Err(error) = events.step_starting(step, interrupt_policy) {
            return Err(branch_failure(TimelineExecutionError::Execution(error), report, step));
        }
        let ghost state_before_step = runtime_state@;
        let result = execute_timeline_plan_step(executor, log, events, scope, step, nested_step_index, runtime_state);
        proof {
            if spec_plan_step_refused(scope.registry@, state_before_step, step@) {
                lemma_refused_step_fails(scope.registry@, state_before_step, step@, result);
            }
        }
        match result {
            Ok(step_report) => {
                report.add(step_report);
                if report.yielded_to_pending_plan_after_step_id.is_some() {
                    return Ok(report);
                }
                match events.step_completed(step) {
                    Ok(StepCompletionDecision::Continue) => {
                        nested_index = nested_index + 1;
                    },
                    Ok(StepCompletionDecision::RunPendingHandoffFinalizer { step_id }) => {
                        match pending_handoff_finalizer_step_index(steps, nested_index, step_id.as_str()) {
                            Ok(i) => {
                                nested_index = i;
                            },
                            Err(error) => {
                                return Err(branch_failure(TimelineExecutionError::Execution(error), report, step));
                            },
                        }
                    },
                    Ok(StepCompletionDecision::YieldToPendingPlan) => {
                        report.yielded_to_pending_plan_after_step_id = Some(step.step_id().to_owned());
                        return Ok(report);
                    },
                    Err(error) => {
                        return Err(branch_failure(TimelineExecutionError::Execution(error), report, step));
                    },
                }
            },
            Err(failure) => {
                let failed_step_id = match failure.failed_step_id {
                    Some(id) => id,
                    None => step.step_id().to_owned(),
                };
                report.add(failure.report);
                return Err(TimelineStepExecutionFailure {
                    error: failure.error,
                    report,
                    failed_step_id: Some(failed_step_id),
                });
            },
        }
    }
    Ok(report)
}

/// Runs the primary steps, and the replacement steps when the primary steps fail.
fn execute_timeline_replace_step<E: ChoreographyStepExecutor, L: ActionLogSink, H: TimelineExecutionEvents>(
    executor: &E,
    log: &mut L,
    events: &mut H,
    scope: &TimelineStepExecutionScope,
    s: &ReplaceStep,
    step_index: usize,
    runtime_state: &mut TimelineRuntimeState,
) -> (r: Result<TimelineStepExecutionReport, TimelineStepExecutionFailure>)
    ensures
        final(log).keeps_record() == old(log).keeps_record(),
        old(log).keeps_record() ==> crate::action_log::log_kept(old(log).requested_events(), final(log).requested_events()),
        old(runtime_state)@.dom().subset_of(final(runtime_state)@.dom()),
        spec_plan_alternative_outcome_known(
            scope.registry@,
            old(runtime_state)@,
            steps_view(s.steps@),
            steps_view(s.replacement_steps@),
            r,
        ),
        r matches Err(f) ==> f.failed_step_id is Some,
    decreases s, 0int,
{
    proof {
        assert(decreases_to!(*s => s.steps));
        assert(decreases_to!(*s => s.replacement_steps));
    }
    proof {
        lemma_steps_view(s.steps@);
        lemma_steps_view(s.replacement_steps@);
    }
    match execute_timeline_branch_steps(executor, log, events, scope, &s.steps, step_index, 0, runtime_state) {
        Ok(report) => Ok(report),
        Err(primary_failure) => match runs_alternative_after(&primary_failure.error) {
            false => Err(primary_failure),
            true => {
                let mut report = primary_failure.report;
                match execute_timeline_branch_steps(executor, log, events, scope, &s.replacement_steps, step_index, 1, runtime_state) {
                    Ok(alternative_report) => {
                        report.add(alternative_report);
                        Ok(report)
                    },
                    Err(alternative_failure) => {
                        report.add(alternative_failure.report);
                        Err(TimelineStepExecutionFailure {
                            error: alternative_failure.error,
                            report,
                            failed_step_id: alternative_failure.failed_step_id,
                        })
                    },
                }
            },
        },
    }
}

/// Runs the primary steps, and the recovery steps when the primary steps fail.
fn execute_timeline_recover_step<E: ChoreographyStepExecutor, L: ActionLogSink, H: TimelineExecutionEvents>(
    executor: &E,
    log: &mut L,
    events: &mut H,
    scope: &TimelineStepExecutionScope,
    s: &RecoverStep,
    step_index: usize,
    runtime_state: &mut TimelineRuntimeState,
) -> (r: Result<TimelineStepExecutionReport, TimelineStepExecutionFailure>)
    ensures
        final(log).keeps_record() == old(log).keeps_record(),
        old(log).keeps_record() ==> crate::action_log::log_kept(old(log).requested_events(), final(log).requested_events()),
        old(runtime_state)@.dom().subset_of(final(runtime_state)@.dom()),
        spec_plan_alternative_outcome_known(
            scope.registry@,
            old(runtime_state)@,
            steps_view(s.steps@),
            steps_view(s.recovery_steps@),
            r,
        ),
        r matches Err(f) ==> f.failed_step_id is Some,
    decreases s, 0int,
{
    proof {
        assert(decreases_to!(*s => s.steps));
        assert(decreases_to!(*s => s.recovery_steps));
    }
    proof {
        lemma_steps_view(s.steps@);
        lemma_steps_view(s.recovery_steps@);
    }
    match execute_timeline_branch_steps(executor, log, events, scope, &s.steps, step_index, 0, runtime_state) {
        Ok(report) => Ok(report),
        Err(primary_failure) => match runs_alternative_after(&primary_failure.error) {
            false => Err(primary_failure),
            true => {
                let mut report = primary_failure.report;
                match execute_timeline_branch_steps(executor, log, events, scope, &s.recovery_steps, step_index, 1, runtime_state) {
                    Ok(alternative_report) => {
                        report.add(alternative_report);
                        Ok(report)
                    },
                    Err(alternative_failure) => {
                        report.add(alternative_failure.report);
                        Err(TimelineStepExecutionFailure {
                            error: alternative_failure.error,
                            report,
                            failed_step_id: alternative_failure.failed_step_id,
                        })
                    },
                }
            },
        },
    }
}

/// Runs the primary steps, and the fallback steps when the primary steps fail.
fn execute_timeline_try_step<E: ChoreographyStepExecutor, L: ActionLogSink, H: TimelineExecutionEvents>(
    executor: &E,
    log: &mut L,
    events: &mut H,
    scope: &TimelineStepExecutionScope,
    s: &TryStep,
    step_index: usize,
    runtime_state: &mut TimelineRuntimeState,
) -> (r: Result<TimelineStepExecutionReport, TimelineStepExecutionFailure>)
    ensures
        final(log).keeps_record() == old(log).keeps_record(),
        old(log).keeps_record() ==> crate::action_log::log_kept(old(log).requested_events(), final(log).requested_events()),
        old(runtime_state)@.dom().subset_of(final(runtime_state)@.dom()),
        spec_plan_alternative_outcome_known(
            scope.registry@,
            old(runtime_state)@,
            steps_view(s.steps@),
            steps_view(s.fallback_steps@),
            r,
        ),
        r matches Err(f) ==> f.failed_step_id is Some,
    decreases s, 0int,
{
    proof {
        assert(decreases_to!(*s => s.steps));
        assert(decreases_to!(*s => s.fallback_steps));
    }
    proof {
        lemma_steps_view(s.steps@);
        lemma_steps_view(s.fallback_steps@);
    }
    match execute_timeline_branch_steps(executor, log, events, scope, &s.steps, step_index, 0, runtime_state) {
        Ok(report) => Ok(report),
        Err(primary_failure) => match runs_alternative_after(&primary_failure.error) {
            false => Err(primary_failure),
            true => {
                let mut report = primary_failure.report;
                match execute_timeline_branch_steps(executor, log, events, scope, &s.fallback_steps, step_index, 1, runtime_state) {
                    Ok(alternative_report) => {
                        report.add(alternative_report);
                        Ok(report)
                    },
                    Err(alternative_failure) => {
                        report.add(alternative_failure.report);
                        Err(TimelineStepExecutionFailure {
                            error: alternative_failure.error,
                            report,
                            failed_step_id: alternative_failure.failed_step_id,
                        })
                    },
                }
            },
        },
    }
}

/// Runs the nested steps up to `max_attempts` times, until an attempt succeeds; a failed write
/// to the action log, or the last failed attempt, fails the step. The report adds up every
/// attempt.
#[verifier::loop_isolation(false)]
fn execute_timeline_retry_step<E: ChoreographyStepExecutor, L: ActionLogSink, H: TimelineExecutionEvents>(
    executor: &E,
    log: &mut L,
    events: &mut H,
    scope: &TimelineStepExecutionScope,
    s: &RetryStep,
    step_index: usize,
    runtime_state: &mut TimelineRuntimeState,
) -> (r: Result<TimelineStepExecutionReport, TimelineStepExecutionFailure>)
    ensures
        final(log).keeps_record() == old(log).keeps_record(),
        old(log).keeps_record() ==> crate::action_log::log_kept(old(log).requested_events(), final(log).requested_events()),
        old(runtime_state)@.dom().subset_of(final(runtime_state)@.dom()),
        s.max_attempts == 0 ==> fails_with(
            r,
            BuddyErrorView::Validation("retry timeline step must contain at least one attempt: "@ + s.step_id@),
        ) && final(runtime_state)@ == old(runtime_state)@ && (old(log).keeps_record() ==> final(log).requested_events()
            == old(log).requested_events()),
        s.max_attempts > 0 && s.steps@.len() == 0 ==> r is Ok && report_is(r->Ok_0, 0, 0, 0, 0),
        s.max_attempts > 0 && s.steps@.len() > 0 && spec_plan_step_refused(scope.registry@, old(runtime_state)@, s.steps@[0]@)
            ==> r is Err && r->Err_0.error is Execution,
        s.max_attempts == 0 ==> final(events).keeps_record() == old(events).keeps_record() && final(events).started_steps()
            == old(events).started_steps(),
        s.max_attempts > 0 && s.steps@.len() > 0 && spec_plan_step_refused(scope.registry@, old(runtime_state)@, s.steps@[0]@)
            ==> final(events).keeps_record() == old(events).keeps_record() && (old(events).keeps_record() ==> final(events).started_steps()
            == old(events).started_steps() + spec_attempts_started(s.steps@[0]@.step_id(), s.max_attempts as nat)),
    decreases s, 0int,
{
    proof {
        assert(decreases_to!(*s => s.steps));
    }
    let mut report = empty_report();
    let mut attempt: u8 = 0;
    while attempt < s.max_attempts
        invariant
            attempt <= s.max_attempts,
            old(runtime_state)@.dom().subset_of(runtime_state@.dom()),
            attempt == 0 ==> report_is(report, 0, 0, 0, 0),
            s.max_attempts == 0 ==> runtime_state@ == old(runtime_state)@,
            s.steps@.len() == 0 ==> attempt == 0,
            s.steps@.len() > 0 && spec_plan_step_refused(scope.registry@, old(runtime_state)@, s.steps@[0]@)
                ==> runtime_state@ == old(runtime_state)@,
            s.max_attempts == 0 ==> *events == *old(events),
            s.steps@.len() > 0 && spec_plan_step_refused(scope.registry@, old(runtime_state)@, s.steps@[0]@)
                ==> events.keeps_record() == old(events).keeps_record() && (old(events).keeps_record()
                ==> events.started_steps() == old(events).started_steps() + spec_attempts_started(
                s.steps@[0]@.step_id(),
                attempt as nat,
            )),
            log.keeps_record() == old(log).keeps_record(),
            old(log).keeps_record() ==> crate::action_log::log_kept(old(log).requested_events(), log.requested_events()),
            s.max_attempts == 0 ==> log.requested_events() == old(log).requested_events(),
        decreases s.max_attempts - attempt,
    {
        match execute_timeline_branch_steps(executor, log, events, scope, &s.steps, step_index, attempt as usize, runtime_state) {
            Ok(attempt_report) => {
                report.add(attempt_report);
                return Ok(report);
            },
            Err(failure) => {
                report.add(failure.report);
                let stop = match failure.error {
                    TimelineExecutionError::ActionLog(_) => true,
                    TimelineExecutionError::Execution(_) => match retry_decision(attempt, s.max_attempts, Err::<(), ()>(())) {
                        RetryDecision::TryAgain => false,
                        _ => true,
                    },
                };
                if stop {
                    return Err(TimelineStepExecutionFailure {
                        error: failure.error,
                        report,
                        failed_step_id: failure.failed_step_id,
                    });
                }
            },
        }
        attempt = attempt + 1;
    }
    Err(TimelineStepExecutionFailure::execution(BuddyError::Validation(concat_str(
        "retry timeline step must contain at least one attempt: ",
        s.step_id.as_str(),
    ))))
}

/// The report of a plan run that ended: the plan that ran.
#[derive(Debug, Clone, PartialEq, Eq)]
pub struct TimelinePlanExecutionReport {
    pub plan_id: String,
}

/// Logs that a plan failed with `error`, tells the listener, and gives the error that stops the
/// run: the failed write, or `error`.
fn fail_timeline_plan<L: ActionLogSink, H: TimelineExecutionEvents>(
    log: &mut L,
    events: &mut H,
    plan: &TimelinePlan,
    context: &TimelineExecutionContext,
    trigger_source: ChoreographyTriggerSource,
    stats: ActionLogTimelinePlanStats,
    failed_step_id: &str,
    error: BuddyError,
) -> (r: TimelineExecutionError)
    ensures
        final(log).keeps_record() == old(log).keeps_record(),
        old(log).keeps_record() ==> crate::action_log::log_kept(old(log).requested_events(), final(log).requested_events()),
        r is ActionLog || r == TimelineExecutionError::Execution(error),
        old(log).keeps_record() ==> final(log).requested_events().len() > old(log).requested_events().len()
            && crate::action_log::is_plan_event(
            final(log).requested_events()[old(log).requested_events().len() as int],
            context.plan_failed_event_id@,
            plan.plan_id@,
            "failed"@,
            context.completed_at@,
        ),
        old(log).keeps_record() ==> crate::action_log::log_kept(
            old(log).requested_events().push(
                crate::action_log::spec_plan_event(
                    ActionLogFamily::Timeline(trigger_source),
                    context.plan_failed_event_id@,
                    plan.plan_id@,
                    "failed"@,
                    "failed"@,
                    plan.source_ref@,
                    crate::action_log::spec_timeline_end_payload(
                        "failed"@,
                        plan.failure_policy,
                        stats,
                        seq![("error"@, crate::action_log::jstr(crate::error::spec_error_message(error@)))],
                    ),
                    context.completed_at@,
                ),
            ),
            final(log).requested_events(),
        ),
        old(log).keeps_record() ==> (r is ActionLog ==> final(log).requested_events() == old(log).requested_events().push(
            crate::action_log::spec_plan_event(
                ActionLogFamily::Timeline(trigger_source),
                context.plan_failed_event_id@,
                plan.plan_id@,
                "failed"@,
                "failed"@,
                plan.source_ref@,
                crate::action_log::spec_timeline_end_payload(
                    "failed"@,
                    plan.failure_policy,
                    stats,
                    seq![("error"@, crate::action_log::jstr(crate::error::spec_error_message(error@)))],
                ),
                context.completed_at@,
            ),
        )),
{
    let message = error.message();
    let event = timeline_plan_failed(
        context.plan_failed_event_id.as_str(),
        plan,
        trigger_source,
        stats,
        message.as_str(),
        context.completed_at.as_str(),
    );
    if let Err(e) = log.append_event(&event) {
        return TimelineExecutionError::ActionLog(e);
    }
    events.execution_failed(log, failed_step_id, &error);
    TimelineExecutionError::Execution(error)
}

/// Logs that a plan yielded after a step, and ends the run.
fn interrupt_timeline_plan<L: ActionLogSink>(
    log: &mut L,
    plan: &TimelinePlan,
    context: &TimelineExecutionContext,
    trigger_source: ChoreographyTriggerSource,
    stats: ActionLogTimelinePlanStats,
    after_step_id: &str,
) -> (r: Result<TimelinePlanExecutionReport, TimelineExecutionError>)
    ensures
        final(log).keeps_record() == old(log).keeps_record(),
        old(log).keeps_record() ==> crate::action_log::log_kept(old(log).requested_events(), final(log).requested_events()),
        r matches Ok(rep) ==> rep.plan_id@ == plan.plan_id@,
        r matches Err(e) ==> e is ActionLog,
        old(log).keeps_record() ==> final(log).requested_events().len() == old(log).requested_events().len() + 1
            && crate::action_log::is_plan_event(
            final(log).requested_events().last(),
            context.plan_failed_event_id@,
            plan.plan_id@,
            "interrupted"@,
            context.completed_at@,
        ),
{
    let event = timeline_plan_interrupted(
        context.plan_failed_event_id.as_str(),
        plan,
        trigger_source,
        stats,
        after_step_id,
        context.completed_at.as_str(),
    );
    match log.append_event(&event) {
        Ok(_) => Ok(TimelinePlanExecutionReport { plan_id: plan.plan_id.clone() }),
        Err(e) => Err(TimelineExecutionError::ActionLog(e)),
    }
}

/// Runs a timeline plan step by step, writing its progress to the action log. Before each
/// step the listener is told and may refuse it; after a completed step it decides whether the
/// plan goes on, jumps to a pending handoff's finalizer, or yields to a waiting plan. A step
/// that fails stops the plan, unless the plan's failure policy is to continue. A plan whose
/// pending handoffs do not all end in a step that must finish is refused before anything runs.
#[verifier::loop_isolation(false)]
pub fn execute_timeline_plan_with_step_start<E: ChoreographyStepExecutor, L: ActionLogSink, H: TimelineExecutionEvents>(
    executor: &E,
    log: &mut L,
    events: &mut H,
    registry: &ActionRegistry,
    plan: &TimelinePlan,
    context: &TimelineExecutionContext,
    resolve_context: &ResolveContext,
    trigger_source: ChoreographyTriggerSource,
) -> (r: Result<TimelinePlanExecutionReport, TimelineExecutionError>)
    ensures
        final(log).keeps_record() == old(log).keeps_record(),
        old(log).keeps_record() ==> crate::action_log::log_kept(old(log).requested_events(), final(log).requested_events()),
        match spec_validate_handoff_policies(registry@, steps_view(plan.steps@)) {
            Err(e) => r matches Err(TimelineExecutionError::Execution(x)) && x@ == e,
            Ok(_) => r matches Ok(rep) ==> rep.plan_id@ == plan.plan_id@,
        },
        old(log).keeps_record() && spec_validate_handoff_policies(registry@, steps_view(plan.steps@)) is Ok
            ==> crate::action_log::logged_first_plan_started(
            old(log).requested_events(),
            final(log).requested_events(),
            context.plan_started_event_id@,
            plan.plan_id@,
            context.created_at@,
        ),
        old(log).keeps_record() && r is Ok ==> final(log).requested_events().len() > old(log).requested_events().len() + 1
            && (crate::action_log::is_plan_event(
            final(log).requested_events().last(),
            context.plan_completed_event_id@,
            plan.plan_id@,
            "completed"@,
            context.completed_at@,
        ) || crate::action_log::is_plan_event(
            final(log).requested_events().last(),
            context.plan_failed_event_id@,
            plan.plan_id@,
            "interrupted"@,
            context.completed_at@,
        )),
        plan.failure_policy == TimelineFailurePolicy::Abort && plan.steps@.len() > 0 && spec_plan_step_refused(
            registry@,
            Map::empty(),
            plan.steps@[0]@,
        ) ==> r is Err,
        old(log).keeps_record() && plan.failure_policy == TimelineFailurePolicy::Abort && plan.steps@.len() > 0
            && spec_plan_step_refused(registry@, Map::empty(), plan.steps@[0]@)
            && final(log).requested_events().len() > old(log).requested_events().len() + 1
            ==> crate::action_log::is_plan_event(
            final(log).requested_events()[old(log).requested_events().len() + 1int],
            context.plan_failed_event_id@,
            plan.plan_id@,
            "failed"@,
            context.completed_at@,
        ),
        old(log).keeps_record() && r is Err && r->Err_0 is Execution && spec_validate_handoff_policies(
            registry@,
            steps_view(plan.steps@),
        ) is Ok ==> logged_plan_failed(
            old(log).requested_events(),
            final(log).requested_events(),
            context.plan_failed_event_id@,
            plan.plan_id@,
            context.completed_at@,
        ) || exists|k: int, finalizer_step_id: Seq<char>|
            crate::executor::spec_pending_handoff_finalizer_step_index(steps_view(plan.steps@), k, finalizer_step_id) == Err::<
                int,
                BuddyErrorView,
            >(r->Err_0->Execution_0@),
        old(log).keeps_record() && plan.failure_policy == TimelineFailurePolicy::Continue && spec_all_steps_refused(
            registry@,
            *plan,
        ) && r is Ok ==> final(log).requested_events() == old(log).requested_events().push(
            spec_timeline_started_event(*plan, *context, trigger_source),
        ).push(
            spec_timeline_completed_event(
                *plan,
                *context,
                trigger_source,
                ActionLogTimelinePlanStats {
                    completed_step_count: 0,
                    failed_step_count: plan.steps@.len() as u64,
                    skipped_step_count: 0,
                    duration_ms: 0,
                },
            ),
        ),
{
    match validate_pending_handoff_finalizer_interrupt_policies(registry, resolve_context, plan) {
        Ok(_) => {},
        Err(e) => return Err(TimelineExecutionError::Execution(e)),
    }
    let started = timeline_plan_started(
        context.plan_started_event_id.as_str(),
        plan,
        trigger_source,
        context.created_at.as_str(),
    );
    if let Err(e) = log.append_event(&started) {
        return Err(TimelineExecutionError::ActionLog(e));
    }
    let scope = TimelineStepExecutionScope { registry, resolve_context, plan, context, trigger_source };
    let mut stats = ActionLogTimelinePlanStats::new();
    let mut runtime_state = TimelineRuntimeState::new();
    let mut step_index: usize = 0;
    let ghost all_refused = plan.failure_policy == TimelineFailurePolicy::Continue && spec_all_steps_refused(
        registry@,
        *plan,
    );
    while step_index < plan.steps.len()
        invariant
            step_index <= plan.steps@.len(),
            log.keeps_record() == old(log).keeps_record(),
            old(log).keeps_record() ==> crate::action_log::log_kept(old(log).requested_events().push(started@), log.requested_events()),
            step_index == 0 ==> runtime_state@ == Map::<Seq<char>, (i32, i32)>::empty(),
            all_refused ==> runtime_state@ == Map::<Seq<char>, (i32, i32)>::empty(),
            all_refused && old(log).keeps_record() ==> log.requested_events() == old(log).requested_events().push(started@),
            all_refused ==> stats == (ActionLogTimelinePlanStats {
                completed_step_count: 0,
                failed_step_count: step_index as u64,
                skipped_step_count: 0,
                duration_ms: 0,
            }),
            step_index > 0 ==> !(plan.failure_policy == TimelineFailurePolicy::Abort && spec_plan_step_refused(
                registry@,
                Map::empty(),
                plan.steps@[0]@,
            )),
            step_index == 0 && old(log).keeps_record() ==> log.requested_events() == old(log).requested_events().push(started@),
        decreases plan.steps@.len() - step_index,
    {
        let step = &plan.steps[step_index];
        let interrupt_policy = timeline_step_interrupt_policy(Some(registry), resolve_context, step);
        if let Err(error) = events.step_starting(step, interrupt_policy) {
            let ghost logged_before = log.requested_events().len();
            let failure = fail_timeline_plan(log, events, plan, context, trigger_source, stats, step.step_id(), error);
            proof {
                if old(log).keeps_record() {
                    assert(logged_plan_failed(old(log).requested_events(), log.requested_events(), context.plan_failed_event_id@, plan.plan_id@, context.completed_at@)) by {
                        assert(crate::action_log::is_plan_event(log.requested_events()[logged_before as int], context.plan_failed_event_id@, plan.plan_id@, "failed"@, context.completed_at@));
                    }
                }
            }
            return Err(failure);
        }
        let ghost state_before_step = runtime_state@;
        let step_result = execute_timeline_plan_step(executor, log, events, &scope, step, step_index, &mut runtime_state);
        proof {
            if spec_plan_step_refused(registry@, state_before_step, step@) {
                lemma_refused_step_fails(registry@, state_before_step, step@, step_result);
            }
        }
        match step_result {
            Ok(report) => {
                stats.add_report(&report);
                if let Some(after) = &report.yielded_to_pending_plan_after_step_id {
                    return interrupt_timeline_plan(log, plan, context, trigger_source, stats, after.as_str());
                }
                match events.step_completed(step) {
                    Ok(decision) => match next_step_after_completion(&plan.steps, step_index, &decision) {
                        Ok(Some(i)) => {
                            step_index = i;
                        },
                        Ok(None) => {
                            return interrupt_timeline_plan(log, plan, context, trigger_source, stats, step.step_id());
                        },
                        Err(e) => {
                            proof {
                                let finalizer_step_id = match decision {
                                    StepCompletionDecision::RunPendingHandoffFinalizer { step_id } => step_id@,
                                    _ => Seq::empty(),
                                };
                                assert(crate::executor::spec_pending_handoff_finalizer_step_index(
                                    steps_view(plan.steps@),
                                    step_index as int,
                                    finalizer_step_id,
                                ) == Err::<int, BuddyErrorView>(e@));
                            }
                            return Err(TimelineExecutionError::Execution(e));
                        },
                    },
                    Err(error) => {
                        let ghost logged_before = log.requested_events().len();
                        let failure = fail_timeline_plan(log, events, plan, context, trigger_source, stats, step.step_id(), error);
                        proof {
                            if old(log).keeps_record() {
                                assert(logged_plan_failed(old(log).requested_events(), log.requested_events(), context.plan_failed_event_id@, plan.plan_id@, context.completed_at@)) by {
                                    assert(crate::action_log::is_plan_event(log.requested_events()[logged_before as int], context.plan_failed_event_id@, plan.plan_id@, "failed"@, context.completed_at@));
                                }
                            }
                        }
                        return Err(failure);
                    },
                }
            },
            Err(failure) => match failure.error {
                TimelineExecutionError::Execution(error) => {
                    stats.add_report(&failure.report);
                    let continues = failure_policy_continues(plan.failure_policy);
                    if continues {
                        step_index = step_index + 1;
                    } else {
                        let failed_step_id = match &failure.failed_step_id {
                            Some(id) => id.as_str(),
                            None => step.step_id(),
                        };
                        let ghost logged_before = log.requested_events().len();
                        let failure = fail_timeline_plan(log, events, plan, context, trigger_source, stats, failed_step_id, error);
                        proof {
                            if old(log).keeps_record() {
                                assert(logged_plan_failed(old(log).requested_events(), log.requested_events(), context.plan_failed_event_id@, plan.plan_id@, context.completed_at@)) by {
                                    assert(crate::action_log::is_plan_event(log.requested_events()[logged_before as int], context.plan_failed_event_id@, plan.plan_id@, "failed"@, context.completed_at@));
                                }
                            }
                        }
                        return Err(failure);
                    }
                },
                TimelineExecutionError::ActionLog(e) => return Err(TimelineExecutionError::ActionLog(e)),
            },
        }
    }
    let completed = timeline_plan_completed(
        context.plan_completed_event_id.as_str(),
        plan,
        trigger_source,
        stats,
        context.completed_at.as_str(),
    );
    match log.append_event(&completed) {
        Ok(_) => Ok(TimelinePlanExecutionReport { plan_id: plan.plan_id.clone() }),
        Err(e) => Err(TimelineExecutionError::ActionLog(e)),
    }
}

} // verus!
