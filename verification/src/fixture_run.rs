use vstd::prelude::*;

use crate::error::{BuddyError, BuddyErrorView, BuddyResult};
use crate::execution_context::{DevFixtureExecutionContext, DevFixtureKind};
use crate::executor::{
    nested_timeline_step_event_index, pending_handoff_finalizer_step_index, planner_side_timeline_step_error,
    spec_validate_wait_step, timeline_step_interrupt_policy, validate_wait_step, TimelineStepExecutionReport,
};
use crate::fixture::{
    create_ai_macro_demo_dev_fixture_plan, create_single_play_action_dev_fixture_plan, spec_ai_macro_demo_steps,
    DevFixturePlan,
};
use crate::action_log::{
    move_by_path_payload, move_by_path_resolved_payload, move_to_payload, move_to_resolved_payload, plan_completed,
    plan_failed, plan_interrupted, plan_started, play_action_completed_payload, play_action_failed_payload,
    play_action_resolved_payload, resolve_context_json, step_event, wait_payload, ActionLogEventIds, ActionLogFamily,
    ActionLogSink,
};
use crate::json::{json_str, json_u64, JsonValue, JsonView};
use crate::plan_run::{empty_report, report_is, StepCompletionDecision, TimelineExecutionEvents};
use crate::registry::{ActionRegistry, ResolveContext};
use crate::step_execution::ChoreographyStepExecutor;
use crate::step_resolution::{
    resolve_move_by_path_after_action, resolve_move_to_after_action, resolve_play_action_step,
    spec_resolve_after_action, spec_resolve_play_action_step, AfterActionResolution,
};
use crate::timeline::{RecoverStep, TimelineStep, TimelineStepView};

verus! {

/// Why a developer fixture run stopped: the action log could not be written, or the fixture
/// failed.
#[derive(Debug, PartialEq, Eq)]
pub enum DevFixtureExecutionError {
    ActionLog(BuddyError),
    Execution(BuddyError),
}

impl DevFixtureExecutionError {
    pub open spec fn spec_message(self) -> Seq<char> {
        match self {
            DevFixtureExecutionError::ActionLog(e) => "action log write failed: "@ + crate::error::spec_error_message(e@),
            DevFixtureExecutionError::Execution(e) => "fixture execution failed: "@ + crate::error::spec_error_message(e@),
        }
    }

    /// The text a user sees for this error.
    pub fn message(&self) -> (s: String)
        ensures
            s@ == self.spec_message(),
    {
        match self {
            DevFixtureExecutionError::ActionLog(e) => crate::text::concat_str(
                "action log write failed: ",
                e.message().as_str(),
            ),
            DevFixtureExecutionError::Execution(e) => crate::text::concat_str(
                "fixture execution failed: ",
                e.message().as_str(),
            ),
        }
    }
}

/// The report of a fixture run that ended: the plan that ran.
#[derive(Debug, Clone, PartialEq, Eq)]
pub struct DevFixtureExecutionReport {
    pub plan_id: String,
}

/// What a fixture step runs with.
pub struct DevFixtureStepExecutionScope<'a> {
    pub registry: &'a ActionRegistry,
    pub resolve_context: &'a ResolveContext,
    pub plan: &'a DevFixturePlan,
    pub context: &'a DevFixtureExecutionContext,
}

/// The event about a fixture step that a fixture run writes: the fixture's plan and source,
/// under the event id of its kind indexed by the step.
pub open spec fn spec_fixture_step_event(
    scope: DevFixtureStepExecutionScope,
    base_event_id: Seq<char>,
    step_index: nat,
    step: crate::timeline::TimelineStepView,
    kind: Seq<char>,
    reason: Seq<char>,
    payload: JsonView,
    at: Seq<char>,
) -> crate::action_log::ActionLogEventView {
    crate::action_log::spec_step_event(
        ActionLogFamily::DevFixture,
        crate::macro_plan::spec_indexed_id(base_event_id, step_index),
        scope.plan.plan_id@,
        Some(step.step_id()),
        kind,
        reason,
        scope.plan.source_ref@,
        payload,
        at,
    )
}

impl<'a> DevFixtureStepExecutionScope<'a> {
    /// Writes one event about a step of the fixture; a failed write stops the fixture.
    fn log_step<L: ActionLogSink>(
        &self,
        log: &mut L,
        base_event_id: &str,
        step_index: usize,
        step: &TimelineStep,
        kind: &str,
        reason: &str,
        payload: JsonValue,
        at: &str,
    ) -> (r: Result<(), DevFixtureExecutionError>)
        requires
            step_index < usize::MAX,
        ensures
            final(log).keeps_record() == old(log).keeps_record(),
            r matches Err(e) ==> e is ActionLog,
            old(log).keeps_record() ==> (final(log).requested_events() == old(log).requested_events().push(
                spec_fixture_step_event(
                    *self,
                    base_event_id@,
                    step_index as nat,
                    step@,
                    kind@,
                    reason@,
                    payload@,
                    at@,
                ),
            )),
            old(log).keeps_record() ==> (final(log).requested_system_events() == old(log).requested_system_events()),
    {
        let event_id = crate::executor::indexed_event_id(base_event_id, step_index);
        let ids = ActionLogEventIds {
            event_id: event_id.as_str(),
            plan_id: self.plan.plan_id.as_str(),
            step_id: Some(step.step_id()),
        };
        let event = step_event(ActionLogFamily::DevFixture, &ids, kind, reason, &self.plan.source_ref, payload, at);
        match log.append_event(&event) {
            Ok(_) => Ok(()),
            Err(e) => Err(DevFixtureExecutionError::ActionLog(e)),
        }
    }

    fn log_resolved<L: ActionLogSink>(&self, log: &mut L, step: &TimelineStep, step_index: usize, payload: JsonValue) -> (r:
        Result<(), DevFixtureExecutionError>)
        requires
            step_index < usize::MAX,
        ensures
            final(log).keeps_record() == old(log).keeps_record(),
            r matches Err(e) ==> e is ActionLog,
            old(log).keeps_record() ==> (final(log).requested_events() == old(log).requested_events().push(
                spec_fixture_step_event(
                    *self,
                    self.context.step_resolved_event_id@,
                    step_index as nat,
                    step@,
                    "resolved"@,
                    "stepResolved"@,
                    payload@,
                    self.context.resolved_at@,
                ),
            )),
            old(log).keeps_record() ==> (final(log).requested_system_events() == old(log).requested_system_events()),
    {
        self.log_step(
            log,
            self.context.step_resolved_event_id.as_str(),
            step_index,
            step,
            "resolved",
            "stepResolved",
            payload,
            self.context.resolved_at.as_str(),
        )
    }

    fn log_completed<L: ActionLogSink>(&self, log: &mut L, step: &TimelineStep, step_index: usize, payload: JsonValue) -> (r:
        Result<(), DevFixtureExecutionError>)
        requires
            step_index < usize::MAX,
        ensures
            final(log).keeps_record() == old(log).keeps_record(),
            r matches Err(e) ==> e is ActionLog,
            old(log).keeps_record() ==> (final(log).requested_events() == old(log).requested_events().push(
                spec_fixture_step_event(
                    *self,
                    self.context.step_completed_event_id@,
                    step_index as nat,
                    step@,
                    "completed"@,
                    "stepCompleted"@,
                    payload@,
                    self.context.completed_at@,
                ),
            )),
            old(log).keeps_record() ==> (final(log).requested_system_events() == old(log).requested_system_events()),
    {
        self.log_step(
            log,
            self.context.step_completed_event_id.as_str(),
            step_index,
            step,
            "completed",
            "stepCompleted",
            payload,
            self.context.completed_at.as_str(),
        )
    }

    /// Writes that a step failed, then fails the fixture with its error.
    fn log_failure<L: ActionLogSink>(
        &self,
        log: &mut L,
        step: &TimelineStep,
        step_index: usize,
        payload: JsonValue,
        error: BuddyError,
    ) -> (r: DevFixtureExecutionError)
        requires
            step_index < usize::MAX,
        ensures
            final(log).keeps_record() == old(log).keeps_record(),
            r is ActionLog || r == DevFixtureExecutionError::Execution(error),
            old(log).keeps_record() ==> (final(log).requested_events() == old(log).requested_events().push(
                spec_fixture_step_event(
                    *self,
                    self.context.step_failed_event_id@,
                    step_index as nat,
                    step@,
                    "failed"@,
                    "stepFailed"@,
                    payload@,
                    self.context.completed_at@,
                ),
            )),
            old(log).keeps_record() ==> (final(log).requested_system_events() == old(log).requested_system_events()),
    {
        match self.log_step(
            log,
            self.context.step_failed_event_id.as_str(),
            step_index,
            step,
            "failed",
            "stepFailed",
            payload,
            self.context.completed_at.as_str(),
        ) {
            Ok(_) => DevFixtureExecutionError::Execution(error),
            Err(e) => e,
        }
    }
}

/// The error `e` stopped the fixture step.
pub open spec fn fixture_fails_with(r: Result<TimelineStepExecutionReport, DevFixtureExecutionError>, e: BuddyErrorView) -> bool {
    r matches Err(DevFixtureExecutionError::Execution(x)) && x@ == e
}

/// What running a fixture step is known to give whatever the executor and the action log
/// answer: only play actions, moves, waits and recover steps run, the rest are refused; a step
/// that cannot resolve, or is invalid, fails with that error before anything runs; and a step
/// that succeeds reports one completed step and the time it took.
pub open spec fn spec_fixture_step_outcome_known(
    actions: Seq<crate::registry::ActionDefinitionView>,
    step: TimelineStepView,
    r: Result<TimelineStepExecutionReport, DevFixtureExecutionError>,
) -> bool {
    match step {
        TimelineStepView::PlayAction(s) => match spec_resolve_play_action_step(actions, s) {
            Err(e) => fixture_fails_with(r, e),
            Ok(res) => r is Ok ==> report_is(r->Ok_0, 1, 0, 0, res.duration_ms),
        },
        TimelineStepView::MoveTo(s) => match spec_resolve_after_action(
            actions,
            s.after_action_id,
            s.fallback_after_action_id,
            "moveTo"@,
        ) {
            Err(e) => fixture_fails_with(r, e),
            Ok(_) => r is Ok ==> report_is(r->Ok_0, 1, 0, 0, 0),
        },
        TimelineStepView::MoveByPath(s) => match spec_resolve_after_action(
            actions,
            s.after_action_id,
            s.fallback_after_action_id,
            "moveByPath"@,
        ) {
            Err(e) => fixture_fails_with(r, e),
            Ok(_) => r is Ok ==> report_is(r->Ok_0, 1, 0, 0, 0),
        },
        TimelineStepView::Wait(s) => match spec_validate_wait_step(s.duration_ms, s.timeout_ms) {
            Err(e) => fixture_fails_with(r, e),
            Ok(_) => r is Ok ==> report_is(r->Ok_0, 1, 0, 0, s.duration_ms),
        },
        TimelineStepView::Recover { .. } => true,
        _ => fixture_fails_with(
            r,
            BuddyErrorView::Validation(
                step.kind() + " timeline step is planner-side and cannot execute directly: "@ + step.step_id(),
            ),
        ),
    }
}

/// The error with which a fixture step is refused before anything of it runs, whatever the
/// executor answers, if it is: a step that cannot resolve or is invalid, or one a fixture does
/// not run.
pub open spec fn spec_fixture_step_early_error(
    actions: Seq<crate::registry::ActionDefinitionView>,
    step: TimelineStepView,
) -> Option<BuddyErrorView> {
    match step {
        TimelineStepView::PlayAction(s) => match spec_resolve_play_action_step(actions, s) {
            Err(e) => Some(e),
            Ok(_) => None,
        },
        TimelineStepView::MoveTo(s) => match spec_resolve_after_action(
            actions,
            s.after_action_id,
            s.fallback_after_action_id,
            "moveTo"@,
        ) {
            Err(e) => Some(e),
            Ok(_) => None,
        },
        TimelineStepView::MoveByPath(s) => match spec_resolve_after_action(
            actions,
            s.after_action_id,
            s.fallback_after_action_id,
            "moveByPath"@,
        ) {
            Err(e) => Some(e),
            Ok(_) => None,
        },
        TimelineStepView::Wait(s) => match spec_validate_wait_step(s.duration_ms, s.timeout_ms) {
            Err(e) => Some(e),
            Ok(_) => None,
        },
        TimelineStepView::Recover { .. } => None,
        _ => Some(
            BuddyErrorView::Validation(
                step.kind() + " timeline step is planner-side and cannot execute directly: "@ + step.step_id(),
            ),
        ),
    }
}

/// The events a step that runs on the executor hands to the log, where it keeps a record: its
/// resolved event with `resolved`; then, when the step succeeds, its completed event with
/// `completed`, and when the executor refuses it, its failed event with `failed` of the
/// error's message. A failed write ends the step after the event it was writing.
pub open spec fn spec_fixture_executor_step_logged(
    scope: DevFixtureStepExecutionScope,
    before: Seq<crate::action_log::ActionLogEventView>,
    after: Seq<crate::action_log::ActionLogEventView>,
    step_index: nat,
    step: crate::timeline::TimelineStepView,
    r: Result<TimelineStepExecutionReport, DevFixtureExecutionError>,
    resolved: JsonView,
    completed: JsonView,
    failed: spec_fn(Seq<char>) -> JsonView,
) -> bool {
    let resolved_event = spec_fixture_step_event(
        scope,
        scope.context.step_resolved_event_id@,
        step_index,
        step,
        "resolved"@,
        "stepResolved"@,
        resolved,
        scope.context.resolved_at@,
    );
    let completed_event = spec_fixture_step_event(
        scope,
        scope.context.step_completed_event_id@,
        step_index,
        step,
        "completed"@,
        "stepCompleted"@,
        completed,
        scope.context.completed_at@,
    );
    &&& r is Ok ==> after == before.push(resolved_event).push(completed_event)
    &&& r is Err ==> match r->Err_0 {
        DevFixtureExecutionError::Execution(e) => after == before.push(resolved_event).push(
            spec_fixture_step_event(
                scope,
                scope.context.step_failed_event_id@,
                step_index,
                step,
                "failed"@,
                "stepFailed"@,
                failed(crate::error::spec_error_message(e@)),
                scope.context.completed_at@,
            ),
        ),
        DevFixtureExecutionError::ActionLog(_) => before.len() < after.len() <= before.len() + 2
            && crate::action_log::log_kept(before.push(resolved_event), after),
    }
}

/// The events a fixture step that runs on the executor hands to the log once it resolved, with
/// the payloads of its kind.
pub open spec fn spec_fixture_step_logged(
    scope: DevFixtureStepExecutionScope,
    before: Seq<crate::action_log::ActionLogEventView>,
    after: Seq<crate::action_log::ActionLogEventView>,
    step_index: nat,
    step: crate::timeline::TimelineStepView,
    r: Result<TimelineStepExecutionReport, DevFixtureExecutionError>,
) -> bool {
    match step {
        crate::timeline::TimelineStepView::PlayAction(s) => match spec_resolve_play_action_step(scope.registry@, s) {
            Ok(res) => spec_fixture_executor_step_logged(
                scope,
                before,
                after,
                step_index,
                step,
                r,
                crate::action_log::spec_play_action_resolved_payload(res, *scope.resolve_context),
                crate::action_log::spec_play_action_completed_payload(res, res.duration_ms),
                |m: Seq<char>| crate::action_log::spec_play_action_failed_payload(res, m),
            ),
            Err(_) => true,
        },
        crate::timeline::TimelineStepView::MoveTo(s) => match spec_resolve_after_action(
            scope.registry@,
            s.after_action_id,
            s.fallback_after_action_id,
            "moveTo"@,
        ) {
            Ok(a) => spec_fixture_executor_step_logged(
                scope,
                before,
                after,
                step_index,
                step,
                r,
                crate::action_log::spec_move_to_resolved_payload(
                    s.target,
                    s.timeout_ms,
                    s.after_action_id,
                    a,
                    *scope.resolve_context,
                    false,
                ),
                crate::action_log::spec_move_to_payload(s.target, s.timeout_ms, None, false),
                |m: Seq<char>| crate::action_log::spec_move_to_payload(s.target, s.timeout_ms, Some(m), false),
            ),
            Err(_) => true,
        },
        crate::timeline::TimelineStepView::MoveByPath(s) => match spec_resolve_after_action(
            scope.registry@,
            s.after_action_id,
            s.fallback_after_action_id,
            "moveByPath"@,
        ) {
            Ok(a) => spec_fixture_executor_step_logged(
                scope,
                before,
                after,
                step_index,
                step,
                r,
                crate::action_log::spec_move_by_path_resolved_payload(
                    s.path,
                    s.timeout_ms,
                    s.after_action_id,
                    a,
                    *scope.resolve_context,
                ),
                crate::action_log::spec_move_by_path_payload(s.path, s.timeout_ms, None),
                |m: Seq<char>| crate::action_log::spec_move_by_path_payload(s.path, s.timeout_ms, Some(m)),
            ),
            Err(_) => true,
        },
        crate::timeline::TimelineStepView::Wait(s) => match spec_validate_wait_step(s.duration_ms, s.timeout_ms) {
            Ok(_) => spec_fixture_executor_step_logged(
                scope,
                before,
                after,
                step_index,
                step,
                r,
                crate::action_log::spec_wait_payload(
                    s.duration_ms,
                    s.timeout_ms,
                    ("resolveContext"@, crate::action_log::spec_resolve_context_json(*scope.resolve_context)),
                ),
                crate::action_log::spec_wait_payload(
                    s.duration_ms,
                    s.timeout_ms,
                    ("elapsedMs"@, JsonView::Number(Some(s.duration_ms as i128))),
                ),
                |m: Seq<char>| crate::action_log::spec_wait_payload(s.duration_ms, s.timeout_ms, ("error"@, JsonView::Str(m))),
            ),
            Err(_) => true,
        },
        _ => true,
    }
}

/// A fixture step refused before it runs fails with that error.
proof fn lemma_fixture_step_early_error(
    actions: Seq<crate::registry::ActionDefinitionView>,
    step: TimelineStepView,
    r: Result<TimelineStepExecutionReport, DevFixtureExecutionError>,
)
    requires
        spec_fixture_step_early_error(actions, step) is Some,
        spec_fixture_step_outcome_known(actions, step, r),
    ensures
        fixture_fails_with(r, spec_fixture_step_early_error(actions, step)->Some_0),
{
}

fn after_ref(a: &Option<AfterActionResolution>) -> (r: Option<&str>)
    ensures
        crate::text::opt_str_view(r) == match *a {
            Some(x) => Some(x.animation_ref@),
            None => None,
        },
{
    match a {
        Some(x) => Some(x.animation_ref.as_str()),
        None => None,
    }
}

fn opt_ref(a: &Option<AfterActionResolution>) -> (r: Option<&AfterActionResolution>)
    ensures
        crate::action_log::opt_after_view(r) == match *a {
            Some(x) => Some(x@),
            None => None,
        },
{
    match a {
        Some(x) => Some(x),
        None => None,
    }
}

fn opt_as_str(a: &Option<String>) -> (r: Option<&str>)
    ensures
        crate::text::opt_str_view(r) == crate::text::opt_string_view(*a),
{
    match a {
        Some(x) => Some(x.as_str()),
        None => None,
    }
}

/// Runs one fixture step on the executor and writes what happened to the action log: the
/// resolution, then the completion or the failure. A recover step runs its recovery steps
/// when its primary steps fail; the other host-side and planner-side steps are refused.
pub fn execute_dev_fixture_timeline_step<E: ChoreographyStepExecutor, L: ActionLogSink>(
    executor: &E,
    log: &mut L,
    scope: &DevFixtureStepExecutionScope,
    step: &TimelineStep,
    step_index: usize,
) -> (r: Result<TimelineStepExecutionReport, DevFixtureExecutionError>)
    requires
        step_index < usize::MAX,
    ensures
        final(log).keeps_record() == old(log).keeps_record(),
        old(log).keeps_record() ==> crate::action_log::log_kept(old(log).requested_events(), final(log).requested_events()),
        spec_fixture_step_outcome_known(scope.registry@, step@, r),
        old(log).keeps_record() ==> spec_fixture_step_logged(
            *scope,
            old(log).requested_events(),
            final(log).requested_events(),
            step_index as nat,
            step@,
            r,
        ),
    decreases step, 0int,
{
    match step {
        TimelineStep::PlayAction(s) => {
            let resolution = match resolve_play_action_step(scope.registry, scope.resolve_context, s) {
                Ok(res) => res,
                Err(e) => return Err(DevFixtureExecutionError::Execution(e)),
            };
            let payload = play_action_resolved_payload(&resolution, scope.resolve_context);
            match scope.log_resolved(log, step, step_index, payload) {
                Ok(_) => {},
                Err(e) => return Err(e),
            }
            if let Err(error) = executor.play_action_step(s, &resolution) {
                let message = error.message();
                let payload = play_action_failed_payload(&resolution, message.as_str());
                return Err(scope.log_failure(log, step, step_index, payload, error));
            }
            let payload = play_action_completed_payload(&resolution, resolution.duration_ms);
            match scope.log_completed(log, step, step_index, payload) {
                Ok(_) => {},
                Err(e) => return Err(e),
            }
            Ok(TimelineStepExecutionReport::completed(resolution.duration_ms))
        },
        TimelineStep::MoveTo(s) => {
            let after = match resolve_move_to_after_action(scope.registry, scope.resolve_context, s) {
                Ok(a) => a,
                Err(e) => return Err(DevFixtureExecutionError::Execution(e)),
            };
            let payload = move_to_resolved_payload(
                &s.target,
                s.timeout_ms,
                opt_as_str(&s.after_action_id),
                opt_ref(&after),
                scope.resolve_context,
                false,
            );
            match scope.log_resolved(log, step, step_index, payload) {
                Ok(_) => {},
                Err(e) => return Err(e),
            }
            if let Err(error) = executor.move_to_step(s, after_ref(&after)) {
                let message = error.message();
                let payload = move_to_payload(&s.target, s.timeout_ms, Some(message.as_str()), false);
                return Err(scope.log_failure(log, step, step_index, payload, error));
            }
            match scope.log_completed(log, step, step_index, move_to_payload(&s.target, s.timeout_ms, None, false)) {
                Ok(_) => {},
                Err(e) => return Err(e),
            }
            Ok(TimelineStepExecutionReport::completed(0))
        },
        TimelineStep::MoveByPath(s) => {
            let after = match resolve_move_by_path_after_action(scope.registry, scope.resolve_context, s) {
                Ok(a) => a,
                Err(e) => return Err(DevFixtureExecutionError::Execution(e)),
            };
            let payload = move_by_path_resolved_payload(
                &s.path,
                s.timeout_ms,
                opt_as_str(&s.after_action_id),
                opt_ref(&after),
                scope.resolve_context,
            );
            match scope.log_resolved(log, step, step_index, payload) {
                Ok(_) => {},
                Err(e) => return Err(e),
            }
            if let Err(error) = executor.move_by_path_step(s, after_ref(&after)) {
                let message = error.message();
                let payload = move_by_path_payload(&s.path, s.timeout_ms, Some(message.as_str()));
                return Err(scope.log_failure(log, step, step_index, payload, error));
            }
            match scope.log_completed(log, step, step_index, move_by_path_payload(&s.path, s.timeout_ms, None)) {
                Ok(_) => {},
                Err(e) => return Err(e),
            }
            Ok(TimelineStepExecutionReport::completed(0))
        },
        TimelineStep::Wait(s) => {
            match validate_wait_step(s) {
                Ok(_) => {},
                Err(e) => return Err(DevFixtureExecutionError::Execution(e)),
            }
            let payload = wait_payload(s.duration_ms, s.timeout_ms, "resolveContext", resolve_context_json(scope.resolve_context));
            match scope.log_resolved(log, step, step_index, payload) {
                Ok(_) => {},
                Err(e) => return Err(e),
            }
            if let Err(error) = executor.wait_step(s) {
                let message = error.message();
                let payload = wait_payload(s.duration_ms, s.timeout_ms, "error", json_str(message.as_str()));
                return Err(scope.log_failure(log, step, step_index, payload, error));
            }
            let payload = wait_payload(s.duration_ms, s.timeout_ms, "elapsedMs", json_u64(s.duration_ms));
            match scope.log_completed(log, step, step_index, payload) {
                Ok(_) => {},
                Err(e) => return Err(e),
            }
            Ok(TimelineStepExecutionReport::completed(s.duration_ms))
        },
        TimelineStep::Recover(s) => {
            proof { assert(decreases_to!(*step => *s)); }
            execute_dev_fixture_recover_step(executor, log, scope, s, step_index)
        },
        _ => Err(DevFixtureExecutionError::Execution(planner_side_timeline_step_error(step))),
    }
}

/// A fixture branch that stopped: why, and what ran before it stopped, the failed step
/// counted.
#[derive(Debug, PartialEq, Eq)]
pub struct DevFixtureTimelineBranchExecutionError {
    pub error: DevFixtureExecutionError,
    pub report: TimelineStepExecutionReport,
}

/// Runs the steps of one branch of a fixture step in order, stopping at the first failure.
pub fn execute_dev_fixture_timeline_branch_steps<E: ChoreographyStepExecutor, L: ActionLogSink>(
    executor: &E,
    log: &mut L,
    scope: &DevFixtureStepExecutionScope,
    steps: &Vec<TimelineStep>,
    parent_step_index: usize,
    branch_index: usize,
) -> (r: Result<TimelineStepExecutionReport, DevFixtureTimelineBranchExecutionError>)
    ensures
        final(log).keeps_record() == old(log).keeps_record(),
        old(log).keeps_record() ==> crate::action_log::log_kept(old(log).requested_events(), final(log).requested_events()),
        steps@.len() == 0 ==> r is Ok && report_is(r->Ok_0, 0, 0, 0, 0),
        r matches Err(f) ==> f.report.failed_step_count >= 1,
        steps@.len() > 0 ==> (spec_fixture_step_early_error(scope.registry@, steps@[0]@) matches Some(e) ==> (r matches Err(
            f,
        ) && f.error matches DevFixtureExecutionError::Execution(x) && x@ == e)),
    decreases steps, 0int,
{
    let mut report = empty_report();
    let mut nested_index: usize = 0;
    while nested_index < steps.len()
        invariant
            nested_index <= steps@.len(),
            nested_index == 0 ==> report_is(report, 0, 0, 0, 0),
            nested_index > 0 ==> spec_fixture_step_early_error(scope.registry@, steps@[0]@) is None,
            log.keeps_record() == old(log).keeps_record(),
            old(log).keeps_record() ==> crate::action_log::log_kept(old(log).requested_events(), log.requested_events()),
        decreases steps@.len() - nested_index,
    {
        proof { vstd::std_specs::vec::axiom_vec_index_decreases(*steps, nested_index as int); }
        let nested_step_index = nested_timeline_step_event_index(parent_step_index, branch_index, nested_index);
        let result = execute_dev_fixture_timeline_step(executor, log, scope, &steps[nested_index], nested_step_index);
        proof {
            if spec_fixture_step_early_error(scope.registry@, steps@[nested_index as int]@) is Some {
                lemma_fixture_step_early_error(scope.registry@, steps@[nested_index as int]@, result);
            }
        }
        match result {
            Ok(step_report) => report.add(step_report),
            Err(error) => {
                report.add(TimelineStepExecutionReport::failed());
                return Err(DevFixtureTimelineBranchExecutionError { error, report });
            },
        }
        nested_index = nested_index + 1;
    }
    Ok(report)
}

/// Runs the primary steps, and the recovery steps when the primary steps fail; the report adds
/// up both branches, and a failed recovery fails the step with its error.
pub fn execute_dev_fixture_recover_step<E: ChoreographyStepExecutor, L: ActionLogSink>(
    executor: &E,
    log: &mut L,
    scope: &DevFixtureStepExecutionScope,
    s: &RecoverStep,
    step_index: usize,
) -> (r: Result<TimelineStepExecutionReport, DevFixtureExecutionError>)
    ensures
        final(log).keeps_record() == old(log).keeps_record(),
        old(log).keeps_record() ==> crate::action_log::log_kept(old(log).requested_events(), final(log).requested_events()),
        s.steps@.len() == 0 ==> r is Ok && report_is(r->Ok_0, 0, 0, 0, 0),
        s.recovery_steps@.len() == 0 ==> r is Ok,
        s.steps@.len() > 0 && s.recovery_steps@.len() > 0 && spec_fixture_step_early_error(scope.registry@, s.steps@[0]@)
            is Some ==> (spec_fixture_step_early_error(scope.registry@, s.recovery_steps@[0]@) matches Some(e)
            ==> fixture_fails_with(r, e)),
    decreases s, 0int,
{
    proof {
        assert(decreases_to!(*s => s.steps));
        assert(decreases_to!(*s => s.recovery_steps));
    }
    let primary_failure = match execute_dev_fixture_timeline_branch_steps(executor, log, scope, &s.steps, step_index, 0) {
        Ok(report) => return Ok(report),
        Err(f) => f,
    };
    let mut report = primary_failure.report;
    match execute_dev_fixture_timeline_branch_steps(executor, log, scope, &s.recovery_steps, step_index, 1) {
        Ok(recovery_report) => {
            report.add(recovery_report);
            Ok(report)
        },
        Err(recovery_failure) => Err(recovery_failure.error),
    }
}

/// Whether the fixture of this kind can be built in this context: the fixture that plays one
/// action always can; the AI macro demo can when its macros plan.
pub open spec fn spec_dev_fixture_plan_buildable(fixture_kind: DevFixtureKind, context: DevFixtureExecutionContext) -> bool {
    fixture_kind == DevFixtureKind::SinglePlayAction || spec_ai_macro_demo_steps(
        context.plan_id@,
        context.beat_id@,
        context.step_id@,
        context.created_at@,
    ) is Ok
}

/// The plan a fixture kind runs, with the context's ids.
pub fn create_dev_fixture_plan(fixture_kind: DevFixtureKind, context: &DevFixtureExecutionContext) -> (r: BuddyResult<
    DevFixturePlan,
>)
    ensures
        fixture_kind == DevFixtureKind::SinglePlayAction ==> r is Ok && r->Ok_0.plan_id@ == context.plan_id@,
        fixture_kind == DevFixtureKind::AiMacroDemo ==> match spec_ai_macro_demo_steps(
            context.plan_id@,
            context.beat_id@,
            context.step_id@,
            context.created_at@,
        ) {
            Ok(steps) => r is Ok && crate::timeline::steps_view(r->Ok_0.steps@) == steps && r->Ok_0.plan_id@
                == context.plan_id@,
            Err(e) => r is Err && r->Err_0@ == e,
        },
{
    match fixture_kind {
        DevFixtureKind::SinglePlayAction => Ok(create_single_play_action_dev_fixture_plan(
            context.plan_id.as_str(),
            context.step_id.as_str(),
            context.created_at.as_str(),
        )),
        DevFixtureKind::AiMacroDemo => create_ai_macro_demo_dev_fixture_plan(
            context.plan_id.as_str(),
            context.beat_id.as_str(),
            context.step_id.as_str(),
            context.created_at.as_str(),
        ),
    }
}

/// Logs that a fixture failed with `error`, tells the listener, and gives the error that stops
/// the run: the failed write, or `error`.
fn fail_dev_fixture<L: ActionLogSink, H: TimelineExecutionEvents>(
    log: &mut L,
    events: &mut H,
    plan: &DevFixturePlan,
    context: &DevFixtureExecutionContext,
    failed_step_id: &str,
    error: BuddyError,
) -> (r: DevFixtureExecutionError)
    ensures
        final(log).keeps_record() == old(log).keeps_record(),
        old(log).keeps_record() ==> crate::action_log::log_kept(old(log).requested_events(), final(log).requested_events()),
        r is ActionLog || r == DevFixtureExecutionError::Execution(error),
        old(log).keeps_record() ==> final(log).requested_events().len() > old(log).requested_events().len()
            && crate::action_log::is_plan_event(
            final(log).requested_events()[old(log).requested_events().len() as int],
            context.plan_failed_event_id@,
            plan.plan_id@,
            "failed"@,
            context.completed_at@,
        ),
        old(log).keeps_record() ==> (r is ActionLog ==> final(log).requested_events() == old(log).requested_events().push(
            crate::action_log::spec_plan_event(
                crate::action_log::ActionLogFamily::DevFixture,
                context.plan_failed_event_id@,
                plan.plan_id@,
                "failed"@,
                "failed"@,
                plan.source_ref@,
                JsonView::Object(
                    seq![
                        ("status"@, crate::action_log::jstr("failed"@)),
                        ("error"@, crate::action_log::jstr(crate::error::spec_error_message(error@))),
                    ],
                ),
                context.completed_at@,
            ),
        )),
{
    let message = error.message();
    let event = plan_failed(context.plan_failed_event_id.as_str(), plan, message.as_str(), context.completed_at.as_str());
    if let Err(e) = log.append_event(&event) {
        return DevFixtureExecutionError::ActionLog(e);
    }
    events.execution_failed(log, failed_step_id, &error);
    DevFixtureExecutionError::Execution(error)
}

/// Runs a developer fixture step by step, writing its progress to the action log. Before each
/// step the listener is told and may refuse it; after a completed step it decides whether the
/// fixture goes on, jumps to a pending handoff's finalizer, or yields to a waiting plan. The
/// first step that fails stops the fixture.
#[verifier::loop_isolation(false)]
pub fn execute_dev_fixture_with_step_start<E: ChoreographyStepExecutor, L: ActionLogSink, H: TimelineExecutionEvents>(
    executor: &E,
    log: &mut L,
    events: &mut H,
    registry: &ActionRegistry,
    context: &DevFixtureExecutionContext,
    resolve_context: &ResolveContext,
    fixture_kind: DevFixtureKind,
) -> (r: Result<DevFixtureExecutionReport, DevFixtureExecutionError>)
    ensures
        final(log).keeps_record() == old(log).keeps_record(),
        old(log).keeps_record() ==> crate::action_log::log_kept(old(log).requested_events(), final(log).requested_events()),
        r matches Ok(rep) ==> rep.plan_id@ == context.plan_id@,
        fixture_kind == DevFixtureKind::AiMacroDemo ==> (spec_ai_macro_demo_steps(
            context.plan_id@,
            context.beat_id@,
            context.step_id@,
            context.created_at@,
        ) matches Err(e) ==> r matches Err(DevFixtureExecutionError::Execution(x)) && x@ == e),
        old(log).keeps_record() && spec_dev_fixture_plan_buildable(fixture_kind, *context)
            ==> crate::action_log::logged_first_plan_started(
            old(log).requested_events(),
            final(log).requested_events(),
            context.plan_started_event_id@,
            context.plan_id@,
            context.created_at@,
        ),
        old(log).keeps_record() && r is Ok ==> final(log).requested_events().len() > old(log).requested_events().len() + 1
            && (crate::action_log::is_plan_event(
            final(log).requested_events().last(),
            context.plan_completed_event_id@,
            context.plan_id@,
            "completed"@,
            context.completed_at@,
        ) || crate::action_log::is_plan_event(
            final(log).requested_events().last(),
            context.plan_failed_event_id@,
            context.plan_id@,
            "interrupted"@,
            context.completed_at@,
        )),
        fixture_kind == DevFixtureKind::AiMacroDemo && (spec_ai_macro_demo_steps(
            context.plan_id@,
            context.beat_id@,
            context.step_id@,
            context.created_at@,
        ) matches Ok(steps) && steps.len() > 0 && spec_fixture_step_early_error(registry@, steps[0]) is Some) ==> r is Err,
        old(log).keeps_record() && r is Err && r->Err_0 is Execution && spec_dev_fixture_plan_buildable(fixture_kind, *context)
            ==> crate::plan_run::logged_plan_failed(
            old(log).requested_events(),
            final(log).requested_events(),
            context.plan_failed_event_id@,
            context.plan_id@,
            context.completed_at@,
        ) || exists|steps: Seq<TimelineStepView>, k: int, finalizer_step_id: Seq<char>|
            crate::executor::spec_pending_handoff_finalizer_step_index(steps, k, finalizer_step_id) == Err::<
                int,
                BuddyErrorView,
            >(r->Err_0->Execution_0@),
{
    let plan = match create_dev_fixture_plan(fixture_kind, context) {
        Ok(p) => p,
        Err(e) => return Err(DevFixtureExecutionError::Execution(e)),
    };
    let started = plan_started(context.plan_started_event_id.as_str(), &plan, context.created_at.as_str());
    if let Err(e) = log.append_event(&started) {
        return Err(DevFixtureExecutionError::ActionLog(e));
    }
    let scope = DevFixtureStepExecutionScope { registry, resolve_context, plan: &plan, context };
    let mut completed_step_count: u64 = 0;
    let mut duration_ms: u64 = 0;
    let mut step_index: usize = 0;
    while step_index < plan.steps.len()
        invariant
            step_index <= plan.steps@.len(),
            plan.plan_id@ == context.plan_id@,
            fixture_kind == DevFixtureKind::AiMacroDemo ==> spec_ai_macro_demo_steps(
                context.plan_id@,
                context.beat_id@,
                context.step_id@,
                context.created_at@,
            ) == Ok::<Seq<TimelineStepView>, BuddyErrorView>(crate::timeline::steps_view(plan.steps@)),
            step_index > 0 && plan.steps@.len() > 0 ==> spec_fixture_step_early_error(registry@, plan.steps@[0]@) is None,
            log.keeps_record() == old(log).keeps_record(),
            old(log).keeps_record() ==> crate::action_log::log_kept(old(log).requested_events().push(started@), log.requested_events()),
        decreases plan.steps@.len() - step_index,
    {
        let step = &plan.steps[step_index];
        let interrupt_policy = timeline_step_interrupt_policy(Some(registry), resolve_context, step);
        if let Err(error) = events.step_starting(step, interrupt_policy) {
            let ghost logged_before = log.requested_events().len();
            let failure = fail_dev_fixture(log, events, &plan, context, step.step_id(), error);
            proof {
                if old(log).keeps_record() {
                    assert(crate::plan_run::logged_plan_failed(old(log).requested_events(), log.requested_events(), context.plan_failed_event_id@, context.plan_id@, context.completed_at@)) by {
                        assert(crate::action_log::is_plan_event(log.requested_events()[logged_before as int], context.plan_failed_event_id@, context.plan_id@, "failed"@, context.completed_at@));
                    }
                }
            }
            return Err(failure);
        }
        let step_result = execute_dev_fixture_timeline_step(executor, log, &scope, step, step_index);
        proof {
            if spec_fixture_step_early_error(registry@, step@) is Some {
                lemma_fixture_step_early_error(registry@, step@, step_result);
            }
        }
        match step_result {
            Ok(step_report) => {
                completed_step_count = completed_step_count.saturating_add(step_report.completed_step_count);
                duration_ms = duration_ms.saturating_add(step_report.duration_ms);
                match events.step_completed(step) {
                    Ok(decision) => match crate::plan_run::next_step_after_completion(&plan.steps, step_index, &decision) {
                        Ok(Some(i)) => {
                            step_index = i;
                        },
                        Ok(None) => {
                            let event = plan_interrupted(
                                context.plan_failed_event_id.as_str(),
                                &plan,
                                completed_step_count,
                                duration_ms,
                                step.step_id(),
                                context.completed_at.as_str(),
                            );
                            return match log.append_event(&event) {
                                Ok(_) => Ok(DevFixtureExecutionReport { plan_id: plan.plan_id.clone() }),
                                Err(e) => Err(DevFixtureExecutionError::ActionLog(e)),
                            };
                        },
                        Err(e) => {
                            proof {
                                let finalizer_step_id = match decision {
                                    StepCompletionDecision::RunPendingHandoffFinalizer { step_id } => step_id@,
                                    _ => Seq::empty(),
                                };
                                assert(crate::executor::spec_pending_handoff_finalizer_step_index(
                                    crate::timeline::steps_view(plan.steps@),
                                    step_index as int,
                                    finalizer_step_id,
                                ) == Err::<int, BuddyErrorView>(e@));
                            }
                            return Err(DevFixtureExecutionError::Execution(e));
                        },
                    },
                    Err(error) => {
                        let ghost logged_before = log.requested_events().len();
                        let failure = fail_dev_fixture(log, events, &plan, context, step.step_id(), error);
                        proof {
                            if old(log).keeps_record() {
                                assert(crate::plan_run::logged_plan_failed(old(log).requested_events(), log.requested_events(), context.plan_failed_event_id@, context.plan_id@, context.completed_at@)) by {
                                    assert(crate::action_log::is_plan_event(log.requested_events()[logged_before as int], context.plan_failed_event_id@, context.plan_id@, "failed"@, context.completed_at@));
                                }
                            }
                        }
                        return Err(failure);
                    },
                }
            },
            Err(DevFixtureExecutionError::Execution(error)) => {
                let ghost logged_before = log.requested_events().len();
                let failure = fail_dev_fixture(log, events, &plan, context, step.step_id(), error);
                proof {
                    if old(log).keeps_record() {
                        assert(crate::plan_run::logged_plan_failed(old(log).requested_events(), log.requested_events(), context.plan_failed_event_id@, context.plan_id@, context.completed_at@)) by {
                            assert(crate::action_log::is_plan_event(log.requested_events()[logged_before as int], context.plan_failed_event_id@, context.plan_id@, "failed"@, context.completed_at@));
                        }
                    }
                }
                return Err(failure);
            },
            Err(e) => return Err(e),
        }
    }
    let completed = plan_completed(
        context.plan_completed_event_id.as_str(),
        &plan,
        completed_step_count,
        duration_ms,
        context.completed_at.as_str(),
    );
    match log.append_event(&completed) {
        Ok(_) => Ok(DevFixtureExecutionReport { plan_id: plan.plan_id.clone() }),
        Err(e) => Err(DevFixtureExecutionError::ActionLog(e)),
    }
}

} // verus!
