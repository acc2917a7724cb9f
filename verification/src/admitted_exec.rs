use vstd::prelude::*;

use crate::action_log::{plan_failed, timeline_plan_failed, ActionLogSink, ActionLogTimelinePlanStats};
use crate::admission::ChoreographyAdmissionRelease;
use crate::admitted_run::{
    interrupt_preempted_active_step, AdmittedDevFixtureExecution, AdmittedTimelineExecution,
    DevFixtureAdmissionExecutionReport, TimelineAdmissionExecutionReport,
};
use crate::error::{BuddyError, BuddyResult};
use crate::fixture::DevFixturePlan;
use crate::fixture_run::{create_dev_fixture_plan, execute_dev_fixture_with_step_start, DevFixtureExecutionError};
use crate::plan_run::{
    execute_timeline_plan_with_step_start, StepCompletionDecision, TimelineExecutionError, TimelineExecutionEvents,
};
use crate::registry::{ActionRegistry, ResolveContext};
use crate::step_execution::ChoreographyStepExecutor;
use crate::step_protocol::SidecarInterruptPolicy;
use crate::timeline::{TimelinePlan, TimelineStep};

verus! {

/// What the scheduler does around an admitted run: record each step as the active one, decide
/// after each completed step, give the active slot back when the plan fails or ends, and
/// answer a failure. Every answer is the implementation's own; an answer to a failure may add
/// to the action log but keeps what the log holds. Hooks that keep a record hold the plan of
/// every failed plan they were asked to release, in order, and an answer to a failure keeps
/// that record.
pub trait AdmittedExecutionHooks {
    /// Whether these hooks keep a record of the failed plans they were asked to release. Hooks
    /// that do not say so keep none.
    closed spec fn keeps_record(&self) -> bool {
        false
    }

    /// The plan ids of the failed plans these hooks were asked to release, in order, where they
    /// keep a record.
    closed spec fn requested_failed_releases(&self) -> Seq<Seq<char>> {
        Seq::empty()
    }

    fn refresh_active_step(
        &mut self,
        plan_id: &str,
        step: &TimelineStep,
        interrupt_policy: SidecarInterruptPolicy,
    ) -> BuddyResult<()>;

    fn after_completed_step(&mut self, plan_id: &str, step: &TimelineStep) -> BuddyResult<StepCompletionDecision>;

    fn release_failed_plan(&mut self, plan_id: &str) -> (r: BuddyResult<ChoreographyAdmissionRelease>)
        ensures
            final(self).keeps_record() == old(self).keeps_record(),
            old(self).keeps_record() ==> final(self).requested_failed_releases() == old(
                self,
            ).requested_failed_releases().push(plan_id@),
    ;

    fn release_plan(&mut self, plan_id: &str) -> BuddyResult<ChoreographyAdmissionRelease>;

    fn timeline_failed<L: ActionLogSink>(
        &mut self,
        log: &mut L,
        plan: &TimelinePlan,
        failed_step_id: &str,
        error: &BuddyError,
        resolve_context: &ResolveContext,
    ) -> (r: BuddyResult<()>)
        ensures
            final(log).keeps_record() == old(log).keeps_record(),
            old(log).keeps_record() ==> crate::action_log::log_kept(old(log).requested_events(), final(log).requested_events()),
            final(self).keeps_record() == old(self).keeps_record(),
            old(self).keeps_record() ==> crate::action_log::log_kept(
                old(self).requested_failed_releases(),
                final(self).requested_failed_releases(),
            ),
    ;

    fn dev_fixture_failed<L: ActionLogSink>(
        &mut self,
        log: &mut L,
        plan: &DevFixturePlan,
        failed_step_id: &str,
        error: &BuddyError,
        resolve_context: &ResolveContext,
    ) -> (r: BuddyResult<()>)
        ensures
            final(log).keeps_record() == old(log).keeps_record(),
            old(log).keeps_record() ==> crate::action_log::log_kept(old(log).requested_events(), final(log).requested_events()),
            final(self).keeps_record() == old(self).keeps_record(),
            old(self).keeps_record() ==> crate::action_log::log_kept(
                old(self).requested_failed_releases(),
                final(self).requested_failed_releases(),
            ),
    ;
}

/// An admitted run that ended, with its report.
#[derive(Debug)]
pub struct ExecutedTimelineAdmission {
    pub report: TimelineAdmissionExecutionReport,
}

/// An admitted fixture run that ended, with its report.
#[derive(Debug)]
pub struct ExecutedDevFixtureAdmission {
    pub report: DevFixtureAdmissionExecutionReport,
}

/// The step a plan reports as failed when it fails before any step ran: its first step, or
/// the plan itself when it has none.
pub fn first_step_id_or_plan<'a>(plan_id: &'a str, steps: &'a Vec<TimelineStep>) -> (r: &'a str)
    ensures
        steps@.len() == 0 ==> r@ == plan_id@,
        steps@.len() > 0 ==> r@ == steps@[0]@.step_id(),
{
    if steps.len() == 0 {
        plan_id
    } else {
        steps[0].step_id()
    }
}

/// The listener of a timeline plan admitted by a scheduler: it tells the scheduler's hooks of
/// each step, and on failure gives the slot back and, when that worked, has the failure
/// answered.
pub struct AdmittedTimelineHookEvents<'a, H: AdmittedExecutionHooks> {
    pub hooks: &'a mut H,
    pub plan: &'a TimelinePlan,
    pub resolve_context: &'a ResolveContext,
    pub failure_handled: bool,
}

impl<'a, H: AdmittedExecutionHooks> TimelineExecutionEvents for AdmittedTimelineHookEvents<'a, H> {
    fn step_starting(&mut self, step: &TimelineStep, interrupt_policy: SidecarInterruptPolicy) -> BuddyResult<()> {
        self.hooks.refresh_active_step(self.plan.plan_id.as_str(), step, interrupt_policy)
    }

    fn step_completed(&mut self, step: &TimelineStep) -> BuddyResult<StepCompletionDecision> {
        self.hooks.after_completed_step(self.plan.plan_id.as_str(), step)
    }

    fn execution_failed<L: ActionLogSink>(&mut self, log: &mut L, failed_step_id: &str, error: &BuddyError)
        ensures
            final(self).plan == old(self).plan,
            old(self).hooks.keeps_record() ==> crate::action_log::log_kept(
                old(self).hooks.requested_failed_releases().push(old(self).plan.plan_id@),
                final(self).hooks.requested_failed_releases(),
            ),
    {
        if self.hooks.release_failed_plan(self.plan.plan_id.as_str()).is_ok() {
            self.failure_handled = true;
            let _ = self.hooks.timeline_failed(log, self.plan, failed_step_id, error, self.resolve_context);
        }
    }
}

/// The listener of a fixture admitted by a scheduler, as for a timeline plan.
pub struct AdmittedDevFixtureHookEvents<'a, H: AdmittedExecutionHooks> {
    pub hooks: &'a mut H,
    pub plan: &'a DevFixturePlan,
    pub resolve_context: &'a ResolveContext,
    pub failure_handled: bool,
}

impl<'a, H: AdmittedExecutionHooks> TimelineExecutionEvents for AdmittedDevFixtureHookEvents<'a, H> {
    fn step_starting(&mut self, step: &TimelineStep, interrupt_policy: SidecarInterruptPolicy) -> BuddyResult<()> {
        self.hooks.refresh_active_step(self.plan.plan_id.as_str(), step, interrupt_policy)
    }

    fn step_completed(&mut self, step: &TimelineStep) -> BuddyResult<StepCompletionDecision> {
        self.hooks.after_completed_step(self.plan.plan_id.as_str(), step)
    }

    fn execution_failed<L: ActionLogSink>(&mut self, log: &mut L, failed_step_id: &str, error: &BuddyError)
        ensures
            final(self).plan == old(self).plan,
            old(self).hooks.keeps_record() ==> crate::action_log::log_kept(
                old(self).hooks.requested_failed_releases().push(old(self).plan.plan_id@),
                final(self).hooks.requested_failed_releases(),
            ),
    {
        if self.hooks.release_failed_plan(self.plan.plan_id.as_str()).is_ok() {
            self.failure_handled = true;
            let _ = self.hooks.dev_fixture_failed(log, self.plan, failed_step_id, error, self.resolve_context);
        }
    }
}

/// Runs a timeline plan that a scheduler admitted. A preempted step that cannot be interrupted
/// fails the plan before it starts: the failure is logged, the slot given back and the failure
/// answered, and the first error among those (or the interrupt's) is returned. Otherwise the
/// plan runs with the scheduler's hooks, and gives the slot back when it ends, unless its
/// failure already did.
pub fn execute_admitted_timeline_plan<E: ChoreographyStepExecutor, L: ActionLogSink, H: AdmittedExecutionHooks>(
    executor: &E,
    log: &mut L,
    hooks: &mut H,
    registry: &ActionRegistry,
    admitted: AdmittedTimelineExecution,
) -> (r: Result<ExecutedTimelineAdmission, TimelineExecutionError>)
    ensures
        final(log).keeps_record() == old(log).keeps_record(),
        old(log).keeps_record() ==> crate::action_log::log_kept(old(log).requested_events(), final(log).requested_events()),
        r matches Ok(done) ==> done.report.plan_id@ == admitted.plan.plan_id@ && done.report.decision
            == admitted.decision && done.report.executed,
        !(admitted.decision@ is Preempted) && crate::executor::spec_validate_handoff_policies(
            registry@,
            admitted.plan@.steps,
        ) is Err ==> r is Err,
        old(log).keeps_record() && !crate::admitted_run::needs_interrupt(admitted.decision@)
            && crate::executor::spec_validate_handoff_policies(registry@, admitted.plan@.steps) is Ok
            ==> crate::action_log::logged_first_plan_started(
            old(log).requested_events(),
            final(log).requested_events(),
            admitted.context.plan_started_event_id@,
            admitted.plan.plan_id@,
            admitted.context.created_at@,
        ),
{
    let AdmittedTimelineExecution { plan, context, resolve_context, trigger_source, decision } = admitted;
    if let Err(error) = interrupt_preempted_active_step(executor, &decision) {
        let message = error.message();
        let event = timeline_plan_failed(
            context.plan_failed_event_id.as_str(),
            &plan,
            trigger_source,
            ActionLogTimelinePlanStats::new(),
            message.as_str(),
            context.completed_at.as_str(),
        );
        let failure_log_result = log.append_event(&event);
        let failed_step_id = first_step_id_or_plan(plan.plan_id.as_str(), &plan.steps);
        let release_result = hooks.release_failed_plan(plan.plan_id.as_str());
        let recovery_result = hooks.timeline_failed(log, &plan, failed_step_id, &error, &resolve_context);
        if let Err(e) = release_result {
            return Err(TimelineExecutionError::Execution(e));
        }
        if let Err(e) = recovery_result {
            return Err(TimelineExecutionError::Execution(e));
        }
        if let Err(e) = failure_log_result {
            return Err(TimelineExecutionError::ActionLog(e));
        }
        return Err(TimelineExecutionError::Execution(error));
    }
    let (result, failure_handled) = {
        let mut events = AdmittedTimelineHookEvents {
            hooks: &mut *hooks,
            plan: &plan,
            resolve_context: &resolve_context,
            failure_handled: false,
        };
        let result = execute_timeline_plan_with_step_start(
            executor,
            log,
            &mut events,
            registry,
            &plan,
            &context,
            &resolve_context,
            trigger_source,
        );
        (result, events.failure_handled)
    };
    if !failure_handled {
        if let Err(e) = hooks.release_plan(plan.plan_id.as_str()) {
            return Err(TimelineExecutionError::Execution(e));
        }
    }
    match result {
        Ok(report) => Ok(
            ExecutedTimelineAdmission {
                report: TimelineAdmissionExecutionReport { plan_id: report.plan_id, decision, executed: true },
            },
        ),
        Err(e) => Err(e),
    }
}

/// Runs a fixture that a scheduler admitted, as for a timeline plan; a fixture that cannot be
/// built fails before anything else.
pub fn execute_admitted_dev_fixture<E: ChoreographyStepExecutor, L: ActionLogSink, H: AdmittedExecutionHooks>(
    executor: &E,
    log: &mut L,
    hooks: &mut H,
    registry: &ActionRegistry,
    admitted: AdmittedDevFixtureExecution,
) -> (r: Result<ExecutedDevFixtureAdmission, DevFixtureExecutionError>)
    ensures
        final(log).keeps_record() == old(log).keeps_record(),
        old(log).keeps_record() ==> crate::action_log::log_kept(old(log).requested_events(), final(log).requested_events()),
        r matches Ok(done) ==> done.report.plan_id@ == admitted.context.plan_id@ && done.report.decision
            == admitted.decision && done.report.executed,
        old(log).keeps_record() && !crate::admitted_run::needs_interrupt(admitted.decision@)
            && crate::fixture_run::spec_dev_fixture_plan_buildable(admitted.fixture_kind, admitted.context)
            ==> crate::action_log::logged_first_plan_started(
            old(log).requested_events(),
            final(log).requested_events(),
            admitted.context.plan_started_event_id@,
            admitted.context.plan_id@,
            admitted.context.created_at@,
        ),
{
    let AdmittedDevFixtureExecution { context, resolve_context, fixture_kind, decision } = admitted;
    let plan = match create_dev_fixture_plan(fixture_kind, &context) {
        Ok(p) => p,
        Err(e) => return Err(DevFixtureExecutionError::Execution(e)),
    };
    if let Err(error) = interrupt_preempted_active_step(executor, &decision) {
        let message = error.message();
        let event = plan_failed(
            context.plan_failed_event_id.as_str(),
            &plan,
            message.as_str(),
            context.completed_at.as_str(),
        );
        let failure_log_result = log.append_event(&event);
        let failed_step_id = first_step_id_or_plan(plan.plan_id.as_str(), &plan.steps);
        let release_result = hooks.release_failed_plan(plan.plan_id.as_str());
        let recovery_result = hooks.dev_fixture_failed(log, &plan, failed_step_id, &error, &resolve_context);
        if let Err(e) = release_result {
            return Err(DevFixtureExecutionError::Execution(e));
        }
        if let Err(e) = recovery_result {
            return Err(DevFixtureExecutionError::Execution(e));
        }
        if let Err(e) = failure_log_result {
            return Err(DevFixtureExecutionError::ActionLog(e));
        }
        return Err(DevFixtureExecutionError::Execution(error));
    }
    let (result, failure_handled) = {
        let mut events = AdmittedDevFixtureHookEvents {
            hooks: &mut *hooks,
            plan: &plan,
            resolve_context: &resolve_context,
            failure_handled: false,
        };
        let result = execute_dev_fixture_with_step_start(
            executor,
            log,
            &mut events,
            registry,
            &context,
            &resolve_context,
            fixture_kind,
        );
        (result, events.failure_handled)
    };
    if !failure_handled {
        if let Err(e) = hooks.release_plan(plan.plan_id.as_str()) {
            return Err(DevFixtureExecutionError::Execution(e));
        }
    }
    match result {
        Ok(report) => Ok(
            ExecutedDevFixtureAdmission {
                report: DevFixtureAdmissionExecutionReport { plan_id: report.plan_id, decision, executed: true },
            },
        ),
        Err(e) => Err(e),
    }
}

} // verus!
