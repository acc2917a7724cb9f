use vstd::prelude::*;

use crate::error::{BuddyError, BuddyErrorView, BuddyResult};
use crate::executor::{
    planner_side_timeline_step_error, snapshot_position_unavailable_error, spec_validate_wait_step,
    validate_wait_step, TimelineRuntimeState,
};
use crate::planner::expand_planner_timeline_steps;
use crate::registry::{ActionRegistry, ResolveContext, StepResolution};
use crate::step_resolution::{
    resolve_move_by_path_after_action, resolve_move_to_after_action, resolve_play_action_step,
    spec_resolve_after_action, spec_resolve_play_action_step,
};
use crate::text::concat_str;
use crate::timeline::{
    lemma_steps_view, steps_view, MoveByPathStep, MoveToStep, PlayActionStep, TimelineStep, TimelineStepView,
    WaitStep,
};

verus! {

/// What runs timeline steps on the pet. Every outcome is the implementation's own: nothing is
/// claimed of it here.
pub trait ChoreographyStepExecutor {
    fn play_action_step(&self, step: &PlayActionStep, resolution: &StepResolution) -> BuddyResult<()>;

    fn move_to_step(&self, step: &MoveToStep, after_animation_ref: Option<&str>) -> BuddyResult<()>;

    fn move_by_path_step(&self, step: &MoveByPathStep, after_animation_ref: Option<&str>) -> BuddyResult<()>;

    fn wait_step(&self, step: &WaitStep) -> BuddyResult<()>;

    fn interrupt_step(&self, step_id: &str, reason_code: &str) -> BuddyResult<()>;

    fn query_state_position(&self) -> BuddyResult<Option<(i32, i32)>>;
}

/// The error with which a step fails before the executor is asked, whatever it would answer,
/// if it does: a planner-side step, a step that cannot resolve or is invalid, a restore of a
/// position never saved, or a retry of no attempt.
pub open spec fn spec_step_refusal(
    actions: Seq<crate::registry::ActionDefinitionView>,
    saved: Map<Seq<char>, (i32, i32)>,
    step: TimelineStepView,
) -> Option<BuddyErrorView> {
    match step {
        TimelineStepView::Repeat { .. } | TimelineStepView::Choose { .. } | TimelineStepView::SetFallback { .. } => {
            Some(BuddyErrorView::Validation(
                step.kind() + " timeline step is planner-side and cannot execute directly: "@ + step.step_id(),
            ))
        },
        TimelineStepView::PlayAction(s) => match spec_resolve_play_action_step(actions, s) {
            Err(e) => Some(e),
            Ok(_) => None,
        },
        TimelineStepView::MoveTo(s) => match spec_resolve_after_action(
            actions,
            s.after_action_id,
            s.fallback_after_action_id,
            "moveTo"@,
        ) {
            Err(e) => Some(e),
            Ok(_) => None,
        },
        TimelineStepView::MoveByPath(s) => match spec_resolve_after_action(
            actions,
            s.after_action_id,
            s.fallback_after_action_id,
            "moveByPath"@,
        ) {
            Err(e) => Some(e),
            Ok(_) => None,
        },
        TimelineStepView::Wait(s) => match spec_validate_wait_step(s.duration_ms, s.timeout_ms) {
            Err(e) => Some(e),
            Ok(_) => None,
        },
        TimelineStepView::RestorePosition(s) => if !saved.dom().contains(s.snapshot_id) {
            Some(BuddyErrorView::Runtime("timeline position snapshot is missing: "@ + s.snapshot_id))
        } else {
            None
        },
        TimelineStepView::Retry { step_id, max_attempts, .. } => if max_attempts == 0 {
            Some(BuddyErrorView::Validation("retry timeline step must contain at least one attempt: "@ + step_id))
        } else {
            None
        },
        _ => None,
    }
}

/// What a list of steps is known to give whatever the executor answers: nothing to run
/// succeeds, and a list whose first step is refused fails with that step's error.
pub open spec fn spec_steps_outcome_known(
    actions: Seq<crate::registry::ActionDefinitionView>,
    saved: Map<Seq<char>, (i32, i32)>,
    steps: Seq<TimelineStepView>,
    r: Result<(), BuddyErrorView>,
) -> bool {
    &&& steps.len() == 0 ==> r is Ok
    &&& steps.len() > 0 ==> (spec_step_refusal(actions, saved, steps[0]) matches Some(e) ==> r == Err::<
        (),
        BuddyErrorView,
    >(e))
}

/// What a step with an alternative branch is known to give: the primary steps decide when
/// they are known to succeed; when the first of them is refused, the alternative steps run in
/// their place, on the same saved positions.
pub open spec fn spec_alternative_outcome_known(
    actions: Seq<crate::registry::ActionDefinitionView>,
    saved: Map<Seq<char>, (i32, i32)>,
    primary: Seq<TimelineStepView>,
    alternative: Seq<TimelineStepView>,
    r: Result<(), BuddyErrorView>,
) -> bool {
    &&& primary.len() == 0 ==> r is Ok
    &&& primary.len() > 0 && spec_step_refusal(actions, saved, primary[0]) is Some ==> spec_steps_outcome_known(
        actions,
        saved,
        alternative,
        r,
    )
}

/// What running a step is known to give whatever the executor answers: a refused step fails
/// with its error before the executor is asked; skips succeed; a retry of steps whose first
/// is refused fails with that error after its last attempt, and one of no steps succeeds; a
/// replace, recover or try step runs its alternative when its first primary step is refused.
pub open spec fn spec_step_outcome_known(
    actions: Seq<crate::registry::ActionDefinitionView>,
    saved: Map<Seq<char>, (i32, i32)>,
    step: TimelineStepView,
    r: Result<(), BuddyErrorView>,
) -> bool {
    match spec_step_refusal(actions, saved, step) {
        Some(e) => r == Err::<(), BuddyErrorView>(e),
        None => match step {
            TimelineStepView::Skip(_) => r is Ok,
            TimelineStepView::Retry { steps, .. } => spec_steps_outcome_known(actions, saved, steps, r),
            TimelineStepView::Replace { steps, replacement_steps, .. } => spec_alternative_outcome_known(
                actions,
                saved,
                steps,
                replacement_steps,
                r,
            ),
            TimelineStepView::Recover { steps, recovery_steps, .. } => spec_alternative_outcome_known(
                actions,
                saved,
                steps,
                recovery_steps,
                r,
            ),
            TimelineStepView::Try { steps, fallback_steps, .. } => spec_alternative_outcome_known(
                actions,
                saved,
                steps,
                fallback_steps,
                r,
            ),
            _ => true,
        },
    }
}

/// What a retry does after one attempt.
pub enum RetryDecision<T> {
    /// The attempt succeeded: the retry succeeds.
    Succeed,
    /// The attempt failed and attempts remain: the steps run again.
    TryAgain,
    /// The last attempt failed: the retry fails with its error.
    Fail(T),
}

/// Decides what a retry of `max_attempts` attempts does after attempt number `attempt`
/// (counted from zero) gave `attempt_result`.
pub fn retry_decision<T>(attempt: u8, max_attempts: u8, attempt_result: Result<(), T>) -> (r: RetryDecision<T>)
    requires
        attempt < max_attempts,
    ensures
        match attempt_result {
            Ok(_) => r is Succeed,
            Err(e) => if attempt + 1 < max_attempts {
                r is TryAgain
            } else {
                r == RetryDecision::Fail(e)
            },
        },
{
    match attempt_result {
        Ok(_) => RetryDecision::Succeed,
        Err(e) => if attempt + 1 < max_attempts {
            RetryDecision::TryAgain
        } else {
            RetryDecision::Fail(e)
        },
    }
}

/// Whether a step with an alternative branch runs its alternative steps after its primary
/// steps gave `primary_result`: exactly when they failed.
pub fn runs_alternative<T>(primary_result: &Result<(), T>) -> (r: bool)
    ensures
        r == primary_result is Err,
{
    primary_result.is_err()
}

pub open spec fn unit_view(r: BuddyResult<()>) -> Result<(), BuddyErrorView> {
    match r {
        Ok(_) => Ok(()),
        Err(e) => Err(e@),
    }
}

fn after_ref(a: &Option<crate::step_resolution::AfterActionResolution>) -> (r: Option<&str>)
    ensures
        crate::text::opt_str_view(r) == match a {
            Some(x) => Some(x.animation_ref@),
            None => None::<Seq<char>>,
        },
{
    match a {
        Some(x) => Some(x.animation_ref.as_str()),
        None => None,
    }
}

/// Runs steps in order, stopping at the first that fails.
pub fn execute_steps_in_order<E: ChoreographyStepExecutor>(
    executor: &E,
    registry: &ActionRegistry,
    resolve_context: &ResolveContext,
    steps: &Vec<TimelineStep>,
    runtime_state: &mut TimelineRuntimeState,
) -> (r: BuddyResult<()>)
    ensures
        old(runtime_state)@.dom().subset_of(final(runtime_state)@.dom()),
        steps@.len() == 0 ==> r is Ok && final(runtime_state)@ == old(runtime_state)@,
        r is Ok ==> forall|i: int| 0 <= i < steps@.len() ==> !(#[trigger] steps@[i]@ is Repeat || steps@[i]@ is Choose
            || steps@[i]@ is SetFallback),
        (forall|i: int| 0 <= i < steps@.len() ==> #[trigger] steps@[i]@ is Skip) ==> r is Ok,
        steps@.len() > 0 ==> (r is Err || spec_step_outcome_known(registry@, old(runtime_state)@, steps@[0]@, Ok(()))),
        spec_steps_outcome_known(registry@, old(runtime_state)@, steps_view(steps@), unit_view(r)),
        steps@.len() > 0 && spec_step_refusal(registry@, old(runtime_state)@, steps@[0]@) is Some ==> final(runtime_state)@ == old(runtime_state)@,
    decreases steps, 0int,
{
    let mut i: usize = 0;
    while i < steps.len()
        invariant
            i <= steps@.len(),
            old(runtime_state)@.dom().subset_of(runtime_state@.dom()),
            i == 0 ==> runtime_state@ == old(runtime_state)@,
            forall|j: int| 0 <= j < i ==> !(#[trigger] steps@[j]@ is Repeat || steps@[j]@ is Choose
                || steps@[j]@ is SetFallback),
            i > 0 ==> spec_step_outcome_known(registry@, old(runtime_state)@, steps@[0]@, Ok(())),
        decreases steps@.len() - i,
    {
        proof { vstd::std_specs::vec::axiom_vec_index_decreases(*steps, i as int); }
        let result = execute_timeline_step_with_runtime_state(executor, registry, resolve_context, &steps[i], runtime_state);
        match result {
            Ok(_) => {},
            Err(e) => return Err(e),
        }
        i = i + 1;
    }
    Ok(())
}

/// Runs one timeline step on the executor: resolves it, runs it, and for the host-side steps
/// (wait, skip, position snapshots, retry, replace, recover, try) carries out their rule.
#[verifier::loop_isolation(false)]
pub fn execute_timeline_step_with_runtime_state<E: ChoreographyStepExecutor>(
    executor: &E,
    registry: &ActionRegistry,
    resolve_context: &ResolveContext,
    step: &TimelineStep,
    runtime_state: &mut TimelineRuntimeState,
) -> (r: BuddyResult<()>)
    ensures
        old(runtime_state)@.dom().subset_of(final(runtime_state)@.dom()),
        spec_step_outcome_known(registry@, old(runtime_state)@, step@, unit_view(r)),
        spec_step_refusal(registry@, old(runtime_state)@, step@) is Some ==> final(runtime_state)@ == old(runtime_state)@,
    decreases step, 1int,
{
    match step {
        TimelineStep::PlayAction(s) => {
            let resolution = match resolve_play_action_step(registry, resolve_context, s) {
                Ok(r) => r,
                Err(e) => return Err(e),
            };
            executor.play_action_step(s, &resolution)
        },
        TimelineStep::MoveTo(s) => {
            let after = match resolve_move_to_after_action(registry, resolve_context, s) {
                Ok(a) => a,
                Err(e) => return Err(e),
            };
            executor.move_to_step(s, after_ref(&after))
        },
        TimelineStep::MoveByPath(s) => {
            let after = match resolve_move_by_path_after_action(registry, resolve_context, s) {
                Ok(a) => a,
                Err(e) => return Err(e),
            };
            executor.move_by_path_step(s, after_ref(&after))
        },
        TimelineStep::Wait(s) => {
            match validate_wait_step(s) {
                Ok(_) => {},
                Err(e) => return Err(e),
            }
            executor.wait_step(s)
        },
        TimelineStep::Skip(_) => Ok(()),
        TimelineStep::SnapshotPosition(s) => {
            let position = match executor.query_state_position() {
                Ok(Some(p)) => p,
                Ok(None) => return Err(snapshot_position_unavailable_error(s)),
                Err(e) => return Err(e),
            };
            runtime_state.save_position_snapshot(s.snapshot_id.as_str(), position);
            Ok(())
        },
        TimelineStep::RestorePosition(s) => {
            let move_to = match runtime_state.restore_position_step(s) {
                Ok(m) => m,
                Err(e) => return Err(e),
            };
            let after = match resolve_move_to_after_action(registry, resolve_context, &move_to) {
                Ok(a) => a,
                Err(e) => return Err(e),
            };
            executor.move_to_step(&move_to, after_ref(&after))
        },
        TimelineStep::Retry(s) => {
            proof { assert(decreases_to!(*step => s.steps)); }
            if s.max_attempts == 0 {
                return Err(BuddyError::Validation(concat_str(
                    "retry timeline step must contain at least one attempt: ",
                    s.step_id.as_str(),
                )));
            }
            proof { lemma_steps_view(s.steps@); }
            let mut attempt: u8 = 0;
            loop
                invariant
                    attempt < s.max_attempts,
                    old(runtime_state)@.dom().subset_of(runtime_state@.dom()),
                    s.steps@.len() > 0 && spec_step_refusal(registry@, old(runtime_state)@, s.steps@[0]@) is Some
                        ==> runtime_state@ == old(runtime_state)@,
                decreases s.max_attempts - attempt,
            {
                let attempt_result = execute_steps_in_order(executor, registry, resolve_context, &s.steps, runtime_state);
                match retry_decision(attempt, s.max_attempts, attempt_result) {
                    RetryDecision::Succeed => return Ok(()),
                    RetryDecision::TryAgain => {},
                    RetryDecision::Fail(e) => return Err(e),
                }
                attempt = attempt + 1;
            }
        },
        TimelineStep::Replace(s) => {
            proof {
                assert(decreases_to!(*step => s.steps));
                assert(decreases_to!(*step => s.replacement_steps));
            }
            proof {
                lemma_steps_view(s.steps@);
                lemma_steps_view(s.replacement_steps@);
            }
            let primary_result = execute_steps_in_order(executor, registry, resolve_context, &s.steps, runtime_state);
            if !runs_alternative(&primary_result) {
                return Ok(());
            }
            execute_steps_in_order(executor, registry, resolve_context, &s.replacement_steps, runtime_state)
        },
        TimelineStep::Recover(s) => {
            proof {
                assert(decreases_to!(*step => s.steps));
                assert(decreases_to!(*step => s.recovery_steps));
            }
            proof {
                lemma_steps_view(s.steps@);
                lemma_steps_view(s.recovery_steps@);
            }
            let primary_result = execute_steps_in_order(executor, registry, resolve_context, &s.steps, runtime_state);
            if !runs_alternative(&primary_result) {
                return Ok(());
            }
            execute_steps_in_order(executor, registry, resolve_context, &s.recovery_steps, runtime_state)
        },
        TimelineStep::Try(s) => {
            proof {
                assert(decreases_to!(*step => s.steps));
                assert(decreases_to!(*step => s.fallback_steps));
            }
            proof {
                lemma_steps_view(s.steps@);
                lemma_steps_view(s.fallback_steps@);
            }
            let primary_result = execute_steps_in_order(executor, registry, resolve_context, &s.steps, runtime_state);
            if !runs_alternative(&primary_result) {
                return Ok(());
            }
            execute_steps_in_order(executor, registry, resolve_context, &s.fallback_steps, runtime_state)
        },
        TimelineStep::Repeat(_) | TimelineStep::Choose(_) | TimelineStep::SetFallback(_) => {
            Err(planner_side_timeline_step_error(step))
        },
    }
}

/// Runs one timeline step on the executor with nothing saved yet.
pub fn execute_timeline_step<E: ChoreographyStepExecutor>(
    executor: &E,
    registry: &ActionRegistry,
    resolve_context: &ResolveContext,
    step: &TimelineStep,
) -> (r: BuddyResult<()>)
    ensures
        spec_step_outcome_known(registry@, Map::empty(), step@, unit_view(r)),
{
    let mut runtime_state = TimelineRuntimeState::new();
    execute_timeline_step_with_runtime_state(executor, registry, resolve_context, step, &mut runtime_state)
}

/// How many steps of a timeline ran to completion.
#[derive(Debug, Clone, PartialEq, Eq)]
pub struct TimelineExecutionReport {
    pub completed_step_count: usize,
}

/// Expands the planner steps of a timeline, then runs the expanded steps in order, stopping at
/// the first that fails; the report counts every expanded step.
pub fn execute_timeline_steps<E: ChoreographyStepExecutor>(
    executor: &E,
    registry: &ActionRegistry,
    resolve_context: &ResolveContext,
    steps: &Vec<TimelineStep>,
) -> (r: BuddyResult<TimelineExecutionReport>)
    ensures
        match crate::planner::spec_expand_steps(steps_view(steps@), None, None, Seq::empty()) {
            Err(e) => r is Err && r->Err_0@ == e,
            Ok((expanded, _)) => r is Ok ==> r->Ok_0.completed_step_count == expanded.len(),
        },
{
    let expanded = match expand_planner_timeline_steps(steps) {
        Ok(s) => s,
        Err(e) => return Err(e),
    };
    proof { lemma_steps_view(expanded@); }
    let mut runtime_state = TimelineRuntimeState::new();
    let mut completed: usize = 0;
    while completed < expanded.len()
        invariant
            completed <= expanded@.len(),
            crate::planner::spec_expand_steps(steps_view(steps@), None, None, Seq::empty()) matches Ok((x, _))
                && x == steps_view(expanded@),
        decreases expanded@.len() - completed,
    {
        match execute_timeline_step_with_runtime_state(
            executor,
            registry,
            resolve_context,
            &expanded[completed],
            &mut runtime_state,
        ) {
            Ok(_) => {},
            Err(e) => return Err(e),
        }
        completed = completed + 1;
    }
    Ok(TimelineExecutionReport { completed_step_count: completed })
}

} // verus!
