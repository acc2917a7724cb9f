use vstd::prelude::*;

use crate::error::{BuddyError, BuddyErrorView, BuddyResult};
use crate::registry::{ActionDefinitionView, ActionRegistry, ResolutionView, ResolveContext, StepResolution};
use crate::step_protocol::{
    execute_step_request, spec_execute_step_request, ExecuteStepPayload, ExecuteStepPlayback,
    ExecuteStepRequest, ExecuteStepRequestView, PayloadView, SidecarInterruptPolicy,
};
use crate::step_resolution::{
    resolve_move_by_path_after_action, resolve_move_to_after_action, resolve_play_action_step,
    spec_resolve_after_action, spec_resolve_play_action_step, AfterActionResolution, AfterActionView,
};
use crate::text::{concat3, str_eq};
use crate::timeline::{copy_move_targets, TimelineStep, TimelineStepView};

verus! {

/// How the sidecar plays a resolved action.
pub open spec fn spec_execute_step_playback(r: ResolutionView) -> ExecuteStepPlayback {
    if r.playback_kind == "loopForDuration"@ {
        ExecuteStepPlayback::LoopForDuration { duration_ms: r.duration_ms, clip_duration_ms: r.clip_duration_ms }
    } else {
        ExecuteStepPlayback::Once { duration_ms: r.duration_ms }
    }
}

/// How the sidecar plays a resolved action.
pub fn execute_step_playback(resolution: &StepResolution) -> (r: ExecuteStepPlayback)
    ensures
        r == spec_execute_step_playback(resolution@),
{
    if str_eq(resolution.playback_kind.as_str(), "loopForDuration") {
        return ExecuteStepPlayback::LoopForDuration {
            duration_ms: resolution.duration_ms,
            clip_duration_ms: resolution.clip_duration_ms,
        };
    }
    ExecuteStepPlayback::Once { duration_ms: resolution.duration_ms }
}

pub open spec fn spec_after_animation(a: Option<AfterActionView>) -> Option<Seq<char>> {
    match a {
        Some(a) => Some(a.animation_ref),
        None => None,
    }
}

/// The sidecar request that runs a timeline step, or why the step cannot run in the sidecar.
pub open spec fn spec_compile_execute_step_request(actions: Seq<ActionDefinitionView>, step: TimelineStepView) -> Result<
    ExecuteStepRequestView,
    BuddyErrorView,
> {
    match step {
        TimelineStepView::PlayAction(s) => match spec_resolve_play_action_step(actions, s) {
            Err(e) => Err(e),
            Ok(r) => Ok(spec_execute_step_request(
                s.step_id,
                PayloadView::PlayAction {
                    animation: r.animation_ref,
                    playback: spec_execute_step_playback(r),
                    interrupt_policy: r.interrupt_policy,
                    completion_behavior: s.completion_behavior,
                    timeout_ms: s.timeout_ms,
                },
            )),
        },
        TimelineStepView::MoveTo(s) => match spec_resolve_after_action(
            actions,
            s.after_action_id,
            s.fallback_after_action_id,
            "moveTo"@,
        ) {
            Err(e) => Err(e),
            Ok(a) => Ok(spec_execute_step_request(
                s.step_id,
                PayloadView::MoveTo {
                    target: s.target,
                    after: spec_after_animation(a),
                    interrupt_policy: SidecarInterruptPolicy::Interruptible,
                    timeout_ms: s.timeout_ms,
                },
            )),
        },
        TimelineStepView::MoveByPath(s) => match spec_resolve_after_action(
            actions,
            s.after_action_id,
            s.fallback_after_action_id,
            "moveByPath"@,
        ) {
            Err(e) => Err(e),
            Ok(a) => Ok(spec_execute_step_request(
                s.step_id,
                PayloadView::MoveByPath {
                    path: s.path,
                    after: spec_after_animation(a),
                    interrupt_policy: SidecarInterruptPolicy::Interruptible,
                    timeout_ms: s.timeout_ms,
                },
            )),
        },
        TimelineStepView::Wait(s) => Err(BuddyErrorView::Validation(
            "wait step is host-side and cannot compile to sidecar executeStep: "@ + s.step_id,
        )),
        TimelineStepView::Skip(s) => Err(BuddyErrorView::Validation(
            "skipStep is host-side and cannot compile to sidecar executeStep: "@ + s.step_id,
        )),
        TimelineStepView::Retry { step_id, .. } => Err(BuddyErrorView::Validation(
            "retry step is host-side and cannot compile to sidecar executeStep: "@ + step_id,
        )),
        TimelineStepView::Replace { step_id, .. } => Err(BuddyErrorView::Validation(
            "replaceStep is host-side and cannot compile to sidecar executeStep: "@ + step_id,
        )),
        TimelineStepView::Recover { step_id, .. } => Err(BuddyErrorView::Validation(
            "recover step is host-side and cannot compile to sidecar executeStep: "@ + step_id,
        )),
        _ => Err(BuddyErrorView::Validation(
            step.kind() + " timeline step is planner-side and cannot compile to sidecar executeStep: "@
                + step.step_id(),
        )),
    }
}

pub open spec fn request_result_view(r: BuddyResult<ExecuteStepRequest>) -> Result<ExecuteStepRequestView, BuddyErrorView> {
    match r {
        Ok(v) => Ok(v@),
        Err(e) => Err(e@),
    }
}

fn after_animation(a: Option<AfterActionResolution>) -> (r: Option<String>)
    ensures
        crate::text::opt_string_view(r) == spec_after_animation(match a {
            Some(x) => Some(x@),
            None => None,
        }),
{
    match a {
        Some(a) => Some(a.animation_ref),
        None => None,
    }
}

/// Compiles a timeline step to the sidecar request that runs it; host-side and planner-side
/// steps are refused.
pub fn compile_execute_step_request(
    registry: &ActionRegistry,
    resolve_context: &ResolveContext,
    step: &TimelineStep,
) -> (r: BuddyResult<ExecuteStepRequest>)
    ensures
        request_result_view(r) == spec_compile_execute_step_request(registry@, step@),
{
    match step {
        TimelineStep::PlayAction(s) => {
            let resolution = match resolve_play_action_step(registry, resolve_context, s) {
                Ok(r) => r,
                Err(e) => return Err(e),
            };
            let playback = execute_step_playback(&resolution);
            Ok(execute_step_request(
                s.step_id.as_str(),
                ExecuteStepPayload::PlayAction {
                    animation: resolution.animation_ref,
                    playback,
                    interrupt_policy: resolution.interrupt_policy,
                    completion_behavior: s.completion_behavior,
                    timeout_ms: s.timeout_ms,
                },
            ))
        },
        TimelineStep::MoveTo(s) => {
            let after = match resolve_move_to_after_action(registry, resolve_context, s) {
                Ok(a) => a,
                Err(e) => return Err(e),
            };
            Ok(execute_step_request(
                s.step_id.as_str(),
                ExecuteStepPayload::MoveTo {
                    target: s.target,
                    after: after_animation(after),
                    interrupt_policy: SidecarInterruptPolicy::Interruptible,
                    timeout_ms: s.timeout_ms,
                },
            ))
        },
        TimelineStep::MoveByPath(s) => {
            let after = match resolve_move_by_path_after_action(registry, resolve_context, s) {
                Ok(a) => a,
                Err(e) => return Err(e),
            };
            Ok(execute_step_request(
                s.step_id.as_str(),
                ExecuteStepPayload::MoveByPath {
                    path: copy_move_targets(&s.path),
                    after: after_animation(after),
                    interrupt_policy: SidecarInterruptPolicy::Interruptible,
                    timeout_ms: s.timeout_ms,
                },
            ))
        },
        TimelineStep::Wait(s) => Err(BuddyError::Validation(crate::text::concat_str(
            "wait step is host-side and cannot compile to sidecar executeStep: ",
            s.step_id.as_str(),
        ))),
        TimelineStep::Skip(s) => Err(BuddyError::Validation(crate::text::concat_str(
            "skipStep is host-side and cannot compile to sidecar executeStep: ",
            s.step_id.as_str(),
        ))),
        TimelineStep::Retry(s) => Err(BuddyError::Validation(crate::text::concat_str(
            "retry step is host-side and cannot compile to sidecar executeStep: ",
            s.step_id.as_str(),
        ))),
        TimelineStep::Replace(s) => Err(BuddyError::Validation(crate::text::concat_str(
            "replaceStep is host-side and cannot compile to sidecar executeStep: ",
            s.step_id.as_str(),
        ))),
        TimelineStep::Recover(s) => Err(BuddyError::Validation(crate::text::concat_str(
            "recover step is host-side and cannot compile to sidecar executeStep: ",
            s.step_id.as_str(),
        ))),
        _ => Err(BuddyError::Validation(concat3(
            step.kind(),
            " timeline step is planner-side and cannot compile to sidecar executeStep: ",
            step.step_id(),
        ))),
    }
}

/// Law: only play actions and moves reach the sidecar; every other step is refused.
pub proof fn law_only_sidecar_steps_compile(actions: Seq<ActionDefinitionView>, step: TimelineStepView)
    ensures
        spec_compile_execute_step_request(actions, step) is Ok ==> (step is PlayAction || step is MoveTo
            || step is MoveByPath),
        spec_compile_execute_step_request(actions, step) matches Ok(req) ==> req.step_id == step.step_id()
            && req.protocol_version == 1,
{
}

} // verus!
