use vstd::prelude::*;

use crate::admission::{
    ChoreographyActiveStepUpdate, ChoreographyAdmissionDecision,
    ChoreographyAdmissionState, spec_update_active_step,
};
use crate::error::{BuddyError, BuddyErrorView, BuddyResult};
use crate::macro_plan::{
    macro_fallback_policy, spec_timeline_failure_fallback, CelebrateMacroParams, CuriousMacroParams,
    LieDownMacroParams, MacroIntent, MacroSemanticFallback, MacroTimelineFailureFallback,
    PeekFromEdgeMacroParams, ReassureMacroParams, ThinkingMacroParams,
};
use crate::registry::{ActionDefinitionView, ActionRegistry, ResolveContext, StepResolution};
use crate::planner::{find_step_index, spec_find_step};
use crate::step_resolution::{resolve_play_action_step, spec_resolve_play_action_step};
use crate::timeline::{lemma_steps_view, steps_view, ChooseOptionView, MoveTarget, MoveToStepView, RestorePositionStep, options_view};
use crate::sidecar_protocol::{execute_step_playback, spec_execute_step_playback};
use crate::step_protocol::{
    execute_step_request, spec_execute_step_request, ExecuteStepPayload, ExecuteStepRequest,
    ExecuteStepRequestView, PayloadView, SidecarInterruptPolicy, SidecarStepErrorCode,
    SidecarStepResponse, StepResponseView, step_response_view,
};
use crate::text::{
    concat3, concat_str, opt_str_view, opt_string_view, spec_contains, spec_starts_with, str_contains, str_starts_with,
};
use crate::timeline::{
    copy_move_targets, MoveByPathStep, MoveToStep, PlayActionStep, SnapshotPositionStep, TimelineStep,
    TimelineStepView, WaitStep,
};

verus! {

/// The sidecar request that plays a resolved action.
pub fn play_action_execute_step_request(step: &PlayActionStep, resolution: &StepResolution) -> (r: ExecuteStepRequest)
    ensures
        r@ == spec_execute_step_request(
            step@.step_id,
            PayloadView::PlayAction {
                animation: resolution@.animation_ref,
                playback: spec_execute_step_playback(resolution@),
                interrupt_policy: resolution@.interrupt_policy,
                completion_behavior: step@.completion_behavior,
                timeout_ms: step@.timeout_ms,
            },
        ),
{
    execute_step_request(
        step.step_id.as_str(),
        ExecuteStepPayload::PlayAction {
            animation: resolution.animation_ref.clone(),
            playback: execute_step_playback(resolution),
            interrupt_policy: resolution.interrupt_policy,
            completion_behavior: step.completion_behavior,
            timeout_ms: step.timeout_ms,
        },
    )
}

/// The animation a move settles into, which must be resolved exactly when the move has an
/// after action.
pub open spec fn spec_resolved_after_animation_ref(
    step_kind: Seq<char>,
    after_action_id: Option<Seq<char>>,
    after_animation_ref: Option<Seq<char>>,
) -> Result<Option<Seq<char>>, BuddyErrorView> {
    match (after_action_id, after_animation_ref) {
        (Some(_), Some(animation_ref)) => Ok(Some(animation_ref)),
        (Some(after_action_id), None) => Err(BuddyErrorView::Validation(
            step_kind + " afterActionId requires registry resolution before native dispatch: "@ + after_action_id,
        )),
        (None, Some(_)) => Err(BuddyErrorView::Validation(step_kind + " after animation requires afterActionId"@)),
        (None, None) => Ok(None),
    }
}

pub open spec fn opt_string_result_view(r: BuddyResult<Option<String>>) -> Result<Option<Seq<char>>, BuddyErrorView> {
    match r {
        Ok(s) => Ok(opt_string_view(s)),
        Err(e) => Err(e@),
    }
}

/// The animation a move settles into, which must be resolved exactly when the move has an
/// after action.
pub fn resolved_after_animation_ref(
    step_kind: &str,
    after_action_id: Option<&str>,
    after_animation_ref: Option<&str>,
) -> (r: BuddyResult<Option<String>>)
    ensures
        opt_string_result_view(r) == spec_resolved_after_animation_ref(
            step_kind@,
            opt_str_view(after_action_id),
            opt_str_view(after_animation_ref),
        ),
{
    match (after_action_id, after_animation_ref) {
        (Some(_), Some(animation_ref)) => Ok(Some(animation_ref.to_owned())),
        (Some(after_action_id), None) => Err(BuddyError::Validation(concat3(
            step_kind,
            " afterActionId requires registry resolution before native dispatch: ",
            after_action_id,
        ))),
        (None, Some(_)) => Err(BuddyError::Validation(concat_str(step_kind, " after animation requires afterActionId"))),
        (None, None) => Ok(None),
    }
}

/// The animation a move-to settles into.
pub fn resolved_move_to_after_animation_ref(step: &MoveToStep, after_animation_ref: Option<&str>) -> (r: BuddyResult<
    Option<String>,
>)
    ensures
        opt_string_result_view(r) == spec_resolved_after_animation_ref(
            "moveTo"@,
            step@.after_action_id,
            opt_str_view(after_animation_ref),
        ),
{
    resolved_after_animation_ref("moveTo", crate::text::opt_as_str(&step.after_action_id), after_animation_ref)
}

pub open spec fn request_result_view(r: BuddyResult<ExecuteStepRequest>) -> Result<ExecuteStepRequestView, BuddyErrorView> {
    match r {
        Ok(v) => Ok(v@),
        Err(e) => Err(e@),
    }
}

/// The sidecar request that runs a move-to with its resolved after animation.
pub fn move_to_execute_step_request(step: &MoveToStep, after_animation_ref: Option<&str>) -> (r: BuddyResult<
    ExecuteStepRequest,
>)
    ensures
        request_result_view(r) == match spec_resolved_after_animation_ref(
            "moveTo"@,
            step@.after_action_id,
            opt_str_view(after_animation_ref),
        ) {
            Err(e) => Err(e),
            Ok(after) => Ok(spec_execute_step_request(
                step@.step_id,
                PayloadView::MoveTo {
                    target: step@.target,
                    after,
                    interrupt_policy: SidecarInterruptPolicy::Interruptible,
                    timeout_ms: step@.timeout_ms,
                },
            )),
        },
{
    let after = match resolved_move_to_after_animation_ref(step, after_animation_ref) {
        Ok(a) => a,
        Err(e) => return Err(e),
    };
    Ok(execute_step_request(
        step.step_id.as_str(),
        ExecuteStepPayload::MoveTo {
            target: step.target,
            after,
            interrupt_policy: SidecarInterruptPolicy::Interruptible,
            timeout_ms: step.timeout_ms,
        },
    ))
}

/// The sidecar request that runs a move-by-path with its resolved after animation; a path with
/// no target is refused.
pub fn move_by_path_execute_step_request(step: &MoveByPathStep, after_animation_ref: Option<&str>) -> (r:
    BuddyResult<ExecuteStepRequest>)
    ensures
        request_result_view(r) == if step@.path.len() == 0 {
            Err(BuddyErrorView::Validation("moveByPath requires at least one path target"@))
        } else {
            match spec_resolved_after_animation_ref(
                "moveByPath"@,
                step@.after_action_id,
                opt_str_view(after_animation_ref),
            ) {
                Err(e) => Err(e),
                Ok(after) => Ok(spec_execute_step_request(
                    step@.step_id,
                    PayloadView::MoveByPath {
                        path: step@.path,
                        after,
                        interrupt_policy: SidecarInterruptPolicy::Interruptible,
                        timeout_ms: step@.timeout_ms,
                    },
                )),
            }
        },
{
    if step.path.len() == 0 {
        return Err(BuddyError::Validation("moveByPath requires at least one path target".to_owned()));
    }
    let after = match resolved_after_animation_ref(
        "moveByPath",
        crate::text::opt_as_str(&step.after_action_id),
        after_animation_ref,
    ) {
        Ok(a) => a,
        Err(e) => return Err(e),
    };
    Ok(execute_step_request(
        step.step_id.as_str(),
        ExecuteStepPayload::MoveByPath {
            path: copy_move_targets(&step.path),
            after,
            interrupt_policy: SidecarInterruptPolicy::Interruptible,
            timeout_ms: step.timeout_ms,
        },
    ))
}

/// A wait must last and must not time out before it ends.
pub open spec fn spec_validate_wait_step(duration_ms: u64, timeout_ms: u64) -> Result<(), BuddyErrorView> {
    if duration_ms == 0 {
        Err(BuddyErrorView::Validation("wait durationMs must be greater than 0"@))
    } else if timeout_ms < duration_ms {
        Err(BuddyErrorView::Validation("wait timeoutMs must be greater than or equal to durationMs"@))
    } else {
        Ok(())
    }
}

/// Checks that a wait lasts and does not time out before it ends.
pub fn validate_wait_step(step: &WaitStep) -> (r: BuddyResult<()>)
    ensures
        match spec_validate_wait_step(step.duration_ms, step.timeout_ms) {
            Ok(_) => r is Ok,
            Err(e) => r is Err && r->Err_0@ == e,
        },
{
    if step.duration_ms == 0 {
        return Err(BuddyError::Validation("wait durationMs must be greater than 0".to_owned()));
    }
    if step.timeout_ms < step.duration_ms {
        return Err(BuddyError::Validation("wait timeoutMs must be greater than or equal to durationMs".to_owned()));
    }
    Ok(())
}

/// The error for a planner-side step that reached execution.
pub fn planner_side_timeline_step_error(step: &TimelineStep) -> (e: BuddyError)
    ensures
        e@ == BuddyErrorView::Validation(
            step@.kind() + " timeline step is planner-side and cannot execute directly: "@ + step@.step_id(),
        ),
{
    BuddyError::Validation(concat3(step.kind(), " timeline step is planner-side and cannot execute directly: ", step.step_id()))
}

/// The error for a position snapshot that the pet could not give.
pub fn snapshot_position_unavailable_error(step: &SnapshotPositionStep) -> (e: BuddyError)
    ensures
        e@ == BuddyErrorView::Runtime("timeline position snapshot is unavailable: "@ + step.step_id@),
{
    BuddyError::Runtime(concat_str("timeline position snapshot is unavailable: ", step.step_id.as_str()))
}

/// The capability an unsupported-step message names.
pub open spec fn spec_unsupported_step_capability(message: Seq<char>) -> Seq<char> {
    if spec_contains(message, "windowAnchor"@) {
        "windowAnchor"@
    } else {
        "unknown"@
    }
}

/// The capability an unsupported-step message names.
pub fn unsupported_step_capability_from_message(message: &str) -> (r: String)
    ensures
        r@ == spec_unsupported_step_capability(message@),
{
    if str_contains(message, "windowAnchor") {
        "windowAnchor".to_owned()
    } else {
        "unknown".to_owned()
    }
}

/// What a sidecar answer means for the step: success only when it completed.
pub open spec fn spec_ensure_step_completed(response: StepResponseView) -> Result<(), BuddyErrorView> {
    match response {
        StepResponseView::StepCompleted { .. } => Ok(()),
        StepResponseView::StepFailed { code, message, .. } => Err(BuddyErrorView::Runtime(
            "native pet step failed: "@ + code.spec_as_str() + ": "@ + message,
        )),
        StepResponseView::StepInterrupted { reason_code, .. } => Err(BuddyErrorView::Runtime(
            "native pet step interrupted: "@ + reason_code.spec_as_str(),
        )),
        StepResponseView::ProtocolError { code, message, .. } => if code
            == SidecarStepErrorCode::UnsupportedStepCapability {
            Err(BuddyErrorView::UnsupportedCapability {
                scope: "native pet executeStep"@,
                capability: spec_unsupported_step_capability(message),
            })
        } else {
            Err(BuddyErrorView::Runtime("native pet step protocol error: "@ + code.spec_as_str() + ": "@ + message))
        },
    }
}

/// What a sidecar answer says, whatever protocol version it carries.
pub open spec fn step_response_content(r: SidecarStepResponse) -> StepResponseView {
    match r {
        SidecarStepResponse::StepCompleted(c) => StepResponseView::StepCompleted {
            correlation_id: crate::text::opt_string_view(c.correlation_id),
            step_id: c.step_id@,
            elapsed_ms: c.elapsed_ms,
        },
        SidecarStepResponse::StepFailed(c) => StepResponseView::StepFailed {
            correlation_id: crate::text::opt_string_view(c.correlation_id),
            step_id: c.step_id@,
            code: c.code,
            message: c.message@,
            elapsed_ms: c.elapsed_ms,
        },
        SidecarStepResponse::StepInterrupted(c) => StepResponseView::StepInterrupted {
            correlation_id: crate::text::opt_string_view(c.correlation_id),
            step_id: c.step_id@,
            reason_code: c.reason_code,
            elapsed_ms: c.elapsed_ms,
        },
        SidecarStepResponse::ProtocolError(c) => StepResponseView::ProtocolError {
            correlation_id: crate::text::opt_string_view(c.correlation_id),
            step_id: crate::text::opt_string_view(c.step_id),
            code: c.code,
            message: c.message@,
        },
    }
}

/// Turns a sidecar answer into the step's outcome: success only when it completed; an
/// unsupported capability stays a typed error.
pub fn ensure_sidecar_step_completed(response: SidecarStepResponse) -> (r: BuddyResult<()>)
    ensures
        match spec_ensure_step_completed(step_response_content(response)) {
            Ok(_) => r is Ok,
            Err(e) => r is Err && r->Err_0@ == e,
        },
{
    match response {
        SidecarStepResponse::StepCompleted(_) => Ok(()),
        SidecarStepResponse::StepFailed(response) => {
            let a = concat3("native pet step failed: ", response.code.as_str(), ": ");
            Err(BuddyError::Runtime(concat_str(a.as_str(), response.message.as_str())))
        },
        SidecarStepResponse::StepInterrupted(response) => Err(BuddyError::Runtime(
            concat_str("native pet step interrupted: ", response.reason_code.as_str()),
        )),
        SidecarStepResponse::ProtocolError(response) => {
            match response.code {
                SidecarStepErrorCode::UnsupportedStepCapability => Err(BuddyError::UnsupportedCapability {
                    scope: "native pet executeStep".to_owned(),
                    capability: unsupported_step_capability_from_message(response.message.as_str()),
                }),
                _ => {
                    let a = concat3("native pet step protocol error: ", response.code.as_str(), ": ");
                    Err(BuddyError::Runtime(concat_str(a.as_str(), response.message.as_str())))
                },
            }
        },
    }
}

/// Why the runtime fell back to its safe plan.
#[derive(Debug, Clone, Copy, PartialEq, Eq)]
pub enum RuntimeSafeFallbackReason {
    UnsupportedStepCapability,
    MotionTimeout,
    StepInterrupted,
    ProtocolError,
    StepFailed,
    ExecutorError,
    MacroPlanningFailed,
}

/// The fallback reason an execution error stands for.
pub open spec fn spec_runtime_safe_fallback_reason(error: BuddyErrorView) -> RuntimeSafeFallbackReason {
    match error {
        BuddyErrorView::UnsupportedCapability { .. } => RuntimeSafeFallbackReason::UnsupportedStepCapability,
        BuddyErrorView::Runtime(m) => if spec_contains(m, "motionTimeout"@) {
            RuntimeSafeFallbackReason::MotionTimeout
        } else if spec_starts_with(m, "native pet step interrupted"@) {
            RuntimeSafeFallbackReason::StepInterrupted
        } else if spec_starts_with(m, "native pet step protocol error"@) {
            RuntimeSafeFallbackReason::ProtocolError
        } else if spec_starts_with(m, "native pet step failed"@) {
            RuntimeSafeFallbackReason::StepFailed
        } else {
            RuntimeSafeFallbackReason::ExecutorError
        },
        BuddyErrorView::Validation(_) => RuntimeSafeFallbackReason::ExecutorError,
    }
}

/// The fallback reason an execution error stands for.
pub fn runtime_safe_fallback_reason_for_execution_error(error: &BuddyError) -> (r: RuntimeSafeFallbackReason)
    ensures
        r == spec_runtime_safe_fallback_reason(error@),
{
    match error {
        BuddyError::UnsupportedCapability { .. } => RuntimeSafeFallbackReason::UnsupportedStepCapability,
        BuddyError::Runtime(m) => {
            if str_contains(m.as_str(), "motionTimeout") {
                RuntimeSafeFallbackReason::MotionTimeout
            } else if str_starts_with(m.as_str(), "native pet step interrupted") {
                RuntimeSafeFallbackReason::StepInterrupted
            } else if str_starts_with(m.as_str(), "native pet step protocol error") {
                RuntimeSafeFallbackReason::ProtocolError
            } else if str_starts_with(m.as_str(), "native pet step failed") {
                RuntimeSafeFallbackReason::StepFailed
            } else {
                RuntimeSafeFallbackReason::ExecutorError
            }
        },
        BuddyError::Validation(_) => RuntimeSafeFallbackReason::ExecutorError,
    }
}

/// A window-anchor target could not be found because the active window has no rectangle.
pub open spec fn spec_is_window_anchor_target_unavailable(error: BuddyErrorView) -> bool {
    match error {
        BuddyErrorView::Runtime(m) => spec_starts_with(m, "native pet step failed: targetUnavailable:"@)
            && spec_contains(m, "active window rect is unavailable"@),
        _ => false,
    }
}

/// True when a move failed because the active window has no rectangle.
pub fn is_window_anchor_target_unavailable_error(error: &BuddyError) -> (r: bool)
    ensures
        r == spec_is_window_anchor_target_unavailable(error@),
{
    match error {
        BuddyError::Runtime(m) => str_starts_with(m.as_str(), "native pet step failed: targetUnavailable:")
            && str_contains(m.as_str(), "active window rect is unavailable"),
        _ => false,
    }
}

/// Law: every answer but a completed step is an error; a motion timeout maps to its own
/// fallback reason, and an unsupported capability to its own reason.
pub proof fn law_sidecar_failures_map_to_their_reasons(response: StepResponseView)
    requires
        !(response is StepCompleted),
    ensures
        spec_ensure_step_completed(response) is Err,
        response matches StepResponseView::StepFailed { code, .. } ==> (code == SidecarStepErrorCode::MotionTimeout
            ==> spec_runtime_safe_fallback_reason(spec_ensure_step_completed(response)->Err_0)
            == RuntimeSafeFallbackReason::MotionTimeout),
        response matches StepResponseView::ProtocolError { code, .. } ==> (code
            == SidecarStepErrorCode::UnsupportedStepCapability ==> spec_runtime_safe_fallback_reason(
            spec_ensure_step_completed(response)->Err_0,
        ) == RuntimeSafeFallbackReason::UnsupportedStepCapability),
{
    match response {
        StepResponseView::StepFailed { code, message, .. } => {
            if code == SidecarStepErrorCode::MotionTimeout {
                let m = "native pet step failed: "@ + code.spec_as_str() + ": "@ + message;
                reveal_strlit("native pet step failed: ");
                reveal_strlit("motionTimeout");
                assert(m.subrange(24, 37) =~= "motionTimeout"@);
            }
        },
        _ => {},
    }
}

/// The id of the event at a zero-based index: the base id first, then the base id with the
/// one-based index appended.
pub fn indexed_event_id(base_id: &str, zero_based_index: usize) -> (r: String)
    requires
        zero_based_index < usize::MAX,
    ensures
        r@ == crate::macro_plan::spec_indexed_id(base_id@, zero_based_index as nat),
{
    crate::macro_plan::indexed_id(base_id, zero_based_index)
}

/// The event index of a step nested in a branch: the parent's one-based index in the millions,
/// the branch in the hundred thousands, then the nested index.
pub open spec fn spec_nested_event_index(parent_step_index: int, branch_index: int, nested_index: int) -> int {
    (parent_step_index + 1) * 1_000_000 + branch_index * 100_000 + nested_index
}

/// The event index of a step nested in a branch; an index past the last one that `usize`
/// holds below its maximum is held at that last one.
pub fn nested_timeline_step_event_index(parent_step_index: usize, branch_index: usize, nested_index: usize) -> (r:
    usize)
    ensures
        spec_nested_event_index(parent_step_index as int, branch_index as int, nested_index as int) < usize::MAX
            ==> r == spec_nested_event_index(parent_step_index as int, branch_index as int, nested_index as int),
        spec_nested_event_index(parent_step_index as int, branch_index as int, nested_index as int) >= usize::MAX
            ==> r == usize::MAX - 1,
        r < usize::MAX,
{
    let last: usize = usize::MAX - 1;
    assert(branch_index * 100_000 >= 0) by (nonlinear_arith);
    if parent_step_index >= last {
        assert((parent_step_index + 1) * 1_000_000 >= parent_step_index + 1) by (nonlinear_arith)
            requires parent_step_index >= 0;
        return last;
    }
    let parent = match (parent_step_index + 1).checked_mul(1_000_000) {
        Some(p) => p,
        None => return last,
    };
    let branch = match branch_index.checked_mul(100_000) {
        Some(b) => b,
        None => {
            assert(parent_step_index * 1_000_000 + 1_000_000 >= 0) by (nonlinear_arith)
                requires parent_step_index >= 0;
            return last;
        },
    };
    let sum = match parent.checked_add(branch) {
        Some(s) => s,
        None => return last,
    };
    match sum.checked_add(nested_index) {
        Some(total) => if total < usize::MAX {
            total
        } else {
            last
        },
        None => last,
    }
}

/// The runtime stopped accepting choreography.
#[derive(Debug, Clone, PartialEq, Eq)]
pub struct ChoreographyRuntimeDegradation {
    pub reason_code: &'static str,
    pub degraded_at: String,
}

impl ChoreographyRuntimeDegradation {
    /// The degradation after the system recovery plan failed.
    pub fn system_recovery_failed(degraded_at: &str) -> (r: Self)
        ensures
            r.reason_code@ == "runtime.systemRecoveryFailed"@,
            r.degraded_at@ == degraded_at@,
    {
        ChoreographyRuntimeDegradation { reason_code: "runtime.systemRecoveryFailed", degraded_at: degraded_at.to_owned() }
    }
}

/// True when an admission decision lets the plan run now.
pub fn should_execute_admission_decision(decision: &ChoreographyAdmissionDecision) -> (r: bool)
    ensures
        r == (decision@ is Accepted || decision@ is Preempted),
{
    match decision {
        ChoreographyAdmissionDecision::Accepted { .. } | ChoreographyAdmissionDecision::Preempted { .. } => true,
        _ => false,
    }
}

/// Records the step the admitted plan now runs; a stale or released plan is an error.
pub fn refresh_admitted_plan_active_step(
    admission: &mut ChoreographyAdmissionState,
    plan_id: &str,
    step: &TimelineStep,
    interrupt_policy: SidecarInterruptPolicy,
) -> (r: BuddyResult<()>)
    ensures
        final(admission)@ == spec_update_active_step(old(admission)@, plan_id@, step@.step_id(), interrupt_policy).0,
        match old(admission)@.active {
            None => r is Err && r->Err_0@ == BuddyErrorView::Runtime(
                "choreography active step refresh failed because plan "@ + plan_id@
                    + " is no longer active"@,
            ),
            Some(a) => if a.plan_id == plan_id@ {
                r is Ok
            } else {
                r is Err && r->Err_0@ == BuddyErrorView::Runtime(
                    "choreography active step refresh ignored stale plan "@ + plan_id@ + "; active plan is "@
                        + a.plan_id,
                )
            },
        },
{
    match admission.update_active_step_with_policy(plan_id, step.step_id(), interrupt_policy) {
        ChoreographyActiveStepUpdate::Updated { .. } => Ok(()),
        ChoreographyActiveStepUpdate::Stale { active_plan_id, .. } => {
            let a = concat3("choreography active step refresh ignored stale plan ", plan_id, "; active plan is ");
            Err(BuddyError::Runtime(concat_str(a.as_str(), active_plan_id.as_str())))
        },
        ChoreographyActiveStepUpdate::NoActivePlan { .. } => Err(BuddyError::Runtime(concat3(
            "choreography active step refresh failed because plan ",
            plan_id,
            " is no longer active",
        ))),
    }
}


/// How many steps completed, failed and were skipped, and how long they ran.
#[derive(Debug, Default, PartialEq, Eq)]
pub struct TimelineStepExecutionReport {
    pub completed_step_count: u64,
    pub failed_step_count: u64,
    pub skipped_step_count: u64,
    pub duration_ms: u64,
    pub yielded_to_pending_plan_after_step_id: Option<String>,
}

impl TimelineStepExecutionReport {
    /// The report of one step that completed in `duration_ms`.
    pub fn completed(duration_ms: u64) -> (r: Self)
        ensures
            r.completed_step_count == 1 && r.failed_step_count == 0 && r.skipped_step_count == 0,
            r.duration_ms == duration_ms,
            r.yielded_to_pending_plan_after_step_id is None,
    {
        TimelineStepExecutionReport {
            completed_step_count: 1,
            failed_step_count: 0,
            skipped_step_count: 0,
            duration_ms,
            yielded_to_pending_plan_after_step_id: None,
        }
    }

    /// The report of one failed step.
    pub fn failed() -> (r: Self)
        ensures
            r.completed_step_count == 0 && r.failed_step_count == 1 && r.skipped_step_count == 0,
            r.duration_ms == 0,
            r.yielded_to_pending_plan_after_step_id is None,
    {
        TimelineStepExecutionReport {
            completed_step_count: 0,
            failed_step_count: 1,
            skipped_step_count: 0,
            duration_ms: 0,
            yielded_to_pending_plan_after_step_id: None,
        }
    }

    /// The report of one skipped step.
    pub fn skipped() -> (r: Self)
        ensures
            r.completed_step_count == 0 && r.failed_step_count == 0 && r.skipped_step_count == 1,
            r.duration_ms == 0,
            r.yielded_to_pending_plan_after_step_id is None,
    {
        TimelineStepExecutionReport {
            completed_step_count: 0,
            failed_step_count: 0,
            skipped_step_count: 1,
            duration_ms: 0,
            yielded_to_pending_plan_after_step_id: None,
        }
    }

    /// Adds another report: counts and durations add up (staying at `u64::MAX` rather than
    /// wrapping), and the first yield is kept.
    pub fn add(&mut self, report: Self)
        ensures
            final(self).completed_step_count == sat_add(old(self).completed_step_count, report.completed_step_count),
            final(self).failed_step_count == sat_add(old(self).failed_step_count, report.failed_step_count),
            final(self).skipped_step_count == sat_add(old(self).skipped_step_count, report.skipped_step_count),
            final(self).duration_ms == sat_add(old(self).duration_ms, report.duration_ms),
            final(self).yielded_to_pending_plan_after_step_id == if old(
                self,
            ).yielded_to_pending_plan_after_step_id is None {
                report.yielded_to_pending_plan_after_step_id
            } else {
                old(self).yielded_to_pending_plan_after_step_id
            },
    {
        self.completed_step_count = self.completed_step_count.saturating_add(report.completed_step_count);
        self.failed_step_count = self.failed_step_count.saturating_add(report.failed_step_count);
        self.skipped_step_count = self.skipped_step_count.saturating_add(report.skipped_step_count);
        self.duration_ms = self.duration_ms.saturating_add(report.duration_ms);
        if self.yielded_to_pending_plan_after_step_id.is_none() {
            self.yielded_to_pending_plan_after_step_id = report.yielded_to_pending_plan_after_step_id;
        }
    }
}

/// The sum of two counts, held at `u64::MAX`.
pub open spec fn sat_add(a: u64, b: u64) -> u64 {
    if a + b > u64::MAX {
        u64::MAX
    } else {
        (a + b) as u64
    }
}

/// The positions saved by snapshot steps, by snapshot id; a later save replaces an earlier one.
pub open spec fn snapshot_map(entries: Seq<(Seq<char>, (i32, i32))>) -> Map<Seq<char>, (i32, i32)>
    decreases entries.len(),
{
    if entries.len() == 0 {
        Map::empty()
    } else {
        snapshot_map(entries.drop_last()).insert(entries.last().0, entries.last().1)
    }
}

/// What a timeline remembers while it runs: the positions it saved.
#[derive(Debug, Default)]
pub struct TimelineRuntimeState {
    pub position_snapshots: Vec<(String, (i32, i32))>,
}

impl View for TimelineRuntimeState {
    type V = Map<Seq<char>, (i32, i32)>;

    open spec fn view(&self) -> Map<Seq<char>, (i32, i32)> {
        snapshot_map(self.position_snapshots@.map_values(|e: (String, (i32, i32))| (e.0@, e.1)))
    }
}

proof fn lemma_snapshot_map_prefix(entries: Seq<(Seq<char>, (i32, i32))>, i: int, key: Seq<char>)
    requires
        0 <= i <= entries.len(),
        forall|j: int| i <= j < entries.len() ==> #[trigger] entries[j].0 != key,
    ensures
        snapshot_map(entries).dom().contains(key) == snapshot_map(entries.take(i)).dom().contains(key),
        snapshot_map(entries).dom().contains(key) ==> snapshot_map(entries)[key] == snapshot_map(entries.take(i))[key],
    decreases entries.len(),
{
    if i < entries.len() {
        let front = entries.drop_last();
        assert(entries.last().0 != key);
        assert forall|j: int| i <= j < front.len() implies #[trigger] front[j].0 != key by {
            assert(front[j] == entries[j]);
        }
        lemma_snapshot_map_prefix(front, i, key);
        assert(front.take(i) =~= entries.take(i));
    } else {
        assert(entries.take(i) =~= entries);
    }
}

impl TimelineRuntimeState {
    /// A timeline that saved nothing yet.
    pub fn new() -> (r: Self)
        ensures
            r@ == Map::<Seq<char>, (i32, i32)>::empty(),
    {
        let r = TimelineRuntimeState { position_snapshots: Vec::new() };
        assert(r.position_snapshots@.map_values(|e: (String, (i32, i32))| (e.0@, e.1)) =~= Seq::empty());
        r
    }

    /// Saves a position under a snapshot id, replacing what was saved under it.
    pub fn save_position_snapshot(&mut self, snapshot_id: &str, position: (i32, i32))
        ensures
            final(self)@ == old(self)@.insert(snapshot_id@, position),
    {
        let ghost before = self.position_snapshots@;
        self.position_snapshots.push((snapshot_id.to_owned(), position));
        let ghost mapped = self.position_snapshots@.map_values(|e: (String, (i32, i32))| (e.0@, e.1));
        assert(mapped.drop_last() =~= before.map_values(|e: (String, (i32, i32))| (e.0@, e.1)));
        assert(mapped.last() == (snapshot_id@, position));
    }

    /// The position saved under a snapshot id, if any.
    pub fn position_snapshot(&self, snapshot_id: &str) -> (r: Option<(i32, i32)>)
        ensures
            match r {
                Some(p) => self@.dom().contains(snapshot_id@) && self@[snapshot_id@] == p,
                None => !self@.dom().contains(snapshot_id@),
            },
    {
        let ghost entries = self.position_snapshots@.map_values(|e: (String, (i32, i32))| (e.0@, e.1));
        let mut i: usize = self.position_snapshots.len();
        while i > 0
            invariant
                i <= self.position_snapshots@.len(),
                entries == self.position_snapshots@.map_values(|e: (String, (i32, i32))| (e.0@, e.1)),
                forall|j: int| i <= j < entries.len() ==> #[trigger] entries[j].0 != snapshot_id@,
            decreases i,
        {
            let k = i - 1;
            assert(entries[k as int] == (self.position_snapshots@[k as int].0@, self.position_snapshots@[k as int].1));
            if crate::text::str_eq(self.position_snapshots[k].0.as_str(), snapshot_id) {
                proof {
                    lemma_snapshot_map_prefix(entries, i as int, snapshot_id@);
                    let t = entries.take(i as int);
                    assert(t.drop_last() =~= entries.take(k as int));
                    assert(t.last() == entries[k as int]);
                }
                return Some(self.position_snapshots[k].1);
            }
            i = k;
        }
        proof {
            lemma_snapshot_map_prefix(entries, 0, snapshot_id@);
            assert(entries.take(0) =~= Seq::<(Seq<char>, (i32, i32))>::empty());
        }
        None
    }

    /// The move that restores a saved position; a missing snapshot is an error.
    pub fn restore_position_step(&self, step: &RestorePositionStep) -> (r: BuddyResult<MoveToStep>)
        ensures
            self@.dom().contains(step.snapshot_id@) ==> r is Ok && r->Ok_0@ == (MoveToStepView {
                step_id: step.step_id@,
                kind: "moveTo"@,
                target: MoveTarget::Position {
                    x: self@[step.snapshot_id@].0,
                    y: self@[step.snapshot_id@].1,
                },
                after_action_id: opt_string_view(step.after_action_id),
                fallback_after_action_id: opt_string_view(step.fallback_after_action_id),
                timeout_ms: step.timeout_ms,
            }),
            !self@.dom().contains(step.snapshot_id@) ==> r is Err && r->Err_0@ == BuddyErrorView::Runtime(
                "timeline position snapshot is missing: "@ + step.snapshot_id@,
            ),
    {
        let (x, y) = match self.position_snapshot(step.snapshot_id.as_str()) {
            Some(p) => p,
            None => return Err(BuddyError::Runtime(
                concat_str("timeline position snapshot is missing: ", step.snapshot_id.as_str()),
            )),
        };
        Ok(MoveToStep {
            step_id: step.step_id.clone(),
            kind: "moveTo".to_owned(),
            target: MoveTarget::Position { x, y },
            after_action_id: crate::text::clone_opt_string(&step.after_action_id),
            fallback_after_action_id: crate::text::clone_opt_string(&step.fallback_after_action_id),
            timeout_ms: step.timeout_ms,
        })
    }
}

/// Law: restoring a position gives back the position that the last save under that id wrote.
pub proof fn law_restore_reads_last_save(
    saved: Map<Seq<char>, (i32, i32)>,
    snapshot_id: Seq<char>,
    position: (i32, i32),
    other_id: Seq<char>,
    other: (i32, i32),
)
    requires
        other_id != snapshot_id,
    ensures
        saved.insert(snapshot_id, position)[snapshot_id] == position,
        saved.insert(snapshot_id, position).insert(other_id, other)[snapshot_id] == position,
{
}

/// Where a pending handoff's finalizer stands: after the completed step, and a play action.
pub open spec fn spec_pending_handoff_finalizer_step_index(
    steps: Seq<TimelineStepView>,
    completed_step_index: int,
    finalizer_step_id: Seq<char>,
) -> Result<int, BuddyErrorView> {
    let i = spec_find_step(steps, finalizer_step_id, 0);
    if i < 0 {
        Err(BuddyErrorView::Validation("pending handoff finalizer step is missing: "@ + finalizer_step_id))
    } else if i <= completed_step_index {
        Err(BuddyErrorView::Validation("pending handoff finalizer must be after the completed step: "@ + finalizer_step_id))
    } else if !(steps[i] is PlayAction) {
        Err(BuddyErrorView::Validation("pending handoff finalizer must be a playAction step: "@ + finalizer_step_id))
    } else {
        Ok(i)
    }
}

/// Finds a pending handoff's finalizer: the first step with its id, which must stand after the
/// completed step and be a play action.
pub fn pending_handoff_finalizer_step_index(
    steps: &Vec<TimelineStep>,
    completed_step_index: usize,
    finalizer_step_id: &str,
) -> (r: BuddyResult<usize>)
    ensures
        match spec_pending_handoff_finalizer_step_index(steps_view(steps@), completed_step_index as int, finalizer_step_id@) {
            Ok(i) => r is Ok && r->Ok_0 as int == i,
            Err(e) => r is Err && r->Err_0@ == e,
        },
        r matches Ok(i) ==> completed_step_index < i < steps@.len(),
{
    proof { lemma_steps_view(steps@); }
    let i = match find_step_index(steps, finalizer_step_id, 0) {
        Some(i) => i,
        None => return Err(BuddyError::Validation(
            concat_str("pending handoff finalizer step is missing: ", finalizer_step_id),
        )),
    };
    if i <= completed_step_index {
        return Err(BuddyError::Validation(
            concat_str("pending handoff finalizer must be after the completed step: ", finalizer_step_id),
        ));
    }
    match &steps[i] {
        TimelineStep::PlayAction(_) => Ok(i),
        _ => Err(BuddyError::Validation(
            concat_str("pending handoff finalizer must be a playAction step: ", finalizer_step_id),
        )),
    }
}

/// Whether a step may be interrupted: a play action as its resolved action says, or must
/// finish when it does not resolve; moves and skips may be interrupted; the rest must finish.
pub open spec fn spec_timeline_step_interrupt_policy(
    actions: Option<Seq<ActionDefinitionView>>,
    step: TimelineStepView,
) -> SidecarInterruptPolicy {
    match step {
        TimelineStepView::PlayAction(s) => match actions {
            Some(a) => match spec_resolve_play_action_step(a, s) {
                Ok(r) => r.interrupt_policy,
                Err(_) => SidecarInterruptPolicy::FinishStep,
            },
            None => SidecarInterruptPolicy::FinishStep,
        },
        TimelineStepView::MoveTo(_) | TimelineStepView::MoveByPath(_) | TimelineStepView::RestorePosition(_)
        | TimelineStepView::Skip(_) => SidecarInterruptPolicy::Interruptible,
        _ => SidecarInterruptPolicy::FinishStep,
    }
}

pub open spec fn opt_registry_view(registry: Option<&ActionRegistry>) -> Option<Seq<ActionDefinitionView>> {
    match registry {
        Some(r) => Some(r@),
        None => None,
    }
}

/// Whether a step may be interrupted.
pub fn timeline_step_interrupt_policy(
    registry: Option<&ActionRegistry>,
    resolve_context: &ResolveContext,
    step: &TimelineStep,
) -> (r: SidecarInterruptPolicy)
    ensures
        r == spec_timeline_step_interrupt_policy(opt_registry_view(registry), step@),
{
    match step {
        TimelineStep::PlayAction(s) => match registry {
            Some(registry) => match resolve_play_action_step(registry, resolve_context, s) {
                Ok(resolution) => resolution.interrupt_policy,
                Err(_) => SidecarInterruptPolicy::FinishStep,
            },
            None => SidecarInterruptPolicy::FinishStep,
        },
        TimelineStep::MoveTo(_) | TimelineStep::MoveByPath(_) | TimelineStep::RestorePosition(_)
        | TimelineStep::Skip(_) => SidecarInterruptPolicy::Interruptible,
        _ => SidecarInterruptPolicy::FinishStep,
    }
}

/// The step a plan reports as running when it is admitted.
#[derive(Debug, Clone, PartialEq, Eq)]
pub struct TimelineActiveStep {
    pub step_id: String,
    pub interrupt_policy: SidecarInterruptPolicy,
}

/// The step a plan starts with, and whether it may be interrupted; a plan with no step reports
/// its own id, interruptible.
pub fn timeline_steps_active_step(
    fallback_step_id: &str,
    steps: &Vec<TimelineStep>,
    registry: Option<&ActionRegistry>,
    resolve_context: &ResolveContext,
) -> (r: TimelineActiveStep)
    ensures
        steps@.len() == 0 ==> r.step_id@ == fallback_step_id@ && r.interrupt_policy
            == SidecarInterruptPolicy::Interruptible,
        steps@.len() > 0 ==> r.step_id@ == steps@[0]@.step_id() && r.interrupt_policy
            == spec_timeline_step_interrupt_policy(opt_registry_view(registry), steps@[0]@),
{
    if steps.len() == 0 {
        return TimelineActiveStep {
            step_id: fallback_step_id.to_owned(),
            interrupt_policy: SidecarInterruptPolicy::Interruptible,
        };
    }
    TimelineActiveStep {
        step_id: steps[0].step_id().to_owned(),
        interrupt_policy: timeline_step_interrupt_policy(registry, resolve_context, &steps[0]),
    }
}


/// The failed step is a top-level play action of the plan, and it failed at run time.
pub open spec fn spec_is_play_action_runtime_execution_error(
    steps: Seq<TimelineStepView>,
    failed_step_id: Seq<char>,
    error: BuddyErrorView,
) -> bool {
    &&& error is Runtime
    &&& exists|i: int| 0 <= i < steps.len() && #[trigger] steps[i].step_id() == failed_step_id && steps[i] is PlayAction
}

/// True when the failed step is a top-level play action of the plan and it failed at run time.
pub fn is_play_action_runtime_execution_error(
    steps: &Vec<TimelineStep>,
    failed_step_id: &str,
    error: &BuddyError,
) -> (r: bool)
    ensures
        r == spec_is_play_action_runtime_execution_error(steps_view(steps@), failed_step_id@, error@),
{
    proof { lemma_steps_view(steps@); }
    let ghost v = steps_view(steps@);
    match error {
        BuddyError::Runtime(_) => {},
        _ => return false,
    }
    let mut i: usize = 0;
    while i < steps.len()
        invariant
            i <= steps@.len(),
            v == steps_view(steps@),
            v.len() == steps@.len(),
            error@ is Runtime,
            forall|j: int| 0 <= j < i ==> !(#[trigger] v[j].step_id() == failed_step_id@ && v[j] is PlayAction),
        decreases steps@.len() - i,
    {
        assert(v[i as int] == steps@[i as int]@);
        let is_action = match &steps[i] {
            TimelineStep::PlayAction(_) => true,
            _ => false,
        };
        if is_action && crate::text::str_eq(steps[i].step_id(), failed_step_id) {
            assert(v[i as int].step_id() == failed_step_id@ && v[i as int] is PlayAction);
            return true;
        }
        i = i + 1;
    }
    false
}

/// The macro that runs in place of a failed one, with the fallback that chose it.
#[derive(Debug, Clone, Copy, PartialEq, Eq)]
pub struct MacroSemanticFallbackIntent {
    pub intent: MacroIntent,
    pub semantic_fallback: MacroSemanticFallback,
}

/// The macro that a failed macro falls back to, if its policy names a semantic fallback and
/// the failure is the kind that fallback handles.
pub open spec fn spec_macro_semantic_fallback_intent(
    intent: MacroIntent,
    steps: Seq<TimelineStepView>,
    failed_step_id: Seq<char>,
    error: BuddyErrorView,
) -> Option<MacroSemanticFallbackIntent> {
    match spec_timeline_failure_fallback(intent) {
        MacroTimelineFailureFallback::SystemRecovery => None,
        MacroTimelineFailureFallback::Semantic(f) => {
            let action_failed = spec_is_play_action_runtime_execution_error(steps, failed_step_id, error);
            let target = match intent {
                MacroIntent::PeekBehindWindow(p) => if spec_is_window_anchor_target_unavailable(error) {
                    Some(MacroIntent::PeekFromEdge(PeekFromEdgeMacroParams { edge: p.edge.spec_fallback_screen_edge() }))
                } else {
                    None
                },
                MacroIntent::AwaitApproval(_) | MacroIntent::Curious(_) | MacroIntent::Working(_) => if action_failed {
                    Some(MacroIntent::Thinking(ThinkingMacroParams {}))
                } else {
                    None
                },
                MacroIntent::Celebrate(_) | MacroIntent::GetUp(_) | MacroIntent::Sad(_) => if action_failed {
                    Some(MacroIntent::Reassure(ReassureMacroParams {}))
                } else {
                    None
                },
                MacroIntent::Cast(_) | MacroIntent::Dance(_) => if action_failed {
                    Some(MacroIntent::Celebrate(CelebrateMacroParams {}))
                } else {
                    None
                },
                MacroIntent::Reassure(_) => if action_failed {
                    Some(MacroIntent::LieDown(LieDownMacroParams {}))
                } else {
                    None
                },
                MacroIntent::Thinking(_) => if action_failed {
                    Some(MacroIntent::Curious(CuriousMacroParams {}))
                } else {
                    None
                },
                _ => None,
            };
            match target {
                Some(t) => Some(MacroSemanticFallbackIntent { intent: t, semantic_fallback: f }),
                None => None,
            }
        },
    }
}

/// The macro that a failed macro falls back to, if its policy names a semantic fallback and
/// the failure is the kind that fallback handles: a failed play action for most macros, and an
/// unavailable window for a peek behind a window.
pub fn macro_semantic_fallback_intent(
    intent: &MacroIntent,
    failed_steps: &Vec<TimelineStep>,
    failed_step_id: &str,
    error: &BuddyError,
) -> (r: Option<MacroSemanticFallbackIntent>)
    ensures
        r == spec_macro_semantic_fallback_intent(*intent, steps_view(failed_steps@), failed_step_id@, error@),
{
    let semantic_fallback = match macro_fallback_policy(intent).timeline_failure_fallback {
        MacroTimelineFailureFallback::Semantic(f) => f,
        MacroTimelineFailureFallback::SystemRecovery => return None,
    };
    let target = match intent {
        MacroIntent::PeekBehindWindow(p) => if is_window_anchor_target_unavailable_error(error) {
            Some(MacroIntent::PeekFromEdge(PeekFromEdgeMacroParams { edge: p.edge.fallback_screen_edge() }))
        } else {
            None
        },
        MacroIntent::AwaitApproval(_) | MacroIntent::Curious(_) | MacroIntent::Working(_) => {
            if is_play_action_runtime_execution_error(failed_steps, failed_step_id, error) {
                Some(MacroIntent::Thinking(ThinkingMacroParams {}))
            } else {
                None
            }
        },
        MacroIntent::Celebrate(_) | MacroIntent::GetUp(_) | MacroIntent::Sad(_) => {
            if is_play_action_runtime_execution_error(failed_steps, failed_step_id, error) {
                Some(MacroIntent::Reassure(ReassureMacroParams {}))
            } else {
                None
            }
        },
        MacroIntent::Cast(_) | MacroIntent::Dance(_) => {
            if is_play_action_runtime_execution_error(failed_steps, failed_step_id, error) {
                Some(MacroIntent::Celebrate(CelebrateMacroParams {}))
            } else {
                None
            }
        },
        MacroIntent::Reassure(_) => {
            if is_play_action_runtime_execution_error(failed_steps, failed_step_id, error) {
                Some(MacroIntent::LieDown(LieDownMacroParams {}))
            } else {
                None
            }
        },
        MacroIntent::Thinking(_) => {
            if is_play_action_runtime_execution_error(failed_steps, failed_step_id, error) {
                Some(MacroIntent::Curious(CuriousMacroParams {}))
            } else {
                None
            }
        },
        _ => None,
    };
    match target {
        Some(t) => Some(MacroSemanticFallbackIntent { intent: t, semantic_fallback }),
        None => None,
    }
}

/// Law: a semantic fallback always runs the macro that the fallback names, and that macro is a
/// different one from the macro that failed.
pub proof fn law_semantic_fallback_runs_named_macro(
    intent: MacroIntent,
    steps: Seq<TimelineStepView>,
    failed_step_id: Seq<char>,
    error: BuddyErrorView,
)
    ensures
        spec_macro_semantic_fallback_intent(intent, steps, failed_step_id, error) matches Some(f) ==> {
            &&& f.intent.spec_macro_id() == f.semantic_fallback.spec_fallback_macro_id()
            &&& spec_timeline_failure_fallback(intent) == MacroTimelineFailureFallback::Semantic(f.semantic_fallback)
            &&& f.intent.spec_macro_id() != intent.spec_macro_id()
        },
{
    crate::macro_plan::law_semantic_fallback_changes_macro(intent);
}


/// The check of one step as a pending handoff source: a play action with a finalizer must
/// resolve to an action that finishes before interruption, and so must its finalizer, which
/// must be a play action of the same list.
pub open spec fn spec_check_handoff_source(
    actions: Seq<ActionDefinitionView>,
    steps: Seq<TimelineStepView>,
    source: TimelineStepView,
) -> Result<(), BuddyErrorView> {
    match source {
        TimelineStepView::PlayAction(pa) => match pa.pending_handoff_finalizer_step_id {
            None => Ok(()),
            Some(fid) => match spec_resolve_play_action_step(actions, pa) {
                Err(e) => Err(e),
                Ok(r) => if r.interrupt_policy.spec_accepts_interrupt() {
                    Err(BuddyErrorView::Validation(
                        "pending handoff source action must finish before interruption: "@ + pa.step_id,
                    ))
                } else {
                    let i = spec_find_step(steps, fid, 0);
                    if 0 <= i < steps.len() && steps[i] is PlayAction {
                        match spec_resolve_play_action_step(actions, steps[i]->PlayAction_0) {
                            Err(e) => Err(e),
                            Ok(r2) => if r2.interrupt_policy.spec_accepts_interrupt() {
                                Err(BuddyErrorView::Validation(
                                    "pending handoff finalizer action must finish before interruption: "@ + fid,
                                ))
                            } else {
                                Ok(())
                            },
                        }
                    } else {
                        Err(BuddyErrorView::Validation("pending handoff finalizer must be a playAction step: "@ + fid))
                    }
                },
            },
        },
        _ => Ok(()),
    }
}

/// The checks of the steps of `rest` as sources, in order, against the whole list `steps`.
pub open spec fn spec_check_handoff_sources(
    actions: Seq<ActionDefinitionView>,
    steps: Seq<TimelineStepView>,
    rest: Seq<TimelineStepView>,
) -> Result<(), BuddyErrorView>
    decreases rest.len(),
{
    if rest.len() == 0 {
        Ok(())
    } else {
        match spec_check_handoff_source(actions, steps, rest[0]) {
            Err(e) => Err(e),
            Ok(_) => spec_check_handoff_sources(actions, steps, rest.drop_first()),
        }
    }
}

/// The checks of a list: its own sources first, then the lists nested in its steps, in order.
pub open spec fn spec_validate_handoff_policies(actions: Seq<ActionDefinitionView>, steps: Seq<TimelineStepView>) -> Result<
    (),
    BuddyErrorView,
>
    decreases steps, 1int,
{
    match spec_check_handoff_sources(actions, steps, steps) {
        Err(e) => Err(e),
        Ok(_) => spec_validate_handoff_nested(actions, steps),
    }
}

pub open spec fn spec_then(a: Result<(), BuddyErrorView>, b: Result<(), BuddyErrorView>) -> Result<(), BuddyErrorView> {
    match a {
        Err(e) => Err(e),
        Ok(_) => b,
    }
}

/// The checks of the lists nested in the steps of `rest`, in order.
pub open spec fn spec_validate_handoff_nested(actions: Seq<ActionDefinitionView>, rest: Seq<TimelineStepView>) -> Result<
    (),
    BuddyErrorView,
>
    decreases rest, 0int,
{
    if rest.len() == 0 {
        Ok(())
    } else {
        let here = match rest[0] {
            TimelineStepView::Repeat { steps, .. } => spec_validate_handoff_policies(actions, steps),
            TimelineStepView::Choose { options, .. } => spec_validate_handoff_options(actions, options),
            TimelineStepView::SetFallback { steps, .. } => spec_validate_handoff_policies(actions, steps),
            TimelineStepView::Retry { steps, .. } => spec_validate_handoff_policies(actions, steps),
            TimelineStepView::Replace { steps, replacement_steps, .. } => spec_then(
                spec_validate_handoff_policies(actions, steps),
                spec_validate_handoff_policies(actions, replacement_steps),
            ),
            TimelineStepView::Recover { steps, recovery_steps, .. } => spec_then(
                spec_validate_handoff_policies(actions, steps),
                spec_validate_handoff_policies(actions, recovery_steps),
            ),
            TimelineStepView::Try { steps, fallback_steps, .. } => spec_then(
                spec_validate_handoff_policies(actions, steps),
                spec_validate_handoff_policies(actions, fallback_steps),
            ),
            _ => Ok(()),
        };
        spec_then(here, spec_validate_handoff_nested(actions, rest.drop_first()))
    }
}

/// The checks of the lists of choose options, in order.
pub open spec fn spec_validate_handoff_options(actions: Seq<ActionDefinitionView>, options: Seq<ChooseOptionView>) -> Result<
    (),
    BuddyErrorView,
>
    decreases options, 0int,
{
    if options.len() == 0 {
        Ok(())
    } else {
        spec_then(
            spec_validate_handoff_policies(actions, options[0].steps),
            spec_validate_handoff_options(actions, options.drop_first()),
        )
    }
}

pub open spec fn unit_result_view(r: BuddyResult<()>) -> Result<(), BuddyErrorView> {
    match r {
        Ok(_) => Ok(()),
        Err(e) => Err(e@),
    }
}

fn check_handoff_source(
    registry: &ActionRegistry,
    resolve_context: &ResolveContext,
    steps: &Vec<TimelineStep>,
    source: &TimelineStep,
) -> (r: BuddyResult<()>)
    ensures
        unit_result_view(r) == spec_check_handoff_source(registry@, steps_view(steps@), source@),
{
    proof { lemma_steps_view(steps@); }
    let source_action = match source {
        TimelineStep::PlayAction(a) => a,
        _ => return Ok(()),
    };
    let finalizer_step_id = match &source_action.pending_handoff_finalizer_step_id {
        Some(f) => f,
        None => return Ok(()),
    };
    let source_resolution = match resolve_play_action_step(registry, resolve_context, source_action) {
        Ok(r) => r,
        Err(e) => return Err(e),
    };
    if source_resolution.interrupt_policy.accepts_interrupt() {
        return Err(BuddyError::Validation(concat_str(
            "pending handoff source action must finish before interruption: ",
            source_action.step_id.as_str(),
        )));
    }
    let finalizer_action = match find_step_index(steps, finalizer_step_id.as_str(), 0) {
        Some(i) => match &steps[i] {
            TimelineStep::PlayAction(a) => a,
            _ => return Err(BuddyError::Validation(concat_str(
                "pending handoff finalizer must be a playAction step: ",
                finalizer_step_id.as_str(),
            ))),
        },
        None => return Err(BuddyError::Validation(concat_str(
            "pending handoff finalizer must be a playAction step: ",
            finalizer_step_id.as_str(),
        ))),
    };
    let finalizer_resolution = match resolve_play_action_step(registry, resolve_context, finalizer_action) {
        Ok(r) => r,
        Err(e) => return Err(e),
    };
    if finalizer_resolution.interrupt_policy.accepts_interrupt() {
        return Err(BuddyError::Validation(concat_str(
            "pending handoff finalizer action must finish before interruption: ",
            finalizer_step_id.as_str(),
        )));
    }
    Ok(())
}

proof fn lemma_sources_unfold(
    actions: Seq<ActionDefinitionView>,
    steps: Seq<TimelineStepView>,
    rest: Seq<TimelineStepView>,
    i: int,
)
    requires
        0 <= i < rest.len(),
    ensures
        spec_check_handoff_sources(actions, steps, rest.skip(i)) == match spec_check_handoff_source(actions, steps, rest[i]) {
            Err(e) => Err(e),
            Ok(_) => spec_check_handoff_sources(actions, steps, rest.skip(i + 1)),
        },
{
    assert(rest.skip(i)[0] == rest[i]);
    assert(rest.skip(i).drop_first() =~= rest.skip(i + 1));
}

proof fn lemma_nested_unfold(actions: Seq<ActionDefinitionView>, rest: Seq<TimelineStepView>, i: int)
    requires
        0 <= i < rest.len(),
    ensures
        spec_validate_handoff_nested(actions, rest.skip(i)) == spec_then(
            match rest[i] {
                TimelineStepView::Repeat { steps, .. } => spec_validate_handoff_policies(actions, steps),
                TimelineStepView::Choose { options, .. } => spec_validate_handoff_options(actions, options),
                TimelineStepView::SetFallback { steps, .. } => spec_validate_handoff_policies(actions, steps),
                TimelineStepView::Retry { steps, .. } => spec_validate_handoff_policies(actions, steps),
                TimelineStepView::Replace { steps, replacement_steps, .. } => spec_then(
                    spec_validate_handoff_policies(actions, steps),
                    spec_validate_handoff_policies(actions, replacement_steps),
                ),
                TimelineStepView::Recover { steps, recovery_steps, .. } => spec_then(
                    spec_validate_handoff_policies(actions, steps),
                    spec_validate_handoff_policies(actions, recovery_steps),
                ),
                TimelineStepView::Try { steps, fallback_steps, .. } => spec_then(
                    spec_validate_handoff_policies(actions, steps),
                    spec_validate_handoff_policies(actions, fallback_steps),
                ),
                _ => Ok(()),
            },
            spec_validate_handoff_nested(actions, rest.skip(i + 1)),
        ),
{
    assert(rest.skip(i)[0] == rest[i]);
    assert(rest.skip(i).drop_first() =~= rest.skip(i + 1));
}

proof fn lemma_options_unfold(actions: Seq<ActionDefinitionView>, options: Seq<ChooseOptionView>, i: int)
    requires
        0 <= i < options.len(),
    ensures
        spec_validate_handoff_options(actions, options.skip(i)) == spec_then(
            spec_validate_handoff_policies(actions, options[i].steps),
            spec_validate_handoff_options(actions, options.skip(i + 1)),
        ),
{
    assert(options.skip(i)[0] == options[i]);
    assert(options.skip(i).drop_first() =~= options.skip(i + 1));
}

/// Checks that every pending handoff of a list of steps, and of the lists nested in them, has a
/// source and a finalizer that both finish before interruption.
#[verifier::loop_isolation(false)]
pub fn validate_pending_handoff_finalizer_interrupt_policies_in_steps(
    registry: &ActionRegistry,
    resolve_context: &ResolveContext,
    steps: &Vec<TimelineStep>,
) -> (r: BuddyResult<()>)
    ensures
        unit_result_view(r) == spec_validate_handoff_policies(registry@, steps_view(steps@)),
    decreases steps,
{
    let ghost a = registry@;
    let ghost v = steps_view(steps@);
    proof {
        lemma_steps_view(steps@);
        assert(v.skip(0) =~= v);
    }
    let mut i: usize = 0;
    while i < steps.len()
        invariant
            i <= steps@.len(),
            v.len() == steps@.len(),
            spec_check_handoff_sources(a, v, v) == spec_check_handoff_sources(a, v, v.skip(i as int)),
        decreases steps@.len() - i,
    {
        proof { lemma_sources_unfold(a, v, v, i as int); }
        match check_handoff_source(registry, resolve_context, steps, &steps[i]) {
            Ok(_) => {},
            Err(e) => return Err(e),
        }
        i = i + 1;
    }
    assert(v.skip(i as int).len() == 0);
    let mut k: usize = 0;
    while k < steps.len()
        invariant
            k <= steps@.len(),
            v.len() == steps@.len(),
            spec_validate_handoff_policies(a, v) == spec_validate_handoff_nested(a, v.skip(k as int)),
        decreases steps@.len() - k,
    {
        proof {
            lemma_nested_unfold(a, v, k as int);
            vstd::std_specs::vec::axiom_vec_index_decreases(*steps, k as int);
        }
        let here: BuddyResult<()> = match &steps[k] {
            TimelineStep::Repeat(s) => {
                proof { assert(decreases_to!(steps@[k as int] => s.steps)); }
                validate_pending_handoff_finalizer_interrupt_policies_in_steps(registry, resolve_context, &s.steps)
            },
            TimelineStep::SetFallback(s) => {
                proof { assert(decreases_to!(steps@[k as int] => s.steps)); }
                validate_pending_handoff_finalizer_interrupt_policies_in_steps(registry, resolve_context, &s.steps)
            },
            TimelineStep::Retry(s) => {
                proof { assert(decreases_to!(steps@[k as int] => s.steps)); }
                validate_pending_handoff_finalizer_interrupt_policies_in_steps(registry, resolve_context, &s.steps)
            },
            TimelineStep::Replace(s) => {
                proof {
                    assert(decreases_to!(steps@[k as int] => s.steps));
                    assert(decreases_to!(steps@[k as int] => s.replacement_steps));
                }
                match validate_pending_handoff_finalizer_interrupt_policies_in_steps(registry, resolve_context, &s.steps) {
                    Err(e) => Err(e),
                    Ok(_) => validate_pending_handoff_finalizer_interrupt_policies_in_steps(
                        registry,
                        resolve_context,
                        &s.replacement_steps,
                    ),
                }
            },
            TimelineStep::Recover(s) => {
                proof {
                    assert(decreases_to!(steps@[k as int] => s.steps));
                    assert(decreases_to!(steps@[k as int] => s.recovery_steps));
                }
                match validate_pending_handoff_finalizer_interrupt_policies_in_steps(registry, resolve_context, &s.steps) {
                    Err(e) => Err(e),
                    Ok(_) => validate_pending_handoff_finalizer_interrupt_policies_in_steps(
                        registry,
                        resolve_context,
                        &s.recovery_steps,
                    ),
                }
            },
            TimelineStep::Try(s) => {
                proof {
                    assert(decreases_to!(steps@[k as int] => s.steps));
                    assert(decreases_to!(steps@[k as int] => s.fallback_steps));
                }
                match validate_pending_handoff_finalizer_interrupt_policies_in_steps(registry, resolve_context, &s.steps) {
                    Err(e) => Err(e),
                    Ok(_) => validate_pending_handoff_finalizer_interrupt_policies_in_steps(
                        registry,
                        resolve_context,
                        &s.fallback_steps,
                    ),
                }
            },
            TimelineStep::Choose(s) => {
                let ghost ov = options_view(s.options@);
                proof {
                    assert(ov.skip(0) =~= ov);
                    assert(decreases_to!(steps@[k as int] => s.options));
                }
                let mut result: BuddyResult<()> = Ok(());
                let mut j: usize = 0;
                while j < s.options.len()
                    invariant
                        j <= s.options@.len(),
                        ov == options_view(s.options@),
                        ov.len() == s.options@.len(),
                        result is Ok,
                        spec_validate_handoff_options(a, ov) == spec_validate_handoff_options(a, ov.skip(j as int)),
                    decreases s.options@.len() - j,
                {
                    proof {
                        lemma_options_unfold(a, ov, j as int);
                        vstd::std_specs::vec::axiom_vec_index_decreases(s.options, j as int);
                        assert(decreases_to!(s.options@[j as int] => s.options@[j as int].steps));
                        assert(ov[j as int].steps == steps_view(s.options@[j as int].steps@));
                    }
                    match validate_pending_handoff_finalizer_interrupt_policies_in_steps(
                        registry,
                        resolve_context,
                        &s.options[j].steps,
                    ) {
                        Ok(_) => {},
                        Err(e) => {
                            result = Err(e);
                            break;
                        },
                    }
                    j = j + 1;
                }
                proof {
                    if result is Ok {
                        assert(ov.skip(j as int).len() == 0);
                    }
                }
                result
            },
            _ => Ok(()),
        };
        match here {
            Ok(_) => {},
            Err(e) => return Err(e),
        }
        k = k + 1;
    }
    assert(v.skip(k as int).len() == 0);
    Ok(())
}


/// Checks that every pending handoff of a plan has a source and a finalizer that both finish
/// before interruption.
pub fn validate_pending_handoff_finalizer_interrupt_policies(
    registry: &ActionRegistry,
    resolve_context: &ResolveContext,
    plan: &crate::timeline::TimelinePlan,
) -> (r: BuddyResult<()>)
    ensures
        unit_result_view(r) == spec_validate_handoff_policies(registry@, steps_view(plan.steps@)),
{
    validate_pending_handoff_finalizer_interrupt_policies_in_steps(registry, resolve_context, &plan.steps)
}

} // verus!
