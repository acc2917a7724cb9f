use vstd::prelude::*;

use crate::error::{BuddyError, BuddyErrorView, BuddyResult};
use crate::registry::{
    fallback_view, resolution_result_view, spec_resolve_play_action, spec_with_step_fallback,
    ActionDefinitionView, ActionRegistry, FallbackView, ResolutionView, ResolveContext,
    StepResolution, StepResolutionFallback,
};
use crate::text::{concat3, concat_str, opt_as_str, opt_str_view, str_eq};
use crate::timeline::{MoveByPathStep, MoveToStep, PlayActionStep, PlayActionStepView};

verus! {

/// The action a move settles into once it arrives.
#[derive(Debug, Clone, PartialEq, Eq)]
pub struct AfterActionResolution {
    pub action_id: String,
    pub animation_ref: String,
    pub fallback: Option<StepResolutionFallback>,
}

pub struct AfterActionView {
    pub action_id: Seq<char>,
    pub animation_ref: Seq<char>,
    pub fallback: Option<FallbackView>,
}

impl View for AfterActionResolution {
    type V = AfterActionView;

    open spec fn view(&self) -> AfterActionView {
        AfterActionView {
            action_id: self.action_id@,
            animation_ref: self.animation_ref@,
            fallback: fallback_view(self.fallback),
        }
    }
}

pub open spec fn spec_after_from_resolution(r: ResolutionView) -> AfterActionView {
    AfterActionView { action_id: r.action_id, animation_ref: r.animation_ref, fallback: r.fallback }
}

pub open spec fn spec_with_after_action_fallback(r: AfterActionView, requested: Seq<char>, fallback: Seq<char>) -> AfterActionView {
    AfterActionView {
        fallback: Some(
            FallbackView {
                requested_action_id: requested,
                fallback_action_id: fallback,
                reason_code: "fallback.afterActionResolved"@,
                unsupported_capability: None,
            },
        ),
        ..r
    }
}

impl AfterActionResolution {
    /// The after action of a resolved step.
    pub fn from_step_resolution(resolution: StepResolution) -> (r: Self)
        ensures
            r@ == spec_after_from_resolution(resolution@),
    {
        AfterActionResolution {
            action_id: resolution.action_id,
            animation_ref: resolution.animation_ref,
            fallback: resolution.fallback,
        }
    }

    /// The same after action, recording that it stands in for `requested_action_id`.
    pub fn with_after_action_fallback(self, requested_action_id: &str, fallback_action_id: &str) -> (r: Self)
        ensures
            r@ == spec_with_after_action_fallback(self@, requested_action_id@, fallback_action_id@),
    {
        let mut r = self;
        r.fallback = Some(
            StepResolutionFallback {
                requested_action_id: requested_action_id.to_owned(),
                fallback_action_id: fallback_action_id.to_owned(),
                reason_code: "fallback.afterActionResolved".to_owned(),
                unsupported_capability: None,
            },
        );
        r
    }
}

/// Resolving a play action's action: its own action first, then its fallback action.
pub open spec fn spec_resolve_play_action_step_action(
    actions: Seq<ActionDefinitionView>,
    step: PlayActionStepView,
) -> Result<ResolutionView, BuddyErrorView> {
    match spec_resolve_play_action(actions, step.action_id) {
        Ok(r) => Ok(r),
        Err(e) => match step.fallback_action_id {
            None => Err(e),
            Some(f) => match spec_resolve_play_action(actions, f) {
                Ok(r) => Ok(spec_with_step_fallback(r, step.action_id, f)),
                Err(e2) => Err(e2),
            },
        },
    }
}

/// Resolving a play action: its action, then the playback it asks for.
pub open spec fn spec_resolve_play_action_step(
    actions: Seq<ActionDefinitionView>,
    step: PlayActionStepView,
) -> Result<ResolutionView, BuddyErrorView> {
    match spec_resolve_play_action_step_action(actions, step) {
        Err(e) => Err(e),
        Ok(r) => if step.expected_playback == "once"@ {
            Ok(r)
        } else if step.expected_playback == "loopForDuration"@ {
            match step.duration_ms {
                None => Err(BuddyErrorView::Validation("loopForDuration playAction requires durationMs"@)),
                Some(d) => if d == 0 {
                    Err(BuddyErrorView::Validation("loopForDuration playAction durationMs must be positive"@))
                } else {
                    Ok(ResolutionView {
                        playback_kind: "loopForDuration"@,
                        duration_ms: d,
                        loop_animation: true,
                        ..r
                    })
                },
            }
        } else {
            Err(BuddyErrorView::Validation("unsupported playAction expectedPlayback: "@ + step.expected_playback))
        },
    }
}

/// Resolves a play action's action, falling back to its fallback action when its own is unknown.
pub fn resolve_play_action_step_action(
    registry: &ActionRegistry,
    resolve_context: &ResolveContext,
    step: &PlayActionStep,
) -> (r: BuddyResult<StepResolution>)
    ensures
        resolution_result_view(r) == spec_resolve_play_action_step_action(registry@, step@),
{
    match registry.resolve_play_action(step.action_id.as_str(), resolve_context) {
        Ok(resolution) => Ok(resolution),
        Err(error) => match &step.fallback_action_id {
            None => Err(error),
            Some(fallback) => match registry.resolve_play_action(fallback.as_str(), resolve_context) {
                Ok(resolution) => Ok(resolution.with_step_fallback(step.action_id.as_str(), fallback.as_str())),
                Err(e) => Err(e),
            },
        },
    }
}

/// Resolves a play action to its action and playback.
pub fn resolve_play_action_step(
    registry: &ActionRegistry,
    resolve_context: &ResolveContext,
    step: &PlayActionStep,
) -> (r: BuddyResult<StepResolution>)
    ensures
        resolution_result_view(r) == spec_resolve_play_action_step(registry@, step@),
{
    let mut resolution = match resolve_play_action_step_action(registry, resolve_context, step) {
        Ok(r) => r,
        Err(e) => return Err(e),
    };
    if str_eq(step.expected_playback.as_str(), "once") {
        return Ok(resolution);
    }
    if str_eq(step.expected_playback.as_str(), "loopForDuration") {
        let duration_ms = match step.duration_ms {
            Some(d) => d,
            None => return Err(BuddyError::Validation("loopForDuration playAction requires durationMs".to_owned())),
        };
        if duration_ms == 0 {
            return Err(BuddyError::Validation("loopForDuration playAction durationMs must be positive".to_owned()));
        }
        resolution.playback_kind = "loopForDuration".to_owned();
        resolution.duration_ms = duration_ms;
        resolution.loop_animation = true;
        return Ok(resolution);
    }
    Err(BuddyError::Validation(concat_str("unsupported playAction expectedPlayback: ", step.expected_playback.as_str())))
}

/// Resolving an after action: it must be a stable loop.
pub open spec fn spec_resolve_stable_after_action(
    actions: Seq<ActionDefinitionView>,
    after_action_id: Seq<char>,
    step_kind: Seq<char>,
) -> Result<AfterActionView, BuddyErrorView> {
    match spec_resolve_play_action(actions, after_action_id) {
        Err(e) => Err(e),
        Ok(r) => if r.playback_kind != "idleLoop"@ || !r.loop_animation {
            Err(BuddyErrorView::Validation(
                step_kind + " afterActionId must resolve to a stable loop action: "@ + after_action_id,
            ))
        } else {
            Ok(spec_after_from_resolution(r))
        },
    }
}

pub open spec fn after_result_view(r: BuddyResult<AfterActionResolution>) -> Result<AfterActionView, BuddyErrorView> {
    match r {
        Ok(v) => Ok(v@),
        Err(e) => Err(e@),
    }
}

/// Resolves an after action, which must be a stable loop.
pub fn resolve_stable_after_action(
    registry: &ActionRegistry,
    resolve_context: &ResolveContext,
    after_action_id: &str,
    step_kind: &str,
) -> (r: BuddyResult<AfterActionResolution>)
    ensures
        after_result_view(r) == spec_resolve_stable_after_action(registry@, after_action_id@, step_kind@),
{
    let resolution = match registry.resolve_play_action(after_action_id, resolve_context) {
        Ok(r) => r,
        Err(e) => return Err(e),
    };
    if !str_eq(resolution.playback_kind.as_str(), "idleLoop") || !resolution.loop_animation {
        let a = concat3(step_kind, " afterActionId must resolve to a stable loop action: ", after_action_id);
        return Err(BuddyError::Validation(a));
    }
    Ok(AfterActionResolution::from_step_resolution(resolution))
}

/// Resolving the after action of a move, falling back to its fallback after action.
pub open spec fn spec_resolve_after_action(
    actions: Seq<ActionDefinitionView>,
    after_action_id: Option<Seq<char>>,
    fallback_after_action_id: Option<Seq<char>>,
    step_kind: Seq<char>,
) -> Result<Option<AfterActionView>, BuddyErrorView> {
    match after_action_id {
        None => match fallback_after_action_id {
            Some(f) => Err(BuddyErrorView::Validation(step_kind + " fallbackAfterActionId requires afterActionId: "@ + f)),
            None => Ok(None),
        },
        Some(a) => match spec_resolve_stable_after_action(actions, a, step_kind) {
            Ok(r) => Ok(Some(r)),
            Err(e) => match fallback_after_action_id {
                None => Err(e),
                Some(f) => match spec_resolve_stable_after_action(actions, f, step_kind) {
                    Ok(r) => Ok(Some(spec_with_after_action_fallback(r, a, f))),
                    Err(e2) => Err(e2),
                },
            },
        },
    }
}

pub open spec fn opt_after_result_view(r: BuddyResult<Option<AfterActionResolution>>) -> Result<
    Option<AfterActionView>,
    BuddyErrorView,
> {
    match r {
        Ok(Some(v)) => Ok(Some(v@)),
        Ok(None) => Ok(None),
        Err(e) => Err(e@),
    }
}

/// Resolves the after action of a move, falling back to its fallback after action.
pub fn resolve_after_action(
    registry: &ActionRegistry,
    resolve_context: &ResolveContext,
    after_action_id: Option<&str>,
    fallback_after_action_id: Option<&str>,
    step_kind: &str,
) -> (r: BuddyResult<Option<AfterActionResolution>>)
    ensures
        opt_after_result_view(r) == spec_resolve_after_action(
            registry@,
            opt_str_view(after_action_id),
            opt_str_view(fallback_after_action_id),
            step_kind@,
        ),
{
    let after = match after_action_id {
        Some(a) => a,
        None => {
            if let Some(f) = fallback_after_action_id {
                let a = concat3(step_kind, " fallbackAfterActionId requires afterActionId: ", f);
                return Err(BuddyError::Validation(a));
            }
            return Ok(None);
        },
    };
    match resolve_stable_after_action(registry, resolve_context, after, step_kind) {
        Ok(resolution) => Ok(Some(resolution)),
        Err(error) => match fallback_after_action_id {
            None => Err(error),
            Some(f) => match resolve_stable_after_action(registry, resolve_context, f, step_kind) {
                Ok(resolution) => Ok(Some(resolution.with_after_action_fallback(after, f))),
                Err(e) => Err(e),
            },
        },
    }
}

/// Resolves the after action of a move-to step.
pub fn resolve_move_to_after_action(
    registry: &ActionRegistry,
    resolve_context: &ResolveContext,
    step: &MoveToStep,
) -> (r: BuddyResult<Option<AfterActionResolution>>)
    ensures
        opt_after_result_view(r) == spec_resolve_after_action(
            registry@,
            step@.after_action_id,
            step@.fallback_after_action_id,
            "moveTo"@,
        ),
{
    resolve_after_action(
        registry,
        resolve_context,
        opt_as_str(&step.after_action_id),
        opt_as_str(&step.fallback_after_action_id),
        "moveTo",
    )
}

/// Resolves the after action of a move-by-path step.
pub fn resolve_move_by_path_after_action(
    registry: &ActionRegistry,
    resolve_context: &ResolveContext,
    step: &MoveByPathStep,
) -> (r: BuddyResult<Option<AfterActionResolution>>)
    ensures
        opt_after_result_view(r) == spec_resolve_after_action(
            registry@,
            step@.after_action_id,
            step@.fallback_after_action_id,
            "moveByPath"@,
        ),
{
    resolve_after_action(
        registry,
        resolve_context,
        opt_as_str(&step.after_action_id),
        opt_as_str(&step.fallback_after_action_id),
        "moveByPath",
    )
}

/// Law: a play action whose own action resolves is never given its fallback action, and one
/// whose own action is unknown but whose fallback resolves records the fallback it used.
pub proof fn law_step_fallback_only_when_needed(actions: Seq<ActionDefinitionView>, step: PlayActionStepView)
    ensures
        spec_resolve_play_action(actions, step.action_id) is Ok ==> spec_resolve_play_action_step_action(
            actions,
            step,
        ) == spec_resolve_play_action(actions, step.action_id),
        (spec_resolve_play_action(actions, step.action_id) is Err && step.fallback_action_id is Some
            && spec_resolve_play_action(actions, step.fallback_action_id.unwrap()) is Ok) ==> (
        spec_resolve_play_action_step_action(actions, step) matches Ok(r) && r.fallback == Some(
            FallbackView {
                requested_action_id: step.action_id,
                fallback_action_id: step.fallback_action_id.unwrap(),
                reason_code: "fallback.stepActionResolved"@,
                unsupported_capability: None,
            },
        )),
{
}

} // verus!
