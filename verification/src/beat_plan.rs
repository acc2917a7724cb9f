use vstd::prelude::*;

use crate::error::{BuddyError, BuddyErrorView, BuddyResult};
use crate::json::JsonValue;
use crate::step_protocol::SidecarPlayActionCompletionBehavior;
use crate::text::{clone_opt_string, concat3, opt_str_view, opt_string_view};
use crate::timeline::{
    copy_move_targets, duplicate_steps, lemma_steps_view, steps_view,
    step_view, MoveByPathStep, MoveByPathStepView, MoveTarget, MoveToStep, MoveToStepView,
    PlayActionStep, PlayActionStepView, RecoverStep, TimelineStep, TimelineStepView, TryStep,
    lemma_steps_view_add,
    WaitStep, WaitStepView,
};

verus! {

/// The role a beat plays in a macro.
#[derive(Debug, Clone, Copy, PartialEq, Eq)]
pub enum BeatKind {
    Approach,
    Perform,
    Recover,
    Rest,
    Settle,
}

/// A beat that plays an action.
#[derive(Debug, PartialEq, Eq)]
pub struct BeatAction {
    pub step_id: String,
    pub action_id: String,
    pub fallback_action_id: Option<String>,
    pub expected_playback: String,
    pub duration_ms: Option<u64>,
    pub pending_handoff_finalizer_step_id: Option<String>,
    pub completion_behavior: SidecarPlayActionCompletionBehavior,
    pub timeout_ms: u64,
}

/// A beat that moves the pet to one target.
#[derive(Debug, PartialEq, Eq)]
pub struct BeatTarget {
    pub step_id: String,
    pub target: MoveTarget,
    pub after_action_id: Option<String>,
    pub fallback_after_action_id: Option<String>,
    pub timeout_ms: u64,
}

/// A beat that moves the pet through a path of targets.
#[derive(Debug, PartialEq, Eq)]
pub struct BeatPath {
    pub step_id: String,
    pub path: Vec<MoveTarget>,
    pub after_action_id: Option<String>,
    pub fallback_after_action_id: Option<String>,
    pub timeout_ms: u64,
}

/// A beat that waits.
#[derive(Debug, PartialEq, Eq)]
pub struct BeatWait {
    pub step_id: String,
    pub duration_ms: u64,
    pub timeout_ms: u64,
}

/// Beats that run in order as one beat.
#[derive(Debug, PartialEq, Eq)]
pub struct BeatGroup {
    pub beats: Vec<BeatPlanBeat>,
}

/// Primary beats, with fallback beats that run when the primary ones fail.
#[derive(Debug, PartialEq, Eq)]
pub struct BeatFailureBranch {
    pub step_id: String,
    pub primary_beats: Vec<BeatPlanBeat>,
    pub fallback_beats: Vec<BeatPlanBeat>,
}

/// What a beat does.
#[derive(Debug, PartialEq, Eq)]
pub enum BeatPlanBeatBody {
    Action { action: BeatAction },
    Target { target: BeatTarget },
    Path { path: BeatPath },
    Wait { wait: BeatWait },
    Group { group: BeatGroup },
    FailureBranch { failure_branch: BeatFailureBranch },
}

/// One beat of a beat plan.
#[derive(Debug, PartialEq, Eq)]
pub struct BeatPlanBeat {
    pub beat_id: String,
    pub kind: BeatKind,
    pub fallback_action_id: Option<String>,
    pub body: BeatPlanBeatBody,
}

/// The steps that wrap a beat plan's timeline and run when it fails.
#[derive(Debug, PartialEq, Eq)]
pub struct BeatPlanRecovery {
    pub step_id: String,
    pub recovery_steps: Vec<TimelineStep>,
}

/// A macro compiled to beats.
#[derive(Debug, PartialEq, Eq)]
pub struct BeatPlan {
    pub plan_id: String,
    pub source_ref: JsonValue,
    pub macro_id: String,
    pub fallback_action_id: Option<String>,
    pub recovery: Option<BeatPlanRecovery>,
    pub beats: Vec<BeatPlanBeat>,
    pub created_at: String,
}

// ---------------------------------------------------------------------------
// Mathematical forms.
// ---------------------------------------------------------------------------

pub struct BeatActionView {
    pub step_id: Seq<char>,
    pub action_id: Seq<char>,
    pub fallback_action_id: Option<Seq<char>>,
    pub expected_playback: Seq<char>,
    pub duration_ms: Option<u64>,
    pub pending_handoff_finalizer_step_id: Option<Seq<char>>,
    pub completion_behavior: SidecarPlayActionCompletionBehavior,
    pub timeout_ms: u64,
}

pub struct BeatTargetView {
    pub step_id: Seq<char>,
    pub target: MoveTarget,
    pub after_action_id: Option<Seq<char>>,
    pub fallback_after_action_id: Option<Seq<char>>,
    pub timeout_ms: u64,
}

pub struct BeatPathView {
    pub step_id: Seq<char>,
    pub path: Seq<MoveTarget>,
    pub after_action_id: Option<Seq<char>>,
    pub fallback_after_action_id: Option<Seq<char>>,
    pub timeout_ms: u64,
}

pub struct BeatWaitView {
    pub step_id: Seq<char>,
    pub duration_ms: u64,
    pub timeout_ms: u64,
}

pub enum BeatView {
    Action { beat_id: Seq<char>, kind: BeatKind, fallback_action_id: Option<Seq<char>>, action: BeatActionView },
    Target { beat_id: Seq<char>, kind: BeatKind, fallback_action_id: Option<Seq<char>>, target: BeatTargetView },
    Path { beat_id: Seq<char>, kind: BeatKind, fallback_action_id: Option<Seq<char>>, path: BeatPathView },
    Wait { beat_id: Seq<char>, kind: BeatKind, fallback_action_id: Option<Seq<char>>, wait: BeatWaitView },
    Group { beat_id: Seq<char>, kind: BeatKind, fallback_action_id: Option<Seq<char>>, beats: Seq<BeatView> },
    FailureBranch {
        beat_id: Seq<char>,
        kind: BeatKind,
        fallback_action_id: Option<Seq<char>>,
        step_id: Seq<char>,
        primary_beats: Seq<BeatView>,
        fallback_beats: Seq<BeatView>,
    },
}

impl BeatView {
    pub open spec fn beat_id(self) -> Seq<char> {
        match self {
            BeatView::Action { beat_id, .. } => beat_id,
            BeatView::Target { beat_id, .. } => beat_id,
            BeatView::Path { beat_id, .. } => beat_id,
            BeatView::Wait { beat_id, .. } => beat_id,
            BeatView::Group { beat_id, .. } => beat_id,
            BeatView::FailureBranch { beat_id, .. } => beat_id,
        }
    }

    pub open spec fn fallback_action_id(self) -> Option<Seq<char>> {
        match self {
            BeatView::Action { fallback_action_id, .. } => fallback_action_id,
            BeatView::Target { fallback_action_id, .. } => fallback_action_id,
            BeatView::Path { fallback_action_id, .. } => fallback_action_id,
            BeatView::Wait { fallback_action_id, .. } => fallback_action_id,
            BeatView::Group { fallback_action_id, .. } => fallback_action_id,
            BeatView::FailureBranch { fallback_action_id, .. } => fallback_action_id,
        }
    }
}

impl View for BeatAction {
    type V = BeatActionView;

    open spec fn view(&self) -> BeatActionView {
        BeatActionView {
            step_id: self.step_id@,
            action_id: self.action_id@,
            fallback_action_id: opt_string_view(self.fallback_action_id),
            expected_playback: self.expected_playback@,
            duration_ms: self.duration_ms,
            pending_handoff_finalizer_step_id: opt_string_view(self.pending_handoff_finalizer_step_id),
            completion_behavior: self.completion_behavior,
            timeout_ms: self.timeout_ms,
        }
    }
}

impl View for BeatTarget {
    type V = BeatTargetView;

    open spec fn view(&self) -> BeatTargetView {
        BeatTargetView {
            step_id: self.step_id@,
            target: self.target,
            after_action_id: opt_string_view(self.after_action_id),
            fallback_after_action_id: opt_string_view(self.fallback_after_action_id),
            timeout_ms: self.timeout_ms,
        }
    }
}

impl View for BeatPath {
    type V = BeatPathView;

    open spec fn view(&self) -> BeatPathView {
        BeatPathView {
            step_id: self.step_id@,
            path: self.path@,
            after_action_id: opt_string_view(self.after_action_id),
            fallback_after_action_id: opt_string_view(self.fallback_after_action_id),
            timeout_ms: self.timeout_ms,
        }
    }
}

impl View for BeatWait {
    type V = BeatWaitView;

    open spec fn view(&self) -> BeatWaitView {
        BeatWaitView { step_id: self.step_id@, duration_ms: self.duration_ms, timeout_ms: self.timeout_ms }
    }
}

/// The mathematical form of a list of beats.
pub open spec fn beats_view(beats: Seq<BeatPlanBeat>) -> Seq<BeatView>
    decreases beats,
{
    Seq::new(
        beats.len(),
        |i: int|
            if 0 <= i < beats.len() {
                beat_view(beats[i])
            } else {
                BeatView::Group { beat_id: Seq::empty(), kind: BeatKind::Perform, fallback_action_id: None, beats: Seq::empty() }
            },
    )
}

/// The mathematical form of a beat.
pub open spec fn beat_view(beat: BeatPlanBeat) -> BeatView
    decreases beat,
{
    let beat_id = beat.beat_id@;
    let kind = beat.kind;
    let fallback_action_id = opt_string_view(beat.fallback_action_id);
    match beat.body {
        BeatPlanBeatBody::Action { action } => BeatView::Action { beat_id, kind, fallback_action_id, action: action@ },
        BeatPlanBeatBody::Target { target } => BeatView::Target { beat_id, kind, fallback_action_id, target: target@ },
        BeatPlanBeatBody::Path { path } => BeatView::Path { beat_id, kind, fallback_action_id, path: path@ },
        BeatPlanBeatBody::Wait { wait } => BeatView::Wait { beat_id, kind, fallback_action_id, wait: wait@ },
        BeatPlanBeatBody::Group { group } => BeatView::Group {
            beat_id,
            kind,
            fallback_action_id,
            beats: beats_view(group.beats@),
        },
        BeatPlanBeatBody::FailureBranch { failure_branch } => BeatView::FailureBranch {
            beat_id,
            kind,
            fallback_action_id,
            step_id: failure_branch.step_id@,
            primary_beats: beats_view(failure_branch.primary_beats@),
            fallback_beats: beats_view(failure_branch.fallback_beats@),
        },
    }
}

impl View for BeatPlanBeat {
    type V = BeatView;

    open spec fn view(&self) -> BeatView {
        beat_view(*self)
    }
}

pub proof fn lemma_beats_view(beats: Seq<BeatPlanBeat>)
    ensures
        beats_view(beats).len() == beats.len(),
        forall|i: int| 0 <= i < beats.len() ==> #[trigger] beats_view(beats)[i] == beat_view(beats[i]),
{
}

// ---------------------------------------------------------------------------
// Constructors and conversions.
// ---------------------------------------------------------------------------

impl BeatGroup {
    /// A group of beats.
    pub fn new(beats: Vec<BeatPlanBeat>) -> (r: Self)
        ensures
            r.beats == beats,
    {
        BeatGroup { beats }
    }
}

impl BeatFailureBranch {
    /// A failure branch with its primary and fallback beats.
    pub fn new(step_id: &str, primary_beats: Vec<BeatPlanBeat>, fallback_beats: Vec<BeatPlanBeat>) -> (r: Self)
        ensures
            r.step_id@ == step_id@,
            r.primary_beats == primary_beats,
            r.fallback_beats == fallback_beats,
    {
        BeatFailureBranch { step_id: step_id.to_owned(), primary_beats, fallback_beats }
    }
}

pub open spec fn spec_path_to_step(p: BeatPathView) -> MoveByPathStepView {
    MoveByPathStepView {
        step_id: p.step_id,
        kind: "moveByPath"@,
        path: p.path,
        after_action_id: p.after_action_id,
        fallback_after_action_id: p.fallback_after_action_id,
        timeout_ms: p.timeout_ms,
    }
}

pub open spec fn spec_empty_path_error(beat_id: Seq<char>) -> BuddyErrorView {
    BuddyErrorView::Validation("path beat "@ + beat_id + " must contain at least one target"@)
}

impl BeatPath {
    /// A path beat with no after action.
    pub fn move_by_path(step_id: &str, path: Vec<MoveTarget>, timeout_ms: u64) -> (r: Self)
        ensures
            r@ == (BeatPathView {
                step_id: step_id@,
                path: path@,
                after_action_id: None,
                fallback_after_action_id: None,
                timeout_ms,
            }),
    {
        BeatPath {
            step_id: step_id.to_owned(),
            path,
            after_action_id: None,
            fallback_after_action_id: None,
            timeout_ms,
        }
    }

    /// The move-by-path step of the beat; a path with no target is refused.
    pub fn to_move_by_path_step(&self, beat_id: &str) -> (r: BuddyResult<MoveByPathStep>)
        ensures
            self@.path.len() == 0 ==> r is Err && r->Err_0@ == spec_empty_path_error(beat_id@),
            self@.path.len() > 0 ==> r is Ok && r->Ok_0@ == spec_path_to_step(self@),
    {
        if self.path.len() == 0 {
            return Err(BuddyError::Validation(
                concat3("path beat ", beat_id, " must contain at least one target"),
            ));
        }
        let mut step = MoveByPathStep::new(self.step_id.as_str(), copy_move_targets(&self.path), self.timeout_ms);
        step.after_action_id = clone_opt_string(&self.after_action_id);
        step.fallback_after_action_id = clone_opt_string(&self.fallback_after_action_id);
        Ok(step)
    }
}

pub open spec fn spec_action_to_step(a: BeatActionView) -> PlayActionStepView {
    PlayActionStepView {
        step_id: a.step_id,
        kind: "playAction"@,
        action_id: a.action_id,
        fallback_action_id: a.fallback_action_id,
        expected_playback: a.expected_playback,
        duration_ms: a.duration_ms,
        pending_handoff_finalizer_step_id: a.pending_handoff_finalizer_step_id,
        completion_behavior: a.completion_behavior,
        timeout_ms: a.timeout_ms,
    }
}

impl BeatAction {
    /// An action beat that plays its animation once.
    pub fn once(step_id: &str, action_id: &str, timeout_ms: u64) -> (r: Self)
        ensures
            r@ == (BeatActionView {
                step_id: step_id@,
                action_id: action_id@,
                fallback_action_id: None,
                expected_playback: "once"@,
                duration_ms: None,
                pending_handoff_finalizer_step_id: None,
                completion_behavior: SidecarPlayActionCompletionBehavior::RestoreIdle,
                timeout_ms,
            }),
    {
        BeatAction {
            step_id: step_id.to_owned(),
            action_id: action_id.to_owned(),
            fallback_action_id: None,
            expected_playback: "once".to_owned(),
            duration_ms: None,
            pending_handoff_finalizer_step_id: None,
            completion_behavior: SidecarPlayActionCompletionBehavior::RestoreIdle,
            timeout_ms,
        }
    }

    /// An action beat that loops its animation for `duration_ms`.
    pub fn loop_for_duration(step_id: &str, action_id: &str, duration_ms: u64, timeout_ms: u64) -> (r: Self)
        ensures
            r@ == (BeatActionView {
                step_id: step_id@,
                action_id: action_id@,
                fallback_action_id: None,
                expected_playback: "loopForDuration"@,
                duration_ms: Some(duration_ms),
                pending_handoff_finalizer_step_id: None,
                completion_behavior: SidecarPlayActionCompletionBehavior::RestoreIdle,
                timeout_ms,
            }),
    {
        BeatAction {
            step_id: step_id.to_owned(),
            action_id: action_id.to_owned(),
            fallback_action_id: None,
            expected_playback: "loopForDuration".to_owned(),
            duration_ms: Some(duration_ms),
            pending_handoff_finalizer_step_id: None,
            completion_behavior: SidecarPlayActionCompletionBehavior::RestoreIdle,
            timeout_ms,
        }
    }

    /// The play-action step of the beat.
    pub fn to_play_action_step(&self) -> (r: PlayActionStep)
        ensures
            r@ == spec_action_to_step(self@),
    {
        PlayActionStep {
            step_id: self.step_id.clone(),
            kind: "playAction".to_owned(),
            action_id: self.action_id.clone(),
            fallback_action_id: clone_opt_string(&self.fallback_action_id),
            expected_playback: self.expected_playback.clone(),
            duration_ms: self.duration_ms,
            pending_handoff_finalizer_step_id: clone_opt_string(&self.pending_handoff_finalizer_step_id),
            completion_behavior: self.completion_behavior,
            timeout_ms: self.timeout_ms,
        }
    }
}

pub open spec fn spec_target_to_step(t: BeatTargetView) -> MoveToStepView {
    MoveToStepView {
        step_id: t.step_id,
        kind: "moveTo"@,
        target: t.target,
        after_action_id: t.after_action_id,
        fallback_after_action_id: t.fallback_after_action_id,
        timeout_ms: t.timeout_ms,
    }
}

impl BeatTarget {
    /// A target beat with no after action.
    pub fn move_to(step_id: &str, target: MoveTarget, timeout_ms: u64) -> (r: Self)
        ensures
            r@ == (BeatTargetView {
                step_id: step_id@,
                target,
                after_action_id: None,
                fallback_after_action_id: None,
                timeout_ms,
            }),
    {
        BeatTarget { step_id: step_id.to_owned(), target, after_action_id: None, fallback_after_action_id: None, timeout_ms }
    }

    /// A target beat that settles into `after_action_id`, or `fallback_after_action_id` when that
    /// action cannot be resolved.
    pub fn move_to_with_after_action_fallback(
        step_id: &str,
        target: MoveTarget,
        after_action_id: &str,
        fallback_after_action_id: &str,
        timeout_ms: u64,
    ) -> (r: Self)
        ensures
            r@ == (BeatTargetView {
                step_id: step_id@,
                target,
                after_action_id: Some(after_action_id@),
                fallback_after_action_id: Some(fallback_after_action_id@),
                timeout_ms,
            }),
    {
        let mut beat_target = Self::move_to(step_id, target, timeout_ms);
        beat_target.after_action_id = Some(after_action_id.to_owned());
        beat_target.fallback_after_action_id = Some(fallback_after_action_id.to_owned());
        beat_target
    }

    /// The move-to step of the beat.
    pub fn to_move_to_step(&self) -> (r: MoveToStep)
        ensures
            r@ == spec_target_to_step(self@),
    {
        let mut step = MoveToStep::target(self.step_id.as_str(), self.target, self.timeout_ms);
        step.after_action_id = clone_opt_string(&self.after_action_id);
        step.fallback_after_action_id = clone_opt_string(&self.fallback_after_action_id);
        step
    }
}

pub open spec fn spec_wait_to_step(w: BeatWaitView) -> WaitStepView {
    WaitStepView { step_id: w.step_id, kind: "wait"@, duration_ms: w.duration_ms, timeout_ms: w.timeout_ms }
}

impl BeatWait {
    /// A wait beat.
    pub fn new(step_id: &str, duration_ms: u64, timeout_ms: u64) -> (r: Self)
        ensures
            r@ == (BeatWaitView { step_id: step_id@, duration_ms, timeout_ms }),
    {
        BeatWait { step_id: step_id.to_owned(), duration_ms, timeout_ms }
    }

    /// The wait step of the beat.
    pub fn to_wait_step(&self) -> (r: WaitStep)
        ensures
            r@ == spec_wait_to_step(self@),
    {
        WaitStep::new(self.step_id.as_str(), self.duration_ms, self.timeout_ms)
    }
}


// ---------------------------------------------------------------------------
// Compiling beats to timeline steps.
// ---------------------------------------------------------------------------

/// Steps compiled from beats, and whether a play action took the inherited fallback action.
pub type BeatCompileResult = Result<(Seq<TimelineStepView>, bool), BuddyErrorView>;

pub open spec fn spec_prepend_steps(prefix: Seq<TimelineStepView>, used: bool, r: BeatCompileResult) -> BeatCompileResult {
    match r {
        Ok((s, u)) => Ok((prefix + s, used || u)),
        Err(e) => Err(e),
    }
}

pub open spec fn spec_first_some(a: Option<Seq<char>>, b: Option<Seq<char>>) -> Option<Seq<char>> {
    if a is Some {
        a
    } else {
        b
    }
}

pub open spec fn spec_not_play_action_error(beat_id: Seq<char>) -> BuddyErrorView {
    BuddyErrorView::Validation(
        "fallbackActionId on beat "@ + beat_id + " can only apply to playAction timeline steps"@,
    )
}

/// Compiling beats in order; the first failing beat decides the error.
pub open spec fn spec_compile_beats(beats: Seq<BeatView>, inherited: Option<Seq<char>>) -> BeatCompileResult
    decreases beats,
{
    if beats.len() == 0 {
        Ok((Seq::empty(), false))
    } else {
        match spec_compile_beat(beats[0], inherited) {
            Err(e) => Err(e),
            Ok((s, u)) => spec_prepend_steps(s, u, spec_compile_beats(beats.drop_first(), inherited)),
        }
    }
}

/// Compiling one beat, with the fallback action that it inherits.
pub open spec fn spec_compile_beat(beat: BeatView, inherited: Option<Seq<char>>) -> BeatCompileResult
    decreases beat,
{
    match beat {
        BeatView::Group { beat_id, fallback_action_id, beats, .. } => {
            if beats.len() == 0 {
                Err(BuddyErrorView::Validation(
                    "group beat "@ + beat_id + " must contain at least one nested beat"@,
                ))
            } else {
                match spec_compile_beats(beats, spec_first_some(fallback_action_id, inherited)) {
                    Err(e) => Err(e),
                    Ok((s, u)) => if fallback_action_id is Some && !u {
                        Err(BuddyErrorView::Validation(
                            "fallbackActionId on group beat "@ + beat_id
                                + " must apply to at least one nested playAction timeline step"@,
                        ))
                    } else {
                        Ok((s, fallback_action_id is None && u))
                    },
                }
            }
        },
        BeatView::FailureBranch { beat_id, fallback_action_id, step_id, primary_beats, fallback_beats, .. } => {
            if primary_beats.len() == 0 {
                Err(BuddyErrorView::Validation(
                    "failure branch beat "@ + beat_id + " must contain at least one primary nested beat"@,
                ))
            } else if fallback_beats.len() == 0 {
                Err(BuddyErrorView::Validation(
                    "failure branch beat "@ + beat_id + " must contain at least one fallback nested beat"@,
                ))
            } else {
                let nested = spec_first_some(fallback_action_id, inherited);
                match spec_compile_beats(primary_beats, nested) {
                    Err(e) => Err(e),
                    Ok((ps, pu)) => match spec_compile_beats(fallback_beats, nested) {
                        Err(e) => Err(e),
                        Ok((fs, fu)) => if fallback_action_id is Some && !(pu || fu) {
                            Err(BuddyErrorView::Validation(
                                "fallbackActionId on failure branch beat "@ + beat_id
                                    + " must apply to at least one nested playAction timeline step"@,
                            ))
                        } else {
                            Ok((
                                seq![TimelineStepView::Try { step_id, kind: "try"@, steps: ps, fallback_steps: fs }],
                                fallback_action_id is None && (pu || fu),
                            ))
                        },
                    },
                }
            }
        },
        BeatView::Action { fallback_action_id, action, .. } => {
            let step = spec_action_to_step(action);
            if step.fallback_action_id is Some {
                Ok((seq![TimelineStepView::PlayAction(step)], false))
            } else if fallback_action_id is Some {
                Ok((seq![TimelineStepView::PlayAction(PlayActionStepView { fallback_action_id, ..step })], false))
            } else if inherited is Some {
                Ok((seq![TimelineStepView::PlayAction(PlayActionStepView { fallback_action_id: inherited, ..step })], true))
            } else {
                Ok((seq![TimelineStepView::PlayAction(step)], false))
            }
        },
        BeatView::Target { beat_id, fallback_action_id, target, .. } => if fallback_action_id is Some {
            Err(spec_not_play_action_error(beat_id))
        } else {
            Ok((seq![TimelineStepView::MoveTo(spec_target_to_step(target))], false))
        },
        BeatView::Path { beat_id, fallback_action_id, path, .. } => if path.path.len() == 0 {
            Err(spec_empty_path_error(beat_id))
        } else if fallback_action_id is Some {
            Err(spec_not_play_action_error(beat_id))
        } else {
            Ok((seq![TimelineStepView::MoveByPath(spec_path_to_step(path))], false))
        },
        BeatView::Wait { beat_id, fallback_action_id, wait, .. } => if fallback_action_id is Some {
            Err(spec_not_play_action_error(beat_id))
        } else {
            Ok((seq![TimelineStepView::Wait(spec_wait_to_step(wait))], false))
        },
    }
}

/// Timeline steps compiled from beats.
pub struct CompiledBeatTimelineSteps {
    pub steps: Vec<TimelineStep>,
    pub used_inherited_fallback: bool,
}

pub open spec fn compiled_view(r: BuddyResult<CompiledBeatTimelineSteps>) -> BeatCompileResult {
    match r {
        Ok(c) => Ok((steps_view(c.steps@), c.used_inherited_fallback)),
        Err(e) => Err(e@),
    }
}

fn single_step(step: TimelineStep, used: bool) -> (r: BuddyResult<CompiledBeatTimelineSteps>)
    ensures
        compiled_view(r) == Ok::<(Seq<TimelineStepView>, bool), BuddyErrorView>((seq![step_view(step)], used)),
{
    let mut steps: Vec<TimelineStep> = Vec::new();
    steps.push(step);
    proof {
        lemma_steps_view(steps@);
        assert(steps_view(steps@) =~= seq![step_view(step)]);
    }
    Ok(CompiledBeatTimelineSteps { steps, used_inherited_fallback: used })
}

/// Compiles one beat to timeline steps, giving play actions the fallback action of the beat, or
/// else the inherited one.
pub fn compile_beat_to_timeline_steps(beat: &BeatPlanBeat, inherited_fallback_action_id: Option<&str>) -> (r:
    BuddyResult<CompiledBeatTimelineSteps>)
    ensures
        compiled_view(r) == spec_compile_beat(beat@, opt_str_view(inherited_fallback_action_id)),
    decreases beat, 2int,
{
    match &beat.body {
        BeatPlanBeatBody::Group { group } => {
            compile_group_beat_to_timeline_steps(beat, group, inherited_fallback_action_id)
        },
        BeatPlanBeatBody::FailureBranch { failure_branch } => {
            compile_failure_branch_beat_to_timeline_steps(beat, failure_branch, inherited_fallback_action_id)
        },
        BeatPlanBeatBody::Action { action } => {
            let mut step = action.to_play_action_step();
            let mut used = false;
            if step.fallback_action_id.is_none() {
                match &beat.fallback_action_id {
                    Some(f) => {
                        step.fallback_action_id = Some(f.clone());
                    },
                    None => match inherited_fallback_action_id {
                        Some(f) => {
                            step.fallback_action_id = Some(f.to_owned());
                            used = true;
                        },
                        None => {},
                    },
                }
            }
            single_step(TimelineStep::PlayAction(step), used)
        },
        BeatPlanBeatBody::Target { target } => {
            if beat.fallback_action_id.is_some() {
                return Err(BuddyError::Validation(concat3(
                    "fallbackActionId on beat ",
                    beat.beat_id.as_str(),
                    " can only apply to playAction timeline steps",
                )));
            }
            single_step(TimelineStep::MoveTo(target.to_move_to_step()), false)
        },
        BeatPlanBeatBody::Path { path } => {
            let step = match path.to_move_by_path_step(beat.beat_id.as_str()) {
                Ok(s) => s,
                Err(e) => return Err(e),
            };
            if beat.fallback_action_id.is_some() {
                return Err(BuddyError::Validation(concat3(
                    "fallbackActionId on beat ",
                    beat.beat_id.as_str(),
                    " can only apply to playAction timeline steps",
                )));
            }
            single_step(TimelineStep::MoveByPath(step), false)
        },
        BeatPlanBeatBody::Wait { wait } => {
            if beat.fallback_action_id.is_some() {
                return Err(BuddyError::Validation(concat3(
                    "fallbackActionId on beat ",
                    beat.beat_id.as_str(),
                    " can only apply to playAction timeline steps",
                )));
            }
            single_step(TimelineStep::Wait(wait.to_wait_step()), false)
        },
    }
}

fn first_some<'a>(a: Option<&'a str>, b: Option<&'a str>) -> (r: Option<&'a str>)
    ensures
        opt_str_view(r) == spec_first_some(opt_str_view(a), opt_str_view(b)),
{
    if a.is_some() {
        a
    } else {
        b
    }
}

/// Compiles a group beat: its nested beats, in order, with the group's fallback action or the
/// inherited one.
pub fn compile_group_beat_to_timeline_steps(
    beat: &BeatPlanBeat,
    group: &BeatGroup,
    inherited_fallback_action_id: Option<&str>,
) -> (r: BuddyResult<CompiledBeatTimelineSteps>)
    requires
        beat.body == (BeatPlanBeatBody::Group { group: *group }),
    ensures
        compiled_view(r) == spec_compile_beat(beat@, opt_str_view(inherited_fallback_action_id)),
    decreases beat, 1int,
{
    if group.beats.len() == 0 {
        return Err(BuddyError::Validation(concat3(
            "group beat ",
            beat.beat_id.as_str(),
            " must contain at least one nested beat",
        )));
    }
    let group_fallback = crate::text::opt_as_str(&beat.fallback_action_id);
    let nested = first_some(group_fallback, inherited_fallback_action_id);
    proof {
        assert(decreases_to!(*beat => beat.body));
        assert(decreases_to!(beat.body => group));
        assert(decreases_to!(*group => group.beats));
    }
    let compiled = match compile_nested_beats_to_timeline_steps(&group.beats, nested) {
        Ok(c) => c,
        Err(e) => return Err(e),
    };
    if group_fallback.is_some() && !compiled.used_inherited_fallback {
        return Err(BuddyError::Validation(concat3(
            "fallbackActionId on group beat ",
            beat.beat_id.as_str(),
            " must apply to at least one nested playAction timeline step",
        )));
    }
    Ok(CompiledBeatTimelineSteps {
        steps: compiled.steps,
        used_inherited_fallback: group_fallback.is_none() && compiled.used_inherited_fallback,
    })
}

/// Compiles a failure branch beat to a try step: the primary beats, with the fallback beats
/// that run when they fail.
pub fn compile_failure_branch_beat_to_timeline_steps(
    beat: &BeatPlanBeat,
    failure_branch: &BeatFailureBranch,
    inherited_fallback_action_id: Option<&str>,
) -> (r: BuddyResult<CompiledBeatTimelineSteps>)
    requires
        beat.body == (BeatPlanBeatBody::FailureBranch { failure_branch: *failure_branch }),
    ensures
        compiled_view(r) == spec_compile_beat(beat@, opt_str_view(inherited_fallback_action_id)),
    decreases beat, 1int,
{
    if failure_branch.primary_beats.len() == 0 {
        return Err(BuddyError::Validation(concat3(
            "failure branch beat ",
            beat.beat_id.as_str(),
            " must contain at least one primary nested beat",
        )));
    }
    if failure_branch.fallback_beats.len() == 0 {
        return Err(BuddyError::Validation(concat3(
            "failure branch beat ",
            beat.beat_id.as_str(),
            " must contain at least one fallback nested beat",
        )));
    }
    let branch_fallback = crate::text::opt_as_str(&beat.fallback_action_id);
    let nested = first_some(branch_fallback, inherited_fallback_action_id);
    proof {
        assert(decreases_to!(*beat => beat.body));
        assert(decreases_to!(beat.body => failure_branch));
        assert(decreases_to!(*failure_branch => failure_branch.primary_beats));
        assert(decreases_to!(*failure_branch => failure_branch.fallback_beats));
    }
    let primary = match compile_nested_beats_to_timeline_steps(&failure_branch.primary_beats, nested) {
        Ok(c) => c,
        Err(e) => return Err(e),
    };
    let fallback = match compile_nested_beats_to_timeline_steps(&failure_branch.fallback_beats, nested) {
        Ok(c) => c,
        Err(e) => return Err(e),
    };
    let used_nested = primary.used_inherited_fallback || fallback.used_inherited_fallback;
    if branch_fallback.is_some() && !used_nested {
        return Err(BuddyError::Validation(concat3(
            "fallbackActionId on failure branch beat ",
            beat.beat_id.as_str(),
            " must apply to at least one nested playAction timeline step",
        )));
    }
    let try_step = TimelineStep::Try(TryStep {
        step_id: failure_branch.step_id.clone(),
        kind: "try".to_owned(),
        steps: primary.steps,
        fallback_steps: fallback.steps,
    });
    single_step(try_step, branch_fallback.is_none() && used_nested)
}

proof fn lemma_compile_beats_unfold(beats: Seq<BeatView>, i: int, inherited: Option<Seq<char>>)
    requires
        0 <= i < beats.len(),
    ensures
        spec_compile_beats(beats.skip(i), inherited) == match spec_compile_beat(beats[i], inherited) {
            Err(e) => Err(e),
            Ok((s, u)) => spec_prepend_steps(s, u, spec_compile_beats(beats.skip(i + 1), inherited)),
        },
{
    assert(beats.skip(i)[0] == beats[i]);
    assert(beats.skip(i).drop_first() =~= beats.skip(i + 1));
}

proof fn lemma_prepend_assoc(a: Seq<TimelineStepView>, ua: bool, s: Seq<TimelineStepView>, us: bool, r: BeatCompileResult)
    ensures
        spec_prepend_steps(a, ua, spec_prepend_steps(s, us, r)) == spec_prepend_steps(a + s, ua || us, r),
{
    match r {
        Ok((x, ux)) => {
            assert(a + (s + x) =~= (a + s) + x);
        },
        Err(_) => {},
    }
}

/// Compiles beats in order, each with the inherited fallback action.
#[verifier::loop_isolation(false)]
pub fn compile_nested_beats_to_timeline_steps(
    beats: &Vec<BeatPlanBeat>,
    inherited_fallback_action_id: Option<&str>,
) -> (r: BuddyResult<CompiledBeatTimelineSteps>)
    ensures
        compiled_view(r) == spec_compile_beats(beats_view(beats@), opt_str_view(inherited_fallback_action_id)),
    decreases beats, 0int,
{
    let ghost inh = opt_str_view(inherited_fallback_action_id);
    let ghost v = beats_view(beats@);
    proof {
        lemma_beats_view(beats@);
        lemma_steps_view(Seq::<TimelineStep>::empty());
        assert(v.skip(0) =~= v);
    }
    let mut steps: Vec<TimelineStep> = Vec::new();
    let mut used = false;
    proof {
        match spec_compile_beats(v, inh) {
            Ok((x, ux)) => {
                assert(steps_view(steps@) + x =~= x);
            },
            Err(_) => {},
        }
    }
    let mut i: usize = 0;
    while i < beats.len()
        invariant
            i <= beats@.len(),
            v.len() == beats@.len(),
            spec_compile_beats(v, inh) == spec_prepend_steps(
                steps_view(steps@),
                used,
                spec_compile_beats(v.skip(i as int), inh),
            ),
        decreases beats@.len() - i,
    {
        proof {
            lemma_compile_beats_unfold(v, i as int, inh);
            vstd::std_specs::vec::axiom_vec_index_decreases(*beats, i as int);
        }
        let mut compiled = match compile_beat_to_timeline_steps(&beats[i], inherited_fallback_action_id) {
            Ok(c) => c,
            Err(e) => return Err(e),
        };
        let ghost before = steps@;
        let ghost added = compiled.steps@;
        proof {
            lemma_prepend_assoc(
                steps_view(before),
                used,
                steps_view(added),
                compiled.used_inherited_fallback,
                spec_compile_beats(v.skip(i + 1), inh),
            );
            lemma_steps_view_add(before, added);
        }
        steps.append(&mut compiled.steps);
        used = used || compiled.used_inherited_fallback;
        i = i + 1;
    }
    proof {
        assert(v.skip(i as int).len() == 0);
        assert(steps_view(steps@) + Seq::<TimelineStepView>::empty() =~= steps_view(steps@));
    }
    Ok(CompiledBeatTimelineSteps { steps, used_inherited_fallback: used })
}


pub struct BeatPlanRecoveryView {
    pub step_id: Seq<char>,
    pub recovery_steps: Seq<TimelineStepView>,
}

pub struct BeatPlanView {
    pub plan_id: Seq<char>,
    pub source_ref: crate::json::JsonView,
    pub macro_id: Seq<char>,
    pub fallback_action_id: Option<Seq<char>>,
    pub recovery: Option<BeatPlanRecoveryView>,
    pub beats: Seq<BeatView>,
    pub created_at: Seq<char>,
}

impl View for BeatPlanRecovery {
    type V = BeatPlanRecoveryView;

    open spec fn view(&self) -> BeatPlanRecoveryView {
        BeatPlanRecoveryView { step_id: self.step_id@, recovery_steps: steps_view(self.recovery_steps@) }
    }
}

impl View for BeatPlan {
    type V = BeatPlanView;

    open spec fn view(&self) -> BeatPlanView {
        BeatPlanView {
            plan_id: self.plan_id@,
            source_ref: self.source_ref@,
            macro_id: self.macro_id@,
            fallback_action_id: opt_string_view(self.fallback_action_id),
            recovery: recovery_view(self.recovery),
            beats: beats_view(self.beats@),
            created_at: self.created_at@,
        }
    }
}

pub open spec fn recovery_view(r: Option<BeatPlanRecovery>) -> Option<BeatPlanRecoveryView> {
    match r {
        Some(r) => Some(BeatPlanRecoveryView { step_id: r.step_id@, recovery_steps: steps_view(r.recovery_steps@) }),
        None => None,
    }
}

/// Compiling a beat plan: its beats in order with the plan's fallback action, wrapped in the
/// plan's recovery step when it has one.
pub open spec fn spec_compile_beat_plan(
    plan_id: Seq<char>,
    fallback_action_id: Option<Seq<char>>,
    recovery: Option<BeatPlanRecoveryView>,
    beats: Seq<BeatView>,
) -> Result<Seq<TimelineStepView>, BuddyErrorView> {
    match spec_compile_beats(beats, fallback_action_id) {
        Err(e) => Err(e),
        Ok((steps, used)) => if fallback_action_id is Some && !used {
            Err(BuddyErrorView::Validation(
                "fallbackActionId on beat plan "@ + plan_id
                    + " must apply to at least one playAction timeline step"@,
            ))
        } else {
            match recovery {
                None => Ok(steps),
                Some(r) => if steps.len() == 0 {
                    Err(BuddyErrorView::Validation(
                        "recovery on beat plan "@ + plan_id + " must wrap at least one timeline step"@,
                    ))
                } else if r.recovery_steps.len() == 0 {
                    Err(BuddyErrorView::Validation(
                        "recovery on beat plan "@ + plan_id + " must contain at least one recovery step"@,
                    ))
                } else {
                    Ok(seq![TimelineStepView::Recover {
                        step_id: r.step_id,
                        kind: "recover"@,
                        steps,
                        recovery_steps: r.recovery_steps,
                    }])
                },
            }
        },
    }
}

pub open spec fn steps_result_view(r: BuddyResult<Vec<TimelineStep>>) -> Result<Seq<TimelineStepView>, BuddyErrorView> {
    match r {
        Ok(steps) => Ok(steps_view(steps@)),
        Err(e) => Err(e@),
    }
}

/// Compiles a beat plan to the timeline steps that run it.
pub fn compile_beat_plan_to_timeline_steps(beat_plan: &BeatPlan) -> (r: BuddyResult<Vec<TimelineStep>>)
    ensures
        steps_result_view(r) == spec_compile_beat_plan(
            beat_plan.plan_id@,
            opt_string_view(beat_plan.fallback_action_id),
            recovery_view(beat_plan.recovery),
            beats_view(beat_plan.beats@),
        ),
{
    let fallback = crate::text::opt_as_str(&beat_plan.fallback_action_id);
    let compiled = match compile_nested_beats_to_timeline_steps(&beat_plan.beats, fallback) {
        Ok(c) => c,
        Err(e) => return Err(e),
    };
    if fallback.is_some() && !compiled.used_inherited_fallback {
        return Err(BuddyError::Validation(concat3(
            "fallbackActionId on beat plan ",
            beat_plan.plan_id.as_str(),
            " must apply to at least one playAction timeline step",
        )));
    }
    match &beat_plan.recovery {
        None => Ok(compiled.steps),
        Some(recovery) => {
            proof {
                lemma_steps_view(compiled.steps@);
                lemma_steps_view(recovery.recovery_steps@);
            }
            if compiled.steps.len() == 0 {
                return Err(BuddyError::Validation(concat3(
                    "recovery on beat plan ",
                    beat_plan.plan_id.as_str(),
                    " must wrap at least one timeline step",
                )));
            }
            if recovery.recovery_steps.len() == 0 {
                return Err(BuddyError::Validation(concat3(
                    "recovery on beat plan ",
                    beat_plan.plan_id.as_str(),
                    " must contain at least one recovery step",
                )));
            }
            let step = TimelineStep::Recover(RecoverStep {
                step_id: recovery.step_id.clone(),
                kind: "recover".to_owned(),
                steps: compiled.steps,
                recovery_steps: duplicate_steps(&recovery.recovery_steps),
            });
            match single_step(step, false) {
                Ok(c) => Ok(c.steps),
                Err(e) => Err(e),
            }
        },
    }
}

} // verus!
