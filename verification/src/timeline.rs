use vstd::prelude::*;

use crate::json::JsonValue;
use crate::step_protocol::SidecarPlayActionCompletionBehavior;
use crate::text::{clone_opt_string, opt_as_str, opt_str_view, opt_string_view};

verus! {

/// A timeline plan: steps that run in order, with what happens when one fails.
#[derive(Debug, PartialEq, Eq)]
pub struct TimelinePlan {
    pub plan_id: String,
    pub source_ref: JsonValue,
    pub failure_policy: TimelineFailurePolicy,
    pub steps: Vec<TimelineStep>,
    pub created_at: String,
}

/// The mathematical form of a timeline plan.
pub struct TimelinePlanView {
    pub plan_id: Seq<char>,
    pub source_ref: crate::json::JsonView,
    pub failure_policy: TimelineFailurePolicy,
    pub steps: Seq<TimelineStepView>,
    pub created_at: Seq<char>,
}

impl View for TimelinePlan {
    type V = TimelinePlanView;

    open spec fn view(&self) -> TimelinePlanView {
        TimelinePlanView {
            plan_id: self.plan_id@,
            source_ref: self.source_ref@,
            failure_policy: self.failure_policy,
            steps: steps_view(self.steps@),
            created_at: self.created_at@,
        }
    }
}

impl TimelinePlan {
    /// A copy of the plan with the same content.
    pub fn duplicate(&self) -> (r: Self)
        ensures
            r.plan_id@ == self.plan_id@,
            r.source_ref@ == self.source_ref@,
            r.failure_policy == self.failure_policy,
            steps_view(r.steps@) == steps_view(self.steps@),
            r.created_at@ == self.created_at@,
    {
        TimelinePlan {
            plan_id: self.plan_id.clone(),
            source_ref: self.source_ref.duplicate(),
            failure_policy: self.failure_policy,
            steps: duplicate_steps(&self.steps),
            created_at: self.created_at.clone(),
        }
    }

    /// The number of top-level steps.
    pub fn step_count(&self) -> (n: usize)
        ensures
            n == self.steps@.len(),
    {
        self.steps.len()
    }
}

#[derive(Debug, Clone, Copy, Default, PartialEq, Eq)]
pub enum TimelineFailurePolicy {
    #[default]
    Abort,
    Continue,
}

/// One step of a timeline. Sidecar steps, host steps and planner steps share this type.
#[derive(Debug, PartialEq, Eq)]
pub enum TimelineStep {
    PlayAction(PlayActionStep),
    MoveTo(MoveToStep),
    MoveByPath(MoveByPathStep),
    Wait(WaitStep),
    Skip(SkipStep),
    Repeat(RepeatStep),
    Choose(ChooseStep),
    SetFallback(SetFallbackStep),
    Retry(RetryStep),
    Replace(ReplaceStep),
    Recover(RecoverStep),
    Try(TryStep),
    SnapshotPosition(SnapshotPositionStep),
    RestorePosition(RestorePositionStep),
}

#[derive(Debug, PartialEq, Eq)]
pub struct WaitStep {
    pub step_id: String,
    pub kind: String,
    pub duration_ms: u64,
    pub timeout_ms: u64,
}

#[derive(Debug, PartialEq, Eq)]
pub struct RepeatStep {
    pub step_id: String,
    pub kind: String,
    pub times: u16,
    pub steps: Vec<TimelineStep>,
}

#[derive(Debug, PartialEq, Eq)]
pub struct ChooseStep {
    pub step_id: String,
    pub kind: String,
    pub strategy: String,
    pub options: Vec<ChooseOption>,
}

#[derive(Debug, PartialEq, Eq)]
pub struct ChooseOption {
    pub option_id: String,
    pub weight: u16,
    pub steps: Vec<TimelineStep>,
}

#[derive(Debug, PartialEq, Eq)]
pub struct SetFallbackStep {
    pub step_id: String,
    pub kind: String,
    pub fallback_action_id: String,
    pub steps: Vec<TimelineStep>,
}

#[derive(Debug, PartialEq, Eq)]
pub struct TryStep {
    pub step_id: String,
    pub kind: String,
    pub steps: Vec<TimelineStep>,
    pub fallback_steps: Vec<TimelineStep>,
}

#[derive(Debug, PartialEq, Eq)]
pub struct RetryStep {
    pub step_id: String,
    pub kind: String,
    pub max_attempts: u8,
    pub steps: Vec<TimelineStep>,
}

#[derive(Debug, PartialEq, Eq)]
pub struct ReplaceStep {
    pub step_id: String,
    pub kind: String,
    pub steps: Vec<TimelineStep>,
    pub replacement_steps: Vec<TimelineStep>,
}

#[derive(Debug, PartialEq, Eq)]
pub struct RecoverStep {
    pub step_id: String,
    pub kind: String,
    pub steps: Vec<TimelineStep>,
    pub recovery_steps: Vec<TimelineStep>,
}

#[derive(Debug, Clone, Copy, PartialEq, Eq)]
pub enum TimelineSkipReason {
    BranchNotRequired,
}

#[derive(Debug, PartialEq, Eq)]
pub struct SkipStep {
    pub step_id: String,
    pub kind: String,
    pub reason: TimelineSkipReason,
}

#[derive(Debug, PartialEq, Eq)]
pub struct SnapshotPositionStep {
    pub step_id: String,
    pub kind: String,
    pub snapshot_id: String,
}

#[derive(Debug, PartialEq, Eq)]
pub struct RestorePositionStep {
    pub step_id: String,
    pub kind: String,
    pub snapshot_id: String,
    pub after_action_id: Option<String>,
    pub fallback_after_action_id: Option<String>,
    pub timeout_ms: u64,
}

#[derive(Debug, PartialEq, Eq)]
pub struct PlayActionStep {
    pub step_id: String,
    pub kind: String,
    pub action_id: String,
    pub fallback_action_id: Option<String>,
    pub expected_playback: String,
    pub duration_ms: Option<u64>,
    pub pending_handoff_finalizer_step_id: Option<String>,
    pub completion_behavior: SidecarPlayActionCompletionBehavior,
    pub timeout_ms: u64,
}

#[derive(Debug, PartialEq, Eq)]
pub struct MoveToStep {
    pub step_id: String,
    pub kind: String,
    pub target: MoveTarget,
    pub after_action_id: Option<String>,
    pub fallback_after_action_id: Option<String>,
    pub timeout_ms: u64,
}

#[derive(Debug, PartialEq, Eq)]
pub struct MoveByPathStep {
    pub step_id: String,
    pub kind: String,
    pub path: Vec<MoveTarget>,
    pub after_action_id: Option<String>,
    pub fallback_after_action_id: Option<String>,
    pub timeout_ms: u64,
}

/// Where the pet should move.
#[allow(inconsistent_fields)]
#[derive(Debug, Clone, Copy, PartialEq, Eq)]
pub enum MoveTarget {
    Center,
    Home,
    Edge { edge: MoveEdge },
    EdgeAnchor { edge: MoveEdge, reveal: WindowAnchorReveal, duration_ms: u64 },
    Position { x: i32, y: i32 },
    X { x: i32 },
    WindowAnchor {
        selector: WindowAnchorSelector,
        edge: WindowAnchorEdge,
        reveal: WindowAnchorReveal,
        duration_ms: u64,
    },
}

#[derive(Debug, Clone, Copy, PartialEq, Eq)]
pub enum MoveEdge {
    Left,
    Top,
    Right,
    Bottom,
}

#[derive(Debug, Clone, Copy, PartialEq, Eq)]
pub enum WindowAnchorEdge {
    Auto,
    Left,
    Top,
    Right,
    Bottom,
}

impl WindowAnchorEdge {
    pub open spec fn spec_fallback_screen_edge(self) -> MoveEdge {
        match self {
            WindowAnchorEdge::Auto | WindowAnchorEdge::Left => MoveEdge::Left,
            WindowAnchorEdge::Top => MoveEdge::Top,
            WindowAnchorEdge::Right => MoveEdge::Right,
            WindowAnchorEdge::Bottom => MoveEdge::Bottom,
        }
    }

    /// The screen edge used when the anchored window cannot be found.
    pub fn fallback_screen_edge(self) -> (e: MoveEdge)
        ensures
            e == self.spec_fallback_screen_edge(),
    {
        match self {
            WindowAnchorEdge::Auto | WindowAnchorEdge::Left => MoveEdge::Left,
            WindowAnchorEdge::Top => MoveEdge::Top,
            WindowAnchorEdge::Right => MoveEdge::Right,
            WindowAnchorEdge::Bottom => MoveEdge::Bottom,
        }
    }

    /// The window edge that names the same side as a screen edge.
    pub fn from_move_edge(edge: MoveEdge) -> (e: WindowAnchorEdge)
        ensures
            e != WindowAnchorEdge::Auto,
            e.spec_fallback_screen_edge() == edge,
    {
        match edge {
            MoveEdge::Left => WindowAnchorEdge::Left,
            MoveEdge::Top => WindowAnchorEdge::Top,
            MoveEdge::Right => WindowAnchorEdge::Right,
            MoveEdge::Bottom => WindowAnchorEdge::Bottom,
        }
    }
}

/// The window edge that names the same side as a screen edge.
pub open spec fn spec_window_edge_of(edge: MoveEdge) -> WindowAnchorEdge {
    match edge {
        MoveEdge::Left => WindowAnchorEdge::Left,
        MoveEdge::Top => WindowAnchorEdge::Top,
        MoveEdge::Right => WindowAnchorEdge::Right,
        MoveEdge::Bottom => WindowAnchorEdge::Bottom,
    }
}

impl From<MoveEdge> for WindowAnchorEdge {
    fn from(edge: MoveEdge) -> (e: WindowAnchorEdge) {
        match edge {
            MoveEdge::Left => WindowAnchorEdge::Left,
            MoveEdge::Top => WindowAnchorEdge::Top,
            MoveEdge::Right => WindowAnchorEdge::Right,
            MoveEdge::Bottom => WindowAnchorEdge::Bottom,
        }
    }
}

impl vstd::std_specs::convert::FromSpecImpl<MoveEdge> for WindowAnchorEdge {
    open spec fn obeys_from_spec() -> bool {
        true
    }

    open spec fn from_spec(v: MoveEdge) -> WindowAnchorEdge {
        spec_window_edge_of(v)
    }
}

#[derive(Debug, Clone, Copy, PartialEq, Eq)]
pub struct WindowAnchorSelector {
    pub kind: WindowAnchorSelectorKind,
}

#[derive(Debug, Clone, Copy, PartialEq, Eq)]
pub enum WindowAnchorSelectorKind {
    ActiveWindow,
}

#[derive(Debug, Clone, Copy, PartialEq, Eq)]
pub enum WindowAnchorReveal {
    Head,
}

// ---------------------------------------------------------------------------
// Mathematical forms of the steps.
// ---------------------------------------------------------------------------

pub struct PlayActionStepView {
    pub step_id: Seq<char>,
    pub kind: Seq<char>,
    pub action_id: Seq<char>,
    pub fallback_action_id: Option<Seq<char>>,
    pub expected_playback: Seq<char>,
    pub duration_ms: Option<u64>,
    pub pending_handoff_finalizer_step_id: Option<Seq<char>>,
    pub completion_behavior: SidecarPlayActionCompletionBehavior,
    pub timeout_ms: u64,
}

pub struct MoveToStepView {
    pub step_id: Seq<char>,
    pub kind: Seq<char>,
    pub target: MoveTarget,
    pub after_action_id: Option<Seq<char>>,
    pub fallback_after_action_id: Option<Seq<char>>,
    pub timeout_ms: u64,
}

pub struct MoveByPathStepView {
    pub step_id: Seq<char>,
    pub kind: Seq<char>,
    pub path: Seq<MoveTarget>,
    pub after_action_id: Option<Seq<char>>,
    pub fallback_after_action_id: Option<Seq<char>>,
    pub timeout_ms: u64,
}

pub struct WaitStepView {
    pub step_id: Seq<char>,
    pub kind: Seq<char>,
    pub duration_ms: u64,
    pub timeout_ms: u64,
}

pub struct SkipStepView {
    pub step_id: Seq<char>,
    pub kind: Seq<char>,
    pub reason: TimelineSkipReason,
}

pub struct SnapshotPositionStepView {
    pub step_id: Seq<char>,
    pub kind: Seq<char>,
    pub snapshot_id: Seq<char>,
}

pub struct RestorePositionStepView {
    pub step_id: Seq<char>,
    pub kind: Seq<char>,
    pub snapshot_id: Seq<char>,
    pub after_action_id: Option<Seq<char>>,
    pub fallback_after_action_id: Option<Seq<char>>,
    pub timeout_ms: u64,
}

pub struct ChooseOptionView {
    pub option_id: Seq<char>,
    pub weight: u16,
    pub steps: Seq<TimelineStepView>,
}

pub enum TimelineStepView {
    PlayAction(PlayActionStepView),
    MoveTo(MoveToStepView),
    MoveByPath(MoveByPathStepView),
    Wait(WaitStepView),
    Skip(SkipStepView),
    Repeat { step_id: Seq<char>, kind: Seq<char>, times: u16, steps: Seq<TimelineStepView> },
    Choose { step_id: Seq<char>, kind: Seq<char>, strategy: Seq<char>, options: Seq<ChooseOptionView> },
    SetFallback { step_id: Seq<char>, kind: Seq<char>, fallback_action_id: Seq<char>, steps: Seq<TimelineStepView> },
    Retry { step_id: Seq<char>, kind: Seq<char>, max_attempts: u8, steps: Seq<TimelineStepView> },
    Replace { step_id: Seq<char>, kind: Seq<char>, steps: Seq<TimelineStepView>, replacement_steps: Seq<TimelineStepView> },
    Recover { step_id: Seq<char>, kind: Seq<char>, steps: Seq<TimelineStepView>, recovery_steps: Seq<TimelineStepView> },
    Try { step_id: Seq<char>, kind: Seq<char>, steps: Seq<TimelineStepView>, fallback_steps: Seq<TimelineStepView> },
    SnapshotPosition(SnapshotPositionStepView),
    RestorePosition(RestorePositionStepView),
}

impl View for PlayActionStep {
    type V = PlayActionStepView;

    open spec fn view(&self) -> PlayActionStepView {
        PlayActionStepView {
            step_id: self.step_id@,
            kind: self.kind@,
            action_id: self.action_id@,
            fallback_action_id: opt_string_view(self.fallback_action_id),
            expected_playback: self.expected_playback@,
            duration_ms: self.duration_ms,
            pending_handoff_finalizer_step_id: opt_string_view(self.pending_handoff_finalizer_step_id),
            completion_behavior: self.completion_behavior,
            timeout_ms: self.timeout_ms,
        }
    }
}

impl View for MoveToStep {
    type V = MoveToStepView;

    open spec fn view(&self) -> MoveToStepView {
        MoveToStepView {
            step_id: self.step_id@,
            kind: self.kind@,
            target: self.target,
            after_action_id: opt_string_view(self.after_action_id),
            fallback_after_action_id: opt_string_view(self.fallback_after_action_id),
            timeout_ms: self.timeout_ms,
        }
    }
}

impl View for MoveByPathStep {
    type V = MoveByPathStepView;

    open spec fn view(&self) -> MoveByPathStepView {
        MoveByPathStepView {
            step_id: self.step_id@,
            kind: self.kind@,
            path: self.path@,
            after_action_id: opt_string_view(self.after_action_id),
            fallback_after_action_id: opt_string_view(self.fallback_after_action_id),
            timeout_ms: self.timeout_ms,
        }
    }
}

impl View for WaitStep {
    type V = WaitStepView;

    open spec fn view(&self) -> WaitStepView {
        WaitStepView {
            step_id: self.step_id@,
            kind: self.kind@,
            duration_ms: self.duration_ms,
            timeout_ms: self.timeout_ms,
        }
    }
}

impl View for SkipStep {
    type V = SkipStepView;

    open spec fn view(&self) -> SkipStepView {
        SkipStepView { step_id: self.step_id@, kind: self.kind@, reason: self.reason }
    }
}

impl View for SnapshotPositionStep {
    type V = SnapshotPositionStepView;

    open spec fn view(&self) -> SnapshotPositionStepView {
        SnapshotPositionStepView { step_id: self.step_id@, kind: self.kind@, snapshot_id: self.snapshot_id@ }
    }
}

impl View for RestorePositionStep {
    type V = RestorePositionStepView;

    open spec fn view(&self) -> RestorePositionStepView {
        RestorePositionStepView {
            step_id: self.step_id@,
            kind: self.kind@,
            snapshot_id: self.snapshot_id@,
            after_action_id: opt_string_view(self.after_action_id),
            fallback_after_action_id: opt_string_view(self.fallback_after_action_id),
            timeout_ms: self.timeout_ms,
        }
    }
}

/// The mathematical form of a list of steps.
pub open spec fn steps_view(steps: Seq<TimelineStep>) -> Seq<TimelineStepView>
    decreases steps,
{
    Seq::new(
        steps.len(),
        |i: int|
            if 0 <= i < steps.len() {
                step_view(steps[i])
            } else {
                TimelineStepView::Wait(WaitStepView { step_id: Seq::empty(), kind: Seq::empty(), duration_ms: 0, timeout_ms: 0 })
            },
    )
}

pub open spec fn options_view(options: Seq<ChooseOption>) -> Seq<ChooseOptionView>
    decreases options,
{
    Seq::new(
        options.len(),
        |i: int|
            if 0 <= i < options.len() {
                ChooseOptionView {
                    option_id: options[i].option_id@,
                    weight: options[i].weight,
                    steps: steps_view(options[i].steps@),
                }
            } else {
                ChooseOptionView { option_id: Seq::empty(), weight: 0, steps: Seq::empty() }
            },
    )
}

/// The mathematical form of a step.
pub open spec fn step_view(step: TimelineStep) -> TimelineStepView
    decreases step,
{
    match step {
        TimelineStep::PlayAction(s) => TimelineStepView::PlayAction(s@),
        TimelineStep::MoveTo(s) => TimelineStepView::MoveTo(s@),
        TimelineStep::MoveByPath(s) => TimelineStepView::MoveByPath(s@),
        TimelineStep::Wait(s) => TimelineStepView::Wait(s@),
        TimelineStep::Skip(s) => TimelineStepView::Skip(s@),
        TimelineStep::Repeat(s) => TimelineStepView::Repeat {
            step_id: s.step_id@,
            kind: s.kind@,
            times: s.times,
            steps: steps_view(s.steps@),
        },
        TimelineStep::Choose(s) => TimelineStepView::Choose {
            step_id: s.step_id@,
            kind: s.kind@,
            strategy: s.strategy@,
            options: options_view(s.options@),
        },
        TimelineStep::SetFallback(s) => TimelineStepView::SetFallback {
            step_id: s.step_id@,
            kind: s.kind@,
            fallback_action_id: s.fallback_action_id@,
            steps: steps_view(s.steps@),
        },
        TimelineStep::Retry(s) => TimelineStepView::Retry {
            step_id: s.step_id@,
            kind: s.kind@,
            max_attempts: s.max_attempts,
            steps: steps_view(s.steps@),
        },
        TimelineStep::Replace(s) => TimelineStepView::Replace {
            step_id: s.step_id@,
            kind: s.kind@,
            steps: steps_view(s.steps@),
            replacement_steps: steps_view(s.replacement_steps@),
        },
        TimelineStep::Recover(s) => TimelineStepView::Recover {
            step_id: s.step_id@,
            kind: s.kind@,
            steps: steps_view(s.steps@),
            recovery_steps: steps_view(s.recovery_steps@),
        },
        TimelineStep::Try(s) => TimelineStepView::Try {
            step_id: s.step_id@,
            kind: s.kind@,
            steps: steps_view(s.steps@),
            fallback_steps: steps_view(s.fallback_steps@),
        },
        TimelineStep::SnapshotPosition(s) => TimelineStepView::SnapshotPosition(s@),
        TimelineStep::RestorePosition(s) => TimelineStepView::RestorePosition(s@),
    }
}

impl View for TimelineStep {
    type V = TimelineStepView;

    open spec fn view(&self) -> TimelineStepView {
        step_view(*self)
    }
}

/// Each element of a list view is the view of the corresponding step.
pub proof fn lemma_steps_view(steps: Seq<TimelineStep>)
    ensures
        steps_view(steps).len() == steps.len(),
        forall|i: int| 0 <= i < steps.len() ==> #[trigger] steps_view(steps)[i] == step_view(steps[i]),
{
}

/// Views of lists that agree element by element are equal.
pub proof fn lemma_steps_view_ext(a: Seq<TimelineStep>, b: Seq<TimelineStepView>)
    requires
        a.len() == b.len(),
        forall|i: int| 0 <= i < a.len() ==> #[trigger] step_view(a[i]) == b[i],
    ensures
        steps_view(a) == b,
{
    lemma_steps_view(a);
    assert(steps_view(a) =~= b);
}

/// The view of two lists joined is the two views joined.
pub proof fn lemma_steps_view_add(a: Seq<TimelineStep>, b: Seq<TimelineStep>)
    ensures
        steps_view(a + b) == steps_view(a) + steps_view(b),
{
    lemma_steps_view(a);
    lemma_steps_view(b);
    lemma_steps_view(a + b);
    assert(steps_view(a + b) =~= steps_view(a) + steps_view(b));
}

/// A list view after pushing one more step.
pub proof fn lemma_steps_view_push(a: Seq<TimelineStep>, s: TimelineStep)
    ensures
        steps_view(a.push(s)) == steps_view(a).push(step_view(s)),
{
    lemma_steps_view(a);
    lemma_steps_view(a.push(s));
    assert(steps_view(a.push(s)) =~= steps_view(a).push(step_view(s)));
}

impl TimelineStepView {
    pub open spec fn step_id(self) -> Seq<char> {
        match self {
            TimelineStepView::PlayAction(s) => s.step_id,
            TimelineStepView::MoveTo(s) => s.step_id,
            TimelineStepView::MoveByPath(s) => s.step_id,
            TimelineStepView::Wait(s) => s.step_id,
            TimelineStepView::Skip(s) => s.step_id,
            TimelineStepView::Repeat { step_id, .. } => step_id,
            TimelineStepView::Choose { step_id, .. } => step_id,
            TimelineStepView::SetFallback { step_id, .. } => step_id,
            TimelineStepView::Retry { step_id, .. } => step_id,
            TimelineStepView::Replace { step_id, .. } => step_id,
            TimelineStepView::Recover { step_id, .. } => step_id,
            TimelineStepView::Try { step_id, .. } => step_id,
            TimelineStepView::SnapshotPosition(s) => s.step_id,
            TimelineStepView::RestorePosition(s) => s.step_id,
        }
    }

    pub open spec fn kind(self) -> Seq<char> {
        match self {
            TimelineStepView::PlayAction(_) => "playAction"@,
            TimelineStepView::MoveTo(_) => "moveTo"@,
            TimelineStepView::MoveByPath(_) => "moveByPath"@,
            TimelineStepView::Wait(_) => "wait"@,
            TimelineStepView::Skip(_) => "skipStep"@,
            TimelineStepView::Repeat { .. } => "repeat"@,
            TimelineStepView::Choose { .. } => "choose"@,
            TimelineStepView::SetFallback { .. } => "setFallback"@,
            TimelineStepView::Retry { .. } => "retry"@,
            TimelineStepView::Replace { .. } => "replaceStep"@,
            TimelineStepView::Recover { .. } => "recover"@,
            TimelineStepView::Try { .. } => "try"@,
            TimelineStepView::SnapshotPosition(_) => "snapshotPosition"@,
            TimelineStepView::RestorePosition(_) => "restorePosition"@,
        }
    }

    pub open spec fn pending_handoff_finalizer_step_id(self) -> Option<Seq<char>> {
        match self {
            TimelineStepView::PlayAction(s) => s.pending_handoff_finalizer_step_id,
            _ => None,
        }
    }
}

impl TimelineStep {
    /// The id of the step.
    pub fn step_id(&self) -> (id: &str)
        ensures
            id@ == self@.step_id(),
    {
        match self {
            TimelineStep::PlayAction(step) => step.step_id.as_str(),
            TimelineStep::MoveTo(step) => step.step_id.as_str(),
            TimelineStep::MoveByPath(step) => step.step_id.as_str(),
            TimelineStep::Wait(step) => step.step_id.as_str(),
            TimelineStep::Skip(step) => step.step_id.as_str(),
            TimelineStep::Repeat(step) => step.step_id.as_str(),
            TimelineStep::Choose(step) => step.step_id.as_str(),
            TimelineStep::SetFallback(step) => step.step_id.as_str(),
            TimelineStep::Retry(step) => step.step_id.as_str(),
            TimelineStep::Replace(step) => step.step_id.as_str(),
            TimelineStep::Recover(step) => step.step_id.as_str(),
            TimelineStep::Try(step) => step.step_id.as_str(),
            TimelineStep::SnapshotPosition(step) => step.step_id.as_str(),
            TimelineStep::RestorePosition(step) => step.step_id.as_str(),
        }
    }

    /// The wire name of the step kind.
    pub fn kind(&self) -> (k: &'static str)
        ensures
            k@ == self@.kind(),
    {
        match self {
            TimelineStep::PlayAction(_) => "playAction",
            TimelineStep::MoveTo(_) => "moveTo",
            TimelineStep::MoveByPath(_) => "moveByPath",
            TimelineStep::Wait(_) => "wait",
            TimelineStep::Skip(_) => "skipStep",
            TimelineStep::Repeat(_) => "repeat",
            TimelineStep::Choose(_) => "choose",
            TimelineStep::SetFallback(_) => "setFallback",
            TimelineStep::Retry(_) => "retry",
            TimelineStep::Replace(_) => "replaceStep",
            TimelineStep::Recover(_) => "recover",
            TimelineStep::Try(_) => "try",
            TimelineStep::SnapshotPosition(_) => "snapshotPosition",
            TimelineStep::RestorePosition(_) => "restorePosition",
        }
    }

    /// The later step that must run before this play action may hand off to another plan.
    pub fn pending_handoff_finalizer_step_id(&self) -> (id: Option<&str>)
        ensures
            opt_str_view(id) == self@.pending_handoff_finalizer_step_id(),
    {
        match self {
            TimelineStep::PlayAction(step) => opt_as_str(&step.pending_handoff_finalizer_step_id),
            _ => None,
        }
    }

    /// A copy of the step with the same content.
    #[verifier::loop_isolation(false)]
    pub fn duplicate(&self) -> (r: TimelineStep)
        ensures
            r@ == self@,
        decreases self,
    {
        match self {
            TimelineStep::PlayAction(s) => TimelineStep::PlayAction(s.clone()),
            TimelineStep::MoveTo(s) => TimelineStep::MoveTo(s.clone()),
            TimelineStep::MoveByPath(s) => TimelineStep::MoveByPath(s.duplicate()),
            TimelineStep::Wait(s) => TimelineStep::Wait(s.clone()),
            TimelineStep::Skip(s) => TimelineStep::Skip(s.clone()),
            TimelineStep::Repeat(s) => TimelineStep::Repeat(RepeatStep {
                step_id: s.step_id.clone(),
                kind: s.kind.clone(),
                times: s.times,
                steps: duplicate_steps(&s.steps),
            }),
            TimelineStep::Choose(s) => {
                let mut options: Vec<ChooseOption> = Vec::new();
                let mut i: usize = 0;
                while i < s.options.len()
                    invariant
                        i <= s.options@.len(),
                        options@.len() == i,
                        forall|k: int| 0 <= k < i ==> {
                            &&& (#[trigger] options@[k]).option_id == s.options@[k].option_id
                            &&& options@[k].weight == s.options@[k].weight
                            &&& steps_view(options@[k].steps@) == steps_view(s.options@[k].steps@)
                        },
                    decreases s.options@.len() - i,
                {
                    let o = &s.options[i];
                    options.push(ChooseOption { option_id: o.option_id.clone(), weight: o.weight, steps: duplicate_steps(&o.steps) });
                    i = i + 1;
                }
                let r = ChooseStep { step_id: s.step_id.clone(), kind: s.kind.clone(), strategy: s.strategy.clone(), options };
                proof {
                    assert(options_view(r.options@) =~= options_view(s.options@));
                }
                TimelineStep::Choose(r)
            },
            TimelineStep::SetFallback(s) => TimelineStep::SetFallback(SetFallbackStep {
                step_id: s.step_id.clone(),
                kind: s.kind.clone(),
                fallback_action_id: s.fallback_action_id.clone(),
                steps: duplicate_steps(&s.steps),
            }),
            TimelineStep::Retry(s) => TimelineStep::Retry(RetryStep {
                step_id: s.step_id.clone(),
                kind: s.kind.clone(),
                max_attempts: s.max_attempts,
                steps: duplicate_steps(&s.steps),
            }),
            TimelineStep::Replace(s) => TimelineStep::Replace(ReplaceStep {
                step_id: s.step_id.clone(),
                kind: s.kind.clone(),
                steps: duplicate_steps(&s.steps),
                replacement_steps: duplicate_steps(&s.replacement_steps),
            }),
            TimelineStep::Recover(s) => TimelineStep::Recover(RecoverStep {
                step_id: s.step_id.clone(),
                kind: s.kind.clone(),
                steps: duplicate_steps(&s.steps),
                recovery_steps: duplicate_steps(&s.recovery_steps),
            }),
            TimelineStep::Try(s) => TimelineStep::Try(TryStep {
                step_id: s.step_id.clone(),
                kind: s.kind.clone(),
                steps: duplicate_steps(&s.steps),
                fallback_steps: duplicate_steps(&s.fallback_steps),
            }),
            TimelineStep::SnapshotPosition(s) => TimelineStep::SnapshotPosition(s.clone()),
            TimelineStep::RestorePosition(s) => TimelineStep::RestorePosition(s.clone()),
        }
    }
}

/// A copy of a list of steps with the same content.
pub fn duplicate_steps(steps: &Vec<TimelineStep>) -> (r: Vec<TimelineStep>)
    ensures
        steps_view(r@) == steps_view(steps@),
    decreases steps,
{
    let mut out: Vec<TimelineStep> = Vec::new();
    let mut i: usize = 0;
    while i < steps.len()
        invariant
            i <= steps@.len(),
            out@.len() == i,
            forall|k: int| 0 <= k < i ==> #[trigger] step_view(out@[k]) == step_view(steps@[k]),
        decreases steps@.len() - i,
    {
        proof {
            vstd::std_specs::vec::axiom_vec_index_decreases(*steps, i as int);
        }
        let c = steps[i].duplicate();
        out.push(c);
        i = i + 1;
    }
    proof {
        lemma_steps_view(steps@);
        lemma_steps_view_ext(out@, steps_view(steps@));
    }
    out
}

impl Clone for PlayActionStep {
    fn clone(&self) -> (r: Self)
        ensures
            r == *self,
    {
        PlayActionStep {
            step_id: self.step_id.clone(),
            kind: self.kind.clone(),
            action_id: self.action_id.clone(),
            fallback_action_id: clone_opt_string(&self.fallback_action_id),
            expected_playback: self.expected_playback.clone(),
            duration_ms: self.duration_ms,
            pending_handoff_finalizer_step_id: clone_opt_string(&self.pending_handoff_finalizer_step_id),
            completion_behavior: self.completion_behavior,
            timeout_ms: self.timeout_ms,
        }
    }
}

impl Clone for MoveToStep {
    fn clone(&self) -> (r: Self)
        ensures
            r == *self,
    {
        MoveToStep {
            step_id: self.step_id.clone(),
            kind: self.kind.clone(),
            target: self.target,
            after_action_id: clone_opt_string(&self.after_action_id),
            fallback_after_action_id: clone_opt_string(&self.fallback_after_action_id),
            timeout_ms: self.timeout_ms,
        }
    }
}

impl MoveByPathStep {
    /// A copy of the step with the same content.
    pub fn duplicate(&self) -> (r: Self)
        ensures
            r@ == self@,
    {
        let path = copy_move_targets(&self.path);
        MoveByPathStep {
            step_id: self.step_id.clone(),
            kind: self.kind.clone(),
            path,
            after_action_id: clone_opt_string(&self.after_action_id),
            fallback_after_action_id: clone_opt_string(&self.fallback_after_action_id),
            timeout_ms: self.timeout_ms,
        }
    }
}

/// A copy of a list of move targets.
pub fn copy_move_targets(targets: &Vec<MoveTarget>) -> (r: Vec<MoveTarget>)
    ensures
        r@ == targets@,
{
    let mut out: Vec<MoveTarget> = Vec::new();
    let mut i: usize = 0;
    while i < targets.len()
        invariant
            i <= targets@.len(),
            out@ == targets@.subrange(0, i as int),
        decreases targets@.len() - i,
    {
        out.push(targets[i]);
        i = i + 1;
        assert(out@ =~= targets@.subrange(0, i as int));
    }
    assert(out@ =~= targets@);
    out
}

impl Clone for WaitStep {
    fn clone(&self) -> (r: Self)
        ensures
            r == *self,
    {
        WaitStep { step_id: self.step_id.clone(), kind: self.kind.clone(), duration_ms: self.duration_ms, timeout_ms: self.timeout_ms }
    }
}

impl Clone for SkipStep {
    fn clone(&self) -> (r: Self)
        ensures
            r == *self,
    {
        SkipStep { step_id: self.step_id.clone(), kind: self.kind.clone(), reason: self.reason }
    }
}

impl Clone for SnapshotPositionStep {
    fn clone(&self) -> (r: Self)
        ensures
            r == *self,
    {
        SnapshotPositionStep { step_id: self.step_id.clone(), kind: self.kind.clone(), snapshot_id: self.snapshot_id.clone() }
    }
}

impl Clone for RestorePositionStep {
    fn clone(&self) -> (r: Self)
        ensures
            r == *self,
    {
        RestorePositionStep {
            step_id: self.step_id.clone(),
            kind: self.kind.clone(),
            snapshot_id: self.snapshot_id.clone(),
            after_action_id: clone_opt_string(&self.after_action_id),
            fallback_after_action_id: clone_opt_string(&self.fallback_after_action_id),
            timeout_ms: self.timeout_ms,
        }
    }
}

impl WaitStep {
    /// A host-side wait of `duration_ms`.
    pub fn new(step_id: &str, duration_ms: u64, timeout_ms: u64) -> (r: Self)
        ensures
            r@ == (WaitStepView { step_id: step_id@, kind: "wait"@, duration_ms, timeout_ms }),
    {
        WaitStep { step_id: step_id.to_owned(), kind: "wait".to_owned(), duration_ms, timeout_ms }
    }
}

impl PlayActionStep {
    /// A play action that runs its animation once.
    pub fn once(step_id: &str, action_id: &str, timeout_ms: u64) -> (r: Self)
        ensures
            r@ == (PlayActionStepView {
                step_id: step_id@,
                kind: "playAction"@,
                action_id: action_id@,
                fallback_action_id: None,
                expected_playback: "once"@,
                duration_ms: None,
                pending_handoff_finalizer_step_id: None,
                completion_behavior: SidecarPlayActionCompletionBehavior::RestoreIdle,
                timeout_ms,
            }),
    {
        PlayActionStep {
            step_id: step_id.to_owned(),
            kind: "playAction".to_owned(),
            action_id: action_id.to_owned(),
            fallback_action_id: None,
            expected_playback: "once".to_owned(),
            duration_ms: None,
            pending_handoff_finalizer_step_id: None,
            completion_behavior: SidecarPlayActionCompletionBehavior::RestoreIdle,
            timeout_ms,
        }
    }

    /// A play action that loops its animation for `duration_ms`.
    pub fn loop_for_duration(step_id: &str, action_id: &str, duration_ms: u64, timeout_ms: u64) -> (r: Self)
        ensures
            r@ == (PlayActionStepView {
                step_id: step_id@,
                kind: "playAction"@,
                action_id: action_id@,
                fallback_action_id: None,
                expected_playback: "loopForDuration"@,
                duration_ms: Some(duration_ms),
                pending_handoff_finalizer_step_id: None,
                completion_behavior: SidecarPlayActionCompletionBehavior::RestoreIdle,
                timeout_ms,
            }),
    {
        PlayActionStep {
            step_id: step_id.to_owned(),
            kind: "playAction".to_owned(),
            action_id: action_id.to_owned(),
            fallback_action_id: None,
            expected_playback: "loopForDuration".to_owned(),
            duration_ms: Some(duration_ms),
            pending_handoff_finalizer_step_id: None,
            completion_behavior: SidecarPlayActionCompletionBehavior::RestoreIdle,
            timeout_ms,
        }
    }
}

pub open spec fn spec_move_to(step_id: Seq<char>, target: MoveTarget, timeout_ms: u64) -> MoveToStepView {
    MoveToStepView {
        step_id,
        kind: "moveTo"@,
        target,
        after_action_id: None,
        fallback_after_action_id: None,
        timeout_ms,
    }
}

impl MoveToStep {
    /// A move to one of the screen edges.
    pub fn edge(step_id: &str, edge: MoveEdge, timeout_ms: u64) -> (r: Self)
        ensures
            r@ == spec_move_to(step_id@, MoveTarget::Edge { edge }, timeout_ms),
    {
        Self::new(step_id, MoveTarget::Edge { edge }, timeout_ms)
    }

    /// A move to the center of the screen.
    pub fn center(step_id: &str, timeout_ms: u64) -> (r: Self)
        ensures
            r@ == spec_move_to(step_id@, MoveTarget::Center, timeout_ms),
    {
        Self::new(step_id, MoveTarget::Center, timeout_ms)
    }

    /// A move to the pet's home position.
    pub fn home(step_id: &str, timeout_ms: u64) -> (r: Self)
        ensures
            r@ == spec_move_to(step_id@, MoveTarget::Home, timeout_ms),
    {
        Self::new(step_id, MoveTarget::Home, timeout_ms)
    }

    /// A move to an exact screen position.
    pub fn position(step_id: &str, x: i32, y: i32, timeout_ms: u64) -> (r: Self)
        ensures
            r@ == spec_move_to(step_id@, MoveTarget::Position { x, y }, timeout_ms),
    {
        Self::new(step_id, MoveTarget::Position { x, y }, timeout_ms)
    }

    /// A horizontal move to column `x`.
    pub fn x(step_id: &str, x: i32, timeout_ms: u64) -> (r: Self)
        ensures
            r@ == spec_move_to(step_id@, MoveTarget::X { x }, timeout_ms),
    {
        Self::new(step_id, MoveTarget::X { x }, timeout_ms)
    }

    /// A move to any target.
    pub fn target(step_id: &str, target: MoveTarget, timeout_ms: u64) -> (r: Self)
        ensures
            r@ == spec_move_to(step_id@, target, timeout_ms),
    {
        Self::new(step_id, target, timeout_ms)
    }

    /// A move to an edge of a window, revealing part of the pet.
    pub fn window_anchor(
        step_id: &str,
        selector: WindowAnchorSelector,
        edge: WindowAnchorEdge,
        reveal: WindowAnchorReveal,
        duration_ms: u64,
        timeout_ms: u64,
    ) -> (r: Self)
        ensures
            r@ == spec_move_to(
                step_id@,
                MoveTarget::WindowAnchor { selector, edge, reveal, duration_ms },
                timeout_ms,
            ),
    {
        Self::new(step_id, MoveTarget::WindowAnchor { selector, edge, reveal, duration_ms }, timeout_ms)
    }

    /// A move home that settles into `after_action_id`.
    pub fn home_with_after_action(step_id: &str, after_action_id: &str, timeout_ms: u64) -> (r: Self)
        ensures
            r@ == (MoveToStepView {
                after_action_id: Some(after_action_id@),
                ..spec_move_to(step_id@, MoveTarget::Home, timeout_ms)
            }),
    {
        let mut step = Self::home(step_id, timeout_ms);
        step.after_action_id = Some(after_action_id.to_owned());
        step
    }

    /// A move home that settles into `after_action_id`, or `fallback_after_action_id` when that
    /// action cannot be resolved.
    pub fn home_with_after_action_fallback(
        step_id: &str,
        after_action_id: &str,
        fallback_after_action_id: &str,
        timeout_ms: u64,
    ) -> (r: Self)
        ensures
            r@ == (MoveToStepView {
                after_action_id: Some(after_action_id@),
                fallback_after_action_id: Some(fallback_after_action_id@),
                ..spec_move_to(step_id@, MoveTarget::Home, timeout_ms)
            }),
    {
        let mut step = Self::home_with_after_action(step_id, after_action_id, timeout_ms);
        step.fallback_after_action_id = Some(fallback_after_action_id.to_owned());
        step
    }

    /// A move with no after action.
    pub fn new(step_id: &str, target: MoveTarget, timeout_ms: u64) -> (r: Self)
        ensures
            r@ == spec_move_to(step_id@, target, timeout_ms),
    {
        MoveToStep {
            step_id: step_id.to_owned(),
            kind: "moveTo".to_owned(),
            target,
            after_action_id: None,
            fallback_after_action_id: None,
            timeout_ms,
        }
    }
}

impl MoveByPathStep {
    /// A move through the targets of `path`, in order, with no after action.
    pub fn new(step_id: &str, path: Vec<MoveTarget>, timeout_ms: u64) -> (r: Self)
        ensures
            r@ == (MoveByPathStepView {
                step_id: step_id@,
                kind: "moveByPath"@,
                path: path@,
                after_action_id: None,
                fallback_after_action_id: None,
                timeout_ms,
            }),
    {
        MoveByPathStep {
            step_id: step_id.to_owned(),
            kind: "moveByPath".to_owned(),
            path,
            after_action_id: None,
            fallback_after_action_id: None,
            timeout_ms,
        }
    }
}

} // verus!
