use vstd::prelude::*;

use crate::beat_plan::{
    spec_compile_beat, spec_compile_beat_plan, spec_compile_beats,
    beats_view, lemma_beats_view, BeatAction, BeatActionView, BeatKind, BeatPlan, BeatPlanBeat,
    BeatPlanBeatBody, BeatPlanRecovery, BeatPlanRecoveryView, BeatPlanView, BeatTarget,
    BeatTargetView, BeatView,
};
use crate::error::{BuddyError, BuddyErrorView, BuddyResult};
use crate::json::{JsonValue, JsonView};
use crate::step_protocol::SidecarPlayActionCompletionBehavior;
use crate::text::{concat_str, concat3, decimal_string, opt_str_view, opt_to_owned, spec_decimal, str_eq};
use crate::timeline::{
    lemma_steps_view, steps_view, MoveEdge, MoveTarget, MoveToStep, MoveToStepView, PlayActionStep,
    PlayActionStepView, RecoverStep, TimelineStep, TimelineStepView, WindowAnchorEdge,
    WindowAnchorReveal, WindowAnchorSelector, spec_move_to,
};

verus! {

pub const MOVE_TO_STEP_TIMEOUT_MS: u64 = 15_000;

pub const PUBLIC_DANCE_DURATION_MS_MIN: u64 = 1_000;

pub const PUBLIC_DANCE_DURATION_MS_MAX: u64 = 30_000;

pub const PUBLIC_PATROL_AROUND_SCREEN_LOOPS_MIN: u8 = 1;

pub const PUBLIC_PATROL_AROUND_SCREEN_LOOPS_MAX: u8 = 4;

pub const PUBLIC_PEEK_BEHIND_WINDOW_DURATION_MS_MIN: u64 = 500;

pub const PUBLIC_PEEK_BEHIND_WINDOW_DURATION_MS_MAX: u64 = 15_000;

/// The macro ids that callers outside the runtime may request, in their registered order.
pub open spec fn spec_public_macro_intent_ids() -> Seq<Seq<char>> {
    seq![
        "celebrate"@,
        "dance"@,
        "lieDown"@,
        "patrolAroundScreen"@,
        "reassure"@,
        "sad"@,
        "thinking"@,
        "working"@,
        "curious"@,
        "awaitApproval"@,
        "getUp"@,
        "peekFromEdge"@,
        "peekBehindWindow"@,
        "cast"@,
    ]
}

/// The macro ids that callers outside the runtime may request, in their registered order.
pub fn public_macro_intent_ids() -> (r: Vec<&'static str>)
    ensures
        r@.map_values(|s: &'static str| s@) == spec_public_macro_intent_ids(),
{
    let r = vec![
        "celebrate",
        "dance",
        "lieDown",
        "patrolAroundScreen",
        "reassure",
        "sad",
        "thinking",
        "working",
        "curious",
        "awaitApproval",
        "getUp",
        "peekFromEdge",
        "peekBehindWindow",
        "cast",
    ];
    assert(r@.map_values(|s: &'static str| s@) =~= spec_public_macro_intent_ids());
    r
}

/// True exactly when `macro_id` is one of the registered public macro ids, character for
/// character.
pub fn is_public_macro_intent_id(macro_id: &str) -> (r: bool)
    ensures
        r == spec_public_macro_intent_ids().contains(macro_id@),
{
    let ids = public_macro_intent_ids();
    let ghost spec_ids = spec_public_macro_intent_ids();
    let mut i: usize = 0;
    while i < ids.len()
        invariant
            0 <= i <= ids@.len(),
            ids@.map_values(|s: &'static str| s@) == spec_ids,
            spec_ids == spec_public_macro_intent_ids(),
            forall|j: int| 0 <= j < i ==> spec_ids[j] != macro_id@,
        decreases ids@.len() - i,
    {
        assert(spec_ids[i as int] == ids@[i as int]@);
        if str_eq(ids[i], macro_id) {
            assert(spec_ids[i as int] == macro_id@);
            return true;
        }
        i = i + 1;
    }
    assert(!spec_ids.contains(macro_id@));
    false
}

#[derive(Debug, Clone, Copy, PartialEq, Eq, Default)]
pub struct CelebrateMacroParams {}

#[derive(Debug, Clone, Copy, PartialEq, Eq)]
pub struct DanceMacroParams {
    pub duration_ms: u64,
}

#[derive(Debug, Clone, Copy, PartialEq, Eq, Default)]
pub struct LieDownMacroParams {}

#[derive(Debug, Clone, Copy, PartialEq, Eq)]
pub struct PatrolAroundScreenMacroParams {
    pub loops: u8,
}

#[derive(Debug, Clone, Copy, PartialEq, Eq, Default)]
pub struct ReassureMacroParams {}

#[derive(Debug, Clone, Copy, PartialEq, Eq, Default)]
pub struct SadMacroParams {}

#[derive(Debug, Clone, Copy, PartialEq, Eq, Default)]
pub struct ThinkingMacroParams {}

#[derive(Debug, Clone, Copy, PartialEq, Eq, Default)]
pub struct WorkingMacroParams {}

#[derive(Debug, Clone, Copy, PartialEq, Eq, Default)]
pub struct CuriousMacroParams {}

#[derive(Debug, Clone, Copy, PartialEq, Eq, Default)]
pub struct AwaitApprovalMacroParams {}

#[derive(Debug, Clone, Copy, PartialEq, Eq)]
pub struct GetUpMacroParams {
    pub side: GetUpSide,
}

#[derive(Debug, Clone, Copy, PartialEq, Eq)]
pub struct PeekFromEdgeMacroParams {
    pub edge: MoveEdge,
}

#[derive(Debug, Clone, Copy, PartialEq, Eq)]
pub struct PeekBehindWindowMacroParams {
    pub window_selector: WindowAnchorSelector,
    pub edge: WindowAnchorEdge,
    pub reveal: WindowAnchorReveal,
    pub duration_ms: u64,
}

#[derive(Debug, Clone, Copy, PartialEq, Eq, Default)]
pub struct CastMacroParams {}

/// A high-level choreography request, named by its macro id, with its parameters.
#[derive(Debug, Clone, Copy, PartialEq, Eq)]
pub enum MacroIntent {
    Celebrate(CelebrateMacroParams),
    Dance(DanceMacroParams),
    LieDown(LieDownMacroParams),
    PatrolAroundScreen(PatrolAroundScreenMacroParams),
    Reassure(ReassureMacroParams),
    Sad(SadMacroParams),
    Thinking(ThinkingMacroParams),
    Working(WorkingMacroParams),
    Curious(CuriousMacroParams),
    AwaitApproval(AwaitApprovalMacroParams),
    GetUp(GetUpMacroParams),
    PeekFromEdge(PeekFromEdgeMacroParams),
    PeekBehindWindow(PeekBehindWindowMacroParams),
    Cast(CastMacroParams),
}

/// The side the pet gets up on after a throw.
#[derive(Debug, Clone, Copy, PartialEq, Eq)]
pub enum GetUpSide {
    Left,
    Right,
}

impl GetUpSide {
    pub open spec fn spec_action_id(self) -> Seq<char> {
        match self {
            GetUpSide::Left => "throw_after_drag.get_up.left"@,
            GetUpSide::Right => "throw_after_drag.get_up.right"@,
        }
    }

    /// The action that plays the get-up animation on this side.
    pub fn action_id(self) -> (r: &'static str)
        ensures
            r@ == self.spec_action_id(),
    {
        match self {
            GetUpSide::Left => "throw_after_drag.get_up.left",
            GetUpSide::Right => "throw_after_drag.get_up.right",
        }
    }
}

impl MacroIntent {
    pub open spec fn spec_macro_id(self) -> Seq<char> {
        match self {
            MacroIntent::Celebrate(_) => "celebrate"@,
            MacroIntent::Dance(_) => "dance"@,
            MacroIntent::LieDown(_) => "lieDown"@,
            MacroIntent::PatrolAroundScreen(_) => "patrolAroundScreen"@,
            MacroIntent::Reassure(_) => "reassure"@,
            MacroIntent::Sad(_) => "sad"@,
            MacroIntent::Thinking(_) => "thinking"@,
            MacroIntent::Working(_) => "working"@,
            MacroIntent::Curious(_) => "curious"@,
            MacroIntent::AwaitApproval(_) => "awaitApproval"@,
            MacroIntent::GetUp(_) => "getUp"@,
            MacroIntent::PeekFromEdge(_) => "peekFromEdge"@,
            MacroIntent::PeekBehindWindow(_) => "peekBehindWindow"@,
            MacroIntent::Cast(_) => "cast"@,
        }
    }

    /// The macro id of the intent.
    pub fn macro_id(&self) -> (r: &'static str)
        ensures
            r@ == self.spec_macro_id(),
    {
        match self {
            MacroIntent::Celebrate(_) => "celebrate",
            MacroIntent::Dance(_) => "dance",
            MacroIntent::LieDown(_) => "lieDown",
            MacroIntent::PatrolAroundScreen(_) => "patrolAroundScreen",
            MacroIntent::Reassure(_) => "reassure",
            MacroIntent::Sad(_) => "sad",
            MacroIntent::Thinking(_) => "thinking",
            MacroIntent::Working(_) => "working",
            MacroIntent::Curious(_) => "curious",
            MacroIntent::AwaitApproval(_) => "awaitApproval",
            MacroIntent::GetUp(_) => "getUp",
            MacroIntent::PeekFromEdge(_) => "peekFromEdge",
            MacroIntent::PeekBehindWindow(_) => "peekBehindWindow",
            MacroIntent::Cast(_) => "cast",
        }
    }
}

/// Whether the parameters of a public intent are in their allowed ranges.
pub open spec fn spec_public_macro_intent_params_valid(intent: MacroIntent) -> bool {
    &&& spec_public_macro_intent_ids().contains(intent.spec_macro_id())
    &&& match intent {
        MacroIntent::Dance(p) => PUBLIC_DANCE_DURATION_MS_MIN <= p.duration_ms
            <= PUBLIC_DANCE_DURATION_MS_MAX,
        MacroIntent::PatrolAroundScreen(p) => PUBLIC_PATROL_AROUND_SCREEN_LOOPS_MIN <= p.loops
            <= PUBLIC_PATROL_AROUND_SCREEN_LOOPS_MAX,
        MacroIntent::PeekBehindWindow(p) => PUBLIC_PEEK_BEHIND_WINDOW_DURATION_MS_MIN
            <= p.duration_ms <= PUBLIC_PEEK_BEHIND_WINDOW_DURATION_MS_MAX,
        _ => true,
    }
}

/// True when the intent is public and its parameters are in their allowed ranges.
pub fn is_public_macro_intent_params_valid(intent: &MacroIntent) -> (r: bool)
    ensures
        r == spec_public_macro_intent_params_valid(*intent),
{
    if !is_public_macro_intent_id(intent.macro_id()) {
        return false;
    }
    match intent {
        MacroIntent::Dance(p) => PUBLIC_DANCE_DURATION_MS_MIN <= p.duration_ms && p.duration_ms
            <= PUBLIC_DANCE_DURATION_MS_MAX,
        MacroIntent::PatrolAroundScreen(p) => PUBLIC_PATROL_AROUND_SCREEN_LOOPS_MIN <= p.loops
            && p.loops <= PUBLIC_PATROL_AROUND_SCREEN_LOOPS_MAX,
        MacroIntent::PeekBehindWindow(p) => PUBLIC_PEEK_BEHIND_WINDOW_DURATION_MS_MIN
            <= p.duration_ms && p.duration_ms <= PUBLIC_PEEK_BEHIND_WINDOW_DURATION_MS_MAX,
        _ => true,
    }
}

/// A fallback to another macro when a macro's timeline fails in a known way.
#[derive(Debug, Clone, Copy, PartialEq, Eq)]
pub enum MacroSemanticFallback {
    WindowAnchorTargetUnavailableToPeekFromEdge,
    AwaitApprovalActionFailedToThinking,
    CelebrateActionFailedToReassure,
    CastActionFailedToCelebrate,
    CuriousActionFailedToThinking,
    DanceActionFailedToCelebrate,
    GetUpActionFailedToReassure,
    ReassureActionFailedToLieDown,
    SadActionFailedToReassure,
    ThinkingActionFailedToCurious,
    WorkingActionFailedToThinking,
}

impl MacroSemanticFallback {
    pub open spec fn spec_trigger_reason_code(self) -> Seq<char> {
        match self {
            MacroSemanticFallback::WindowAnchorTargetUnavailableToPeekFromEdge => {
                "semanticFallback.windowAnchorTargetUnavailable"@
            },
            MacroSemanticFallback::AwaitApprovalActionFailedToThinking => {
                "semanticFallback.awaitApprovalActionFailed"@
            },
            MacroSemanticFallback::CelebrateActionFailedToReassure => {
                "semanticFallback.celebrateActionFailed"@
            },
            MacroSemanticFallback::CastActionFailedToCelebrate => "semanticFallback.castActionFailed"@,
            MacroSemanticFallback::CuriousActionFailedToThinking => {
                "semanticFallback.curiousActionFailed"@
            },
            MacroSemanticFallback::DanceActionFailedToCelebrate => "semanticFallback.danceActionFailed"@,
            MacroSemanticFallback::GetUpActionFailedToReassure => "semanticFallback.getUpActionFailed"@,
            MacroSemanticFallback::ReassureActionFailedToLieDown => {
                "semanticFallback.reassureActionFailed"@
            },
            MacroSemanticFallback::SadActionFailedToReassure => "semanticFallback.sadActionFailed"@,
            MacroSemanticFallback::ThinkingActionFailedToCurious => {
                "semanticFallback.thinkingActionFailed"@
            },
            MacroSemanticFallback::WorkingActionFailedToThinking => {
                "semanticFallback.workingActionFailed"@
            },
        }
    }

    /// The reason code recorded when this fallback is triggered.
    pub fn trigger_reason_code(self) -> (r: &'static str)
        ensures
            r@ == self.spec_trigger_reason_code(),
    {
        match self {
            MacroSemanticFallback::WindowAnchorTargetUnavailableToPeekFromEdge => {
                "semanticFallback.windowAnchorTargetUnavailable"
            },
            MacroSemanticFallback::AwaitApprovalActionFailedToThinking => {
                "semanticFallback.awaitApprovalActionFailed"
            },
            MacroSemanticFallback::CelebrateActionFailedToReassure => {
                "semanticFallback.celebrateActionFailed"
            },
            MacroSemanticFallback::CastActionFailedToCelebrate => "semanticFallback.castActionFailed",
            MacroSemanticFallback::CuriousActionFailedToThinking => {
                "semanticFallback.curiousActionFailed"
            },
            MacroSemanticFallback::DanceActionFailedToCelebrate => "semanticFallback.danceActionFailed",
            MacroSemanticFallback::GetUpActionFailedToReassure => "semanticFallback.getUpActionFailed",
            MacroSemanticFallback::ReassureActionFailedToLieDown => {
                "semanticFallback.reassureActionFailed"
            },
            MacroSemanticFallback::SadActionFailedToReassure => "semanticFallback.sadActionFailed",
            MacroSemanticFallback::ThinkingActionFailedToCurious => {
                "semanticFallback.thinkingActionFailed"
            },
            MacroSemanticFallback::WorkingActionFailedToThinking => {
                "semanticFallback.workingActionFailed"
            },
        }
    }

    pub open spec fn spec_fallback_macro_id(self) -> Seq<char> {
        match self {
            MacroSemanticFallback::WindowAnchorTargetUnavailableToPeekFromEdge => "peekFromEdge"@,
            MacroSemanticFallback::AwaitApprovalActionFailedToThinking => "thinking"@,
            MacroSemanticFallback::CelebrateActionFailedToReassure => "reassure"@,
            MacroSemanticFallback::CastActionFailedToCelebrate => "celebrate"@,
            MacroSemanticFallback::CuriousActionFailedToThinking => "thinking"@,
            MacroSemanticFallback::DanceActionFailedToCelebrate => "celebrate"@,
            MacroSemanticFallback::GetUpActionFailedToReassure => "reassure"@,
            MacroSemanticFallback::ReassureActionFailedToLieDown => "lieDown"@,
            MacroSemanticFallback::SadActionFailedToReassure => "reassure"@,
            MacroSemanticFallback::ThinkingActionFailedToCurious => "curious"@,
            MacroSemanticFallback::WorkingActionFailedToThinking => "thinking"@,
        }
    }

    /// The macro that runs in place of the failed one.
    pub fn fallback_macro_id(self) -> (r: &'static str)
        ensures
            r@ == self.spec_fallback_macro_id(),
    {
        match self {
            MacroSemanticFallback::WindowAnchorTargetUnavailableToPeekFromEdge => "peekFromEdge",
            MacroSemanticFallback::AwaitApprovalActionFailedToThinking => "thinking",
            MacroSemanticFallback::CelebrateActionFailedToReassure => "reassure",
            MacroSemanticFallback::CastActionFailedToCelebrate => "celebrate",
            MacroSemanticFallback::CuriousActionFailedToThinking => "thinking",
            MacroSemanticFallback::DanceActionFailedToCelebrate => "celebrate",
            MacroSemanticFallback::GetUpActionFailedToReassure => "reassure",
            MacroSemanticFallback::ReassureActionFailedToLieDown => "lieDown",
            MacroSemanticFallback::SadActionFailedToReassure => "reassure",
            MacroSemanticFallback::ThinkingActionFailedToCurious => "curious",
            MacroSemanticFallback::WorkingActionFailedToThinking => "thinking",
        }
    }
}

/// What happens when a macro's timeline fails.
#[derive(Debug, Clone, Copy, PartialEq, Eq)]
pub enum MacroTimelineFailureFallback {
    SystemRecovery,
    Semantic(MacroSemanticFallback),
}

/// How a macro falls back: the action that stands in for a missing one, and what runs when
/// its timeline fails.
#[derive(Debug, Clone, Copy, PartialEq, Eq)]
pub struct MacroFallbackPolicy {
    pub macro_id: &'static str,
    pub action_fallback_id: Option<&'static str>,
    pub timeline_failure_fallback: MacroTimelineFailureFallback,
}

/// The action that stands in for a macro's missing action, if any.
pub open spec fn spec_action_fallback_id(intent: MacroIntent) -> Option<Seq<char>> {
    match intent {
        MacroIntent::LieDown(_) | MacroIntent::PatrolAroundScreen(_)
        | MacroIntent::PeekFromEdge(_) | MacroIntent::PeekBehindWindow(_) => None,
        MacroIntent::AwaitApproval(_) => Some("thinking"@),
        MacroIntent::Cast(_) => Some("celebrate"@),
        _ => Some("idle"@),
    }
}

/// What runs when a macro's timeline fails.
pub open spec fn spec_timeline_failure_fallback(intent: MacroIntent) -> MacroTimelineFailureFallback {
    match intent {
        MacroIntent::Celebrate(_) => MacroTimelineFailureFallback::Semantic(
            MacroSemanticFallback::CelebrateActionFailedToReassure,
        ),
        MacroIntent::Dance(_) => MacroTimelineFailureFallback::Semantic(
            MacroSemanticFallback::DanceActionFailedToCelebrate,
        ),
        MacroIntent::LieDown(_) => MacroTimelineFailureFallback::SystemRecovery,
        MacroIntent::PatrolAroundScreen(_) => MacroTimelineFailureFallback::SystemRecovery,
        MacroIntent::Reassure(_) => MacroTimelineFailureFallback::Semantic(
            MacroSemanticFallback::ReassureActionFailedToLieDown,
        ),
        MacroIntent::Sad(_) => MacroTimelineFailureFallback::Semantic(
            MacroSemanticFallback::SadActionFailedToReassure,
        ),
        MacroIntent::Thinking(_) => MacroTimelineFailureFallback::Semantic(
            MacroSemanticFallback::ThinkingActionFailedToCurious,
        ),
        MacroIntent::Working(_) => MacroTimelineFailureFallback::Semantic(
            MacroSemanticFallback::WorkingActionFailedToThinking,
        ),
        MacroIntent::Curious(_) => MacroTimelineFailureFallback::Semantic(
            MacroSemanticFallback::CuriousActionFailedToThinking,
        ),
        MacroIntent::AwaitApproval(_) => MacroTimelineFailureFallback::Semantic(
            MacroSemanticFallback::AwaitApprovalActionFailedToThinking,
        ),
        MacroIntent::GetUp(_) => MacroTimelineFailureFallback::Semantic(
            MacroSemanticFallback::GetUpActionFailedToReassure,
        ),
        MacroIntent::PeekFromEdge(_) => MacroTimelineFailureFallback::SystemRecovery,
        MacroIntent::PeekBehindWindow(_) => MacroTimelineFailureFallback::Semantic(
            MacroSemanticFallback::WindowAnchorTargetUnavailableToPeekFromEdge,
        ),
        MacroIntent::Cast(_) => MacroTimelineFailureFallback::Semantic(
            MacroSemanticFallback::CastActionFailedToCelebrate,
        ),
    }
}

/// The fallback policy of a macro.
pub fn macro_fallback_policy(intent: &MacroIntent) -> (r: MacroFallbackPolicy)
    ensures
        r.macro_id@ == intent.spec_macro_id(),
        opt_str_view(r.action_fallback_id) == spec_action_fallback_id(*intent),
        r.timeline_failure_fallback == spec_timeline_failure_fallback(*intent),
{
    let (action_fallback_id, timeline_failure_fallback) = match intent {
        MacroIntent::Celebrate(_) => (
            Some("idle"),
            MacroTimelineFailureFallback::Semantic(
                MacroSemanticFallback::CelebrateActionFailedToReassure,
            ),
        ),
        MacroIntent::Dance(_) => (
            Some("idle"),
            MacroTimelineFailureFallback::Semantic(MacroSemanticFallback::DanceActionFailedToCelebrate),
        ),
        MacroIntent::LieDown(_) => (None, MacroTimelineFailureFallback::SystemRecovery),
        MacroIntent::PatrolAroundScreen(_) => (None, MacroTimelineFailureFallback::SystemRecovery),
        MacroIntent::Reassure(_) => (
            Some("idle"),
            MacroTimelineFailureFallback::Semantic(MacroSemanticFallback::ReassureActionFailedToLieDown),
        ),
        MacroIntent::Sad(_) => (
            Some("idle"),
            MacroTimelineFailureFallback::Semantic(MacroSemanticFallback::SadActionFailedToReassure),
        ),
        MacroIntent::Thinking(_) => (
            Some("idle"),
            MacroTimelineFailureFallback::Semantic(MacroSemanticFallback::ThinkingActionFailedToCurious),
        ),
        MacroIntent::Working(_) => (
            Some("idle"),
            MacroTimelineFailureFallback::Semantic(MacroSemanticFallback::WorkingActionFailedToThinking),
        ),
        MacroIntent::Curious(_) => (
            Some("idle"),
            MacroTimelineFailureFallback::Semantic(MacroSemanticFallback::CuriousActionFailedToThinking),
        ),
        MacroIntent::AwaitApproval(_) => (
            Some("thinking"),
            MacroTimelineFailureFallback::Semantic(
                MacroSemanticFallback::AwaitApprovalActionFailedToThinking,
            ),
        ),
        MacroIntent::GetUp(_) => (
            Some("idle"),
            MacroTimelineFailureFallback::Semantic(MacroSemanticFallback::GetUpActionFailedToReassure),
        ),
        MacroIntent::PeekFromEdge(_) => (None, MacroTimelineFailureFallback::SystemRecovery),
        MacroIntent::PeekBehindWindow(_) => (
            None,
            MacroTimelineFailureFallback::Semantic(
                MacroSemanticFallback::WindowAnchorTargetUnavailableToPeekFromEdge,
            ),
        ),
        MacroIntent::Cast(_) => (
            Some("celebrate"),
            MacroTimelineFailureFallback::Semantic(MacroSemanticFallback::CastActionFailedToCelebrate),
        ),
    };
    MacroFallbackPolicy { macro_id: intent.macro_id(), action_fallback_id, timeline_failure_fallback }
}

/// Law: every semantic fallback names a public macro, and every macro's policy carries its own
/// macro id, which is public.
pub proof fn law_fallbacks_name_public_macros(intent: MacroIntent, fallback: MacroSemanticFallback)
    ensures
        spec_public_macro_intent_ids().contains(fallback.spec_fallback_macro_id()),
        spec_public_macro_intent_ids().contains(intent.spec_macro_id()),
{
    reveal_strlit("celebrate");
    let ids = spec_public_macro_intent_ids();
    assert(ids[0] == "celebrate"@);
    assert(ids[1] == "dance"@);
    assert(ids[2] == "lieDown"@);
    assert(ids[3] == "patrolAroundScreen"@);
    assert(ids[4] == "reassure"@);
    assert(ids[5] == "sad"@);
    assert(ids[6] == "thinking"@);
    assert(ids[7] == "working"@);
    assert(ids[8] == "curious"@);
    assert(ids[9] == "awaitApproval"@);
    assert(ids[10] == "getUp"@);
    assert(ids[11] == "peekFromEdge"@);
    assert(ids[12] == "peekBehindWindow"@);
    assert(ids[13] == "cast"@);
}

/// Law: a semantic fallback never falls back to the macro whose failure it handles.
pub proof fn law_semantic_fallback_changes_macro(intent: MacroIntent)
    ensures
        spec_timeline_failure_fallback(intent) matches MacroTimelineFailureFallback::Semantic(f)
            ==> f.spec_fallback_macro_id() != intent.spec_macro_id(),
{
    reveal_strlit("celebrate");
    reveal_strlit("dance");
    reveal_strlit("reassure");
    reveal_strlit("sad");
    reveal_strlit("thinking");
    reveal_strlit("working");
    reveal_strlit("curious");
    reveal_strlit("awaitApproval");
    reveal_strlit("getUp");
    reveal_strlit("peekFromEdge");
    reveal_strlit("peekBehindWindow");
    reveal_strlit("cast");
    reveal_strlit("lieDown");
    match intent {
        MacroIntent::Celebrate(_) => assert("reassure"@.len() != "celebrate"@.len()),
        MacroIntent::Dance(_) => assert("celebrate"@.len() != "dance"@.len()),
        MacroIntent::Reassure(_) => assert("lieDown"@.len() != "reassure"@.len()),
        MacroIntent::Sad(_) => assert("reassure"@.len() != "sad"@.len()),
        MacroIntent::Thinking(_) => assert("curious"@.len() != "thinking"@.len()),
        MacroIntent::Working(_) => assert("thinking"@[0] != "working"@[0]),
        MacroIntent::Curious(_) => assert("thinking"@.len() != "curious"@.len()),
        MacroIntent::AwaitApproval(_) => assert("thinking"@.len() != "awaitApproval"@.len()),
        MacroIntent::GetUp(_) => assert("reassure"@.len() != "getUp"@.len()),
        MacroIntent::PeekBehindWindow(_) => assert("peekFromEdge"@.len() != "peekBehindWindow"@.len()),
        MacroIntent::Cast(_) => assert("celebrate"@.len() != "cast"@.len()),
        _ => {},
    }
}


// ---------------------------------------------------------------------------
// Step ids derived from a macro's step id.
// ---------------------------------------------------------------------------

/// The id of the primary step under `step_id`.
pub fn primary_step_id(step_id: &str) -> (r: String)
    ensures
        r@ == step_id@ + ".primary"@,
{
    concat_str(step_id, ".primary")
}

/// The id of the recovery step under `step_id`.
pub fn recovery_step_id(step_id: &str) -> (r: String)
    ensures
        r@ == step_id@ + ".recovery"@,
{
    concat_str(step_id, ".recovery")
}

/// The id of the primary step of the recovery under `step_id`.
pub fn recovery_primary_step_id(step_id: &str) -> (r: String)
    ensures
        r@ == step_id@ + ".recovery"@ + ".primary"@,
{
    let recovery = recovery_step_id(step_id);
    concat_str(recovery.as_str(), ".primary")
}

/// The id of the fallback step of the recovery under `step_id`.
pub fn recovery_fallback_step_id(step_id: &str) -> (r: String)
    ensures
        r@ == step_id@ + ".recovery"@ + ".fallback"@,
{
    let recovery = recovery_step_id(step_id);
    concat_str(recovery.as_str(), ".fallback")
}

/// The id of the beat or step at a zero-based index: the base id first, then the base id with
/// the one-based index appended.
pub open spec fn spec_indexed_id(base_id: Seq<char>, zero_based_index: nat) -> Seq<char> {
    if zero_based_index == 0 {
        base_id
    } else {
        base_id + "."@ + spec_decimal(zero_based_index + 1)
    }
}

/// The id of the beat or step at a zero-based index.
pub fn indexed_id(base_id: &str, zero_based_index: usize) -> (r: String)
    requires
        zero_based_index < usize::MAX,
    ensures
        r@ == spec_indexed_id(base_id@, zero_based_index as nat),
{
    if zero_based_index == 0 {
        return base_id.to_owned();
    }
    let n = decimal_string(zero_based_index as u128 + 1);
    concat3(base_id, ".", n.as_str())
}

/// Recovery that moves the pet home to sleep, or sleeps in place when the move fails.
pub open spec fn spec_home_sleep_recovery(step_id: Seq<char>) -> BeatPlanRecoveryView {
    BeatPlanRecoveryView {
        step_id,
        recovery_steps: seq![TimelineStepView::Recover {
            step_id: step_id + ".recovery"@,
            kind: "recover"@,
            steps: seq![TimelineStepView::MoveTo(MoveToStepView {
                after_action_id: Some("sleep"@),
                fallback_after_action_id: Some("idle"@),
                ..spec_move_to(step_id + ".recovery"@ + ".primary"@, MoveTarget::Home, MOVE_TO_STEP_TIMEOUT_MS)
            })],
            recovery_steps: seq![TimelineStepView::PlayAction(spec_sleep_once(step_id + ".recovery"@ + ".fallback"@))],
        }],
    }
}

pub open spec fn spec_sleep_once(step_id: Seq<char>) -> PlayActionStepView {
    PlayActionStepView {
        step_id,
        kind: "playAction"@,
        action_id: "sleep"@,
        fallback_action_id: None,
        expected_playback: "once"@,
        duration_ms: None,
        pending_handoff_finalizer_step_id: None,
        completion_behavior: SidecarPlayActionCompletionBehavior::RestoreIdle,
        timeout_ms: 5_000,
    }
}

fn one_step(step: TimelineStep) -> (r: Vec<TimelineStep>)
    ensures
        steps_view(r@) == seq![crate::timeline::step_view(step)],
{
    let mut v: Vec<TimelineStep> = Vec::new();
    v.push(step);
    proof {
        lemma_steps_view(v@);
        assert(steps_view(v@) =~= seq![crate::timeline::step_view(step)]);
    }
    v
}

/// Recovery that moves the pet home to sleep, or sleeps in place when the move fails.
pub fn home_sleep_recovery(step_id: &str) -> (r: BeatPlanRecovery)
    ensures
        r@ == spec_home_sleep_recovery(step_id@),
{
    let primary = recovery_primary_step_id(step_id);
    let fallback = recovery_fallback_step_id(step_id);
    let move_home = MoveToStep::home_with_after_action_fallback(primary.as_str(), "sleep", "idle", MOVE_TO_STEP_TIMEOUT_MS);
    let sleep = PlayActionStep::once(fallback.as_str(), "sleep", 5_000);
    let recover = TimelineStep::Recover(RecoverStep {
        step_id: recovery_step_id(step_id),
        kind: "recover".to_owned(),
        steps: one_step(TimelineStep::MoveTo(move_home)),
        recovery_steps: one_step(TimelineStep::PlayAction(sleep)),
    });
    BeatPlanRecovery { step_id: step_id.to_owned(), recovery_steps: one_step(recover) }
}

/// Recovery that sleeps in place.
pub open spec fn spec_in_place_sleep_recovery(step_id: Seq<char>) -> BeatPlanRecoveryView {
    BeatPlanRecoveryView {
        step_id,
        recovery_steps: seq![TimelineStepView::PlayAction(spec_sleep_once(step_id + ".recovery"@))],
    }
}

/// Recovery that sleeps in place.
pub fn in_place_sleep_recovery(step_id: &str) -> (r: BeatPlanRecovery)
    ensures
        r@ == spec_in_place_sleep_recovery(step_id@),
{
    let id = recovery_step_id(step_id);
    let sleep = PlayActionStep::once(id.as_str(), "sleep", 5_000);
    BeatPlanRecovery { step_id: step_id.to_owned(), recovery_steps: one_step(TimelineStep::PlayAction(sleep)) }
}

// ---------------------------------------------------------------------------
// Compiling a macro intent to a beat plan.
// ---------------------------------------------------------------------------

/// The ids, source and time that a compiled beat plan is built with.
pub struct BeatPlanBuildContext<'a> {
    pub plan_id: &'a str,
    pub beat_id: &'a str,
    pub step_id: &'a str,
    pub source_ref: JsonValue,
    pub created_at: &'a str,
}

pub struct BuildContextView {
    pub plan_id: Seq<char>,
    pub beat_id: Seq<char>,
    pub step_id: Seq<char>,
    pub source_ref: JsonView,
    pub created_at: Seq<char>,
}

impl<'a> View for BeatPlanBuildContext<'a> {
    type V = BuildContextView;

    open spec fn view(&self) -> BuildContextView {
        BuildContextView {
            plan_id: self.plan_id@,
            beat_id: self.beat_id@,
            step_id: self.step_id@,
            source_ref: self.source_ref@,
            created_at: self.created_at@,
        }
    }
}

pub open spec fn spec_once_action(step_id: Seq<char>, action_id: Seq<char>, timeout_ms: u64) -> BeatActionView {
    BeatActionView {
        step_id,
        action_id,
        fallback_action_id: None,
        expected_playback: "once"@,
        duration_ms: None,
        pending_handoff_finalizer_step_id: None,
        completion_behavior: SidecarPlayActionCompletionBehavior::RestoreIdle,
        timeout_ms,
    }
}

/// A beat plan with a single beat.
pub open spec fn spec_single_beat_plan(
    ctx: BuildContextView,
    macro_id: Seq<char>,
    fallback_action_id: Option<Seq<char>>,
    recovery: Option<BeatPlanRecoveryView>,
    beat: BeatView,
) -> BeatPlanView {
    BeatPlanView {
        plan_id: ctx.plan_id,
        source_ref: ctx.source_ref,
        macro_id,
        fallback_action_id,
        recovery,
        beats: seq![beat],
        created_at: ctx.created_at,
    }
}

/// The plan of a macro that plays one action once.
pub open spec fn spec_direct_action_plan(
    intent: MacroIntent,
    ctx: BuildContextView,
    action_id: Seq<char>,
    timeout_ms: u64,
) -> BeatPlanView {
    spec_single_beat_plan(
        ctx,
        intent.spec_macro_id(),
        spec_action_fallback_id(intent),
        None,
        BeatView::Action {
            beat_id: ctx.beat_id,
            kind: BeatKind::Perform,
            fallback_action_id: None,
            action: spec_once_action(ctx.step_id, action_id, timeout_ms),
        },
    )
}

pub open spec fn spec_patrol_edge(k: int) -> MoveEdge {
    if k % 4 == 0 {
        MoveEdge::Left
    } else if k % 4 == 1 {
        MoveEdge::Top
    } else if k % 4 == 2 {
        MoveEdge::Right
    } else {
        MoveEdge::Bottom
    }
}

/// The beats of a patrol: `loops` rounds of the left, top, right and bottom edges.
pub open spec fn spec_patrol_beats(ctx: BuildContextView, loops: nat) -> Seq<BeatView> {
    Seq::new(
        loops * 4,
        |k: int|
            BeatView::Target {
                beat_id: spec_indexed_id(ctx.beat_id, k as nat),
                kind: BeatKind::Approach,
                fallback_action_id: None,
                target: BeatTargetView {
                    step_id: spec_indexed_id(ctx.step_id + ".primary"@, k as nat),
                    target: MoveTarget::Edge { edge: spec_patrol_edge(k) },
                    after_action_id: None,
                    fallback_after_action_id: None,
                    timeout_ms: MOVE_TO_STEP_TIMEOUT_MS,
                },
            },
    )
}

/// Law: a lie-down intent compiles, in any context, to one rest beat that moves the pet home
/// and lies it down to sleep there, standing idle only when sleeping cannot be played.
pub proof fn law_lie_down_goes_home_to_sleep(p: LieDownMacroParams, ctx: BuildContextView)
    ensures
        spec_compile_macro_intent(MacroIntent::LieDown(p), ctx) is Ok,
        ({
            let plan = spec_compile_macro_intent(MacroIntent::LieDown(p), ctx)->Ok_0;
            &&& plan.macro_id == "lieDown"@
            &&& plan.beats.len() == 1
            &&& plan.beats[0] is Target
            &&& plan.beats[0]->Target_kind == crate::beat_plan::BeatKind::Rest
            &&& plan.beats[0]->Target_target.target == MoveTarget::Home
            &&& plan.beats[0]->Target_target.after_action_id == Some("sleep"@)
            &&& plan.beats[0]->Target_target.fallback_after_action_id == Some("idle"@)
        }),
{
}

/// The beat plan that a macro intent compiles to, or why it is refused.
pub open spec fn spec_compile_macro_intent(intent: MacroIntent, ctx: BuildContextView) -> Result<
    BeatPlanView,
    BuddyErrorView,
> {
    match intent {
        MacroIntent::Celebrate(_) => Ok(spec_direct_action_plan(intent, ctx, "celebrate"@, 5_000)),
        MacroIntent::Reassure(_) => Ok(spec_direct_action_plan(intent, ctx, "reassure"@, 5_000)),
        MacroIntent::Sad(_) => Ok(spec_direct_action_plan(intent, ctx, "sad"@, 5_000)),
        MacroIntent::Thinking(_) => Ok(spec_direct_action_plan(intent, ctx, "thinking"@, 5_000)),
        MacroIntent::Working(_) => Ok(spec_direct_action_plan(intent, ctx, "working"@, 5_000)),
        MacroIntent::Curious(_) => Ok(spec_direct_action_plan(intent, ctx, "curious"@, 5_000)),
        MacroIntent::AwaitApproval(_) => Ok(spec_direct_action_plan(intent, ctx, "approval"@, 5_000)),
        MacroIntent::Dance(p) => if !(PUBLIC_DANCE_DURATION_MS_MIN <= p.duration_ms <= PUBLIC_DANCE_DURATION_MS_MAX) {
            Err(BuddyErrorView::Validation("dance durationMs must be between 1000 and 30000"@))
        } else {
            Ok(spec_single_beat_plan(
                ctx,
                "dance"@,
                Some("idle"@),
                None,
                BeatView::Action {
                    beat_id: ctx.beat_id,
                    kind: BeatKind::Perform,
                    fallback_action_id: None,
                    action: BeatActionView {
                        expected_playback: "loopForDuration"@,
                        duration_ms: Some(p.duration_ms),
                        ..spec_once_action(ctx.step_id, "celebrate"@, (p.duration_ms + 1_000) as u64)
                    },
                },
            ))
        },
        MacroIntent::LieDown(_) => Ok(spec_single_beat_plan(
            ctx,
            "lieDown"@,
            None,
            Some(spec_in_place_sleep_recovery(ctx.step_id)),
            BeatView::Target {
                beat_id: ctx.beat_id,
                kind: BeatKind::Rest,
                fallback_action_id: None,
                target: BeatTargetView {
                    step_id: ctx.step_id,
                    target: MoveTarget::Home,
                    after_action_id: Some("sleep"@),
                    fallback_after_action_id: Some("idle"@),
                    timeout_ms: MOVE_TO_STEP_TIMEOUT_MS,
                },
            },
        )),
        MacroIntent::PatrolAroundScreen(p) => if !(PUBLIC_PATROL_AROUND_SCREEN_LOOPS_MIN <= p.loops
            <= PUBLIC_PATROL_AROUND_SCREEN_LOOPS_MAX) {
            Err(BuddyErrorView::Validation("patrolAroundScreen loops must be between 1 and 4"@))
        } else {
            Ok(BeatPlanView {
                plan_id: ctx.plan_id,
                source_ref: ctx.source_ref,
                macro_id: "patrolAroundScreen"@,
                fallback_action_id: None,
                recovery: Some(spec_home_sleep_recovery(ctx.step_id)),
                beats: spec_patrol_beats(ctx, p.loops as nat),
                created_at: ctx.created_at,
            })
        },
        MacroIntent::GetUp(p) => Ok(spec_single_beat_plan(
            ctx,
            "getUp"@,
            Some("idle"@),
            None,
            BeatView::Action {
                beat_id: ctx.beat_id,
                kind: BeatKind::Recover,
                fallback_action_id: None,
                action: spec_once_action(ctx.step_id, p.side.spec_action_id(), 5_000),
            },
        )),
        MacroIntent::PeekFromEdge(p) => Ok(spec_single_beat_plan(
            ctx,
            "peekFromEdge"@,
            None,
            Some(spec_home_sleep_recovery(ctx.step_id)),
            BeatView::Target {
                beat_id: ctx.beat_id,
                kind: BeatKind::Approach,
                fallback_action_id: None,
                target: BeatTargetView {
                    step_id: ctx.step_id + ".primary"@,
                    target: MoveTarget::EdgeAnchor {
                        edge: p.edge,
                        reveal: WindowAnchorReveal::Head,
                        duration_ms: 1_500,
                    },
                    after_action_id: Some("peek_from_edge"@),
                    fallback_after_action_id: Some("idle"@),
                    timeout_ms: 16_500,
                },
            },
        )),
        MacroIntent::PeekBehindWindow(p) => if !(PUBLIC_PEEK_BEHIND_WINDOW_DURATION_MS_MIN <= p.duration_ms
            <= PUBLIC_PEEK_BEHIND_WINDOW_DURATION_MS_MAX) {
            Err(BuddyErrorView::Validation("peekBehindWindow durationMs must be between 500 and 15000"@))
        } else {
            Ok(spec_single_beat_plan(
                ctx,
                "peekBehindWindow"@,
                None,
                None,
                BeatView::Target {
                    beat_id: ctx.beat_id,
                    kind: BeatKind::Approach,
                    fallback_action_id: None,
                    target: BeatTargetView {
                        step_id: ctx.step_id,
                        target: MoveTarget::WindowAnchor {
                            selector: p.window_selector,
                            edge: p.edge,
                            reveal: p.reveal,
                            duration_ms: p.duration_ms,
                        },
                        after_action_id: None,
                        fallback_after_action_id: None,
                        timeout_ms: (MOVE_TO_STEP_TIMEOUT_MS + p.duration_ms) as u64,
                    },
                },
            ))
        },
        MacroIntent::Cast(_) => Ok(spec_single_beat_plan(
            ctx,
            "cast"@,
            Some("celebrate"@),
            None,
            BeatView::Action {
                beat_id: ctx.beat_id,
                kind: BeatKind::Perform,
                fallback_action_id: None,
                action: spec_once_action(ctx.step_id, "cast"@, 5_000),
            },
        )),
    }
}

pub open spec fn beat_plan_result_view(r: BuddyResult<BeatPlan>) -> Result<BeatPlanView, BuddyErrorView> {
    match r {
        Ok(p) => Ok(p@),
        Err(e) => Err(e@),
    }
}

fn one_beat(beat: BeatPlanBeat) -> (r: Vec<BeatPlanBeat>)
    ensures
        beats_view(r@) == seq![crate::beat_plan::beat_view(beat)],
{
    let mut v: Vec<BeatPlanBeat> = Vec::new();
    v.push(beat);
    proof {
        lemma_beats_view(v@);
        assert(beats_view(v@) =~= seq![crate::beat_plan::beat_view(beat)]);
    }
    v
}

/// A beat plan with a single beat.
fn single_beat_plan(
    context: BeatPlanBuildContext,
    macro_id: &str,
    fallback_action_id: Option<&str>,
    recovery: Option<BeatPlanRecovery>,
    beat: BeatPlanBeat,
) -> (r: BeatPlan)
    ensures
        r@ == spec_single_beat_plan(
            context@,
            macro_id@,
            opt_str_view(fallback_action_id),
            crate::beat_plan::recovery_view(recovery),
            crate::beat_plan::beat_view(beat),
        ),
{
    BeatPlan {
        plan_id: context.plan_id.to_owned(),
        source_ref: context.source_ref,
        macro_id: macro_id.to_owned(),
        fallback_action_id: opt_to_owned(fallback_action_id),
        recovery,
        beats: one_beat(beat),
        created_at: context.created_at.to_owned(),
    }
}

/// The plan of a macro that plays one action once.
pub fn compile_direct_action_macro(
    intent: &MacroIntent,
    fallback_policy: MacroFallbackPolicy,
    context: BeatPlanBuildContext,
    action_id: &str,
    timeout_ms: u64,
) -> (r: BeatPlan)
    requires
        opt_str_view(fallback_policy.action_fallback_id) == spec_action_fallback_id(*intent),
    ensures
        r@ == spec_direct_action_plan(*intent, context@, action_id@, timeout_ms),
{
    let beat = BeatPlanBeat {
        beat_id: context.beat_id.to_owned(),
        kind: BeatKind::Perform,
        fallback_action_id: None,
        body: BeatPlanBeatBody::Action { action: BeatAction::once(context.step_id, action_id, timeout_ms) },
    };
    single_beat_plan(context, intent.macro_id(), fallback_policy.action_fallback_id, None, beat)
}

/// The plan of a dance: the celebrate action looped for the requested time.
pub fn compile_dance_macro(
    params: &DanceMacroParams,
    fallback_policy: MacroFallbackPolicy,
    context: BeatPlanBuildContext,
) -> (r: BuddyResult<BeatPlan>)
    requires
        opt_str_view(fallback_policy.action_fallback_id) == Some("idle"@),
    ensures
        beat_plan_result_view(r) == spec_compile_macro_intent(MacroIntent::Dance(*params), context@),
{
    if !(PUBLIC_DANCE_DURATION_MS_MIN <= params.duration_ms && params.duration_ms <= PUBLIC_DANCE_DURATION_MS_MAX) {
        return Err(BuddyError::Validation("dance durationMs must be between 1000 and 30000".to_owned()));
    }
    let timeout_ms = params.duration_ms + 1_000;
    let beat = BeatPlanBeat {
        beat_id: context.beat_id.to_owned(),
        kind: BeatKind::Perform,
        fallback_action_id: None,
        body: BeatPlanBeatBody::Action {
            action: BeatAction::loop_for_duration(context.step_id, "celebrate", params.duration_ms, timeout_ms),
        },
    };
    Ok(single_beat_plan(context, "dance", fallback_policy.action_fallback_id, None, beat))
}

/// The plan of a patrol around the screen edges, with a recovery that sends the pet home to
/// sleep.
pub fn compile_patrol_around_screen_macro(
    params: &PatrolAroundScreenMacroParams,
    context: BeatPlanBuildContext,
) -> (r: BuddyResult<BeatPlan>)
    ensures
        beat_plan_result_view(r) == spec_compile_macro_intent(MacroIntent::PatrolAroundScreen(*params), context@),
{
    if !(PUBLIC_PATROL_AROUND_SCREEN_LOOPS_MIN <= params.loops && params.loops <= PUBLIC_PATROL_AROUND_SCREEN_LOOPS_MAX) {
        return Err(BuddyError::Validation("patrolAroundScreen loops must be between 1 and 4".to_owned()));
    }
    let ghost ctx = context@;
    let primary = primary_step_id(context.step_id);
    let edges: [MoveEdge; 4] = [MoveEdge::Left, MoveEdge::Top, MoveEdge::Right, MoveEdge::Bottom];
    let total: usize = params.loops as usize * 4;
    let mut beats: Vec<BeatPlanBeat> = Vec::new();
    let mut k: usize = 0;
    while k < total
        invariant
            k <= total,
            total == params.loops * 4,
            params.loops <= 4,
            primary@ == ctx.step_id + ".primary"@,
            ctx == context@,
            edges@ == seq![MoveEdge::Left, MoveEdge::Top, MoveEdge::Right, MoveEdge::Bottom],
            beats_view(beats@) == spec_patrol_beats(ctx, params.loops as nat).take(k as int),
        decreases total - k,
    {
        let edge = edges[k % 4];
        let beat = BeatPlanBeat {
            beat_id: indexed_id(context.beat_id, k),
            kind: BeatKind::Approach,
            fallback_action_id: None,
            body: BeatPlanBeatBody::Target {
                target: BeatTarget::move_to(indexed_id(primary.as_str(), k).as_str(), MoveTarget::Edge { edge }, MOVE_TO_STEP_TIMEOUT_MS),
            },
        };
        let ghost before = beats@;
        beats.push(beat);
        proof {
            lemma_beats_view(before);
            lemma_beats_view(beats@);
            assert(edge == spec_patrol_edge(k as int));
            assert(beats_view(beats@) =~= spec_patrol_beats(ctx, params.loops as nat).take(k + 1));
        }
        k = k + 1;
    }
    assert(spec_patrol_beats(ctx, params.loops as nat).take(total as int) =~= spec_patrol_beats(ctx, params.loops as nat));
    Ok(BeatPlan {
        plan_id: context.plan_id.to_owned(),
        source_ref: context.source_ref,
        macro_id: "patrolAroundScreen".to_owned(),
        fallback_action_id: None,
        recovery: Some(home_sleep_recovery(context.step_id)),
        beats,
        created_at: context.created_at.to_owned(),
    })
}

/// The plan of a peek from a screen edge, with a recovery that sends the pet home to sleep.
pub fn compile_peek_from_edge_macro(params: &PeekFromEdgeMacroParams, context: BeatPlanBuildContext) -> (r:
    BuddyResult<BeatPlan>)
    ensures
        beat_plan_result_view(r) == spec_compile_macro_intent(MacroIntent::PeekFromEdge(*params), context@),
{
    let primary = primary_step_id(context.step_id);
    let target = BeatTarget::move_to_with_after_action_fallback(
        primary.as_str(),
        MoveTarget::EdgeAnchor { edge: params.edge, reveal: WindowAnchorReveal::Head, duration_ms: 1_500 },
        "peek_from_edge",
        "idle",
        MOVE_TO_STEP_TIMEOUT_MS + 1_500,
    );
    let beat = BeatPlanBeat {
        beat_id: context.beat_id.to_owned(),
        kind: BeatKind::Approach,
        fallback_action_id: None,
        body: BeatPlanBeatBody::Target { target },
    };
    let recovery = home_sleep_recovery(context.step_id);
    Ok(single_beat_plan(context, "peekFromEdge", None, Some(recovery), beat))
}

/// The plan of a peek from behind a window.
pub fn compile_peek_behind_window_macro(
    params: &PeekBehindWindowMacroParams,
    context: BeatPlanBuildContext,
) -> (r: BuddyResult<BeatPlan>)
    ensures
        beat_plan_result_view(r) == spec_compile_macro_intent(MacroIntent::PeekBehindWindow(*params), context@),
{
    if !(PUBLIC_PEEK_BEHIND_WINDOW_DURATION_MS_MIN <= params.duration_ms
        && params.duration_ms <= PUBLIC_PEEK_BEHIND_WINDOW_DURATION_MS_MAX) {
        return Err(BuddyError::Validation("peekBehindWindow durationMs must be between 500 and 15000".to_owned()));
    }
    let timeout_ms = MOVE_TO_STEP_TIMEOUT_MS + params.duration_ms;
    let target = BeatTarget::move_to(
        context.step_id,
        MoveTarget::WindowAnchor {
            selector: params.window_selector,
            edge: params.edge,
            reveal: params.reveal,
            duration_ms: params.duration_ms,
        },
        timeout_ms,
    );
    let beat = BeatPlanBeat {
        beat_id: context.beat_id.to_owned(),
        kind: BeatKind::Approach,
        fallback_action_id: None,
        body: BeatPlanBeatBody::Target { target },
    };
    Ok(single_beat_plan(context, "peekBehindWindow", None, None, beat))
}

/// Compiles a macro intent to its beat plan.
pub fn compile_macro_intent_to_beat_plan(intent: &MacroIntent, context: BeatPlanBuildContext) -> (r: BuddyResult<
    BeatPlan,
>)
    ensures
        beat_plan_result_view(r) == spec_compile_macro_intent(*intent, context@),
{
    let fallback_policy = macro_fallback_policy(intent);
    match intent {
        MacroIntent::Celebrate(_) => Ok(compile_direct_action_macro(intent, fallback_policy, context, "celebrate", 5_000)),
        MacroIntent::Dance(params) => compile_dance_macro(params, fallback_policy, context),
        MacroIntent::LieDown(_) => {
            let target = BeatTarget::move_to_with_after_action_fallback(
                context.step_id,
                MoveTarget::Home,
                "sleep",
                "idle",
                MOVE_TO_STEP_TIMEOUT_MS,
            );
            let beat = BeatPlanBeat {
                beat_id: context.beat_id.to_owned(),
                kind: BeatKind::Rest,
                fallback_action_id: None,
                body: BeatPlanBeatBody::Target { target },
            };
            let recovery = in_place_sleep_recovery(context.step_id);
            Ok(single_beat_plan(context, "lieDown", None, Some(recovery), beat))
        },
        MacroIntent::PatrolAroundScreen(params) => compile_patrol_around_screen_macro(params, context),
        MacroIntent::Reassure(_) => Ok(compile_direct_action_macro(intent, fallback_policy, context, "reassure", 5_000)),
        MacroIntent::Sad(_) => Ok(compile_direct_action_macro(intent, fallback_policy, context, "sad", 5_000)),
        MacroIntent::Thinking(_) => Ok(compile_direct_action_macro(intent, fallback_policy, context, "thinking", 5_000)),
        MacroIntent::Working(_) => Ok(compile_direct_action_macro(intent, fallback_policy, context, "working", 5_000)),
        MacroIntent::Curious(_) => Ok(compile_direct_action_macro(intent, fallback_policy, context, "curious", 5_000)),
        MacroIntent::AwaitApproval(_) => Ok(compile_direct_action_macro(intent, fallback_policy, context, "approval", 5_000)),
        MacroIntent::GetUp(params) => {
            let beat = BeatPlanBeat {
                beat_id: context.beat_id.to_owned(),
                kind: BeatKind::Recover,
                fallback_action_id: None,
                body: BeatPlanBeatBody::Action { action: BeatAction::once(context.step_id, params.side.action_id(), 5_000) },
            };
            Ok(single_beat_plan(context, "getUp", fallback_policy.action_fallback_id, None, beat))
        },
        MacroIntent::PeekFromEdge(params) => compile_peek_from_edge_macro(params, context),
        MacroIntent::PeekBehindWindow(params) => compile_peek_behind_window_macro(params, context),
        MacroIntent::Cast(_) => {
            let beat = BeatPlanBeat {
                beat_id: context.beat_id.to_owned(),
                kind: BeatKind::Perform,
                fallback_action_id: None,
                body: BeatPlanBeatBody::Action { action: BeatAction::once(context.step_id, "cast", 5_000) },
            };
            Ok(single_beat_plan(context, "cast", fallback_policy.action_fallback_id, None, beat))
        },
    }
}


proof fn lemma_single_beat_compiles(b: BeatView, inherited: Option<Seq<char>>)
    ensures
        spec_compile_beats(seq![b], inherited) == (match spec_compile_beat(b, inherited) {
            Err(e) => Err(e),
            Ok((s, u)) => Ok((s, u)),
        }),
{
    assert(seq![b][0] == b);
    assert(seq![b].drop_first() =~= Seq::<BeatView>::empty());
    assert(spec_compile_beats(Seq::<BeatView>::empty(), inherited) == Ok::<(Seq<TimelineStepView>, bool), BuddyErrorView>((Seq::<TimelineStepView>::empty(), false)));
    match spec_compile_beat(b, inherited) {
        Ok((s, u)) => {
            assert(s + Seq::<TimelineStepView>::empty() =~= s);
        },
        Err(_) => {},
    }
}

proof fn lemma_target_beats_compile(beats: Seq<BeatView>, inherited: Option<Seq<char>>)
    requires
        forall|i: int| 0 <= i < beats.len() ==> (#[trigger] beats[i]) matches BeatView::Target {
            fallback_action_id: None,
            ..
        },
    ensures
        spec_compile_beats(beats, inherited) matches Ok((s, u)) && s.len() == beats.len() && !u,
    decreases beats.len(),
{
    if beats.len() > 0 {
        assert(beats[0] matches BeatView::Target { fallback_action_id: None, .. });
        let rest = beats.drop_first();
        assert forall|i: int| 0 <= i < rest.len() implies (#[trigger] rest[i]) matches BeatView::Target {
            fallback_action_id: None,
            ..
        } by {
            assert(rest[i] == beats[i + 1]);
        }
        lemma_target_beats_compile(rest, inherited);
        let first = spec_compile_beat(beats[0], inherited);
        assert(first matches Ok((s, u)) && s.len() == 1 && !u);
        assert(spec_compile_beats(beats, inherited) == match first {
            Err(e) => Err(e),
            Ok((s, u)) => crate::beat_plan::spec_prepend_steps(s, u, spec_compile_beats(rest, inherited)),
        });
    }
}

/// Law: a public intent with valid parameters always compiles to a beat plan for its own
/// macro, and that plan always compiles to a non-empty timeline; an intent whose parameters are
/// out of range is refused.
pub proof fn law_valid_macro_compiles_to_timeline(intent: MacroIntent, ctx: BuildContextView)
    ensures
        spec_public_macro_intent_params_valid(intent) <==> spec_compile_macro_intent(intent, ctx) is Ok,
        spec_compile_macro_intent(intent, ctx) matches Ok(plan) ==> {
            &&& plan.macro_id == intent.spec_macro_id()
            &&& plan.plan_id == ctx.plan_id
            &&& plan.fallback_action_id == spec_action_fallback_id(intent)
            &&& spec_compile_beat_plan(plan.plan_id, plan.fallback_action_id, plan.recovery, plan.beats) matches Ok(
                steps,
            ) && steps.len() > 0
        },
{
    law_fallbacks_name_public_macros(intent, MacroSemanticFallback::CastActionFailedToCelebrate);
    if let Ok(plan) = spec_compile_macro_intent(intent, ctx) {
        match intent {
            MacroIntent::PatrolAroundScreen(p) => {
                let beats = spec_patrol_beats(ctx, p.loops as nat);
                lemma_target_beats_compile(beats, plan.fallback_action_id);
            },
            _ => {
                lemma_single_beat_compiles(plan.beats[0], plan.fallback_action_id);
                assert(plan.beats =~= seq![plan.beats[0]]);
            },
        }
    }
}

} // verus!
