use vstd::prelude::*;

use crate::affective::AffectiveContext;
use crate::error::{BuddyError, BuddyErrorView, BuddyResult};
use crate::step_protocol::SidecarInterruptPolicy;
use crate::text::{concat3, concat_str, opt_string_view, str_eq};

verus! {

/// What an action is resolved in: the pet's affective state.
#[derive(Debug, Clone, Copy, PartialEq, Eq)]
pub struct ResolveContext {
    pub affective: AffectiveContext,
}

impl Default for ResolveContext {
    fn default() -> (r: Self)
        ensures
            r.affective == crate::affective::spec_default_affective_context(),
    {
        ResolveContext { affective: AffectiveContext::default() }
    }
}

/// One action of the registry: the animation it plays and how it plays.
#[derive(Debug, Clone, PartialEq, Eq)]
pub struct ActionDefinition {
    pub action_id: String,
    pub selector: Option<String>,
    pub animation_ref: String,
    pub playback_kind: String,
    pub duration_ms: u64,
    pub clip_duration_ms: u64,
    pub loop_animation: bool,
    pub interrupt_policy: SidecarInterruptPolicy,
}

pub struct ActionDefinitionView {
    pub action_id: Seq<char>,
    pub selector: Option<Seq<char>>,
    pub animation_ref: Seq<char>,
    pub playback_kind: Seq<char>,
    pub duration_ms: u64,
    pub clip_duration_ms: u64,
    pub loop_animation: bool,
    pub interrupt_policy: SidecarInterruptPolicy,
}

impl View for ActionDefinition {
    type V = ActionDefinitionView;

    open spec fn view(&self) -> ActionDefinitionView {
        ActionDefinitionView {
            action_id: self.action_id@,
            selector: opt_string_view(self.selector),
            animation_ref: self.animation_ref@,
            playback_kind: self.playback_kind@,
            duration_ms: self.duration_ms,
            clip_duration_ms: self.clip_duration_ms,
            loop_animation: self.loop_animation,
            interrupt_policy: self.interrupt_policy,
        }
    }
}

/// The actions the pet knows, in registry order.
#[derive(Debug, Clone, PartialEq, Eq)]
pub struct ActionRegistry {
    pub actions: Vec<ActionDefinition>,
}

impl View for ActionRegistry {
    type V = Seq<ActionDefinitionView>;

    open spec fn view(&self) -> Seq<ActionDefinitionView> {
        self.actions@.map_values(|a: ActionDefinition| a@)
    }
}

/// Why a step resolved to another action than the one it asked for.
#[derive(Debug, Clone, PartialEq, Eq)]
pub struct StepResolutionFallback {
    pub requested_action_id: String,
    pub fallback_action_id: String,
    pub reason_code: String,
    pub unsupported_capability: Option<String>,
}

pub struct FallbackView {
    pub requested_action_id: Seq<char>,
    pub fallback_action_id: Seq<char>,
    pub reason_code: Seq<char>,
    pub unsupported_capability: Option<Seq<char>>,
}

impl View for StepResolutionFallback {
    type V = FallbackView;

    open spec fn view(&self) -> FallbackView {
        FallbackView {
            requested_action_id: self.requested_action_id@,
            fallback_action_id: self.fallback_action_id@,
            reason_code: self.reason_code@,
            unsupported_capability: opt_string_view(self.unsupported_capability),
        }
    }
}

pub open spec fn fallback_view(f: Option<StepResolutionFallback>) -> Option<FallbackView> {
    match f {
        Some(f) => Some(f@),
        None => None,
    }
}

/// The action, animation and playback that a step resolved to.
#[derive(Debug, Clone, PartialEq, Eq)]
pub struct StepResolution {
    pub action_id: String,
    pub animation_ref: String,
    pub fallback: Option<StepResolutionFallback>,
    pub playback_kind: String,
    pub duration_ms: u64,
    pub clip_duration_ms: u64,
    pub loop_animation: bool,
    pub interrupt_policy: SidecarInterruptPolicy,
}

pub struct ResolutionView {
    pub action_id: Seq<char>,
    pub animation_ref: Seq<char>,
    pub fallback: Option<FallbackView>,
    pub playback_kind: Seq<char>,
    pub duration_ms: u64,
    pub clip_duration_ms: u64,
    pub loop_animation: bool,
    pub interrupt_policy: SidecarInterruptPolicy,
}

impl View for StepResolution {
    type V = ResolutionView;

    open spec fn view(&self) -> ResolutionView {
        ResolutionView {
            action_id: self.action_id@,
            animation_ref: self.animation_ref@,
            fallback: fallback_view(self.fallback),
            playback_kind: self.playback_kind@,
            duration_ms: self.duration_ms,
            clip_duration_ms: self.clip_duration_ms,
            loop_animation: self.loop_animation,
            interrupt_policy: self.interrupt_policy,
        }
    }
}

pub open spec fn resolution_result_view(r: BuddyResult<StepResolution>) -> Result<ResolutionView, BuddyErrorView> {
    match r {
        Ok(v) => Ok(v@),
        Err(e) => Err(e@),
    }
}

/// The resolution that plays an action as the registry defines it.
pub open spec fn spec_resolution_of(a: ActionDefinitionView) -> ResolutionView {
    ResolutionView {
        action_id: a.action_id,
        animation_ref: a.animation_ref,
        fallback: None,
        playback_kind: a.playback_kind,
        duration_ms: a.duration_ms,
        clip_duration_ms: a.clip_duration_ms,
        loop_animation: a.loop_animation,
        interrupt_policy: a.interrupt_policy,
    }
}

/// The first action with this id.
pub open spec fn spec_action_by_id(actions: Seq<ActionDefinitionView>, id: Seq<char>) -> Option<ActionDefinitionView>
    decreases actions.len(),
{
    if actions.len() == 0 {
        None
    } else if actions[0].action_id == id {
        Some(actions[0])
    } else {
        spec_action_by_id(actions.drop_first(), id)
    }
}

/// The first action answering this selector.
pub open spec fn spec_action_by_selector(actions: Seq<ActionDefinitionView>, selector: Seq<char>) -> Option<
    ActionDefinitionView,
>
    decreases actions.len(),
{
    if actions.len() == 0 {
        None
    } else if actions[0].selector == Some(selector) {
        Some(actions[0])
    } else {
        spec_action_by_selector(actions.drop_first(), selector)
    }
}

/// The first action answering this selector that plays this animation.
pub open spec fn spec_action_by_animation(
    actions: Seq<ActionDefinitionView>,
    selector: Seq<char>,
    animation: Seq<char>,
) -> Option<ActionDefinitionView>
    decreases actions.len(),
{
    if actions.len() == 0 {
        None
    } else if actions[0].selector == Some(selector) && actions[0].animation_ref == animation {
        Some(actions[0])
    } else {
        spec_action_by_animation(actions.drop_first(), selector, animation)
    }
}

/// Resolving an action id or selector: an action with that id first, then one answering that
/// selector.
pub open spec fn spec_resolve_play_action(actions: Seq<ActionDefinitionView>, id: Seq<char>) -> Result<
    ResolutionView,
    BuddyErrorView,
> {
    match spec_action_by_id(actions, id) {
        Some(a) => Ok(spec_resolution_of(a)),
        None => match spec_action_by_selector(actions, id) {
            Some(a) => Ok(spec_resolution_of(a)),
            None => Err(BuddyErrorView::Validation("unknown buddy actionId or selector: "@ + id)),
        },
    }
}

/// Resolving the action that answers a selector and plays an animation.
pub open spec fn spec_resolve_action_for_animation(
    actions: Seq<ActionDefinitionView>,
    selector: Seq<char>,
    animation: Seq<char>,
) -> Result<ResolutionView, BuddyErrorView> {
    match spec_action_by_animation(actions, selector, animation) {
        Some(a) => Ok(spec_resolution_of(a)),
        None => Err(BuddyErrorView::Validation(
            "unknown buddy animation for selector "@ + selector + ": "@ + animation,
        )),
    }
}

proof fn lemma_skip_unfold<A>(s: Seq<A>, i: int)
    requires
        0 <= i < s.len(),
    ensures
        s.skip(i)[0] == s[i],
        s.skip(i).drop_first() == s.skip(i + 1),
{
    assert(s.skip(i).drop_first() =~= s.skip(i + 1));
}

fn resolution_of(a: &ActionDefinition) -> (r: StepResolution)
    ensures
        r@ == spec_resolution_of(a@),
{
    StepResolution {
        action_id: a.action_id.clone(),
        animation_ref: a.animation_ref.clone(),
        fallback: None,
        playback_kind: a.playback_kind.clone(),
        duration_ms: a.duration_ms,
        clip_duration_ms: a.clip_duration_ms,
        loop_animation: a.loop_animation,
        interrupt_policy: a.interrupt_policy,
    }
}

impl ActionRegistry {
    fn find_by_id(&self, id: &str) -> (r: Option<usize>)
        ensures
            match spec_action_by_id(self@, id@) {
                Some(a) => r is Some && r.unwrap() < self.actions@.len() && self.actions@[r.unwrap() as int]@ == a,
                None => r is None,
            },
    {
        let ghost v = self@;
        let mut i: usize = 0;
        assert(v.skip(0) =~= v);
        while i < self.actions.len()
            invariant
                i <= self.actions@.len(),
                v == self@,
                v.len() == self.actions@.len(),
                spec_action_by_id(v, id@) == spec_action_by_id(v.skip(i as int), id@),
            decreases self.actions@.len() - i,
        {
            proof {
                lemma_skip_unfold(v, i as int);
            }
            assert(v[i as int] == self.actions@[i as int]@);
            if str_eq(self.actions[i].action_id.as_str(), id) {
                return Some(i);
            }
            i = i + 1;
        }
        assert(v.skip(i as int).len() == 0);
        None
    }

    fn find_by_selector(&self, selector: &str) -> (r: Option<usize>)
        ensures
            match spec_action_by_selector(self@, selector@) {
                Some(a) => r is Some && r.unwrap() < self.actions@.len() && self.actions@[r.unwrap() as int]@ == a,
                None => r is None,
            },
    {
        let ghost v = self@;
        let mut i: usize = 0;
        assert(v.skip(0) =~= v);
        while i < self.actions.len()
            invariant
                i <= self.actions@.len(),
                v == self@,
                v.len() == self.actions@.len(),
                spec_action_by_selector(v, selector@) == spec_action_by_selector(v.skip(i as int), selector@),
            decreases self.actions@.len() - i,
        {
            proof {
                lemma_skip_unfold(v, i as int);
            }
            assert(v[i as int] == self.actions@[i as int]@);
            let matches = match &self.actions[i].selector {
                Some(s) => str_eq(s.as_str(), selector),
                None => false,
            };
            if matches {
                return Some(i);
            }
            i = i + 1;
        }
        assert(v.skip(i as int).len() == 0);
        None
    }

    fn find_by_animation(&self, selector: &str, animation: &str) -> (r: Option<usize>)
        ensures
            match spec_action_by_animation(self@, selector@, animation@) {
                Some(a) => r is Some && r.unwrap() < self.actions@.len() && self.actions@[r.unwrap() as int]@ == a,
                None => r is None,
            },
    {
        let ghost v = self@;
        let mut i: usize = 0;
        assert(v.skip(0) =~= v);
        while i < self.actions.len()
            invariant
                i <= self.actions@.len(),
                v == self@,
                v.len() == self.actions@.len(),
                spec_action_by_animation(v, selector@, animation@) == spec_action_by_animation(
                    v.skip(i as int),
                    selector@,
                    animation@,
                ),
            decreases self.actions@.len() - i,
        {
            proof {
                lemma_skip_unfold(v, i as int);
            }
            assert(v[i as int] == self.actions@[i as int]@);
            let matches = match &self.actions[i].selector {
                Some(s) => str_eq(s.as_str(), selector) && str_eq(self.actions[i].animation_ref.as_str(), animation),
                None => false,
            };
            if matches {
                return Some(i);
            }
            i = i + 1;
        }
        assert(v.skip(i as int).len() == 0);
        None
    }

    /// Resolves an action id, or else a selector, to the action it plays.
    pub fn resolve_play_action(&self, action_id: &str, resolve_context: &ResolveContext) -> (r: BuddyResult<
        StepResolution,
    >)
        ensures
            resolution_result_view(r) == spec_resolve_play_action(self@, action_id@),
    {
        if let Some(i) = self.find_by_id(action_id) {
            return Ok(resolution_of(&self.actions[i]));
        }
        if let Some(i) = self.find_by_selector(action_id) {
            return Ok(resolution_of(&self.actions[i]));
        }
        Err(BuddyError::Validation(concat_str("unknown buddy actionId or selector: ", action_id)))
    }

    /// Resolves the action that answers a selector and plays an animation.
    pub fn resolve_action_for_animation(
        &self,
        selector: &str,
        animation: &str,
        resolve_context: &ResolveContext,
    ) -> (r: BuddyResult<StepResolution>)
        ensures
            resolution_result_view(r) == spec_resolve_action_for_animation(self@, selector@, animation@),
    {
        if let Some(i) = self.find_by_animation(selector, animation) {
            return Ok(resolution_of(&self.actions[i]));
        }
        let a = concat3("unknown buddy animation for selector ", selector, ": ");
        Err(BuddyError::Validation(concat_str(a.as_str(), animation)))
    }
}

pub open spec fn spec_with_step_fallback(r: ResolutionView, requested: Seq<char>, fallback: Seq<char>) -> ResolutionView {
    ResolutionView {
        fallback: Some(
            FallbackView {
                requested_action_id: requested,
                fallback_action_id: fallback,
                reason_code: "fallback.stepActionResolved"@,
                unsupported_capability: None,
            },
        ),
        ..r
    }
}

impl StepResolution {
    /// The same resolution, recording that it stands in for `requested_action_id`.
    pub fn with_step_fallback(self, requested_action_id: &str, fallback_action_id: &str) -> (r: Self)
        ensures
            r@ == spec_with_step_fallback(self@, requested_action_id@, fallback_action_id@),
    {
        let mut r = self;
        r.fallback = Some(
            StepResolutionFallback {
                requested_action_id: requested_action_id.to_owned(),
                fallback_action_id: fallback_action_id.to_owned(),
                reason_code: "fallback.stepActionResolved".to_owned(),
                unsupported_capability: None,
            },
        );
        r
    }
}

} // verus!
