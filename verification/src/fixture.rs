use vstd::prelude::*;

use crate::beat_plan::{
    beats_view, compile_beat_plan_to_timeline_steps, lemma_beats_view, spec_compile_beat_plan,
    spec_compile_beats, BeatAction, BeatKind, BeatPlan, BeatPlanBeat, BeatPlanBeatBody,
    BeatTarget, BeatTargetView, BeatView, BeatWait, BeatWaitView,
};
use crate::error::{BuddyError, BuddyErrorView, BuddyResult};
use crate::json::{object_member, JsonValue, JsonView};
use crate::macro_plan::{
    compile_macro_intent_to_beat_plan, indexed_id, spec_compile_macro_intent, spec_indexed_id,
    spec_once_action, BeatPlanBuildContext, BuildContextView, LieDownMacroParams, MacroIntent,
    PatrolAroundScreenMacroParams, MOVE_TO_STEP_TIMEOUT_MS,
};
use crate::step_protocol::SidecarPlayActionCompletionBehavior;
use crate::timeline::{
    lemma_steps_view, lemma_steps_view_add, steps_view, MoveTarget, PlayActionStep, PlayActionStepView,
    TimelineStep, TimelineStepView,
};

verus! {

/// A timeline plan that a developer fixture runs.
#[derive(Debug, PartialEq, Eq)]
pub struct DevFixturePlan {
    pub plan_id: String,
    pub source_ref: JsonValue,
    pub steps: Vec<TimelineStep>,
    pub created_at: String,
}

/// The name a fixture's source names, or `unknown`.
pub open spec fn spec_fixture_name(source_ref: JsonView) -> Seq<char> {
    match source_ref {
        JsonView::Object(m) => match crate::json::spec_member(m, "fixtureName"@) {
            Some(JsonView::Str(s)) => s,
            _ => "unknown"@,
        },
        _ => "unknown"@,
    }
}

impl DevFixturePlan {
    /// The name the plan's source gives the fixture, or `unknown`.
    pub fn fixture_name(&self) -> (r: &str)
        ensures
            r@ == spec_fixture_name(self.source_ref@),
    {
        match &self.source_ref {
            JsonValue::Object(members) => match object_member(members, "fixtureName") {
                Some(JsonValue::Str(s)) => s.as_str(),
                _ => "unknown",
            },
            _ => "unknown",
        }
    }

    /// The number of top-level steps.
    pub fn step_count(&self) -> (r: usize)
        ensures
            r == self.steps@.len(),
    {
        self.steps.len()
    }

    /// The plan's play action, when it is its only step.
    pub fn only_play_action_step(&self) -> (r: Option<&PlayActionStep>)
        ensures
            match r {
                Some(s) => self.steps@.len() == 1 && self.steps@[0] == TimelineStep::PlayAction(*s),
                None => !(self.steps@.len() == 1 && self.steps@[0] is PlayAction),
            },
    {
        if self.steps.len() != 1 {
            return None;
        }
        match &self.steps[0] {
            TimelineStep::PlayAction(s) => Some(s),
            _ => None,
        }
    }
}

/// The source of a developer fixture plan.
pub open spec fn spec_fixture_source_ref(fixture_name: Seq<char>) -> JsonView {
    JsonView::Object(seq![("kind"@, JsonView::Str("devFixture"@)), ("fixtureName"@, JsonView::Str(fixture_name))])
}

/// The source of a developer fixture plan.
pub fn fixture_source_ref(fixture_name: &str) -> (r: JsonValue)
    ensures
        r@ == spec_fixture_source_ref(fixture_name@),
{
    let mut members: Vec<(String, JsonValue)> = Vec::new();
    members.push(("kind".to_owned(), JsonValue::Str("devFixture".to_owned())));
    members.push(("fixtureName".to_owned(), JsonValue::Str(fixture_name.to_owned())));
    let r = JsonValue::Object(members);
    proof {
        let v = crate::json::json_view(r)->Object_0;
        let want = spec_fixture_source_ref(fixture_name@)->Object_0;
        assert forall|i: int| 0 <= i < v.len() implies v[i] == want[i] by {
            assert(v[i] == (members@[i].0@, crate::json::json_view(members@[i].1)));
        }
        assert(v =~= want);
    }
    r
}

/// The fixture that plays `celebrate` once.
pub fn create_single_play_action_dev_fixture_plan(plan_id: &str, step_id: &str, created_at: &str) -> (r: DevFixturePlan)
    ensures
        r.plan_id@ == plan_id@,
        r.source_ref@ == spec_fixture_source_ref("single-play-action"@),
        steps_view(r.steps@) == seq![
            TimelineStepView::PlayAction(PlayActionStepView {
                step_id: step_id@,
                kind: "playAction"@,
                action_id: "celebrate"@,
                fallback_action_id: None,
                expected_playback: "once"@,
                duration_ms: None,
                pending_handoff_finalizer_step_id: None,
                completion_behavior: SidecarPlayActionCompletionBehavior::RestoreIdle,
                timeout_ms: 5_000,
            }),
        ],
        r.created_at@ == created_at@,
{
    let mut steps: Vec<TimelineStep> = Vec::new();
    steps.push(TimelineStep::PlayAction(PlayActionStep::once(step_id, "celebrate", 5_000)));
    proof {
        lemma_steps_view(steps@);
        assert(steps_view(steps@) =~= seq![crate::timeline::step_view(steps@[0])]);
    }
    DevFixturePlan {
        plan_id: plan_id.to_owned(),
        source_ref: fixture_source_ref("single-play-action"),
        steps,
        created_at: created_at.to_owned(),
    }
}

/// The performance beats of the demo, after `n` patrol beats: a move to the center, a short
/// wait, and a cast.
pub open spec fn spec_performance_beats(beat_id: Seq<char>, step_id: Seq<char>, n: nat) -> Seq<BeatView> {
    seq![
        BeatView::Target {
            beat_id: spec_indexed_id(beat_id, n),
            kind: BeatKind::Approach,
            fallback_action_id: None,
            target: BeatTargetView {
                step_id: spec_indexed_id(step_id, n),
                target: MoveTarget::Center,
                after_action_id: None,
                fallback_after_action_id: None,
                timeout_ms: MOVE_TO_STEP_TIMEOUT_MS,
            },
        },
        BeatView::Wait {
            beat_id: spec_indexed_id(beat_id, n + 1),
            kind: BeatKind::Settle,
            fallback_action_id: None,
            wait: BeatWaitView { step_id: spec_indexed_id(step_id, n + 1), duration_ms: 500, timeout_ms: 1_000 },
        },
        BeatView::Action {
            beat_id: spec_indexed_id(beat_id, n + 2),
            kind: BeatKind::Perform,
            fallback_action_id: None,
            action: spec_once_action(spec_indexed_id(step_id, n + 2), "cast"@, 5_000),
        },
    ]
}

/// The steps of the demo: a patrol of two rounds, then the performance, then lying down.
pub open spec fn spec_ai_macro_demo_steps(
    plan_id: Seq<char>,
    beat_id: Seq<char>,
    step_id: Seq<char>,
    created_at: Seq<char>,
) -> Result<Seq<TimelineStepView>, BuddyErrorView> {
    let ctx = BuildContextView {
        plan_id,
        beat_id,
        step_id,
        source_ref: spec_fixture_source_ref("ai-macro-demo"@),
        created_at,
    };
    match spec_compile_macro_intent(MacroIntent::PatrolAroundScreen(PatrolAroundScreenMacroParams { loops: 2 }), ctx) {
        Err(e) => Err(e),
        Ok(patrol) => match spec_compile_beat_plan(patrol.plan_id, patrol.fallback_action_id, patrol.recovery, patrol.beats) {
            Err(e) => Err(e),
            Ok(s1) => {
                let n = patrol.beats.len();
                match spec_compile_beat_plan(plan_id, None, None, spec_performance_beats(beat_id, step_id, n)) {
                    Err(e) => Err(e),
                    Ok(s2) => {
                        let ctx3 = BuildContextView {
                            beat_id: spec_indexed_id(beat_id, n + 3),
                            step_id: spec_indexed_id(step_id, n + 3),
                            ..ctx
                        };
                        match spec_compile_macro_intent(MacroIntent::LieDown(LieDownMacroParams {}), ctx3) {
                            Err(e) => Err(e),
                            Ok(lie) => match spec_compile_beat_plan(
                                lie.plan_id,
                                lie.fallback_action_id,
                                lie.recovery,
                                lie.beats,
                            ) {
                                Err(e) => Err(e),
                                Ok(s3) => if (s1 + s2 + s3).len() == 0 {
                                    Err(BuddyErrorView::Validation(
                                        "ai macro demo fixture must compile to at least one timeline step"@,
                                    ))
                                } else {
                                    Ok(s1 + s2 + s3)
                                },
                            },
                        }
                    },
                }
            },
        },
    }
}

fn performance_beats(beat_id: &str, step_id: &str, n: usize) -> (r: Vec<BeatPlanBeat>)
    requires
        n + 3 < usize::MAX,
    ensures
        beats_view(r@) == spec_performance_beats(beat_id@, step_id@, n as nat),
{
    let mut beats: Vec<BeatPlanBeat> = Vec::new();
    beats.push(BeatPlanBeat {
        beat_id: indexed_id(beat_id, n),
        kind: BeatKind::Approach,
        fallback_action_id: None,
        body: BeatPlanBeatBody::Target {
            target: BeatTarget::move_to(indexed_id(step_id, n).as_str(), MoveTarget::Center, MOVE_TO_STEP_TIMEOUT_MS),
        },
    });
    beats.push(BeatPlanBeat {
        beat_id: indexed_id(beat_id, n + 1),
        kind: BeatKind::Settle,
        fallback_action_id: None,
        body: BeatPlanBeatBody::Wait { wait: BeatWait::new(indexed_id(step_id, n + 1).as_str(), 500, 1_000) },
    });
    beats.push(BeatPlanBeat {
        beat_id: indexed_id(beat_id, n + 2),
        kind: BeatKind::Perform,
        fallback_action_id: None,
        body: BeatPlanBeatBody::Action { action: BeatAction::once(indexed_id(step_id, n + 2).as_str(), "cast", 5_000) },
    });
    proof {
        lemma_beats_view(beats@);
        assert(beats_view(beats@) =~= spec_performance_beats(beat_id@, step_id@, n as nat));
    }
    beats
}

/// The demo fixture of AI macros: a patrol of two rounds around the screen, a move to the
/// center, a short wait and a cast, then lying down.
pub fn create_ai_macro_demo_dev_fixture_plan(plan_id: &str, beat_id: &str, step_id: &str, created_at: &str) -> (r:
    BuddyResult<DevFixturePlan>)
    ensures
        match spec_ai_macro_demo_steps(plan_id@, beat_id@, step_id@, created_at@) {
            Ok(steps) => r is Ok && steps_view(r->Ok_0.steps@) == steps && r->Ok_0.plan_id@ == plan_id@
                && r->Ok_0.source_ref@ == spec_fixture_source_ref("ai-macro-demo"@) && r->Ok_0.created_at@
                == created_at@,
            Err(e) => r is Err && r->Err_0@ == e,
        },
{
    let patrol_plan = match compile_macro_intent_to_beat_plan(
        &MacroIntent::PatrolAroundScreen(PatrolAroundScreenMacroParams { loops: 2 }),
        BeatPlanBuildContext {
            plan_id,
            beat_id,
            step_id,
            source_ref: fixture_source_ref("ai-macro-demo"),
            created_at,
        },
    ) {
        Ok(p) => p,
        Err(e) => return Err(e),
    };
    let mut steps = match compile_beat_plan_to_timeline_steps(&patrol_plan) {
        Ok(s) => s,
        Err(e) => return Err(e),
    };
    proof { lemma_beats_view(patrol_plan.beats@); }
    let n = patrol_plan.beats.len();
    assert(n == 8);
    let performance_plan = BeatPlan {
        plan_id: plan_id.to_owned(),
        source_ref: fixture_source_ref("ai-macro-demo"),
        macro_id: "aiMacroDemoPerformance".to_owned(),
        fallback_action_id: None,
        recovery: None,
        beats: performance_beats(beat_id, step_id, n),
        created_at: created_at.to_owned(),
    };
    let mut performance_steps = match compile_beat_plan_to_timeline_steps(&performance_plan) {
        Ok(s) => s,
        Err(e) => return Err(e),
    };
    let ghost before = steps@;
    proof { lemma_steps_view_add(before, performance_steps@); }
    steps.append(&mut performance_steps);
    let lie_beat_id = indexed_id(beat_id, n + 3);
    let lie_step_id = indexed_id(step_id, n + 3);
    let lie_plan = match compile_macro_intent_to_beat_plan(
        &MacroIntent::LieDown(LieDownMacroParams {}),
        BeatPlanBuildContext {
            plan_id,
            beat_id: lie_beat_id.as_str(),
            step_id: lie_step_id.as_str(),
            source_ref: fixture_source_ref("ai-macro-demo"),
            created_at,
        },
    ) {
        Ok(p) => p,
        Err(e) => return Err(e),
    };
    let mut lie_steps = match compile_beat_plan_to_timeline_steps(&lie_plan) {
        Ok(s) => s,
        Err(e) => return Err(e),
    };
    let ghost middle = steps@;
    proof { lemma_steps_view_add(middle, lie_steps@); }
    steps.append(&mut lie_steps);
    if steps.len() == 0 {
        return Err(BuddyError::Validation("ai macro demo fixture must compile to at least one timeline step".to_owned()));
    }
    Ok(DevFixturePlan {
        plan_id: plan_id.to_owned(),
        source_ref: fixture_source_ref("ai-macro-demo"),
        steps,
        created_at: created_at.to_owned(),
    })
}


proof fn lemma_performance_beats_compile(beat_id: Seq<char>, step_id: Seq<char>, n: nat)
    ensures
        spec_compile_beats(spec_performance_beats(beat_id, step_id, n), None) matches Ok((s, u)) && s.len() == 3 && !u,
{
    let b = spec_performance_beats(beat_id, step_id, n);
    let b1 = b.drop_first();
    let b2 = b1.drop_first();
    let b3 = b2.drop_first();
    assert(b3.len() == 0);
    assert(spec_compile_beats(b3, None) == Ok::<(Seq<TimelineStepView>, bool), BuddyErrorView>((Seq::empty(), false)));
    assert(b2.len() == 1 && b1.len() == 2);
    assert(b2[0] == b[2]);
    assert(b1[0] == b[1]);
    assert(crate::beat_plan::spec_compile_beat(b[2], None) matches Ok((s, u)) && s.len() == 1 && !u);
    assert(crate::beat_plan::spec_compile_beat(b[1], None) matches Ok((s, u)) && s.len() == 1 && !u);
    assert(crate::beat_plan::spec_compile_beat(b[0], None) matches Ok((s, u)) && s.len() == 1 && !u);
    assert(spec_compile_beats(b2, None) matches Ok((s, u)) && s.len() == 1 && !u);
    assert(spec_compile_beats(b1, None) matches Ok((s, u)) && s.len() == 2 && !u);
}

/// Law: the demo fixture always compiles, to a non-empty timeline.
pub proof fn law_ai_macro_demo_compiles(plan_id: Seq<char>, beat_id: Seq<char>, step_id: Seq<char>, created_at: Seq<char>)
    ensures
        spec_ai_macro_demo_steps(plan_id, beat_id, step_id, created_at) matches Ok(steps) && steps.len() > 0,
{
    let ctx = BuildContextView {
        plan_id,
        beat_id,
        step_id,
        source_ref: spec_fixture_source_ref("ai-macro-demo"@),
        created_at,
    };
    let patrol = MacroIntent::PatrolAroundScreen(PatrolAroundScreenMacroParams { loops: 2 });
    crate::macro_plan::law_valid_macro_compiles_to_timeline(patrol, ctx);
    reveal_strlit("patrolAroundScreen");
    crate::macro_plan::law_fallbacks_name_public_macros(patrol, crate::macro_plan::MacroSemanticFallback::CastActionFailedToCelebrate);
    let p = spec_compile_macro_intent(patrol, ctx)->Ok_0;
    let n = p.beats.len();
    let ctx3 = BuildContextView { beat_id: spec_indexed_id(beat_id, n + 3), step_id: spec_indexed_id(step_id, n + 3), ..ctx };
    let lie = MacroIntent::LieDown(LieDownMacroParams {});
    crate::macro_plan::law_valid_macro_compiles_to_timeline(lie, ctx3);
    crate::macro_plan::law_fallbacks_name_public_macros(lie, crate::macro_plan::MacroSemanticFallback::CastActionFailedToCelebrate);
    lemma_performance_beats_compile(beat_id, step_id, n);
}

} // verus!
