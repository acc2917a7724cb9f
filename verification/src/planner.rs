use vstd::prelude::*;

use crate::error::{BuddyError, BuddyErrorView, BuddyResult};
use crate::text::{
    concat3, concat_str, opt_str_view, opt_to_owned, seq_char_lt, spec_zero_padded, str_eq, str_lt,
    zero_padded_string,
};
use crate::timeline::{
    lemma_steps_view, lemma_steps_view_push, options_view, step_view, steps_view,
    ChooseOption, ChooseOptionView, ChooseStep, MoveByPathStepView, MoveToStepView, PlayActionStep,
    PlayActionStepView, RecoverStep, ReplaceStep, RestorePositionStepView, RetryStep, SkipStepView,
    SnapshotPositionStepView, TimelinePlan, TimelineStep, TimelineStepView, TryStep, WaitStepView,
};

verus! {

/// The most steps a planner expansion may produce in one list.
pub const MAX_EXPANDED_TIMELINE_STEPS: usize = 512;

/// The most attempts a retry step may make.
pub const MAX_TIMELINE_RETRY_ATTEMPTS: u8 = 5;

pub type ExpandResult = Result<(Seq<TimelineStepView>, bool), BuddyErrorView>;

// ---------------------------------------------------------------------------
// Specification of planner expansion.
// ---------------------------------------------------------------------------

pub open spec fn spec_repeated_step_id(step_id: Seq<char>, suffix: Seq<char>) -> Seq<char> {
    step_id + "__"@ + suffix
}

pub open spec fn spec_repeated_step_id_if_needed(step_id: Seq<char>, suffix: Option<Seq<char>>) -> Seq<char> {
    match suffix {
        Some(s) => spec_repeated_step_id(step_id, s),
        None => step_id,
    }
}

pub open spec fn spec_repeated_iteration_suffix(parent: Option<Seq<char>>, one_based_index: nat) -> Seq<char> {
    let own = "repeat_"@ + spec_zero_padded(one_based_index, 3);
    match parent {
        Some(p) => p + "__"@ + own,
        None => own,
    }
}

/// The step with its id (and a play action's finalizer reference) carrying the repeat suffix.
pub open spec fn spec_repeated_timeline_step_id(step: TimelineStepView, suffix: Option<Seq<char>>) -> TimelineStepView {
    match suffix {
        None => step,
        Some(sfx) => match step {
            TimelineStepView::PlayAction(s) => TimelineStepView::PlayAction(PlayActionStepView {
                step_id: spec_repeated_step_id(s.step_id, sfx),
                pending_handoff_finalizer_step_id: match s.pending_handoff_finalizer_step_id {
                    Some(f) => Some(spec_repeated_step_id(f, sfx)),
                    None => None,
                },
                ..s
            }),
            TimelineStepView::MoveTo(s) => TimelineStepView::MoveTo(
                MoveToStepView { step_id: spec_repeated_step_id(s.step_id, sfx), ..s },
            ),
            TimelineStepView::MoveByPath(s) => TimelineStepView::MoveByPath(
                MoveByPathStepView { step_id: spec_repeated_step_id(s.step_id, sfx), ..s },
            ),
            TimelineStepView::Wait(s) => TimelineStepView::Wait(
                WaitStepView { step_id: spec_repeated_step_id(s.step_id, sfx), ..s },
            ),
            TimelineStepView::Skip(s) => TimelineStepView::Skip(
                SkipStepView { step_id: spec_repeated_step_id(s.step_id, sfx), ..s },
            ),
            TimelineStepView::SnapshotPosition(s) => TimelineStepView::SnapshotPosition(
                SnapshotPositionStepView { step_id: spec_repeated_step_id(s.step_id, sfx), ..s },
            ),
            TimelineStepView::RestorePosition(s) => TimelineStepView::RestorePosition(
                RestorePositionStepView { step_id: spec_repeated_step_id(s.step_id, sfx), ..s },
            ),
            TimelineStepView::Try { step_id, kind, steps, fallback_steps } => TimelineStepView::Try {
                step_id: spec_repeated_step_id(step_id, sfx),
                kind,
                steps,
                fallback_steps,
            },
            TimelineStepView::Retry { step_id, kind, max_attempts, steps } => TimelineStepView::Retry {
                step_id: spec_repeated_step_id(step_id, sfx),
                kind,
                max_attempts,
                steps,
            },
            TimelineStepView::Replace { step_id, kind, steps, replacement_steps } => TimelineStepView::Replace {
                step_id: spec_repeated_step_id(step_id, sfx),
                kind,
                steps,
                replacement_steps,
            },
            TimelineStepView::Recover { step_id, kind, steps, recovery_steps } => TimelineStepView::Recover {
                step_id: spec_repeated_step_id(step_id, sfx),
                kind,
                steps,
                recovery_steps,
            },
            TimelineStepView::Repeat { .. } | TimelineStepView::Choose { .. } | TimelineStepView::SetFallback { .. } => step,
        },
    }
}

/// A play action after the planner applies the inherited fallback action (when the step has
/// none of its own) and the repeat suffix; the flag tells whether the inherited fallback was used.
pub open spec fn spec_play_action_with_planner_context(
    step: PlayActionStepView,
    inherited_fallback_action_id: Option<Seq<char>>,
    repeated_step_suffix: Option<Seq<char>>,
) -> (TimelineStepView, bool) {
    if step.fallback_action_id is None {
        (
            spec_repeated_timeline_step_id(
                TimelineStepView::PlayAction(PlayActionStepView { fallback_action_id: inherited_fallback_action_id, ..step }),
                repeated_step_suffix,
            ),
            inherited_fallback_action_id is Some,
        )
    } else {
        (spec_repeated_timeline_step_id(TimelineStepView::PlayAction(step), repeated_step_suffix), false)
    }
}

pub open spec fn spec_step_count_exceeded() -> BuddyErrorView {
    BuddyErrorView::Validation("expanded timeline step count exceeds 512"@)
}

/// Appending one step to an expansion, refused once the list is full.
pub open spec fn spec_push_expanded(step: TimelineStepView, acc: Seq<TimelineStepView>) -> Result<Seq<TimelineStepView>, BuddyErrorView> {
    if acc.len() >= MAX_EXPANDED_TIMELINE_STEPS {
        Err(spec_step_count_exceeded())
    } else {
        Ok(acc.push(step))
    }
}

/// Option `a` is preferred to `b` by the weighted strategy: a higher weight, then a smaller id.
pub open spec fn spec_option_preferred(a: ChooseOptionView, b: ChooseOptionView) -> bool {
    a.weight > b.weight || (a.weight == b.weight && seq_char_lt(a.option_id, b.option_id))
}

/// The index of the option the weighted strategy picks among the first `n` options: the
/// earliest option that no other option is preferred to.
pub open spec fn spec_weighted_choice(options: Seq<ChooseOptionView>, n: int) -> int
    decreases n,
{
    if n <= 1 {
        0
    } else {
        let best = spec_weighted_choice(options, n - 1);
        if spec_option_preferred(options[n - 1], options[best]) {
            n - 1
        } else {
            best
        }
    }
}

/// The index of the first option with no nested steps, from `start` on.
pub open spec fn spec_first_empty_option(options: Seq<ChooseOptionView>, start: int) -> Option<int>
    decreases options.len() - start,
{
    if start < 0 || start >= options.len() {
        None
    } else if options[start].steps.len() == 0 {
        Some(start)
    } else {
        spec_first_empty_option(options, start + 1)
    }
}

/// Which option of a choose step the planner keeps, or why the step is refused.
pub open spec fn spec_select_choose_option(
    step_id: Seq<char>,
    strategy: Seq<char>,
    options: Seq<ChooseOptionView>,
) -> Result<int, BuddyErrorView> {
    if options.len() == 0 {
        Err(BuddyErrorView::Validation("choose timeline step must contain at least one option: "@ + step_id))
    } else if spec_first_empty_option(options, 0) is Some {
        let i = spec_first_empty_option(options, 0)->0;
        Err(BuddyErrorView::Validation(
            "choose timeline option "@ + options[i].option_id + " must contain at least one nested step: "@ + step_id,
        ))
    } else if strategy == "first"@ {
        Ok(0)
    } else if strategy == "weighted"@ {
        Ok(spec_weighted_choice(options, options.len() as int))
    } else {
        Err(BuddyErrorView::Validation("unsupported choose timeline strategy `"@ + strategy + "`: "@ + step_id))
    }
}

pub open spec fn spec_or_consumed(r: ExpandResult, consumed: bool) -> ExpandResult {
    match r {
        Ok((acc, c)) => Ok((acc, consumed || c)),
        Err(e) => Err(e),
    }
}

/// Expanding a list of steps, in order, onto `acc`; the flag tells whether any play action took
/// the inherited fallback action.
pub open spec fn spec_expand_steps(
    steps: Seq<TimelineStepView>,
    inherited: Option<Seq<char>>,
    suffix: Option<Seq<char>>,
    acc: Seq<TimelineStepView>,
) -> ExpandResult
    decreases steps, 0int,
{
    if steps.len() == 0 {
        Ok((acc, false))
    } else {
        match spec_expand_step(steps[0], inherited, suffix, acc) {
            Err(e) => Err(e),
            Ok((acc1, c1)) => spec_or_consumed(spec_expand_steps(steps.drop_first(), inherited, suffix, acc1), c1),
        }
    }
}

/// Expanding iterations `done + 1 ..= times` of a repeat step onto `acc`.
pub open spec fn spec_expand_repeat(
    steps: Seq<TimelineStepView>,
    times: nat,
    done: nat,
    inherited: Option<Seq<char>>,
    suffix: Option<Seq<char>>,
    acc: Seq<TimelineStepView>,
) -> ExpandResult
    decreases steps, times - done + 1,
{
    if done >= times {
        Ok((acc, false))
    } else {
        match spec_expand_steps(steps, inherited, Some(spec_repeated_iteration_suffix(suffix, done + 1)), acc) {
            Err(e) => Err(e),
            Ok((acc1, c1)) => spec_or_consumed(spec_expand_repeat(steps, times, done + 1, inherited, suffix, acc1), c1),
        }
    }
}

/// Expanding one step onto `acc`.
pub open spec fn spec_expand_step(
    step: TimelineStepView,
    inherited: Option<Seq<char>>,
    suffix: Option<Seq<char>>,
    acc: Seq<TimelineStepView>,
) -> ExpandResult
    decreases step, 0int,
{
    match step {
        TimelineStepView::PlayAction(s) => {
            let (t, c) = spec_play_action_with_planner_context(s, inherited, suffix);
            match spec_push_expanded(t, acc) {
                Ok(a) => Ok((a, c)),
                Err(e) => Err(e),
            }
        },
        TimelineStepView::MoveTo(_) | TimelineStepView::MoveByPath(_) | TimelineStepView::Wait(_)
        | TimelineStepView::Skip(_) | TimelineStepView::SnapshotPosition(_)
        | TimelineStepView::RestorePosition(_) => match spec_push_expanded(spec_repeated_timeline_step_id(step, suffix), acc) {
            Ok(a) => Ok((a, false)),
            Err(e) => Err(e),
        },
        TimelineStepView::Repeat { step_id, times, steps, .. } => {
            if times == 0 {
                Err(BuddyErrorView::Validation("repeat timeline step times must be greater than zero: "@ + step_id))
            } else if steps.len() == 0 {
                Err(BuddyErrorView::Validation("repeat timeline step must contain at least one nested step: "@ + step_id))
            } else {
                spec_expand_repeat(steps, times as nat, 0, inherited, suffix, acc)
            }
        },
        TimelineStepView::Choose { step_id, strategy, options, .. } => match spec_select_choose_option(step_id, strategy, options) {
            Err(e) => Err(e),
            Ok(i) => if 0 <= i < options.len() {
                spec_expand_steps(options[i].steps, inherited, suffix, acc)
            } else {
                Ok((acc, false))
            },
        },
        TimelineStepView::SetFallback { step_id, fallback_action_id, steps, .. } => match spec_expand_steps(steps, Some(fallback_action_id), suffix, acc) {
            Err(e) => Err(e),
            Ok((a, c)) => if !c {
                Err(BuddyErrorView::Validation(
                    "setFallback step "@ + step_id + " must apply to at least one playAction timeline step"@,
                ))
            } else {
                Ok((a, false))
            },
        },
        TimelineStepView::Retry { step_id, kind, max_attempts, steps } => {
            if max_attempts < 2 {
                Err(BuddyErrorView::Validation("retry timeline step maxAttempts must be at least two: "@ + step_id))
            } else if max_attempts > MAX_TIMELINE_RETRY_ATTEMPTS {
                Err(BuddyErrorView::Validation("retry timeline step maxAttempts must be at most 5: "@ + step_id))
            } else if steps.len() == 0 {
                Err(BuddyErrorView::Validation("retry timeline step must contain at least one nested step: "@ + step_id))
            } else {
                match spec_expand_steps(steps, inherited, suffix, Seq::empty()) {
                    Err(e) => Err(e),
                    Ok((inner, c)) => match spec_push_expanded(
                        TimelineStepView::Retry {
                            step_id: spec_repeated_step_id_if_needed(step_id, suffix),
                            kind,
                            max_attempts,
                            steps: inner,
                        },
                        acc,
                    ) {
                        Ok(a) => Ok((a, c)),
                        Err(e) => Err(e),
                    },
                }
            }
        },
        TimelineStepView::Replace { step_id, kind, steps, replacement_steps } => {
            if steps.len() == 0 {
                Err(BuddyErrorView::Validation("replaceStep timeline step must contain at least one primary step: "@ + step_id))
            } else if replacement_steps.len() == 0 {
                Err(BuddyErrorView::Validation("replaceStep timeline step must contain at least one replacement step: "@ + step_id))
            } else {
                match spec_expand_steps(steps, inherited, suffix, Seq::empty()) {
                    Err(e) => Err(e),
                    Ok((p, c1)) => match spec_expand_steps(replacement_steps, inherited, suffix, Seq::empty()) {
                        Err(e) => Err(e),
                        Ok((r, c2)) => match spec_push_expanded(
                            TimelineStepView::Replace {
                                step_id: spec_repeated_step_id_if_needed(step_id, suffix),
                                kind,
                                steps: p,
                                replacement_steps: r,
                            },
                            acc,
                        ) {
                            Ok(a) => Ok((a, c1 || c2)),
                            Err(e) => Err(e),
                        },
                    },
                }
            }
        },
        TimelineStepView::Recover { step_id, kind, steps, recovery_steps } => {
            if steps.len() == 0 {
                Err(BuddyErrorView::Validation("recover timeline step must contain at least one primary step: "@ + step_id))
            } else if recovery_steps.len() == 0 {
                Err(BuddyErrorView::Validation("recover timeline step must contain at least one recovery step: "@ + step_id))
            } else {
                match spec_expand_steps(steps, inherited, suffix, Seq::empty()) {
                    Err(e) => Err(e),
                    Ok((p, c1)) => match spec_expand_steps(recovery_steps, inherited, suffix, Seq::empty()) {
                        Err(e) => Err(e),
                        Ok((r, c2)) => match spec_push_expanded(
                            TimelineStepView::Recover {
                                step_id: spec_repeated_step_id_if_needed(step_id, suffix),
                                kind,
                                steps: p,
                                recovery_steps: r,
                            },
                            acc,
                        ) {
                            Ok(a) => Ok((a, c1 || c2)),
                            Err(e) => Err(e),
                        },
                    },
                }
            }
        },
        TimelineStepView::Try { step_id, kind, steps, fallback_steps } => {
            if steps.len() == 0 {
                Err(BuddyErrorView::Validation("try timeline step must contain at least one primary step: "@ + step_id))
            } else if fallback_steps.len() == 0 {
                Err(BuddyErrorView::Validation("try timeline step must contain at least one fallback step: "@ + step_id))
            } else {
                match spec_expand_steps(steps, inherited, suffix, Seq::empty()) {
                    Err(e) => Err(e),
                    Ok((p, c1)) => match spec_expand_steps(fallback_steps, inherited, suffix, Seq::empty()) {
                        Err(e) => Err(e),
                        Ok((r, c2)) => match spec_push_expanded(
                            TimelineStepView::Try {
                                step_id: spec_repeated_step_id_if_needed(step_id, suffix),
                                kind,
                                steps: p,
                                fallback_steps: r,
                            },
                            acc,
                        ) {
                            Ok(a) => Ok((a, c1 || c2)),
                            Err(e) => Err(e),
                        },
                    },
                }
            }
        },
    }
}

// ---------------------------------------------------------------------------
// Planner expansion.
// ---------------------------------------------------------------------------

pub open spec fn expand_matches<T>(r: BuddyResult<T>, spec: Result<T, BuddyErrorView>) -> bool {
    match spec {
        Ok(v) => r == Ok::<T, BuddyError>(v),
        Err(e) => r is Err && r->Err_0@ == e,
    }
}

/// The id a step takes in one iteration of a repeat.
pub fn repeated_step_id(step_id: &str, suffix: &str) -> (r: String)
    ensures
        r@ == spec_repeated_step_id(step_id@, suffix@),
{
    concat3(step_id, "__", suffix)
}

/// The id a step takes, suffixed only inside a repeat.
pub fn repeated_step_id_if_needed(step_id: &str, suffix: Option<&str>) -> (r: String)
    ensures
        r@ == spec_repeated_step_id_if_needed(step_id@, opt_str_view(suffix)),
{
    match suffix {
        Some(suffix) => repeated_step_id(step_id, suffix),
        None => step_id.to_owned(),
    }
}

/// The suffix of iteration `one_based_index` of a repeat nested in `parent_suffix`.
pub fn repeated_iteration_suffix(parent_suffix: Option<&str>, one_based_index: usize) -> (r: String)
    ensures
        r@ == spec_repeated_iteration_suffix(opt_str_view(parent_suffix), one_based_index as nat),
{
    let own = concat_str("repeat_", zero_padded_string(one_based_index as u64, 3).as_str());
    match parent_suffix {
        Some(parent) => concat3(parent, "__", own.as_str()),
        None => own,
    }
}

/// The step renamed for one iteration of a repeat.
pub fn repeated_timeline_step_id(step: TimelineStep, repeated_step_suffix: Option<&str>) -> (r: TimelineStep)
    ensures
        r@ == spec_repeated_timeline_step_id(step@, opt_str_view(repeated_step_suffix)),
{
    let suffix = match repeated_step_suffix {
        Some(suffix) => suffix,
        None => return step,
    };
    match step {
        TimelineStep::PlayAction(mut s) => {
            s.step_id = repeated_step_id(s.step_id.as_str(), suffix);
            s.pending_handoff_finalizer_step_id = match &s.pending_handoff_finalizer_step_id {
                Some(f) => Some(repeated_step_id(f.as_str(), suffix)),
                None => None,
            };
            TimelineStep::PlayAction(s)
        },
        TimelineStep::MoveTo(mut s) => {
            s.step_id = repeated_step_id(s.step_id.as_str(), suffix);
            TimelineStep::MoveTo(s)
        },
        TimelineStep::MoveByPath(mut s) => {
            s.step_id = repeated_step_id(s.step_id.as_str(), suffix);
            TimelineStep::MoveByPath(s)
        },
        TimelineStep::Wait(mut s) => {
            s.step_id = repeated_step_id(s.step_id.as_str(), suffix);
            TimelineStep::Wait(s)
        },
        TimelineStep::Skip(mut s) => {
            s.step_id = repeated_step_id(s.step_id.as_str(), suffix);
            TimelineStep::Skip(s)
        },
        TimelineStep::SnapshotPosition(mut s) => {
            s.step_id = repeated_step_id(s.step_id.as_str(), suffix);
            TimelineStep::SnapshotPosition(s)
        },
        TimelineStep::RestorePosition(mut s) => {
            s.step_id = repeated_step_id(s.step_id.as_str(), suffix);
            TimelineStep::RestorePosition(s)
        },
        TimelineStep::Try(mut s) => {
            s.step_id = repeated_step_id(s.step_id.as_str(), suffix);
            TimelineStep::Try(s)
        },
        TimelineStep::Retry(mut s) => {
            s.step_id = repeated_step_id(s.step_id.as_str(), suffix);
            TimelineStep::Retry(s)
        },
        TimelineStep::Replace(mut s) => {
            s.step_id = repeated_step_id(s.step_id.as_str(), suffix);
            TimelineStep::Replace(s)
        },
        TimelineStep::Recover(mut s) => {
            s.step_id = repeated_step_id(s.step_id.as_str(), suffix);
            TimelineStep::Recover(s)
        },
        TimelineStep::Repeat(s) => TimelineStep::Repeat(s),
        TimelineStep::Choose(s) => TimelineStep::Choose(s),
        TimelineStep::SetFallback(s) => TimelineStep::SetFallback(s),
    }
}

/// A play action with the planner's inherited fallback action and repeat suffix applied.
pub fn play_action_step_with_planner_context(
    step: &PlayActionStep,
    inherited_fallback_action_id: Option<&str>,
    repeated_step_suffix: Option<&str>,
) -> (r: (TimelineStep, bool))
    ensures
        (r.0@, r.1) == spec_play_action_with_planner_context(
            step@,
            opt_str_view(inherited_fallback_action_id),
            opt_str_view(repeated_step_suffix),
        ),
{
    let mut step = step.clone();
    let mut consumed_inherited_fallback = false;
    if step.fallback_action_id.is_none() {
        step.fallback_action_id = opt_to_owned(inherited_fallback_action_id);
        consumed_inherited_fallback = inherited_fallback_action_id.is_some();
    }
    (repeated_timeline_step_id(TimelineStep::PlayAction(step), repeated_step_suffix), consumed_inherited_fallback)
}

/// Appends a step to an expansion, refusing to grow it past the limit.
pub fn push_expanded_timeline_step(step: TimelineStep, expanded_steps: &mut Vec<TimelineStep>) -> (r: BuddyResult<()>)
    ensures
        match spec_push_expanded(step@, steps_view(old(expanded_steps)@)) {
            Ok(a) => r is Ok && steps_view(final(expanded_steps)@) == a,
            Err(e) => r is Err && r->Err_0@ == e && final(expanded_steps)@ == old(expanded_steps)@,
        },
{
    if expanded_steps.len() >= MAX_EXPANDED_TIMELINE_STEPS {
        proof { lemma_steps_view(expanded_steps@); }
        return Err(BuddyError::Validation("expanded timeline step count exceeds 512".to_owned()));
    }
    proof {
        lemma_steps_view(expanded_steps@);
        lemma_steps_view_push(expanded_steps@, step);
    }
    expanded_steps.push(step);
    Ok(())
}

/// A validation error whose text is `prefix` followed by `id`.
pub fn validation_error(prefix: &str, id: &str) -> (e: BuddyError)
    ensures
        e@ == BuddyErrorView::Validation(prefix@ + id@),
{
    BuddyError::Validation(concat_str(prefix, id))
}

pub proof fn lemma_options_view(options: Seq<ChooseOption>)
    ensures
        options_view(options).len() == options.len(),
        forall|i: int| 0 <= i < options.len() ==> #[trigger] options_view(options)[i] == (ChooseOptionView {
            option_id: options[i].option_id@,
            weight: options[i].weight,
            steps: steps_view(options[i].steps@),
        }),
{
}

proof fn lemma_first_empty_option_step(options: Seq<ChooseOptionView>, i: int)
    requires
        0 <= i < options.len(),
        options[i].steps.len() != 0,
    ensures
        spec_first_empty_option(options, i) == spec_first_empty_option(options, i + 1),
{
}

/// Picks the option of a choose step that the planner expands.
pub fn select_choose_option(step: &ChooseStep) -> (r: BuddyResult<&ChooseOption>)
    ensures
        match spec_select_choose_option(step.step_id@, step.strategy@, options_view(step.options@)) {
            Ok(i) => r is Ok && 0 <= i < step.options@.len() && *r->Ok_0 == step.options@[i],
            Err(e) => r is Err && r->Err_0@ == e,
        },
{
    let ghost ov = options_view(step.options@);
    proof { lemma_options_view(step.options@); }
    if step.options.len() == 0 {
        return Err(validation_error("choose timeline step must contain at least one option: ", step.step_id.as_str()));
    }
    let mut i: usize = 0;
    while i < step.options.len()
        invariant
            i <= step.options@.len(),
            ov == options_view(step.options@),
            ov.len() == step.options@.len(),
            forall|k: int| 0 <= k < step.options@.len() ==> #[trigger] ov[k] == (ChooseOptionView {
                option_id: step.options@[k].option_id@,
                weight: step.options@[k].weight,
                steps: steps_view(step.options@[k].steps@),
            }),
            spec_first_empty_option(ov, 0) == spec_first_empty_option(ov, i as int),
        decreases step.options@.len() - i,
    {
        let option = &step.options[i];
        proof { lemma_steps_view(option.steps@); }
        if option.steps.len() == 0 {
            let m = concat3("choose timeline option ", option.option_id.as_str(), " must contain at least one nested step: ");
            return Err(validation_error(m.as_str(), step.step_id.as_str()));
        }
        proof { lemma_first_empty_option_step(ov, i as int); }
        i = i + 1;
    }
    proof {
        assert(spec_first_empty_option(ov, step.options@.len() as int) is None);
    }
    if str_eq(step.strategy.as_str(), "first") {
        return Ok(&step.options[0]);
    }
    if str_eq(step.strategy.as_str(), "weighted") {
        let mut best: usize = 0;
        let mut k: usize = 1;
        while k < step.options.len()
            invariant
                1 <= k <= step.options@.len(),
                best < k,
                best as int == spec_weighted_choice(ov, k as int),
                ov.len() == step.options@.len(),
                forall|j: int| 0 <= j < step.options@.len() ==> #[trigger] ov[j] == (ChooseOptionView {
                    option_id: step.options@[j].option_id@,
                    weight: step.options@[j].weight,
                    steps: steps_view(step.options@[j].steps@),
                }),
            decreases step.options@.len() - k,
        {
            let candidate = &step.options[k];
            let current = &step.options[best];
            let preferred = candidate.weight > current.weight || (candidate.weight == current.weight
                && str_lt(candidate.option_id.as_str(), current.option_id.as_str()));
            proof {
                assert(ov[k as int] == (ChooseOptionView { option_id: candidate.option_id@, weight: candidate.weight, steps: steps_view(candidate.steps@) }));
                assert(ov[best as int] == (ChooseOptionView { option_id: current.option_id@, weight: current.weight, steps: steps_view(current.steps@) }));
            }
            if preferred {
                best = k;
            }
            k = k + 1;
        }
        return Ok(&step.options[best]);
    }
    let m = concat3("unsupported choose timeline strategy `", step.strategy.as_str(), "`: ");
    Err(validation_error(m.as_str(), step.step_id.as_str()))
}

proof fn lemma_expand_steps_unfold(
    steps: Seq<TimelineStepView>,
    i: int,
    inherited: Option<Seq<char>>,
    suffix: Option<Seq<char>>,
    acc: Seq<TimelineStepView>,
)
    requires
        0 <= i < steps.len(),
    ensures
        spec_expand_steps(steps.skip(i), inherited, suffix, acc) == match spec_expand_step(steps[i], inherited, suffix, acc) {
            Err(e) => Err(e),
            Ok((acc1, c1)) => spec_or_consumed(spec_expand_steps(steps.skip(i + 1), inherited, suffix, acc1), c1),
        },
{
    assert(steps.skip(i)[0] == steps[i]);
    assert(steps.skip(i).drop_first() =~= steps.skip(i + 1));
}

proof fn lemma_steps_view_empty()
    ensures
        steps_view(Seq::<TimelineStep>::empty()) == Seq::<TimelineStepView>::empty(),
{
    assert(steps_view(Seq::<TimelineStep>::empty()) =~= Seq::<TimelineStepView>::empty());
}

/// Expands planner steps (repeat, choose, setFallback) in a list of steps, in order, onto
/// `expanded_steps`. Returns whether any play action took the inherited fallback action.
#[verifier::loop_isolation(false)]
pub fn expand_planner_steps_into(
    steps: &Vec<TimelineStep>,
    inherited_fallback_action_id: Option<&str>,
    repeated_step_suffix: Option<&str>,
    expanded_steps: &mut Vec<TimelineStep>,
) -> (r: BuddyResult<bool>)
    ensures
        match spec_expand_steps(
            steps_view(steps@),
            opt_str_view(inherited_fallback_action_id),
            opt_str_view(repeated_step_suffix),
            steps_view(old(expanded_steps)@),
        ) {
            Ok((a, c)) => r == Ok::<bool, BuddyError>(c) && steps_view(final(expanded_steps)@) == a,
            Err(e) => r is Err && r->Err_0@ == e,
        },
    decreases steps, 0int,
{
    let ghost inh = opt_str_view(inherited_fallback_action_id);
    let ghost sfx = opt_str_view(repeated_step_suffix);
    let ghost v = steps_view(steps@);
    let ghost acc0 = steps_view(expanded_steps@);
    proof { lemma_steps_view(steps@); }
    let mut consumed_inherited_fallback = false;
    let mut i: usize = 0;
    assert(v.skip(0) =~= v);
    while i < steps.len()
        invariant
            i <= steps@.len(),
            v.len() == steps@.len(),
            spec_expand_steps(v, inh, sfx, acc0) == spec_or_consumed(
                spec_expand_steps(v.skip(i as int), inh, sfx, steps_view(expanded_steps@)),
                consumed_inherited_fallback,
            ),
        decreases steps@.len() - i,
    {
        proof {
            lemma_expand_steps_unfold(v, i as int, inh, sfx, steps_view(expanded_steps@));
            vstd::std_specs::vec::axiom_vec_index_decreases(*steps, i as int);
        }
        match expand_planner_step_into(&steps[i], inherited_fallback_action_id, repeated_step_suffix, expanded_steps) {
            Err(e) => return Err(e),
            Ok(c) => {
                consumed_inherited_fallback = consumed_inherited_fallback || c;
            },
        }
        i = i + 1;
    }
    proof {
        assert(v.skip(i as int) =~= Seq::<TimelineStepView>::empty());
    }
    Ok(consumed_inherited_fallback)
}

/// Expands the planner steps of every list into a fresh list.
fn expand_into_new(
    steps: &Vec<TimelineStep>,
    inherited_fallback_action_id: Option<&str>,
    repeated_step_suffix: Option<&str>,
) -> (r: BuddyResult<(Vec<TimelineStep>, bool)>)
    ensures
        match spec_expand_steps(
            steps_view(steps@),
            opt_str_view(inherited_fallback_action_id),
            opt_str_view(repeated_step_suffix),
            Seq::empty(),
        ) {
            Ok((a, c)) => r is Ok && r->Ok_0.1 == c && steps_view(r->Ok_0.0@) == a,
            Err(e) => r is Err && r->Err_0@ == e,
        },
    decreases steps, 1int,
{
    let mut out: Vec<TimelineStep> = Vec::new();
    proof { lemma_steps_view_empty(); assert(out@ =~= Seq::<TimelineStep>::empty()); }
    match expand_planner_steps_into(steps, inherited_fallback_action_id, repeated_step_suffix, &mut out) {
        Err(e) => Err(e),
        Ok(c) => Ok((out, c)),
    }
}

fn expanded_result(r: BuddyResult<()>, consumed: bool) -> (out: BuddyResult<bool>)
    ensures
        r is Ok ==> out == Ok::<bool, BuddyError>(consumed),
        r is Err ==> out is Err && out->Err_0 == r->Err_0,
{
    match r {
        Ok(()) => Ok(consumed),
        Err(e) => Err(e),
    }
}

/// Expands one step onto `expanded_steps`. Returns whether a play action took the inherited
/// fallback action.
#[verifier::loop_isolation(false)]
#[verifier::rlimit(60)]
pub fn expand_planner_step_into(
    step: &TimelineStep,
    inherited_fallback_action_id: Option<&str>,
    repeated_step_suffix: Option<&str>,
    expanded_steps: &mut Vec<TimelineStep>,
) -> (r: BuddyResult<bool>)
    ensures
        match spec_expand_step(
            step@,
            opt_str_view(inherited_fallback_action_id),
            opt_str_view(repeated_step_suffix),
            steps_view(old(expanded_steps)@),
        ) {
            Ok((a, c)) => r == Ok::<bool, BuddyError>(c) && steps_view(final(expanded_steps)@) == a,
            Err(e) => r is Err && r->Err_0@ == e,
        },
        r is Err && !spec_expands_in_place(step@) ==> final(expanded_steps)@ == old(expanded_steps)@,
    decreases step, 0int,
{
    let ghost inh = opt_str_view(inherited_fallback_action_id);
    let ghost sfx = opt_str_view(repeated_step_suffix);
    let ghost acc0 = steps_view(expanded_steps@);
    match step {
        TimelineStep::PlayAction(s) => {
            let (t, c) = play_action_step_with_planner_context(s, inherited_fallback_action_id, repeated_step_suffix);
            expanded_result(push_expanded_timeline_step(t, expanded_steps), c)
        },
        TimelineStep::MoveTo(s) => {
            let t = repeated_timeline_step_id(TimelineStep::MoveTo(s.clone()), repeated_step_suffix);
            expanded_result(push_expanded_timeline_step(t, expanded_steps), false)
        },
        TimelineStep::MoveByPath(s) => {
            let t = repeated_timeline_step_id(TimelineStep::MoveByPath(s.duplicate()), repeated_step_suffix);
            expanded_result(push_expanded_timeline_step(t, expanded_steps), false)
        },
        TimelineStep::Wait(s) => {
            let t = repeated_timeline_step_id(TimelineStep::Wait(s.clone()), repeated_step_suffix);
            expanded_result(push_expanded_timeline_step(t, expanded_steps), false)
        },
        TimelineStep::Skip(s) => {
            let t = repeated_timeline_step_id(TimelineStep::Skip(s.clone()), repeated_step_suffix);
            expanded_result(push_expanded_timeline_step(t, expanded_steps), false)
        },
        TimelineStep::SnapshotPosition(s) => {
            let t = repeated_timeline_step_id(TimelineStep::SnapshotPosition(s.clone()), repeated_step_suffix);
            expanded_result(push_expanded_timeline_step(t, expanded_steps), false)
        },
        TimelineStep::RestorePosition(s) => {
            let t = repeated_timeline_step_id(TimelineStep::RestorePosition(s.clone()), repeated_step_suffix);
            expanded_result(push_expanded_timeline_step(t, expanded_steps), false)
        },
        TimelineStep::Repeat(s) => {
            proof { lemma_steps_view(s.steps@); }
            if s.times == 0 {
                return Err(validation_error("repeat timeline step times must be greater than zero: ", s.step_id.as_str()));
            }
            if s.steps.len() == 0 {
                return Err(validation_error("repeat timeline step must contain at least one nested step: ", s.step_id.as_str()));
            }
            let ghost v = steps_view(s.steps@);
            let mut consumed_inherited_fallback = false;
            let mut k: u16 = 0;
            while k < s.times
                invariant
                    k <= s.times,
                    spec_expand_repeat(v, s.times as nat, 0, inh, sfx, acc0) == spec_or_consumed(
                        spec_expand_repeat(v, s.times as nat, k as nat, inh, sfx, steps_view(expanded_steps@)),
                        consumed_inherited_fallback,
                    ),
                decreases s.times - k,
            {
                let iteration_suffix = repeated_iteration_suffix(repeated_step_suffix, k as usize + 1);
                proof {
                    assert(decreases_to!(*step => s.steps));
                }
                match expand_planner_steps_into(&s.steps, inherited_fallback_action_id, Some(iteration_suffix.as_str()), expanded_steps) {
                    Err(e) => return Err(e),
                    Ok(c) => {
                        consumed_inherited_fallback = consumed_inherited_fallback || c;
                    },
                }
                k = k + 1;
            }
            Ok(consumed_inherited_fallback)
        },
        TimelineStep::Choose(s) => {
            let ghost choice = spec_select_choose_option(s.step_id@, s.strategy@, options_view(s.options@));
            match select_choose_option(s) {
                Err(e) => Err(e),
                Ok(selected) => {
                    proof {
                        lemma_options_view(s.options@);
                        let i = choice->Ok_0;
                        assert(decreases_to!(*step => s.options));
                        vstd::std_specs::vec::axiom_vec_index_decreases(s.options, i);
                        assert(decreases_to!(s.options@[i] => s.options@[i].steps));
                    }
                    expand_planner_steps_into(&selected.steps, inherited_fallback_action_id, repeated_step_suffix, expanded_steps)
                },
            }
        },
        TimelineStep::SetFallback(s) => {
            proof { assert(decreases_to!(*step => s.steps)); }
            match expand_planner_steps_into(&s.steps, Some(s.fallback_action_id.as_str()), repeated_step_suffix, expanded_steps) {
                Err(e) => Err(e),
                Ok(c) => {
                    if !c {
                        let m = concat3("setFallback step ", s.step_id.as_str(), " must apply to at least one playAction timeline step");
                        return Err(BuddyError::Validation(m));
                    }
                    Ok(false)
                },
            }
        },
        TimelineStep::Retry(s) => {
            proof { lemma_steps_view(s.steps@); }
            if s.max_attempts < 2 {
                return Err(validation_error("retry timeline step maxAttempts must be at least two: ", s.step_id.as_str()));
            }
            if s.max_attempts > MAX_TIMELINE_RETRY_ATTEMPTS {
                return Err(validation_error("retry timeline step maxAttempts must be at most 5: ", s.step_id.as_str()));
            }
            if s.steps.len() == 0 {
                return Err(validation_error("retry timeline step must contain at least one nested step: ", s.step_id.as_str()));
            }
            proof { assert(decreases_to!(*step => s.steps)); }
            let (retry_steps, consumed) = match expand_into_new(&s.steps, inherited_fallback_action_id, repeated_step_suffix) {
                Err(e) => return Err(e),
                Ok(x) => x,
            };
            let t = TimelineStep::Retry(RetryStep {
                step_id: repeated_step_id_if_needed(s.step_id.as_str(), repeated_step_suffix),
                kind: s.kind.clone(),
                max_attempts: s.max_attempts,
                steps: retry_steps,
            });
            expanded_result(push_expanded_timeline_step(t, expanded_steps), consumed)
        },
        TimelineStep::Replace(s) => {
            proof { lemma_steps_view(s.steps@); lemma_steps_view(s.replacement_steps@); }
            if s.steps.len() == 0 {
                return Err(validation_error("replaceStep timeline step must contain at least one primary step: ", s.step_id.as_str()));
            }
            if s.replacement_steps.len() == 0 {
                return Err(validation_error("replaceStep timeline step must contain at least one replacement step: ", s.step_id.as_str()));
            }
            proof { assert(decreases_to!(*step => s.steps)); assert(decreases_to!(*step => s.replacement_steps)); }
            let (primary, c1) = match expand_into_new(&s.steps, inherited_fallback_action_id, repeated_step_suffix) {
                Err(e) => return Err(e),
                Ok(x) => x,
            };
            let (replacement, c2) = match expand_into_new(&s.replacement_steps, inherited_fallback_action_id, repeated_step_suffix) {
                Err(e) => return Err(e),
                Ok(x) => x,
            };
            let t = TimelineStep::Replace(ReplaceStep {
                step_id: repeated_step_id_if_needed(s.step_id.as_str(), repeated_step_suffix),
                kind: s.kind.clone(),
                steps: primary,
                replacement_steps: replacement,
            });
            expanded_result(push_expanded_timeline_step(t, expanded_steps), c1 || c2)
        },
        TimelineStep::Recover(s) => {
            proof { lemma_steps_view(s.steps@); lemma_steps_view(s.recovery_steps@); }
            if s.steps.len() == 0 {
                return Err(validation_error("recover timeline step must contain at least one primary step: ", s.step_id.as_str()));
            }
            if s.recovery_steps.len() == 0 {
                return Err(validation_error("recover timeline step must contain at least one recovery step: ", s.step_id.as_str()));
            }
            proof { assert(decreases_to!(*step => s.steps)); assert(decreases_to!(*step => s.recovery_steps)); }
            let (primary, c1) = match expand_into_new(&s.steps, inherited_fallback_action_id, repeated_step_suffix) {
                Err(e) => return Err(e),
                Ok(x) => x,
            };
            let (recovery, c2) = match expand_into_new(&s.recovery_steps, inherited_fallback_action_id, repeated_step_suffix) {
                Err(e) => return Err(e),
                Ok(x) => x,
            };
            let t = TimelineStep::Recover(RecoverStep {
                step_id: repeated_step_id_if_needed(s.step_id.as_str(), repeated_step_suffix),
                kind: s.kind.clone(),
                steps: primary,
                recovery_steps: recovery,
            });
            expanded_result(push_expanded_timeline_step(t, expanded_steps), c1 || c2)
        },
        TimelineStep::Try(s) => {
            proof { lemma_steps_view(s.steps@); lemma_steps_view(s.fallback_steps@); }
            if s.steps.len() == 0 {
                return Err(validation_error("try timeline step must contain at least one primary step: ", s.step_id.as_str()));
            }
            if s.fallback_steps.len() == 0 {
                return Err(validation_error("try timeline step must contain at least one fallback step: ", s.step_id.as_str()));
            }
            proof { assert(decreases_to!(*step => s.steps)); assert(decreases_to!(*step => s.fallback_steps)); }
            let (primary, c1) = match expand_into_new(&s.steps, inherited_fallback_action_id, repeated_step_suffix) {
                Err(e) => return Err(e),
                Ok(x) => x,
            };
            let (fallback, c2) = match expand_into_new(&s.fallback_steps, inherited_fallback_action_id, repeated_step_suffix) {
                Err(e) => return Err(e),
                Ok(x) => x,
            };
            let t = TimelineStep::Try(TryStep {
                step_id: repeated_step_id_if_needed(s.step_id.as_str(), repeated_step_suffix),
                kind: s.kind.clone(),
                steps: primary,
                fallback_steps: fallback,
            });
            expanded_result(push_expanded_timeline_step(t, expanded_steps), c1 || c2)
        },
    }
}

// ---------------------------------------------------------------------------
// Pending handoff finalizers.
// ---------------------------------------------------------------------------

/// The first index at or after `start` of a step whose id is `step_id`, or -1.
pub open spec fn spec_find_step(steps: Seq<TimelineStepView>, step_id: Seq<char>, start: int) -> int
    decreases steps.len() - start,
{
    if start < 0 || start >= steps.len() {
        -1
    } else if steps[start].step_id() == step_id {
        start
    } else {
        spec_find_step(steps, step_id, start + 1)
    }
}

/// The check of the finalizer reference of the step at index `i`.
pub open spec fn spec_check_finalizer_ref(steps: Seq<TimelineStepView>, i: int) -> Result<(), BuddyErrorView> {
    let source = steps[i];
    match source.pending_handoff_finalizer_step_id() {
        None => Ok(()),
        Some(f) => {
            let j = spec_find_step(steps, f, 0);
            let link = source.step_id() + " -> "@ + f;
            if j < 0 {
                Err(BuddyErrorView::Validation("pending handoff finalizer step is missing: "@ + link))
            } else if spec_find_step(steps, f, j + 1) >= 0 {
                Err(BuddyErrorView::Validation("pending handoff finalizer step id is ambiguous: "@ + link))
            } else if j <= i {
                Err(BuddyErrorView::Validation("pending handoff finalizer must be a later step: "@ + link))
            } else if !(steps[j] is PlayAction) {
                Err(BuddyErrorView::Validation("pending handoff finalizer must be a playAction step: "@ + link))
            } else if steps[j].pending_handoff_finalizer_step_id() is Some {
                Err(BuddyErrorView::Validation("pending handoff finalizer cannot reference another finalizer: "@ + f))
            } else {
                Ok(())
            }
        },
    }
}

/// The checks of the finalizer references of the steps from index `i` on, in order.
pub open spec fn spec_check_finalizer_refs(steps: Seq<TimelineStepView>, i: int) -> Result<(), BuddyErrorView>
    decreases steps.len() - i,
{
    if i < 0 || i >= steps.len() {
        Ok(())
    } else {
        match spec_check_finalizer_ref(steps, i) {
            Err(e) => Err(e),
            Ok(()) => spec_check_finalizer_refs(steps, i + 1),
        }
    }
}

/// Every pending handoff finalizer reference in a list names exactly one later play action that
/// has no finalizer of its own; nested lists are checked on their own, after the list itself.
pub open spec fn spec_validate_finalizers(steps: Seq<TimelineStepView>) -> Result<(), BuddyErrorView>
    decreases steps, steps.len() + 2,
{
    match spec_check_finalizer_refs(steps, 0) {
        Err(e) => Err(e),
        Ok(()) => spec_validate_nested(steps, 0),
    }
}

pub open spec fn spec_validate_nested(steps: Seq<TimelineStepView>, i: int) -> Result<(), BuddyErrorView>
    decreases steps, steps.len() - i + 1,
{
    if i < 0 || i >= steps.len() {
        Ok(())
    } else {
        match spec_validate_nested_step(steps[i]) {
            Err(e) => Err(e),
            Ok(()) => spec_validate_nested(steps, i + 1),
        }
    }
}

pub open spec fn spec_validate_option_finalizers(options: Seq<ChooseOptionView>, k: int) -> Result<(), BuddyErrorView>
    decreases options, options.len() - k + 1,
{
    if k < 0 || k >= options.len() {
        Ok(())
    } else {
        match spec_validate_finalizers(options[k].steps) {
            Err(e) => Err(e),
            Ok(()) => spec_validate_option_finalizers(options, k + 1),
        }
    }
}

pub open spec fn spec_then(a: Result<(), BuddyErrorView>, b: Result<(), BuddyErrorView>) -> Result<(), BuddyErrorView> {
    match a {
        Err(e) => Err(e),
        Ok(()) => b,
    }
}

pub open spec fn spec_validate_nested_step(step: TimelineStepView) -> Result<(), BuddyErrorView>
    decreases step, 0int,
{
    match step {
        TimelineStepView::Repeat { steps, .. } => spec_validate_finalizers(steps),
        TimelineStepView::Choose { options, .. } => spec_validate_option_finalizers(options, 0),
        TimelineStepView::SetFallback { steps, .. } => spec_validate_finalizers(steps),
        TimelineStepView::Retry { steps, .. } => spec_validate_finalizers(steps),
        TimelineStepView::Replace { steps, replacement_steps, .. } => spec_then(
            spec_validate_finalizers(steps),
            spec_validate_finalizers(replacement_steps),
        ),
        TimelineStepView::Recover { steps, recovery_steps, .. } => spec_then(
            spec_validate_finalizers(steps),
            spec_validate_finalizers(recovery_steps),
        ),
        TimelineStepView::Try { steps, fallback_steps, .. } => spec_then(
            spec_validate_finalizers(steps),
            spec_validate_finalizers(fallback_steps),
        ),
        _ => Ok(()),
    }
}

/// The first index at or after `start` of a step whose id is `step_id`.
pub fn find_step_index(steps: &Vec<TimelineStep>, step_id: &str, start: usize) -> (r: Option<usize>)
    ensures
        match r {
            Some(j) => j as int == spec_find_step(steps_view(steps@), step_id@, start as int) && j < steps@.len(),
            None => spec_find_step(steps_view(steps@), step_id@, start as int) == -1,
        },
{
    let ghost v = steps_view(steps@);
    proof { lemma_steps_view(steps@); }
    let mut j = start;
    while j < steps.len()
        invariant
            start <= j,
            v.len() == steps@.len(),
            v == steps_view(steps@),
            spec_find_step(v, step_id@, start as int) == spec_find_step(v, step_id@, j as int),
        decreases steps@.len() - j,
    {
        if str_eq(steps[j].step_id(), step_id) {
            return Some(j);
        }
        j = j + 1;
    }
    None
}

fn check_finalizer_ref(steps: &Vec<TimelineStep>, i: usize) -> (r: BuddyResult<()>)
    requires
        i < steps@.len(),
    ensures
        match spec_check_finalizer_ref(steps_view(steps@), i as int) {
            Ok(()) => r is Ok,
            Err(e) => r is Err && r->Err_0@ == e,
        },
{
    proof { lemma_steps_view(steps@); }
    let source = &steps[i];
    let finalizer_step_id = match source.pending_handoff_finalizer_step_id() {
        None => return Ok(()),
        Some(f) => f,
    };
    let link = concat3(source.step_id(), " -> ", finalizer_step_id);
    let finalizer_index = match find_step_index(steps, finalizer_step_id, 0) {
        None => return Err(validation_error("pending handoff finalizer step is missing: ", link.as_str())),
        Some(j) => j,
    };
    let count = steps.len();
    assert(finalizer_index < count);
    if find_step_index(steps, finalizer_step_id, finalizer_index + 1).is_some() {
        return Err(validation_error("pending handoff finalizer step id is ambiguous: ", link.as_str()));
    }
    if finalizer_index <= i {
        return Err(validation_error("pending handoff finalizer must be a later step: ", link.as_str()));
    }
    match &steps[finalizer_index] {
        TimelineStep::PlayAction(finalizer_step) => {
            if finalizer_step.pending_handoff_finalizer_step_id.is_some() {
                return Err(validation_error(
                    "pending handoff finalizer cannot reference another finalizer: ",
                    finalizer_step_id,
                ));
            }
            Ok(())
        },
        _ => Err(validation_error("pending handoff finalizer must be a playAction step: ", link.as_str())),
    }
}

/// Checks the pending handoff finalizer references of a list of steps and of every nested list.
#[verifier::loop_isolation(false)]
pub fn validate_pending_handoff_finalizers(steps: &Vec<TimelineStep>) -> (r: BuddyResult<()>)
    ensures
        match spec_validate_finalizers(steps_view(steps@)) {
            Ok(()) => r is Ok,
            Err(e) => r is Err && r->Err_0@ == e,
        },
    decreases steps,
{
    let ghost v = steps_view(steps@);
    proof { lemma_steps_view(steps@); }
    let mut i: usize = 0;
    while i < steps.len()
        invariant
            i <= steps@.len(),
            spec_check_finalizer_refs(v, 0) == spec_check_finalizer_refs(v, i as int),
        decreases steps@.len() - i,
    {
        match check_finalizer_ref(steps, i) {
            Err(e) => return Err(e),
            Ok(()) => {},
        }
        i = i + 1;
    }
    let mut i: usize = 0;
    while i < steps.len()
        invariant
            i <= steps@.len(),
            spec_check_finalizer_refs(v, 0) == Ok::<(), BuddyErrorView>(()),
            spec_validate_nested(v, 0) == spec_validate_nested(v, i as int),
        decreases steps@.len() - i,
    {
        proof {
            vstd::std_specs::vec::axiom_vec_index_decreases(*steps, i as int);
        }
        let step = &steps[i];
        proof { assert(v[i as int] == step_view(*step)); }
        let nested = validate_nested_step_finalizers(step);
        match nested {
            Err(e) => return Err(e),
            Ok(()) => {},
        }
        i = i + 1;
    }
    Ok(())
}

/// Checks the pending handoff finalizers of the lists nested in one step.
pub fn validate_nested_step_finalizers(step: &TimelineStep) -> (r: BuddyResult<()>)
    ensures
        match spec_validate_nested_step(step@) {
            Ok(()) => r is Ok,
            Err(e) => r is Err && r->Err_0@ == e,
        },
    decreases step,
{
    match step {
        TimelineStep::Repeat(s) => {
            proof { assert(decreases_to!(*step => s.steps)); }
            validate_pending_handoff_finalizers(&s.steps)
        },
        TimelineStep::Choose(s) => {
            proof { assert(decreases_to!(*step => s.options)); }
            validate_option_finalizers(&s.options)
        },
        TimelineStep::SetFallback(s) => {
            proof { assert(decreases_to!(*step => s.steps)); }
            validate_pending_handoff_finalizers(&s.steps)
        },
        TimelineStep::Retry(s) => {
            proof { assert(decreases_to!(*step => s.steps)); }
            validate_pending_handoff_finalizers(&s.steps)
        },
        TimelineStep::Replace(s) => {
            proof { assert(decreases_to!(*step => s.steps)); assert(decreases_to!(*step => s.replacement_steps)); }
            match validate_pending_handoff_finalizers(&s.steps) {
                Err(e) => Err(e),
                Ok(()) => validate_pending_handoff_finalizers(&s.replacement_steps),
            }
        },
        TimelineStep::Recover(s) => {
            proof { assert(decreases_to!(*step => s.steps)); assert(decreases_to!(*step => s.recovery_steps)); }
            match validate_pending_handoff_finalizers(&s.steps) {
                Err(e) => Err(e),
                Ok(()) => validate_pending_handoff_finalizers(&s.recovery_steps),
            }
        },
        TimelineStep::Try(s) => {
            proof { assert(decreases_to!(*step => s.steps)); assert(decreases_to!(*step => s.fallback_steps)); }
            match validate_pending_handoff_finalizers(&s.steps) {
                Err(e) => Err(e),
                Ok(()) => validate_pending_handoff_finalizers(&s.fallback_steps),
            }
        },
        _ => Ok(()),
    }
}

/// Checks the pending handoff finalizers of the nested steps of every option.
pub fn validate_option_finalizers(options: &Vec<ChooseOption>) -> (r: BuddyResult<()>)
    ensures
        match spec_validate_option_finalizers(options_view(options@), 0) {
            Ok(()) => r is Ok,
            Err(e) => r is Err && r->Err_0@ == e,
        },
    decreases options,
{
    let ghost ov = options_view(options@);
    proof { lemma_options_view(options@); }
    let mut k: usize = 0;
    while k < options.len()
        invariant
            k <= options@.len(),
            ov == options_view(options@),
            ov.len() == options@.len(),
            forall|j: int| 0 <= j < options@.len() ==> #[trigger] ov[j] == (ChooseOptionView {
                option_id: options@[j].option_id@,
                weight: options@[j].weight,
                steps: steps_view(options@[j].steps@),
            }),
            spec_validate_option_finalizers(ov, 0) == spec_validate_option_finalizers(ov, k as int),
        decreases options@.len() - k,
    {
        proof {
            vstd::std_specs::vec::axiom_vec_index_decreases(*options, k as int);
            assert(decreases_to!(options@[k as int] => options@[k as int].steps));
        }
        match validate_pending_handoff_finalizers(&options[k].steps) {
            Err(e) => return Err(e),
            Ok(()) => {},
        }
        k = k + 1;
    }
    Ok(())
}

/// Expands the planner steps of a list into a new list.
pub fn expand_planner_timeline_steps(steps: &Vec<TimelineStep>) -> (r: BuddyResult<Vec<TimelineStep>>)
    ensures
        match spec_expand_steps(steps_view(steps@), None, None, Seq::empty()) {
            Ok((a, _)) => r is Ok && steps_view(r->Ok_0@) == a,
            Err(e) => r is Err && r->Err_0@ == e,
        },
{
    match expand_into_new(steps, None, None) {
        Err(e) => Err(e),
        Ok((expanded, _)) => Ok(expanded),
    }
}

/// The plan with its planner steps expanded and its pending handoff finalizers checked.
pub open spec fn spec_expand_planner_timeline_plan(steps: Seq<TimelineStepView>) -> Result<Seq<TimelineStepView>, BuddyErrorView> {
    match spec_expand_steps(steps, None, None, Seq::empty()) {
        Err(e) => Err(e),
        Ok((a, _)) => match spec_validate_finalizers(a) {
            Err(e) => Err(e),
            Ok(()) => Ok(a),
        },
    }
}

/// Expands the planner steps of a plan and checks its pending handoff finalizers. Everything but
/// the steps is kept.
pub fn expand_planner_timeline_plan(plan: TimelinePlan) -> (r: BuddyResult<TimelinePlan>)
    ensures
        match spec_expand_planner_timeline_plan(steps_view(plan.steps@)) {
            Ok(a) => r is Ok && steps_view(r->Ok_0.steps@) == a && r->Ok_0.plan_id == plan.plan_id
                && r->Ok_0.source_ref == plan.source_ref && r->Ok_0.failure_policy == plan.failure_policy
                && r->Ok_0.created_at == plan.created_at,
            Err(e) => r is Err && r->Err_0@ == e,
        },
{
    let mut plan = plan;
    let steps = match expand_planner_timeline_steps(&plan.steps) {
        Err(e) => return Err(e),
        Ok(steps) => steps,
    };
    match validate_pending_handoff_finalizers(&steps) {
        Err(e) => return Err(e),
        Ok(()) => {},
    }
    plan.steps = steps;
    Ok(plan)
}

/// Whether expanding the step writes its nested steps straight into the output, so that an
/// error found among them leaves what was written before it: a valid repeat, a choose whose
/// option was selected, and a set-fallback step. Every other step is checked, and its nested
/// steps expanded apart, before anything is written.
pub open spec fn spec_expands_in_place(step: TimelineStepView) -> bool {
    match step {
        TimelineStepView::Repeat { times, steps, .. } => times > 0 && steps.len() > 0,
        TimelineStepView::Choose { step_id, strategy, options, .. } => spec_select_choose_option(
            step_id,
            strategy,
            options,
        ) is Ok,
        TimelineStepView::SetFallback { .. } => true,
        _ => false,
    }
}

/// A step is planner-side: the planner expands it away.
pub open spec fn spec_is_planner_side(step: TimelineStepView) -> bool {
    step is Repeat || step is Choose || step is SetFallback
}

/// `after` keeps `before` as it was, and every step added after it is one that runs: none is
/// planner-side.
pub open spec fn spec_extends_with_runnable(before: Seq<TimelineStepView>, after: Seq<TimelineStepView>) -> bool {
    &&& before.len() <= after.len()
    &&& after.subrange(0, before.len() as int) == before
    &&& forall|i: int| before.len() <= i < after.len() ==> !spec_is_planner_side(#[trigger] after[i])
}

proof fn lemma_extends_trans(a: Seq<TimelineStepView>, b: Seq<TimelineStepView>, c: Seq<TimelineStepView>)
    requires
        spec_extends_with_runnable(a, b),
        spec_extends_with_runnable(b, c),
    ensures
        spec_extends_with_runnable(a, c),
{
    assert(c.subrange(0, a.len() as int) =~= b.subrange(0, a.len() as int));
    assert forall|i: int| a.len() <= i < c.len() implies !spec_is_planner_side(#[trigger] c[i]) by {
        if i < b.len() {
            assert(c[i] == c.subrange(0, b.len() as int)[i]);
            assert(b[i] == b.subrange(0, b.len() as int)[i]);
        }
    }
}

proof fn lemma_extends_refl(a: Seq<TimelineStepView>)
    ensures
        spec_extends_with_runnable(a, a),
{
    assert(a.subrange(0, a.len() as int) =~= a);
}

proof fn lemma_extends_push(a: Seq<TimelineStepView>, t: TimelineStepView)
    requires
        !spec_is_planner_side(t),
    ensures
        spec_extends_with_runnable(a, a.push(t)),
{
    assert(a.push(t).subrange(0, a.len() as int) =~= a);
}

/// Expanding one step only appends steps that run to what was expanded before.
pub proof fn law_expanded_step_is_runnable(
    step: TimelineStepView,
    inherited: Option<Seq<char>>,
    suffix: Option<Seq<char>>,
    acc: Seq<TimelineStepView>,
)
    ensures
        spec_expand_step(step, inherited, suffix, acc) matches Ok((a, _)) ==> spec_extends_with_runnable(acc, a),
    decreases step, 0int,
{
    match step {
        TimelineStepView::PlayAction(s) => {
            let (t, c) = spec_play_action_with_planner_context(s, inherited, suffix);
            if spec_push_expanded(t, acc) is Ok {
                lemma_extends_push(acc, t);
            }
        },
        TimelineStepView::Repeat { step_id, times, steps, .. } => {
            if times > 0 && steps.len() > 0 {
                law_expanded_repeat_is_runnable(steps, times as nat, 0, inherited, suffix, acc);
            }
        },
        TimelineStepView::Choose { step_id, strategy, options, .. } => {
            if let Ok(i) = spec_select_choose_option(step_id, strategy, options) {
                if 0 <= i < options.len() {
                    assert(decreases_to!(step => options));
                    assert(decreases_to!(options => options[i]));
                    assert(decreases_to!(options[i] => options[i].steps));
                    law_expanded_steps_are_runnable(options[i].steps, inherited, suffix, acc);
                } else {
                    lemma_extends_refl(acc);
                }
            }
        },
        TimelineStepView::SetFallback { step_id, fallback_action_id, steps, .. } => {
            law_expanded_steps_are_runnable(steps, Some(fallback_action_id), suffix, acc);
        },
        TimelineStepView::Retry { step_id, kind, max_attempts, steps } => {
            let t = TimelineStepView::Retry {
                step_id: spec_repeated_step_id_if_needed(step_id, suffix),
                kind,
                max_attempts,
                steps: spec_expand_steps(steps, inherited, suffix, Seq::empty())->Ok_0.0,
            };
            lemma_extends_push(acc, t);
        },
        TimelineStepView::Replace { step_id, kind, steps, replacement_steps } => {
            if spec_expand_step(step, inherited, suffix, acc) is Ok {
                let t = spec_expand_step(step, inherited, suffix, acc)->Ok_0.0.last();
                assert(spec_expand_step(step, inherited, suffix, acc)->Ok_0.0 == acc.push(t));
                lemma_extends_push(acc, t);
            }
        },
        TimelineStepView::Recover { step_id, kind, steps, recovery_steps } => {
            if spec_expand_step(step, inherited, suffix, acc) is Ok {
                let t = spec_expand_step(step, inherited, suffix, acc)->Ok_0.0.last();
                assert(spec_expand_step(step, inherited, suffix, acc)->Ok_0.0 == acc.push(t));
                lemma_extends_push(acc, t);
            }
        },
        TimelineStepView::Try { step_id, kind, steps, fallback_steps } => {
            if spec_expand_step(step, inherited, suffix, acc) is Ok {
                let t = spec_expand_step(step, inherited, suffix, acc)->Ok_0.0.last();
                assert(spec_expand_step(step, inherited, suffix, acc)->Ok_0.0 == acc.push(t));
                lemma_extends_push(acc, t);
            }
        },
        _ => {
            let t = spec_repeated_timeline_step_id(step, suffix);
            if spec_push_expanded(t, acc) is Ok {
                lemma_extends_push(acc, t);
            }
        },
    }
}

/// Expanding a list of steps only appends steps that run to what was expanded before: the
/// planner leaves no repeat, choose or set-fallback step in a plan it expanded.
pub proof fn law_expanded_steps_are_runnable(
    steps: Seq<TimelineStepView>,
    inherited: Option<Seq<char>>,
    suffix: Option<Seq<char>>,
    acc: Seq<TimelineStepView>,
)
    ensures
        spec_expand_steps(steps, inherited, suffix, acc) matches Ok((a, _)) ==> spec_extends_with_runnable(acc, a),
    decreases steps, 0int,
{
    if steps.len() == 0 {
        lemma_extends_refl(acc);
    } else {
        assert(decreases_to!(steps => steps[0]));
        law_expanded_step_is_runnable(steps[0], inherited, suffix, acc);
        if let Ok((acc1, c1)) = spec_expand_step(steps[0], inherited, suffix, acc) {
            law_expanded_steps_are_runnable(steps.drop_first(), inherited, suffix, acc1);
            if let Ok((a, _)) = spec_expand_steps(steps.drop_first(), inherited, suffix, acc1) {
                lemma_extends_trans(acc, acc1, a);
            }
        }
    }
}

/// Expanding the remaining iterations of a repeat step only appends steps that run.
pub proof fn law_expanded_repeat_is_runnable(
    steps: Seq<TimelineStepView>,
    times: nat,
    done: nat,
    inherited: Option<Seq<char>>,
    suffix: Option<Seq<char>>,
    acc: Seq<TimelineStepView>,
)
    ensures
        spec_expand_repeat(steps, times, done, inherited, suffix, acc) matches Ok((a, _)) ==> spec_extends_with_runnable(
            acc,
            a,
        ),
    decreases steps, times - done + 1,
{
    if done >= times {
        lemma_extends_refl(acc);
    } else {
        let sfx = Some(spec_repeated_iteration_suffix(suffix, done + 1));
        law_expanded_steps_are_runnable(steps, inherited, sfx, acc);
        if let Ok((acc1, c1)) = spec_expand_steps(steps, inherited, sfx, acc) {
            law_expanded_repeat_is_runnable(steps, times, done + 1, inherited, suffix, acc1);
            if let Ok((a, _)) = spec_expand_repeat(steps, times, done + 1, inherited, suffix, acc1) {
                lemma_extends_trans(acc, acc1, a);
            }
        }
    }
}

/// Law: expanding a play action keeps the fallback action it names itself; the fallback that a
/// surrounding set-fallback step hands down is given only to a play action that names none, and
/// only then is it counted as taken. The action played is unchanged.
pub proof fn law_play_action_keeps_its_own_fallback(
    s: PlayActionStepView,
    inherited: Option<Seq<char>>,
    suffix: Option<Seq<char>>,
    acc: Seq<TimelineStepView>,
)
    ensures
        spec_expand_step(TimelineStepView::PlayAction(s), inherited, suffix, acc) is Ok ==> ({
            let (a, consumed) = spec_expand_step(TimelineStepView::PlayAction(s), inherited, suffix, acc)->Ok_0;
            &&& a.len() == acc.len() + 1
            &&& a.last() is PlayAction
            &&& a.last()->PlayAction_0.action_id == s.action_id
            &&& a.last()->PlayAction_0.fallback_action_id == if s.fallback_action_id is Some {
                s.fallback_action_id
            } else {
                inherited
            }
            &&& consumed == (s.fallback_action_id is None && inherited is Some)
        }),
{
}

} // verus!

