use vstd::prelude::*;

use crate::action_log::ActionLogSink;
use crate::admission::{ChoreographyAdmissionState, ChoreographyTriggerSource};
use crate::admitted_run::{
    execute_timeline_plan_with_admission_internal, ExecutionFailureRecovery, PendingExecutionStore,
    TimelineAdmissionExecutionReport, TimelineAdmissionExecutionRequest,
};
use crate::beat_plan::{compile_beat_plan_to_timeline_steps, spec_compile_beat_plan};
use crate::error::{BuddyError, BuddyErrorView, BuddyResult};
use crate::execution_context::MacroIntentExecutionContext;
use crate::executor::{macro_semantic_fallback_intent, spec_macro_semantic_fallback_intent, ChoreographyRuntimeDegradation};
use crate::json::{json_object, members_view, push_member, json_str, JsonValue, JsonView};
use crate::macro_plan::{
    compile_macro_intent_to_beat_plan, spec_compile_macro_intent, BeatPlanBuildContext, BuildContextView, MacroIntent,
    MacroSemanticFallback,
};
use crate::plan_run::TimelineExecutionError;
use crate::recovery_run::{
    trigger_admitted_runtime_safe_fallback_after_macro_planning_failure,
    trigger_admitted_runtime_safe_fallback_after_timeline_failure, RuntimeSafeFallbackPlanner,
    RuntimeSafeFallbackRecovery,
};
use crate::registry::ResolveContext;
use crate::step_execution::ChoreographyStepExecutor;
use crate::timeline::{TimelineFailurePolicy, TimelinePlan, TimelinePlanView};
use crate::fixture::DevFixturePlan;

verus! {

/// The beat plan context that a macro run compiles its intent with.
pub open spec fn spec_macro_build_context(context: MacroIntentExecutionContext, source_ref: JsonView) -> BuildContextView {
    BuildContextView {
        plan_id: context.plan_id@,
        beat_id: context.beat_id@,
        step_id: context.step_id@,
        source_ref,
        created_at: context.timeline.created_at@,
    }
}

/// The timeline plan a macro intent compiles to: its beat plan's ids, source and time, its
/// beats compiled to steps, and abort on failure. A macro that compiles to no step is refused.
pub open spec fn spec_timeline_plan_from_macro_intent(intent: MacroIntent, ctx: BuildContextView) -> Result<
    TimelinePlanView,
    BuddyErrorView,
> {
    match spec_compile_macro_intent(intent, ctx) {
        Err(e) => Err(e),
        Ok(bp) => match spec_compile_beat_plan(bp.plan_id, bp.fallback_action_id, bp.recovery, bp.beats) {
            Err(e) => Err(e),
            Ok(steps) => if steps.len() == 0 {
                Err(BuddyErrorView::Validation("macro intent must compile to at least one timeline step"@))
            } else {
                Ok(
                    TimelinePlanView {
                        plan_id: bp.plan_id,
                        source_ref: bp.source_ref,
                        failure_policy: TimelineFailurePolicy::Abort,
                        steps,
                        created_at: bp.created_at,
                    },
                )
            },
        },
    }
}

pub open spec fn plan_result_view(r: BuddyResult<TimelinePlan>) -> Result<TimelinePlanView, BuddyErrorView> {
    match r {
        Ok(p) => Ok(p@),
        Err(e) => Err(e@),
    }
}

/// Compiles a macro intent to the timeline plan that runs it, with the run context's ids and
/// time and the given source.
pub fn create_timeline_plan_from_macro_intent(
    intent: &MacroIntent,
    context: &MacroIntentExecutionContext,
    source_ref: JsonValue,
) -> (r: BuddyResult<TimelinePlan>)
    ensures
        plan_result_view(r) == spec_timeline_plan_from_macro_intent(
            *intent,
            spec_macro_build_context(*context, source_ref@),
        ),
{
    let ghost source_view = source_ref@;
    let build = BeatPlanBuildContext {
        plan_id: context.plan_id.as_str(),
        beat_id: context.beat_id.as_str(),
        step_id: context.step_id.as_str(),
        source_ref,
        created_at: context.timeline.created_at.as_str(),
    };
    assert(build@ == spec_macro_build_context(*context, source_view));
    let beat_plan = match compile_macro_intent_to_beat_plan(intent, build) {
        Ok(p) => p,
        Err(e) => return Err(e),
    };
    let steps = match compile_beat_plan_to_timeline_steps(&beat_plan) {
        Ok(s) => s,
        Err(e) => return Err(e),
    };
    if steps.len() == 0 {
        return Err(BuddyError::Validation("macro intent must compile to at least one timeline step".to_owned()));
    }
    Ok(
        TimelinePlan {
            plan_id: beat_plan.plan_id,
            source_ref: beat_plan.source_ref,
            failure_policy: TimelineFailurePolicy::Abort,
            steps,
            created_at: beat_plan.created_at,
        },
    )
}

/// Law: a public intent with valid parameters always plans to a timeline plan with at least
/// one step, the run's plan id and time, the given source, and abort on failure; an intent with
/// parameters out of range is refused.
pub proof fn law_valid_macro_plans_to_timeline(
    intent: MacroIntent,
    context: MacroIntentExecutionContext,
    source_ref: JsonView,
)
    ensures
        crate::macro_plan::spec_public_macro_intent_params_valid(intent) <==> spec_timeline_plan_from_macro_intent(
            intent,
            spec_macro_build_context(context, source_ref),
        ) is Ok,
        spec_timeline_plan_from_macro_intent(intent, spec_macro_build_context(context, source_ref)) matches Ok(plan)
            ==> {
            &&& plan.plan_id == context.plan_id@
            &&& plan.created_at == context.timeline.created_at@
            &&& plan.source_ref == source_ref
            &&& plan.failure_policy == TimelineFailurePolicy::Abort
            &&& plan.steps.len() > 0
        },
{
    crate::macro_plan::law_valid_macro_compiles_to_timeline(intent, spec_macro_build_context(context, source_ref));
}

/// The source of a plan run as a macro's semantic fallback: the plan and step that failed, why,
/// and the macro that failed and the one run in its place.
pub open spec fn spec_macro_fallback_source_ref(
    failed_plan_id: Seq<char>,
    failed_step_id: Seq<char>,
    fallback: MacroSemanticFallback,
    original_intent: MacroIntent,
) -> JsonView {
    JsonView::Object(
        seq![
            ("kind"@, JsonView::Str("macroFallback"@)),
            ("triggeredByPlanId"@, JsonView::Str(failed_plan_id)),
            ("triggeredByStepId"@, JsonView::Str(failed_step_id)),
            ("triggerReason"@, JsonView::Str(fallback.spec_trigger_reason_code())),
            ("originalMacroId"@, JsonView::Str(original_intent.spec_macro_id())),
            ("fallbackMacroId"@, JsonView::Str(fallback.spec_fallback_macro_id())),
        ],
    )
}

/// Writes the source of a macro's semantic fallback run.
pub fn macro_fallback_source_ref(
    failed_plan_id: &str,
    failed_step_id: &str,
    fallback: MacroSemanticFallback,
    original_intent: &MacroIntent,
) -> (r: JsonValue)
    ensures
        r@ == spec_macro_fallback_source_ref(failed_plan_id@, failed_step_id@, fallback, *original_intent),
{
    let mut members: Vec<(String, JsonValue)> = Vec::new();
    assert(members_view(members@) =~= Seq::empty());
    push_member(&mut members, "kind", json_str("macroFallback"));
    push_member(&mut members, "triggeredByPlanId", json_str(failed_plan_id));
    push_member(&mut members, "triggeredByStepId", json_str(failed_step_id));
    push_member(&mut members, "triggerReason", json_str(fallback.trigger_reason_code()));
    push_member(&mut members, "originalMacroId", json_str(original_intent.macro_id()));
    push_member(&mut members, "fallbackMacroId", json_str(fallback.fallback_macro_id()));
    assert(members_view(members@) =~= spec_macro_fallback_source_ref(
        failed_plan_id@,
        failed_step_id@,
        fallback,
        *original_intent,
    )->Object_0);
    let r = json_object(members);
    assert(r@ == spec_macro_fallback_source_ref(failed_plan_id@, failed_step_id@, fallback, *original_intent));
    r
}

/// A macro run: its context, where it came from, what it resolves actions with, and who asked.
pub struct MacroIntentExecutionRequest {
    pub context: MacroIntentExecutionContext,
    pub source_ref: JsonValue,
    pub resolve_context: ResolveContext,
    pub trigger_source: ChoreographyTriggerSource,
}

/// A macro's timeline plan that failed: the macro, the plan, the step, the error, and the
/// run's resolve context and trigger.
pub struct MacroIntentTimelineFailureFallbackRequest<'a> {
    pub original_intent: &'a MacroIntent,
    pub failed_plan: &'a TimelinePlan,
    pub failed_step_id: &'a str,
    pub error: &'a BuddyError,
    pub resolve_context: &'a ResolveContext,
    pub trigger_source: ChoreographyTriggerSource,
}

/// When the failed macro has a semantic fallback for this failure, plans the fallback macro
/// with a fresh context and runs it under admission, with system recovery if it fails in turn;
/// the answer is then the degradation that recovery caused, if any. Otherwise (no fallback, or
/// one that cannot be planned) there is no answer.
pub fn trigger_admitted_macro_semantic_fallback_after_timeline_failure<
    'a,
    E: ChoreographyStepExecutor,
    L: ActionLogSink,
    S: PendingExecutionStore,
    P: RuntimeSafeFallbackPlanner,
>(
    log: &mut L,
    store: &mut S,
    admission: &mut ChoreographyAdmissionState,
    recovery: &mut RuntimeSafeFallbackRecovery<'a, E, P>,
    request: &MacroIntentTimelineFailureFallbackRequest,
) -> (r: Option<Option<ChoreographyRuntimeDegradation>>)
    ensures
        final(log).keeps_record() == old(log).keeps_record(),
        old(log).keeps_record() ==> crate::action_log::log_kept(old(log).requested_events(), final(log).requested_events()),
        spec_macro_semantic_fallback_intent(
            *request.original_intent,
            crate::timeline::steps_view(request.failed_plan.steps@),
            request.failed_step_id@,
            request.error@,
        ) is None ==> r is None && final(admission)@ == old(admission)@,
        spec_macro_semantic_fallback_intent(
            *request.original_intent,
            crate::timeline::steps_view(request.failed_plan.steps@),
            request.failed_step_id@,
            request.error@,
        ) matches Some(f) ==> (r is Some <==> crate::macro_plan::spec_public_macro_intent_params_valid(f.intent)),
        r matches Some(Some(d)) ==> d.reason_code@ == "runtime.systemRecoveryFailed"@,
{
    let fallback = match macro_semantic_fallback_intent(
        request.original_intent,
        &request.failed_plan.steps,
        request.failed_step_id,
        request.error,
    ) {
        Some(f) => f,
        None => return None,
    };
    let fallback_context = MacroIntentExecutionContext::new(
        recovery.created_at.as_str(),
        recovery.resolved_at.as_str(),
        recovery.completed_at.as_str(),
    );
    let source_ref = macro_fallback_source_ref(
        request.failed_plan.plan_id.as_str(),
        request.failed_step_id,
        fallback.semantic_fallback,
        request.original_intent,
    );
    proof {
        law_valid_macro_plans_to_timeline(fallback.intent, fallback_context, source_ref@);
    }
    let plan = match create_timeline_plan_from_macro_intent(&fallback.intent, &fallback_context, source_ref) {
        Ok(p) => p,
        Err(_) => return None,
    };
    let run = TimelineAdmissionExecutionRequest {
        plan,
        context: fallback_context.timeline,
        resolve_context: request.resolve_context.clone(),
        trigger_source: request.trigger_source,
    };
    let _ = recovery.take_degradation();
    let registry = recovery.registry;
    let executor = recovery.executor;
    let _ = execute_timeline_plan_with_admission_internal(
        executor,
        log,
        store,
        recovery,
        admission,
        None,
        registry,
        run,
    );
    Some(recovery.take_degradation())
}

/// Answers a macro's failed timeline plan: its semantic fallback when it has one for this
/// failure, and otherwise system recovery under admission.
pub fn trigger_admitted_macro_intent_timeline_failure_fallback<
    'a,
    E: ChoreographyStepExecutor,
    L: ActionLogSink,
    S: PendingExecutionStore,
    P: RuntimeSafeFallbackPlanner,
>(
    log: &mut L,
    store: &mut S,
    admission: &mut ChoreographyAdmissionState,
    recovery: &mut RuntimeSafeFallbackRecovery<'a, E, P>,
    request: &MacroIntentTimelineFailureFallbackRequest,
) -> (r: BuddyResult<Option<ChoreographyRuntimeDegradation>>)
    ensures
        final(log).keeps_record() == old(log).keeps_record(),
        old(log).keeps_record() ==> crate::action_log::log_kept(old(log).requested_events(), final(log).requested_events()),
        r matches Ok(d) && (d matches Some(x) ==> x.reason_code@ == "runtime.systemRecoveryFailed"@),
{
    if let Some(degradation) = trigger_admitted_macro_semantic_fallback_after_timeline_failure(
        log,
        store,
        admission,
        recovery,
        request,
    ) {
        return Ok(degradation);
    }
    let context = recovery.fresh_context();
    Ok(
        trigger_admitted_runtime_safe_fallback_after_timeline_failure(
            recovery.executor,
            log,
            admission,
            recovery.planner,
            recovery.registry,
            context,
            request.failed_plan,
            request.failed_step_id,
            request.error,
            request.resolve_context,
        ),
    )
}

/// The recovery of a macro's timeline plan: a failure is answered by the macro's semantic
/// fallback or by system recovery; the degradation that caused, if any, is kept.
pub struct MacroIntentRecovery<'a, E: ChoreographyStepExecutor, P: RuntimeSafeFallbackPlanner> {
    pub original_intent: &'a MacroIntent,
    pub trigger_source: ChoreographyTriggerSource,
    pub fallback: RuntimeSafeFallbackRecovery<'a, E, P>,
    pub degradation: Option<ChoreographyRuntimeDegradation>,
}

impl<'a, E: ChoreographyStepExecutor, P: RuntimeSafeFallbackPlanner> ExecutionFailureRecovery for MacroIntentRecovery<'a, E, P> {
    fn dev_fixture_failed<L: ActionLogSink>(
        &mut self,
        log: &mut L,
        failed_plan: &DevFixturePlan,
        failed_step_id: &str,
        error: &BuddyError,
        resolve_context: &ResolveContext,
    )
        ensures
            final(log).keeps_record() == old(log).keeps_record(),
            final(self).fallback.spec_times() == old(self).fallback.spec_times(),
            final(self).fallback.spec_degradation() is None,
            final(self).original_intent == old(self).original_intent,
            final(self).trigger_source == old(self).trigger_source,
            old(log).keeps_record() ==> (crate::recovery_run::spec_recovery_logged_first_at(
                old(log).requested_events(),
                final(log).requested_events(),
                old(self).fallback.spec_times().0,
            )),
            old(log).keeps_record() ==> (final(self).degradation matches Some(d) ==> d.reason_code@ == "runtime.systemRecoveryFailed"@
                && crate::recovery_run::spec_runtime_degraded_logged(
                old(log).requested_system_events(),
                final(log).requested_system_events(),
                old(self).fallback.spec_times().2,
            )),
    {
        self.fallback.dev_fixture_failed(log, failed_plan, failed_step_id, error, resolve_context);
        self.degradation = self.fallback.take_degradation();
    }

    fn admitted_dev_fixture_failed<L: ActionLogSink>(
        &mut self,
        log: &mut L,
        admission: &mut ChoreographyAdmissionState,
        failed_plan: &DevFixturePlan,
        failed_step_id: &str,
        error: &BuddyError,
        resolve_context: &ResolveContext,
    )
        ensures
            final(log).keeps_record() == old(log).keeps_record(),
            final(self).fallback.spec_times() == old(self).fallback.spec_times(),
            final(self).fallback.spec_degradation() is None,
            final(self).original_intent == old(self).original_intent,
            final(self).trigger_source == old(self).trigger_source,
            old(log).keeps_record() ==> (crate::recovery_run::spec_recovery_logged_first_at(
                old(log).requested_events(),
                final(log).requested_events(),
                old(self).fallback.spec_times().0,
            )),
            old(log).keeps_record() ==> (final(self).degradation matches Some(d) ==> d.reason_code@ == "runtime.systemRecoveryFailed"@
                && crate::recovery_run::spec_runtime_degraded_logged(
                old(log).requested_system_events(),
                final(log).requested_system_events(),
                old(self).fallback.spec_times().2,
            )),
    {
        self.fallback.admitted_dev_fixture_failed(log, admission, failed_plan, failed_step_id, error, resolve_context);
        self.degradation = self.fallback.take_degradation();
    }

    fn admitted_timeline_failed<L: ActionLogSink, S: PendingExecutionStore>(
        &mut self,
        log: &mut L,
        store: &mut S,
        admission: &mut ChoreographyAdmissionState,
        failed_plan: &TimelinePlan,
        failed_step_id: &str,
        error: &BuddyError,
        resolve_context: &ResolveContext,
    ) -> (r: BuddyResult<()>)
        ensures
            r is Ok,
            final(self).degradation matches Some(d) ==> d.reason_code@ == "runtime.systemRecoveryFailed"@,
    {
        let request = MacroIntentTimelineFailureFallbackRequest {
            original_intent: self.original_intent,
            failed_plan,
            failed_step_id,
            error,
            resolve_context,
            trigger_source: self.trigger_source,
        };
        match trigger_admitted_macro_intent_timeline_failure_fallback(
            log,
            store,
            admission,
            &mut self.fallback,
            &request,
        ) {
            Ok(d) => {
                self.degradation = d;
                Ok(())
            },
            Err(e) => Err(e),
        }
    }
}

/// Runs a macro under admission. A macro that cannot be planned is answered by system recovery
/// and its planning error is returned; otherwise its timeline plan runs under admission, and a
/// failure is answered by the macro's semantic fallback or by system recovery.
pub fn execute_macro_intent_with_admission<
    'a,
    E: ChoreographyStepExecutor,
    L: ActionLogSink,
    S: PendingExecutionStore,
    P: RuntimeSafeFallbackPlanner,
>(
    log: &mut L,
    store: &mut S,
    admission: &mut ChoreographyAdmissionState,
    recovery: &mut MacroIntentRecovery<'a, E, P>,
    intent: &MacroIntent,
    request: MacroIntentExecutionRequest,
) -> (r: Result<TimelineAdmissionExecutionReport, TimelineExecutionError>)
    ensures
        final(log).keeps_record() == old(log).keeps_record(),
        old(log).keeps_record() ==> crate::action_log::log_kept(old(log).requested_events(), final(log).requested_events()),
        match spec_timeline_plan_from_macro_intent(
            *intent,
            spec_macro_build_context(request.context, request.source_ref@),
        ) {
            Err(e) => r matches Err(TimelineExecutionError::Execution(x)) && x@ == e,
            Ok(plan) => r matches Ok(rep) ==> rep.plan_id@ == plan.plan_id,
        },
{
    let MacroIntentExecutionRequest { context, source_ref, resolve_context, trigger_source } = request;
    let plan = match create_timeline_plan_from_macro_intent(intent, &context, source_ref) {
        Ok(p) => p,
        Err(error) => {
            let recovery_context = recovery.fallback.fresh_context();
            recovery.degradation = trigger_admitted_runtime_safe_fallback_after_macro_planning_failure(
                recovery.fallback.executor,
                log,
                admission,
                recovery.fallback.planner,
                recovery.fallback.registry,
                recovery_context,
                context.plan_id.as_str(),
                &resolve_context,
            );
            return Err(TimelineExecutionError::Execution(error));
        },
    };
    let run = TimelineAdmissionExecutionRequest { plan, context: context.timeline, resolve_context, trigger_source };
    let registry = recovery.fallback.registry;
    let executor = recovery.fallback.executor;
    execute_timeline_plan_with_admission_internal(executor, log, store, recovery, admission, None, registry, run)
}

} // verus!
