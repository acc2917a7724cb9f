use vstd::prelude::*;

use crate::admission::ChoreographyTriggerSource;
use crate::error::{BuddyError, BuddyErrorView, BuddyResult};
use crate::ids::prefixed_uuid_v7;
use crate::registry::ResolveContext;
use crate::text::str_eq;

verus! {

/// The ids and times that a developer fixture run is logged with.
#[derive(Debug, PartialEq, Eq)]
pub struct DevFixtureExecutionContext {
    pub plan_id: String,
    pub beat_id: String,
    pub step_id: String,
    pub admission_event_id: String,
    pub plan_started_event_id: String,
    pub step_resolved_event_id: String,
    pub step_completed_event_id: String,
    pub step_failed_event_id: String,
    pub plan_completed_event_id: String,
    pub plan_failed_event_id: String,
    pub created_at: String,
    pub resolved_at: String,
    pub completed_at: String,
}

impl Clone for DevFixtureExecutionContext {
    fn clone(&self) -> (r: Self)
        ensures
            r == *self,
    {
        DevFixtureExecutionContext {
            plan_id: self.plan_id.clone(),
            beat_id: self.beat_id.clone(),
            step_id: self.step_id.clone(),
            admission_event_id: self.admission_event_id.clone(),
            plan_started_event_id: self.plan_started_event_id.clone(),
            step_resolved_event_id: self.step_resolved_event_id.clone(),
            step_completed_event_id: self.step_completed_event_id.clone(),
            step_failed_event_id: self.step_failed_event_id.clone(),
            plan_completed_event_id: self.plan_completed_event_id.clone(),
            plan_failed_event_id: self.plan_failed_event_id.clone(),
            created_at: self.created_at.clone(),
            resolved_at: self.resolved_at.clone(),
            completed_at: self.completed_at.clone(),
        }
    }
}

impl DevFixtureExecutionContext {
    /// A context with fresh ids, written at the given times.
    pub fn new(created_at: &str, resolved_at: &str, completed_at: &str) -> (r: Self)
        ensures
            r.created_at@ == created_at@,
            r.resolved_at@ == resolved_at@,
            r.completed_at@ == completed_at@,
    {
        DevFixtureExecutionContext {
            plan_id: prefixed_uuid_v7("plan"),
            beat_id: prefixed_uuid_v7("beat"),
            step_id: prefixed_uuid_v7("step"),
            admission_event_id: prefixed_uuid_v7("evt"),
            plan_started_event_id: prefixed_uuid_v7("evt"),
            step_resolved_event_id: prefixed_uuid_v7("evt"),
            step_completed_event_id: prefixed_uuid_v7("evt"),
            step_failed_event_id: prefixed_uuid_v7("evt"),
            plan_completed_event_id: prefixed_uuid_v7("evt"),
            plan_failed_event_id: prefixed_uuid_v7("evt"),
            created_at: created_at.to_owned(),
            resolved_at: resolved_at.to_owned(),
            completed_at: completed_at.to_owned(),
        }
    }

    /// The context with the fixed ids and times used by tests.
    pub fn fixed_for_test() -> (r: Self)
        ensures
            r.plan_id@ == "plan_019f4000-0000-7000-8000-000000000001"@,
            r.beat_id@ == "beat_019f4000-0000-7000-8000-000000000009"@,
            r.step_id@ == "step_019f4000-0000-7000-8000-000000000002"@,
            r.admission_event_id@ == "evt_019f4000-0000-7000-8000-000000000000"@,
            r.plan_started_event_id@ == "evt_019f4000-0000-7000-8000-000000000003"@,
            r.step_resolved_event_id@ == "evt_019f4000-0000-7000-8000-000000000004"@,
            r.step_completed_event_id@ == "evt_019f4000-0000-7000-8000-000000000005"@,
            r.step_failed_event_id@ == "evt_019f4000-0000-7000-8000-000000000007"@,
            r.plan_completed_event_id@ == "evt_019f4000-0000-7000-8000-000000000006"@,
            r.plan_failed_event_id@ == "evt_019f4000-0000-7000-8000-000000000008"@,
            r.created_at@ == "2026-07-08T00:00:00.000Z"@,
            r.resolved_at@ == "2026-07-08T00:00:00.010Z"@,
            r.completed_at@ == "2026-07-08T00:00:01.730Z"@,
    {
        DevFixtureExecutionContext {
            plan_id: "plan_019f4000-0000-7000-8000-000000000001".to_owned(),
            beat_id: "beat_019f4000-0000-7000-8000-000000000009".to_owned(),
            step_id: "step_019f4000-0000-7000-8000-000000000002".to_owned(),
            admission_event_id: "evt_019f4000-0000-7000-8000-000000000000".to_owned(),
            plan_started_event_id: "evt_019f4000-0000-7000-8000-000000000003".to_owned(),
            step_resolved_event_id: "evt_019f4000-0000-7000-8000-000000000004".to_owned(),
            step_completed_event_id: "evt_019f4000-0000-7000-8000-000000000005".to_owned(),
            step_failed_event_id: "evt_019f4000-0000-7000-8000-000000000007".to_owned(),
            plan_completed_event_id: "evt_019f4000-0000-7000-8000-000000000006".to_owned(),
            plan_failed_event_id: "evt_019f4000-0000-7000-8000-000000000008".to_owned(),
            created_at: "2026-07-08T00:00:00.000Z".to_owned(),
            resolved_at: "2026-07-08T00:00:00.010Z".to_owned(),
            completed_at: "2026-07-08T00:00:01.730Z".to_owned(),
        }
    }

    /// The same context with a fresh admission event id.
    pub fn with_new_admission_event_id(self) -> (r: Self)
        ensures
            r.plan_id == self.plan_id,
            r.beat_id == self.beat_id,
            r.step_id == self.step_id,
            r.plan_started_event_id == self.plan_started_event_id,
            r.step_resolved_event_id == self.step_resolved_event_id,
            r.step_completed_event_id == self.step_completed_event_id,
            r.step_failed_event_id == self.step_failed_event_id,
            r.plan_completed_event_id == self.plan_completed_event_id,
            r.plan_failed_event_id == self.plan_failed_event_id,
            r.created_at == self.created_at,
            r.resolved_at == self.resolved_at,
            r.completed_at == self.completed_at,
            r.admission_event_id@.subrange(0, 4) == "evt_"@,
    {
        let mut r = self;
        r.admission_event_id = prefixed_uuid_v7("evt");
        proof {
            reveal_strlit("evt");
            reveal_strlit("evt_");
            reveal_strlit("_");
            assert("evt"@ + "_"@ =~= "evt_"@);
        }
        r
    }
}

/// The ids and times that a timeline plan run is logged with.
#[derive(Debug, PartialEq, Eq)]
pub struct TimelineExecutionContext {
    pub admission_event_id: String,
    pub plan_started_event_id: String,
    pub step_resolved_event_id: String,
    pub step_completed_event_id: String,
    pub step_failed_event_id: String,
    pub plan_completed_event_id: String,
    pub plan_failed_event_id: String,
    pub created_at: String,
    pub resolved_at: String,
    pub completed_at: String,
}

impl Clone for TimelineExecutionContext {
    fn clone(&self) -> (r: Self)
        ensures
            r == *self,
    {
        TimelineExecutionContext {
            admission_event_id: self.admission_event_id.clone(),
            plan_started_event_id: self.plan_started_event_id.clone(),
            step_resolved_event_id: self.step_resolved_event_id.clone(),
            step_completed_event_id: self.step_completed_event_id.clone(),
            step_failed_event_id: self.step_failed_event_id.clone(),
            plan_completed_event_id: self.plan_completed_event_id.clone(),
            plan_failed_event_id: self.plan_failed_event_id.clone(),
            created_at: self.created_at.clone(),
            resolved_at: self.resolved_at.clone(),
            completed_at: self.completed_at.clone(),
        }
    }
}

impl TimelineExecutionContext {
    /// A context with fresh ids, written at the given times.
    pub fn new(created_at: &str, resolved_at: &str, completed_at: &str) -> (r: Self)
        ensures
            r.created_at@ == created_at@,
            r.resolved_at@ == resolved_at@,
            r.completed_at@ == completed_at@,
    {
        TimelineExecutionContext {
            admission_event_id: prefixed_uuid_v7("evt"),
            plan_started_event_id: prefixed_uuid_v7("evt"),
            step_resolved_event_id: prefixed_uuid_v7("evt"),
            step_completed_event_id: prefixed_uuid_v7("evt"),
            step_failed_event_id: prefixed_uuid_v7("evt"),
            plan_completed_event_id: prefixed_uuid_v7("evt"),
            plan_failed_event_id: prefixed_uuid_v7("evt"),
            created_at: created_at.to_owned(),
            resolved_at: resolved_at.to_owned(),
            completed_at: completed_at.to_owned(),
        }
    }

    /// The context with the fixed ids and times used by tests.
    pub fn fixed_for_test() -> (r: Self)
        ensures
            r.admission_event_id@ == "evt_timeline_019f4000-0000-7000-8000-000000000000"@,
            r.plan_started_event_id@ == "evt_timeline_019f4000-0000-7000-8000-000000000003"@,
            r.step_resolved_event_id@ == "evt_timeline_019f4000-0000-7000-8000-000000000004"@,
            r.step_completed_event_id@ == "evt_timeline_019f4000-0000-7000-8000-000000000005"@,
            r.step_failed_event_id@ == "evt_timeline_019f4000-0000-7000-8000-000000000006"@,
            r.plan_completed_event_id@ == "evt_timeline_019f4000-0000-7000-8000-000000000007"@,
            r.plan_failed_event_id@ == "evt_timeline_019f4000-0000-7000-8000-000000000008"@,
            r.created_at@ == "2026-07-08T00:00:00.000Z"@,
            r.resolved_at@ == "2026-07-08T00:00:00.010Z"@,
            r.completed_at@ == "2026-07-08T00:00:01.730Z"@,
    {
        TimelineExecutionContext {
            admission_event_id: "evt_timeline_019f4000-0000-7000-8000-000000000000".to_owned(),
            plan_started_event_id: "evt_timeline_019f4000-0000-7000-8000-000000000003".to_owned(),
            step_resolved_event_id: "evt_timeline_019f4000-0000-7000-8000-000000000004".to_owned(),
            step_completed_event_id: "evt_timeline_019f4000-0000-7000-8000-000000000005".to_owned(),
            step_failed_event_id: "evt_timeline_019f4000-0000-7000-8000-000000000006".to_owned(),
            plan_completed_event_id: "evt_timeline_019f4000-0000-7000-8000-000000000007".to_owned(),
            plan_failed_event_id: "evt_timeline_019f4000-0000-7000-8000-000000000008".to_owned(),
            created_at: "2026-07-08T00:00:00.000Z".to_owned(),
            resolved_at: "2026-07-08T00:00:00.010Z".to_owned(),
            completed_at: "2026-07-08T00:00:01.730Z".to_owned(),
        }
    }

    /// The same context with a fresh admission event id.
    pub fn with_new_admission_event_id(self) -> (r: Self)
        ensures
            r.plan_started_event_id == self.plan_started_event_id,
            r.step_resolved_event_id == self.step_resolved_event_id,
            r.step_completed_event_id == self.step_completed_event_id,
            r.step_failed_event_id == self.step_failed_event_id,
            r.plan_completed_event_id == self.plan_completed_event_id,
            r.plan_failed_event_id == self.plan_failed_event_id,
            r.created_at == self.created_at,
            r.resolved_at == self.resolved_at,
            r.completed_at == self.completed_at,
            r.admission_event_id@.subrange(0, 4) == "evt_"@,
    {
        let mut r = self;
        r.admission_event_id = prefixed_uuid_v7("evt");
        proof {
            reveal_strlit("evt");
            reveal_strlit("evt_");
            reveal_strlit("_");
            assert("evt"@ + "_"@ =~= "evt_"@);
        }
        r
    }
}

/// The ids and times that a runtime safe fallback run is logged with.
#[derive(Debug, PartialEq, Eq)]
pub struct RuntimeSafeFallbackExecutionContext {
    pub plan_id: String,
    pub step_id: String,
    pub admission_event_id: String,
    pub plan_started_event_id: String,
    pub step_resolved_event_id: String,
    pub step_completed_event_id: String,
    pub step_failed_event_id: String,
    pub plan_completed_event_id: String,
    pub plan_failed_event_id: String,
    pub created_at: String,
    pub resolved_at: String,
    pub completed_at: String,
}

impl Clone for RuntimeSafeFallbackExecutionContext {
    fn clone(&self) -> (r: Self)
        ensures
            r == *self,
    {
        RuntimeSafeFallbackExecutionContext {
            plan_id: self.plan_id.clone(),
            step_id: self.step_id.clone(),
            admission_event_id: self.admission_event_id.clone(),
            plan_started_event_id: self.plan_started_event_id.clone(),
            step_resolved_event_id: self.step_resolved_event_id.clone(),
            step_completed_event_id: self.step_completed_event_id.clone(),
            step_failed_event_id: self.step_failed_event_id.clone(),
            plan_completed_event_id: self.plan_completed_event_id.clone(),
            plan_failed_event_id: self.plan_failed_event_id.clone(),
            created_at: self.created_at.clone(),
            resolved_at: self.resolved_at.clone(),
            completed_at: self.completed_at.clone(),
        }
    }
}

impl RuntimeSafeFallbackExecutionContext {
    /// A context with fresh ids, written at the given times.
    pub fn new(created_at: &str, resolved_at: &str, completed_at: &str) -> (r: Self)
        ensures
            r.created_at@ == created_at@,
            r.resolved_at@ == resolved_at@,
            r.completed_at@ == completed_at@,
    {
        RuntimeSafeFallbackExecutionContext {
            plan_id: prefixed_uuid_v7("plan"),
            step_id: prefixed_uuid_v7("step"),
            admission_event_id: prefixed_uuid_v7("evt"),
            plan_started_event_id: prefixed_uuid_v7("evt"),
            step_resolved_event_id: prefixed_uuid_v7("evt"),
            step_completed_event_id: prefixed_uuid_v7("evt"),
            step_failed_event_id: prefixed_uuid_v7("evt"),
            plan_completed_event_id: prefixed_uuid_v7("evt"),
            plan_failed_event_id: prefixed_uuid_v7("evt"),
            created_at: created_at.to_owned(),
            resolved_at: resolved_at.to_owned(),
            completed_at: completed_at.to_owned(),
        }
    }

    /// The context with the fixed ids and times used by tests.
    pub fn fixed_for_test() -> (r: Self)
        ensures
            r.plan_id@ == "plan_recovery_019f4000-0000-7000-8000-000000000001"@,
            r.step_id@ == "step_recovery_019f4000-0000-7000-8000-000000000002"@,
            r.admission_event_id@ == "evt_recovery_019f4000-0000-7000-8000-000000000000"@,
            r.plan_started_event_id@ == "evt_recovery_019f4000-0000-7000-8000-000000000003"@,
            r.step_resolved_event_id@ == "evt_recovery_019f4000-0000-7000-8000-000000000004"@,
            r.step_completed_event_id@ == "evt_recovery_019f4000-0000-7000-8000-000000000005"@,
            r.step_failed_event_id@ == "evt_recovery_019f4000-0000-7000-8000-000000000006"@,
            r.plan_completed_event_id@ == "evt_recovery_019f4000-0000-7000-8000-000000000007"@,
            r.plan_failed_event_id@ == "evt_recovery_019f4000-0000-7000-8000-000000000008"@,
            r.created_at@ == "2026-07-08T00:00:02.000Z"@,
            r.resolved_at@ == "2026-07-08T00:00:02.010Z"@,
            r.completed_at@ == "2026-07-08T00:00:17.000Z"@,
    {
        RuntimeSafeFallbackExecutionContext {
            plan_id: "plan_recovery_019f4000-0000-7000-8000-000000000001".to_owned(),
            step_id: "step_recovery_019f4000-0000-7000-8000-000000000002".to_owned(),
            admission_event_id: "evt_recovery_019f4000-0000-7000-8000-000000000000".to_owned(),
            plan_started_event_id: "evt_recovery_019f4000-0000-7000-8000-000000000003".to_owned(),
            step_resolved_event_id: "evt_recovery_019f4000-0000-7000-8000-000000000004".to_owned(),
            step_completed_event_id: "evt_recovery_019f4000-0000-7000-8000-000000000005".to_owned(),
            step_failed_event_id: "evt_recovery_019f4000-0000-7000-8000-000000000006".to_owned(),
            plan_completed_event_id: "evt_recovery_019f4000-0000-7000-8000-000000000007".to_owned(),
            plan_failed_event_id: "evt_recovery_019f4000-0000-7000-8000-000000000008".to_owned(),
            created_at: "2026-07-08T00:00:02.000Z".to_owned(),
            resolved_at: "2026-07-08T00:00:02.010Z".to_owned(),
            completed_at: "2026-07-08T00:00:17.000Z".to_owned(),
        }
    }

}

/// The ids of a macro run, and the context of the timeline it compiles to.
#[derive(Debug, Clone, PartialEq, Eq)]
pub struct MacroIntentExecutionContext {
    pub plan_id: String,
    pub beat_id: String,
    pub step_id: String,
    pub timeline: TimelineExecutionContext,
}

impl MacroIntentExecutionContext {
    /// A context with fresh ids, written at the given times.
    pub fn new(created_at: &str, resolved_at: &str, completed_at: &str) -> (r: Self)
        ensures
            r.timeline.created_at@ == created_at@,
            r.timeline.resolved_at@ == resolved_at@,
            r.timeline.completed_at@ == completed_at@,
    {
        MacroIntentExecutionContext {
            plan_id: prefixed_uuid_v7("plan"),
            beat_id: prefixed_uuid_v7("beat"),
            step_id: prefixed_uuid_v7("step"),
            timeline: TimelineExecutionContext::new(created_at, resolved_at, completed_at),
        }
    }

    /// The context with the fixed ids and times used by tests.
    pub fn fixed_for_test() -> (r: Self)
        ensures
            r.plan_id@ == "plan_macro_019f4000-0000-7000-8000-000000000701"@,
            r.beat_id@ == "beat_macro_019f4000-0000-7000-8000-000000000702"@,
            r.step_id@ == "step_macro_019f4000-0000-7000-8000-000000000703"@,
            r.timeline.created_at@ == "2026-07-08T00:00:00.000Z"@,
    {
        MacroIntentExecutionContext {
            plan_id: "plan_macro_019f4000-0000-7000-8000-000000000701".to_owned(),
            beat_id: "beat_macro_019f4000-0000-7000-8000-000000000702".to_owned(),
            step_id: "step_macro_019f4000-0000-7000-8000-000000000703".to_owned(),
            timeline: TimelineExecutionContext::fixed_for_test(),
        }
    }
}

/// The developer fixtures.
#[derive(Debug, Clone, Copy, PartialEq, Eq)]
pub enum DevFixtureKind {
    SinglePlayAction,
    AiMacroDemo,
}

pub const DEV_FIXTURE_PENDING_EXECUTION_BODY_SCHEMA_VERSION: u16 = 1;

/// What is stored of a fixture run that waits for admission.
#[derive(Debug, Clone, PartialEq, Eq)]
pub struct DevFixturePendingExecutionBody {
    pub schema_version: u16,
    pub context: DevFixtureExecutionContext,
    pub resolve_context: ResolveContext,
    pub fixture_kind: DevFixtureKind,
    pub trigger_source: ChoreographyTriggerSource,
}

/// A fixture run that asks for admission.
#[derive(Debug, PartialEq, Eq)]
pub struct DevFixtureAdmissionExecutionRequest {
    pub context: DevFixtureExecutionContext,
    pub resolve_context: ResolveContext,
    pub fixture_kind: DevFixtureKind,
    pub trigger_source: ChoreographyTriggerSource,
}

impl Clone for DevFixtureAdmissionExecutionRequest {
    fn clone(&self) -> (r: Self)
        ensures
            r == *self,
    {
        DevFixtureAdmissionExecutionRequest {
            context: self.context.clone(),
            resolve_context: self.resolve_context,
            fixture_kind: self.fixture_kind,
            trigger_source: self.trigger_source,
        }
    }
}

impl DevFixtureAdmissionExecutionRequest {
    /// A fixture run that asks for admission.
    pub fn new(
        context: DevFixtureExecutionContext,
        resolve_context: ResolveContext,
        fixture_kind: DevFixtureKind,
        trigger_source: ChoreographyTriggerSource,
    ) -> (r: Self)
        ensures
            r == (DevFixtureAdmissionExecutionRequest { context, resolve_context, fixture_kind, trigger_source }),
    {
        DevFixtureAdmissionExecutionRequest { context, resolve_context, fixture_kind, trigger_source }
    }

    /// What is stored of the run while it waits.
    pub fn pending_body(&self) -> (r: DevFixturePendingExecutionBody)
        ensures
            r == spec_dev_fixture_pending_body(*self),
    {
        DevFixturePendingExecutionBody {
            schema_version: DEV_FIXTURE_PENDING_EXECUTION_BODY_SCHEMA_VERSION,
            context: self.context.clone(),
            resolve_context: self.resolve_context,
            fixture_kind: self.fixture_kind,
            trigger_source: self.trigger_source,
        }
    }

    /// The run a stored body describes; a body of another schema version is refused.
    pub fn from_pending_body(body: DevFixturePendingExecutionBody) -> (r: BuddyResult<Self>)
        ensures
            spec_restored_dev_fixture_request(body) matches Some(q) ==> r == Ok::<Self, BuddyError>(q),
            spec_restored_dev_fixture_request(body) is None ==> r is Err && r->Err_0@ == BuddyErrorView::Validation(
                "unsupported pending dev fixture execution body schemaVersion="@ + crate::text::spec_decimal(
                    body.schema_version as nat,
                ),
            ),
    {
        if body.schema_version != DEV_FIXTURE_PENDING_EXECUTION_BODY_SCHEMA_VERSION {
            let n = crate::text::decimal_string(body.schema_version as u128);
            return Err(BuddyError::Validation(crate::text::concat_str(
                "unsupported pending dev fixture execution body schemaVersion=",
                n.as_str(),
            )));
        }
        Ok(Self::new(body.context, body.resolve_context, body.fixture_kind, body.trigger_source))
    }
}

/// What is stored of a fixture run while it waits: the run at the current schema version.
pub open spec fn spec_dev_fixture_pending_body(r: DevFixtureAdmissionExecutionRequest) -> DevFixturePendingExecutionBody {
    DevFixturePendingExecutionBody {
        schema_version: DEV_FIXTURE_PENDING_EXECUTION_BODY_SCHEMA_VERSION,
        context: r.context,
        resolve_context: r.resolve_context,
        fixture_kind: r.fixture_kind,
        trigger_source: r.trigger_source,
    }
}

/// The fixture run a stored body describes, when the body has the current schema version.
pub open spec fn spec_restored_dev_fixture_request(b: DevFixturePendingExecutionBody) -> Option<
    DevFixtureAdmissionExecutionRequest,
> {
    if b.schema_version == DEV_FIXTURE_PENDING_EXECUTION_BODY_SCHEMA_VERSION {
        Some(
            DevFixtureAdmissionExecutionRequest {
                context: b.context,
                resolve_context: b.resolve_context,
                fixture_kind: b.fixture_kind,
                trigger_source: b.trigger_source,
            },
        )
    } else {
        None
    }
}

/// Law: the body stored for a waiting fixture run reads back as that run.
pub proof fn law_pending_body_round_trips(request: DevFixtureAdmissionExecutionRequest)
    ensures
        spec_restored_dev_fixture_request(spec_dev_fixture_pending_body(request)) == Some(request),
{
}

/// The plan ids of queued fixture runs, in queue order.
pub open spec fn queued_plan_ids(requests: Seq<DevFixtureAdmissionExecutionRequest>) -> Seq<Seq<char>> {
    requests.map_values(|r: DevFixtureAdmissionExecutionRequest| r.context.plan_id@)
}

/// The queue without the runs of one plan, in order.
pub open spec fn spec_queue_without(requests: Seq<DevFixtureAdmissionExecutionRequest>, plan_id: Seq<char>) -> Seq<
    DevFixtureAdmissionExecutionRequest,
>
    decreases requests.len(),
{
    if requests.len() == 0 {
        requests
    } else {
        let rest = spec_queue_without(requests.drop_last(), plan_id);
        if requests.last().context.plan_id@ == plan_id {
            rest
        } else {
            rest.push(requests.last())
        }
    }
}

/// The first index of a run of one plan.
pub open spec fn spec_queue_position(requests: Seq<DevFixtureAdmissionExecutionRequest>, plan_id: Seq<char>) -> Option<int> {
    if exists|i: int| 0 <= i < requests.len() && requests[i].context.plan_id@ == plan_id {
        Some(choose|i: int|
            0 <= i < requests.len() && requests[i].context.plan_id@ == plan_id && forall|j: int|
                0 <= j < i ==> requests[j].context.plan_id@ != plan_id)
    } else {
        None
    }
}

/// The queue without a plan's runs holds none of its runs, and only plan ids the queue held;
/// when the queue held each plan at most once, so does the result.
pub proof fn lemma_queue_without(requests: Seq<DevFixtureAdmissionExecutionRequest>, plan_id: Seq<char>)
    ensures
        forall|k: Seq<char>| #[trigger]
            queued_plan_ids(spec_queue_without(requests, plan_id)).contains(k) ==> k != plan_id
                && queued_plan_ids(requests).contains(k),
        queued_plan_ids(requests).no_duplicates() ==> queued_plan_ids(
            spec_queue_without(requests, plan_id),
        ).no_duplicates(),
    decreases requests.len(),
{
    if requests.len() > 0 {
        let init = requests.drop_last();
        lemma_queue_without(init, plan_id);
        let w = spec_queue_without(requests, plan_id);
        let wi = spec_queue_without(init, plan_id);
        let ids = queued_plan_ids(requests);
        assert(queued_plan_ids(init) =~= ids.drop_last());
        assert forall|k: Seq<char>| #[trigger] queued_plan_ids(w).contains(k) implies k != plan_id && ids.contains(k) by {
            let j = choose|j: int| 0 <= j < queued_plan_ids(w).len() && queued_plan_ids(w)[j] == k;
            if requests.last().context.plan_id@ == plan_id || j < wi.len() {
                assert(queued_plan_ids(wi)[j] == k);
                assert(queued_plan_ids(wi).contains(k));
                let i = choose|i: int| 0 <= i < queued_plan_ids(init).len() && queued_plan_ids(init)[i] == k;
                assert(ids[i] == k);
            } else {
                assert(ids[requests.len() - 1] == k);
            }
        }
        if ids.no_duplicates() && requests.last().context.plan_id@ != plan_id {
            let last_id = requests.last().context.plan_id@;
            assert(ids.drop_last().no_duplicates());
            assert(!queued_plan_ids(wi).contains(last_id)) by {
                if queued_plan_ids(wi).contains(last_id) {
                    let i = choose|i: int| 0 <= i < queued_plan_ids(init).len() && queued_plan_ids(init)[i] == last_id;
                    assert(ids[i] == ids[requests.len() - 1]);
                }
            }
            assert(queued_plan_ids(w) =~= queued_plan_ids(wi).push(last_id));
            assert forall|a: int, b: int|
                0 <= a < queued_plan_ids(w).len() && 0 <= b < queued_plan_ids(w).len() && a != b implies queued_plan_ids(
                w,
            )[a] != queued_plan_ids(w)[b] by {
                if a < wi.len() && b < wi.len() {
                } else if a < wi.len() {
                    assert(queued_plan_ids(wi).contains(queued_plan_ids(w)[a]));
                } else if b < wi.len() {
                    assert(queued_plan_ids(wi).contains(queued_plan_ids(w)[b]));
                }
            }
        }
    }
}

/// Law: queueing a run keeps each plan queued at most once.
pub proof fn law_queue_holds_each_plan_once(
    requests: Seq<DevFixtureAdmissionExecutionRequest>,
    request: DevFixtureAdmissionExecutionRequest,
)
    requires
        queued_plan_ids(requests).no_duplicates(),
    ensures
        queued_plan_ids(spec_queue_without(requests, request.context.plan_id@).push(request)).no_duplicates(),
{
    let id = request.context.plan_id@;
    let w = spec_queue_without(requests, id);
    lemma_queue_without(requests, id);
    assert(queued_plan_ids(w.push(request)) =~= queued_plan_ids(w).push(id));
    assert forall|a: int, b: int|
        0 <= a < w.len() + 1 && 0 <= b < w.len() + 1 && a != b implies queued_plan_ids(w.push(request))[a]
        != queued_plan_ids(w.push(request))[b] by {
        if a < w.len() && b < w.len() {
        } else if a < w.len() {
            assert(queued_plan_ids(w).contains(queued_plan_ids(w)[a]));
        } else if b < w.len() {
            assert(queued_plan_ids(w).contains(queued_plan_ids(w)[b]));
        }
    }
}

/// Law: a run just queued is the one taken back for its plan, and taking it leaves the other
/// runs as they were, in order.
pub proof fn law_queued_run_is_taken_back(
    requests: Seq<DevFixtureAdmissionExecutionRequest>,
    request: DevFixtureAdmissionExecutionRequest,
)
    ensures
        ({
            let queue = spec_queue_without(requests, request.context.plan_id@).push(request);
            &&& spec_queue_position(queue, request.context.plan_id@) == Some(queue.len() - 1)
            &&& queue[queue.len() - 1] == request
            &&& queue.remove(queue.len() - 1) == spec_queue_without(requests, request.context.plan_id@)
        }),
{
    let id = request.context.plan_id@;
    let w = spec_queue_without(requests, id);
    let queue = w.push(request);
    lemma_queue_without(requests, id);
    assert forall|j: int| 0 <= j < w.len() implies queue[j].context.plan_id@ != id by {
        assert(queued_plan_ids(w)[j] == w[j].context.plan_id@);
        assert(queued_plan_ids(w).contains(w[j].context.plan_id@));
    }
    let n = queue.len() - 1;
    assert(0 <= n < queue.len() && queue[n].context.plan_id@ == id);
    let c = choose|i: int|
        0 <= i < queue.len() && queue[i].context.plan_id@ == id && forall|j: int|
            0 <= j < i ==> queue[j].context.plan_id@ != id;
    if c < n {
        assert(queue[c].context.plan_id@ != id);
    }
    assert(queue.remove(n) =~= w);
}

/// Fixture runs that wait for admission, in the order they arrived.
#[derive(Debug, Default)]
pub struct PendingDevFixtureExecutionQueue {
    pub requests: Vec<DevFixtureAdmissionExecutionRequest>,
}

impl PendingDevFixtureExecutionQueue {
    /// An empty queue.
    pub fn new() -> (r: Self)
        ensures
            r.requests@.len() == 0,
    {
        PendingDevFixtureExecutionQueue { requests: Vec::new() }
    }

    fn position(&self, plan_id: &str) -> (r: Option<usize>)
        ensures
            match r {
                Some(i) => spec_queue_position(self.requests@, plan_id@) == Some(i as int) && i < self.requests@.len()
                    && self.requests@[i as int].context.plan_id@ == plan_id@,
                None => spec_queue_position(self.requests@, plan_id@) is None,
            },
    {
        let mut i: usize = 0;
        while i < self.requests.len()
            invariant
                i <= self.requests@.len(),
                forall|j: int| 0 <= j < i ==> self.requests@[j].context.plan_id@ != plan_id@,
            decreases self.requests@.len() - i,
        {
            if str_eq(self.requests[i].context.plan_id.as_str(), plan_id) {
                proof {
                    let c = choose|k: int|
                        0 <= k < self.requests@.len() && self.requests@[k].context.plan_id@ == plan_id@ && forall|j: int|
                            0 <= j < k ==> self.requests@[j].context.plan_id@ != plan_id@;
                    assert(0 <= i < self.requests@.len() && self.requests@[i as int].context.plan_id@ == plan_id@);
                    if c < i {
                        assert(self.requests@[c].context.plan_id@ != plan_id@);
                    } else if c > i {
                        assert(self.requests@[i as int].context.plan_id@ != plan_id@);
                    }
                }
                return Some(i);
            }
            i = i + 1;
        }
        None
    }

    /// Stores a run's body and queues it; when the body cannot be stored the queue is left as
    /// it was and the error is returned.
    pub fn enqueue<S: crate::admitted_run::PendingExecutionStore>(
        &mut self,
        store: &mut S,
        request: DevFixtureAdmissionExecutionRequest,
    ) -> (r: BuddyResult<()>)
        ensures
            r is Ok ==> final(self).requests@ == spec_queue_without(old(self).requests@, request.context.plan_id@).push(
                request,
            ),
            r is Err ==> final(self).requests@ == old(self).requests@,
            final(store).keeps_record() == old(store).keeps_record(),
            old(store).keeps_record() ==> final(store).requested_bodies() == old(store).requested_bodies().push(
                (request.context.plan_id@, r is Ok),
            ),
    {
        match store.persist_dev_fixture(&request) {
            Ok(_) => {},
            Err(e) => return Err(e),
        }
        self.enqueue_persisted(request);
        Ok(())
    }

    /// Queues a run whose body is already stored; an earlier run of the same plan leaves.
    pub fn enqueue_persisted(&mut self, request: DevFixtureAdmissionExecutionRequest)
        ensures
            final(self).requests@ == spec_queue_without(old(self).requests@, request.context.plan_id@).push(request),
    {
        let ghost old_requests = self.requests@;
        let mut kept: Vec<DevFixtureAdmissionExecutionRequest> = Vec::new();
        let mut i: usize = 0;
        assert(old_requests.take(0) =~= Seq::<DevFixtureAdmissionExecutionRequest>::empty());
        while i < self.requests.len()
            invariant
                i <= self.requests@.len(),
                old_requests == self.requests@,
                kept@ == spec_queue_without(old_requests.take(i as int), request.context.plan_id@),
            decreases self.requests@.len() - i,
        {
            assert(old_requests.take(i + 1).drop_last() =~= old_requests.take(i as int));
            assert(old_requests.take(i + 1).last() == old_requests[i as int]);
            if !str_eq(self.requests[i].context.plan_id.as_str(), request.context.plan_id.as_str()) {
                kept.push(self.requests[i].clone());
            }
            i = i + 1;
        }
        assert(old_requests.take(i as int) =~= old_requests);
        kept.push(request);
        self.requests = kept;
    }

    /// Takes the first run of a plan out of the queue.
    pub fn take(&mut self, plan_id: &str) -> (r: Option<DevFixtureAdmissionExecutionRequest>)
        ensures
            match spec_queue_position(old(self).requests@, plan_id@) {
                Some(i) => r == Some(old(self).requests@[i]) && final(self).requests@ == old(self).requests@.remove(i),
                None => r is None && final(self).requests@ == old(self).requests@,
            },
    {
        match self.position(plan_id) {
            Some(i) => Some(self.requests.remove(i)),
            None => None,
        }
    }

    /// Drops the first run of a plan that another run replaced; true when there was one.
    pub fn remove_replaced(&mut self, plan_id: &str) -> (r: bool)
        ensures
            match spec_queue_position(old(self).requests@, plan_id@) {
                Some(i) => r && final(self).requests@ == old(self).requests@.remove(i),
                None => !r && final(self).requests@ == old(self).requests@,
            },
    {
        match self.position(plan_id) {
            Some(i) => {
                self.requests.remove(i);
                true
            },
            None => false,
        }
    }

    /// True when a run of the plan is queued.
    pub fn contains(&self, plan_id: &str) -> (r: bool)
        ensures
            r == queued_plan_ids(self.requests@).contains(plan_id@),
    {
        let r = self.position(plan_id).is_some();
        proof {
            let ids = queued_plan_ids(self.requests@);
            if r {
                let i = spec_queue_position(self.requests@, plan_id@).unwrap();
                assert(ids[i] == plan_id@);
            } else {
                assert forall|k: int| 0 <= k < ids.len() implies ids[k] != plan_id@ by {
                    assert(ids[k] == self.requests@[k].context.plan_id@);
                }
            }
        }
        r
    }

    /// The plan ids of the queued runs, in queue order.
    pub fn plan_ids(&self) -> (r: Vec<String>)
        ensures
            r@.map_values(|s: String| s@) == queued_plan_ids(self.requests@),
    {
        let mut out: Vec<String> = Vec::new();
        let mut i: usize = 0;
        while i < self.requests.len()
            invariant
                i <= self.requests@.len(),
                out@.len() == i,
                forall|k: int| 0 <= k < i ==> (#[trigger] out@[k])@ == self.requests@[k].context.plan_id@,
            decreases self.requests@.len() - i,
        {
            out.push(self.requests[i].context.plan_id.clone());
            i = i + 1;
        }
        assert(out@.map_values(|s: String| s@) =~= queued_plan_ids(self.requests@));
        out
    }
}

} // verus!
