use vstd::prelude::*;

use crate::action_log::{jstr, spec_log_event, ActionLogEvent, ActionLogSystemEvent};
use crate::admission::ChoreographyTriggerSource;
use crate::json::{json_object, json_str, json_u64, members_view, object_member, push_member, spec_member, JsonValue, JsonView};
use crate::text::{concat3, concat_str, decimal_string, spec_decimal};
use crate::wire::num;

verus! {

/// A system event with these fields, at the current schema version, about no plan or step.
pub open spec fn system_event_is(
    r: ActionLogSystemEvent,
    event_id: Seq<char>,
    event_type: Seq<char>,
    status: Seq<char>,
    reason_code: Seq<char>,
    source_ref: JsonView,
    trigger_source: Seq<char>,
    payload: JsonView,
    created_at: Seq<char>,
) -> bool {
    &&& r.event_id@ == event_id
    &&& r.schema_version == 1
    &&& r.event_type@ == event_type
    &&& r.status@ == status
    &&& r.reason_code@ == reason_code
    &&& r.plan_id is None
    &&& r.step_id is None
    &&& r.source_ref@ == source_ref
    &&& r.trigger_source@ == trigger_source
    &&& r.payload@ == payload
    &&& r.created_at@ == created_at
}

fn system_event(
    event_id: &str,
    event_type: &str,
    status: &str,
    reason_code: &str,
    source_ref: JsonValue,
    trigger_source: &str,
    payload: JsonValue,
    created_at: &str,
) -> (r: ActionLogSystemEvent)
    ensures
        system_event_is(
            r,
            event_id@,
            event_type@,
            status@,
            reason_code@,
            source_ref@,
            trigger_source@,
            payload@,
            created_at@,
        ),
{
    ActionLogSystemEvent {
        event_id: event_id.to_owned(),
        schema_version: 1,
        event_type: event_type.to_owned(),
        status: status.to_owned(),
        reason_code: reason_code.to_owned(),
        plan_id: None,
        step_id: None,
        source_ref,
        trigger_source: trigger_source.to_owned(),
        payload,
        created_at: created_at.to_owned(),
    }
}

fn empty_members() -> (r: Vec<(String, JsonValue)>)
    ensures
        members_view(r@) == Seq::<(Seq<char>, JsonView)>::empty(),
{
    let r: Vec<(String, JsonValue)> = Vec::new();
    assert(members_view(r@) =~= Seq::<(Seq<char>, JsonView)>::empty());
    r
}

/// A source that names only its kind.
pub open spec fn spec_kind_source(kind: Seq<char>) -> JsonView {
    JsonView::Object(Seq::empty().push(("kind"@, jstr(kind))))
}

fn kind_source(kind: &str) -> (r: JsonValue)
    ensures
        r@ == spec_kind_source(kind@),
{
    let mut m = empty_members();
    push_member(&mut m, "kind", json_str(kind));
    json_object(m)
}

/// A detail: a message and where it came from.
pub open spec fn spec_detail(message: Seq<char>, source: Seq<char>) -> JsonView {
    JsonView::Object(Seq::empty().push(("message"@, jstr(message))).push(("source"@, jstr(source))))
}

fn detail(message: &str, source: &str) -> (r: JsonValue)
    ensures
        r@ == spec_detail(message@, source@),
{
    let mut m = empty_members();
    push_member(&mut m, "message", json_str(message));
    push_member(&mut m, "source", json_str(source));
    json_object(m)
}

/// What the log records of a plan or step that a runtime restart interrupted: what it was
/// before.
pub open spec fn spec_restart_payload(previous_status: Seq<char>, previous_event_type: Seq<char>, previous_reason_code: Seq<char>) -> JsonView {
    JsonView::Object(
        Seq::empty().push(("status"@, jstr("interrupted"@))).push(("resultKind"@, jstr("interrupted"@))).push(
            ("previousStatus"@, jstr(previous_status)),
        ).push(("previousEventType"@, jstr(previous_event_type))).push(("previousReasonCode"@, jstr(previous_reason_code))),
    )
}

fn restart_payload(previous_status: &str, previous_event_type: &str, previous_reason_code: &str) -> (r: JsonValue)
    ensures
        r@ == spec_restart_payload(previous_status@, previous_event_type@, previous_reason_code@),
{
    let mut m = empty_members();
    push_member(&mut m, "status", json_str("interrupted"));
    push_member(&mut m, "resultKind", json_str("interrupted"));
    push_member(&mut m, "previousStatus", json_str(previous_status));
    push_member(&mut m, "previousEventType", json_str(previous_event_type));
    push_member(&mut m, "previousReasonCode", json_str(previous_reason_code));
    json_object(m)
}

/// The event that a plan was interrupted because the runtime restarted while it ran.
pub fn plan_interrupted_after_runtime_restart(
    event_id: &str,
    plan_id: &str,
    source_ref: JsonValue,
    previous_status: &str,
    previous_event_type: &str,
    previous_reason_code: &str,
    created_at: &str,
) -> (r: ActionLogEvent)
    ensures
        r@ == spec_log_event(
            event_id@,
            plan_id@,
            None,
            "plan.interrupted"@,
            "interrupted"@,
            "runtime.restarted"@,
            source_ref@,
            "startupSystem"@,
            spec_restart_payload(previous_status@, previous_event_type@, previous_reason_code@),
            created_at@,
        ),
{
    ActionLogEvent {
        event_id: event_id.to_owned(),
        schema_version: 1,
        event_type: "plan.interrupted".to_owned(),
        status: "interrupted".to_owned(),
        reason_code: "runtime.restarted".to_owned(),
        plan_id: plan_id.to_owned(),
        step_id: None,
        source_ref,
        trigger_source: "startupSystem".to_owned(),
        payload: restart_payload(previous_status, previous_event_type, previous_reason_code),
        created_at: created_at.to_owned(),
    }
}

/// A step that a runtime restart interrupted: its ids, its plan's source, what it was before,
/// and when.
pub struct ActionLogRuntimeRestartStepInterruption<'a> {
    pub event_id: String,
    pub plan_id: &'a str,
    pub step_id: &'a str,
    pub source_ref: &'a JsonValue,
    pub previous_status: &'a str,
    pub previous_event_type: &'a str,
    pub previous_reason_code: &'a str,
    pub created_at: &'a str,
}

/// The event that a step was interrupted because the runtime restarted while it ran.
pub fn step_interrupted_after_runtime_restart(interruption: ActionLogRuntimeRestartStepInterruption) -> (r:
    ActionLogEvent)
    ensures
        r@ == spec_log_event(
            interruption.event_id@,
            interruption.plan_id@,
            Some(interruption.step_id@),
            "step.interrupted"@,
            "interrupted"@,
            "runtime.restarted"@,
            interruption.source_ref@,
            "startupSystem"@,
            spec_restart_payload(
                interruption.previous_status@,
                interruption.previous_event_type@,
                interruption.previous_reason_code@,
            ),
            interruption.created_at@,
        ),
{
    ActionLogEvent {
        event_id: interruption.event_id,
        schema_version: 1,
        event_type: "step.interrupted".to_owned(),
        status: "interrupted".to_owned(),
        reason_code: "runtime.restarted".to_owned(),
        plan_id: interruption.plan_id.to_owned(),
        step_id: Some(interruption.step_id.to_owned()),
        source_ref: interruption.source_ref.duplicate(),
        trigger_source: "startupSystem".to_owned(),
        payload: restart_payload(
            interruption.previous_status,
            interruption.previous_event_type,
            interruption.previous_reason_code,
        ),
        created_at: interruption.created_at.to_owned(),
    }
}

/// What the log records when the readiness health gate passed after a recovery.
pub open spec fn spec_health_gate_passed_payload(trigger: Seq<char>) -> JsonView {
    JsonView::Object(
        Seq::empty().push(("recoveryTriggerSource"@, jstr(trigger))).push(("check"@, jstr("sidecar.queryState"@))).push(
            (
                "detail"@,
                spec_detail(
                    "choreography runtime readiness recovered after "@ + trigger + " health gate"@,
                    "choreographyRuntimeReadiness"@,
                ),
            ),
        ),
    )
}

/// The system event that the sidecar answered the readiness health gate.
pub fn health_gate_passed(event_id: &str, recovery_trigger_source: ChoreographyTriggerSource, created_at: &str) -> (r:
    ActionLogSystemEvent)
    ensures
        system_event_is(
            r,
            event_id@,
            "healthGate.passed"@,
            "passed"@,
            "sidecar.available"@,
            spec_kind_source("healthGate"@),
            "healthGate"@,
            spec_health_gate_passed_payload(recovery_trigger_source.spec_action_log_value()),
            created_at@,
        ),
{
    let trigger = recovery_trigger_source.action_log_value();
    let message = concat3("choreography runtime readiness recovered after ", trigger, " health gate");
    let mut m = empty_members();
    push_member(&mut m, "recoveryTriggerSource", json_str(trigger));
    push_member(&mut m, "check", json_str("sidecar.queryState"));
    push_member(&mut m, "detail", detail(message.as_str(), "choreographyRuntimeReadiness"));
    system_event(
        event_id,
        "healthGate.passed",
        "passed",
        "sidecar.available",
        kind_source("healthGate"),
        "healthGate",
        json_object(m),
        created_at,
    )
}

/// What the log records when the readiness health gate failed.
pub open spec fn spec_health_gate_failed_payload(trigger: Seq<char>, error_message: Seq<char>) -> JsonView {
    JsonView::Object(
        Seq::empty().push(("recoveryTriggerSource"@, jstr(trigger))).push(("check"@, jstr("sidecar.queryState"@))).push(
            ("error"@, jstr(error_message)),
        ).push(
            (
                "detail"@,
                spec_detail(
                    "choreography runtime readiness health gate failed for "@ + trigger,
                    "choreographyRuntimeReadiness"@,
                ),
            ),
        ),
    )
}

/// The system event that the sidecar did not answer the readiness health gate.
pub fn health_gate_failed(
    event_id: &str,
    recovery_trigger_source: ChoreographyTriggerSource,
    error_message: &str,
    created_at: &str,
) -> (r: ActionLogSystemEvent)
    ensures
        system_event_is(
            r,
            event_id@,
            "healthGate.failed"@,
            "failed"@,
            "sidecar.unavailable"@,
            spec_kind_source("healthGate"@),
            "healthGate"@,
            spec_health_gate_failed_payload(recovery_trigger_source.spec_action_log_value(), error_message@),
            created_at@,
        ),
{
    let trigger = recovery_trigger_source.action_log_value();
    let message = concat_str("choreography runtime readiness health gate failed for ", trigger);
    let mut m = empty_members();
    push_member(&mut m, "recoveryTriggerSource", json_str(trigger));
    push_member(&mut m, "check", json_str("sidecar.queryState"));
    push_member(&mut m, "error", json_str(error_message));
    push_member(&mut m, "detail", detail(message.as_str(), "choreographyRuntimeReadiness"));
    system_event(
        event_id,
        "healthGate.failed",
        "failed",
        "sidecar.unavailable",
        kind_source("healthGate"),
        "healthGate",
        json_object(m),
        created_at,
    )
}

/// What the log records when the scheduler stored a waiting run's body.
pub open spec fn spec_pending_body_stored_payload(plan_id: Seq<char>, body_kind: Seq<char>, schema_version: u16, body: JsonView) -> JsonView {
    JsonView::Object(
        Seq::empty().push(("planId"@, jstr(plan_id))).push(("bodyKind"@, jstr(body_kind))).push(
            ("schemaVersion"@, num(schema_version as u64)),
        ).push(("body"@, body)).push(
            (
                "detail"@,
                spec_detail("stored pending choreography execution body for plan "@ + plan_id, "choreographyScheduler"@),
            ),
        ),
    )
}

/// The system event that the scheduler stored a waiting run's body.
pub fn choreography_scheduler_pending_body_stored(
    event_id: &str,
    plan_id: &str,
    body_kind: &str,
    schema_version: u16,
    body: &JsonValue,
    created_at: &str,
) -> (r: ActionLogSystemEvent)
    ensures
        system_event_is(
            r,
            event_id@,
            "choreographyScheduler.pendingBodyStored"@,
            "completed"@,
            "choreographyScheduler.pendingBodyStored"@,
            spec_kind_source("choreographyScheduler"@),
            "choreographyScheduler"@,
            spec_pending_body_stored_payload(plan_id@, body_kind@, schema_version, body@),
            created_at@,
        ),
{
    let message = concat_str("stored pending choreography execution body for plan ", plan_id);
    let mut m = empty_members();
    push_member(&mut m, "planId", json_str(plan_id));
    push_member(&mut m, "bodyKind", json_str(body_kind));
    push_member(&mut m, "schemaVersion", json_u64(schema_version as u64));
    push_member(&mut m, "body", body.duplicate());
    push_member(&mut m, "detail", detail(message.as_str(), "choreographyScheduler"));
    system_event(
        event_id,
        "choreographyScheduler.pendingBodyStored",
        "completed",
        "choreographyScheduler.pendingBodyStored",
        kind_source("choreographyScheduler"),
        "choreographyScheduler",
        json_object(m),
        created_at,
    )
}

/// What the log records when the scheduler deleted a waiting run's body.
pub open spec fn spec_pending_body_deleted_payload(plan_id: Seq<char>, body_kind: Seq<char>, schema_version: u16) -> JsonView {
    JsonView::Object(
        Seq::empty().push(("planId"@, jstr(plan_id))).push(("bodyKind"@, jstr(body_kind))).push(
            ("schemaVersion"@, num(schema_version as u64)),
        ).push(
            (
                "detail"@,
                spec_detail("deleted pending choreography execution body for plan "@ + plan_id, "choreographyScheduler"@),
            ),
        ),
    )
}

/// The system event that the scheduler deleted a waiting run's body.
pub fn choreography_scheduler_pending_body_deleted(
    event_id: &str,
    plan_id: &str,
    body_kind: &str,
    schema_version: u16,
    created_at: &str,
) -> (r: ActionLogSystemEvent)
    ensures
        system_event_is(
            r,
            event_id@,
            "choreographyScheduler.pendingBodyDeleted"@,
            "completed"@,
            "choreographyScheduler.pendingBodyDeleted"@,
            spec_kind_source("choreographyScheduler"@),
            "choreographyScheduler"@,
            spec_pending_body_deleted_payload(plan_id@, body_kind@, schema_version),
            created_at@,
        ),
{
    let message = concat_str("deleted pending choreography execution body for plan ", plan_id);
    let mut m = empty_members();
    push_member(&mut m, "planId", json_str(plan_id));
    push_member(&mut m, "bodyKind", json_str(body_kind));
    push_member(&mut m, "schemaVersion", json_u64(schema_version as u64));
    push_member(&mut m, "detail", detail(message.as_str(), "choreographyScheduler"));
    system_event(
        event_id,
        "choreographyScheduler.pendingBodyDeleted",
        "completed",
        "choreographyScheduler.pendingBodyDeleted",
        kind_source("choreographyScheduler"),
        "choreographyScheduler",
        json_object(m),
        created_at,
    )
}

/// The message of clearing stale bodies after a restart: how many rows were cleared and how
/// many waiting admissions were dropped rather than replayed.
pub open spec fn spec_stale_bodies_message(cleared: nat, recoverable: nat) -> Seq<char> {
    "cleared "@ + spec_decimal(cleared)
        + " stale choreography pending execution body cache row(s) after runtime restart; "@ + spec_decimal(
        recoverable,
    ) + " recoverable pending admission(s) were discarded instead of replayed"@
}

/// What the log records when stale bodies were cleared after a restart.
pub open spec fn spec_stale_bodies_payload(cleared: nat, recoverable: nat) -> JsonView {
    JsonView::Object(
        Seq::empty().push(("clearedBodyCount"@, JsonView::Number(Some(cleared as i128)))).push(
            ("recoverablePendingAdmissionCount"@, JsonView::Number(Some(recoverable as i128))),
        ).push(("detail"@, spec_detail(spec_stale_bodies_message(cleared, recoverable), "choreographyScheduler"@))),
    )
}

/// The system event that the scheduler cleared stale waiting bodies after a restart.
pub fn choreography_scheduler_stale_pending_bodies_cleared(
    event_id: &str,
    cleared_body_count: usize,
    recoverable_pending_admission_count: usize,
    created_at: &str,
) -> (r: ActionLogSystemEvent)
    ensures
        system_event_is(
            r,
            event_id@,
            "choreographyScheduler.stalePendingBodiesCleared"@,
            "completed"@,
            "runtime.restarted"@,
            spec_kind_source("choreographyScheduler"@),
            "choreographyScheduler"@,
            spec_stale_bodies_payload(cleared_body_count as nat, recoverable_pending_admission_count as nat),
            created_at@,
        ),
{
    let cleared = decimal_string(cleared_body_count as u128);
    let recoverable = decimal_string(recoverable_pending_admission_count as u128);
    let a = concat3(
        "cleared ",
        cleared.as_str(),
        " stale choreography pending execution body cache row(s) after runtime restart; ",
    );
    let message = concat3(
        a.as_str(),
        recoverable.as_str(),
        " recoverable pending admission(s) were discarded instead of replayed",
    );
    let mut m = empty_members();
    push_member(&mut m, "clearedBodyCount", json_u64(cleared_body_count as u64));
    push_member(&mut m, "recoverablePendingAdmissionCount", json_u64(recoverable_pending_admission_count as u64));
    push_member(&mut m, "detail", detail(message.as_str(), "choreographyScheduler"));
    system_event(
        event_id,
        "choreographyScheduler.stalePendingBodiesCleared",
        "completed",
        "runtime.restarted",
        kind_source("choreographyScheduler"),
        "choreographyScheduler",
        json_object(m),
        created_at,
    )
}

/// What the log records when a waiting plan had no queued body.
pub open spec fn spec_pending_body_missing_payload(active_plan_id: Seq<char>, pending_plan_id: Seq<char>, phase: Seq<char>) -> JsonView {
    JsonView::Object(
        Seq::empty().push(("activePlanId"@, jstr(active_plan_id))).push(("pendingPlanId"@, jstr(pending_plan_id))).push(
            ("phase"@, jstr(phase)),
        ).push(
            (
                "detail"@,
                spec_detail(
                    "pending choreography plan "@ + pending_plan_id + " has no queued execution body"@,
                    "choreographyScheduler"@,
                ),
            ),
        ),
    )
}

/// The system event that a waiting plan had no queued body.
pub fn choreography_scheduler_pending_body_missing(
    event_id: &str,
    active_plan_id: &str,
    pending_plan_id: &str,
    phase: &str,
    created_at: &str,
) -> (r: ActionLogSystemEvent)
    ensures
        system_event_is(
            r,
            event_id@,
            "choreographyScheduler.pendingBodyMissing"@,
            "degraded"@,
            "choreographyScheduler.pendingBodyMissing"@,
            spec_kind_source("choreographyScheduler"@),
            "choreographyScheduler"@,
            spec_pending_body_missing_payload(active_plan_id@, pending_plan_id@, phase@),
            created_at@,
        ),
{
    let message = concat3("pending choreography plan ", pending_plan_id, " has no queued execution body");
    let mut m = empty_members();
    push_member(&mut m, "activePlanId", json_str(active_plan_id));
    push_member(&mut m, "pendingPlanId", json_str(pending_plan_id));
    push_member(&mut m, "phase", json_str(phase));
    push_member(&mut m, "detail", detail(message.as_str(), "choreographyScheduler"));
    system_event(
        event_id,
        "choreographyScheduler.pendingBodyMissing",
        "degraded",
        "choreographyScheduler.pendingBodyMissing",
        kind_source("choreographyScheduler"),
        "choreographyScheduler",
        json_object(m),
        created_at,
    )
}

/// The system event that the action log's index could not be brought up to date.
pub fn action_log_index_sync_failed(event_id: &str, error_message: &str, created_at: &str) -> (r: ActionLogSystemEvent)
    ensures
        system_event_is(
            r,
            event_id@,
            "actionLogIndex.syncFailed"@,
            "degraded"@,
            "actionLogIndex.syncFailed"@,
            spec_kind_source("actionLogIndex"@),
            "actionLogIndex"@,
            JsonView::Object(
                Seq::empty().push(
                    ("detail"@, spec_detail(error_message@, "sync_choreography_action_log_index"@)),
                ),
            ),
            created_at@,
        ),
{
    let mut m = empty_members();
    push_member(&mut m, "detail", detail(error_message, "sync_choreography_action_log_index"));
    system_event(
        event_id,
        "actionLogIndex.syncFailed",
        "degraded",
        "actionLogIndex.syncFailed",
        kind_source("actionLogIndex"),
        "actionLogIndex",
        json_object(m),
        created_at,
    )
}

/// What the log records when the affective state file could not be read: the file and the
/// default context used instead.
pub open spec fn spec_invalid_state_file_payload(state_file_name: Seq<char>) -> JsonView {
    JsonView::Object(
        Seq::empty().push(("stateFileName"@, jstr(state_file_name))).push(
            (
                "fallbackContext"@,
                JsonView::Object(Seq::empty().push(("mood"@, jstr("neutral"@))).push(("energy"@, jstr("medium"@)))),
            ),
        ),
    )
}

/// The system event that the affective state file could not be read and the default context
/// is used instead.
pub fn affective_context_invalid_state_file(event_id: &str, state_file_name: &str, created_at: &str) -> (r:
    ActionLogSystemEvent)
    ensures
        system_event_is(
            r,
            event_id@,
            "affectiveContext.invalidStateFile"@,
            "degraded"@,
            "affectiveContext.invalidStateFile"@,
            JsonView::Object(
                Seq::empty().push(("kind"@, jstr("affectiveContext"@))).push(("stateFileName"@, jstr(state_file_name@))),
            ),
            "affectiveContext"@,
            spec_invalid_state_file_payload(state_file_name@),
            created_at@,
        ),
{
    let mut source = empty_members();
    push_member(&mut source, "kind", json_str("affectiveContext"));
    push_member(&mut source, "stateFileName", json_str(state_file_name));
    let mut fallback = empty_members();
    push_member(&mut fallback, "mood", json_str("neutral"));
    push_member(&mut fallback, "energy", json_str("medium"));
    let mut m = empty_members();
    push_member(&mut m, "stateFileName", json_str(state_file_name));
    push_member(&mut m, "fallbackContext", json_object(fallback));
    system_event(
        event_id,
        "affectiveContext.invalidStateFile",
        "degraded",
        "affectiveContext.invalidStateFile",
        json_object(source),
        "affectiveContext",
        json_object(m),
        created_at,
    )
}

/// The member `key` of a JSON value, when it is an object that has one.
pub open spec fn spec_json_get(v: JsonView, key: Seq<char>) -> Option<JsonView> {
    match v {
        JsonView::Object(m) => spec_member(m, key),
        _ => None,
    }
}

fn json_get<'a>(v: &'a JsonValue, key: &str) -> (r: Option<&'a JsonValue>)
    ensures
        match spec_json_get(v@, key@) {
            Some(x) => r is Some && r.unwrap()@ == x,
            None => r is None,
        },
{
    match v {
        JsonValue::Object(members) => object_member(members, key),
        _ => None,
    }
}

/// The text that the first of `resolution.<key>`, `<key>` and `<alternate>` present in a
/// payload holds, when that value is a string.
pub open spec fn spec_payload_text(payload: JsonView, key: Seq<char>, alternate: Seq<char>) -> Option<Seq<char>> {
    let nested = match spec_json_get(payload, "resolution"@) {
        Some(r) => spec_json_get(r, key),
        None => None,
    };
    let found = if nested is Some {
        nested
    } else if spec_json_get(payload, key) is Some {
        spec_json_get(payload, key)
    } else {
        spec_json_get(payload, alternate)
    };
    match found {
        Some(JsonView::Str(s)) => Some(s),
        _ => None,
    }
}

fn payload_text<'a>(payload: &'a JsonValue, key: &str, alternate: &str) -> (r: Option<&'a str>)
    ensures
        match spec_payload_text(payload@, key@, alternate@) {
            Some(s) => r is Some && r.unwrap()@ == s,
            None => r is None,
        },
{
    let nested = match json_get(payload, "resolution") {
        Some(resolution) => json_get(resolution, key),
        None => None,
    };
    let found = match nested {
        Some(v) => Some(v),
        None => match json_get(payload, key) {
            Some(v) => Some(v),
            None => json_get(payload, alternate),
        },
    };
    match found {
        Some(JsonValue::Str(s)) => Some(s.as_str()),
        _ => None,
    }
}

impl ActionLogEvent {
    /// The action an event says was resolved: its resolution's action, its own, or the action
    /// after a move.
    pub fn resolved_action_id(&self) -> (r: Option<&str>)
        ensures
            match spec_payload_text(self.payload@, "actionId"@, "afterResolvedActionId"@) {
                Some(s) => r is Some && r.unwrap()@ == s,
                None => r is None,
            },
    {
        payload_text(&self.payload, "actionId", "afterResolvedActionId")
    }

    /// The animation an event says was resolved: its resolution's animation, its own, or the
    /// animation after a move.
    pub fn resolved_animation_ref(&self) -> (r: Option<&str>)
        ensures
            match spec_payload_text(self.payload@, "animationRef"@, "afterAnimationRef"@) {
                Some(s) => r is Some && r.unwrap()@ == s,
                None => r is None,
            },
    {
        payload_text(&self.payload, "animationRef", "afterAnimationRef")
    }
}

} // verus!
