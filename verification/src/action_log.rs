use vstd::prelude::*;

use crate::admission::{AdmissionDecisionView, ChoreographyAdmissionDecision, ChoreographyTriggerSource};
use crate::affective::{AffectiveEnergy, AffectiveMood};
use crate::error::BuddyResult;
use crate::json::{
    json_i32, json_str, json_u64, json_view, members_view, push_member, set_member, spec_without_key,
    JsonValue, JsonView,
};
use crate::registry::{FallbackView, ResolutionView, ResolveContext, StepResolution, StepResolutionFallback};
use crate::step_resolution::{AfterActionResolution, AfterActionView};
use crate::text::{concat_str, opt_str_view};
use crate::timeline::{
    MoveEdge, MoveTarget, TimelineFailurePolicy, TimelineSkipReason, WindowAnchorEdge, };

verus! {

pub const ACTION_LOG_SCHEMA_VERSION: u16 = 1;

/// One entry of the choreography action log.
#[derive(Debug, PartialEq, Eq)]
pub struct ActionLogEvent {
    pub event_id: String,
    pub schema_version: u16,
    pub event_type: String,
    pub status: String,
    pub reason_code: String,
    pub plan_id: String,
    pub step_id: Option<String>,
    pub source_ref: JsonValue,
    pub trigger_source: String,
    pub payload: JsonValue,
    pub created_at: String,
}

pub struct ActionLogEventView {
    pub event_id: Seq<char>,
    pub schema_version: u16,
    pub event_type: Seq<char>,
    pub status: Seq<char>,
    pub reason_code: Seq<char>,
    pub plan_id: Seq<char>,
    pub step_id: Option<Seq<char>>,
    pub source_ref: JsonView,
    pub trigger_source: Seq<char>,
    pub payload: JsonView,
    pub created_at: Seq<char>,
}

impl View for ActionLogEvent {
    type V = ActionLogEventView;

    open spec fn view(&self) -> ActionLogEventView {
        ActionLogEventView {
            event_id: self.event_id@,
            schema_version: self.schema_version,
            event_type: self.event_type@,
            status: self.status@,
            reason_code: self.reason_code@,
            plan_id: self.plan_id@,
            step_id: crate::text::opt_string_view(self.step_id),
            source_ref: self.source_ref@,
            trigger_source: self.trigger_source@,
            payload: self.payload@,
            created_at: self.created_at@,
        }
    }
}
/// The record `after` still holds every entry of `before`, in its place: nothing was taken out
/// or rewritten, and whatever came since follows.
pub open spec fn log_kept<T>(before: Seq<T>, after: Seq<T>) -> bool {
    &&& before.len() <= after.len()
    &&& forall|i: int| 0 <= i < before.len() ==> #[trigger] after[i] == before[i]
}

/// `e` records that the plan `plan_id` started, under `event_id`, at `at`.
pub open spec fn is_plan_started_event(e: ActionLogEventView, event_id: Seq<char>, plan_id: Seq<char>, at: Seq<char>) -> bool {
    &&& e.event_id == event_id
    &&& e.plan_id == plan_id
    &&& e.step_id is None
    &&& e.status == "started"@
    &&& e.created_at == at
}

/// `e` records the plan `plan_id` as a whole, with status `status`, under `event_id`, at `at`.
pub open spec fn is_plan_event(
    e: ActionLogEventView,
    event_id: Seq<char>,
    plan_id: Seq<char>,
    status: Seq<char>,
    at: Seq<char>,
) -> bool {
    &&& e.event_id == event_id
    &&& e.plan_id == plan_id
    &&& e.step_id is None
    &&& e.status == status
    &&& e.created_at == at
}

/// `e` records an admission decision about the plan `plan_id` from `trigger_source`, under
/// `event_id`, at `at`.
pub open spec fn is_admission_event(
    e: ActionLogEventView,
    event_id: Seq<char>,
    plan_id: Seq<char>,
    trigger_source: Seq<char>,
    at: Seq<char>,
) -> bool {
    &&& e.event_id == event_id
    &&& e.plan_id == plan_id
    &&& e.step_id is None
    &&& e.trigger_source == trigger_source
    &&& e.created_at == at
}

/// The record kept what it held, and the first event added after it records that the plan
/// `plan_id` started, under `event_id`, at `at`.
pub open spec fn logged_first_plan_started(
    before: Seq<ActionLogEventView>,
    after: Seq<ActionLogEventView>,
    event_id: Seq<char>,
    plan_id: Seq<char>,
    at: Seq<char>,
) -> bool {
    &&& log_kept(before, after)
    &&& after.len() > before.len()
    &&& is_plan_started_event(after[before.len() as int], event_id, plan_id, at)
}

/// Where the action log is written. A sink that keeps a record holds, as that record, every
/// event it was asked to append, in order; a sink that keeps none is promised nothing of. Whether
/// a write succeeds is the implementation's own: nothing is claimed of it here.
pub trait ActionLogSink {
    /// Whether this sink keeps a record of what it was asked to append. A sink that does not
    /// say so keeps none.
    closed spec fn keeps_record(&self) -> bool {
        false
    }

    /// The plan events this sink was asked to append, in order, where it keeps a record.
    closed spec fn requested_events(&self) -> Seq<ActionLogEventView> {
        Seq::empty()
    }

    /// The system events this sink was asked to append, in order, where it keeps a record.
    closed spec fn requested_system_events(&self) -> Seq<ActionLogSystemEventView> {
        Seq::empty()
    }

    fn append_event(&mut self, event: &ActionLogEvent) -> (r: BuddyResult<()>)
        ensures
            final(self).keeps_record() == old(self).keeps_record(),
            old(self).keeps_record() ==> final(self).requested_events() == old(self).requested_events().push(event@),
            old(self).keeps_record() ==> final(self).requested_system_events() == old(self).requested_system_events(),
    ;

    fn append_system_event(&mut self, event: &ActionLogSystemEvent) -> (r: BuddyResult<()>)
        ensures
            final(self).keeps_record() == old(self).keeps_record(),
            old(self).keeps_record() ==> final(self).requested_system_events() == old(
                self,
            ).requested_system_events().push(event@),
            old(self).keeps_record() ==> final(self).requested_events() == old(self).requested_events(),
    ;
}

impl ActionLogEvent {
    /// A copy of the event with the same content.
    pub fn duplicate(&self) -> (r: Self)
        ensures
            r@ == self@,
    {
        ActionLogEvent {
            event_id: self.event_id.clone(),
            schema_version: self.schema_version,
            event_type: self.event_type.clone(),
            status: self.status.clone(),
            reason_code: self.reason_code.clone(),
            plan_id: self.plan_id.clone(),
            step_id: crate::text::clone_opt_string(&self.step_id),
            source_ref: self.source_ref.duplicate(),
            trigger_source: self.trigger_source.clone(),
            payload: self.payload.duplicate(),
            created_at: self.created_at.clone(),
        }
    }
}

impl ActionLogSystemEvent {
    /// A copy of the event with the same content.
    pub fn duplicate(&self) -> (r: Self)
        ensures
            r@ == self@,
    {
        ActionLogSystemEvent {
            event_id: self.event_id.clone(),
            schema_version: self.schema_version,
            event_type: self.event_type.clone(),
            status: self.status.clone(),
            reason_code: self.reason_code.clone(),
            plan_id: crate::text::clone_opt_string(&self.plan_id),
            step_id: crate::text::clone_opt_string(&self.step_id),
            source_ref: self.source_ref.duplicate(),
            trigger_source: self.trigger_source.clone(),
            payload: self.payload.duplicate(),
            created_at: self.created_at.clone(),
        }
    }
}

/// An action log held in memory: every write succeeds, and the log holds copies of the
/// events in the order they were written.
pub struct MemoryActionLog {
    pub events: Vec<ActionLogEvent>,
    pub system_events: Vec<ActionLogSystemEvent>,
}

impl MemoryActionLog {
    /// An empty log.
    pub fn new() -> (r: Self)
        ensures
            r.keeps_record(),
            r.requested_events().len() == 0,
            r.requested_system_events().len() == 0,
    {
        let r = MemoryActionLog { events: Vec::new(), system_events: Vec::new() };
        assert(r.requested_events() =~= Seq::empty());
        assert(r.requested_system_events() =~= Seq::empty());
        r
    }
}

impl ActionLogSink for MemoryActionLog {
    open spec fn keeps_record(&self) -> bool {
        true
    }

    open spec fn requested_events(&self) -> Seq<ActionLogEventView> {
        self.events@.map_values(|e: ActionLogEvent| e@)
    }

    open spec fn requested_system_events(&self) -> Seq<ActionLogSystemEventView> {
        self.system_events@.map_values(|e: ActionLogSystemEvent| e@)
    }

    fn append_event(&mut self, event: &ActionLogEvent) -> (r: BuddyResult<()>) {
        let ghost before = self.events@;
        self.events.push(event.duplicate());
        assert(self.events@.map_values(|e: ActionLogEvent| e@) =~= before.map_values(|e: ActionLogEvent| e@).push(
            event@,
        ));
        Ok(())
    }

    fn append_system_event(&mut self, event: &ActionLogSystemEvent) -> (r: BuddyResult<()>) {
        let ghost before = self.system_events@;
        self.system_events.push(event.duplicate());
        assert(self.system_events@.map_values(|e: ActionLogSystemEvent| e@) =~= before.map_values(
            |e: ActionLogSystemEvent| e@,
        ).push(event@));
        Ok(())
    }
}

/// An entry of the action log about the runtime rather than one plan.
#[derive(Debug, PartialEq, Eq)]
pub struct ActionLogSystemEvent {
    pub event_id: String,
    pub schema_version: u16,
    pub event_type: String,
    pub status: String,
    pub reason_code: String,
    pub plan_id: Option<String>,
    pub step_id: Option<String>,
    pub source_ref: JsonValue,
    pub trigger_source: String,
    pub payload: JsonValue,
    pub created_at: String,
}

pub struct ActionLogSystemEventView {
    pub event_id: Seq<char>,
    pub schema_version: u16,
    pub event_type: Seq<char>,
    pub status: Seq<char>,
    pub reason_code: Seq<char>,
    pub plan_id: Option<Seq<char>>,
    pub step_id: Option<Seq<char>>,
    pub source_ref: JsonView,
    pub trigger_source: Seq<char>,
    pub payload: JsonView,
    pub created_at: Seq<char>,
}

impl View for ActionLogSystemEvent {
    type V = ActionLogSystemEventView;

    open spec fn view(&self) -> ActionLogSystemEventView {
        ActionLogSystemEventView {
            event_id: self.event_id@,
            schema_version: self.schema_version,
            event_type: self.event_type@,
            status: self.status@,
            reason_code: self.reason_code@,
            plan_id: crate::text::opt_string_view(self.plan_id),
            step_id: crate::text::opt_string_view(self.step_id),
            source_ref: self.source_ref@,
            trigger_source: self.trigger_source@,
            payload: self.payload@,
            created_at: self.created_at@,
        }
    }
}

/// The ids an event about a plan, or one of its steps, is written under.
pub struct ActionLogEventIds<'a> {
    pub event_id: &'a str,
    pub plan_id: &'a str,
    pub step_id: Option<&'a str>,
}

/// The counts and time of a timeline plan run so far.
#[derive(Debug, Clone, Copy, PartialEq, Eq)]
pub struct ActionLogTimelinePlanStats {
    pub completed_step_count: u64,
    pub failed_step_count: u64,
    pub skipped_step_count: u64,
    pub duration_ms: u64,
}

impl ActionLogTimelinePlanStats {
    /// Nothing run yet.
    pub fn new() -> (r: Self)
        ensures
            r == (ActionLogTimelinePlanStats {
                completed_step_count: 0,
                failed_step_count: 0,
                skipped_step_count: 0,
                duration_ms: 0,
            }),
    {
        ActionLogTimelinePlanStats { completed_step_count: 0, failed_step_count: 0, skipped_step_count: 0, duration_ms: 0 }
    }

    /// Adds what a step reported (held at `u64::MAX` rather than wrapping).
    pub fn add_report(&mut self, report: &crate::executor::TimelineStepExecutionReport)
        ensures
            final(self).completed_step_count == crate::executor::sat_add(
                old(self).completed_step_count,
                report.completed_step_count,
            ),
            final(self).failed_step_count == crate::executor::sat_add(old(self).failed_step_count, report.failed_step_count),
            final(self).skipped_step_count == crate::executor::sat_add(
                old(self).skipped_step_count,
                report.skipped_step_count,
            ),
            final(self).duration_ms == crate::executor::sat_add(old(self).duration_ms, report.duration_ms),
    {
        self.completed_step_count = self.completed_step_count.saturating_add(report.completed_step_count);
        self.failed_step_count = self.failed_step_count.saturating_add(report.failed_step_count);
        self.skipped_step_count = self.skipped_step_count.saturating_add(report.skipped_step_count);
        self.duration_ms = self.duration_ms.saturating_add(report.duration_ms);
    }
}

/// Which runs an event belongs to: developer fixtures, timeline plans (with the source that
/// asked for them), or system recovery.
#[derive(Debug, Clone, Copy, PartialEq, Eq)]
pub enum ActionLogFamily {
    DevFixture,
    Timeline(ChoreographyTriggerSource),
    SystemRecovery,
}

impl ActionLogFamily {
    pub open spec fn spec_reason_prefix(self) -> Seq<char> {
        match self {
            ActionLogFamily::DevFixture => "devFixture"@,
            ActionLogFamily::Timeline(_) => "timeline"@,
            ActionLogFamily::SystemRecovery => "systemRecovery"@,
        }
    }

    /// The prefix of the family's reason codes.
    pub fn reason_prefix(self) -> (r: &'static str)
        ensures
            r@ == self.spec_reason_prefix(),
    {
        match self {
            ActionLogFamily::DevFixture => "devFixture",
            ActionLogFamily::Timeline(_) => "timeline",
            ActionLogFamily::SystemRecovery => "systemRecovery",
        }
    }

    pub open spec fn spec_trigger_source(self) -> Seq<char> {
        match self {
            ActionLogFamily::DevFixture => "devFixture"@,
            ActionLogFamily::Timeline(t) => t.spec_action_log_value(),
            ActionLogFamily::SystemRecovery => "systemRecovery"@,
        }
    }

    /// The trigger source the family's events name.
    pub fn trigger_source(self) -> (r: &'static str)
        ensures
            r@ == self.spec_trigger_source(),
    {
        match self {
            ActionLogFamily::DevFixture => "devFixture",
            ActionLogFamily::Timeline(t) => t.action_log_value(),
            ActionLogFamily::SystemRecovery => "systemRecovery",
        }
    }
}

/// An event with these fields, at the current schema version.
pub open spec fn spec_log_event(
    event_id: Seq<char>,
    plan_id: Seq<char>,
    step_id: Option<Seq<char>>,
    event_type: Seq<char>,
    status: Seq<char>,
    reason_code: Seq<char>,
    source_ref: JsonView,
    trigger_source: Seq<char>,
    payload: JsonView,
    created_at: Seq<char>,
) -> ActionLogEventView {
    ActionLogEventView {
        event_id,
        schema_version: 1,
        event_type,
        status,
        reason_code,
        plan_id,
        step_id,
        source_ref,
        trigger_source,
        payload,
        created_at,
    }
}

/// The event of a family about the step `ids` name: `kind` is the event's kind (`resolved`,
/// `completed`, `failed`, `skipped`), its reason code the family's prefix and `reason`.
pub open spec fn spec_step_event(
    family: ActionLogFamily,
    event_id: Seq<char>,
    plan_id: Seq<char>,
    step_id: Option<Seq<char>>,
    kind: Seq<char>,
    reason: Seq<char>,
    source_ref: JsonView,
    payload: JsonView,
    created_at: Seq<char>,
) -> ActionLogEventView {
    spec_log_event(
        event_id,
        plan_id,
        step_id,
        "step"@ + "."@ + kind,
        kind,
        family.spec_reason_prefix() + "."@ + reason,
        source_ref,
        family.spec_trigger_source(),
        payload,
        created_at,
    )
}

/// The event of a family about a whole plan.
pub open spec fn spec_plan_event(
    family: ActionLogFamily,
    event_id: Seq<char>,
    plan_id: Seq<char>,
    kind: Seq<char>,
    reason: Seq<char>,
    source_ref: JsonView,
    payload: JsonView,
    created_at: Seq<char>,
) -> ActionLogEventView {
    spec_log_event(
        event_id,
        plan_id,
        None,
        "plan"@ + "."@ + kind,
        kind,
        family.spec_reason_prefix() + "."@ + reason,
        source_ref,
        family.spec_trigger_source(),
        payload,
        created_at,
    )
}

/// Builds an event of a family: `<scope>.<kind>` with status `kind`, and the reason code the
/// family's prefix and `reason`.
pub fn family_event(
    family: ActionLogFamily,
    event_id: &str,
    plan_id: &str,
    step_id: Option<&str>,
    scope: &str,
    kind: &str,
    reason: &str,
    source_ref: &JsonValue,
    payload: JsonValue,
    created_at: &str,
) -> (r: ActionLogEvent)
    ensures
        r@ == spec_log_event(
            event_id@,
            plan_id@,
            opt_str_view(step_id),
            scope@ + "."@ + kind@,
            kind@,
            family.spec_reason_prefix() + "."@ + reason@,
            source_ref@,
            family.spec_trigger_source(),
            payload@,
            created_at@,
        ),
{
    let event_type = crate::text::concat3(scope, ".", kind);
    let reason_code = crate::text::concat3(family.reason_prefix(), ".", reason);
    ActionLogEvent {
        event_id: event_id.to_owned(),
        schema_version: ACTION_LOG_SCHEMA_VERSION,
        event_type,
        status: kind.to_owned(),
        reason_code,
        plan_id: plan_id.to_owned(),
        step_id: match step_id {
            Some(s) => Some(s.to_owned()),
            None => None,
        },
        source_ref: source_ref.duplicate(),
        trigger_source: family.trigger_source().to_owned(),
        payload,
        created_at: created_at.to_owned(),
    }
}

// ---------------------------------------------------------------------------
// Values as the action log writes them.
// ---------------------------------------------------------------------------

pub open spec fn spec_move_edge_name(e: MoveEdge) -> Seq<char> {
    match e {
        MoveEdge::Left => "left"@,
        MoveEdge::Top => "top"@,
        MoveEdge::Right => "right"@,
        MoveEdge::Bottom => "bottom"@,
    }
}

fn move_edge_name(e: MoveEdge) -> (r: &'static str)
    ensures
        r@ == spec_move_edge_name(e),
{
    match e {
        MoveEdge::Left => "left",
        MoveEdge::Top => "top",
        MoveEdge::Right => "right",
        MoveEdge::Bottom => "bottom",
    }
}

pub open spec fn spec_window_anchor_edge_name(e: WindowAnchorEdge) -> Seq<char> {
    match e {
        WindowAnchorEdge::Auto => "auto"@,
        WindowAnchorEdge::Left => "left"@,
        WindowAnchorEdge::Top => "top"@,
        WindowAnchorEdge::Right => "right"@,
        WindowAnchorEdge::Bottom => "bottom"@,
    }
}

fn window_anchor_edge_name(e: WindowAnchorEdge) -> (r: &'static str)
    ensures
        r@ == spec_window_anchor_edge_name(e),
{
    match e {
        WindowAnchorEdge::Auto => "auto",
        WindowAnchorEdge::Left => "left",
        WindowAnchorEdge::Top => "top",
        WindowAnchorEdge::Right => "right",
        WindowAnchorEdge::Bottom => "bottom",
    }
}

/// A move target as the log writes it: its kind, then its fields.
pub open spec fn spec_move_target_json(t: MoveTarget) -> JsonView {
    JsonView::Object(
        match t {
            MoveTarget::Center => seq![("kind"@, JsonView::Str("center"@))],
            MoveTarget::Home => seq![("kind"@, JsonView::Str("home"@))],
            MoveTarget::Edge { edge } => seq![
                ("kind"@, JsonView::Str("edge"@)),
                ("edge"@, JsonView::Str(spec_move_edge_name(edge))),
            ],
            MoveTarget::EdgeAnchor { edge, reveal, duration_ms } => seq![
                ("kind"@, JsonView::Str("edgeAnchor"@)),
                ("edge"@, JsonView::Str(spec_move_edge_name(edge))),
                ("reveal"@, JsonView::Str("head"@)),
                ("durationMs"@, JsonView::Number(Some(duration_ms as i128))),
            ],
            MoveTarget::Position { x, y } => seq![
                ("kind"@, JsonView::Str("position"@)),
                ("x"@, JsonView::Number(Some(x as i128))),
                ("y"@, JsonView::Number(Some(y as i128))),
            ],
            MoveTarget::X { x } => seq![("kind"@, JsonView::Str("x"@)), ("x"@, JsonView::Number(Some(x as i128)))],
            MoveTarget::WindowAnchor { selector, edge, reveal, duration_ms } => seq![
                ("kind"@, JsonView::Str("windowAnchor"@)),
                ("selector"@, JsonView::Object(seq![("kind"@, JsonView::Str("activeWindow"@))])),
                ("edge"@, JsonView::Str(spec_window_anchor_edge_name(edge))),
                ("reveal"@, JsonView::Str("head"@)),
                ("durationMs"@, JsonView::Number(Some(duration_ms as i128))),
            ],
        },
    )
}

/// Writes a move target as the log writes it.
pub fn move_target_json(t: &MoveTarget) -> (r: JsonValue)
    ensures
        r@ == spec_move_target_json(*t),
{
    let mut m: Vec<(String, JsonValue)> = Vec::new();
    assert(members_view(m@) =~= Seq::<(Seq<char>, JsonView)>::empty());
    match t {
        MoveTarget::Center => {
            push_member(&mut m, "kind", json_str("center"));
        },
        MoveTarget::Home => {
            push_member(&mut m, "kind", json_str("home"));
        },
        MoveTarget::Edge { edge } => {
            push_member(&mut m, "kind", json_str("edge"));
            push_member(&mut m, "edge", json_str(move_edge_name(*edge)));
        },
        MoveTarget::EdgeAnchor { edge, reveal, duration_ms } => {
            push_member(&mut m, "kind", json_str("edgeAnchor"));
            push_member(&mut m, "edge", json_str(move_edge_name(*edge)));
            push_member(&mut m, "reveal", json_str("head"));
            push_member(&mut m, "durationMs", json_u64(*duration_ms));
        },
        MoveTarget::Position { x, y } => {
            push_member(&mut m, "kind", json_str("position"));
            push_member(&mut m, "x", json_i32(*x));
            push_member(&mut m, "y", json_i32(*y));
        },
        MoveTarget::X { x } => {
            push_member(&mut m, "kind", json_str("x"));
            push_member(&mut m, "x", json_i32(*x));
        },
        MoveTarget::WindowAnchor { selector, edge, reveal, duration_ms } => {
            let mut s: Vec<(String, JsonValue)> = Vec::new();
            assert(members_view(s@) =~= Seq::<(Seq<char>, JsonView)>::empty());
            push_member(&mut s, "kind", json_str("activeWindow"));
            assert(members_view(s@) =~= seq![("kind"@, JsonView::Str("activeWindow"@))]);
            push_member(&mut m, "kind", json_str("windowAnchor"));
            push_member(&mut m, "selector", crate::json::json_object(s));
            push_member(&mut m, "edge", json_str(window_anchor_edge_name(*edge)));
            push_member(&mut m, "reveal", json_str("head"));
            push_member(&mut m, "durationMs", json_u64(*duration_ms));
        },
    }
    assert(members_view(m@) =~= spec_move_target_json(*t)->Object_0);
    crate::json::json_object(m)
}

/// A path as the log writes it: its targets, in order.
pub open spec fn spec_path_json(path: Seq<MoveTarget>) -> JsonView {
    JsonView::Array(path.map_values(|t: MoveTarget| spec_move_target_json(t)))
}

/// Writes a path as the log writes it.
pub fn path_json(path: &Vec<MoveTarget>) -> (r: JsonValue)
    ensures
        r@ == spec_path_json(path@),
{
    let mut items: Vec<JsonValue> = Vec::new();
    let mut i: usize = 0;
    while i < path.len()
        invariant
            i <= path@.len(),
            items@.len() == i,
            forall|k: int| 0 <= k < i ==> #[trigger] json_view(items@[k]) == spec_move_target_json(path@[k]),
        decreases path@.len() - i,
    {
        items.push(move_target_json(&path[i]));
        i = i + 1;
    }
    let r = JsonValue::Array(items);
    proof {
        let a = json_view(r)->Array_0;
        let b = path@.map_values(|t: MoveTarget| spec_move_target_json(t));
        assert(a.len() == b.len());
        assert forall|k: int| 0 <= k < a.len() implies a[k] == b[k] by {
            assert(json_view(items@[k]) == spec_move_target_json(path@[k]));
        }
        assert(a =~= b);
    }
    r
}

pub open spec fn spec_mood_name(m: AffectiveMood) -> Seq<char> {
    match m {
        AffectiveMood::Neutral => "neutral"@,
        AffectiveMood::Happy => "happy"@,
        AffectiveMood::Sad => "sad"@,
    }
}

pub open spec fn spec_energy_name(e: AffectiveEnergy) -> Seq<char> {
    match e {
        AffectiveEnergy::Low => "low"@,
        AffectiveEnergy::Medium => "medium"@,
        AffectiveEnergy::High => "high"@,
    }
}

/// The context a step was resolved in, as the log writes it.
pub open spec fn spec_resolve_context_json(c: ResolveContext) -> JsonView {
    JsonView::Object(
        seq![
            (
                "affective"@,
                JsonView::Object(
                    seq![
                        ("mood"@, JsonView::Str(spec_mood_name(c.affective.mood))),
                        ("energy"@, JsonView::Str(spec_energy_name(c.affective.energy))),
                    ],
                ),
            ),
        ],
    )
}

/// Writes a resolve context as the log writes it.
pub fn resolve_context_json(c: &ResolveContext) -> (r: JsonValue)
    ensures
        r@ == spec_resolve_context_json(*c),
{
    let mood = match c.affective.mood {
        AffectiveMood::Neutral => "neutral",
        AffectiveMood::Happy => "happy",
        AffectiveMood::Sad => "sad",
    };
    let energy = match c.affective.energy {
        AffectiveEnergy::Low => "low",
        AffectiveEnergy::Medium => "medium",
        AffectiveEnergy::High => "high",
    };
    let mut a: Vec<(String, JsonValue)> = Vec::new();
    assert(members_view(a@) =~= Seq::<(Seq<char>, JsonView)>::empty());
    push_member(&mut a, "mood", json_str(mood));
    push_member(&mut a, "energy", json_str(energy));
    assert(members_view(a@) =~= spec_resolve_context_json(*c)->Object_0[0].1->Object_0);
    let mut m: Vec<(String, JsonValue)> = Vec::new();
    assert(members_view(m@) =~= Seq::<(Seq<char>, JsonView)>::empty());
    push_member(&mut m, "affective", crate::json::json_object(a));
    assert(members_view(m@) =~= spec_resolve_context_json(*c)->Object_0);
    crate::json::json_object(m)
}

pub open spec fn spec_failure_policy_name(p: TimelineFailurePolicy) -> Seq<char> {
    match p {
        TimelineFailurePolicy::Abort => "abort"@,
        TimelineFailurePolicy::Continue => "continue"@,
    }
}

fn failure_policy_json(p: TimelineFailurePolicy) -> (r: JsonValue)
    ensures
        r@ == JsonView::Str(spec_failure_policy_name(p)),
{
    match p {
        TimelineFailurePolicy::Abort => json_str("abort"),
        TimelineFailurePolicy::Continue => json_str("continue"),
    }
}

/// Why a step resolved to another action, as the log writes it; an unsupported capability is
/// written only when there is one.
pub open spec fn spec_fallback_json(f: FallbackView) -> JsonView {
    let head = seq![
        ("requestedActionId"@, JsonView::Str(f.requested_action_id)),
        ("fallbackActionId"@, JsonView::Str(f.fallback_action_id)),
        ("reasonCode"@, JsonView::Str(f.reason_code)),
    ];
    JsonView::Object(
        match f.unsupported_capability {
            Some(c) => head.push(("unsupportedCapability"@, JsonView::Str(c))),
            None => head,
        },
    )
}

/// Writes a step fallback as the log writes it.
pub fn fallback_json(f: &StepResolutionFallback) -> (r: JsonValue)
    ensures
        r@ == spec_fallback_json(f@),
{
    let mut m: Vec<(String, JsonValue)> = Vec::new();
    assert(members_view(m@) =~= Seq::<(Seq<char>, JsonView)>::empty());
    push_member(&mut m, "requestedActionId", json_str(f.requested_action_id.as_str()));
    push_member(&mut m, "fallbackActionId", json_str(f.fallback_action_id.as_str()));
    push_member(&mut m, "reasonCode", json_str(f.reason_code.as_str()));
    if let Some(c) = &f.unsupported_capability {
        push_member(&mut m, "unsupportedCapability", json_str(c.as_str()));
    }
    assert(members_view(m@) =~= spec_fallback_json(f@)->Object_0);
    crate::json::json_object(m)
}

pub type Members = Seq<(Seq<char>, JsonView)>;

/// `payload[key] = value`: the member named `key` holds `value`, once.
pub open spec fn spec_set(m: Members, key: Seq<char>, value: JsonView) -> Members {
    spec_without_key(m, key).push((key, value))
}

/// The members a step fallback adds to a payload: that the result is a fallback, its reason,
/// and the fallback itself.
pub open spec fn spec_apply_fallback(m: Members, f: FallbackView) -> Members {
    spec_set(
        spec_set(spec_set(m, "resultKind"@, JsonView::Str("fallback"@)), "detailReasonCode"@, JsonView::Str(f.reason_code)),
        "fallback"@,
        spec_fallback_json(f),
    )
}

fn apply_fallback_payload(m: &mut Vec<(String, JsonValue)>, f: &StepResolutionFallback)
    ensures
        members_view(final(m)@) == spec_apply_fallback(members_view(old(m)@), f@),
{
    set_member(m, "resultKind", json_str("fallback"));
    set_member(m, "detailReasonCode", json_str(f.reason_code.as_str()));
    set_member(m, "fallback", fallback_json(f));
}

/// A payload with a resolution's fallback, when it has one.
pub open spec fn spec_apply_resolution_fallback(m: Members, r: ResolutionView) -> Members {
    match r.fallback {
        Some(f) => spec_apply_fallback(m, f),
        None => m,
    }
}

fn apply_resolution_fallback_payload(m: &mut Vec<(String, JsonValue)>, resolution: &StepResolution)
    ensures
        members_view(final(m)@) == spec_apply_resolution_fallback(members_view(old(m)@), resolution@),
{
    if let Some(f) = &resolution.fallback {
        apply_fallback_payload(m, f);
    }
}

/// The members an after action adds to a payload: the after action asked for, and what it
/// resolved to, with its fallback.
pub open spec fn spec_apply_after_action(m: Members, after_action_id: Option<Seq<char>>, after: Option<AfterActionView>) -> Members {
    let m1 = match after_action_id {
        Some(a) => spec_set(m, "afterActionId"@, JsonView::Str(a)),
        None => m,
    };
    match after {
        None => m1,
        Some(r) => {
            let m2 = spec_set(
                spec_set(m1, "afterResolvedActionId"@, JsonView::Str(r.action_id)),
                "afterAnimationRef"@,
                JsonView::Str(r.animation_ref),
            );
            match r.fallback {
                Some(f) => spec_apply_fallback(m2, f),
                None => m2,
            }
        },
    }
}

pub open spec fn opt_after_view(a: Option<&AfterActionResolution>) -> Option<AfterActionView> {
    match a {
        Some(x) => Some(x@),
        None => None,
    }
}

fn apply_after_action_payload(
    m: &mut Vec<(String, JsonValue)>,
    after_action_id: Option<&str>,
    after: Option<&AfterActionResolution>,
)
    ensures
        members_view(final(m)@) == spec_apply_after_action(
            members_view(old(m)@),
            opt_str_view(after_action_id),
            opt_after_view(after),
        ),
{
    if let Some(a) = after_action_id {
        set_member(m, "afterActionId", json_str(a));
    }
    if let Some(r) = after {
        set_member(m, "afterResolvedActionId", json_str(r.action_id.as_str()));
        set_member(m, "afterAnimationRef", json_str(r.animation_ref.as_str()));
        if let Some(f) = &r.fallback {
            apply_fallback_payload(m, f);
        }
    }
}

fn new_members() -> (r: Vec<(String, JsonValue)>)
    ensures
        members_view(r@) == Seq::<(Seq<char>, JsonView)>::empty(),
{
    let r: Vec<(String, JsonValue)> = Vec::new();
    assert(members_view(r@) =~= Seq::<(Seq<char>, JsonView)>::empty());
    r
}

pub open spec fn jstr(s: Seq<char>) -> JsonView {
    JsonView::Str(s)
}

pub open spec fn jnum(n: int) -> JsonView {
    JsonView::Number(Some(n as i128))
}

// ---------------------------------------------------------------------------
// Step payloads.
// ---------------------------------------------------------------------------

/// What the log records of a resolved play action: the action, its animation and playback,
/// and the context it was resolved in, with the fallback when there was one.
pub open spec fn spec_play_action_resolved_payload(r: ResolutionView, c: ResolveContext) -> JsonView {
    JsonView::Object(
        spec_apply_resolution_fallback(
            seq![
                ("stepKind"@, jstr("playAction"@)),
                ("actionId"@, jstr(r.action_id)),
                ("animationRef"@, jstr(r.animation_ref)),
                ("playbackKind"@, jstr(r.playback_kind)),
                ("durationMs"@, jnum(r.duration_ms as int)),
                ("loop"@, JsonView::Bool(r.loop_animation)),
                ("resolveContext"@, spec_resolve_context_json(c)),
            ],
            r,
        ),
    )
}

pub fn play_action_resolved_payload(resolution: &StepResolution, resolve_context: &ResolveContext) -> (r: JsonValue)
    ensures
        r@ == spec_play_action_resolved_payload(resolution@, *resolve_context),
{
    let mut m = new_members();
    push_member(&mut m, "stepKind", json_str("playAction"));
    push_member(&mut m, "actionId", json_str(resolution.action_id.as_str()));
    push_member(&mut m, "animationRef", json_str(resolution.animation_ref.as_str()));
    push_member(&mut m, "playbackKind", json_str(resolution.playback_kind.as_str()));
    push_member(&mut m, "durationMs", json_u64(resolution.duration_ms));
    push_member(&mut m, "loop", JsonValue::Bool(resolution.loop_animation));
    push_member(&mut m, "resolveContext", resolve_context_json(resolve_context));
    assert(members_view(m@) =~= seq![
        ("stepKind"@, jstr("playAction"@)),
        ("actionId"@, jstr(resolution@.action_id)),
        ("animationRef"@, jstr(resolution@.animation_ref)),
        ("playbackKind"@, jstr(resolution@.playback_kind)),
        ("durationMs"@, jnum(resolution@.duration_ms as int)),
        ("loop"@, JsonView::Bool(resolution@.loop_animation)),
        ("resolveContext"@, spec_resolve_context_json(*resolve_context)),
    ]);
    apply_resolution_fallback_payload(&mut m, resolution);
    crate::json::json_object(m)
}

/// What the log records of a completed play action: the action, its animation and how long
/// it ran, with the fallback when there was one.
pub open spec fn spec_play_action_completed_payload(r: ResolutionView, elapsed_ms: u64) -> JsonView {
    JsonView::Object(
        spec_apply_resolution_fallback(
            seq![
                ("stepKind"@, jstr("playAction"@)),
                ("actionId"@, jstr(r.action_id)),
                ("animationRef"@, jstr(r.animation_ref)),
                ("elapsedMs"@, jnum(elapsed_ms as int)),
            ],
            r,
        ),
    )
}

pub fn play_action_completed_payload(resolution: &StepResolution, elapsed_ms: u64) -> (r: JsonValue)
    ensures
        r@ == spec_play_action_completed_payload(resolution@, elapsed_ms),
{
    let mut m = new_members();
    push_member(&mut m, "stepKind", json_str("playAction"));
    push_member(&mut m, "actionId", json_str(resolution.action_id.as_str()));
    push_member(&mut m, "animationRef", json_str(resolution.animation_ref.as_str()));
    push_member(&mut m, "elapsedMs", json_u64(elapsed_ms));
    assert(members_view(m@) =~= seq![
        ("stepKind"@, jstr("playAction"@)),
        ("actionId"@, jstr(resolution@.action_id)),
        ("animationRef"@, jstr(resolution@.animation_ref)),
        ("elapsedMs"@, jnum(elapsed_ms as int)),
    ]);
    apply_resolution_fallback_payload(&mut m, resolution);
    crate::json::json_object(m)
}

/// What the log records of a play action that failed: the action, its animation and the
/// error, with the fallback when there was one.
pub open spec fn spec_play_action_failed_payload(r: ResolutionView, error_message: Seq<char>) -> JsonView {
    JsonView::Object(
        spec_apply_resolution_fallback(
            seq![
                ("stepKind"@, jstr("playAction"@)),
                ("actionId"@, jstr(r.action_id)),
                ("animationRef"@, jstr(r.animation_ref)),
                ("error"@, jstr(error_message)),
            ],
            r,
        ),
    )
}

pub fn play_action_failed_payload(resolution: &StepResolution, error_message: &str) -> (r: JsonValue)
    ensures
        r@ == spec_play_action_failed_payload(resolution@, error_message@),
{
    let mut m = new_members();
    push_member(&mut m, "stepKind", json_str("playAction"));
    push_member(&mut m, "actionId", json_str(resolution.action_id.as_str()));
    push_member(&mut m, "animationRef", json_str(resolution.animation_ref.as_str()));
    push_member(&mut m, "error", json_str(error_message));
    assert(members_view(m@) =~= seq![
        ("stepKind"@, jstr("playAction"@)),
        ("actionId"@, jstr(resolution@.action_id)),
        ("animationRef"@, jstr(resolution@.animation_ref)),
        ("error"@, jstr(error_message@)),
    ]);
    apply_resolution_fallback_payload(&mut m, resolution);
    crate::json::json_object(m)
}

/// What the log records of a resolved move: its target, timeout and context, marked as a
/// fallback for system recovery, then its after action; system recovery also names the after
/// animation.
pub open spec fn spec_move_to_resolved_payload(
    target: MoveTarget,
    timeout_ms: u64,
    after_action_id: Option<Seq<char>>,
    after: Option<AfterActionView>,
    c: ResolveContext,
    recovery: bool,
) -> JsonView {
    let head = seq![
        ("stepKind"@, jstr("moveTo"@)),
        ("target"@, spec_move_target_json(target)),
        ("timeoutMs"@, jnum(timeout_ms as int)),
        ("resolveContext"@, spec_resolve_context_json(c)),
    ];
    let m = spec_apply_after_action(
        if recovery { head.push(("resultKind"@, jstr("fallback"@))) } else { head },
        after_action_id,
        after,
    );
    JsonView::Object(
        match after {
            Some(a) => if recovery { spec_set(m, "animationRef"@, jstr(a.animation_ref)) } else { m },
            None => m,
        },
    )
}

pub fn move_to_resolved_payload(
    target: &MoveTarget,
    timeout_ms: u64,
    after_action_id: Option<&str>,
    after: Option<&AfterActionResolution>,
    resolve_context: &ResolveContext,
    recovery: bool,
) -> (r: JsonValue)
    ensures
        r@ == spec_move_to_resolved_payload(
            *target,
            timeout_ms,
            opt_str_view(after_action_id),
            opt_after_view(after),
            *resolve_context,
            recovery,
        ),
{
    let mut m = new_members();
    push_member(&mut m, "stepKind", json_str("moveTo"));
    push_member(&mut m, "target", move_target_json(target));
    push_member(&mut m, "timeoutMs", json_u64(timeout_ms));
    push_member(&mut m, "resolveContext", resolve_context_json(resolve_context));
    let ghost head = seq![
        ("stepKind"@, jstr("moveTo"@)),
        ("target"@, spec_move_target_json(*target)),
        ("timeoutMs"@, jnum(timeout_ms as int)),
        ("resolveContext"@, spec_resolve_context_json(*resolve_context)),
    ];
    assert(members_view(m@) =~= head);
    if recovery {
        push_member(&mut m, "resultKind", json_str("fallback"));
    }
    apply_after_action_payload(&mut m, after_action_id, after);
    if recovery {
        if let Some(a) = after {
            set_member(&mut m, "animationRef", json_str(a.animation_ref.as_str()));
        }
    }
    crate::json::json_object(m)
}

/// What the log records of a resolved path: the number of its targets, the targets, its
/// timeout and context, then its after action and after animation.
pub open spec fn spec_move_by_path_resolved_payload(
    path: Seq<MoveTarget>,
    timeout_ms: u64,
    after_action_id: Option<Seq<char>>,
    after: Option<AfterActionView>,
    c: ResolveContext,
) -> JsonView {
    let m = spec_apply_after_action(
        seq![
            ("stepKind"@, jstr("moveByPath"@)),
            ("target"@, jstr("path:"@ + crate::text::spec_decimal(path.len()))),
            ("path"@, spec_path_json(path)),
            ("timeoutMs"@, jnum(timeout_ms as int)),
            ("resolveContext"@, spec_resolve_context_json(c)),
        ],
        after_action_id,
        after,
    );
    JsonView::Object(
        match after {
            Some(a) => spec_set(m, "animationRef"@, jstr(a.animation_ref)),
            None => m,
        },
    )
}

/// The text `path:` and the number of targets.
fn path_target_text(path: &Vec<MoveTarget>) -> (r: String)
    ensures
        r@ == "path:"@ + crate::text::spec_decimal(path@.len()),
{
    let n = crate::text::decimal_string(path.len() as u128);
    concat_str("path:", n.as_str())
}

pub fn move_by_path_resolved_payload(
    path: &Vec<MoveTarget>,
    timeout_ms: u64,
    after_action_id: Option<&str>,
    after: Option<&AfterActionResolution>,
    resolve_context: &ResolveContext,
) -> (r: JsonValue)
    ensures
        r@ == spec_move_by_path_resolved_payload(
            path@,
            timeout_ms,
            opt_str_view(after_action_id),
            opt_after_view(after),
            *resolve_context,
        ),
{
    let mut m = new_members();
    let text = path_target_text(path);
    push_member(&mut m, "stepKind", json_str("moveByPath"));
    push_member(&mut m, "target", json_str(text.as_str()));
    push_member(&mut m, "path", path_json(path));
    push_member(&mut m, "timeoutMs", json_u64(timeout_ms));
    push_member(&mut m, "resolveContext", resolve_context_json(resolve_context));
    assert(members_view(m@) =~= seq![
        ("stepKind"@, jstr("moveByPath"@)),
        ("target"@, jstr("path:"@ + crate::text::spec_decimal(path@.len()))),
        ("path"@, spec_path_json(path@)),
        ("timeoutMs"@, jnum(timeout_ms as int)),
        ("resolveContext"@, spec_resolve_context_json(*resolve_context)),
    ]);
    apply_after_action_payload(&mut m, after_action_id, after);
    if let Some(a) = after {
        set_member(&mut m, "animationRef", json_str(a.animation_ref.as_str()));
    }
    crate::json::json_object(m)
}

/// What the log records of a move that completed or failed: its target and timeout, the
/// error when it failed, and for system recovery that it was a fallback.
pub open spec fn spec_move_to_payload(target: MoveTarget, timeout_ms: u64, error_message: Option<Seq<char>>, recovery: bool) -> JsonView {
    let head = seq![
        ("stepKind"@, jstr("moveTo"@)),
        ("target"@, spec_move_target_json(target)),
        ("timeoutMs"@, jnum(timeout_ms as int)),
    ];
    let m = match error_message {
        Some(e) => head.push(("error"@, jstr(e))),
        None => head,
    };
    JsonView::Object(if recovery { m.push(("resultKind"@, jstr("fallback"@))) } else { m })
}

pub fn move_to_payload(target: &MoveTarget, timeout_ms: u64, error_message: Option<&str>, recovery: bool) -> (r: JsonValue)
    ensures
        r@ == spec_move_to_payload(*target, timeout_ms, opt_str_view(error_message), recovery),
{
    let mut m = new_members();
    push_member(&mut m, "stepKind", json_str("moveTo"));
    push_member(&mut m, "target", move_target_json(target));
    push_member(&mut m, "timeoutMs", json_u64(timeout_ms));
    if let Some(e) = error_message {
        push_member(&mut m, "error", json_str(e));
    }
    if recovery {
        push_member(&mut m, "resultKind", json_str("fallback"));
    }
    let ghost head = seq![
        ("stepKind"@, jstr("moveTo"@)),
        ("target"@, spec_move_target_json(*target)),
        ("timeoutMs"@, jnum(timeout_ms as int)),
    ];
    let ghost m1 = match opt_str_view(error_message) {
        Some(e) => head.push(("error"@, jstr(e))),
        None => head,
    };
    assert(members_view(m@) =~= if recovery { m1.push(("resultKind"@, jstr("fallback"@))) } else { m1 });
    crate::json::json_object(m)
}

/// What the log records of a path that completed or failed: the number of its targets, the
/// targets, its timeout, and the error when it failed.
pub open spec fn spec_move_by_path_payload(path: Seq<MoveTarget>, timeout_ms: u64, error_message: Option<Seq<char>>) -> JsonView {
    let head = seq![
        ("stepKind"@, jstr("moveByPath"@)),
        ("target"@, jstr("path:"@ + crate::text::spec_decimal(path.len()))),
        ("path"@, spec_path_json(path)),
        ("timeoutMs"@, jnum(timeout_ms as int)),
    ];
    JsonView::Object(
        match error_message {
            Some(e) => head.push(("error"@, jstr(e))),
            None => head,
        },
    )
}

pub fn move_by_path_payload(path: &Vec<MoveTarget>, timeout_ms: u64, error_message: Option<&str>) -> (r: JsonValue)
    ensures
        r@ == spec_move_by_path_payload(path@, timeout_ms, opt_str_view(error_message)),
{
    let mut m = new_members();
    let text = path_target_text(path);
    push_member(&mut m, "stepKind", json_str("moveByPath"));
    push_member(&mut m, "target", json_str(text.as_str()));
    push_member(&mut m, "path", path_json(path));
    push_member(&mut m, "timeoutMs", json_u64(timeout_ms));
    let ghost head = seq![
        ("stepKind"@, jstr("moveByPath"@)),
        ("target"@, jstr("path:"@ + crate::text::spec_decimal(path@.len()))),
        ("path"@, spec_path_json(path@)),
        ("timeoutMs"@, jnum(timeout_ms as int)),
    ];
    assert(members_view(m@) =~= head);
    if let Some(e) = error_message {
        push_member(&mut m, "error", json_str(e));
    }
    crate::json::json_object(m)
}

/// What the log records of a wait: how long and its timeout, then the context it resolved
/// in, how long it ran, or why it failed.
pub open spec fn spec_wait_payload(duration_ms: u64, timeout_ms: u64, last: (Seq<char>, JsonView)) -> JsonView {
    JsonView::Object(
        seq![
            ("stepKind"@, jstr("wait"@)),
            ("durationMs"@, jnum(duration_ms as int)),
            ("timeoutMs"@, jnum(timeout_ms as int)),
            last,
        ],
    )
}

pub fn wait_payload(duration_ms: u64, timeout_ms: u64, last_key: &str, last_value: JsonValue) -> (r: JsonValue)
    ensures
        r@ == spec_wait_payload(duration_ms, timeout_ms, (last_key@, last_value@)),
{
    let mut m = new_members();
    push_member(&mut m, "stepKind", json_str("wait"));
    push_member(&mut m, "durationMs", json_u64(duration_ms));
    push_member(&mut m, "timeoutMs", json_u64(timeout_ms));
    let ghost v = last_value@;
    push_member(&mut m, last_key, last_value);
    assert(members_view(m@) =~= spec_wait_payload(duration_ms, timeout_ms, (last_key@, v))->Object_0);
    crate::json::json_object(m)
}

/// What the log records of a position step: its kind and snapshot id, then the position it
/// saved, or the error it failed with.
pub open spec fn spec_position_payload(
    step_kind: Seq<char>,
    snapshot_id: Seq<char>,
    position: Option<(i32, i32)>,
    error_message: Option<Seq<char>>,
) -> JsonView {
    let head = seq![("stepKind"@, jstr(step_kind)), ("snapshotId"@, jstr(snapshot_id))];
    let m = match position {
        Some(p) => head.push(
            ("position"@, JsonView::Object(seq![("x"@, jnum(p.0 as int)), ("y"@, jnum(p.1 as int))])),
        ),
        None => head,
    };
    JsonView::Object(
        match error_message {
            Some(e) => m.push(("error"@, jstr(e))),
            None => m,
        },
    )
}

pub fn position_payload(
    step_kind: &str,
    snapshot_id: &str,
    position: Option<(i32, i32)>,
    error_message: Option<&str>,
) -> (r: JsonValue)
    ensures
        r@ == spec_position_payload(step_kind@, snapshot_id@, position, opt_str_view(error_message)),
{
    let mut m = new_members();
    push_member(&mut m, "stepKind", json_str(step_kind));
    push_member(&mut m, "snapshotId", json_str(snapshot_id));
    if let Some((x, y)) = position {
        let mut p = new_members();
        push_member(&mut p, "x", json_i32(x));
        push_member(&mut p, "y", json_i32(y));
        assert(members_view(p@) =~= seq![("x"@, jnum(x as int)), ("y"@, jnum(y as int))]);
        push_member(&mut m, "position", crate::json::json_object(p));
    }
    if let Some(e) = error_message {
        push_member(&mut m, "error", json_str(e));
    }
    assert(members_view(m@) =~= spec_position_payload(step_kind@, snapshot_id@, position, opt_str_view(error_message))->Object_0);
    crate::json::json_object(m)
}

/// What the log records of a resolved position restore: its snapshot, the target it moves
/// to, its timeout and context, then its after action.
pub open spec fn spec_restore_resolved_payload(
    snapshot_id: Seq<char>,
    target: MoveTarget,
    timeout_ms: u64,
    after_action_id: Option<Seq<char>>,
    after: Option<AfterActionView>,
    c: ResolveContext,
) -> JsonView {
    JsonView::Object(
        spec_apply_after_action(
            seq![
                ("stepKind"@, jstr("restorePosition"@)),
                ("snapshotId"@, jstr(snapshot_id)),
                ("target"@, spec_move_target_json(target)),
                ("timeoutMs"@, jnum(timeout_ms as int)),
                ("resolveContext"@, spec_resolve_context_json(c)),
            ],
            after_action_id,
            after,
        ),
    )
}

pub fn restore_resolved_payload(
    snapshot_id: &str,
    target: &MoveTarget,
    timeout_ms: u64,
    after_action_id: Option<&str>,
    after: Option<&AfterActionResolution>,
    resolve_context: &ResolveContext,
) -> (r: JsonValue)
    ensures
        r@ == spec_restore_resolved_payload(
            snapshot_id@,
            *target,
            timeout_ms,
            opt_str_view(after_action_id),
            opt_after_view(after),
            *resolve_context,
        ),
{
    let mut m = new_members();
    push_member(&mut m, "stepKind", json_str("restorePosition"));
    push_member(&mut m, "snapshotId", json_str(snapshot_id));
    push_member(&mut m, "target", move_target_json(target));
    push_member(&mut m, "timeoutMs", json_u64(timeout_ms));
    push_member(&mut m, "resolveContext", resolve_context_json(resolve_context));
    assert(members_view(m@) =~= seq![
        ("stepKind"@, jstr("restorePosition"@)),
        ("snapshotId"@, jstr(snapshot_id@)),
        ("target"@, spec_move_target_json(*target)),
        ("timeoutMs"@, jnum(timeout_ms as int)),
        ("resolveContext"@, spec_resolve_context_json(*resolve_context)),
    ]);
    apply_after_action_payload(&mut m, after_action_id, after);
    crate::json::json_object(m)
}

/// What the log records of a completed position restore: its snapshot, target and timeout.
pub open spec fn spec_restore_completed_payload(snapshot_id: Seq<char>, target: MoveTarget, timeout_ms: u64) -> JsonView {
    JsonView::Object(
        seq![
            ("stepKind"@, jstr("restorePosition"@)),
            ("snapshotId"@, jstr(snapshot_id)),
            ("target"@, spec_move_target_json(target)),
            ("timeoutMs"@, jnum(timeout_ms as int)),
        ],
    )
}

pub fn restore_completed_payload(snapshot_id: &str, target: &MoveTarget, timeout_ms: u64) -> (r: JsonValue)
    ensures
        r@ == spec_restore_completed_payload(snapshot_id@, *target, timeout_ms),
{
    let mut m = new_members();
    push_member(&mut m, "stepKind", json_str("restorePosition"));
    push_member(&mut m, "snapshotId", json_str(snapshot_id));
    push_member(&mut m, "target", move_target_json(target));
    push_member(&mut m, "timeoutMs", json_u64(timeout_ms));
    assert(members_view(m@) =~= spec_restore_completed_payload(snapshot_id@, *target, timeout_ms)->Object_0);
    crate::json::json_object(m)
}

/// What the log records of a skipped step: its kind and why it was skipped.
pub open spec fn spec_skip_payload(reason: TimelineSkipReason) -> JsonView {
    JsonView::Object(seq![("stepKind"@, jstr("skipStep"@)), ("skipReason"@, jstr("branchNotRequired"@))])
}

pub fn skip_payload(reason: TimelineSkipReason) -> (r: JsonValue)
    ensures
        r@ == spec_skip_payload(reason),
{
    let mut m = new_members();
    push_member(&mut m, "stepKind", json_str("skipStep"));
    push_member(&mut m, "skipReason", json_str("branchNotRequired"));
    assert(members_view(m@) =~= spec_skip_payload(reason)->Object_0);
    crate::json::json_object(m)
}

/// The event a family writes about the step `ids` name: `step.<kind>` with status `kind`, and
/// the family's prefix and `reason` as its reason code.
pub fn step_event(
    family: ActionLogFamily,
    ids: &ActionLogEventIds,
    kind: &str,
    reason: &str,
    source_ref: &JsonValue,
    payload: JsonValue,
    created_at: &str,
) -> (r: ActionLogEvent)
    ensures
        r@ == spec_step_event(
            family,
            ids.event_id@,
            ids.plan_id@,
            opt_str_view(ids.step_id),
            kind@,
            reason@,
            source_ref@,
            payload@,
            created_at@,
        ),
{
    family_event(family, ids.event_id, ids.plan_id, ids.step_id, "step", kind, reason, source_ref, payload, created_at)
}

// ---------------------------------------------------------------------------
// Plan events.
// ---------------------------------------------------------------------------

/// The event that a developer fixture started: its source, fixture name and step count.
pub fn plan_started(event_id: &str, plan: &crate::fixture::DevFixturePlan, created_at: &str) -> (r: ActionLogEvent)
    ensures
        r@ == spec_plan_event(
            ActionLogFamily::DevFixture,
            event_id@,
            plan.plan_id@,
            "started"@,
            "started"@,
            plan.source_ref@,
            JsonView::Object(
                seq![
                    ("sourceRef"@, plan.source_ref@),
                    ("fixtureName"@, jstr(crate::fixture::spec_fixture_name(plan.source_ref@))),
                    ("stepCount"@, jnum(plan.steps@.len() as int)),
                ],
            ),
            created_at@,
        ),
{
    let mut m = new_members();
    push_member(&mut m, "sourceRef", plan.source_ref.duplicate());
    push_member(&mut m, "fixtureName", json_str(plan.fixture_name()));
    push_member(&mut m, "stepCount", json_u64(plan.step_count() as u64));
    assert(members_view(m@) =~= seq![
        ("sourceRef"@, plan.source_ref@),
        ("fixtureName"@, jstr(crate::fixture::spec_fixture_name(plan.source_ref@))),
        ("stepCount"@, jnum(plan.steps@.len() as int)),
    ]);
    family_event(
        ActionLogFamily::DevFixture,
        event_id,
        plan.plan_id.as_str(),
        None,
        "plan",
        "started",
        "started",
        &plan.source_ref,
        crate::json::json_object(m),
        created_at,
    )
}

/// The event that a timeline plan started: its source, failure policy and step count.
pub fn timeline_plan_started(
    event_id: &str,
    plan: &crate::timeline::TimelinePlan,
    trigger_source: ChoreographyTriggerSource,
    created_at: &str,
) -> (r: ActionLogEvent)
    ensures
        r@ == spec_plan_event(
            ActionLogFamily::Timeline(trigger_source),
            event_id@,
            plan.plan_id@,
            "started"@,
            "started"@,
            plan.source_ref@,
            JsonView::Object(
                seq![
                    ("sourceRef"@, plan.source_ref@),
                    ("failurePolicy"@, jstr(spec_failure_policy_name(plan.failure_policy))),
                    ("stepCount"@, jnum(plan.steps@.len() as int)),
                ],
            ),
            created_at@,
        ),
{
    let mut m = new_members();
    push_member(&mut m, "sourceRef", plan.source_ref.duplicate());
    push_member(&mut m, "failurePolicy", failure_policy_json(plan.failure_policy));
    push_member(&mut m, "stepCount", json_u64(plan.step_count() as u64));
    assert(members_view(m@) =~= seq![
        ("sourceRef"@, plan.source_ref@),
        ("failurePolicy"@, jstr(spec_failure_policy_name(plan.failure_policy))),
        ("stepCount"@, jnum(plan.steps@.len() as int)),
    ]);
    family_event(
        ActionLogFamily::Timeline(trigger_source),
        event_id,
        plan.plan_id.as_str(),
        None,
        "plan",
        "started",
        "started",
        &plan.source_ref,
        crate::json::json_object(m),
        created_at,
    )
}

/// What the log records when a developer fixture ends: its status, the steps completed and
/// their time, then what the status adds.
pub open spec fn spec_fixture_end_payload(status: Seq<char>, completed_step_count: u64, duration_ms: u64, rest: Members) -> JsonView {
    JsonView::Object(
        seq![
            ("status"@, jstr(status)),
            ("completedStepCount"@, jnum(completed_step_count as int)),
            ("durationMs"@, jnum(duration_ms as int)),
        ] + rest,
    )
}

/// The event that a developer fixture completed.
pub fn plan_completed(
    event_id: &str,
    plan: &crate::fixture::DevFixturePlan,
    completed_step_count: u64,
    duration_ms: u64,
    created_at: &str,
) -> (r: ActionLogEvent)
    ensures
        r@ == spec_plan_event(
            ActionLogFamily::DevFixture,
            event_id@,
            plan.plan_id@,
            "completed"@,
            "completed"@,
            plan.source_ref@,
            spec_fixture_end_payload("completed"@, completed_step_count, duration_ms, Seq::empty()),
            created_at@,
        ),
{
    let mut m = new_members();
    push_member(&mut m, "status", json_str("completed"));
    push_member(&mut m, "completedStepCount", json_u64(completed_step_count));
    push_member(&mut m, "durationMs", json_u64(duration_ms));
    assert(members_view(m@) =~= spec_fixture_end_payload("completed"@, completed_step_count, duration_ms, Seq::empty())->Object_0);
    family_event(
        ActionLogFamily::DevFixture,
        event_id,
        plan.plan_id.as_str(),
        None,
        "plan",
        "completed",
        "completed",
        &plan.source_ref,
        crate::json::json_object(m),
        created_at,
    )
}

/// The event that a developer fixture failed, with the error.
pub fn plan_failed(event_id: &str, plan: &crate::fixture::DevFixturePlan, error_message: &str, created_at: &str) -> (r:
    ActionLogEvent)
    ensures
        r@ == spec_plan_event(
            ActionLogFamily::DevFixture,
            event_id@,
            plan.plan_id@,
            "failed"@,
            "failed"@,
            plan.source_ref@,
            JsonView::Object(seq![("status"@, jstr("failed"@)), ("error"@, jstr(error_message@))]),
            created_at@,
        ),
{
    let mut m = new_members();
    push_member(&mut m, "status", json_str("failed"));
    push_member(&mut m, "error", json_str(error_message));
    assert(members_view(m@) =~= seq![("status"@, jstr("failed"@)), ("error"@, jstr(error_message@))]);
    family_event(
        ActionLogFamily::DevFixture,
        event_id,
        plan.plan_id.as_str(),
        None,
        "plan",
        "failed",
        "failed",
        &plan.source_ref,
        crate::json::json_object(m),
        created_at,
    )
}

/// The event that a developer fixture yielded to a waiting plan after a step.
pub fn plan_interrupted(
    event_id: &str,
    plan: &crate::fixture::DevFixturePlan,
    completed_step_count: u64,
    duration_ms: u64,
    yielded_after_step_id: &str,
    created_at: &str,
) -> (r: ActionLogEvent)
    ensures
        r@ == spec_plan_event(
            ActionLogFamily::DevFixture,
            event_id@,
            plan.plan_id@,
            "interrupted"@,
            "yieldedToPendingPlan"@,
            plan.source_ref@,
            JsonView::Object(
                seq![
                    ("status"@, jstr("interrupted"@)),
                    ("resultKind"@, jstr("interrupted"@)),
                    ("completedStepCount"@, jnum(completed_step_count as int)),
                    ("durationMs"@, jnum(duration_ms as int)),
                    ("yieldedAfterStepId"@, jstr(yielded_after_step_id@)),
                ],
            ),
            created_at@,
        ),
{
    let mut m = new_members();
    push_member(&mut m, "status", json_str("interrupted"));
    push_member(&mut m, "resultKind", json_str("interrupted"));
    push_member(&mut m, "completedStepCount", json_u64(completed_step_count));
    push_member(&mut m, "durationMs", json_u64(duration_ms));
    push_member(&mut m, "yieldedAfterStepId", json_str(yielded_after_step_id));
    assert(members_view(m@) =~= seq![
        ("status"@, jstr("interrupted"@)),
        ("resultKind"@, jstr("interrupted"@)),
        ("completedStepCount"@, jnum(completed_step_count as int)),
        ("durationMs"@, jnum(duration_ms as int)),
        ("yieldedAfterStepId"@, jstr(yielded_after_step_id@)),
    ]);
    family_event(
        ActionLogFamily::DevFixture,
        event_id,
        plan.plan_id.as_str(),
        None,
        "plan",
        "interrupted",
        "yieldedToPendingPlan",
        &plan.source_ref,
        crate::json::json_object(m),
        created_at,
    )
}

/// What the log records when a timeline plan ends: its status (and result kind when it was
/// interrupted), its failure policy, its counts and time, then what the status adds.
pub open spec fn spec_timeline_end_payload(
    status: Seq<char>,
    policy: TimelineFailurePolicy,
    stats: ActionLogTimelinePlanStats,
    rest: Members,
) -> JsonView {
    let head = if status == "interrupted"@ {
        seq![("status"@, jstr(status)), ("resultKind"@, jstr("interrupted"@))]
    } else {
        seq![("status"@, jstr(status))]
    };
    JsonView::Object(
        head + seq![
            ("failurePolicy"@, jstr(spec_failure_policy_name(policy))),
            ("completedStepCount"@, jnum(stats.completed_step_count as int)),
            ("failedStepCount"@, jnum(stats.failed_step_count as int)),
            ("skippedStepCount"@, jnum(stats.skipped_step_count as int)),
            ("durationMs"@, jnum(stats.duration_ms as int)),
        ] + rest,
    )
}

fn timeline_end_payload(
    status: &str,
    policy: TimelineFailurePolicy,
    stats: ActionLogTimelinePlanStats,
    last: Option<(&str, &str)>,
) -> (r: JsonValue)
    ensures
        r@ == spec_timeline_end_payload(
            status@,
            policy,
            stats,
            match last {
                Some((k, v)) => seq![(k@, jstr(v@))],
                None => Seq::empty(),
            },
        ),
{
    let mut m = new_members();
    push_member(&mut m, "status", json_str(status));
    let interrupted = crate::text::str_eq(status, "interrupted");
    if interrupted {
        push_member(&mut m, "resultKind", json_str("interrupted"));
    }
    push_member(&mut m, "failurePolicy", failure_policy_json(policy));
    push_member(&mut m, "completedStepCount", json_u64(stats.completed_step_count));
    push_member(&mut m, "failedStepCount", json_u64(stats.failed_step_count));
    push_member(&mut m, "skippedStepCount", json_u64(stats.skipped_step_count));
    push_member(&mut m, "durationMs", json_u64(stats.duration_ms));
    if let Some((k, v)) = last {
        push_member(&mut m, k, json_str(v));
    }
    assert(members_view(m@) =~= spec_timeline_end_payload(
        status@,
        policy,
        stats,
        match last {
            Some((k, v)) => seq![(k@, jstr(v@))],
            None => Seq::empty(),
        },
    )->Object_0);
    crate::json::json_object(m)
}

/// The event that a timeline plan completed.
pub fn timeline_plan_completed(
    event_id: &str,
    plan: &crate::timeline::TimelinePlan,
    trigger_source: ChoreographyTriggerSource,
    stats: ActionLogTimelinePlanStats,
    created_at: &str,
) -> (r: ActionLogEvent)
    ensures
        r@ == spec_plan_event(
            ActionLogFamily::Timeline(trigger_source),
            event_id@,
            plan.plan_id@,
            "completed"@,
            "completed"@,
            plan.source_ref@,
            spec_timeline_end_payload("completed"@, plan.failure_policy, stats, Seq::empty()),
            created_at@,
        ),
{
    let payload = timeline_end_payload("completed", plan.failure_policy, stats, None);
    family_event(
        ActionLogFamily::Timeline(trigger_source),
        event_id,
        plan.plan_id.as_str(),
        None,
        "plan",
        "completed",
        "completed",
        &plan.source_ref,
        payload,
        created_at,
    )
}

/// The event that a timeline plan failed, with the error.
pub fn timeline_plan_failed(
    event_id: &str,
    plan: &crate::timeline::TimelinePlan,
    trigger_source: ChoreographyTriggerSource,
    stats: ActionLogTimelinePlanStats,
    error_message: &str,
    created_at: &str,
) -> (r: ActionLogEvent)
    ensures
        r@ == spec_plan_event(
            ActionLogFamily::Timeline(trigger_source),
            event_id@,
            plan.plan_id@,
            "failed"@,
            "failed"@,
            plan.source_ref@,
            spec_timeline_end_payload("failed"@, plan.failure_policy, stats, seq![("error"@, jstr(error_message@))]),
            created_at@,
        ),
{
    let payload = timeline_end_payload("failed", plan.failure_policy, stats, Some(("error", error_message)));
    family_event(
        ActionLogFamily::Timeline(trigger_source),
        event_id,
        plan.plan_id.as_str(),
        None,
        "plan",
        "failed",
        "failed",
        &plan.source_ref,
        payload,
        created_at,
    )
}

/// The event that a timeline plan yielded to a waiting plan after a step.
pub fn timeline_plan_interrupted(
    event_id: &str,
    plan: &crate::timeline::TimelinePlan,
    trigger_source: ChoreographyTriggerSource,
    stats: ActionLogTimelinePlanStats,
    yielded_after_step_id: &str,
    created_at: &str,
) -> (r: ActionLogEvent)
    ensures
        r@ == spec_plan_event(
            ActionLogFamily::Timeline(trigger_source),
            event_id@,
            plan.plan_id@,
            "interrupted"@,
            "yieldedToPendingPlan"@,
            plan.source_ref@,
            spec_timeline_end_payload(
                "interrupted"@,
                plan.failure_policy,
                stats,
                seq![("yieldedAfterStepId"@, jstr(yielded_after_step_id@))],
            ),
            created_at@,
        ),
{
    let payload = timeline_end_payload(
        "interrupted",
        plan.failure_policy,
        stats,
        Some(("yieldedAfterStepId", yielded_after_step_id)),
    );
    family_event(
        ActionLogFamily::Timeline(trigger_source),
        event_id,
        plan.plan_id.as_str(),
        None,
        "plan",
        "interrupted",
        "yieldedToPendingPlan",
        &plan.source_ref,
        payload,
        created_at,
    )
}

// ---------------------------------------------------------------------------
// Admission decisions.
// ---------------------------------------------------------------------------

/// The event type, status and reason code of an admission decision.
pub open spec fn spec_executor_admission_event_meta(d: AdmissionDecisionView) -> (Seq<char>, Seq<char>, Seq<char>) {
    match d {
        AdmissionDecisionView::Accepted { .. } => ("executor.accepted"@, "running"@, "executor.accepted"@),
        AdmissionDecisionView::Preempted { reason_code, .. } => ("executor.preempted"@, "running"@, reason_code),
        AdmissionDecisionView::Rejected { reason_code, .. } => ("executor.rejected"@, "rejected"@, reason_code),
        AdmissionDecisionView::Deferred { reason_code, .. } => ("executor.deferred"@, "deferred"@, reason_code),
        AdmissionDecisionView::Skipped { reason_code, .. } => ("executor.skipped"@, "skipped"@, reason_code),
    }
}

/// The event type, status and reason code the log writes for an admission decision.
pub fn executor_admission_event_meta(decision: &ChoreographyAdmissionDecision) -> (r: (&'static str, &'static str, &str))
    ensures
        (r.0@, r.1@, r.2@) == spec_executor_admission_event_meta(decision@),
{
    match decision {
        ChoreographyAdmissionDecision::Accepted { .. } => ("executor.accepted", "running", "executor.accepted"),
        ChoreographyAdmissionDecision::Preempted { reason_code, .. } => ("executor.preempted", "running", reason_code.as_str()),
        ChoreographyAdmissionDecision::Rejected { reason_code, .. } => ("executor.rejected", "rejected", reason_code.as_str()),
        ChoreographyAdmissionDecision::Deferred { reason_code, .. } => ("executor.deferred", "deferred", reason_code.as_str()),
        ChoreographyAdmissionDecision::Skipped { reason_code, .. } => ("executor.skipped", "skipped", reason_code.as_str()),
    }
}

/// The event that records an admission decision about a plan, for the source that asked for
/// it; the decision itself is the payload.
/// The event that records an admission decision about a plan from a source.
pub open spec fn spec_admission_decision_event(
    event_id: Seq<char>,
    plan_id: Seq<char>,
    source_ref: JsonView,
    trigger_source: Seq<char>,
    decision: crate::admission::AdmissionDecisionView,
    created_at: Seq<char>,
) -> ActionLogEventView {
    spec_log_event(
        event_id,
        plan_id,
        None,
        spec_executor_admission_event_meta(decision).0,
        spec_executor_admission_event_meta(decision).1,
        spec_executor_admission_event_meta(decision).2,
        source_ref,
        trigger_source,
        crate::admission::spec_decision_payload(decision),
        created_at,
    )
}

pub fn executor_admission_decision_for_source(
    event_id: &str,
    plan_id: &str,
    source_ref: &JsonValue,
    trigger_source: &str,
    decision: &ChoreographyAdmissionDecision,
    created_at: &str,
) -> (r: ActionLogEvent)
    ensures
        r@ == spec_log_event(
            event_id@,
            plan_id@,
            None,
            spec_executor_admission_event_meta(decision@).0,
            spec_executor_admission_event_meta(decision@).1,
            spec_executor_admission_event_meta(decision@).2,
            source_ref@,
            trigger_source@,
            crate::admission::spec_decision_payload(decision@),
            created_at@,
        ),
{
    let (event_type, status, reason_code) = executor_admission_event_meta(decision);
    ActionLogEvent {
        event_id: event_id.to_owned(),
        schema_version: ACTION_LOG_SCHEMA_VERSION,
        event_type: event_type.to_owned(),
        status: status.to_owned(),
        reason_code: reason_code.to_owned(),
        plan_id: plan_id.to_owned(),
        step_id: None,
        source_ref: source_ref.duplicate(),
        trigger_source: trigger_source.to_owned(),
        payload: decision.action_log_payload(),
        created_at: created_at.to_owned(),
    }
}

// ---------------------------------------------------------------------------
// System recovery.
// ---------------------------------------------------------------------------

/// The plan the runtime runs to bring the pet back to a safe posture after another plan
/// failed.
#[derive(Debug, PartialEq, Eq)]
pub struct RuntimeSafeFallbackPlan {
    pub plan_id: String,
    pub source_ref: JsonValue,
    pub posture: String,
    pub steps: Vec<crate::timeline::TimelineStep>,
    pub created_at: String,
}

/// The event that a system recovery plan started: its source, posture and step count.
pub fn system_recovery_plan_started(event_id: &str, plan: &RuntimeSafeFallbackPlan, created_at: &str) -> (r: ActionLogEvent)
    ensures
        r@ == spec_plan_event(
            ActionLogFamily::SystemRecovery,
            event_id@,
            plan.plan_id@,
            "started"@,
            "started"@,
            plan.source_ref@,
            JsonView::Object(
                seq![
                    ("sourceRef"@, plan.source_ref@),
                    ("posture"@, jstr(plan.posture@)),
                    ("stepCount"@, jnum(plan.steps@.len() as int)),
                    ("resultKind"@, jstr("fallback"@)),
                ],
            ),
            created_at@,
        ),
{
    let mut m = new_members();
    push_member(&mut m, "sourceRef", plan.source_ref.duplicate());
    push_member(&mut m, "posture", json_str(plan.posture.as_str()));
    push_member(&mut m, "stepCount", json_u64(plan.steps.len() as u64));
    push_member(&mut m, "resultKind", json_str("fallback"));
    assert(members_view(m@) =~= seq![
        ("sourceRef"@, plan.source_ref@),
        ("posture"@, jstr(plan.posture@)),
        ("stepCount"@, jnum(plan.steps@.len() as int)),
        ("resultKind"@, jstr("fallback"@)),
    ]);
    family_event(
        ActionLogFamily::SystemRecovery,
        event_id,
        plan.plan_id.as_str(),
        None,
        "plan",
        "started",
        "started",
        &plan.source_ref,
        crate::json::json_object(m),
        created_at,
    )
}

/// The event that a system recovery plan completed: the steps completed and their time.
pub fn system_recovery_plan_completed(
    event_id: &str,
    plan: &RuntimeSafeFallbackPlan,
    completed_step_count: u64,
    duration_ms: u64,
    created_at: &str,
) -> (r: ActionLogEvent)
    ensures
        r@ == spec_plan_event(
            ActionLogFamily::SystemRecovery,
            event_id@,
            plan.plan_id@,
            "completed"@,
            "completed"@,
            plan.source_ref@,
            spec_fixture_end_payload(
                "completed"@,
                completed_step_count,
                duration_ms,
                seq![("resultKind"@, jstr("fallback"@))],
            ),
            created_at@,
        ),
{
    let mut m = new_members();
    push_member(&mut m, "status", json_str("completed"));
    push_member(&mut m, "completedStepCount", json_u64(completed_step_count));
    push_member(&mut m, "durationMs", json_u64(duration_ms));
    push_member(&mut m, "resultKind", json_str("fallback"));
    assert(members_view(m@) =~= spec_fixture_end_payload(
        "completed"@,
        completed_step_count,
        duration_ms,
        seq![("resultKind"@, jstr("fallback"@))],
    )->Object_0);
    family_event(
        ActionLogFamily::SystemRecovery,
        event_id,
        plan.plan_id.as_str(),
        None,
        "plan",
        "completed",
        "completed",
        &plan.source_ref,
        crate::json::json_object(m),
        created_at,
    )
}

/// The event that a system recovery plan failed, with the error.
pub fn system_recovery_plan_failed(event_id: &str, plan: &RuntimeSafeFallbackPlan, error_message: &str, created_at: &str) -> (r:
    ActionLogEvent)
    ensures
        r@ == spec_plan_event(
            ActionLogFamily::SystemRecovery,
            event_id@,
            plan.plan_id@,
            "failed"@,
            "failed"@,
            plan.source_ref@,
            JsonView::Object(
                seq![("status"@, jstr("failed"@)), ("error"@, jstr(error_message@)), ("resultKind"@, jstr("fallback"@))],
            ),
            created_at@,
        ),
{
    let mut m = new_members();
    push_member(&mut m, "status", json_str("failed"));
    push_member(&mut m, "error", json_str(error_message));
    push_member(&mut m, "resultKind", json_str("fallback"));
    assert(members_view(m@) =~= seq![
        ("status"@, jstr("failed"@)),
        ("error"@, jstr(error_message@)),
        ("resultKind"@, jstr("fallback"@)),
    ]);
    family_event(
        ActionLogFamily::SystemRecovery,
        event_id,
        plan.plan_id.as_str(),
        None,
        "plan",
        "failed",
        "failed",
        &plan.source_ref,
        crate::json::json_object(m),
        created_at,
    )
}

/// The string member `key` of a source reference, if it has one.
pub open spec fn spec_source_string(source_ref: JsonView, key: Seq<char>) -> Option<Seq<char>> {
    match source_ref {
        JsonView::Object(m) => match crate::json::spec_member(m, key) {
            Some(JsonView::Str(s)) => Some(s),
            _ => None,
        },
        _ => None,
    }
}

fn source_string<'a>(source_ref: &'a JsonValue, key: &str) -> (r: Option<&'a str>)
    ensures
        opt_str_view(r) == spec_source_string(source_ref@, key@),
{
    match source_ref {
        JsonValue::Object(members) => match crate::json::object_member(members, key) {
            Some(JsonValue::Str(s)) => Some(s.as_str()),
            _ => None,
        },
        _ => None,
    }
}

/// What the log records when the runtime degrades after its recovery failed: the failed
/// recovery plan and the error, then the plan, step and reason that triggered the recovery,
/// as far as the recovery plan's source names them.
pub open spec fn spec_runtime_degraded_payload(plan_id: Seq<char>, source_ref: JsonView, error_message: Seq<char>) -> Members {
    let m0 = seq![("failedRecoveryPlanId"@, jstr(plan_id)), ("error"@, jstr(error_message))];
    let m1 = match spec_source_string(source_ref, "triggeredByPlanId"@) {
        Some(s) => spec_set(m0, "triggeredByPlanId"@, jstr(s)),
        None => m0,
    };
    let m2 = match spec_source_string(source_ref, "triggeredByStepId"@) {
        Some(s) => spec_set(m1, "triggeredByStepId"@, jstr(s)),
        None => m1,
    };
    match spec_source_string(source_ref, "triggerReason"@) {
        Some(s) => spec_set(m2, "triggerReason"@, jstr(s)),
        None => m2,
    }
}

/// The system event that the runtime degraded because its recovery plan failed.
pub fn runtime_degraded_after_system_recovery_failed(
    event_id: &str,
    plan: &RuntimeSafeFallbackPlan,
    error_message: &str,
    created_at: &str,
) -> (r: ActionLogSystemEvent)
    ensures
        r.event_id@ == event_id@,
        r.schema_version == 1,
        r.event_type@ == "runtime.degraded"@,
        r.status@ == "degraded"@,
        r.reason_code@ == "runtime.systemRecoveryFailed"@,
        r.plan_id is None && r.step_id is None,
        r.source_ref@ == JsonView::Object(seq![("kind"@, jstr("runtime"@))]),
        r.trigger_source@ == "systemRecovery"@,
        r.payload@ == JsonView::Object(spec_runtime_degraded_payload(plan.plan_id@, plan.source_ref@, error_message@)),
        r.created_at@ == created_at@,
{
    let mut m = new_members();
    push_member(&mut m, "failedRecoveryPlanId", json_str(plan.plan_id.as_str()));
    push_member(&mut m, "error", json_str(error_message));
    assert(members_view(m@) =~= seq![("failedRecoveryPlanId"@, jstr(plan.plan_id@)), ("error"@, jstr(error_message@))]);
    if let Some(s) = source_string(&plan.source_ref, "triggeredByPlanId") {
        set_member(&mut m, "triggeredByPlanId", json_str(s));
    }
    if let Some(s) = source_string(&plan.source_ref, "triggeredByStepId") {
        set_member(&mut m, "triggeredByStepId", json_str(s));
    }
    if let Some(s) = source_string(&plan.source_ref, "triggerReason") {
        set_member(&mut m, "triggerReason", json_str(s));
    }
    let mut source = new_members();
    push_member(&mut source, "kind", json_str("runtime"));
    assert(members_view(source@) =~= seq![("kind"@, jstr("runtime"@))]);
    ActionLogSystemEvent {
        event_id: event_id.to_owned(),
        schema_version: ACTION_LOG_SCHEMA_VERSION,
        event_type: "runtime.degraded".to_owned(),
        status: "degraded".to_owned(),
        reason_code: "runtime.systemRecoveryFailed".to_owned(),
        plan_id: None,
        step_id: None,
        source_ref: crate::json::json_object(source),
        trigger_source: "systemRecovery".to_owned(),
        payload: crate::json::json_object(m),
        created_at: created_at.to_owned(),
    }
}

/// What the log records when the native pet could not start: the readiness check that failed
/// and the error's text.
pub open spec fn spec_startup_health_failed_payload(error_message: Seq<char>) -> JsonView {
    JsonView::Object(
        seq![
            ("check"@, jstr("nativePet.sidecar.ready"@)),
            (
                "detail"@,
                JsonView::Object(
                    seq![
                        ("message"@, jstr("native pet sidecar startup failed"@)),
                        ("source"@, jstr("startupHealth"@)),
                        (
                            "items"@,
                            JsonView::Array(
                                seq![JsonView::Object(seq![("key"@, jstr("error"@)), ("value"@, jstr(error_message))])],
                            ),
                        ),
                    ],
                ),
            ),
        ],
    )
}

/// The system event that the native pet could not start.
pub fn startup_health_failed(event_id: &str, error_message: &str, created_at: &str) -> (r: ActionLogSystemEvent)
    ensures
        r.event_id@ == event_id@,
        r.schema_version == 1,
        r.event_type@ == "startupHealth.failed"@,
        r.status@ == "failed"@,
        r.reason_code@ == "startupHealth.nativePetUnavailable"@,
        r.plan_id is None && r.step_id is None,
        r.source_ref@ == JsonView::Object(seq![("kind"@, jstr("runtime"@))]),
        r.trigger_source@ == "startupHealth"@,
        r.payload@ == spec_startup_health_failed_payload(error_message@),
        r.created_at@ == created_at@,
{
    let ghost item_view = JsonView::Object(seq![("key"@, jstr("error"@)), ("value"@, jstr(error_message@))]);
    let mut item = new_members();
    push_member(&mut item, "key", json_str("error"));
    push_member(&mut item, "value", json_str(error_message));
    assert(members_view(item@) =~= item_view->Object_0);
    let item = crate::json::json_object(item);
    let mut items: Vec<JsonValue> = Vec::new();
    items.push(item);
    let items = JsonValue::Array(items);
    assert(json_view(items)->Array_0 =~= seq![item_view]);
    let ghost detail_view = seq![
        ("message"@, jstr("native pet sidecar startup failed"@)),
        ("source"@, jstr("startupHealth"@)),
        ("items"@, JsonView::Array(seq![item_view])),
    ];
    let mut detail = new_members();
    push_member(&mut detail, "message", json_str("native pet sidecar startup failed"));
    push_member(&mut detail, "source", json_str("startupHealth"));
    push_member(&mut detail, "items", items);
    assert(members_view(detail@) =~= detail_view);
    let mut payload = new_members();
    push_member(&mut payload, "check", json_str("nativePet.sidecar.ready"));
    push_member(&mut payload, "detail", crate::json::json_object(detail));
    assert(members_view(payload@) =~= spec_startup_health_failed_payload(error_message@)->Object_0);
    let payload = crate::json::json_object(payload);
    let mut source = new_members();
    push_member(&mut source, "kind", json_str("runtime"));
    assert(members_view(source@) =~= seq![("kind"@, jstr("runtime"@))]);
    ActionLogSystemEvent {
        event_id: event_id.to_owned(),
        schema_version: ACTION_LOG_SCHEMA_VERSION,
        event_type: "startupHealth.failed".to_owned(),
        status: "failed".to_owned(),
        reason_code: "startupHealth.nativePetUnavailable".to_owned(),
        plan_id: None,
        step_id: None,
        source_ref: crate::json::json_object(source),
        trigger_source: "startupHealth".to_owned(),
        payload,
        created_at: created_at.to_owned(),
    }
}

/// Starts the native pet with `spawn` and returns what it returned; when it fails, the failure
/// is first recorded as a startup health event with a fresh id at `created_at`. A failed
/// record does not hide the start's own error.
pub fn spawn_sidecar_with_startup_health_diagnostics<T, L: ActionLogSink, F: FnOnce() -> BuddyResult<T>>(
    log: &mut L,
    created_at: &str,
    spawn: F,
) -> (r: BuddyResult<T>)
    requires
        spawn.requires(()),
    ensures
        final(log).keeps_record() == old(log).keeps_record(),
        old(log).keeps_record() ==> crate::action_log::log_kept(old(log).requested_events(), final(log).requested_events()),
        spawn.ensures((), r),
        old(log).keeps_record() ==> final(log).requested_events() == old(log).requested_events(),
        old(log).keeps_record() && r is Ok ==> final(log).requested_system_events() == old(log).requested_system_events(),
        old(log).keeps_record() && r is Err ==> ({
            let before = old(log).requested_system_events();
            let after = final(log).requested_system_events();
            &&& after.len() == before.len() + 1
            &&& after.drop_last() == before
            &&& after.last().event_type == "startupHealth.failed"@
            &&& after.last().status == "failed"@
            &&& after.last().reason_code == "startupHealth.nativePetUnavailable"@
            &&& after.last().trigger_source == "startupHealth"@
            &&& after.last().source_ref == JsonView::Object(seq![("kind"@, jstr("runtime"@))])
            &&& after.last().payload == spec_startup_health_failed_payload(
                crate::error::spec_error_message(r->Err_0@),
            )
            &&& after.last().created_at == created_at@
        }),
{
    let result = spawn();
    match result {
        Ok(executor) => Ok(executor),
        Err(error) => {
            let message = error.message();
            let event_id = crate::ids::prefixed_uuid_v7("evt");
            let event = startup_health_failed(event_id.as_str(), message.as_str(), created_at);
            let _ = log.append_system_event(&event);
            Err(error)
        },
    }
}

} // verus!
