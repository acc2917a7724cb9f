use vstd::prelude::*;

use crate::step_protocol::SidecarInterruptPolicy;
use crate::json::{json_object, members_view, str_member, JsonValue, JsonView};
use crate::text::{opt_string_view, str_eq};

verus! {

/// How urgent a choreography plan is; later variants outrank earlier ones.
#[derive(Debug, Clone, Copy, PartialEq, Eq, PartialOrd, Ord)]
pub enum ChoreographyPlanPriority {
    IdleAutonomous,
    AiChoreography,
    UserRequested,
    SystemRecovery,
    AttentionSystem,
    CriticalInteraction,
}

impl ChoreographyPlanPriority {
    /// The position of the priority in the order, lowest first.
    pub open spec fn spec_rank(self) -> nat {
        match self {
            ChoreographyPlanPriority::IdleAutonomous => 0,
            ChoreographyPlanPriority::AiChoreography => 1,
            ChoreographyPlanPriority::UserRequested => 2,
            ChoreographyPlanPriority::SystemRecovery => 3,
            ChoreographyPlanPriority::AttentionSystem => 4,
            ChoreographyPlanPriority::CriticalInteraction => 5,
        }
    }

    /// The position of the priority in the order, lowest first.
    pub fn rank(self) -> (r: u8)
        ensures
            r == self.spec_rank(),
    {
        match self {
            ChoreographyPlanPriority::IdleAutonomous => 0,
            ChoreographyPlanPriority::AiChoreography => 1,
            ChoreographyPlanPriority::UserRequested => 2,
            ChoreographyPlanPriority::SystemRecovery => 3,
            ChoreographyPlanPriority::AttentionSystem => 4,
            ChoreographyPlanPriority::CriticalInteraction => 5,
        }
    }

    /// The camel-case name used in action-log payloads.
    pub open spec fn spec_log_value(self) -> Seq<char> {
        match self {
            ChoreographyPlanPriority::IdleAutonomous => "idleAutonomous"@,
            ChoreographyPlanPriority::AiChoreography => "aiChoreography"@,
            ChoreographyPlanPriority::UserRequested => "userRequested"@,
            ChoreographyPlanPriority::SystemRecovery => "systemRecovery"@,
            ChoreographyPlanPriority::AttentionSystem => "attentionSystem"@,
            ChoreographyPlanPriority::CriticalInteraction => "criticalInteraction"@,
        }
    }

    /// The camel-case name used in action-log payloads.
    pub fn log_value(self) -> (r: &'static str)
        ensures
            r@ == self.spec_log_value(),
    {
        match self {
            ChoreographyPlanPriority::IdleAutonomous => "idleAutonomous",
            ChoreographyPlanPriority::AiChoreography => "aiChoreography",
            ChoreographyPlanPriority::UserRequested => "userRequested",
            ChoreographyPlanPriority::SystemRecovery => "systemRecovery",
            ChoreographyPlanPriority::AttentionSystem => "attentionSystem",
            ChoreographyPlanPriority::CriticalInteraction => "criticalInteraction",
        }
    }
}

/// Where a request for a choreography plan came from.
#[derive(Debug, Clone, Copy, PartialEq, Eq)]
pub enum ChoreographyTriggerSource {
    IdleAutonomous,
    AiChoreography,
    UserRequested,
    AttentionSystem,
    SystemRecovery,
    CriticalInteraction,
}

impl ChoreographyTriggerSource {
    pub open spec fn spec_priority(self) -> ChoreographyPlanPriority {
        match self {
            ChoreographyTriggerSource::IdleAutonomous => ChoreographyPlanPriority::IdleAutonomous,
            ChoreographyTriggerSource::AiChoreography => ChoreographyPlanPriority::AiChoreography,
            ChoreographyTriggerSource::UserRequested => ChoreographyPlanPriority::UserRequested,
            ChoreographyTriggerSource::AttentionSystem => ChoreographyPlanPriority::AttentionSystem,
            ChoreographyTriggerSource::SystemRecovery => ChoreographyPlanPriority::SystemRecovery,
            ChoreographyTriggerSource::CriticalInteraction => {
                ChoreographyPlanPriority::CriticalInteraction
            },
        }
    }

    /// The priority that a plan from this source is admitted with.
    pub fn priority(self) -> (r: ChoreographyPlanPriority)
        ensures
            r == self.spec_priority(),
    {
        match self {
            ChoreographyTriggerSource::IdleAutonomous => ChoreographyPlanPriority::IdleAutonomous,
            ChoreographyTriggerSource::AiChoreography => ChoreographyPlanPriority::AiChoreography,
            ChoreographyTriggerSource::UserRequested => ChoreographyPlanPriority::UserRequested,
            ChoreographyTriggerSource::AttentionSystem => ChoreographyPlanPriority::AttentionSystem,
            ChoreographyTriggerSource::SystemRecovery => ChoreographyPlanPriority::SystemRecovery,
            ChoreographyTriggerSource::CriticalInteraction => {
                ChoreographyPlanPriority::CriticalInteraction
            },
        }
    }

    pub open spec fn spec_action_log_value(self) -> Seq<char> {
        match self {
            ChoreographyTriggerSource::IdleAutonomous => "idleAutonomous"@,
            ChoreographyTriggerSource::AiChoreography => "aiChoreography"@,
            ChoreographyTriggerSource::UserRequested => "userRequested"@,
            ChoreographyTriggerSource::AttentionSystem => "attentionSystem"@,
            ChoreographyTriggerSource::SystemRecovery => "systemRecovery"@,
            ChoreographyTriggerSource::CriticalInteraction => "criticalInteraction"@,
        }
    }

    /// The camel-case name written to the action log.
    pub fn action_log_value(self) -> (r: &'static str)
        ensures
            r@ == self.spec_action_log_value(),
    {
        match self {
            ChoreographyTriggerSource::IdleAutonomous => "idleAutonomous",
            ChoreographyTriggerSource::AiChoreography => "aiChoreography",
            ChoreographyTriggerSource::UserRequested => "userRequested",
            ChoreographyTriggerSource::AttentionSystem => "attentionSystem",
            ChoreographyTriggerSource::SystemRecovery => "systemRecovery",
            ChoreographyTriggerSource::CriticalInteraction => "criticalInteraction",
        }
    }
}

/// The step a plan is running, and whether it may be cut short.
#[derive(Debug, PartialEq, Eq)]
pub struct ActiveChoreographyStep {
    pub step_id: String,
    pub interrupt_policy: SidecarInterruptPolicy,
}

pub struct ActiveStepView {
    pub step_id: Seq<char>,
    pub interrupt_policy: SidecarInterruptPolicy,
}

impl View for ActiveChoreographyStep {
    type V = ActiveStepView;

    open spec fn view(&self) -> ActiveStepView {
        ActiveStepView { step_id: self.step_id@, interrupt_policy: self.interrupt_policy }
    }
}

impl Clone for ActiveChoreographyStep {
    fn clone(&self) -> (r: Self)
        ensures
            r == *self,
    {
        ActiveChoreographyStep { step_id: self.step_id.clone(), interrupt_policy: self.interrupt_policy }
    }
}

pub open spec fn active_step_view(o: Option<ActiveChoreographyStep>) -> Option<ActiveStepView> {
    match o {
        Some(s) => Some(s@),
        None => None,
    }
}

fn clone_active_step(o: &Option<ActiveChoreographyStep>) -> (r: Option<ActiveChoreographyStep>)
    ensures
        r == *o,
{
    match o {
        Some(s) => Some(s.clone()),
        None => None,
    }
}

/// A request to run a choreography plan.
#[derive(Debug, PartialEq, Eq)]
pub struct ChoreographyAdmissionRequest {
    pub plan_id: String,
    pub trigger_source: ChoreographyTriggerSource,
    pub active_step: Option<ActiveChoreographyStep>,
}

pub struct AdmissionRequestView {
    pub plan_id: Seq<char>,
    pub trigger_source: ChoreographyTriggerSource,
    pub active_step: Option<ActiveStepView>,
}

impl View for ChoreographyAdmissionRequest {
    type V = AdmissionRequestView;

    open spec fn view(&self) -> AdmissionRequestView {
        AdmissionRequestView {
            plan_id: self.plan_id@,
            trigger_source: self.trigger_source,
            active_step: active_step_view(self.active_step),
        }
    }
}

impl Clone for ChoreographyAdmissionRequest {
    fn clone(&self) -> (r: Self)
        ensures
            r == *self,
    {
        ChoreographyAdmissionRequest {
            plan_id: self.plan_id.clone(),
            trigger_source: self.trigger_source,
            active_step: clone_active_step(&self.active_step),
        }
    }
}

impl ChoreographyAdmissionRequest {
    /// A request for `plan_id` from `trigger_source`, with no step running yet.
    pub fn new(plan_id: &str, trigger_source: ChoreographyTriggerSource) -> (r: Self)
        ensures
            r@ == (AdmissionRequestView {
                plan_id: plan_id@,
                trigger_source,
                active_step: None,
            }),
    {
        ChoreographyAdmissionRequest { plan_id: plan_id.to_owned(), trigger_source, active_step: None }
    }

    /// The same request, with the step that the plan starts by running.
    pub fn with_active_step(self, step_id: &str, interrupt_policy: SidecarInterruptPolicy) -> (r:
        Self)
        ensures
            r@ == (AdmissionRequestView {
                active_step: Some(ActiveStepView { step_id: step_id@, interrupt_policy }),
                ..self@
            }),
    {
        let mut s = self;
        s.active_step = Some(
            ActiveChoreographyStep { step_id: step_id.to_owned(), interrupt_policy },
        );
        s
    }

    /// The priority of the request, taken from its trigger source.
    pub fn priority(&self) -> (r: ChoreographyPlanPriority)
        ensures
            r == self.trigger_source.spec_priority(),
    {
        self.trigger_source.priority()
    }
}

/// The plan that holds the executor.
#[derive(Debug, PartialEq, Eq)]
pub struct ActiveChoreographyPlan {
    pub plan_id: String,
    pub priority: ChoreographyPlanPriority,
    pub active_step: Option<ActiveChoreographyStep>,
}

pub struct ActivePlanView {
    pub plan_id: Seq<char>,
    pub priority: ChoreographyPlanPriority,
    pub active_step: Option<ActiveStepView>,
}

impl View for ActiveChoreographyPlan {
    type V = ActivePlanView;

    open spec fn view(&self) -> ActivePlanView {
        ActivePlanView {
            plan_id: self.plan_id@,
            priority: self.priority,
            active_step: active_step_view(self.active_step),
        }
    }
}

impl Clone for ActiveChoreographyPlan {
    fn clone(&self) -> (r: Self)
        ensures
            r == *self,
    {
        ActiveChoreographyPlan {
            plan_id: self.plan_id.clone(),
            priority: self.priority,
            active_step: clone_active_step(&self.active_step),
        }
    }
}

/// A plan that waits for the active plan's step to finish.
#[derive(Debug, PartialEq, Eq)]
pub struct PendingChoreographyPlan {
    pub plan_id: String,
    pub trigger_source: ChoreographyTriggerSource,
    pub priority: ChoreographyPlanPriority,
    pub active_step: Option<ActiveChoreographyStep>,
}

pub struct PendingPlanView {
    pub plan_id: Seq<char>,
    pub trigger_source: ChoreographyTriggerSource,
    pub priority: ChoreographyPlanPriority,
    pub active_step: Option<ActiveStepView>,
}

impl View for PendingChoreographyPlan {
    type V = PendingPlanView;

    open spec fn view(&self) -> PendingPlanView {
        PendingPlanView {
            plan_id: self.plan_id@,
            trigger_source: self.trigger_source,
            priority: self.priority,
            active_step: active_step_view(self.active_step),
        }
    }
}

impl Clone for PendingChoreographyPlan {
    fn clone(&self) -> (r: Self)
        ensures
            r == *self,
    {
        PendingChoreographyPlan {
            plan_id: self.plan_id.clone(),
            trigger_source: self.trigger_source,
            priority: self.priority,
            active_step: clone_active_step(&self.active_step),
        }
    }
}

pub open spec fn spec_pending_from_request(
    request: AdmissionRequestView,
    priority: ChoreographyPlanPriority,
) -> PendingPlanView {
    PendingPlanView {
        plan_id: request.plan_id,
        trigger_source: request.trigger_source,
        priority,
        active_step: request.active_step,
    }
}

impl PendingChoreographyPlan {
    /// The pending form of a request, admitted with `priority`.
    pub fn from_request(request: &ChoreographyAdmissionRequest, priority: ChoreographyPlanPriority) -> (r:
        Self)
        ensures
            r@ == spec_pending_from_request(request@, priority),
    {
        PendingChoreographyPlan {
            plan_id: request.plan_id.clone(),
            trigger_source: request.trigger_source,
            priority,
            active_step: clone_active_step(&request.active_step),
        }
    }
}

/// What `admit` decided about a request.
#[derive(Debug, PartialEq, Eq)]
pub enum ChoreographyAdmissionDecision {
    Accepted {
        plan_id: String,
        trigger_source: ChoreographyTriggerSource,
        priority: ChoreographyPlanPriority,
    },
    Preempted {
        plan_id: String,
        trigger_source: ChoreographyTriggerSource,
        priority: ChoreographyPlanPriority,
        interrupted_plan_id: String,
        interrupted_step_id: Option<String>,
        interrupted_priority: ChoreographyPlanPriority,
        reason_code: String,
    },
    Rejected {
        plan_id: String,
        trigger_source: ChoreographyTriggerSource,
        priority: ChoreographyPlanPriority,
        active_plan_id: String,
        active_priority: ChoreographyPlanPriority,
        reason_code: String,
    },
    Deferred {
        plan_id: String,
        trigger_source: ChoreographyTriggerSource,
        priority: ChoreographyPlanPriority,
        active_plan_id: String,
        active_step_id: Option<String>,
        active_priority: ChoreographyPlanPriority,
        active_step_interrupt_policy: SidecarInterruptPolicy,
        reason_code: String,
    },
    Skipped {
        plan_id: String,
        trigger_source: ChoreographyTriggerSource,
        priority: ChoreographyPlanPriority,
        active_plan_id: String,
        active_priority: ChoreographyPlanPriority,
        reason_code: String,
    },
}

pub enum AdmissionDecisionView {
    Accepted {
        plan_id: Seq<char>,
        trigger_source: ChoreographyTriggerSource,
        priority: ChoreographyPlanPriority,
    },
    Preempted {
        plan_id: Seq<char>,
        trigger_source: ChoreographyTriggerSource,
        priority: ChoreographyPlanPriority,
        interrupted_plan_id: Seq<char>,
        interrupted_step_id: Option<Seq<char>>,
        interrupted_priority: ChoreographyPlanPriority,
        reason_code: Seq<char>,
    },
    Rejected {
        plan_id: Seq<char>,
        trigger_source: ChoreographyTriggerSource,
        priority: ChoreographyPlanPriority,
        active_plan_id: Seq<char>,
        active_priority: ChoreographyPlanPriority,
        reason_code: Seq<char>,
    },
    Deferred {
        plan_id: Seq<char>,
        trigger_source: ChoreographyTriggerSource,
        priority: ChoreographyPlanPriority,
        active_plan_id: Seq<char>,
        active_step_id: Option<Seq<char>>,
        active_priority: ChoreographyPlanPriority,
        active_step_interrupt_policy: SidecarInterruptPolicy,
        reason_code: Seq<char>,
    },
    Skipped {
        plan_id: Seq<char>,
        trigger_source: ChoreographyTriggerSource,
        priority: ChoreographyPlanPriority,
        active_plan_id: Seq<char>,
        active_priority: ChoreographyPlanPriority,
        reason_code: Seq<char>,
    },
}

impl ChoreographyAdmissionDecision {
    /// A copy of the decision with the same content.
    pub fn duplicate(&self) -> (r: Self)
        ensures
            r@ == self@,
    {
        match self {
            ChoreographyAdmissionDecision::Accepted { plan_id, trigger_source, priority } => {
                ChoreographyAdmissionDecision::Accepted {
                    plan_id: plan_id.clone(),
                    trigger_source: *trigger_source,
                    priority: *priority,
                }
            },
            ChoreographyAdmissionDecision::Preempted {
                plan_id,
                trigger_source,
                priority,
                interrupted_plan_id,
                interrupted_step_id,
                interrupted_priority,
                reason_code,
            } => ChoreographyAdmissionDecision::Preempted {
                plan_id: plan_id.clone(),
                trigger_source: *trigger_source,
                priority: *priority,
                interrupted_plan_id: interrupted_plan_id.clone(),
                interrupted_step_id: crate::text::clone_opt_string(interrupted_step_id),
                interrupted_priority: *interrupted_priority,
                reason_code: reason_code.clone(),
            },
            ChoreographyAdmissionDecision::Rejected {
                plan_id,
                trigger_source,
                priority,
                active_plan_id,
                active_priority,
                reason_code,
            } => ChoreographyAdmissionDecision::Rejected {
                plan_id: plan_id.clone(),
                trigger_source: *trigger_source,
                priority: *priority,
                active_plan_id: active_plan_id.clone(),
                active_priority: *active_priority,
                reason_code: reason_code.clone(),
            },
            ChoreographyAdmissionDecision::Deferred {
                plan_id,
                trigger_source,
                priority,
                active_plan_id,
                active_step_id,
                active_priority,
                active_step_interrupt_policy,
                reason_code,
            } => ChoreographyAdmissionDecision::Deferred {
                plan_id: plan_id.clone(),
                trigger_source: *trigger_source,
                priority: *priority,
                active_plan_id: active_plan_id.clone(),
                active_step_id: crate::text::clone_opt_string(active_step_id),
                active_priority: *active_priority,
                active_step_interrupt_policy: *active_step_interrupt_policy,
                reason_code: reason_code.clone(),
            },
            ChoreographyAdmissionDecision::Skipped {
                plan_id,
                trigger_source,
                priority,
                active_plan_id,
                active_priority,
                reason_code,
            } => ChoreographyAdmissionDecision::Skipped {
                plan_id: plan_id.clone(),
                trigger_source: *trigger_source,
                priority: *priority,
                active_plan_id: active_plan_id.clone(),
                active_priority: *active_priority,
                reason_code: reason_code.clone(),
            },
        }
    }
}

impl View for ChoreographyAdmissionDecision {
    type V = AdmissionDecisionView;

    open spec fn view(&self) -> AdmissionDecisionView {
        match self {
            ChoreographyAdmissionDecision::Accepted { plan_id, trigger_source, priority } => {
                AdmissionDecisionView::Accepted {
                    plan_id: plan_id@,
                    trigger_source: *trigger_source,
                    priority: *priority,
                }
            },
            ChoreographyAdmissionDecision::Preempted {
                plan_id,
                trigger_source,
                priority,
                interrupted_plan_id,
                interrupted_step_id,
                interrupted_priority,
                reason_code,
            } => AdmissionDecisionView::Preempted {
                plan_id: plan_id@,
                trigger_source: *trigger_source,
                priority: *priority,
                interrupted_plan_id: interrupted_plan_id@,
                interrupted_step_id: opt_string_view(*interrupted_step_id),
                interrupted_priority: *interrupted_priority,
                reason_code: reason_code@,
            },
            ChoreographyAdmissionDecision::Rejected {
                plan_id,
                trigger_source,
                priority,
                active_plan_id,
                active_priority,
                reason_code,
            } => AdmissionDecisionView::Rejected {
                plan_id: plan_id@,
                trigger_source: *trigger_source,
                priority: *priority,
                active_plan_id: active_plan_id@,
                active_priority: *active_priority,
                reason_code: reason_code@,
            },
            ChoreographyAdmissionDecision::Deferred {
                plan_id,
                trigger_source,
                priority,
                active_plan_id,
                active_step_id,
                active_priority,
                active_step_interrupt_policy,
                reason_code,
            } => AdmissionDecisionView::Deferred {
                plan_id: plan_id@,
                trigger_source: *trigger_source,
                priority: *priority,
                active_plan_id: active_plan_id@,
                active_step_id: opt_string_view(*active_step_id),
                active_priority: *active_priority,
                active_step_interrupt_policy: *active_step_interrupt_policy,
                reason_code: reason_code@,
            },
            ChoreographyAdmissionDecision::Skipped {
                plan_id,
                trigger_source,
                priority,
                active_plan_id,
                active_priority,
                reason_code,
            } => AdmissionDecisionView::Skipped {
                plan_id: plan_id@,
                trigger_source: *trigger_source,
                priority: *priority,
                active_plan_id: active_plan_id@,
                active_priority: *active_priority,
                reason_code: reason_code@,
            },
        }
    }
}

/// What `update_active_step_with_policy` did.
#[derive(Debug, PartialEq, Eq)]
pub enum ChoreographyActiveStepUpdate {
    Updated { plan_id: String, step_id: String },
    Stale { plan_id: String, active_plan_id: String },
    NoActivePlan { plan_id: String },
}

pub enum ActiveStepUpdateView {
    Updated { plan_id: Seq<char>, step_id: Seq<char> },
    Stale { plan_id: Seq<char>, active_plan_id: Seq<char> },
    NoActivePlan { plan_id: Seq<char> },
}

impl View for ChoreographyActiveStepUpdate {
    type V = ActiveStepUpdateView;

    open spec fn view(&self) -> ActiveStepUpdateView {
        match self {
            ChoreographyActiveStepUpdate::Updated { plan_id, step_id } => {
                ActiveStepUpdateView::Updated { plan_id: plan_id@, step_id: step_id@ }
            },
            ChoreographyActiveStepUpdate::Stale { plan_id, active_plan_id } => {
                ActiveStepUpdateView::Stale { plan_id: plan_id@, active_plan_id: active_plan_id@ }
            },
            ChoreographyActiveStepUpdate::NoActivePlan { plan_id } => {
                ActiveStepUpdateView::NoActivePlan { plan_id: plan_id@ }
            },
        }
    }
}

/// What a release of the active plan did.
#[derive(Debug, PartialEq, Eq)]
pub enum ChoreographyAdmissionRelease {
    Released { plan_id: String },
    ReleasedWithPending {
        plan_id: String,
        pending_plan_id: String,
        pending_trigger_source: ChoreographyTriggerSource,
        pending_priority: ChoreographyPlanPriority,
        pending_active_step_id: Option<String>,
        pending_active_step_interrupt_policy: Option<SidecarInterruptPolicy>,
    },
    Stale { plan_id: String, active_plan_id: String },
    NoActivePlan { plan_id: String },
}

pub enum AdmissionReleaseView {
    Released { plan_id: Seq<char> },
    ReleasedWithPending {
        plan_id: Seq<char>,
        pending_plan_id: Seq<char>,
        pending_trigger_source: ChoreographyTriggerSource,
        pending_priority: ChoreographyPlanPriority,
        pending_active_step_id: Option<Seq<char>>,
        pending_active_step_interrupt_policy: Option<SidecarInterruptPolicy>,
    },
    Stale { plan_id: Seq<char>, active_plan_id: Seq<char> },
    NoActivePlan { plan_id: Seq<char> },
}

impl View for ChoreographyAdmissionRelease {
    type V = AdmissionReleaseView;

    open spec fn view(&self) -> AdmissionReleaseView {
        match self {
            ChoreographyAdmissionRelease::Released { plan_id } => {
                AdmissionReleaseView::Released { plan_id: plan_id@ }
            },
            ChoreographyAdmissionRelease::ReleasedWithPending {
                plan_id,
                pending_plan_id,
                pending_trigger_source,
                pending_priority,
                pending_active_step_id,
                pending_active_step_interrupt_policy,
            } => AdmissionReleaseView::ReleasedWithPending {
                plan_id: plan_id@,
                pending_plan_id: pending_plan_id@,
                pending_trigger_source: *pending_trigger_source,
                pending_priority: *pending_priority,
                pending_active_step_id: opt_string_view(*pending_active_step_id),
                pending_active_step_interrupt_policy: *pending_active_step_interrupt_policy,
            },
            ChoreographyAdmissionRelease::Stale { plan_id, active_plan_id } => {
                AdmissionReleaseView::Stale { plan_id: plan_id@, active_plan_id: active_plan_id@ }
            },
            ChoreographyAdmissionRelease::NoActivePlan { plan_id } => {
                AdmissionReleaseView::NoActivePlan { plan_id: plan_id@ }
            },
        }
    }
}

/// The executor's admission state: the plan that holds it, and the plans that wait.
#[derive(Debug)]
pub struct ChoreographyAdmissionState {
    pub active_plan: Option<ActiveChoreographyPlan>,
    pub pending_plans: Vec<PendingChoreographyPlan>,
}

pub struct AdmissionStateView {
    pub active: Option<ActivePlanView>,
    pub pending: Seq<PendingPlanView>,
}

pub open spec fn active_plan_view(o: Option<ActiveChoreographyPlan>) -> Option<ActivePlanView> {
    match o {
        Some(p) => Some(p@),
        None => None,
    }
}

impl View for ChoreographyAdmissionState {
    type V = AdmissionStateView;

    open spec fn view(&self) -> AdmissionStateView {
        AdmissionStateView {
            active: active_plan_view(self.active_plan),
            pending: self.pending_plans@.map_values(|p: PendingChoreographyPlan| p@),
        }
    }
}

/// The plans of `pending` whose id is not `plan_id`, in their order.
pub open spec fn spec_without_plan(pending: Seq<PendingPlanView>, plan_id: Seq<char>) -> Seq<
    PendingPlanView,
>
    decreases pending.len(),
{
    if pending.len() == 0 {
        pending
    } else {
        let rest = spec_without_plan(pending.drop_last(), plan_id);
        if pending.last().plan_id == plan_id {
            rest
        } else {
            rest.push(pending.last())
        }
    }
}

/// The queue after `plan` joins it: an earlier entry with its id leaves, and it goes last.
pub open spec fn spec_queue_pending(pending: Seq<PendingPlanView>, plan: PendingPlanView) -> Seq<
    PendingPlanView,
> {
    spec_without_plan(pending, plan.plan_id).push(plan)
}

/// `index` is where the next pending plan stands: the first plan of the highest priority.
pub open spec fn is_next_pending_index(pending: Seq<PendingPlanView>, index: int) -> bool {
    &&& 0 <= index < pending.len()
    &&& forall|j: int|
        0 <= j < pending.len() ==> (#[trigger] pending[j]).priority.spec_rank()
            <= pending[index].priority.spec_rank()
    &&& forall|j: int|
        0 <= j < index ==> (#[trigger] pending[j]).priority.spec_rank()
            < pending[index].priority.spec_rank()
}

pub open spec fn step_id_of(o: Option<ActiveStepView>) -> Option<Seq<char>> {
    match o {
        Some(s) => Some(s.step_id),
        None => None,
    }
}

pub open spec fn policy_of(o: Option<ActiveStepView>) -> Option<SidecarInterruptPolicy> {
    match o {
        Some(s) => Some(s.interrupt_policy),
        None => None,
    }
}

/// The state and the decision after `admit(request)` on `state`.
pub open spec fn spec_admit(state: AdmissionStateView, request: AdmissionRequestView) -> (
    AdmissionStateView,
    AdmissionDecisionView,
) {
    let priority = request.trigger_source.spec_priority();
    let new_active = ActivePlanView {
        plan_id: request.plan_id,
        priority,
        active_step: request.active_step,
    };
    match state.active {
        None => (
            AdmissionStateView { active: Some(new_active), pending: state.pending },
            AdmissionDecisionView::Accepted {
                plan_id: request.plan_id,
                trigger_source: request.trigger_source,
                priority,
            },
        ),
        Some(active) => if priority.spec_rank() > active.priority.spec_rank() {
            match active.active_step {
                Some(step) if !step.interrupt_policy.spec_accepts_interrupt() => (
                    AdmissionStateView {
                        active: state.active,
                        pending: spec_queue_pending(
                            state.pending,
                            spec_pending_from_request(request, priority),
                        ),
                    },
                    AdmissionDecisionView::Deferred {
                        plan_id: request.plan_id,
                        trigger_source: request.trigger_source,
                        priority,
                        active_plan_id: active.plan_id,
                        active_step_id: Some(step.step_id),
                        active_priority: active.priority,
                        active_step_interrupt_policy: step.interrupt_policy,
                        reason_code: "admission.waitingForActiveStepToFinish"@,
                    },
                ),
                _ => (
                    AdmissionStateView { active: Some(new_active), pending: state.pending },
                    AdmissionDecisionView::Preempted {
                        plan_id: request.plan_id,
                        trigger_source: request.trigger_source,
                        priority,
                        interrupted_plan_id: active.plan_id,
                        interrupted_step_id: step_id_of(active.active_step),
                        interrupted_priority: active.priority,
                        reason_code: "admission.preemptedByHigherPriorityPlan"@,
                    },
                ),
            }
        } else if priority == active.priority {
            (
                state,
                AdmissionDecisionView::Rejected {
                    plan_id: request.plan_id,
                    trigger_source: request.trigger_source,
                    priority,
                    active_plan_id: active.plan_id,
                    active_priority: active.priority,
                    reason_code: "executor.busy"@,
                },
            )
        } else {
            (
                state,
                AdmissionDecisionView::Skipped {
                    plan_id: request.plan_id,
                    trigger_source: request.trigger_source,
                    priority,
                    active_plan_id: active.plan_id,
                    active_priority: active.priority,
                    reason_code: "priority.tooLow"@,
                },
            )
        },
    }
}

/// The index of the next pending plan, when any plan waits.
pub open spec fn spec_next_pending_index(pending: Seq<PendingPlanView>) -> int {
    choose|i: int| is_next_pending_index(pending, i)
}

/// At most one index is where the next pending plan stands.
pub proof fn lemma_next_pending_index_unique(pending: Seq<PendingPlanView>, a: int, b: int)
    requires
        is_next_pending_index(pending, a),
        is_next_pending_index(pending, b),
    ensures
        a == b,
{
    if a < b {
        assert(pending[a].priority.spec_rank() < pending[b].priority.spec_rank());
        assert(pending[a].priority.spec_rank() <= pending[a].priority.spec_rank());
    } else if b < a {
        assert(pending[b].priority.spec_rank() < pending[a].priority.spec_rank());
        assert(pending[b].priority.spec_rank() <= pending[b].priority.spec_rank());
    }
}

/// Every index that is where the next pending plan stands is the chosen one.
pub proof fn lemma_next_pending_index_chosen(pending: Seq<PendingPlanView>, a: int)
    requires
        is_next_pending_index(pending, a),
    ensures
        spec_next_pending_index(pending) == a,
{
    let c = spec_next_pending_index(pending);
    assert(is_next_pending_index(pending, c));
    lemma_next_pending_index_unique(pending, a, c);
}

/// The state and the result after `release_plan_preserving_pending(plan_id)`.
pub open spec fn spec_release_preserving(state: AdmissionStateView, plan_id: Seq<char>) -> (
    AdmissionStateView,
    AdmissionReleaseView,
) {
    match state.active {
        None => (state, AdmissionReleaseView::NoActivePlan { plan_id }),
        Some(active) => if active.plan_id != plan_id {
            (state, AdmissionReleaseView::Stale { plan_id, active_plan_id: active.plan_id })
        } else {
            (
                AdmissionStateView { active: None, pending: state.pending },
                AdmissionReleaseView::Released { plan_id },
            )
        },
    }
}

/// The state and the result after `release_next_pending_plan_if_idle(plan_id)`.
pub open spec fn spec_release_next(state: AdmissionStateView, plan_id: Seq<char>) -> (
    AdmissionStateView,
    AdmissionReleaseView,
) {
    match state.active {
        Some(active) => (
            state,
            AdmissionReleaseView::Stale { plan_id, active_plan_id: active.plan_id },
        ),
        None => if state.pending.len() == 0 {
            (state, AdmissionReleaseView::Released { plan_id })
        } else {
            let i = spec_next_pending_index(state.pending);
            let next = state.pending[i];
            (
                AdmissionStateView { active: None, pending: state.pending.remove(i) },
                AdmissionReleaseView::ReleasedWithPending {
                    plan_id,
                    pending_plan_id: next.plan_id,
                    pending_trigger_source: next.trigger_source,
                    pending_priority: next.priority,
                    pending_active_step_id: step_id_of(next.active_step),
                    pending_active_step_interrupt_policy: policy_of(next.active_step),
                },
            )
        },
    }
}

/// The state and the result after `release_plan(plan_id)`.
pub open spec fn spec_release(state: AdmissionStateView, plan_id: Seq<char>) -> (
    AdmissionStateView,
    AdmissionReleaseView,
) {
    let (s1, r1) = spec_release_preserving(state, plan_id);
    if r1 is Released {
        spec_release_next(s1, plan_id)
    } else {
        (s1, r1)
    }
}

/// The state and the result after `update_active_step_with_policy(plan_id, step_id, policy)`.
pub open spec fn spec_update_active_step(
    state: AdmissionStateView,
    plan_id: Seq<char>,
    step_id: Seq<char>,
    policy: SidecarInterruptPolicy,
) -> (AdmissionStateView, ActiveStepUpdateView) {
    match state.active {
        None => (state, ActiveStepUpdateView::NoActivePlan { plan_id }),
        Some(active) => if active.plan_id != plan_id {
            (state, ActiveStepUpdateView::Stale { plan_id, active_plan_id: active.plan_id })
        } else {
            (
                AdmissionStateView {
                    active: Some(
                        ActivePlanView {
                            active_step: Some(
                                ActiveStepView { step_id, interrupt_policy: policy },
                            ),
                            ..active
                        },
                    ),
                    pending: state.pending,
                },
                ActiveStepUpdateView::Updated { plan_id, step_id },
            )
        },
    }
}

proof fn lemma_without_plan_prefix(pending: Seq<PendingPlanView>, plan_id: Seq<char>, i: int)
    requires
        0 <= i < pending.len(),
    ensures
        spec_without_plan(pending.take(i + 1), plan_id) == (if pending[i].plan_id == plan_id {
            spec_without_plan(pending.take(i), plan_id)
        } else {
            spec_without_plan(pending.take(i), plan_id).push(pending[i])
        }),
{
    assert(pending.take(i + 1).drop_last() =~= pending.take(i));
    assert(pending.take(i + 1).last() == pending[i]);
}

impl ChoreographyAdmissionState {
    /// An idle state: no active plan, nothing pending.
    pub fn new() -> (r: Self)
        ensures
            r@.active is None,
            r@.pending == Seq::<PendingPlanView>::empty(),
    {
        let r = ChoreographyAdmissionState { active_plan: None, pending_plans: Vec::new() };
        assert(r@.pending =~= Seq::<PendingPlanView>::empty());
        r
    }

    /// The index of the first pending plan of the highest priority.
    pub fn next_pending_plan_index(&self) -> (r: Option<usize>)
        ensures
            r is None <==> self@.pending.len() == 0,
            r matches Some(i) ==> is_next_pending_index(self@.pending, i as int)
                && i as int == spec_next_pending_index(self@.pending),
    {
        let mut next: Option<usize> = None;
        let mut i: usize = 0;
        while i < self.pending_plans.len()
            invariant
                0 <= i <= self.pending_plans.len(),
                next is None <==> i == 0,
                next matches Some(k) ==> {
                    &&& k < i
                    &&& forall|j: int|
                        0 <= j < i ==> (#[trigger] self.pending_plans@[j]).priority.spec_rank()
                            <= self.pending_plans@[k as int].priority.spec_rank()
                    &&& forall|j: int|
                        0 <= j < k ==> (#[trigger] self.pending_plans@[j]).priority.spec_rank()
                            < self.pending_plans@[k as int].priority.spec_rank()
                },
            decreases self.pending_plans.len() - i,
        {
            match next {
                None => {
                    next = Some(i);
                },
                Some(k) => {
                    if self.pending_plans[i].priority.rank() > self.pending_plans[k].priority.rank() {
                        next = Some(i);
                    }
                },
            }
            i = i + 1;
        }
        if let Some(k) = next {
            assert(is_next_pending_index(self@.pending, k as int));
            proof {
                lemma_next_pending_index_chosen(self@.pending, k as int);
            }
        }
        next
    }

    /// The id of the plan that holds the executor.
    pub fn active_plan_id(&self) -> (r: Option<&str>)
        ensures
            match self@.active {
                Some(a) => r is Some && r.unwrap()@ == a.plan_id,
                None => r is None,
            },
    {
        match &self.active_plan {
            Some(a) => Some(a.plan_id.as_str()),
            None => None,
        }
    }

    /// The id of the plan that a release would start next.
    pub fn next_pending_plan_id(&self) -> (r: Option<&str>)
        ensures
            self@.pending.len() == 0 ==> r is None,
            self@.pending.len() > 0 ==> r is Some && r.unwrap()@ == self@.pending[spec_next_pending_index(
                self@.pending,
            )].plan_id,
    {
        match self.next_pending_plan_index() {
            Some(i) => Some(self.pending_plans[i].plan_id.as_str()),
            None => None,
        }
    }

    /// Drops every pending plan with this id; true when one was dropped.
    pub fn discard_pending_plan(&mut self, plan_id: &str) -> (r: bool)
        ensures
            final(self)@.active == old(self)@.active,
            final(self)@.pending == spec_without_plan(old(self)@.pending, plan_id@),
            r == (final(self)@.pending.len() != old(self)@.pending.len()),
    {
        let ghost old_pending = self@.pending;
        let mut kept: Vec<PendingChoreographyPlan> = Vec::new();
        let mut i: usize = 0;
        while i < self.pending_plans.len()
            invariant
                0 <= i <= self.pending_plans.len(),
                old_pending == self.pending_plans@.map_values(|p: PendingChoreographyPlan| p@),
                kept@.map_values(|p: PendingChoreographyPlan| p@) == spec_without_plan(
                    old_pending.take(i as int),
                    plan_id@,
                ),
            decreases self.pending_plans.len() - i,
        {
            proof {
                lemma_without_plan_prefix(old_pending, plan_id@, i as int);
            }
            let keep = !str_eq(self.pending_plans[i].plan_id.as_str(), plan_id);
            if keep {
                let p = self.pending_plans[i].clone();
                let ghost before = kept@;
                kept.push(p);
                assert(kept@.map_values(|p: PendingChoreographyPlan| p@) =~= before.map_values(
                    |p: PendingChoreographyPlan| p@,
                ).push(p@));
            }
            i = i + 1;
        }
        assert(old_pending.take(i as int) =~= old_pending);
        let previous_len = self.pending_plans.len();
        self.pending_plans = kept;
        self.pending_plans.len() != previous_len
    }

    /// Puts a plan in the queue; an earlier entry with its id leaves first.
    pub fn queue_pending_plan(&mut self, pending_plan: PendingChoreographyPlan)
        ensures
            final(self)@.active == old(self)@.active,
            final(self)@.pending == spec_queue_pending(old(self)@.pending, pending_plan@),
    {
        self.discard_pending_plan(pending_plan.plan_id.as_str());
        let ghost before = self.pending_plans@;
        self.pending_plans.push(pending_plan);
        assert(self.pending_plans@.map_values(|p: PendingChoreographyPlan| p@) =~= before.map_values(
            |p: PendingChoreographyPlan| p@,
        ).push(pending_plan@));
    }

    /// Decides whether `request` runs now, preempts, waits, or is turned away.
    pub fn admit_request(&mut self, request: ChoreographyAdmissionRequest) -> (r:
        ChoreographyAdmissionDecision)
        ensures
            (final(self)@, r@) == spec_admit(old(self)@, request@),
    {
        let priority = request.priority();
        let current = self.active_plan.take();
        match current {
            None => {
                self.active_plan = Some(
                    ActiveChoreographyPlan {
                        plan_id: request.plan_id.clone(),
                        priority,
                        active_step: clone_active_step(&request.active_step),
                    },
                );
                ChoreographyAdmissionDecision::Accepted {
                    plan_id: request.plan_id,
                    trigger_source: request.trigger_source,
                    priority,
                }
            },
            Some(active) => {
                let rank = priority.rank();
                let active_rank = active.priority.rank();
                if rank > active_rank {
                    let blocking = match &active.active_step {
                        Some(step) => !step.interrupt_policy.accepts_interrupt(),
                        None => false,
                    };
                    if blocking {
                        let (step_id, policy) = match &active.active_step {
                            Some(step) => (step.step_id.clone(), step.interrupt_policy),
                            None => (String::new(), SidecarInterruptPolicy::FinishStep),
                        };
                        let active_plan_id = active.plan_id.clone();
                        let active_priority = active.priority;
                        self.active_plan = Some(active);
                        self.queue_pending_plan(
                            PendingChoreographyPlan::from_request(&request, priority),
                        );
                        return ChoreographyAdmissionDecision::Deferred {
                            plan_id: request.plan_id,
                            trigger_source: request.trigger_source,
                            priority,
                            active_plan_id,
                            active_step_id: Some(step_id),
                            active_priority,
                            active_step_interrupt_policy: policy,
                            reason_code: "admission.waitingForActiveStepToFinish".to_owned(),
                        };
                    }
                    self.active_plan = Some(
                        ActiveChoreographyPlan {
                            plan_id: request.plan_id.clone(),
                            priority,
                            active_step: clone_active_step(&request.active_step),
                        },
                    );
                    let interrupted_step_id = match active.active_step {
                        Some(step) => Some(step.step_id),
                        None => None,
                    };
                    ChoreographyAdmissionDecision::Preempted {
                        plan_id: request.plan_id,
                        trigger_source: request.trigger_source,
                        priority,
                        interrupted_plan_id: active.plan_id,
                        interrupted_step_id,
                        interrupted_priority: active.priority,
                        reason_code: "admission.preemptedByHigherPriorityPlan".to_owned(),
                    }
                } else if rank == active_rank {
                    let active_plan_id = active.plan_id.clone();
                    let active_priority = active.priority;
                    self.active_plan = Some(active);
                    assert(priority == active_priority);
                    ChoreographyAdmissionDecision::Rejected {
                        plan_id: request.plan_id,
                        trigger_source: request.trigger_source,
                        priority,
                        active_plan_id,
                        active_priority,
                        reason_code: "executor.busy".to_owned(),
                    }
                } else {
                    let active_plan_id = active.plan_id.clone();
                    let active_priority = active.priority;
                    self.active_plan = Some(active);
                    ChoreographyAdmissionDecision::Skipped {
                        plan_id: request.plan_id,
                        trigger_source: request.trigger_source,
                        priority,
                        active_plan_id,
                        active_priority,
                        reason_code: "priority.tooLow".to_owned(),
                    }
                }
            },
        }
    }

    /// Records the step that the active plan runs, when `plan_id` is that plan.
    pub fn update_active_step_with_policy(
        &mut self,
        plan_id: &str,
        step_id: &str,
        interrupt_policy: SidecarInterruptPolicy,
    ) -> (r: ChoreographyActiveStepUpdate)
        ensures
            (final(self)@, r@) == spec_update_active_step(
                old(self)@,
                plan_id@,
                step_id@,
                interrupt_policy,
            ),
    {
        let current = self.active_plan.take();
        match current {
            None => ChoreographyActiveStepUpdate::NoActivePlan { plan_id: plan_id.to_owned() },
            Some(active) => {
                if !str_eq(active.plan_id.as_str(), plan_id) {
                    let active_plan_id = active.plan_id.clone();
                    self.active_plan = Some(active);
                    return ChoreographyActiveStepUpdate::Stale {
                        plan_id: plan_id.to_owned(),
                        active_plan_id,
                    };
                }
                let mut active = active;
                active.active_step = Some(
                    ActiveChoreographyStep { step_id: step_id.to_owned(), interrupt_policy },
                );
                self.active_plan = Some(active);
                ChoreographyActiveStepUpdate::Updated {
                    plan_id: plan_id.to_owned(),
                    step_id: step_id.to_owned(),
                }
            },
        }
    }

    /// Records the step that the active plan runs; such a step may be interrupted.
    pub fn update_active_step(&mut self, plan_id: &str, step_id: &str) -> (r:
        ChoreographyActiveStepUpdate)
        ensures
            (final(self)@, r@) == spec_update_active_step(
                old(self)@,
                plan_id@,
                step_id@,
                SidecarInterruptPolicy::Interruptible,
            ),
    {
        self.update_active_step_with_policy(plan_id, step_id, SidecarInterruptPolicy::Interruptible)
    }

    /// Ends the active plan when it is `plan_id`; the queue is left as it is.
    pub fn release_plan_preserving_pending(&mut self, plan_id: &str) -> (r:
        ChoreographyAdmissionRelease)
        ensures
            (final(self)@, r@) == spec_release_preserving(old(self)@, plan_id@),
    {
        let current = self.active_plan.take();
        match current {
            None => ChoreographyAdmissionRelease::NoActivePlan { plan_id: plan_id.to_owned() },
            Some(active) => {
                if !str_eq(active.plan_id.as_str(), plan_id) {
                    let active_plan_id = active.plan_id.clone();
                    self.active_plan = Some(active);
                    return ChoreographyAdmissionRelease::Stale {
                        plan_id: plan_id.to_owned(),
                        active_plan_id,
                    };
                }
                ChoreographyAdmissionRelease::Released { plan_id: plan_id.to_owned() }
            },
        }
    }

    /// When no plan is active, takes the next pending plan out of the queue and reports it.
    pub fn release_next_pending_plan_if_idle(&mut self, released_plan_id: &str) -> (r:
        ChoreographyAdmissionRelease)
        ensures
            (final(self)@, r@) == spec_release_next(old(self)@, released_plan_id@),
    {
        if let Some(active) = &self.active_plan {
            return ChoreographyAdmissionRelease::Stale {
                plan_id: released_plan_id.to_owned(),
                active_plan_id: active.plan_id.clone(),
            };
        }
        match self.pop_next_pending_plan() {
            Some(pending) => {
                let (step_id, policy) = match pending.active_step {
                    Some(step) => (Some(step.step_id), Some(step.interrupt_policy)),
                    None => (None, None),
                };
                ChoreographyAdmissionRelease::ReleasedWithPending {
                    plan_id: released_plan_id.to_owned(),
                    pending_plan_id: pending.plan_id,
                    pending_trigger_source: pending.trigger_source,
                    pending_priority: pending.priority,
                    pending_active_step_id: step_id,
                    pending_active_step_interrupt_policy: policy,
                }
            },
            None => ChoreographyAdmissionRelease::Released { plan_id: released_plan_id.to_owned() },
        }
    }

    /// Ends the active plan when it is `plan_id`, then hands over to the next pending plan.
    pub fn release_plan(&mut self, plan_id: &str) -> (r: ChoreographyAdmissionRelease)
        ensures
            (final(self)@, r@) == spec_release(old(self)@, plan_id@),
    {
        let release = self.release_plan_preserving_pending(plan_id);
        match release {
            ChoreographyAdmissionRelease::Released { .. } => {
                self.release_next_pending_plan_if_idle(plan_id)
            },
            _ => release,
        }
    }

    /// Takes the next pending plan out of the queue.
    pub fn pop_next_pending_plan(&mut self) -> (r: Option<PendingChoreographyPlan>)
        ensures
            final(self)@.active == old(self)@.active,
            old(self)@.pending.len() == 0 ==> r is None && final(self)@.pending == old(self)@.pending,
            old(self)@.pending.len() > 0 ==> {
                let i = spec_next_pending_index(old(self)@.pending);
                &&& r is Some
                &&& r.unwrap()@ == old(self)@.pending[i]
                &&& final(self)@.pending == old(self)@.pending.remove(i)
            },
    {
        match self.next_pending_plan_index() {
            Some(i) => {
                let ghost before = self.pending_plans@;
                let p = self.pending_plans.remove(i);
                assert(self.pending_plans@.map_values(|p: PendingChoreographyPlan| p@) =~= before.map_values(
                    |p: PendingChoreographyPlan| p@,
                ).remove(i as int));
                Some(p)
            },
            None => None,
        }
    }
}


/// No two pending plans share an id.
pub open spec fn pending_ids_unique(pending: Seq<PendingPlanView>) -> bool {
    forall|i: int, j: int|
        0 <= i < j < pending.len() ==> (#[trigger] pending[i]).plan_id != (#[trigger] pending[j]).plan_id
}

/// Dropping the plans with one id keeps only plans of the queue, none with that id, and keeps
/// ids unique; nothing is dropped exactly when no plan has that id.
pub proof fn lemma_without_plan(pending: Seq<PendingPlanView>, plan_id: Seq<char>)
    ensures
        forall|k: int|
            0 <= k < spec_without_plan(pending, plan_id).len() ==> {
                &&& (#[trigger] spec_without_plan(pending, plan_id)[k]).plan_id != plan_id
                &&& pending.contains(spec_without_plan(pending, plan_id)[k])
            },
        spec_without_plan(pending, plan_id).len() <= pending.len(),
        (spec_without_plan(pending, plan_id).len() == pending.len()) <==> (forall|k: int|
            0 <= k < pending.len() ==> (#[trigger] pending[k]).plan_id != plan_id),
        pending_ids_unique(pending) ==> pending_ids_unique(spec_without_plan(pending, plan_id)),
    decreases pending.len(),
{
    if pending.len() > 0 {
        let front = pending.drop_last();
        lemma_without_plan(front, plan_id);
        let rest = spec_without_plan(front, plan_id);
        assert forall|k: int| 0 <= k < rest.len() implies pending.contains(#[trigger] rest[k]) by {
            let m = choose|m: int| 0 <= m < front.len() && front[m] == rest[k];
            assert(pending[m] == rest[k]);
        }
        if (spec_without_plan(pending, plan_id).len() == pending.len()) {
            assert(pending.last().plan_id != plan_id);
            assert forall|k: int| 0 <= k < pending.len() implies (#[trigger] pending[k]).plan_id
                != plan_id by {
                if k < pending.len() - 1 {
                    assert(front[k] == pending[k]);
                }
            }
        }
        if (forall|k: int| 0 <= k < pending.len() ==> (#[trigger] pending[k]).plan_id != plan_id) {
            assert forall|k: int| 0 <= k < front.len() implies (#[trigger] front[k]).plan_id
                != plan_id by {
                assert(pending[k] == front[k]);
            }
            assert(pending[pending.len() - 1].plan_id != plan_id);
        }
        if pending_ids_unique(pending) {
            assert forall|i: int, j: int| 0 <= i < j < front.len() implies (#[trigger] front[i]).plan_id
                != (#[trigger] front[j]).plan_id by {
                assert(pending[i] == front[i] && pending[j] == front[j]);
            }
            let last = pending.last();
            assert forall|k: int| 0 <= k < rest.len() implies (#[trigger] rest[k]).plan_id
                != last.plan_id by {
                let m = choose|m: int| 0 <= m < front.len() && front[m] == rest[k];
                assert(pending[m] == front[m]);
                assert(pending[pending.len() - 1] == last);
            }
            let w = spec_without_plan(pending, plan_id);
            if last.plan_id != plan_id {
                assert(w == rest.push(last));
                assert forall|i: int, j: int| 0 <= i < j < w.len() implies (#[trigger] w[i]).plan_id
                    != (#[trigger] w[j]).plan_id by {
                    if j == w.len() - 1 {
                        assert(w[j] == last);
                        assert(w[i] == rest[i]);
                    } else {
                        assert(w[i] == rest[i] && w[j] == rest[j]);
                    }
                }
            }
        }
    }
}

/// A queue that is not empty has a next pending plan.
pub proof fn lemma_next_pending_index_exists(pending: Seq<PendingPlanView>)
    requires
        pending.len() > 0,
    ensures
        is_next_pending_index(pending, spec_next_pending_index(pending)),
    decreases pending.len(),
{
    if pending.len() == 1 {
        assert(is_next_pending_index(pending, 0));
    } else {
        let front = pending.drop_last();
        lemma_next_pending_index_exists(front);
        let k = spec_next_pending_index(front);
        let n = pending.len() - 1;
        assert forall|j: int| 0 <= j < n implies #[trigger] pending[j] == front[j] by {}
        if pending[n].priority.spec_rank() > pending[k].priority.spec_rank() {
            assert(is_next_pending_index(pending, n));
        } else {
            assert(is_next_pending_index(pending, k));
        }
    }
}

/// Law: an idle executor accepts any request, and the request's plan becomes active.
pub proof fn law_idle_executor_accepts(state: AdmissionStateView, request: AdmissionRequestView)
    requires
        state.active is None,
    ensures
        spec_admit(state, request).1 is Accepted,
        spec_admit(state, request).0.active == Some(
            ActivePlanView {
                plan_id: request.plan_id,
                priority: request.trigger_source.spec_priority(),
                active_step: request.active_step,
            },
        ),
        spec_admit(state, request).0.pending == state.pending,
{
}

/// Law: after any admission some plan is active, and its priority is never lower than the
/// priority of the plan that was active before.
pub proof fn law_admission_never_lowers_active_priority(
    state: AdmissionStateView,
    request: AdmissionRequestView,
)
    ensures
        spec_admit(state, request).0.active is Some,
        state.active is Some ==> spec_admit(state, request).0.active.unwrap().priority.spec_rank()
            >= state.active.unwrap().priority.spec_rank(),
{
}

/// Law: a request of equal or lower priority than the active plan is turned away, and the
/// state does not change.
pub proof fn law_turned_away_requests_change_nothing(
    state: AdmissionStateView,
    request: AdmissionRequestView,
)
    requires
        state.active is Some,
        request.trigger_source.spec_priority().spec_rank() <= state.active.unwrap().priority.spec_rank(),
    ensures
        spec_admit(state, request).0 == state,
        request.trigger_source.spec_priority() == state.active.unwrap().priority ==> spec_admit(
            state,
            request,
        ).1 is Rejected,
        request.trigger_source.spec_priority() != state.active.unwrap().priority ==> spec_admit(
            state,
            request,
        ).1 is Skipped,
{
}

/// Law: the priorities rank strictly in the order they are declared: idle autonomy, AI
/// choreography, user requests, system recovery, the attention system, critical interaction.
pub proof fn law_priority_rank_follows_declared_order()
    ensures
        ChoreographyPlanPriority::IdleAutonomous.spec_rank() < ChoreographyPlanPriority::AiChoreography.spec_rank(),
        ChoreographyPlanPriority::AiChoreography.spec_rank() < ChoreographyPlanPriority::UserRequested.spec_rank(),
        ChoreographyPlanPriority::UserRequested.spec_rank() < ChoreographyPlanPriority::SystemRecovery.spec_rank(),
        ChoreographyPlanPriority::SystemRecovery.spec_rank() < ChoreographyPlanPriority::AttentionSystem.spec_rank(),
        ChoreographyPlanPriority::AttentionSystem.spec_rank() < ChoreographyPlanPriority::CriticalInteraction.spec_rank(),
{
}

/// Law: each trigger source asks with the priority of its own name, so sources rank in the
/// same declared order as the priorities.
pub proof fn law_trigger_sources_rank_in_declared_order()
    ensures
        ChoreographyTriggerSource::IdleAutonomous.spec_priority() == ChoreographyPlanPriority::IdleAutonomous,
        ChoreographyTriggerSource::AiChoreography.spec_priority() == ChoreographyPlanPriority::AiChoreography,
        ChoreographyTriggerSource::UserRequested.spec_priority() == ChoreographyPlanPriority::UserRequested,
        ChoreographyTriggerSource::SystemRecovery.spec_priority() == ChoreographyPlanPriority::SystemRecovery,
        ChoreographyTriggerSource::AttentionSystem.spec_priority() == ChoreographyPlanPriority::AttentionSystem,
        ChoreographyTriggerSource::CriticalInteraction.spec_priority() == ChoreographyPlanPriority::CriticalInteraction,
        ChoreographyTriggerSource::IdleAutonomous.spec_priority().spec_rank()
            < ChoreographyTriggerSource::AiChoreography.spec_priority().spec_rank(),
        ChoreographyTriggerSource::AiChoreography.spec_priority().spec_rank()
            < ChoreographyTriggerSource::UserRequested.spec_priority().spec_rank(),
        ChoreographyTriggerSource::UserRequested.spec_priority().spec_rank()
            < ChoreographyTriggerSource::SystemRecovery.spec_priority().spec_rank(),
        ChoreographyTriggerSource::SystemRecovery.spec_priority().spec_rank()
            < ChoreographyTriggerSource::AttentionSystem.spec_priority().spec_rank(),
        ChoreographyTriggerSource::AttentionSystem.spec_priority().spec_rank()
            < ChoreographyTriggerSource::CriticalInteraction.spec_priority().spec_rank(),
{
}

/// Law: system recovery does not displace the attention system or a critical interaction: its
/// request is skipped as too low, and the state does not change.
pub proof fn law_system_recovery_yields_to_attention(state: AdmissionStateView, request: AdmissionRequestView)
    requires
        state.active matches Some(a) && (a.priority == ChoreographyPlanPriority::AttentionSystem || a.priority
            == ChoreographyPlanPriority::CriticalInteraction),
        request.trigger_source == ChoreographyTriggerSource::SystemRecovery,
    ensures
        spec_admit(state, request).0 == state,
        spec_admit(state, request).1 matches AdmissionDecisionView::Skipped { plan_id, active_plan_id, reason_code, .. }
            && plan_id == request.plan_id && active_plan_id == state.active.unwrap().plan_id && reason_code
            == "priority.tooLow"@,
{
}

/// Law: a request from a source ranked below the active plan's is skipped as too low and
/// changes nothing, whatever the plans and steps; the order is the declared one.
pub proof fn law_request_below_active_is_skipped(state: AdmissionStateView, request: AdmissionRequestView)
    requires
        state.active is Some,
        ({
            let p = request.trigger_source.spec_priority();
            let q = state.active.unwrap().priority;
            (p == ChoreographyPlanPriority::IdleAutonomous && q != ChoreographyPlanPriority::IdleAutonomous)
            || (p == ChoreographyPlanPriority::AiChoreography && q != ChoreographyPlanPriority::IdleAutonomous && q
                != ChoreographyPlanPriority::AiChoreography)
            || (p == ChoreographyPlanPriority::UserRequested && (q == ChoreographyPlanPriority::SystemRecovery || q
                == ChoreographyPlanPriority::AttentionSystem || q == ChoreographyPlanPriority::CriticalInteraction))
            || (p == ChoreographyPlanPriority::SystemRecovery && (q == ChoreographyPlanPriority::AttentionSystem || q
                == ChoreographyPlanPriority::CriticalInteraction))
            || (p == ChoreographyPlanPriority::AttentionSystem && q == ChoreographyPlanPriority::CriticalInteraction)
        }),
    ensures
        spec_admit(state, request).0 == state,
        spec_admit(state, request).1 is Skipped,
{
}

/// Law: a higher-priority request either takes over the executor or, when the active step
/// must finish, waits as the last pending plan; it is never turned away.
pub proof fn law_higher_priority_takes_over_or_waits(
    state: AdmissionStateView,
    request: AdmissionRequestView,
)
    requires
        state.active is Some,
        request.trigger_source.spec_priority().spec_rank() > state.active.unwrap().priority.spec_rank(),
    ensures
        spec_admit(state, request).1 is Preempted ==> spec_admit(state, request).0.active.unwrap().plan_id
            == request.plan_id,
        spec_admit(state, request).1 is Deferred ==> {
            let pending = spec_admit(state, request).0.pending;
            &&& spec_admit(state, request).0.active == state.active
            &&& pending.len() > 0
            &&& pending.last() == spec_pending_from_request(
                request,
                request.trigger_source.spec_priority(),
            )
        },
        spec_admit(state, request).1 is Preempted || spec_admit(state, request).1 is Deferred,
{
}

/// Law: admissions keep pending plan ids unique.
pub proof fn law_admission_keeps_pending_ids_unique(
    state: AdmissionStateView,
    request: AdmissionRequestView,
)
    requires
        pending_ids_unique(state.pending),
    ensures
        pending_ids_unique(spec_admit(state, request).0.pending),
{
    let priority = request.trigger_source.spec_priority();
    let p = spec_pending_from_request(request, priority);
    lemma_without_plan(state.pending, p.plan_id);
    let w = spec_without_plan(state.pending, p.plan_id);
    let q = w.push(p);
    assert forall|i: int, j: int| 0 <= i < j < q.len() implies (#[trigger] q[i]).plan_id
        != (#[trigger] q[j]).plan_id by {
        if j == q.len() - 1 {
            assert(q[i] == w[i]);
        } else {
            assert(q[i] == w[i] && q[j] == w[j]);
        }
    }
}

/// Law: releasing the active plan frees the executor; the next pending plan, when there is
/// one, is handed over: it is the first plan of the highest pending priority, and it leaves
/// the queue.
pub proof fn law_release_hands_over_next_pending(state: AdmissionStateView, plan_id: Seq<char>)
    requires
        state.active is Some,
        state.active.unwrap().plan_id == plan_id,
    ensures
        spec_release(state, plan_id).0.active is None,
        state.pending.len() == 0 ==> spec_release(state, plan_id).1 is Released,
        state.pending.len() > 0 ==> {
            let i = spec_next_pending_index(state.pending);
            &&& is_next_pending_index(state.pending, i)
            &&& spec_release(state, plan_id).1 matches AdmissionReleaseView::ReleasedWithPending {
                pending_plan_id,
                ..
            } && pending_plan_id == state.pending[i].plan_id
            &&& spec_release(state, plan_id).0.pending == state.pending.remove(i)
        },
{
    if state.pending.len() > 0 {
        lemma_next_pending_index_exists(state.pending);
    }
}

/// Law: a release for a plan that is not the active one changes nothing.
pub proof fn law_stale_release_changes_nothing(state: AdmissionStateView, plan_id: Seq<char>)
    requires
        !(state.active matches Some(a) && a.plan_id == plan_id),
    ensures
        spec_release(state, plan_id).0 == state,
        spec_release(state, plan_id).1 is Stale || spec_release(state, plan_id).1 is NoActivePlan,
{
}

/// Law: after a discard no pending plan has that id, and the discard reports whether one had.
pub proof fn law_discard_removes_plan(state: AdmissionStateView, plan_id: Seq<char>)
    ensures
        forall|k: int|
            0 <= k < spec_without_plan(state.pending, plan_id).len() ==> (#[trigger] spec_without_plan(
                state.pending,
                plan_id,
            )[k]).plan_id != plan_id,
        (spec_without_plan(state.pending, plan_id).len() != state.pending.len()) <==> (exists|k: int|
            0 <= k < state.pending.len() && (#[trigger] state.pending[k]).plan_id == plan_id),
{
    lemma_without_plan(state.pending, plan_id);
}


impl SidecarInterruptPolicy {
    pub open spec fn spec_log_value(self) -> Seq<char> {
        match self {
            SidecarInterruptPolicy::FinishStep => "finishStep"@,
            SidecarInterruptPolicy::Interruptible => "interruptible"@,
        }
    }

    /// The camel-case name used in action-log payloads.
    pub fn log_value(self) -> (r: &'static str)
        ensures
            r@ == self.spec_log_value(),
    {
        match self {
            SidecarInterruptPolicy::FinishStep => "finishStep",
            SidecarInterruptPolicy::Interruptible => "interruptible",
        }
    }
}

pub open spec fn jstr(s: Seq<char>) -> JsonView {
    JsonView::Str(s)
}

/// The plan that a decision was taken against, as the action log records it.
pub open spec fn spec_other_plan_payload(
    plan_id: Seq<char>,
    step_id: Option<Seq<char>>,
    priority: ChoreographyPlanPriority,
    policy: Option<SidecarInterruptPolicy>,
) -> JsonView {
    let head = match step_id {
        Some(s) => seq![("planId"@, jstr(plan_id)), ("stepId"@, jstr(s)), ("priority"@, jstr(priority.spec_log_value()))],
        None => seq![("planId"@, jstr(plan_id)), ("priority"@, jstr(priority.spec_log_value()))],
    };
    match policy {
        Some(p) => JsonView::Object(head.push(("interruptPolicy"@, jstr(p.spec_log_value())))),
        None => JsonView::Object(head),
    }
}

/// What the action log records of an admission decision.
pub open spec fn spec_decision_payload(d: AdmissionDecisionView) -> JsonView {
    match d {
        AdmissionDecisionView::Accepted { plan_id, trigger_source, priority } => JsonView::Object(
            seq![
                ("decision"@, jstr("accepted"@)),
                ("planId"@, jstr(plan_id)),
                ("triggerSource"@, jstr(trigger_source.spec_action_log_value())),
                ("priority"@, jstr(priority.spec_log_value())),
            ],
        ),
        AdmissionDecisionView::Preempted {
            plan_id,
            trigger_source,
            priority,
            interrupted_plan_id,
            interrupted_step_id,
            interrupted_priority,
            reason_code,
        } => JsonView::Object(
            seq![
                ("decision"@, jstr("preempted"@)),
                ("planId"@, jstr(plan_id)),
                ("triggerSource"@, jstr(trigger_source.spec_action_log_value())),
                ("priority"@, jstr(priority.spec_log_value())),
                ("reasonCode"@, jstr(reason_code)),
                ("interruptedPlan"@, spec_other_plan_payload(interrupted_plan_id, interrupted_step_id, interrupted_priority, None)),
            ],
        ),
        AdmissionDecisionView::Deferred {
            plan_id,
            trigger_source,
            priority,
            active_plan_id,
            active_step_id,
            active_priority,
            active_step_interrupt_policy,
            reason_code,
        } => JsonView::Object(
            seq![
                ("decision"@, jstr("deferred"@)),
                ("planId"@, jstr(plan_id)),
                ("triggerSource"@, jstr(trigger_source.spec_action_log_value())),
                ("priority"@, jstr(priority.spec_log_value())),
                ("reasonCode"@, jstr(reason_code)),
                (
                    "activePlan"@,
                    spec_other_plan_payload(active_plan_id, active_step_id, active_priority, Some(active_step_interrupt_policy)),
                ),
            ],
        ),
        AdmissionDecisionView::Rejected { plan_id, trigger_source, priority, active_plan_id, active_priority, reason_code } => {
            JsonView::Object(
                seq![
                    ("decision"@, jstr("rejected"@)),
                    ("planId"@, jstr(plan_id)),
                    ("triggerSource"@, jstr(trigger_source.spec_action_log_value())),
                    ("priority"@, jstr(priority.spec_log_value())),
                    ("reasonCode"@, jstr(reason_code)),
                    ("activePlan"@, spec_other_plan_payload(active_plan_id, None, active_priority, None)),
                ],
            )
        },
        AdmissionDecisionView::Skipped { plan_id, trigger_source, priority, active_plan_id, active_priority, reason_code } => {
            JsonView::Object(
                seq![
                    ("decision"@, jstr("skipped"@)),
                    ("planId"@, jstr(plan_id)),
                    ("triggerSource"@, jstr(trigger_source.spec_action_log_value())),
                    ("priority"@, jstr(priority.spec_log_value())),
                    ("reasonCode"@, jstr(reason_code)),
                    ("activePlan"@, spec_other_plan_payload(active_plan_id, None, active_priority, None)),
                ],
            )
        },
    }
}

fn other_plan_payload(
    plan_id: &str,
    step_id: Option<&str>,
    priority: ChoreographyPlanPriority,
    policy: Option<SidecarInterruptPolicy>,
) -> (r: JsonValue)
    ensures
        r@ == spec_other_plan_payload(plan_id@, crate::text::opt_str_view(step_id), priority, policy),
{
    let mut members: Vec<(String, JsonValue)> = Vec::new();
    members.push(str_member("planId", plan_id));
    if let Some(s) = step_id {
        members.push(str_member("stepId", s));
    }
    members.push(str_member("priority", priority.log_value()));
    if let Some(p) = policy {
        members.push(str_member("interruptPolicy", p.log_value()));
    }
    let ghost want = spec_other_plan_payload(plan_id@, crate::text::opt_str_view(step_id), priority, policy)->Object_0;
    assert(members_view(members@) =~= want);
    json_object(members)
}

fn decision_head(decision: &str, plan_id: &str, trigger_source: ChoreographyTriggerSource, priority: ChoreographyPlanPriority) -> (r:
    Vec<(String, JsonValue)>)
    ensures
        members_view(r@) == seq![
            ("decision"@, jstr(decision@)),
            ("planId"@, jstr(plan_id@)),
            ("triggerSource"@, jstr(trigger_source.spec_action_log_value())),
            ("priority"@, jstr(priority.spec_log_value())),
        ],
{
    let mut members: Vec<(String, JsonValue)> = Vec::new();
    members.push(str_member("decision", decision));
    members.push(str_member("planId", plan_id));
    members.push(str_member("triggerSource", trigger_source.action_log_value()));
    members.push(str_member("priority", priority.log_value()));
    assert(members_view(members@) =~= seq![
        ("decision"@, jstr(decision@)),
        ("planId"@, jstr(plan_id@)),
        ("triggerSource"@, jstr(trigger_source.spec_action_log_value())),
        ("priority"@, jstr(priority.spec_log_value())),
    ]);
    members
}

fn decision_with_other_plan(
    head: Vec<(String, JsonValue)>,
    reason_code: &str,
    other_key: &str,
    other: JsonValue,
) -> (r: JsonValue)
    ensures
        r@ == JsonView::Object(members_view(head@) + seq![("reasonCode"@, jstr(reason_code@)), (other_key@, other@)]),
{
    let mut members = head;
    let ghost h = members@;
    members.push(str_member("reasonCode", reason_code));
    members.push((other_key.to_owned(), other));
    assert(members_view(members@) =~= members_view(h) + seq![("reasonCode"@, jstr(reason_code@)), (other_key@, other@)]);
    json_object(members)
}

impl ChoreographyAdmissionDecision {
    /// What the action log records of the decision.
    pub fn action_log_payload(&self) -> (r: JsonValue)
        ensures
            r@ == spec_decision_payload(self@),
    {
        match self {
            ChoreographyAdmissionDecision::Accepted { plan_id, trigger_source, priority } => {
                let head = decision_head("accepted", plan_id.as_str(), *trigger_source, *priority);
                json_object(head)
            },
            ChoreographyAdmissionDecision::Preempted {
                plan_id,
                trigger_source,
                priority,
                interrupted_plan_id,
                interrupted_step_id,
                interrupted_priority,
                reason_code,
            } => {
                let head = decision_head("preempted", plan_id.as_str(), *trigger_source, *priority);
                let other = other_plan_payload(
                    interrupted_plan_id.as_str(),
                    crate::text::opt_as_str(interrupted_step_id),
                    *interrupted_priority,
                    None,
                );
                let r = decision_with_other_plan(head, reason_code.as_str(), "interruptedPlan", other);
                assert(r@->Object_0 =~= spec_decision_payload(self@)->Object_0);
                r
            },
            ChoreographyAdmissionDecision::Deferred {
                plan_id,
                trigger_source,
                priority,
                active_plan_id,
                active_step_id,
                active_priority,
                active_step_interrupt_policy,
                reason_code,
            } => {
                let head = decision_head("deferred", plan_id.as_str(), *trigger_source, *priority);
                let other = other_plan_payload(
                    active_plan_id.as_str(),
                    crate::text::opt_as_str(active_step_id),
                    *active_priority,
                    Some(*active_step_interrupt_policy),
                );
                let r = decision_with_other_plan(head, reason_code.as_str(), "activePlan", other);
                assert(r@->Object_0 =~= spec_decision_payload(self@)->Object_0);
                r
            },
            ChoreographyAdmissionDecision::Rejected {
                plan_id,
                trigger_source,
                priority,
                active_plan_id,
                active_priority,
                reason_code,
            } => {
                let head = decision_head("rejected", plan_id.as_str(), *trigger_source, *priority);
                let other = other_plan_payload(active_plan_id.as_str(), None, *active_priority, None);
                let r = decision_with_other_plan(head, reason_code.as_str(), "activePlan", other);
                assert(r@->Object_0 =~= spec_decision_payload(self@)->Object_0);
                r
            },
            ChoreographyAdmissionDecision::Skipped {
                plan_id,
                trigger_source,
                priority,
                active_plan_id,
                active_priority,
                reason_code,
            } => {
                let head = decision_head("skipped", plan_id.as_str(), *trigger_source, *priority);
                let other = other_plan_payload(active_plan_id.as_str(), None, *active_priority, None);
                let r = decision_with_other_plan(head, reason_code.as_str(), "activePlan", other);
                assert(r@->Object_0 =~= spec_decision_payload(self@)->Object_0);
                r
            },
        }
    }
}

} // verus!
