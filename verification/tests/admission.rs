use buddy_choreography::admission::{
    ChoreographyAdmissionDecision, ChoreographyAdmissionRelease, ChoreographyAdmissionRequest,
    ChoreographyAdmissionState, ChoreographyPlanPriority, ChoreographyTriggerSource,
};
use buddy_choreography::step_protocol::SidecarInterruptPolicy;

fn request(plan_id: &str, source: ChoreographyTriggerSource, policy: SidecarInterruptPolicy) -> ChoreographyAdmissionRequest {
    ChoreographyAdmissionRequest::new(plan_id, source).with_active_step(&format!("step_{plan_id}"), policy)
}

#[test]
fn an_idle_executor_accepts_any_request() {
    let mut admission = ChoreographyAdmissionState::new();

    let decision = admission.admit_request(request(
        "plan_idle",
        ChoreographyTriggerSource::IdleAutonomous,
        SidecarInterruptPolicy::Interruptible,
    ));

    assert!(matches!(decision, ChoreographyAdmissionDecision::Accepted { .. }));
    assert_eq!(admission.active_plan_id(), Some("plan_idle"));
    assert_eq!(admission.next_pending_plan_id(), None);
}

#[test]
fn equal_or_lower_priority_requests_are_turned_away_without_change() {
    let mut admission = ChoreographyAdmissionState::new();
    admission.admit_request(request("plan_user", ChoreographyTriggerSource::UserRequested, SidecarInterruptPolicy::Interruptible));

    let same = admission.admit_request(request(
        "plan_user_again",
        ChoreographyTriggerSource::UserRequested,
        SidecarInterruptPolicy::Interruptible,
    ));
    let lower = admission.admit_request(request(
        "plan_ai",
        ChoreographyTriggerSource::AiChoreography,
        SidecarInterruptPolicy::Interruptible,
    ));

    assert!(matches!(same, ChoreographyAdmissionDecision::Rejected { .. }));
    assert!(matches!(lower, ChoreographyAdmissionDecision::Skipped { .. }));
    assert_eq!(admission.active_plan_id(), Some("plan_user"));
    assert_eq!(admission.next_pending_plan_id(), None);
}

#[test]
fn a_higher_priority_request_preempts_an_interruptible_step() {
    let mut admission = ChoreographyAdmissionState::new();
    admission.admit_request(request("plan_ai", ChoreographyTriggerSource::AiChoreography, SidecarInterruptPolicy::Interruptible));

    let decision = admission.admit_request(request(
        "plan_user",
        ChoreographyTriggerSource::UserRequested,
        SidecarInterruptPolicy::Interruptible,
    ));

    match decision {
        ChoreographyAdmissionDecision::Preempted { plan_id, interrupted_plan_id, interrupted_step_id, priority, .. } => {
            assert_eq!(plan_id, "plan_user");
            assert_eq!(interrupted_plan_id, "plan_ai");
            assert_eq!(interrupted_step_id.as_deref(), Some("step_plan_ai"));
            assert_eq!(priority, ChoreographyPlanPriority::UserRequested);
        }
        other => panic!("expected preemption, got {other:?}"),
    }
    assert_eq!(admission.active_plan_id(), Some("plan_user"));
}

#[test]
fn a_higher_priority_request_waits_for_a_step_that_must_finish() {
    let mut admission = ChoreographyAdmissionState::new();
    admission.admit_request(request("plan_ai", ChoreographyTriggerSource::AiChoreography, SidecarInterruptPolicy::FinishStep));

    let decision = admission.admit_request(request(
        "plan_user",
        ChoreographyTriggerSource::UserRequested,
        SidecarInterruptPolicy::Interruptible,
    ));

    assert!(matches!(decision, ChoreographyAdmissionDecision::Deferred { .. }));
    assert_eq!(admission.active_plan_id(), Some("plan_ai"));
    assert_eq!(admission.next_pending_plan_id(), Some("plan_user"));
}

#[test]
fn releasing_the_active_plan_hands_over_the_highest_pending_plan() {
    let mut admission = ChoreographyAdmissionState::new();
    admission.admit_request(request("plan_ai", ChoreographyTriggerSource::AiChoreography, SidecarInterruptPolicy::FinishStep));
    admission.admit_request(request("plan_user", ChoreographyTriggerSource::UserRequested, SidecarInterruptPolicy::Interruptible));
    admission.admit_request(request(
        "plan_attention",
        ChoreographyTriggerSource::AttentionSystem,
        SidecarInterruptPolicy::Interruptible,
    ));

    let release = admission.release_plan("plan_ai");

    match release {
        ChoreographyAdmissionRelease::ReleasedWithPending { plan_id, pending_plan_id, .. } => {
            assert_eq!(plan_id, "plan_ai");
            assert_eq!(pending_plan_id, "plan_attention");
        }
        other => panic!("expected a hand-over, got {other:?}"),
    }
    assert_eq!(admission.active_plan_id(), None);
    assert_eq!(admission.next_pending_plan_id(), Some("plan_user"));
}

#[test]
fn a_stale_release_changes_nothing() {
    let mut admission = ChoreographyAdmissionState::new();
    assert!(matches!(admission.release_plan("plan_none"), ChoreographyAdmissionRelease::NoActivePlan { .. }));

    admission.admit_request(request("plan_ai", ChoreographyTriggerSource::AiChoreography, SidecarInterruptPolicy::Interruptible));
    let release = admission.release_plan("plan_other");

    assert!(matches!(release, ChoreographyAdmissionRelease::Stale { .. }));
    assert_eq!(admission.active_plan_id(), Some("plan_ai"));
}

#[test]
fn discarding_a_pending_plan_removes_it_once() {
    let mut admission = ChoreographyAdmissionState::new();
    admission.admit_request(request("plan_ai", ChoreographyTriggerSource::AiChoreography, SidecarInterruptPolicy::FinishStep));
    admission.admit_request(request("plan_user", ChoreographyTriggerSource::UserRequested, SidecarInterruptPolicy::Interruptible));

    assert!(admission.discard_pending_plan("plan_user"));
    assert!(!admission.discard_pending_plan("plan_user"));
    assert_eq!(admission.next_pending_plan_id(), None);
}

#[test]
fn a_plan_waits_at_most_once() {
    let mut admission = ChoreographyAdmissionState::new();
    admission.admit_request(request("plan_ai", ChoreographyTriggerSource::AiChoreography, SidecarInterruptPolicy::FinishStep));
    admission.admit_request(request("plan_user", ChoreographyTriggerSource::UserRequested, SidecarInterruptPolicy::Interruptible));
    admission.admit_request(request("plan_user", ChoreographyTriggerSource::UserRequested, SidecarInterruptPolicy::Interruptible));

    assert!(admission.discard_pending_plan("plan_user"));
    assert_eq!(admission.next_pending_plan_id(), None);
}
