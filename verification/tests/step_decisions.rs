use buddy_choreography::admission::{ChoreographyAdmissionDecision, ChoreographyPlanPriority, ChoreographyTriggerSource};
use buddy_choreography::admitted_run::step_to_interrupt;
use buddy_choreography::error::BuddyError;
use buddy_choreography::plan_run::{
    failure_policy_continues, next_step_after_completion, runs_alternative_after, StepCompletionDecision,
    TimelineExecutionError,
};
use buddy_choreography::step_execution::{retry_decision, runs_alternative, RetryDecision};
use buddy_choreography::timeline::{TimelineFailurePolicy, TimelineStep, WaitStep};

#[test]
fn retry_succeeds_on_the_first_successful_attempt() {
    let decision = retry_decision::<BuddyError>(0, 3, Ok(()));
    assert!(matches!(decision, RetryDecision::Succeed));
}

#[test]
fn retry_tries_again_while_attempts_remain() {
    let decision = retry_decision(1, 3, Err(BuddyError::Runtime("second attempt failed".to_owned())));
    assert!(matches!(decision, RetryDecision::TryAgain));
}

#[test]
fn retry_fails_with_the_last_attempts_error() {
    let decision = retry_decision(2, 3, Err(BuddyError::Runtime("third attempt failed".to_owned())));
    match decision {
        RetryDecision::Fail(error) => assert_eq!(error, BuddyError::Runtime("third attempt failed".to_owned())),
        _ => panic!("the last failed attempt fails the retry"),
    }
}

#[test]
fn alternative_branch_runs_only_after_a_failure() {
    assert!(!runs_alternative::<BuddyError>(&Ok(())));
    assert!(runs_alternative(&Err(BuddyError::Runtime("primary failed".to_owned()))));
    assert!(runs_alternative_after(&TimelineExecutionError::Execution(BuddyError::Runtime("primary failed".to_owned()))));
    assert!(!runs_alternative_after(&TimelineExecutionError::ActionLog(BuddyError::Runtime("log down".to_owned()))));
}

#[test]
fn failure_policy_decides_whether_a_plan_goes_on() {
    assert!(failure_policy_continues(TimelineFailurePolicy::Continue));
    assert!(!failure_policy_continues(TimelineFailurePolicy::Abort));
}

#[test]
fn preempted_step_is_interrupted_with_the_decisions_reason() {
    let decision = ChoreographyAdmissionDecision::Preempted {
        plan_id: "plan_urgent".to_owned(),
        trigger_source: ChoreographyTriggerSource::UserRequested,
        priority: ChoreographyPlanPriority::UserRequested,
        interrupted_plan_id: "plan_idle".to_owned(),
        interrupted_step_id: Some("step_idle".to_owned()),
        interrupted_priority: ChoreographyPlanPriority::IdleAutonomous,
        reason_code: "admission.preemptedByHigherPriority".to_owned(),
    };
    assert_eq!(step_to_interrupt(&decision), Some(("step_idle", "admission.preemptedByHigherPriority")));
    let accepted = ChoreographyAdmissionDecision::Accepted {
        plan_id: "plan_idle".to_owned(),
        trigger_source: ChoreographyTriggerSource::IdleAutonomous,
        priority: ChoreographyPlanPriority::IdleAutonomous,
    };
    assert_eq!(step_to_interrupt(&accepted), None);
}

#[test]
fn a_completed_step_leads_to_the_next_or_yields() {
    let steps = vec![
        TimelineStep::Wait(WaitStep::new("step_first", 1, 10)),
        TimelineStep::Wait(WaitStep::new("step_second", 1, 10)),
    ];
    assert_eq!(next_step_after_completion(&steps, 0, &StepCompletionDecision::Continue).unwrap(), Some(1));
    assert_eq!(next_step_after_completion(&steps, 0, &StepCompletionDecision::YieldToPendingPlan).unwrap(), None);
    let missing = StepCompletionDecision::RunPendingHandoffFinalizer { step_id: "step_missing".to_owned() };
    assert!(next_step_after_completion(&steps, 0, &missing).is_err());
}
