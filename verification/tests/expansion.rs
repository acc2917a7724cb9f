use buddy_choreography::planner::expand_planner_timeline_steps;
use buddy_choreography::timeline::{RepeatStep, TimelineStep, WaitStep};

#[test]
fn expanded_repeat_leaves_only_steps_that_run() {
    let steps = vec![
        TimelineStep::Wait(WaitStep::new("step_before", 1, 10)),
        TimelineStep::Repeat(RepeatStep {
            step_id: "step_repeat".to_owned(),
            kind: "repeat".to_owned(),
            times: 2,
            steps: vec![TimelineStep::Wait(WaitStep::new("step_inner", 1, 10))],
        }),
    ];
    let expanded = expand_planner_timeline_steps(&steps).expect("repeat expands");
    assert_eq!(expanded.len(), 3);
    assert!(expanded.iter().all(|s| !matches!(s, TimelineStep::Repeat(_) | TimelineStep::Choose(_) | TimelineStep::SetFallback(_))));
    assert!(matches!(&expanded[0], TimelineStep::Wait(w) if w.step_id == "step_before"));
}
