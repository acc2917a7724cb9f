use vstd::prelude::*;

pub mod action_log;
pub mod admission;
pub mod admitted_exec;
pub mod admitted_run;
pub mod affective;
pub mod beat_plan;
pub mod error;
pub mod execution_context;
pub mod executor;
pub mod fixture;
pub mod fixture_run;
pub mod ids;
pub mod json;
pub mod json_text;
pub mod macro_plan;
pub mod macro_run;
pub mod plan_run;
pub mod planner;
pub mod preset_behavior;
pub mod readiness;
pub mod recovery_run;
pub mod sidecar_protocol;
pub mod registry;
pub mod step_execution;
pub mod step_protocol;
pub mod step_resolution;
pub mod system_events;
pub mod text;
pub mod timeline;
pub mod wire;

verus! {

} // verus!
