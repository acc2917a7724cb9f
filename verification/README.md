# buddy_choreography

The choreography core of a desktop pet: the rules that decide what the pet does and in
which order, verified with Verus.

- `src/` is the verified library. Timeline plans and their steps (`timeline`), the planner
  that expands planner-side steps (`planner`), macro intents and the beat plans they compile
  to (`macro_plan`, `beat_plan`), action resolution against the action registry (`registry`,
  `step_resolution`), the sidecar step protocol and its JSON messages (`step_protocol`,
  `sidecar_protocol`, `wire`), admission of plans to the single active slot (`admission`),
  the action log's events (`action_log`, `system_events`), and the runners that execute plans
  under admission with recovery (`plan_run`, `fixture_run`, `admitted_run`, `admitted_exec`,
  `recovery_run`, `macro_run`).
- The step executor, the action log sink, the store of waiting runs and the recovery planner
  are traits: the runtime provides them, and the library's contracts hold for whatever they
  answer. Where a sink keeps a record of what it was asked to append (`MemoryActionLog`
  does), the contracts say which event a run hands to the log first (its admission decision
  or its start), which events a step that runs on the executor hands to it (resolved, then
  completed or failed, with their payloads), how a run that succeeds ends in the log, and
  that no run rewrites what the log already holds; where the store of waiting runs keeps a
  record too, that a waiting run's admission decision reaches the log only after the store
  answered that its body is stored. They do not say what the executor
  answers: the step executor is asked through shared references and keeps no record, so the
  retry and alternative-branch rules stand as decision functions (`retry_decision`,
  `runs_alternative`, `runs_alternative_after`, `failure_policy_continues`,
  `next_step_after_completion`) that take its answers, and the listener's, as arguments;
  `step_to_interrupt` says which step it is asked to interrupt, and with which reason.
- `app/` is the runtime edge: the affective-state command with its state file and file lock,
  a JSON-lines action log, and the bridge between the library's JSON documents and
  `serde_json`.
- `tests/` runs the library on concrete inputs.
