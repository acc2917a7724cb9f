use buddy_choreography::action_log::{
    spawn_sidecar_with_startup_health_diagnostics, ActionLogEvent, ActionLogSink, ActionLogSystemEvent,
};
use buddy_choreography::error::{BuddyError, BuddyResult};
use buddy_choreography::json::JsonValue;

#[derive(Default)]
struct SystemLog {
    system_events: Vec<ActionLogSystemEvent>,
}

impl ActionLogSink for SystemLog {
    fn append_event(&mut self, _event: &ActionLogEvent) -> BuddyResult<()> {
        Ok(())
    }

    fn append_system_event(&mut self, event: &ActionLogSystemEvent) -> BuddyResult<()> {
        self.system_events.push(ActionLogSystemEvent {
            event_id: event.event_id.clone(),
            schema_version: event.schema_version,
            event_type: event.event_type.clone(),
            status: event.status.clone(),
            reason_code: event.reason_code.clone(),
            plan_id: event.plan_id.clone(),
            step_id: event.step_id.clone(),
            source_ref: event.source_ref.duplicate(),
            trigger_source: event.trigger_source.clone(),
            payload: event.payload.duplicate(),
            created_at: event.created_at.clone(),
        });
        Ok(())
    }
}

#[test]
fn records_startup_health_failed_when_sidecar_spawn_fails() {
    let mut log = SystemLog::default();

    let error = spawn_sidecar_with_startup_health_diagnostics(&mut log, "2026-07-16T00:00:00.000Z", || {
        Err::<(), _>(BuddyError::Runtime("native pet sidecar ready timed out".to_owned()))
    })
    .expect_err("startup failure should return its own error");

    assert!(matches!(error, BuddyError::Runtime(message) if message == "native pet sidecar ready timed out"));
    assert_eq!(log.system_events.len(), 1);
    let event = &log.system_events[0];
    assert_eq!(event.event_type, "startupHealth.failed");
    assert_eq!(event.status, "failed");
    assert_eq!(event.reason_code, "startupHealth.nativePetUnavailable");
    assert_eq!(event.trigger_source, "startupHealth");
    assert_eq!(
        event.source_ref,
        JsonValue::Object(vec![("kind".to_owned(), JsonValue::Str("runtime".to_owned()))])
    );
    assert!(event.event_id.starts_with("evt_"));
}

#[test]
fn a_started_sidecar_writes_no_startup_health_event() {
    let mut log = SystemLog::default();

    let started = spawn_sidecar_with_startup_health_diagnostics(&mut log, "2026-07-16T00:00:00.000Z", || Ok(7u32))
        .expect("spawn succeeds");

    assert_eq!(started, 7);
    assert!(log.system_events.is_empty());
}
