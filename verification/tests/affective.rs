use buddy_choreography::affective::{
    affective_snapshot_for_state_file, parse_affective_energy, parse_affective_mood,
    parse_affective_state_command_config, updated_affective_context, AffectiveContext, AffectiveContextSource,
    AffectiveEnergy, AffectiveMood, AffectiveStateCommandConfig, AffectiveStateCommandOperation,
};

fn args(values: &[&str]) -> Vec<String> {
    values.iter().map(|v| (*v).to_owned()).collect()
}

#[test]
fn affective_state_command_rejects_set_without_fields() {
    let error = parse_affective_state_command_config(&args(&["lexora-buddy", "--buddy-affective-state", "set"]))
        .expect("affective state command should handle set")
        .expect_err("set without fields should fail");

    assert_eq!(
        error.message(),
        "buddy state validation failed: --buddy-affective-state set requires --mood or --energy"
    );
}

#[test]
fn affective_state_command_is_absent_without_its_flag() {
    assert!(parse_affective_state_command_config(&args(&["lexora-buddy", "--other"])).is_none());
}

#[test]
fn affective_state_command_reads_get_with_its_data_dir() {
    let config = parse_affective_state_command_config(&args(&[
        "lexora-buddy",
        "--buddy-affective-state",
        "get",
        "--buddy-affective-state-data-dir",
        "/tmp/buddy",
    ]))
    .expect("command present")
    .expect("get parses");

    assert_eq!(
        config,
        AffectiveStateCommandConfig {
            data_dir: Some("/tmp/buddy".to_owned()),
            operation: AffectiveStateCommandOperation::Get,
        }
    );
}

#[test]
fn affective_state_command_reads_the_fields_to_set() {
    let config = parse_affective_state_command_config(&args(&[
        "lexora-buddy",
        "--buddy-affective-state",
        "set",
        "--mood",
        "happy",
    ]))
    .expect("command present")
    .expect("set parses");

    assert_eq!(
        config.operation,
        AffectiveStateCommandOperation::Update { mood: Some(AffectiveMood::Happy), energy: None }
    );
}

#[test]
fn affective_state_command_needs_an_operation() {
    let error = parse_affective_state_command_config(&args(&["lexora-buddy", "--buddy-affective-state"]))
        .expect("command present")
        .expect_err("missing operation");
    assert_eq!(error.message(), "buddy state validation failed: --buddy-affective-state requires get or set");

    let error = parse_affective_state_command_config(&args(&["lexora-buddy", "--buddy-affective-state", "reset"]))
        .expect("command present")
        .expect_err("unknown operation");
    assert_eq!(error.message(), "buddy state validation failed: --buddy-affective-state only supports get or set");
}

#[test]
fn affective_values_parse_by_name() {
    assert_eq!(parse_affective_mood("sad").expect("sad"), AffectiveMood::Sad);
    assert_eq!(parse_affective_energy("low").expect("low"), AffectiveEnergy::Low);
    assert!(parse_affective_mood("angry").is_err());
    assert!(parse_affective_energy("extreme").is_err());
}

#[test]
fn a_missing_or_unreadable_state_file_falls_back_to_the_default_context() {
    let default_context = AffectiveContext { mood: AffectiveMood::Neutral, energy: AffectiveEnergy::Medium };
    let missing = affective_snapshot_for_state_file(false, None);
    assert_eq!(missing.context, default_context);
    assert_eq!(missing.source, AffectiveContextSource::DefaultCreated);
    assert_eq!(missing.source.as_str(), "defaultCreated");

    let invalid = affective_snapshot_for_state_file(true, None);
    assert_eq!(invalid.context, default_context);
    assert_eq!(invalid.source, AffectiveContextSource::InvalidFileFallback);

    let stored = AffectiveContext { mood: AffectiveMood::Happy, energy: AffectiveEnergy::High };
    let read = affective_snapshot_for_state_file(true, Some(stored));
    assert_eq!(read.context, stored);
    assert_eq!(read.source, AffectiveContextSource::StateFile);
}

#[test]
fn a_partial_update_keeps_the_fields_it_does_not_name() {
    let current = AffectiveContext { mood: AffectiveMood::Sad, energy: AffectiveEnergy::Low };

    assert_eq!(
        updated_affective_context(current, None, Some(AffectiveEnergy::High)),
        AffectiveContext { mood: AffectiveMood::Sad, energy: AffectiveEnergy::High }
    );
    assert_eq!(
        updated_affective_context(current, Some(AffectiveMood::Happy), None),
        AffectiveContext { mood: AffectiveMood::Happy, energy: AffectiveEnergy::Low }
    );
}
