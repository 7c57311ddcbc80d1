use fan_server::get_sensor_data::{endpoint_response_of, sensor_data_check, EndpointResponse};
use fan_server::get_settings::settings_check;
use fan_server::long_poll::{
    LongPollCoordinator, PollDirective, PollEvent, PollOutcome, MAX_POLL_ATTEMPTS,
};
use fan_server::server_context::{FanOverride, PostSettings, ServerState, Settings, Temperature};
use fan_server::{GetEndpointsQuery, RevisionedCell};

#[test]
fn cell_starts_at_revision_zero() {
    let cell = RevisionedCell::new(7i32);
    let (value, revision) = cell.read();
    assert_eq!(*value, 7);
    assert_eq!(revision, 0);
}

#[test]
fn cell_write_advances_revision_by_one_each_time() {
    let mut cell = RevisionedCell::new(0i32);
    let mut previous = 0i32;
    for step in 1..=5i32 {
        let revision = cell.write(step * 10);
        assert_eq!(revision, previous + 1);
        assert_eq!(revision, step);
        previous = revision;
    }
    let (value, revision) = cell.read();
    assert_eq!(*value, 50);
    assert_eq!(revision, 5);
}

#[test]
fn cell_snapshot_pairs_value_with_its_write() {
    let mut cell = RevisionedCell::new("a");
    cell.write("b");
    cell.write("c");
    let (value, revision) = cell.read();
    assert_eq!(*value, "c");
    assert_eq!(revision, 2);
}

#[test]
fn two_writes_get_distinct_consecutive_revisions() {
    let mut temperature = Temperature::new(70);
    let first = temperature.set_value(71);
    let second = temperature.set_value(72);
    assert_ne!(first, second);
    assert_eq!(second, first + 1);
}

#[test]
fn initial_temperature_write_starts_at_revision_zero() {
    let mut state = ServerState::new();
    assert!(state.get_temperature().is_none());
    let revision = state.set_temperature(72);
    assert_eq!(revision, 0);
    assert_eq!(state.get_temperature(), Some((72, 0)));
}

#[test]
fn subsequent_temperature_write_advances_to_revision_one() {
    let mut state = ServerState::new();
    state.set_temperature(72);
    let revision = state.set_temperature(75);
    assert_eq!(revision, 1);
    assert_eq!(state.get_temperature(), Some((75, 1)));
}

#[test]
fn settings_start_at_defaults() {
    let settings = Settings::new();
    assert_eq!(settings.fan_activation_temp(), 80);
    assert!(matches!(settings.fan_override(), FanOverride::NoOverride));
    assert_eq!(settings.revision_num(), 0);
}

#[test]
fn partial_settings_update_preserves_untouched_field() {
    let mut state = ServerState::new();
    let patch = PostSettings {
        fan_activation_temp: None,
        fan_override: Some(FanOverride::On),
    };
    let revision = state.set_settings(&patch);
    assert_eq!(revision, 1);
    let (record, revision) = state.get_settings();
    assert_eq!(record.fan_activation_temp, 80);
    assert!(matches!(record.fan_override, FanOverride::On));
    assert_eq!(revision, 1);
}

#[test]
fn patch_with_both_fields_is_one_write() {
    let mut settings = Settings::new();
    let patch = PostSettings {
        fan_activation_temp: Some(75),
        fan_override: Some(FanOverride::Off),
    };
    let revision = settings.apply_patch(&patch);
    assert_eq!(revision, 1);
    assert_eq!(settings.fan_activation_temp(), 75);
    assert!(matches!(settings.fan_override(), FanOverride::Off));
}

#[test]
fn single_field_setters_advance_revision_by_one() {
    let mut settings = Settings::new();
    assert_eq!(settings.set_activation_temp(85), 1);
    assert_eq!(settings.fan_activation_temp(), 85);
    assert!(matches!(settings.fan_override(), FanOverride::NoOverride));
    assert_eq!(settings.set_fan_override(FanOverride::On), 2);
    assert_eq!(settings.fan_activation_temp(), 85);
    assert!(matches!(settings.fan_override(), FanOverride::On));
}

#[test]
fn temperature_check_reports_absence_before_any_write() {
    let state = ServerState::new();
    let event = sensor_data_check(&state, 0);
    assert!(matches!(event, PollEvent::Unavailable));
}

#[test]
fn temperature_check_reports_update_only_past_known_revision() {
    let mut state = ServerState::new();
    state.set_temperature(72);
    // A caller that has seen nothing yet reports a revision below 0.
    match sensor_data_check(&state, -1) {
        PollEvent::Ready(update) => {
            assert_eq!(update.revision_num, 0);
            assert_eq!(update.temperature, 72);
        }
        _ => panic!("expected an update for a stale caller"),
    }
    // A caller that has seen revision 0 has nothing new.
    assert!(matches!(sensor_data_check(&state, 0), PollEvent::NotYet));
}

#[test]
fn settings_check_never_reports_absence() {
    let state = ServerState::new();
    assert!(matches!(settings_check(&state, 0), PollEvent::NotYet));
    match settings_check(&state, -1) {
        PollEvent::Ready(update) => {
            assert_eq!(update.revision_num, 0);
            assert_eq!(update.fan_activation_temp, 80);
            assert!(matches!(update.fan_override, FanOverride::NoOverride));
        }
        _ => panic!("expected an update for a stale caller"),
    }
}

#[test]
fn poll_finishes_on_first_attempt_when_already_satisfied() {
    let mut state = ServerState::new();
    state.set_temperature(72);
    let mut coordinator = LongPollCoordinator::new();
    let event = sensor_data_check(&state, -1);
    match coordinator.observe(event) {
        PollDirective::Finish(PollOutcome::Updated(update)) => {
            assert_eq!(update.revision_num, 0);
            assert_eq!(update.temperature, 72);
        }
        _ => panic!("expected the poll to finish on its first attempt"),
    }
    assert_eq!(coordinator.attempts_made(), 1);
}

#[test]
fn poll_reports_absence_immediately() {
    let state = ServerState::new();
    let mut coordinator = LongPollCoordinator::new();
    let event = sensor_data_check(&state, 0);
    assert!(matches!(
        coordinator.observe(event),
        PollDirective::Finish(PollOutcome::Unavailable)
    ));
    assert_eq!(coordinator.attempts_made(), 1);
}

#[test]
fn poll_with_no_writes_exhausts_after_exactly_the_attempt_budget() {
    let state = ServerState::new();
    let mut coordinator = LongPollCoordinator::new();
    let mut waits = 0u32;
    loop {
        let event = settings_check(&state, 0);
        match coordinator.observe(event) {
            PollDirective::Wait => waits += 1,
            PollDirective::Finish(outcome) => {
                assert!(matches!(outcome, PollOutcome::Exhausted));
                break;
            }
        }
    }
    assert_eq!(waits, MAX_POLL_ATTEMPTS - 1);
    assert_eq!(coordinator.attempts_made(), MAX_POLL_ATTEMPTS);
}

#[test]
fn poll_sees_a_write_that_lands_between_attempts() {
    let mut state = ServerState::new();
    state.set_temperature(72);
    let query = GetEndpointsQuery { last_known_revision_num: 0 };
    let mut coordinator = LongPollCoordinator::new();

    // First attempt: nothing newer than the caller's revision.
    let event = sensor_data_check(&state, query.last_known_revision_num);
    assert!(matches!(coordinator.observe(event), PollDirective::Wait));

    // A writer lands during the interval.
    let revision = state.set_temperature(75);
    assert_eq!(revision, 1);

    // The next attempt returns the new snapshot.
    let event = sensor_data_check(&state, query.last_known_revision_num);
    match coordinator.observe(event) {
        PollDirective::Finish(PollOutcome::Updated(update)) => {
            assert_eq!(update.revision_num, 1);
            assert_eq!(update.temperature, 75);
        }
        _ => panic!("expected the update on the attempt after the write"),
    }
    assert_eq!(coordinator.attempts_made(), 2);
}

#[test]
fn endpoint_response_maps_each_outcome() {
    let updated = PollOutcome::Updated(fan_server::get_sensor_data::UpdateResponse {
        revision_num: 3,
        temperature: 68,
    });
    match endpoint_response_of(updated) {
        EndpointResponse::Update(update) => {
            assert_eq!(update.revision_num, 3);
            assert_eq!(update.temperature, 68);
        }
        _ => panic!("expected an update response"),
    }

    assert!(matches!(
        endpoint_response_of(PollOutcome::Exhausted),
        EndpointResponse::Empty
    ));

    match endpoint_response_of(PollOutcome::Unavailable) {
        EndpointResponse::Error(status, message) => {
            assert_eq!(status, 503);
            assert_eq!(message, "No fan connected to server.");
        }
        _ => panic!("expected an error response"),
    }
}

#[test]
fn default_state_matches_new() {
    let state = ServerState::default();
    assert!(state.get_temperature().is_none());
    let (record, revision) = state.get_settings();
    assert_eq!(record.fan_activation_temp, 80);
    assert!(matches!(record.fan_override, FanOverride::NoOverride));
    assert_eq!(revision, 0);
    let settings = Settings::default();
    assert_eq!(settings.revision_num(), 0);
}

#[test]
fn temperature_getters_read_the_cell() {
    let temperature = Temperature::new(64);
    assert_eq!(temperature.value(), 64);
    assert_eq!(temperature.revision_num(), 0);
}
