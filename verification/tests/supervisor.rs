use pokakus::led::LedState;
use pokakus::wifi::{
    backoff_after_connect, disconnect_cooldown, network_state_status, plan_pass,
    supervisor_status, StaState, RECONNECT_BACKOFF_MILLIS,
};

#[test]
fn status_reflects_controller_state() {
    assert_eq!(supervisor_status(StaState::Connected), LedState::PresenceBlink);
    assert_eq!(supervisor_status(StaState::NotStarted), LedState::PatientBlink);
    assert_eq!(supervisor_status(StaState::Starting), LedState::PatientBlink);
    assert_eq!(supervisor_status(StaState::Disconnected), LedState::PatientBlink);
}

#[test]
fn connected_pass_waits_for_disconnect() {
    let p = plan_pass(StaState::Connected, true);
    assert_eq!(p.report, LedState::PresenceBlink);
    assert!(p.await_disconnect);
    assert!(!p.configure_and_start);
}

#[test]
fn unstarted_pass_configures_and_starts() {
    let p = plan_pass(StaState::NotStarted, false);
    assert_eq!(p.report, LedState::PatientBlink);
    assert!(!p.await_disconnect);
    assert!(p.configure_and_start);
}

#[test]
fn disconnected_started_pass_just_reconnects() {
    let p = plan_pass(StaState::Disconnected, true);
    assert_eq!(p.report, LedState::PatientBlink);
    assert!(!p.await_disconnect);
    assert!(!p.configure_and_start);
}

#[test]
fn failed_connect_backs_off_five_seconds() {
    assert_eq!(RECONNECT_BACKOFF_MILLIS, 5000);
    assert_eq!(backoff_after_connect(false), Some(RECONNECT_BACKOFF_MILLIS));
    assert_eq!(backoff_after_connect(true), None);
}

#[test]
fn disconnect_cooldown_is_five_seconds() {
    assert_eq!(disconnect_cooldown(), 5000);
}

#[test]
fn network_reporter_status() {
    assert_eq!(network_state_status(true), LedState::PresenceBlink);
    assert_eq!(network_state_status(false), LedState::PatientBlink);
}
