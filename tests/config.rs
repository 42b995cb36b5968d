use climate_sensor::config::{ApplicationError, ApplicationState};

#[test]
fn new_state_has_no_flags() {
    let state = ApplicationState::default();
    assert!(!state.has_error(ApplicationError::DHT22_TIMEOUT));
}

#[test]
fn add_then_remove_flag() {
    let mut state = ApplicationState::default();
    state.add_error(ApplicationError::DHT22_TIMEOUT);
    assert!(state.has_error(ApplicationError::DHT22_TIMEOUT));
    state.add_error(ApplicationError::DHT22_TIMEOUT);
    assert!(state.has_error(ApplicationError::DHT22_TIMEOUT));
    state.remove_error(ApplicationError::DHT22_TIMEOUT);
    assert!(!state.has_error(ApplicationError::DHT22_TIMEOUT));
    state.remove_error(ApplicationError::DHT22_TIMEOUT);
    assert!(!state.has_error(ApplicationError::DHT22_TIMEOUT));
}
