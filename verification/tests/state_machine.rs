use controlzone::error::CzError;
use controlzone::state::State;

#[test]
fn legal_transition_is_not_stale() {
    assert_eq!(State::Pending.check_update(State::Created), Ok(false));
}

#[test]
fn same_state_request_is_stale() {
    assert_eq!(State::Running.check_update(State::Running), Ok(true));
}

#[test]
fn illegal_jump_is_refused() {
    assert_eq!(
        State::Pending.check_update(State::Running),
        Err(CzError::IllegalTransition { from: State::Pending, to: State::Running })
    );
}

#[test]
fn every_edge_of_the_table() {
    assert_eq!(State::Pending.check_update(State::Created), Ok(false));
    assert_eq!(State::Created.check_update(State::Running), Ok(false));
    assert_eq!(State::Running.check_update(State::Stopped), Ok(false));
    assert_eq!(State::Running.check_update(State::Error), Ok(false));
    assert_eq!(State::Stopped.check_update(State::Running), Ok(false));
    assert_eq!(State::Stopped.check_update(State::Zombied), Ok(false));
    assert_eq!(State::Created.check_update(State::Zombied), Ok(false));
}

#[test]
fn some_edges_outside_the_table() {
    assert!(State::Pending.check_update(State::Stopped).is_err());
    assert!(State::Created.check_update(State::Stopped).is_err());
    assert!(State::Zombied.check_update(State::Running).is_err());
    assert!(State::Error.check_update(State::Running).is_err());
    assert!(State::Running.check_update(State::Zombied).is_err());
    assert!(State::Running.check_update(State::Created).is_err());
}

#[test]
fn state_text_round_trips() {
    for s in [
        State::Pending,
        State::Created,
        State::Running,
        State::Stopped,
        State::Zombied,
        State::Error,
    ] {
        let text = s.to_text();
        assert_eq!(State::from_text(&text), Ok(s));
    }
    assert_eq!(State::Pending.to_text(), "Pending");
    assert_eq!(State::Running.to_text(), "Running");
}

#[test]
fn unknown_state_text_is_refused() {
    assert_eq!(State::from_text("running"), Err(CzError::InvalidState));
    assert_eq!(State::from_text(""), Err(CzError::InvalidState));
    assert_eq!(State::from_text("Pending "), Err(CzError::InvalidState));
}

#[test]
fn default_state_is_pending() {
    assert_eq!(State::default(), State::Pending);
}
