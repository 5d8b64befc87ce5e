use ap_telemetry::bringup::{BringupAction, BringupError, BringupState};

#[test]
fn successful_path_visits_each_stage_once_in_order() {
    let mut state = BringupState::new();
    let mut visited = vec![state];
    let mut actions = Vec::new();
    while let Some(action) = state.next_action() {
        actions.push(action);
        state = state.advance(true);
        visited.push(state);
    }
    assert_eq!(
        visited,
        vec![
            BringupState::Idle,
            BringupState::Configured,
            BringupState::Started,
            BringupState::LinkUp,
        ]
    );
    assert_eq!(
        actions,
        vec![
            BringupAction::ApplyConfiguration,
            BringupAction::StartRadio,
            BringupAction::WaitForLink,
        ]
    );
    assert_eq!(state.outcome(), Some(Ok(())));
}

#[test]
fn failure_at_start_goes_straight_to_failed() {
    let configured = BringupState::Idle.advance(true);
    assert_eq!(configured, BringupState::Configured);
    let failed = configured.advance(false);
    assert_eq!(failed, BringupState::Failed(BringupError::StartFailed));
    assert!(failed.is_terminal());
    assert_eq!(failed.next_action(), None);
    assert_eq!(failed.outcome(), Some(Err(BringupError::StartFailed)));
}

#[test]
fn rejected_configuration_fails_at_once() {
    let failed = BringupState::Idle.advance(false);
    assert_eq!(failed, BringupState::Failed(BringupError::ConfigurationRejected));
}

#[test]
fn link_wait_failure_is_a_timeout() {
    let failed = BringupState::Started.advance(false);
    assert_eq!(failed, BringupState::Failed(BringupError::LinkWaitTimedOut));
}

#[test]
fn terminal_states_are_never_left() {
    for state in [
        BringupState::LinkUp,
        BringupState::Failed(BringupError::ConfigurationRejected),
        BringupState::Failed(BringupError::StartFailed),
        BringupState::Failed(BringupError::LinkWaitTimedOut),
    ] {
        assert!(state.is_terminal());
        assert_eq!(state.advance(true), state);
        assert_eq!(state.advance(false), state);
        assert_eq!(state.next_action(), None);
    }
}

#[test]
fn running_states_have_no_outcome_yet() {
    for state in [BringupState::Idle, BringupState::Configured, BringupState::Started] {
        assert!(!state.is_terminal());
        assert_eq!(state.outcome(), None);
    }
}

#[test]
fn tuning_is_due_only_when_started() {
    assert!(BringupState::Started.wants_stability_tuning());
    assert!(!BringupState::Idle.wants_stability_tuning());
    assert!(!BringupState::Configured.wants_stability_tuning());
    assert!(!BringupState::LinkUp.wants_stability_tuning());
    assert!(!BringupState::Failed(BringupError::StartFailed).wants_stability_tuning());
}

#[test]
fn bringup_errors_have_distinct_messages() {
    assert_eq!(
        BringupError::ConfigurationRejected.message(),
        "configuration rejected by the radio subsystem"
    );
    assert_eq!(BringupError::StartFailed.message(), "access point failed to start");
    assert_eq!(
        BringupError::LinkWaitTimedOut.message(),
        "timed out waiting for the network interface"
    );
}
