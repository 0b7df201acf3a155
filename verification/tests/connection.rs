use herdr_fleet::client_state::connection::ClientConnectionState;
use herdr_fleet::protocol::framed::{HelloRemedy, NegotiatedSession};

fn negotiated() -> NegotiatedSession {
    NegotiatedSession {
        protocol: 1,
        capabilities: vec!["pane-stream".to_owned(), "catalog".to_owned()],
    }
}

#[test]
fn connect_cycle_reaches_connected() {
    let mut state = ClientConnectionState::new();
    assert!(state.may_retry());
    state.connect_started();
    assert_eq!(state, ClientConnectionState::Connecting { attempt: 1 });
    state.connected(negotiated());
    assert!(state.is_connected());
    assert!(state.negotiated().is_some());
    assert!(!state.may_retry());
}

#[test]
fn failures_escalate_the_attempt_counter() {
    let mut state = ClientConnectionState::new();
    state.connect_started();
    state.connection_failed("refused".to_owned());
    assert_eq!(
        state,
        ClientConnectionState::Offline {
            attempt: 1,
            last_error: "refused".into()
        }
    );
    state.connect_started();
    assert_eq!(state, ClientConnectionState::Connecting { attempt: 2 });
    state.connection_failed("refused again".to_owned());
    assert_eq!(
        state,
        ClientConnectionState::Offline {
            attempt: 2,
            last_error: "refused again".into()
        }
    );
}

#[test]
fn session_drop_after_connected_restarts_the_ladder() {
    let mut state = ClientConnectionState::new();
    state.connect_started();
    state.connected(negotiated());
    state.connection_failed("connection closed".to_owned());
    assert_eq!(
        state,
        ClientConnectionState::Offline {
            attempt: 0,
            last_error: "connection closed".into()
        }
    );
    state.connect_started();
    assert_eq!(state, ClientConnectionState::Connecting { attempt: 1 });
}

#[test]
fn incompatible_is_terminal_for_this_config() {
    let mut state = ClientConnectionState::new();
    state.connect_started();
    state.incompatible(
        HelloRemedy::UpgradeClient,
        "upgrade the herdr client".to_owned(),
    );
    assert!(!state.may_retry());
    assert!(!state.is_connected());
    match &state {
        ClientConnectionState::Incompatible { remedy, message } => {
            assert_eq!(*remedy, HelloRemedy::UpgradeClient);
            assert!(message.contains("upgrade"));
        }
        other => panic!("expected incompatible, got {other:?}"),
    }
}

#[test]
fn a_stopped_server_is_terminal_until_it_is_started() {
    let mut state = ClientConnectionState::new();
    state.connect_started();
    state.stopped("no server running".to_owned());
    assert!(state.is_stopped());
    assert!(!state.may_retry());
    assert!(!state.is_connecting());
    assert!(!state.has_capability("catalog"));
}
