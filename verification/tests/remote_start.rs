use herdr_fleet::client_state::remote_start::{
    remote_start_apply_key, RemoteStartKeyResult, RemoteStartPrompt,
};
use herdr_fleet::input::{KeyCode, KeyModifiers, TerminalKey};

fn key(code: KeyCode) -> TerminalKey {
    TerminalKey::new(code, KeyModifiers::empty())
}

fn ctrl(c: char) -> TerminalKey {
    TerminalKey::new(KeyCode::Char(c), KeyModifiers::control())
}

fn prompt(starting: bool) -> RemoteStartPrompt {
    RemoteStartPrompt {
        remote: 1,
        name: "gpu-1".into(),
        status: "no server running".into(),
        error: None,
        starting,
    }
}

#[test]
fn a_start_in_flight_refuses_a_second_yes() {
    let busy = prompt(true);
    for approve in [KeyCode::Enter, KeyCode::Char('y')] {
        assert_eq!(
            remote_start_apply_key(&busy, key(approve)),
            RemoteStartKeyResult::Ignored,
            "{approve:?}"
        );
    }
    assert_eq!(
        remote_start_apply_key(&busy, key(KeyCode::Esc)),
        RemoteStartKeyResult::Dismiss,
        "walking away stays available while a start is in flight"
    );
}

#[test]
fn only_an_unambiguous_yes_starts_a_remote() {
    for approve in [KeyCode::Enter, KeyCode::Char('y'), KeyCode::Char('Y')] {
        assert_eq!(
            remote_start_apply_key(&prompt(false), key(approve)),
            RemoteStartKeyResult::Start,
            "{approve:?}"
        );
    }
    for dismiss in [
        KeyCode::Esc,
        KeyCode::Char('n'),
        KeyCode::Char('N'),
        KeyCode::Char('q'),
    ] {
        assert_eq!(
            remote_start_apply_key(&prompt(false), key(dismiss)),
            RemoteStartKeyResult::Dismiss,
            "{dismiss:?}"
        );
    }
    for ignored in [KeyCode::Tab, KeyCode::Char('x'), KeyCode::Backspace] {
        assert_eq!(
            remote_start_apply_key(&prompt(false), key(ignored)),
            RemoteStartKeyResult::Ignored,
            "{ignored:?}"
        );
    }
    // Ctrl-y is a terminal control code, not approval.
    assert_eq!(
        remote_start_apply_key(&prompt(false), ctrl('y')),
        RemoteStartKeyResult::Ignored
    );
}
