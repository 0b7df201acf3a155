use herdr_fleet::client_state::fleet_view::remote_descriptors;
use herdr_fleet::client_state::mirror::{RemoteMirror, RemoteMirrors};
use herdr_fleet::client_state::remote_list::{
    remote_list_apply_key, remote_list_rows, RemoteListKeyResult, RemoteListRow, RemoteListState,
    RemoteListStatus,
};
use herdr_fleet::fleet::config::{MoveDirection, RemoteEntry};
use herdr_fleet::input::{KeyCode, KeyModifiers, TerminalKey};

fn key(code: KeyCode) -> TerminalKey {
    TerminalKey::new(code, KeyModifiers::empty())
}

fn shift(code: KeyCode) -> TerminalKey {
    TerminalKey::new(code, KeyModifiers::shift())
}

fn entry(name: &str, enabled: bool) -> RemoteEntry {
    RemoteEntry {
        name: name.to_owned(),
        target: Some(format!("can@{name}.example")),
        session: "default".to_owned(),
        enabled,
        hue: None,
    }
}

fn row(name: &str, enabled: bool, status: RemoteListStatus) -> RemoteListRow {
    RemoteListRow {
        entry: entry(name, enabled),
        status,
    }
}

fn three() -> RemoteListState {
    RemoteListState::new(vec![
        row("a", true, RemoteListStatus::Connected),
        row("b", false, RemoteListStatus::Disabled),
        row("c", true, RemoteListStatus::Stopped),
    ])
}

#[test]
fn selection_moves_and_clamps_at_both_ends() {
    let mut state = three();
    assert_eq!(state.selected, 0);

    assert_eq!(
        remote_list_apply_key(&mut state, key(KeyCode::Up)),
        RemoteListKeyResult::Consumed
    );
    assert_eq!(state.selected, 0, "clamps at the top");

    remote_list_apply_key(&mut state, key(KeyCode::Down));
    remote_list_apply_key(&mut state, key(KeyCode::Down));
    assert_eq!(state.selected, 2);
    remote_list_apply_key(&mut state, key(KeyCode::Down));
    assert_eq!(state.selected, 2, "clamps at the bottom");

    remote_list_apply_key(&mut state, key(KeyCode::Home));
    assert_eq!(state.selected, 0);
    remote_list_apply_key(&mut state, key(KeyCode::End));
    assert_eq!(state.selected, 2);
}

#[test]
fn every_action_is_keyed_by_name_not_by_row() {
    let mut state = three();
    state.selected = 1;

    assert_eq!(
        remote_list_apply_key(&mut state, shift(KeyCode::Up)),
        RemoteListKeyResult::Reorder("b".into(), MoveDirection::Up)
    );
    assert_eq!(
        remote_list_apply_key(&mut state, shift(KeyCode::Down)),
        RemoteListKeyResult::Reorder("b".into(), MoveDirection::Down)
    );
    assert_eq!(
        remote_list_apply_key(&mut state, key(KeyCode::Char(' '))),
        RemoteListKeyResult::ToggleEnabled("b".into())
    );
    assert_eq!(
        remote_list_apply_key(&mut state, key(KeyCode::Enter)),
        RemoteListKeyResult::Edit("b".into())
    );
    assert_eq!(
        remote_list_apply_key(&mut state, key(KeyCode::Char('s'))),
        RemoteListKeyResult::StartStop("b".into())
    );
    assert_eq!(
        remote_list_apply_key(&mut state, key(KeyCode::Delete)),
        RemoteListKeyResult::Remove("b".into())
    );
    assert_eq!(
        remote_list_apply_key(
            &mut state,
            TerminalKey::new(KeyCode::Char('d'), KeyModifiers::control())
        ),
        RemoteListKeyResult::Remove("b".into())
    );
}

#[test]
fn escape_and_q_close_without_reverting() {
    let mut state = three();
    assert_eq!(
        remote_list_apply_key(&mut state, key(KeyCode::Esc)),
        RemoteListKeyResult::Close
    );
    assert_eq!(
        remote_list_apply_key(&mut state, key(KeyCode::Char('q'))),
        RemoteListKeyResult::Close
    );
}

#[test]
fn an_empty_fleet_swallows_actions_rather_than_naming_nothing() {
    let mut state = RemoteListState::new(Vec::new());
    for code in [
        KeyCode::Enter,
        KeyCode::Char(' '),
        KeyCode::Char('s'),
        KeyCode::Delete,
    ] {
        assert_eq!(
            remote_list_apply_key(&mut state, key(code)),
            RemoteListKeyResult::Consumed
        );
    }
    assert_eq!(state.selected, 0);
}

#[test]
fn a_reload_keeps_the_selection_on_the_entry_the_user_picked() {
    let mut state = three();
    state.selected = 2;
    assert_eq!(state.selected_name(), Some("c"));

    // A commit reordered the list; selection follows the name.
    state.reload(vec![
        row("c", true, RemoteListStatus::Stopped),
        row("a", true, RemoteListStatus::Connected),
        row("b", false, RemoteListStatus::Disabled),
    ]);
    assert_eq!(state.selected, 0);
    assert_eq!(state.selected_name(), Some("c"));

    // Something else removed it: fall back to the nearest surviving row
    // rather than jumping to the top.
    state.selected = 2;
    state.reload(vec![
        row("c", true, RemoteListStatus::Stopped),
        row("a", true, RemoteListStatus::Connected),
    ]);
    assert_eq!(state.selected, 1);

    state.reload(Vec::new());
    assert_eq!(state.selected, 0, "an empty fleet has nowhere to be");
    assert_eq!(state.selected_name(), None);
}

#[test]
fn an_error_from_a_refused_write_survives_until_the_next_move() {
    let mut state = three();
    state.error = Some("duplicate remote name 'a'".to_owned());

    // Asking for another write does not clear it; the write's own outcome
    // will.
    remote_list_apply_key(&mut state, key(KeyCode::Enter));
    assert!(state.error.is_some(), "the modal stays open with its error");

    remote_list_apply_key(&mut state, key(KeyCode::Down));
    assert_eq!(state.error, None, "moving on clears it");
}

#[test]
fn rows_show_every_entry_with_its_live_status() {
    let entries = vec![
        entry("a", true),
        entry("dark", false),
        entry("b", true),
        entry("c", true),
    ];
    let descriptors = remote_descriptors(&entries);
    let mut mirrors = RemoteMirrors::new();
    let mut stopped = RemoteMirror::new(1, "b".to_owned());
    stopped.connection.stopped("no server running".to_owned());
    let mut connecting = RemoteMirror::new(0, "a".to_owned());
    connecting.connection.connect_started();
    mirrors.insert(connecting);
    mirrors.insert(stopped);
    let rows = remote_list_rows(&entries, &descriptors, &mirrors);
    let statuses: Vec<RemoteListStatus> = rows.iter().map(|r| r.status).collect();
    assert_eq!(
        statuses,
        vec![
            RemoteListStatus::Connecting,
            RemoteListStatus::Disabled,
            RemoteListStatus::Stopped,
            RemoteListStatus::Unknown,
        ]
    );
    let names: Vec<&str> = rows.iter().map(|r| r.entry.name.as_str()).collect();
    assert_eq!(names, vec!["a", "dark", "b", "c"]);
}
