use herdr_fleet::text::{blank, trim};
use herdr_fleet::client_state::remote_edit::{
    remote_edit_apply_key, RemoteEditKeyResult, RemoteEditState,
};
use herdr_fleet::fleet::config::RemoteEntry;
use herdr_fleet::input::{KeyCode, KeyModifiers, TerminalKey};

fn key(code: KeyCode) -> TerminalKey {
    TerminalKey::new(code, KeyModifiers::empty())
}

fn ctrl(c: char) -> TerminalKey {
    TerminalKey::new(KeyCode::Char(c), KeyModifiers::control())
}

#[test]
fn dialog_grammar_edits_cycles_submits_and_cancels() {
    let mut state = RemoteEditState::add();
    assert_eq!(state.session, "default");
    assert!(!state.is_edit());

    for c in "gpu-01".chars() {
        assert_eq!(
            remote_edit_apply_key(&mut state, key(KeyCode::Char(c))),
            RemoteEditKeyResult::Edited
        );
    }
    remote_edit_apply_key(&mut state, key(KeyCode::Tab));
    for c in "can@gpu".chars() {
        remote_edit_apply_key(&mut state, key(KeyCode::Char(c)));
    }
    remote_edit_apply_key(&mut state, key(KeyCode::Backspace));
    remote_edit_apply_key(&mut state, key(KeyCode::Backspace));
    remote_edit_apply_key(&mut state, key(KeyCode::Backspace));
    for c in "gpu1.example".chars() {
        remote_edit_apply_key(&mut state, key(KeyCode::Char(c)));
    }
    assert_eq!(state.name, "gpu-01");
    assert_eq!(state.target, "can@gpu1.example");

    // BackTab wraps backwards; Down wraps forwards.
    remote_edit_apply_key(&mut state, key(KeyCode::BackTab));
    assert_eq!(state.focused_field, 0);
    remote_edit_apply_key(&mut state, key(KeyCode::Down));
    remote_edit_apply_key(&mut state, key(KeyCode::Down));
    assert_eq!(state.focused_field, 2);
    remote_edit_apply_key(&mut state, key(KeyCode::Down));
    assert_eq!(state.focused_field, 0);

    assert_eq!(
        remote_edit_apply_key(&mut state, key(KeyCode::Enter)),
        RemoteEditKeyResult::Submit
    );
    assert_eq!(
        remote_edit_apply_key(&mut state, key(KeyCode::Esc)),
        RemoteEditKeyResult::Cancel
    );

    let entry = state.entry().expect("valid entry");
    assert_eq!(entry.name, "gpu-01");
    assert_eq!(entry.target.as_deref(), Some("can@gpu1.example"));
    assert_eq!(entry.session, "default");
    assert!(entry.enabled);
}

#[test]
fn validation_errors_surface_and_typing_clears_them() {
    let mut state = RemoteEditState::add();
    state.name = "has space".to_owned();
    state.target = "host".to_owned();
    let err = state.entry().expect_err("illegal name");
    assert!(err.contains("may only contain"), "{err}");
    state.error = Some(err);
    remote_edit_apply_key(&mut state, key(KeyCode::Char('x')));
    assert_eq!(state.error, None, "typing clears the error row");
}

#[test]
fn an_empty_target_field_saves_a_local_runtime() {
    let mut state = RemoteEditState::add();
    state.name = "local".to_owned();
    let entry = state.entry().expect("a target-less entry is valid");
    assert_eq!(entry.name, "local");
    assert_eq!(entry.target, None);
    assert!(entry.is_local());
    assert_eq!(entry.session, "default");

    // Whitespace is not a target either.
    state.target = "   ".to_owned();
    assert_eq!(state.entry().expect("still local").target, None);

    // Editing one round-trips the field.
    let round_trip = RemoteEditState::edit(&entry);
    assert_eq!(round_trip.target, "", "no target renders as an empty field");
    assert_eq!(round_trip.entry().expect("valid").target, None);
}

#[test]
fn editing_a_disabled_remote_leaves_it_disabled_and_keeps_its_hue() {
    let disabled = RemoteEntry {
        name: "gpu".into(),
        target: Some("can@gpu".into()),
        session: "work".into(),
        enabled: false,
        hue: Some(2),
    };

    let mut state = RemoteEditState::edit(&disabled);
    remote_edit_apply_key(&mut state, key(KeyCode::Tab));
    for c in "-new".chars() {
        remote_edit_apply_key(&mut state, key(KeyCode::Char(c)));
    }

    let edited = state.entry().expect("valid entry");
    assert!(!edited.enabled, "a field edit does not re-enable a remote");
    assert_eq!(edited.hue, Some(2), "a field edit does not recolour it");
    assert_eq!(edited.target.as_deref(), Some("can@gpu-new"));

    // Adding is unaffected: a remote you just added is enabled.
    let mut added = RemoteEditState::add();
    added.name = "new".to_owned();
    let entry = added.entry().expect("valid entry");
    assert!(entry.enabled);
    assert_eq!(entry.hue, None, "the config layer allocates the hue");
}

#[test]
fn remove_applies_only_to_existing_remotes() {
    let mut add = RemoteEditState::add();
    assert_eq!(
        remote_edit_apply_key(&mut add, ctrl('d')),
        RemoteEditKeyResult::Edited,
        "nothing to remove while adding"
    );

    let entry = RemoteEntry {
        name: "gpu".into(),
        target: Some("can@gpu".into()),
        session: "work".into(),
        enabled: true,
        hue: None,
    };
    let mut edit = RemoteEditState::edit(&entry);
    assert!(edit.is_edit());
    assert_eq!(edit.session, "work");
    assert_eq!(
        remote_edit_apply_key(&mut edit, ctrl('d')),
        RemoteEditKeyResult::Remove
    );
}

#[test]
fn backspace_undoes_a_typed_character() {
    let mut state = RemoteEditState::add();
    state.name = "gp".to_owned();
    let before = state.clone();
    remote_edit_apply_key(&mut state, key(KeyCode::Char('ü')));
    assert_eq!(state.name, "gpü");
    remote_edit_apply_key(&mut state, key(KeyCode::Backspace));
    assert_eq!(state, before);
    // Nothing to take off an empty field.
    state.name = String::new();
    remote_edit_apply_key(&mut state, key(KeyCode::Backspace));
    assert_eq!(state.name, "");
}

#[test]
fn fields_are_trimmed_of_unicode_blanks() {
    let mut state = RemoteEditState::add();
    state.name = "\u{2003}gpu\t".to_owned();
    state.target = "\u{00a0}can@gpu \u{3000}".to_owned();
    state.session = "  ".to_owned();
    let entry = state.entry().expect("valid entry");
    assert_eq!(entry.name, "gpu");
    assert_eq!(entry.target.as_deref(), Some("can@gpu"));
    assert_eq!(entry.session, "default");
}

#[test]
fn blanks_are_trimmed_and_nothing_else() {
    let blanks = "\u{9}\u{a}\u{b}\u{c}\u{d} \u{85}\u{a0}\u{1680}\u{2000}\u{200a}\u{2028}\u{2029}\u{202f}\u{205f}\u{3000}";
    assert_eq!(trim(&format!("{blanks}a b{blanks}")), "a b");
    assert_eq!(trim(blanks), "");
    assert_eq!(trim("\u{200b}a\u{180e}"), "\u{200b}a\u{180e}");
    for n in 0..=0x10ffff {
        if let Some(c) = char::from_u32(n) {
            assert_eq!(blank(c), c.is_whitespace(), "{n:x}");
        }
    }
}
