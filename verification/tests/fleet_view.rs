use herdr_fleet::client_state::fleet_view::{
    labeled_notification_message, remote_chip_states, remote_descriptors, select_window_title,
    FleetSelection, RemoteChipConnection, RemoteDescriptor,
};
use herdr_fleet::client_state::mirror::{RemoteMirror, RemoteMirrors, LOCAL_REMOTE_INDEX};
use herdr_fleet::fleet::config::RemoteEntry;
use herdr_fleet::protocol::framed::{HelloRemedy, NegotiatedSession};
use herdr_fleet::protocol::hello::FRAMED_PROTOCOL_VERSION;
use herdr_fleet::sorted_map::SortedMap;

fn entry(name: &str, enabled: bool) -> RemoteEntry {
    RemoteEntry {
        name: name.to_owned(),
        target: Some(format!("can@{name}.example")),
        session: "work".to_owned(),
        enabled,
        hue: None,
    }
}

fn local(name: &str) -> RemoteEntry {
    RemoteEntry {
        name: name.to_owned(),
        target: None,
        session: "default".to_owned(),
        enabled: true,
        hue: None,
    }
}

#[test]
fn descriptors_are_exactly_the_enabled_entries_in_config_order() {
    let descriptors = remote_descriptors(&[
        entry("buildbox", true),
        entry("dark", false),
        entry("gpu-01", true),
    ]);
    let names: Vec<&str> = descriptors.iter().map(|d| d.name.as_str()).collect();
    assert_eq!(names, vec!["buildbox", "gpu-01"]);
    assert!(remote_descriptors(&[]).is_empty(), "no implicit runtime");

    // A target-less entry is a local runtime, wherever config puts it.
    let mixed = remote_descriptors(&[entry("gpu-01", true), local("me")]);
    assert_eq!(mixed[1].name, "me");
    assert_eq!(mixed[1].target, None, "no ssh for a local runtime");
    assert_eq!(mixed[1].index, 1);

    let descriptors = remote_descriptors(&[
        local("me"),
        entry("buildbox", true),
        entry("dark", false),
        entry("gpu-01", true),
    ]);
    let names: Vec<&str> = descriptors.iter().map(|d| d.name.as_str()).collect();
    assert_eq!(names, vec!["me", "buildbox", "gpu-01"]);
    let indices: Vec<usize> = descriptors.iter().map(|d| d.index).collect();
    assert_eq!(indices, vec![0, 1, 2]);
    assert_eq!(descriptors[0].target, None);
    assert_eq!(descriptors[2].target.as_deref(), Some("can@gpu-01.example"));
    assert_eq!(descriptors[2].hue_index, 2);
}

#[test]
fn an_ephemeral_remote_is_a_fleet_of_one_at_index_zero() {
    let descriptor = RemoteDescriptor::ephemeral(
        "buildbox.example".to_owned(),
        "can@buildbox.example".to_owned(),
        "work".to_owned(),
        Some("/home/can/.local/bin/herdr".to_string()),
    );
    // Remote #0 with an ssh target: there is no local runtime in view, so the
    // bridge transport is chosen by the target, not the index.
    assert_eq!(descriptor.index, LOCAL_REMOTE_INDEX);
    assert_eq!(descriptor.target.as_deref(), Some("can@buildbox.example"));
    assert_eq!(descriptor.session, "work");
    assert_eq!(
        descriptor.program.as_deref(),
        Some("/home/can/.local/bin/herdr")
    );
    assert!(remote_descriptors(&[entry("a", true)])[0].program.is_none());
}

#[test]
fn toggle_filters_without_ever_emptying_the_view() {
    let descriptors = remote_descriptors(&[local("me"), entry("a", true), entry("b", true)]);
    let mut selection = FleetSelection::new();
    assert!(selection.is_in_view(0) && selection.is_in_view(1) && selection.is_in_view(2));

    selection.toggle(1, &descriptors).expect("filter b out");
    assert!(!selection.is_in_view(1));
    selection.toggle(0, &descriptors).expect("filter local out");
    assert_eq!(
        selection.toggle(2, &descriptors),
        Err("at least one remote stays in view"),
        "the last remote in view cannot be filtered out"
    );
    assert!(selection.is_in_view(2));

    selection.toggle(0, &descriptors).expect("local back in");
    assert!(selection.is_in_view(0));
}

#[test]
fn solo_leaves_exactly_one_remote_in_view_and_focuses_it() {
    let descriptors = remote_descriptors(&[local("me"), entry("a", true), entry("b", true)]);
    let mut selection = FleetSelection::new();
    selection.solo(1, &descriptors);
    assert!(!selection.is_in_view(0));
    assert!(selection.is_in_view(1));
    assert!(!selection.is_in_view(2));
    assert_eq!(selection.focused_remote, 1);
    assert_eq!(selection.effective_focused_remote(&descriptors), 1);

    // Toggling another remote back in un-solos without dropping a.
    selection.toggle(2, &descriptors).expect("b back in view");
    assert_eq!(selection.in_view(&descriptors).len(), 2);
}

#[test]
fn focused_remote_falls_back_to_the_first_in_view() {
    let descriptors = remote_descriptors(&[local("me"), entry("a", true)]);
    let mut selection = FleetSelection::new();
    selection.focused_remote = 1;
    assert_eq!(selection.effective_focused_remote(&descriptors), 1);
    selection.toggle(1, &descriptors).expect("filter a out");
    assert_eq!(
        selection.effective_focused_remote(&descriptors),
        0,
        "a filtered-out remote cannot keep the focus"
    );
}

#[test]
fn remap_drops_selection_state_for_removed_remotes() {
    let descriptors = remote_descriptors(&[local("me"), entry("a", true), entry("b", true)]);
    let mut selection = FleetSelection::new();
    selection.solo(2, &descriptors);

    // b is removed from the config: the solo selection must repair.
    let shrunk = remote_descriptors(&[local("me"), entry("a", true)]);
    selection.remap(&descriptors, &shrunk);
    assert!(descriptors.len() > shrunk.len());
    assert_eq!(selection.effective_focused_remote(&shrunk), 0);
    assert!(selection.is_in_view(0) || selection.is_in_view(1));
}

#[test]
fn remap_keys_selection_by_remote_identity_across_removals() {
    let was = remote_descriptors(&[local("me"), entry("buildbox", true), entry("gpu-01", true)]);
    let mut selection = FleetSelection::new();
    selection.toggle(1, &was).expect("hide buildbox");
    selection.focused_remote = 2; // gpu-01

    // buildbox is removed: gpu-01 shifts from index 2 to index 1 and must
    // carry its own selection state, not inherit buildbox's.
    let now = remote_descriptors(&[local("me"), entry("gpu-01", true)]);
    selection.remap(&was, &now);
    assert!(
        selection.is_in_view(1),
        "gpu-01 must not inherit buildbox's hidden state"
    );
    assert_eq!(
        selection.focused_remote, 1,
        "focus follows gpu-01 to its new index"
    );
    assert_eq!(selection.effective_focused_remote(&now), 1);
}

#[test]
fn chip_states_carry_connection_membership_and_hue() {
    let descriptors = remote_descriptors(&[local("me"), entry("a", true), entry("b", true)]);
    let mut selection = FleetSelection::new();
    selection.toggle(2, &descriptors).expect("filter b");

    let mut mirrors = RemoteMirrors::with_local();
    mirrors.insert(RemoteMirror::new(1, "a".to_owned()));
    mirrors.insert(RemoteMirror::new(2, "b".to_owned()));
    if let Some(mirror) = mirrors.get_mut(LOCAL_REMOTE_INDEX) {
        mirror.connection.connect_started();
        mirror.connection.connected(NegotiatedSession {
            protocol: FRAMED_PROTOCOL_VERSION,
            capabilities: Vec::new(),
        });
    }
    if let Some(mirror) = mirrors.get_mut(1) {
        mirror.connection.connect_started();
    }
    if let Some(mirror) = mirrors.get_mut(2) {
        mirror.connection.incompatible(
            HelloRemedy::UpgradeServer,
            "windows do not overlap".to_owned(),
        );
    }

    let chips = remote_chip_states(&mirrors, &descriptors, &selection);
    assert_eq!(chips.len(), 3);
    assert_eq!(chips[0].connection, RemoteChipConnection::Connected);
    assert!(chips[0].in_view);
    assert_eq!(chips[1].connection, RemoteChipConnection::Connecting);
    assert_eq!(chips[2].connection, RemoteChipConnection::Incompatible);
    assert!(!chips[2].in_view, "filtered chip stays configured");
    assert_eq!(chips[2].hue_index, 2);
}

#[test]
fn window_title_selection_follows_the_focused_remote() {
    let mut titles: SortedMap<usize, String> = SortedMap::new();
    titles.insert(0, "local title".to_owned());
    titles.insert(1, "gpu title".to_owned());
    assert_eq!(select_window_title(&titles, 1), Some("gpu title"));
    assert_eq!(select_window_title(&titles, 0), Some("local title"));
    assert_eq!(select_window_title(&titles, 2), None);
}

#[test]
fn notification_labels_name_the_remote_only_in_a_real_fleet() {
    assert_eq!(
        labeled_notification_message("gpu-01", 3, "agent done"),
        "[gpu-01] agent done"
    );
    assert_eq!(
        labeled_notification_message("local", 3, "agent done"),
        "[local] agent done",
        "the local runtime is labeled like any other fleet member"
    );
    assert_eq!(
        labeled_notification_message("gpu-01", 1, "agent done"),
        "agent done",
        "single-remote fleets stay exactly as today"
    );
}

#[test]
fn toggling_twice_changes_nothing() {
    let descriptors = remote_descriptors(&[local("me"), entry("a", true)]);
    let mut selection = FleetSelection::new();
    selection.toggle(1, &descriptors).expect("out");
    selection.toggle(1, &descriptors).expect("in");
    assert_eq!(selection, FleetSelection::new());
    assert_eq!(selection.in_view(&descriptors).len(), 2);
}
