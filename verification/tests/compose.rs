use herdr_fleet::api::method::Method;
use herdr_fleet::api::schema::{
    AgentStatus, EventData, EventEnvelope, LayoutPane, LayoutRect, LayoutSplit, PaneInfo,
    PaneLayoutSnapshot, SessionSnapshot, SplitDirection, TabInfo, WorkspaceInfo,
};
use herdr_fleet::client_state::app_state::{AppState, Binding, Direction, Node};
use herdr_fleet::client_state::chrome::GlobalChrome;
use herdr_fleet::client_state::compose::{
    compose_fleet_into, compose_into, composed_terminal_id, creation_target_remote,
    public_id_number, scoped_id,
};
use herdr_fleet::client_state::compose_ids::ComposeIds;
use herdr_fleet::client_state::fleet_view::{
    remote_descriptors, RemoteChipConnection, RemoteDescriptor,
};
use herdr_fleet::client_state::intent::{mouse_intent_method, prefix_intent_method, MouseAction};
use herdr_fleet::client_state::layout::{nest_panes, parse_split_path, rebuild_tree};
use herdr_fleet::client_state::mirror::{RemoteMirror, RemoteMirrors};
use herdr_fleet::fleet::config::RemoteEntry;
use herdr_fleet::input::{KeyCode, KeyModifiers, TerminalKey};
use herdr_fleet::protocol::framed::{NegotiatedSession, CAPABILITY_PANE_STREAM};
use herdr_fleet::protocol::hello::FRAMED_PROTOCOL_VERSION;

fn workspace(id: &str, number: usize, label: &str, focused: bool, tab: &str, status: AgentStatus) -> WorkspaceInfo {
    WorkspaceInfo {
        workspace_id: id.to_owned(),
        number,
        label: label.to_owned(),
        focused,
        pane_count: 1,
        tab_count: 1,
        active_tab_id: tab.to_owned(),
        agent_status: status,
    }
}

fn tab(id: &str, workspace_id: &str, number: usize, label: &str, focused: bool) -> TabInfo {
    TabInfo {
        tab_id: id.to_owned(),
        workspace_id: workspace_id.to_owned(),
        number,
        label: label.to_owned(),
        focused,
        pane_count: 1,
        agent_status: AgentStatus::Idle,
    }
}

fn pane(id: &str, terminal: &str, workspace_id: &str, tab_id: &str, focused: bool, revision: u64) -> PaneInfo {
    PaneInfo {
        pane_id: id.to_owned(),
        terminal_id: terminal.to_owned(),
        workspace_id: workspace_id.to_owned(),
        tab_id: tab_id.to_owned(),
        focused,
        agent_status: AgentStatus::Idle,
        revision,
        agent: None,
        title: None,
        display_agent: None,
        state_labels: Vec::new(),
        cwd: None,
        terminal_title: None,
        label: None,
    }
}

fn canned_snapshot(pane_id: &str, label: &str) -> SessionSnapshot {
    SessionSnapshot {
        focused_workspace_id: Some("ws_1".to_owned()),
        focused_tab_id: Some("t_1_1".to_owned()),
        focused_pane_id: Some(pane_id.to_owned()),
        workspaces: vec![workspace("ws_1", 1, label, true, "t_1_1", AgentStatus::Idle)],
        tabs: vec![tab("t_1_1", "ws_1", 1, "shell", true)],
        panes: vec![pane(pane_id, "term_1", "ws_1", "t_1_1", true, 1)],
        layouts: Vec::new(),
    }
}

fn connect(mirror: &mut RemoteMirror) {
    mirror.connection.connect_started();
    mirror.connection.connected(NegotiatedSession {
        protocol: FRAMED_PROTOCOL_VERSION,
        capabilities: vec![CAPABILITY_PANE_STREAM.to_owned()],
    });
}

/// Duplicate labels, lookalike ids, unordered numbers, focus spread across
/// entries.
fn adversarial_mirror() -> RemoteMirror {
    let mut mirror = RemoteMirror::local();
    connect(&mut mirror);
    mirror.catalog.resync(
        SessionSnapshot {
            focused_workspace_id: Some("ws_2".to_owned()),
            focused_tab_id: Some("t_2_1".to_owned()),
            focused_pane_id: Some("p_2_1".to_owned()),
            workspaces: vec![
                workspace("ws_2", 2, "repo", true, "t_2_1", AgentStatus::Working),
                workspace("ws_10", 1, "repo", false, "t_10_1", AgentStatus::Idle),
            ],
            tabs: vec![
                tab("t_2_1", "ws_2", 1, "tab", true),
                tab("t_10_1", "ws_10", 1, "tab", false),
            ],
            panes: vec![
                pane("p_2_1", "term_21", "ws_2", "t_2_1", true, 7),
                pane("p_2_10", "term_210", "ws_2", "t_2_1", false, 1),
                pane("p_10_1", "term_101", "ws_10", "t_10_1", false, 3),
            ],
            layouts: Vec::new(),
        },
        41,
    );
    mirror
}

fn rect(x: u16, width: u16) -> LayoutRect {
    LayoutRect { x, y: 0, width, height: 20 }
}

fn mirror_with_layout() -> RemoteMirror {
    let mut mirror = adversarial_mirror();
    mirror.catalog.layouts.push(PaneLayoutSnapshot {
        workspace_id: "ws_2".to_owned(),
        tab_id: "t_2_1".to_owned(),
        zoomed: false,
        area: rect(0, 80),
        focused_pane_id: "p_2_1".to_owned(),
        panes: vec![
            LayoutPane { pane_id: "p_2_1".to_owned(), focused: true, rect: rect(0, 40) },
            LayoutPane { pane_id: "p_2_10".to_owned(), focused: false, rect: rect(40, 40) },
        ],
        splits: vec![LayoutSplit {
            id: "split_0_root".to_owned(),
            direction: SplitDirection::Right,
            ratio_bits: 0.5f32.to_bits(),
            rect: rect(40, 1),
        }],
    });
    mirror
}

fn leaves(node: &Node, out: &mut Vec<usize>) {
    match node {
        Node::Pane(id) => out.push(*id),
        Node::Split { first, second, .. } => {
            leaves(first, out);
            leaves(second, out);
        }
    }
}

fn pane_ids(app: &AppState, ws: usize, tab: usize) -> Vec<usize> {
    let mut out = Vec::new();
    leaves(&app.workspaces[ws].tabs[tab].layout.root, &mut out);
    out
}

#[test]
fn compose_projects_the_catalog_into_app_state() {
    let mirror = mirror_with_layout();
    let chrome = GlobalChrome::new();
    let mut ids = ComposeIds::new();
    let mut app = AppState::empty();

    compose_into(&mirror, &chrome, &mut ids, &mut app);

    assert_eq!(app.workspaces.len(), 2);
    assert_eq!(app.active, Some(0), "focused workspace ws_2 leads");
    assert_eq!(app.workspaces[0].id, "ws_2");
    assert_eq!(app.workspaces[0].tabs.len(), 1);
    assert_eq!(pane_ids(&app, 0, 0).len(), 2);
    assert_eq!(app.terminals.len(), 3);

    // The exact split tree came back from the snapshot.
    match &app.workspaces[0].tabs[0].layout.root {
        Node::Split { direction, ratio_bits, .. } => {
            assert_eq!(*direction, Direction::Horizontal);
            assert_eq!(*ratio_bits, 0.5f32.to_bits());
        }
        other => panic!("expected a split, got {other:?}"),
    }
    let focused = app.workspaces[0].focused_pane_id().expect("focused pane");
    assert_eq!(ids.public_pane_id(focused), Some((0, "p_2_1")));

    // Composition is stable: pane ids survive a recompose.
    let before = pane_ids(&app, 0, 0);
    let mut app2 = AppState::empty();
    compose_into(&mirror, &chrome, &mut ids, &mut app2);
    assert_eq!(pane_ids(&app2, 0, 0), before);
}

#[test]
fn pane_focused_events_move_the_composed_focus() {
    let mut mirror = mirror_with_layout();
    let chrome = GlobalChrome::new();
    let mut ids = ComposeIds::new();
    let mut app = AppState::empty();
    compose_into(&mirror, &chrome, &mut ids, &mut app);
    let focused = app.workspaces[0].focused_pane_id().expect("focused pane");
    assert_eq!(ids.public_pane_id(focused), Some((0, "p_2_1")));

    // The server emits pane_focused without a layout.updated; the stale
    // layout snapshot must not pin the composed focus to the old pane.
    let focused_event = EventEnvelope {
        data: EventData::PaneFocused {
            pane_id: "p_2_10".to_owned(),
            workspace_id: "ws_2".to_owned(),
        },
    };
    assert!(mirror.catalog.apply(42, focused_event));

    compose_into(&mirror, &chrome, &mut ids, &mut app);
    let focused = app.workspaces[0].focused_pane_id().expect("focused pane");
    assert_eq!(
        ids.public_pane_id(focused),
        Some((0, "p_2_10")),
        "composed focus must follow pane_focused events, not the stale layout snapshot"
    );
}

#[test]
fn split_paths_parse_back_into_tree_positions() {
    assert_eq!(parse_split_path("split_0_root"), Some(Vec::new()));
    assert_eq!(parse_split_path("split_3_01"), Some(vec![false, true]));
    assert_eq!(parse_split_path("nonsense"), None);
}

fn connected_remote_mirror(index: usize, name: &str, label: &str) -> RemoteMirror {
    let mut mirror = RemoteMirror::new(index, name.to_owned());
    connect(&mut mirror);
    mirror.catalog.resync(canned_snapshot("p_1_1", label), 1);
    mirror
}

fn remote(name: &str) -> RemoteEntry {
    RemoteEntry {
        name: name.to_owned(),
        target: Some(format!("can@{name}.example")),
        session: "default".to_owned(),
        enabled: true,
        hue: None,
    }
}

fn fleet_fixture() -> (RemoteMirrors, Vec<RemoteDescriptor>) {
    let mut mirrors = RemoteMirrors::new();
    mirrors.insert(adversarial_mirror());
    mirrors.insert(connected_remote_mirror(1, "buildbox", "builds"));
    // gpu-01 dropped offline after syncing: its last-known catalog stays
    // composed, its chip dot goes hollow.
    let mut offline = connected_remote_mirror(2, "gpu-01", "training");
    offline.connection_lost("bridge closed".to_owned());
    mirrors.insert(offline);
    let local = RemoteEntry { target: None, ..remote("local") };
    let descriptors = remote_descriptors(&[local, remote("buildbox"), remote("gpu-01")]);
    (mirrors, descriptors)
}

fn workspace_ids(app: &AppState) -> Vec<&str> {
    app.workspaces.iter().map(|ws| ws.id.as_str()).collect()
}

#[test]
fn fleet_composition_is_flat_ordered_and_attributed() {
    let (mirrors, descriptors) = fleet_fixture();
    let chrome = GlobalChrome::new();
    let mut ids = ComposeIds::new();
    let mut app = AppState::empty();

    compose_fleet_into(&mirrors, &descriptors, &chrome, &mut ids, &mut app);

    // Flat, in descriptor order: local's two spaces, then one per remote.
    assert_eq!(workspace_ids(&app), vec!["ws_2", "ws_10", "r1:ws_1", "r2:ws_1"]);
    assert_eq!(app.active, Some(0), "local is focused; its ws_2 leads");

    // Every space carries its remote tag (2+ remotes in view).
    let tags: Vec<(&str, usize)> = app
        .workspace_remote_tags
        .iter()
        .map(|tag| (tag.name.as_str(), tag.hue_index))
        .collect();
    assert_eq!(
        tags,
        vec![("local", 0), ("local", 0), ("buildbox", 1), ("gpu-01", 2)]
    );

    // Owners map back to the remotes' own public ids for the control plane.
    assert_eq!(ids.workspace_owner(0), Some((0, "ws_2")));
    assert_eq!(ids.workspace_owner(2), Some((1, "ws_1")));
    assert_eq!(ids.workspace_owner(3), Some((2, "ws_1")));

    // Chips: all three configured remotes, connection state in the dot.
    assert_eq!(app.remote_chips.len(), 3);
    assert!(app.remote_chips.iter().all(|chip| chip.in_view));
    assert_eq!(app.remote_chips[1].connection, RemoteChipConnection::Connected);
    assert_eq!(app.remote_chips[2].connection, RemoteChipConnection::Offline);

    // Terminals are remote-scoped so equal server ids never collide.
    assert!(app.terminals.entries.iter().any(|e| e.0.contains("r1:term_1")));
    assert!(app.terminals.entries.iter().any(|e| e.0.contains("r2:term_1")));
}

#[test]
fn chip_filtering_recomposes_without_touching_mirrors() {
    let (mirrors, descriptors) = fleet_fixture();
    let mut chrome = GlobalChrome::new();
    let mut ids = ComposeIds::new();
    let mut app = AppState::empty();

    // Filter local out: focus falls to the first remote in view.
    chrome
        .selection
        .toggle(0, &descriptors)
        .expect("local out of view");
    compose_fleet_into(&mirrors, &descriptors, &chrome, &mut ids, &mut app);
    assert_eq!(workspace_ids(&app), vec!["r1:ws_1", "r2:ws_1"]);
    assert_eq!(app.active, Some(0), "buildbox's focused space leads");
    assert_eq!(app.workspace_remote_tags.len(), 2, "still a multi view");
    assert_eq!(app.remote_chips.len(), 3, "chips keep every remote");
    assert!(!app.remote_chips[0].in_view);

    // Solo gpu-01: single-remote view collapses the attribution.
    chrome.selection.solo(2, &descriptors);
    compose_fleet_into(&mirrors, &descriptors, &chrome, &mut ids, &mut app);
    assert_eq!(workspace_ids(&app), vec!["r2:ws_1"]);
    assert!(
        app.workspace_remote_tags.is_empty(),
        "single-remote views carry no attribution"
    );
    assert_eq!(app.remote_chips.len(), 3, "the strip stays for un-soloing");
}

#[test]
fn creation_targets_the_remote_owning_the_focused_context() {
    let (mirrors, descriptors) = fleet_fixture();
    let mut chrome = GlobalChrome::new();
    let mut ids = ComposeIds::new();
    let mut app = AppState::empty();
    app.keybinds.new_tab = Binding::one(KeyCode::Char('c'), KeyModifiers::empty());

    // Focus follows buildbox: creation goes there.
    chrome.selection.focused_remote = 1;
    compose_fleet_into(&mirrors, &descriptors, &chrome, &mut ids, &mut app);
    assert_eq!(app.workspaces[app.active.expect("active")].id, "r1:ws_1");
    assert_eq!(creation_target_remote(&app, &ids, 0), 1);

    // The full intent path: new tab lands on buildbox with its own public
    // workspace id, never the composed scoped id.
    let (remote, method) = prefix_intent_method(
        TerminalKey::new(KeyCode::Char('c'), KeyModifiers::empty()),
        &mirrors,
        &ids,
        &app,
        0,
    )
    .expect("new tab intent");
    assert_eq!(remote, 1);
    let Method::TabCreate { workspace_id, .. } = method else {
        panic!("expected tab.create, got {method:?}");
    };
    assert_eq!(workspace_id.as_deref(), Some("ws_1"));

    // Creating a whole new space also follows the focused context.
    let (remote, method) =
        mouse_intent_method(MouseAction::NewWorkspace, &mirrors, &ids, &app, 0)
            .expect("new space intent");
    assert_eq!(remote, 1);
    assert!(matches!(method, Method::WorkspaceCreate { .. }));
}

#[test]
fn a_single_remote_fleet_composes_what_its_mirror_holds() {
    let mut mirrors = RemoteMirrors::new();
    mirrors.insert(adversarial_mirror());
    let chrome = GlobalChrome::new();
    let mut fleet_ids = ComposeIds::new();
    let mut fleet_app = AppState::empty();
    compose_fleet_into(
        &mirrors,
        &[RemoteDescriptor::local()],
        &chrome,
        &mut fleet_ids,
        &mut fleet_app,
    );
    assert!(fleet_app.workspace_remote_tags.is_empty());
    let mut local_ids = ComposeIds::new();
    let mut local_app = AppState::empty();
    compose_into(mirrors.get(0).expect("local"), &chrome, &mut local_ids, &mut local_app);
    assert_eq!(workspace_ids(&fleet_app), workspace_ids(&local_app));
    assert_eq!(fleet_app.active, local_app.active);
    assert_eq!(pane_ids(&fleet_app, 0, 0), pane_ids(&local_app, 0, 0));
}

#[test]
fn ids_are_scoped_by_remote_and_numbers_read_from_them() {
    assert_eq!(scoped_id(0, "ws_1"), "ws_1");
    assert_eq!(scoped_id(12, "ws_1"), "r12:ws_1");
    assert_eq!(composed_terminal_id(2, "term_1"), "r2:term_1");
    assert_eq!(public_id_number("p_2_10"), Some(10));
    assert_eq!(public_id_number("nonsense"), None);
}

#[test]
fn pane_slots_are_never_reused() {
    let (mirrors, _) = fleet_fixture();
    let mut ids = ComposeIds::new();
    let first = ids.pane_id(1, "p_1_1");
    assert_eq!(ids.pane_id(1, "p_1_1"), first);
    let gone = ids.pane_id(1, "p_gone");
    ids.retain_known(&mirrors);
    assert_eq!(ids.composed_pane_id(1, "p_gone"), None);
    let again = ids.pane_id(1, "p_gone");
    assert_ne!(again, gone);
    assert_ne!(again, first);
    assert_eq!(ids.public_pane_id(first), Some((1, "p_1_1")));
}

#[test]
fn split_trees_rebuild_and_fall_back_to_nesting() {
    let split = |id: &str| LayoutSplit {
        id: id.to_owned(),
        direction: SplitDirection::Down,
        ratio_bits: 0.25f32.to_bits(),
        rect: rect(0, 1),
    };
    let tree = rebuild_tree(&vec![split("split_0_root"), split("split_1_1")], &vec![7, 8, 9])
        .expect("a tree");
    let mut found = Vec::new();
    leaves(&tree, &mut found);
    assert_eq!(found, vec![7, 8, 9]);
    // One split too few for the leaves.
    assert!(rebuild_tree(&vec![split("split_0_root")], &vec![7, 8, 9]).is_none());
    let mut nested = Vec::new();
    leaves(&nest_panes(&vec![3, 4, 5]), &mut nested);
    assert_eq!(nested, vec![3, 4, 5]);
}
