use herdr_fleet::api::method::{Method, PaneDirection};
use herdr_fleet::api::schema::{
    AgentStatus, PaneInfo, SessionSnapshot, SplitDirection, TabInfo, WorkspaceInfo,
};
use herdr_fleet::client_state::app_state::{AppState, Binding, Keybinds, Mode};
use herdr_fleet::client_state::chrome::GlobalChrome;
use herdr_fleet::client_state::compose::compose_into;
use herdr_fleet::client_state::compose_ids::ComposeIds;
use herdr_fleet::client_state::fleet_view::{remote_descriptors, RemoteDescriptor};
use herdr_fleet::client_state::intent::{
    composed_tab_public_id, dispatch_mouse_intent, modal_target_remote, mouse_intent_method,
    prefix_intent_method, unscope_workspace_methods, MouseAction,
};
use herdr_fleet::client_state::mirror::{RemoteMirror, RemoteMirrors};
use herdr_fleet::client_state::run::state::ClientLoop;
use herdr_fleet::fleet::config::RemoteEntry;
use herdr_fleet::input::{KeyCode, KeyModifiers, TerminalKey};
use herdr_fleet::protocol::framed::{NegotiatedSession, CAPABILITY_PANE_STREAM};
use herdr_fleet::protocol::hello::FRAMED_PROTOCOL_VERSION;

fn workspace(id: &str, number: usize, label: &str, focused: bool, tab: &str, status: AgentStatus) -> WorkspaceInfo {
    WorkspaceInfo {
        workspace_id: id.to_owned(),
        number,
        label: label.to_owned(),
        focused,
        pane_count: 1,
        tab_count: 1,
        active_tab_id: tab.to_owned(),
        agent_status: status,
    }
}

fn tab(id: &str, workspace_id: &str, number: usize, label: &str, focused: bool) -> TabInfo {
    TabInfo {
        tab_id: id.to_owned(),
        workspace_id: workspace_id.to_owned(),
        number,
        label: label.to_owned(),
        focused,
        pane_count: 1,
        agent_status: AgentStatus::Idle,
    }
}

fn pane(id: &str, terminal: &str, workspace_id: &str, tab_id: &str, focused: bool, revision: u64) -> PaneInfo {
    PaneInfo {
        pane_id: id.to_owned(),
        terminal_id: terminal.to_owned(),
        workspace_id: workspace_id.to_owned(),
        tab_id: tab_id.to_owned(),
        focused,
        agent_status: AgentStatus::Idle,
        revision,
        agent: None,
        title: None,
        display_agent: None,
        state_labels: Vec::new(),
        cwd: None,
        terminal_title: None,
        label: None,
    }
}

fn canned_snapshot(pane_id: &str, label: &str) -> SessionSnapshot {
    SessionSnapshot {
        focused_workspace_id: Some("ws_1".to_owned()),
        focused_tab_id: Some("t_1_1".to_owned()),
        focused_pane_id: Some(pane_id.to_owned()),
        workspaces: vec![workspace("ws_1", 1, label, true, "t_1_1", AgentStatus::Idle)],
        tabs: vec![tab("t_1_1", "ws_1", 1, "shell", true)],
        panes: vec![pane(pane_id, "term_1", "ws_1", "t_1_1", true, 1)],
        layouts: Vec::new(),
    }
}

fn connect(mirror: &mut RemoteMirror) {
    mirror.connection.connect_started();
    mirror.connection.connected(NegotiatedSession {
        protocol: FRAMED_PROTOCOL_VERSION,
        capabilities: vec![CAPABILITY_PANE_STREAM.to_owned()],
    });
}

/// Duplicate labels, lookalike ids, unordered numbers, focus spread across
/// entries.
fn adversarial_mirror() -> RemoteMirror {
    let mut mirror = RemoteMirror::local();
    connect(&mut mirror);
    mirror.catalog.resync(
        SessionSnapshot {
            focused_workspace_id: Some("ws_2".to_owned()),
            focused_tab_id: Some("t_2_1".to_owned()),
            focused_pane_id: Some("p_2_1".to_owned()),
            workspaces: vec![
                workspace("ws_2", 2, "repo", true, "t_2_1", AgentStatus::Working),
                workspace("ws_10", 1, "repo", false, "t_10_1", AgentStatus::Idle),
            ],
            tabs: vec![
                tab("t_2_1", "ws_2", 1, "tab", true),
                tab("t_10_1", "ws_10", 1, "tab", false),
            ],
            panes: vec![
                pane("p_2_1", "term_21", "ws_2", "t_2_1", true, 7),
                pane("p_2_10", "term_210", "ws_2", "t_2_1", false, 1),
                pane("p_10_1", "term_101", "ws_10", "t_10_1", false, 3),
            ],
            layouts: Vec::new(),
        },
        41,
    );
    mirror
}

fn bound(c: char) -> Binding {
    Binding::one(KeyCode::Char(c), KeyModifiers::empty())
}

/// The bindings that a client has by default, as far as these tests press
/// them.
fn default_keybinds() -> Keybinds {
    let mut keybinds = Keybinds::unbound();
    keybinds.new_workspace = Binding::one(KeyCode::Char('n'), KeyModifiers::shift());
    keybinds.new_tab = bound('c');
    keybinds.split_vertical = bound('v');
    keybinds.split_horizontal = bound('-');
    keybinds.close_pane = bound('x');
    keybinds.focus_pane_left = bound('h');
    keybinds.focus_pane_down = bound('j');
    keybinds.focus_pane_up = bound('k');
    keybinds.focus_pane_right = bound('l');
    keybinds
}

fn composed() -> (RemoteMirrors, ComposeIds, AppState) {
    let mut mirrors = RemoteMirrors::new();
    mirrors.insert(adversarial_mirror());
    let mut ids = ComposeIds::new();
    let mut app = AppState::empty();
    compose_into(
        mirrors.get(0).expect("local"),
        &GlobalChrome::new(),
        &mut ids,
        &mut app,
    );
    app.keybinds = default_keybinds();
    (mirrors, ids, app)
}

fn key(code: KeyCode) -> TerminalKey {
    TerminalKey::new(code, KeyModifiers::empty())
}

#[test]
fn new_workspace_intent_targets_the_in_view_remote_with_an_empty_catalog() {
    let mut mirrors = RemoteMirrors::with_local();
    mirrors.insert(RemoteMirror::new(1, "buildbox".to_owned()));
    let ids = ComposeIds::new();
    let mut app = AppState::empty();
    app.keybinds = default_keybinds();
    assert!(app.active.is_none(), "nothing focused in an empty view");

    for shape in [
        TerminalKey::new(KeyCode::Char('N'), KeyModifiers::empty()),
        TerminalKey::new(KeyCode::Char('N'), KeyModifiers::shift()),
        TerminalKey::new(KeyCode::Char('n'), KeyModifiers::shift()),
    ] {
        let (remote, method) =
            prefix_intent_method(shape, &mirrors, &ids, &app, 1).expect("new workspace intent");
        assert_eq!(remote, 1, "creation follows the effective focused remote");
        assert!(
            matches!(method, Method::WorkspaceCreate { .. }),
            "expected workspace.create, got {method:?}"
        );
    }
}

#[test]
fn prefix_keys_map_to_control_plane_methods() {
    let (mirrors, ids, app) = composed();

    let (remote, method) = prefix_intent_method(key(KeyCode::Char('c')), &mirrors, &ids, &app, 0)
        .expect("new tab intent");
    assert_eq!(remote, 0, "adversarial fixture is local-only");
    let Method::TabCreate { workspace_id, focus } = method else {
        panic!("expected tab.create, got {method:?}");
    };
    assert_eq!(workspace_id.as_deref(), Some("ws_2"));
    assert!(focus);

    let (remote, method) = prefix_intent_method(key(KeyCode::Char('v')), &mirrors, &ids, &app, 0)
        .expect("split intent");
    assert_eq!(remote, 0, "adversarial fixture is local-only");
    let Method::PaneSplit { target_pane_id, direction, .. } = method else {
        panic!("expected pane.split, got {method:?}");
    };
    assert_eq!(direction, SplitDirection::Right);
    assert_eq!(target_pane_id.as_deref(), Some("p_2_1"));

    let (remote, method) = prefix_intent_method(key(KeyCode::Char('x')), &mirrors, &ids, &app, 0)
        .expect("close pane intent");
    assert_eq!(remote, 0, "adversarial fixture is local-only");
    let Method::PaneClose { pane_id } = method else {
        panic!("expected pane.close, got {method:?}");
    };
    assert_eq!(pane_id, "p_2_1");

    let (remote, method) = prefix_intent_method(key(KeyCode::Char('l')), &mirrors, &ids, &app, 0)
        .expect("focus direction intent");
    assert_eq!(remote, 0, "adversarial fixture is local-only");
    let Method::PaneFocusDirection { direction, .. } = method else {
        panic!("expected pane.focus_direction, got {method:?}");
    };
    assert_eq!(direction, PaneDirection::Right);
}

#[test]
fn workspace_cycling_wraps_through_the_catalog_order() {
    let (mirrors, ids, mut app) = composed();
    // next_workspace is unbound by default; bind it like a user would.
    app.keybinds.next_workspace = bound('n');
    let (remote, method) = prefix_intent_method(key(KeyCode::Char('n')), &mirrors, &ids, &app, 0)
        .expect("next workspace intent");
    assert_eq!(remote, 0, "adversarial fixture is local-only");
    let Method::WorkspaceFocus { workspace_id } = method else {
        panic!("expected workspace.focus, got {method:?}");
    };
    // ws_2 is focused; ws_10 is the next in catalog order.
    assert_eq!(workspace_id, "ws_10");
}

#[test]
fn unbound_prefix_keys_map_to_nothing() {
    let (mirrors, ids, app) = composed();
    assert!(prefix_intent_method(key(KeyCode::Char('~')), &mirrors, &ids, &app, 0).is_none());
}

#[test]
fn tab_focus_index_skips_pane_less_catalog_tabs() {
    let (mut mirrors, ids, app) = composed();
    // A tab_created event landed before its pane_created: the catalog briefly
    // holds a pane-less tab the composed tab bar does not show.
    let empty_tab = TabInfo {
        tab_id: "t_2_0".to_owned(),
        workspace_id: "ws_2".to_owned(),
        number: 0,
        label: "empty".to_owned(),
        focused: false,
        pane_count: 0,
        agent_status: AgentStatus::Idle,
    };
    mirrors
        .get_mut(0)
        .expect("local")
        .catalog
        .tabs
        .insert(0, empty_tab);

    // The composed tab bar shows only t_2_1, at index 0; clicking it must not
    // resolve to the invisible empty tab.
    let (remote, method) =
        mouse_intent_method(MouseAction::FocusTab { tab_idx: 0 }, &mirrors, &ids, &app, 0)
            .expect("tab focus intent");
    assert_eq!(remote, 0, "adversarial fixture is local-only");
    let Method::TabFocus { tab_id } = method else {
        panic!("expected tab.focus, got {method:?}");
    };
    assert_eq!(tab_id, "t_2_1");
    assert_eq!(
        composed_tab_public_id(&mirrors.get(0).expect("local").catalog, "ws_2", 1),
        None
    );
}

#[test]
fn launcher_click_opens_a_global_menu_that_survives_dispatch() {
    let (mirrors, ids, mut app) = composed();
    let mut chrome = GlobalChrome::new();
    // The click opened the menu and the post-dispatch mode guard must let it
    // live: a reverted mode means a silently dead menu button.
    app.mode = Mode::GlobalMenu;
    let sent = dispatch_mouse_intent(
        Mode::Terminal,
        None,
        &mirrors,
        &ids,
        &[RemoteDescriptor::local()],
        &mut app,
        &mut chrome,
    );
    assert_eq!(sent, None);
    assert_eq!(app.mode, Mode::GlobalMenu);
}

#[test]
fn modes_without_a_client_side_effect_do_not_survive_a_click() {
    let (mirrors, ids, mut app) = composed();
    let mut chrome = GlobalChrome::new();
    app.mode = Mode::Settings;
    dispatch_mouse_intent(
        Mode::Terminal,
        None,
        &mirrors,
        &ids,
        &[RemoteDescriptor::local()],
        &mut app,
        &mut chrome,
    );
    assert_eq!(app.mode, Mode::Terminal);
}

#[test]
fn drag_actions_map_to_move_and_split_ratio_methods() {
    let (mirrors, ids, app) = composed();

    let (remote, method) = mouse_intent_method(
        MouseAction::MoveWorkspace {
            source_ws_idx: 1,
            insert_idx: 0,
        },
        &mirrors,
        &ids,
        &app,
        0,
    )
    .expect("workspace move intent");
    assert_eq!(remote, 0, "adversarial fixture is local-only");
    let Method::WorkspaceMove { workspace_id, insert_index } = method else {
        panic!("expected workspace.move, got {method:?}");
    };
    assert_eq!(workspace_id, "ws_10");
    assert_eq!(insert_index, 0);

    let (remote, method) = mouse_intent_method(
        MouseAction::MoveTab {
            ws_idx: 0,
            source_tab_idx: 0,
            insert_idx: 1,
        },
        &mirrors,
        &ids,
        &app,
        0,
    )
    .expect("tab move intent");
    assert_eq!(remote, 0, "adversarial fixture is local-only");
    let Method::TabMove { tab_id, .. } = method else {
        panic!("expected tab.move, got {method:?}");
    };
    assert_eq!(tab_id, "t_2_1");

    let (remote, method) = mouse_intent_method(
        MouseAction::SetSplitRatio {
            path: vec![false],
            ratio: "0.25".to_owned(),
        },
        &mirrors,
        &ids,
        &app,
        0,
    )
    .expect("split ratio intent");
    assert_eq!(remote, 0, "adversarial fixture is local-only");
    let Method::LayoutSetSplitRatio { path, ratio } = method else {
        panic!("expected layout.set_split_ratio, got {method:?}");
    };
    assert_eq!(path, vec![false]);
    let ratio: f32 = ratio.parse().expect("a number");
    assert!((ratio - 0.25).abs() < f32::EPSILON);
}

#[test]
fn workspace_moves_count_only_their_own_remote() {
    let mut state = ClientLoop::new();
    state.ids.workspace_owners = vec![
        (0, "ws_1".to_owned()),
        (1, "ws_1".to_owned()),
        (0, "ws_2".to_owned()),
        (1, "ws_2".to_owned()),
    ];
    let (mirrors, _, mut app) = composed();
    let (_, _, more) = composed();
    app.workspaces.extend(more.workspaces);
    let (remote, method) = mouse_intent_method(
        MouseAction::MoveWorkspace { source_ws_idx: 3, insert_idx: 3 },
        &mirrors,
        &state.ids,
        &app,
        0,
    )
    .expect("workspace move intent");
    assert_eq!(remote, 1);
    let Method::WorkspaceMove { workspace_id, insert_index } = method else {
        panic!("expected workspace.move, got {method:?}");
    };
    assert_eq!(workspace_id, "ws_2");
    assert_eq!(insert_index, 1);
}

#[test]
fn modal_methods_lose_their_scope() {
    let mut ids = ComposeIds::new();
    ids.workspace_owners = vec![(1, "ws_9".to_owned())];
    let (_, _, mut app) = composed();
    app.workspaces.truncate(1);
    app.workspaces[0].id = "r1:ws_9".to_owned();
    app.selected = 0;
    assert_eq!(modal_target_remote(&app, &ids, 0), 1);
    let methods = unscope_workspace_methods(
        vec![
            Method::WorkspaceClose { workspace_id: "r1:ws_9".to_owned() },
            Method::PaneClose { pane_id: "p_1".to_owned() },
        ],
        &app,
        &ids,
    );
    assert_eq!(
        methods,
        vec![
            Method::WorkspaceClose { workspace_id: "ws_9".to_owned() },
            Method::PaneClose { pane_id: "p_1".to_owned() },
        ]
    );
}

#[test]
fn creation_fallback_never_targets_a_remote_filtered_out_of_view() {
    // Nothing focused: creation falls back to the effective focused remote,
    // which must be in view.
    let mut state = ClientLoop::new();
    state.mirrors = RemoteMirrors::with_local();
    state.mirrors.insert(RemoteMirror::new(1, "buildbox".to_owned()));
    state.app.keybinds = default_keybinds();
    state.descriptors = remote_descriptors(&[
        RemoteEntry {
            name: "local".into(),
            target: None,
            session: "default".into(),
            enabled: true,
            hue: None,
        },
        RemoteEntry {
            name: "buildbox".into(),
            target: Some("can@buildbox.example".into()),
            session: "default".into(),
            enabled: true,
            hue: None,
        },
    ]);
    // The user focused buildbox, then toggled its chip out of view.
    state.chrome.selection.focused_remote = 1;
    state
        .chrome
        .selection
        .toggle(1, &state.descriptors)
        .expect("filter buildbox out");
    assert!(
        state.app.active.is_none(),
        "nothing focused in the empty view"
    );

    state.dispatch_prefix_intent(key(KeyCode::Char('c')));
    assert_eq!(
        state.chrome.selection.focused_remote, 0,
        "creation targets the effective (in-view) remote, not the hidden one"
    );
}

#[test]
fn mouse_focus_actions_map_to_control_plane_methods() {
    let (mirrors, ids, app) = composed();

    let (remote, method) =
        mouse_intent_method(MouseAction::FocusWorkspace { ws_idx: 1 }, &mirrors, &ids, &app, 0)
            .expect("workspace focus intent");
    assert_eq!(remote, 0, "adversarial fixture is local-only");
    let Method::WorkspaceFocus { workspace_id } = method else {
        panic!("expected workspace.focus, got {method:?}");
    };
    assert_eq!(workspace_id, "ws_10");

    let pane_id = app.workspaces[0]
        .focused_pane_id()
        .expect("composed focused pane");
    let (remote, method) =
        mouse_intent_method(MouseAction::FocusPane { pane_id }, &mirrors, &ids, &app, 0)
            .expect("pane focus intent");
    assert_eq!(remote, 0, "adversarial fixture is local-only");
    let Method::PaneFocus { pane_id } = method else {
        panic!("expected pane.focus, got {method:?}");
    };
    assert_eq!(pane_id, "p_2_1");
}
