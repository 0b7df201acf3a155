use herdr_fleet::api::method::Method;
use herdr_fleet::api::schema::{
    AgentStatus, EventData, EventEnvelope, PaneInfo, SessionSnapshot, TabInfo, WorkspaceInfo,
};
use herdr_fleet::client_state::app_state::{Binding, KeyChord, Keybinds, Mode, PaneArea};
use herdr_fleet::client_state::compose::{
    apply_client_config, compose_fleet_into, compose_into, ClientConfig,
};
use herdr_fleet::client_state::connection::ClientConnectionState;
use herdr_fleet::client_state::fleet_view::{
    remote_chip_states, remote_descriptors, RemoteChipConnection, RemoteDescriptor,
};
use herdr_fleet::client_state::intent::MouseAction;
use herdr_fleet::client_state::mirror::{
    PaneReplica, RemoteMirror, RemoteMirrors, LOCAL_REMOTE_INDEX,
};
use herdr_fleet::client_state::remote_edit::RemoteEditState;
use herdr_fleet::client_state::remote_list::{remote_list_rows, RemoteListState, RemoteListStatus};
use herdr_fleet::client_state::remote_start::RemoteStartPrompt;
use herdr_fleet::client_state::run::connect::{
    classify_failure, describe_bridge_failure, describe_connect_failure, describe_hello_failure,
    uses_default_socket, with_tail, BridgeFailure, ConnectStage,
};
use herdr_fleet::client_state::run::effects::{encode_paste, BackfillTrigger};
use herdr_fleet::client_state::run::fleet::{apply_config_edit, ConfigEdit, ListStep};
use herdr_fleet::client_state::run::frames::FrameEffect;
use herdr_fleet::client_state::run::keys::{
    page_delta, uses_application_cursor, KeyAction, PasteRoute,
};
use herdr_fleet::client_state::run::links::{
    pure_client_enabled, Established, LOST_LINK_RETRY_MS, PURE_CLIENT_DEFAULT,
};
use herdr_fleet::client_state::run::mouse::{
    wheel_delta, MouseHits, MouseOutcome, MouseRoute, MouseStep, PaneReport,
};
use herdr_fleet::client_state::run::state::ClientLoop;
use herdr_fleet::client_state::run::streams::{hidden_pane_streams, PaneResizeRequest};
use herdr_fleet::client_state::run::ticks::{screens_for_view, FleetOverlay, STATUS_FLASH_TTL_MS};
use herdr_fleet::client_state::session::{
    interpret_hello_answer, HelloRejection, Link, Pending, SendError, Session, REMOTE_PONG_TIMEOUT_MS,
};
use herdr_fleet::fleet::config::{MoveDirection, RemoteEntry};
use herdr_fleet::fleet::status::stopped_status_line;
use herdr_fleet::input::{
    KeyCode, KeyEventKind, KeyModifiers, MouseButton, MouseEvent, MouseEventKind, Rect, TerminalKey,
};
use herdr_fleet::json::{decode_json, Json};
use herdr_fleet::protocol::frame::MAX_FRAME_PAYLOAD;
use herdr_fleet::protocol::framed::{
    Frame, FrameType, HelloRemedy, NegotiatedSession, SessionWelcome, StreamMode, StreamOpened,
    CAPABILITY_CATALOG,
    CAPABILITY_PANE_STREAM, CONTROL_STREAM_ID, SERVER_STOPPING_REASON_EMPTY, STREAM_HISTORY_METHOD,
};
use herdr_fleet::protocol::history::HISTORY_PAGE_DEFAULT_BYTES;
use herdr_fleet::protocol::hello::FRAMED_PROTOCOL_VERSION;

fn workspace(id: &str, number: usize, label: &str, focused: bool, tab: &str, status: AgentStatus) -> WorkspaceInfo {
    WorkspaceInfo {
        workspace_id: id.to_owned(),
        number,
        label: label.to_owned(),
        focused,
        pane_count: 1,
        tab_count: 1,
        active_tab_id: tab.to_owned(),
        agent_status: status,
    }
}

fn tab(id: &str, workspace_id: &str, number: usize, label: &str, focused: bool) -> TabInfo {
    TabInfo {
        tab_id: id.to_owned(),
        workspace_id: workspace_id.to_owned(),
        number,
        label: label.to_owned(),
        focused,
        pane_count: 1,
        agent_status: AgentStatus::Idle,
    }
}

fn pane(id: &str, terminal: &str, workspace_id: &str, tab_id: &str, focused: bool, revision: u64) -> PaneInfo {
    PaneInfo {
        pane_id: id.to_owned(),
        terminal_id: terminal.to_owned(),
        workspace_id: workspace_id.to_owned(),
        tab_id: tab_id.to_owned(),
        focused,
        agent_status: AgentStatus::Idle,
        revision,
        agent: None,
        title: None,
        display_agent: None,
        state_labels: Vec::new(),
        cwd: None,
        terminal_title: None,
        label: None,
    }
}

fn canned_snapshot(pane_id: &str, label: &str) -> SessionSnapshot {
    SessionSnapshot {
        focused_workspace_id: Some("ws_1".to_owned()),
        focused_tab_id: Some("t_1_1".to_owned()),
        focused_pane_id: Some(pane_id.to_owned()),
        workspaces: vec![workspace("ws_1", 1, label, true, "t_1_1", AgentStatus::Idle)],
        tabs: vec![tab("t_1_1", "ws_1", 1, "shell", true)],
        panes: vec![pane(pane_id, "term_1", "ws_1", "t_1_1", true, 1)],
        layouts: Vec::new(),
    }
}

fn connect(mirror: &mut RemoteMirror) {
    mirror.connection.connect_started();
    mirror.connection.connected(NegotiatedSession {
        protocol: FRAMED_PROTOCOL_VERSION,
        capabilities: vec![CAPABILITY_PANE_STREAM.to_owned()],
    });
}

/// Duplicate labels, lookalike ids, unordered numbers, focus spread across
/// entries.
fn adversarial_mirror() -> RemoteMirror {
    let mut mirror = RemoteMirror::local();
    connect(&mut mirror);
    mirror.catalog.resync(
        SessionSnapshot {
            focused_workspace_id: Some("ws_2".to_owned()),
            focused_tab_id: Some("t_2_1".to_owned()),
            focused_pane_id: Some("p_2_1".to_owned()),
            workspaces: vec![
                workspace("ws_2", 2, "repo", true, "t_2_1", AgentStatus::Working),
                workspace("ws_10", 1, "repo", false, "t_10_1", AgentStatus::Idle),
            ],
            tabs: vec![
                tab("t_2_1", "ws_2", 1, "tab", true),
                tab("t_10_1", "ws_10", 1, "tab", false),
            ],
            panes: vec![
                pane("p_2_1", "term_21", "ws_2", "t_2_1", true, 7),
                pane("p_2_10", "term_210", "ws_2", "t_2_1", false, 1),
                pane("p_10_1", "term_101", "ws_10", "t_10_1", false, 3),
            ],
            layouts: Vec::new(),
        },
        41,
    );
    mirror
}

const NOW: u64 = 1_000_000;

fn key(code: KeyCode) -> TerminalKey {
    TerminalKey::new(code, KeyModifiers::empty())
}

fn entry(name: &str, target: Option<&str>) -> RemoteEntry {
    RemoteEntry {
        name: name.to_owned(),
        target: target.map(|t| t.to_owned()),
        session: "default".to_owned(),
        enabled: true,
        hue: None,
    }
}

fn three_descriptors() -> Vec<RemoteDescriptor> {
    remote_descriptors(&[
        entry("local", None),
        entry("buildbox", Some("can@buildbox.example")),
        entry("gpu-01", Some("can@gpu-01.example")),
    ])
}

/// The bindings that a client has by default, as far as these tests press
/// them.
fn default_keybinds() -> Keybinds {
    let mut keybinds = Keybinds::unbound();
    keybinds.new_workspace = Binding::one(KeyCode::Char('n'), KeyModifiers::shift());
    keybinds.focus_pane_left = Binding::one(KeyCode::Char('h'), KeyModifiers::empty());
    keybinds.copy_mode = Binding::one(KeyCode::Char('['), KeyModifiers::empty());
    keybinds
}

/// A loop without sockets or threads.
fn client(descriptors: Vec<RemoteDescriptor>) -> ClientLoop {
    let mut ctx = ClientLoop::new();
    ctx.mirrors = RemoteMirrors::with_local();
    for descriptor in descriptors.iter().skip(1) {
        ctx.mirrors
            .insert(RemoteMirror::new(descriptor.index, descriptor.name.clone()));
    }
    ctx.descriptors = descriptors;
    ctx.app.keybinds = default_keybinds();
    ctx.app.prefix_key = KeyChord { code: KeyCode::Char('b'), modifiers: KeyModifiers::control() };
    ctx
}

fn session(generation: u64) -> Session {
    Session::fresh(generation, NOW, Some(8))
}

fn up(ctx: &mut ClientLoop, remote: usize, session: Session) {
    ctx.links.insert(remote, Link::Up(session));
}

/// Takes what was sent over a link.
fn sent(ctx: &mut ClientLoop, remote: usize) -> Vec<Json> {
    match ctx.links.get_mut(&remote) {
        Some(Link::Up(session)) => session.outbox.drain(..).collect(),
        _ => Vec::new(),
    }
}

fn method_of(request: &Json) -> Option<&str> {
    request
        .get("params")
        .and_then(|p| p.get("request"))
        .and_then(|r| r.text_of("method"))
}

fn mirror_with_replica() -> RemoteMirror {
    let mut mirror = RemoteMirror::local();
    connect(&mut mirror);
    mirror.catalog.resync(canned_snapshot("p_1_1", "repo"), 1);
    mirror.stream_opened("p_1_1".to_owned(), 3, replica("hello", 10));
    mirror
}

fn replica(snapshot: &str, sequence: u64) -> PaneReplica {
    PaneReplica {
        snapshot: snapshot.to_owned(),
        sequence,
        history_cursor: None,
        cols: 80,
        rows: 24,
    }
}

fn compose_local(ctx: &mut ClientLoop) {
    let ClientLoop { mirrors, chrome, ids, app, .. } = ctx;
    compose_into(mirrors.get(LOCAL_REMOTE_INDEX).expect("local"), chrome, ids, app);
}

/// Composes the fleet and lays the chip strip out.
fn render_chip_strip(ctx: &mut ClientLoop, rows: u16) {
    let ClientLoop { descriptors, mirrors, chrome, ids, app, .. } = ctx;
    compose_fleet_into(mirrors, descriptors, chrome, ids, app);
    app.chip_strip_height = rows;
}

fn chips(ctx: &ClientLoop) -> Vec<RemoteChipConnection> {
    remote_chip_states(&ctx.mirrors, &ctx.descriptors, &ctx.chrome.selection)
        .iter()
        .map(|chip| chip.connection)
        .collect()
}

#[test]
fn the_prefix_key_opens_prefix_mode_with_no_workspace_in_view() {
    let mut ctx = client(vec![RemoteDescriptor::local()]);
    compose_local(&mut ctx);
    ctx.sync_mode();
    assert_eq!(ctx.app.mode, Mode::Navigate, "an empty catalog focuses nothing");
    up(&mut ctx, LOCAL_REMOTE_INDEX, session(1));

    // The default prefix is ctrl+b.
    ctx.handle_key(
        TerminalKey::new(KeyCode::Char('b'), KeyModifiers::control()),
        false,
    );
    assert_eq!(
        ctx.app.mode,
        Mode::Prefix,
        "the empty screen tells the user to press prefix+shift+n"
    );

    // ...and the following key reaches intent dispatch and its method leaves
    // the link.
    ctx.handle_key(
        TerminalKey::new(KeyCode::Char('N'), KeyModifiers::shift()),
        false,
    );
    let requests = sent(&mut ctx, LOCAL_REMOTE_INDEX);
    assert_eq!(requests.len(), 1, "prefix+shift+n reaches the wire");
    assert_eq!(requests[0].text_of("method"), Some("api.request"));
    assert_eq!(method_of(&requests[0]), Some("workspace.create"));
}

#[test]
fn navigate_mode_runs_prefix_intents_without_the_prefix() {
    let mut ctx = client(vec![RemoteDescriptor::local()]);
    compose_local(&mut ctx);
    ctx.sync_mode();
    assert_eq!(ctx.app.mode, Mode::Navigate);
    up(&mut ctx, LOCAL_REMOTE_INDEX, session(1));

    // Bare shift+N is the default new-workspace binding's RHS.
    ctx.handle_key(
        TerminalKey::new(KeyCode::Char('N'), KeyModifiers::shift()),
        false,
    );
    let requests = sent(&mut ctx, LOCAL_REMOTE_INDEX);
    assert_eq!(
        method_of(&requests[0]),
        Some("workspace.create"),
        "a bare binding acts in navigate mode"
    );

    // ...but the arrows and their vi twins steer the selection in navigate
    // mode, so directional pane focus stays prefix-only.
    ctx.handle_key(key(KeyCode::Char('h')), false);
    assert!(
        sent(&mut ctx, LOCAL_REMOTE_INDEX).is_empty(),
        "directional pane focus is prefix-only in navigate mode"
    );
}

#[test]
fn the_menu_adds_a_remote_from_the_keyboard_too() {
    let mut ctx = client(vec![RemoteDescriptor::local()]);
    ctx.app.fleet_config_backed = true;
    render_chip_strip(&mut ctx, 4);
    ctx.app.mode = Mode::GlobalMenu;
    // Enter goes to the menu, whose entry asks for the dialog.
    match ctx.handle_key(key(KeyCode::Enter), false) {
        KeyAction::GlobalMenu => ctx.app.request_add_remote = true,
        other => panic!("expected the menu to take it, got {other:?}"),
    }
    ctx.drain_app_requests(&[]);
    assert_eq!(ctx.chrome.remote_edit, Some(RemoteEditState::add()));
    assert!(!ctx.app.request_add_remote);
}

#[test]
fn an_ephemeral_fleet_of_one_cannot_add_remotes() {
    let ephemeral = RemoteDescriptor::ephemeral(
        "can@gpu1".to_owned(),
        "can@gpu1".to_owned(),
        "default".to_owned(),
        None,
    );
    let mut ctx = client(vec![ephemeral.clone()]);
    render_chip_strip(&mut ctx, 2);
    assert_eq!(
        ctx.app.remote_chips.len(),
        1,
        "the strip is composed even for a fleet of one"
    );
    ctx.app.request_add_remote = true;
    ctx.drain_app_requests(&[]);
    assert!(
        ctx.chrome.remote_edit.is_none(),
        "the add-remote dialog never opens in a fleet of one"
    );
    assert!(!ctx.app.request_add_remote, "the request is still drained");
    assert_eq!(
        ctx.descriptors.first(),
        Some(&ephemeral),
        "the ephemeral remote keeps its identity"
    );
}

/// Esc goes to the open modal, which folds.
fn press_modal_escape(ctx: &mut ClientLoop) {
    match ctx.handle_key(key(KeyCode::Esc), false) {
        KeyAction::Modal { .. } => ctx.app.fold_modal(),
        other => panic!("expected the modal to take it, got {other:?}"),
    }
}

#[test]
fn residual_modal_modes_never_quit_on_q() {
    let mut ctx = client(vec![RemoteDescriptor::local()]);
    // Context menus are interpreted by their own code: q never quits here.
    ctx.app.mode = Mode::ContextMenu;
    match ctx.handle_key(key(KeyCode::Char('q')), false) {
        KeyAction::Modal { .. } => {}
        other => panic!("expected the modal to take it, got {other:?}"),
    }
    assert!(!ctx.app.should_quit, "q inside a modal must not quit");
    assert_eq!(ctx.app.mode, Mode::ContextMenu);
    press_modal_escape(&mut ctx);
    assert!(!ctx.app.should_quit);
    assert_eq!(ctx.app.mode, Mode::Navigate);

    // Confirm-close cancels on Esc.
    ctx.app.mode = Mode::ConfirmClose;
    press_modal_escape(&mut ctx);
    assert!(!ctx.app.should_quit);
    assert_eq!(ctx.app.mode, Mode::Navigate);

    // Still-unsupported modal modes fold back to Navigate on Esc/q.
    ctx.app.mode = Mode::Settings;
    ctx.handle_key(key(KeyCode::Esc), false);
    assert!(!ctx.app.should_quit);
    assert_eq!(ctx.app.mode, Mode::Navigate);

    // Navigate itself still quits on q.
    ctx.handle_key(key(KeyCode::Char('q')), false);
    assert!(ctx.app.should_quit);
}

#[test]
fn chip_clicks_toggle_and_solo_without_touching_links() {
    let mut ctx = client(three_descriptors());
    // A click on chip 1 filters buildbox out of view.
    ctx.handle_chip_click(1, MouseButton::Left, NOW);
    assert!(!ctx.chrome.selection.is_in_view(1));
    assert!(
        ctx.links.len() == 0 && ctx.mirrors.get(1).is_some(),
        "selection must not create, drop, or disconnect links"
    );

    // A second click within the window solos buildbox (eager double-click:
    // the intermediate toggle is superseded).
    ctx.handle_chip_click(1, MouseButton::Left, NOW + 1);
    ctx.handle_chip_click(1, MouseButton::Left, NOW + 2);
    assert!(ctx.chrome.selection.is_in_view(1));
    assert!(!ctx.chrome.selection.is_in_view(0));
    assert!(!ctx.chrome.selection.is_in_view(2));
    assert_eq!(ctx.chrome.selection.focused_remote, 1);

    // Filtering the last in-view remote is refused with a flash.
    ctx.ui.last_chip_click = None;
    ctx.handle_chip_click(1, MouseButton::Left, NOW + 3);
    assert!(ctx.chrome.selection.is_in_view(1));
    assert!(
        ctx.ui
            .status_flash
            .as_ref()
            .is_some_and(|(message, _)| message.contains("stays in view")),
        "refusal surfaces as a status flash"
    );
}

#[test]
fn the_remotes_menu_opens_the_list_and_the_list_shows_disabled_remotes() {
    let mut ctx = client(three_descriptors());
    ctx.app.fleet_config_backed = true;
    let mut dark = entry("dark", Some("can@dark"));
    dark.enabled = false;
    let entries = vec![entry("buildbox", Some("can@buildbox")), dark];

    ctx.app.request_manage_remotes = true;
    ctx.drain_app_requests(&entries);
    assert!(
        ctx.chrome.remote_list.is_some(),
        "the remotes menu opens the list"
    );
    assert!(!ctx.app.request_manage_remotes, "drained once");

    // A disabled remote has no descriptor and no mirror, so it must come from
    // the config rather than the descriptor list.
    let rows = remote_list_rows(&entries, &ctx.descriptors, &ctx.mirrors);
    assert_eq!(rows.len(), 2, "disabled entries stay listed");
    assert_eq!(rows[1].status, RemoteListStatus::Disabled);
    assert_eq!(ctx.fleet_overlay(), Some(FleetOverlay::RemoteList));
}

#[test]
fn an_ephemeral_fleet_never_opens_the_remotes_list() {
    let mut ctx = client(three_descriptors());
    ctx.app.fleet_config_backed = false;
    ctx.app.request_manage_remotes = true;
    ctx.drain_app_requests(&[]);
    assert!(ctx.chrome.remote_list.is_none());
}

#[test]
fn the_list_captures_the_keyboard_and_escape_closes_it() {
    let mut ctx = client(three_descriptors());
    let entries = vec![entry("buildbox", Some("can@buildbox"))];
    ctx.chrome.remote_list = Some(RemoteListState::new(remote_list_rows(
        &entries,
        &ctx.descriptors,
        &ctx.mirrors,
    )));

    // Keys go to the modal, not the session behind it.
    ctx.handle_key(key(KeyCode::Down), false);
    assert!(ctx.chrome.remote_list.is_some());
    assert!(!ctx.app.should_quit);

    // Enter hands the selected entry to the existing field dialog.
    ctx.handle_key(key(KeyCode::Enter), false);
    let dialog = ctx.chrome.remote_edit.as_ref().expect("field dialog");
    assert_eq!(dialog.original_name.as_deref(), Some("buildbox"));
    ctx.chrome.remote_edit = None;

    ctx.handle_key(key(KeyCode::Esc), false);
    assert!(ctx.chrome.remote_list.is_none(), "escape closes it");
    assert!(!ctx.app.should_quit, "and does not quit the client");
}

#[test]
fn right_clicking_a_chip_does_nothing() {
    let mut ctx = client(three_descriptors());
    let before = ctx.chrome.selection.clone();

    ctx.handle_chip_click(0, MouseButton::Right, NOW);
    ctx.handle_chip_click(2, MouseButton::Right, NOW);

    assert!(ctx.chrome.remote_edit.is_none(), "no dialog is opened");
    assert!(ctx.chrome.remote_start.is_none());
    assert_eq!(ctx.chrome.selection, before, "and nothing is filtered");
    assert!(!ctx.app.should_quit);
}

#[test]
fn left_clicking_a_chip_still_filters_and_solos() {
    let mut ctx = client(three_descriptors());
    ctx.handle_chip_click(2, MouseButton::Left, NOW);
    assert!(
        !ctx.chrome.selection.is_in_view(2),
        "left-click still toggles a remote out of view"
    );

    ctx.handle_chip_click(2, MouseButton::Left, NOW + 1);
    assert!(ctx.chrome.selection.is_in_view(2), "and back in");
}

#[test]
fn reconcile_replaces_identity_changes_and_drops_removed_remotes() {
    let mut ctx = client(three_descriptors());
    ctx.links.insert(1, Link::Incompatible);
    ctx.links.insert(2, Link::Incompatible);
    ctx.chrome.window_titles.insert(2, "gpu title".to_owned());
    ctx.chrome.selection.solo(2, &ctx.descriptors);

    // gpu-01 is removed; buildbox changes target (identity change).
    let entries = vec![
        entry("local", None),
        entry("buildbox", Some("can@buildbox2.example")),
    ];
    ctx.reconcile_fleet(&entries, NOW);

    assert_eq!(ctx.descriptors.len(), 2);
    assert!(ctx.mirrors.get(2).is_none(), "removed remote is gone");
    assert!(!ctx.chrome.window_titles.contains(&2));
    assert!(
        matches!(ctx.links.get(&1), Some(Link::Down { .. })),
        "identity change reconnects from scratch"
    );
    assert!(
        ctx.chrome.selection.is_in_view(0) || ctx.chrome.selection.is_in_view(1),
        "the view never ends up empty after a reconcile"
    );
}

#[test]
fn hello_rejection_keeps_the_servers_own_remedy() {
    // An older *server* must never be reported as "upgrade the client".
    let rejection = decode_json(
        br#"{"id":"pure:hello:0","error":{"code":"protocol_out_of_window","message":"client minimum protocol 2 is newer than this server's protocol 1","data":{"remedy":"upgrade_server"}}}"#,
    )
    .expect("json");
    match interpret_hello_answer(&rejection) {
        Err(HelloRejection::Incompatible { remedy, message }) => {
            assert_eq!(remedy, HelloRemedy::UpgradeServer);
            assert!(message.contains("protocol 1"), "{message}");
        }
        _ => panic!("expected an incompatible rejection"),
    }

    // A welcome without the catalog capability is equally terminal, and
    // equally an upgrade-the-server situation.
    let welcome = decode_json(
        br#"{"id":"pure:hello:0","result":{"type":"session.welcome","protocol":1,"min_protocol":1,"capabilities":["pane-stream"],"server_version":"0.9.0"}}"#,
    )
    .expect("json");
    match interpret_hello_answer(&welcome) {
        Err(HelloRejection::Incompatible { remedy, message }) => {
            assert_eq!(remedy, HelloRemedy::UpgradeServer);
            assert!(message.contains("catalog"), "{message}");
        }
        _ => panic!("expected an incompatible rejection"),
    }
}

#[test]
fn a_stopped_remote_dims_and_opens_the_start_prompt_instead_of_retrying() {
    let mut ctx = client(three_descriptors());
    ctx.links.insert(1, Link::Pending { generation: 1 });
    ctx.handle_established(
        1,
        1,
        Established::Stopped { status: stopped_status_line("buildbox") },
        NOW,
    );

    assert!(
        matches!(ctx.links.get(&1), Some(Link::Stopped)),
        "a stopped remote must not be scheduled for retry"
    );
    let connection = ctx.mirrors.get(1).expect("mirror").connection.clone();
    assert!(connection.is_stopped(), "{connection:?}");
    assert!(!connection.may_retry(), "stopped is terminal");

    // The prompt names the remote and carries the actionable line.
    let prompt = ctx.chrome.remote_start.as_ref().expect("start prompt");
    assert_eq!(prompt.remote, 1);
    assert_eq!(prompt.name, "buildbox");
    assert!(prompt.status.contains("remote start buildbox"), "{prompt:?}");
    assert_eq!(prompt.error, None);

    // Declining leaves it stopped rather than starting anything.
    ctx.chrome.remote_start = None;
    assert!(ctx.mirrors.get(1).is_some_and(|mirror| mirror.connection.is_stopped()));
    assert!(matches!(ctx.links.get(&1), Some(Link::Stopped)));

    // ...but the dimmed chip re-offers it.
    ctx.handle_chip_click(1, MouseButton::Left, NOW);
    let reoffered = ctx.chrome.remote_start.as_ref().expect("re-offered");
    assert_eq!(reoffered.remote, 1);
    assert!(!reoffered.starting);
    assert!(reoffered.status.contains("remote start buildbox"));
}

fn server_stopping_frame(reason: &str) -> Frame {
    Frame {
        frame_type: FrameType::Control,
        stream_id: CONTROL_STREAM_ID,
        payload: format!("{{\"event\":\"server.stopping\",\"data\":{{\"reason\":\"{reason}\"}}}}")
            .into_bytes(),
    }
}

#[test]
fn an_announced_server_stop_parks_the_remote_without_running_the_ladder() {
    let mut ctx = client(three_descriptors());
    ctx.links.insert(1, Link::Pending { generation: 1 });

    ctx.handle_server_frame(1, server_stopping_frame(SERVER_STOPPING_REASON_EMPTY));

    assert!(
        matches!(ctx.links.get(&1), Some(Link::Stopped)),
        "an announced stop must not be scheduled for retry"
    );
    let connection = ctx.mirrors.get(1).expect("mirror").connection.clone();
    assert!(connection.is_stopped(), "{connection:?}");
    assert!(!connection.may_retry());

    // The status line is written from the reason, not from connect-failure
    // text.
    let prompt = ctx.chrome.remote_start.as_ref().expect("start prompt");
    assert_eq!(prompt.name, "buildbox");
    assert!(prompt.status.contains("no panes left"), "{prompt:?}");

    // The EOF that follows the announcement must not downgrade the deliberate
    // stop back into the offline retry ladder.
    ctx.drop_link(1, "connection closed", NOW);
    assert!(
        matches!(ctx.links.get(&1), Some(Link::Stopped)),
        "the EOF after an announced stop must not overwrite it"
    );
    assert!(ctx.mirrors.get(1).is_some_and(|mirror| mirror.connection.is_stopped()));
}

#[test]
fn an_unrecognised_stop_reason_is_treated_as_stopped_by_request() {
    let mut ctx = client(three_descriptors());
    ctx.links.insert(1, Link::Pending { generation: 1 });

    ctx.handle_server_frame(1, server_stopping_frame("hibernated"));

    assert!(matches!(ctx.links.get(&1), Some(Link::Stopped)));
    let prompt = ctx.chrome.remote_start.as_ref().expect("start prompt");
    assert!(prompt.status.contains("stopped by request"), "{prompt:?}");
}

#[test]
fn a_plain_disconnect_still_walks_the_retry_ladder() {
    let mut ctx = client(three_descriptors());
    ctx.links.insert(1, Link::Pending { generation: 1 });

    ctx.drop_link(1, "connection closed", NOW);

    assert!(
        matches!(ctx.links.get(&1), Some(Link::Down { .. })),
        "an unannounced disconnect keeps retrying"
    );
    assert!(ctx.mirrors.get(1).is_some_and(|mirror| mirror.connection.may_retry()));

    // Retried once its time has come, in view or not.
    ctx.chrome.selection.toggle(1, &ctx.descriptors).expect("out of view");
    assert!(ctx.due_reconnects(NOW).is_empty());
    assert_eq!(ctx.due_reconnects(NOW + LOST_LINK_RETRY_MS), vec![1]);
    let (due, started) = ctx.service_reconnects(NOW + LOST_LINK_RETRY_MS);
    assert_eq!(due, vec![1]);
    assert_eq!(started.len(), 1);
    assert!(matches!(ctx.links.get(&1), Some(Link::Pending { generation }) if *generation == started[0].1));
}

fn start_prompt() -> RemoteStartPrompt {
    RemoteStartPrompt {
        remote: 1,
        name: "buildbox".into(),
        status: "no server".into(),
        error: None,
        starting: false,
    }
}

#[test]
fn the_start_prompt_captures_input_ahead_of_the_edit_dialog() {
    let mut ctx = client(three_descriptors());
    ctx.chrome.remote_start = Some(start_prompt());
    // While the prompt is open the mouse is routed to the prompt alone, so
    // the click never reaches the chip strip.
    let over_a_chip = MouseHits { chip: Some(1), ..hits(PaneReport::Off) };
    let click = mouse_at(MouseEventKind::Down(MouseButton::Right), 0, 0);
    assert!(matches!(ctx.handle_mouse(click, over_a_chip, NOW), MouseStep::Nothing));
    assert!(
        ctx.chrome.remote_edit.is_none(),
        "the start prompt swallows the mouse while open"
    );
    assert!(ctx.chrome.remote_start.is_some(), "and stays open");

    // Keys reach the prompt ahead of the edit dialog too.
    ctx.chrome.remote_edit = Some(RemoteEditState::add());
    assert_eq!(ctx.fleet_overlay(), Some(FleetOverlay::StartPrompt));
    ctx.handle_key(key(KeyCode::Esc), false);
    assert!(ctx.chrome.remote_start.is_none(), "Esc dismissed the prompt");
    assert!(
        ctx.chrome.remote_edit.is_some(),
        "and left the edit dialog untouched"
    );
    assert_eq!(ctx.fleet_overlay(), Some(FleetOverlay::EditDialog));
}

#[test]
fn a_confirmed_start_is_ordered_once_and_its_outcome_reported() {
    let mut ctx = client(three_descriptors());
    ctx.chrome.remote_start = Some(start_prompt());
    ctx.links.insert(1, Link::Stopped);
    match ctx.handle_key(key(KeyCode::Enter), false) {
        KeyAction::Start(order) => {
            assert_eq!(order.remote, 1);
            assert_eq!(order.target, "can@buildbox.example");
        }
        other => panic!("expected a start, got {other:?}"),
    }
    assert!(ctx.chrome.remote_start.as_ref().expect("prompt").starting);
    match ctx.handle_key(key(KeyCode::Enter), false) {
        KeyAction::Nothing => {}
        other => panic!("a start in flight is not repeated, got {other:?}"),
    }
    ctx.handle_remote_started(1, Err("no route".to_owned()), NOW);
    let prompt = ctx.chrome.remote_start.as_ref().expect("prompt");
    assert_eq!(prompt.error.as_deref(), Some("no route"));
    assert!(!prompt.starting);
    ctx.handle_remote_started(1, Ok(()), NOW);
    assert!(ctx.chrome.remote_start.is_none());
    assert_eq!(ctx.due_reconnects(NOW), vec![1]);
}

#[test]
fn established_outcomes_from_stale_generations_are_dropped() {
    let mut ctx = client(three_descriptors());
    ctx.links.insert(1, Link::Pending { generation: 2 });
    ctx.handle_established(
        1,
        1,
        Established::Failed { error: "stale thread".to_owned(), retry_in: 0 },
        NOW,
    );
    assert!(
        matches!(ctx.links.get(&1), Some(Link::Pending { generation: 2 })),
        "a superseded connect thread must not disturb the live link"
    );

    ctx.handle_established(
        1,
        2,
        Established::Incompatible {
            remedy: HelloRemedy::UpgradeServer,
            message: "windows do not overlap".to_owned(),
        },
        NOW,
    );
    assert!(matches!(ctx.links.get(&1), Some(Link::Incompatible)));
    assert!(matches!(
        ctx.mirrors.get(1).map(|mirror| &mirror.connection),
        Some(ClientConnectionState::Incompatible { remedy: HelloRemedy::UpgradeServer, .. })
    ));
    // The greyed-out remote names itself and the exact fix.
    let status = ctx
        .chrome
        .connection_status
        .clone()
        .expect("an incompatible remote reports a remedy");
    assert!(status.contains("buildbox"), "{status}");
    assert!(status.contains("herdr remote upgrade buildbox"), "{status}");
}

#[test]
fn local_connects_off_thread_so_its_chip_can_show_connecting() {
    let mut ctx = client(three_descriptors());
    assert_eq!(ctx.descriptors[0].target, None, "remote #0 is the local runtime");
    let generation = ctx.begin_connect(0, NOW).expect("an attempt");
    assert!(
        matches!(ctx.links.get(&0), Some(Link::Pending { generation: g }) if *g == generation),
        "local connects off the run-loop thread, like any remote"
    );
    assert_eq!(
        chips(&ctx)[0],
        RemoteChipConnection::Connecting,
        "the local chip reports connecting like any remote"
    );
}

fn welcome() -> SessionWelcome {
    SessionWelcome {
        protocol: FRAMED_PROTOCOL_VERSION,
        min_protocol: 1,
        capabilities: vec![CAPABILITY_CATALOG.to_owned()],
        server_version: "9.9.9".to_owned(),
    }
}

#[test]
fn a_local_session_opens_its_link_and_resyncs_like_a_remote() {
    let mut ctx = client(three_descriptors());
    ctx.links.insert(LOCAL_REMOTE_INDEX, Link::Pending { generation: 4 });
    ctx.handle_established(
        LOCAL_REMOTE_INDEX,
        4,
        Established::Local { welcome: welcome() },
        NOW,
    );
    assert!(matches!(ctx.links.get(&LOCAL_REMOTE_INDEX), Some(Link::Up(_))));
    assert_eq!(chips(&ctx)[0], RemoteChipConnection::Connected);
    let requests = sent(&mut ctx, LOCAL_REMOTE_INDEX);
    assert_eq!(
        requests[0].text_of("method"),
        Some("session.snapshot"),
        "the snapshot request went out"
    );
    assert!(ctx.ui.ever_connected);
}

#[test]
fn a_fleet_reports_local_transport_loss_in_the_chip_not_a_toast() {
    let mut ctx = client(three_descriptors());
    up(&mut ctx, LOCAL_REMOTE_INDEX, session(1));
    render_chip_strip(&mut ctx, 4);

    ctx.drop_link(LOCAL_REMOTE_INDEX, "connection closed", NOW);

    assert!(matches!(ctx.links.get(&LOCAL_REMOTE_INDEX), Some(Link::Down { .. })));
    assert_eq!(
        chips(&ctx)[0],
        RemoteChipConnection::Offline,
        "the local chip goes hollow like any remote's"
    );
    assert_eq!(
        ctx.chrome.connection_status, None,
        "in a fleet the chip carries connection state, not a toast"
    );
}

#[test]
fn a_single_remote_reports_transport_loss_wherever_it_can_be_seen() {
    let mut ctx = client(vec![RemoteDescriptor::local()]);
    up(&mut ctx, LOCAL_REMOTE_INDEX, session(1));
    render_chip_strip(&mut ctx, 2);

    ctx.drop_link(LOCAL_REMOTE_INDEX, "connection closed", NOW);
    assert_eq!(
        ctx.chrome.connection_status, None,
        "with the strip on screen the chip dot is the channel"
    );

    // Lay the strip away: now the status line is all that is left.
    ctx.app.chip_strip_height = 0;
    up(&mut ctx, LOCAL_REMOTE_INDEX, session(1));
    ctx.drop_link(LOCAL_REMOTE_INDEX, "connection closed", NOW);
    assert_eq!(
        ctx.chrome.connection_status.as_deref(),
        Some("connection closed; reconnecting"),
        "with no strip on screen the status line is the only channel"
    );
}

#[test]
fn a_hidden_chip_strip_sends_local_transport_loss_back_to_the_status_line() {
    let mut ctx = client(three_descriptors());
    up(&mut ctx, LOCAL_REMOTE_INDEX, session(1));
    ctx.chrome.sidebar_collapsed = true;
    render_chip_strip(&mut ctx, 0);
    assert!(!ctx.app.remote_chips.is_empty(), "the fleet still has chips");

    ctx.drop_link(LOCAL_REMOTE_INDEX, "connection closed", NOW);

    assert_eq!(
        ctx.chrome.connection_status.as_deref(),
        Some("connection closed; reconnecting"),
        "a collapsed sidebar hides the dot, so the toast is the only channel"
    );

    // Mobile: no strip is rendered at any width.
    let mut ctx = client(three_descriptors());
    up(&mut ctx, LOCAL_REMOTE_INDEX, session(1));
    render_chip_strip(&mut ctx, 0);

    ctx.drop_link(LOCAL_REMOTE_INDEX, "connection closed", NOW);

    assert_eq!(
        ctx.chrome.connection_status.as_deref(),
        Some("connection closed; reconnecting"),
        "the mobile layout renders no chips, so the toast is the only channel"
    );
}

#[test]
fn the_client_says_the_local_handshake_is_in_flight_when_no_chip_can() {
    let mut ctx = client(vec![RemoteDescriptor::local()]);
    ctx.app.chip_strip_height = 0;
    ctx.begin_connect(0, NOW);
    assert_eq!(
        ctx.chrome.connection_status.as_deref(),
        Some("connecting to the local server")
    );

    let mut ctx = client(vec![RemoteDescriptor::local()]);
    render_chip_strip(&mut ctx, 2);
    ctx.begin_connect(0, NOW);
    assert_eq!(ctx.chrome.connection_status, None);

    let mut ctx = client(three_descriptors());
    render_chip_strip(&mut ctx, 4);
    ctx.begin_connect(0, NOW);
    assert_eq!(
        ctx.chrome.connection_status, None,
        "a fleet spins the local chip instead"
    );
}

fn data_frame() -> Frame {
    Frame { frame_type: FrameType::Data, stream_id: 9, payload: b"x".to_vec() }
}

#[test]
fn stale_reader_events_cannot_touch_a_successor_link() {
    let mut ctx = client(three_descriptors());
    let mut live = session(7);
    let backdated = NOW - 1_000;
    live.last_inbound = backdated;
    up(&mut ctx, 1, live);
    let last_inbound = |ctx: &ClientLoop| match ctx.links.get(&1) {
        Some(Link::Up(session)) => Some(session.last_inbound),
        _ => None,
    };

    // A disconnect from a torn-down reader (older generation) must not demote
    // the successor's link.
    ctx.reader_ended(1, 6, NOW);
    assert!(matches!(ctx.links.get(&1), Some(Link::Up(_))));

    // A stale reader's frame never reaches the successor's session.
    ctx.frame_arrived(1, 6, data_frame(), NOW);
    assert_eq!(last_inbound(&ctx), Some(backdated));

    // The current generation's frame counts as liveness.
    ctx.frame_arrived(1, 7, data_frame(), NOW);
    assert!(last_inbound(&ctx).expect("link is up") > backdated);

    // The current generation's disconnect still tears the link down.
    ctx.reader_ended(1, 7, NOW);
    assert!(matches!(ctx.links.get(&1), Some(Link::Down { .. })));
}

#[test]
fn silent_remotes_fail_the_heartbeat_and_pings_keep_live_ones_honest() {
    let mut ctx = client(three_descriptors());
    // Remote 1: silent past the pong timeout - the link must drop.
    let mut silent = session(1);
    silent.last_inbound = NOW - REMOTE_PONG_TIMEOUT_MS;
    up(&mut ctx, 1, silent);
    // Remote 2: alive but idle with a due ping - a ping must go out.
    let mut idle = session(2);
    idle.next_ping = NOW;
    up(&mut ctx, 2, idle);

    assert!(ctx.service_remote_heartbeats(NOW), "a dead link changed state");
    assert!(matches!(ctx.links.get(&1), Some(Link::Down { .. })));
    assert!(matches!(ctx.links.get(&2), Some(Link::Up(_))));
    let pings = sent(&mut ctx, 2);
    assert_eq!(pings[0].text_of("method"), Some("ping"), "heartbeat ping was written");
}

#[test]
fn the_ephemeral_fleet_of_one_at_index_zero_gets_heartbeats() {
    let descriptor = RemoteDescriptor::ephemeral(
        "can@gpu-1.example".to_owned(),
        "can@gpu-1.example".to_owned(),
        "default".to_owned(),
        None,
    );
    let mut ctx = client(vec![descriptor]);
    let mut silent = session(1);
    silent.last_inbound = NOW - REMOTE_PONG_TIMEOUT_MS;
    up(&mut ctx, LOCAL_REMOTE_INDEX, silent);
    assert!(
        ctx.service_remote_heartbeats(NOW),
        "a dead ephemeral transport must drop"
    );
    assert!(matches!(ctx.links.get(&LOCAL_REMOTE_INDEX), Some(Link::Down { .. })));
}

#[test]
fn a_silent_local_socket_fails_the_heartbeat_like_any_remote() {
    let mut ctx = client(three_descriptors());
    let mut idle = session(1);
    idle.next_ping = NOW;
    up(&mut ctx, LOCAL_REMOTE_INDEX, idle);

    // Alive but idle: local is pinged like every other member.
    assert!(!ctx.service_remote_heartbeats(NOW));
    assert_eq!(
        sent(&mut ctx, LOCAL_REMOTE_INDEX).len(),
        1,
        "the local link is pinged too"
    );

    // Silent past the pong timeout: the link drops and the chip goes hollow.
    if let Some(Link::Up(session)) = ctx.links.get_mut(&LOCAL_REMOTE_INDEX) {
        session.last_inbound = NOW - REMOTE_PONG_TIMEOUT_MS;
    }
    assert!(ctx.service_remote_heartbeats(NOW), "a dead link changed state");
    assert!(matches!(ctx.links.get(&LOCAL_REMOTE_INDEX), Some(Link::Down { .. })));
    assert_eq!(chips(&ctx)[0], RemoteChipConnection::Offline);
}

#[test]
fn a_full_remote_write_queue_fails_instead_of_blocking_the_loop() {
    let mut session = Session::fresh(1, NOW, Some(1));
    let value = |text: &str| decode_json(text.as_bytes()).expect("json");
    assert!(session.send_control(value(r#"{"id":"a"}"#)).is_ok());
    let err = session
        .send_control(value(r#"{"id":"b"}"#))
        .expect_err("second frame overflows the bound-1 queue");
    assert_eq!(err, SendError::QueueFull);
    session.writable = false;
    assert_eq!(
        session.send_control(value(r#"{"id":"c"}"#)),
        Err(SendError::WriterEnded)
    );
}

#[test]
fn a_message_that_no_frame_carries_is_refused() {
    let mut session = Session::fresh(1, NOW, Some(8));
    let long = Json::Text("x".repeat(MAX_FRAME_PAYLOAD - 2));
    assert!(session.send_control(long).is_ok(), "with its quotes it just fits");
    assert_eq!(session.next_message().map(|bytes| bytes.len()), Some(MAX_FRAME_PAYLOAD));
    assert_eq!(session.next_message(), None);

    let longer = || Json::Text("x".repeat(MAX_FRAME_PAYLOAD - 1));
    assert_eq!(session.send_control(longer()), Err(SendError::TooLarge));
    assert!(session.outbox.is_empty(), "nothing is queued");
    session.writable = false;
    assert_eq!(session.send_control(longer()), Err(SendError::TooLarge));
    assert_eq!(SendError::TooLarge.message(), "frame payload too large");
}

#[test]
fn nothing_is_recorded_for_a_remote_without_a_mirror() {
    let mut ctx = client(vec![RemoteDescriptor::local()]);
    up(&mut ctx, 5, session(1));
    ctx.apply_snapshot(5, canned_snapshot("p_1_1", "repo"), 3);
    ctx.replica_opened(5, "p_1_1".to_owned(), StreamMode::Read, 7, replica("s", 1));
    assert!(ctx.mirrors.get(5).is_none());
    match ctx.links.get(&5) {
        Some(Link::Up(session)) => assert!(session.read_only.is_empty()),
        other => panic!("expected a live link, got {other:?}"),
    }
}

#[test]
fn ui_ticks_expire_the_status_flash_and_animate_the_spinner() {
    let mut ctx = client(three_descriptors());
    ctx.ui.status_flash = Some((
        "at least one remote stays in view".to_owned(),
        NOW - STATUS_FLASH_TTL_MS - 50,
    ));
    assert!(ctx.service_ui_ticks(NOW), "expiry forces a recompose");
    assert!(ctx.ui.status_flash.is_none());

    // No remote connecting: the spinner does not tick.
    assert!(!ctx.service_ui_ticks(NOW));

    // A connecting remote advances the spinner one visual frame.
    ctx.mirrors.get_mut(1).expect("mirror").connection.connect_started();
    let before = ctx.app.spinner_tick;
    assert!(ctx.service_ui_ticks(NOW), "spinner tick forces a redraw");
    assert_ne!(ctx.app.spinner_tick, before);
}

#[test]
fn pure_client_default_resolution_honors_explicit_setting() {
    assert_eq!(pure_client_enabled(None, None), PURE_CLIENT_DEFAULT);
    assert!(
        pure_client_enabled(None, None),
        "the pure client is the default run path"
    );

    // An explicit user setting always wins over the release default - in both
    // directions, so opt-ins and opt-outs survive the flip.
    assert!(pure_client_enabled(None, Some(true)));
    assert!(!pure_client_enabled(None, Some(false)));

    // The env override beats even explicit settings (test/dev hook).
    assert!(pure_client_enabled(Some("1"), Some(false)));
    assert!(!pure_client_enabled(Some("0"), Some(true)));
}

#[test]
fn modal_keys_and_releases_never_reach_the_pane() {
    let mut ctx = client(vec![RemoteDescriptor::local()]);
    ctx.mirrors.insert(mirror_with_replica());
    compose_local(&mut ctx);
    up(&mut ctx, LOCAL_REMOTE_INDEX, session(1));

    // Positive control: a Terminal-mode press reaches the pane.
    ctx.app.mode = Mode::Terminal;
    match ctx.handle_key(key(KeyCode::Char('a')), false) {
        KeyAction::Forward => {}
        other => panic!("expected the key to go on, got {other:?}"),
    }
    let (remote, pane_id) = ctx.focused_public_pane().expect("focused pane");
    ctx.send_pane_bytes(remote, &pane_id, b"a");
    let requests = sent(&mut ctx, LOCAL_REMOTE_INDEX);
    assert_eq!(requests[0].text_of("method"), Some("pane.send_bytes"));

    // A press typed into a rename modal edits the modal, not the pane, and
    // the matching release must not leak into the pane either.
    ctx.app.mode = Mode::RenameWorkspace;
    for kind in [KeyEventKind::Press, KeyEventKind::Release] {
        let action = ctx.handle_key(key(KeyCode::Char('b')).with_kind(kind), false);
        assert!(!matches!(action, KeyAction::Forward), "{action:?}");
    }
    assert!(sent(&mut ctx, LOCAL_REMOTE_INDEX).is_empty());
}

#[test]
fn hidden_pane_streams_are_selected_for_closing() {
    let mut mirror = adversarial_mirror();
    mirror.stream_opened("p_2_1".to_owned(), 3, replica("a", 1));
    mirror.stream_opened("p_10_1".to_owned(), 4, replica("b", 1));

    let visible = vec!["p_2_1".to_owned(), "p_2_10".to_owned()];
    let hidden = hidden_pane_streams(&mirror, &visible);
    assert_eq!(hidden, vec![("p_10_1".to_owned(), 4)]);

    mirror.stream_closed(4);
    assert!(hidden_pane_streams(&mirror, &visible).is_empty());
    assert_eq!(mirror.pane_streams.len(), mirror.replicas.len());
    for (pane_id, stream_id) in &mirror.pane_streams.entries {
        assert!(mirror.replicas.contains(stream_id));
        assert!(mirror.catalog.pane(pane_id).is_some());
        assert_eq!(mirror.pane_for_stream(*stream_id), Some(pane_id.as_str()));
    }
}

#[test]
fn streams_open_for_what_is_visible_and_close_for_what_is_not() {
    let mut ctx = client(vec![RemoteDescriptor::local()]);
    let mut mirror = adversarial_mirror();
    mirror.stream_opened("p_10_1".to_owned(), 4, replica("b", 1));
    ctx.mirrors.insert(mirror);
    compose_local(&mut ctx);
    up(&mut ctx, LOCAL_REMOTE_INDEX, session(1));
    let requests = vec![
        PaneResizeRequest { terminal_id: "term_21".to_owned(), cols: 40, rows: 20 },
        PaneResizeRequest { terminal_id: "term_210".to_owned(), cols: 40, rows: 20 },
    ];
    ctx.sync_all_pane_streams(&requests);
    let methods: Vec<String> = sent(&mut ctx, LOCAL_REMOTE_INDEX)
        .iter()
        .map(|r| r.text_of("method").unwrap_or("?").to_owned())
        .collect();
    assert_eq!(methods.iter().filter(|m| *m == "stream.close").count(), 1);
    assert_eq!(methods.iter().filter(|m| *m == "stream.open").count(), 2);
    // Nothing is asked for twice while the answers are awaited.
    ctx.sync_all_pane_streams(&requests);
    assert!(sent(&mut ctx, LOCAL_REMOTE_INDEX).is_empty());
}

fn event_frame(text: &str) -> Frame {
    Frame {
        frame_type: FrameType::Control,
        stream_id: CONTROL_STREAM_ID,
        payload: text.as_bytes().to_vec(),
    }
}

#[test]
fn frames_are_told_apart() {
    let mut ctx = client(vec![RemoteDescriptor::local()]);
    ctx.mirrors.insert(mirror_with_replica());
    up(&mut ctx, LOCAL_REMOTE_INDEX, session(1));
    let tail = Frame { frame_type: FrameType::Data, stream_id: 3, payload: b"out".to_vec() };
    match ctx.handle_server_frame(0, tail) {
        FrameEffect::ApplyTail { stream_id, payload } => {
            assert_eq!((stream_id, payload), (3, b"out".to_vec()));
        }
        other => panic!("expected a tail, got {other:?}"),
    }
    match ctx.handle_server_frame(
        0,
        event_frame(r#"{"event":"catalog.event","seq":5,"data":{"event":"pane_closed"}}"#),
    ) {
        FrameEffect::DecodeEvent { sequence, data } => {
            assert_eq!(sequence, 5);
            assert_eq!(data.text_of("event"), Some("pane_closed"));
        }
        other => panic!("expected an event, got {other:?}"),
    }
    ctx.apply_catalog_event(
        0,
        5,
        EventEnvelope {
            data: EventData::PaneClosed {
                pane_id: "p_1_1".to_owned(),
                workspace_id: "ws_1".to_owned(),
            },
        },
    );
    assert!(ctx.mirrors.get(0).expect("mirror").catalog.pane("p_1_1").is_none());
    ctx.handle_server_frame(
        0,
        event_frame(r#"{"event":"stream.closed","data":{"stream_id":3}}"#),
    );
    let mirror = ctx.mirrors.get(0).expect("mirror");
    assert_eq!(mirror.replicas.len(), 0, "a stream's replica goes with it");
    assert_eq!(mirror.pane_streams.len(), 0);

    match ctx.handle_server_frame(
        0,
        event_frame(r#"{"event":"notification.posted","seq":6,"data":{"message":"done"}}"#),
    ) {
        FrameEffect::DecodeNotification { data } => {
            assert_eq!(data.text_of("message"), Some("done"));
        }
        other => panic!("expected a notification, got {other:?}"),
    }
    match ctx.handle_server_frame(0, event_frame("garbage")) {
        FrameEffect::Nothing => {}
        other => panic!("expected nothing, got {other:?}"),
    }
}

#[test]
fn titles_follow_the_focused_remote() {
    let mut ctx = client(three_descriptors());
    ctx.handle_server_frame(
        1,
        event_frame(r#"{"event":"window_title.changed","seq":1,"data":{"title":"builds"}}"#),
    );
    assert_eq!(ctx.apply_window_title(), None, "buildbox is not focused");
    ctx.chrome.selection.focused_remote = 1;
    assert_eq!(ctx.apply_window_title(), Some(Some("builds".to_owned())));
    assert_eq!(ctx.apply_window_title(), None, "nothing changed since");
}

#[test]
fn list_actions_become_config_edits() {
    let mut entries = vec![entry("a", Some("u@a")), entry("b", Some("u@b"))];
    apply_config_edit(
        &mut entries,
        ConfigEdit::Reorder { name: "b".to_owned(), direction: MoveDirection::Up },
    );
    assert_eq!(entries[0].name, "b");
    apply_config_edit(&mut entries, ConfigEdit::ToggleEnabled { name: "a".to_owned() });
    assert!(!entries[1].enabled);
    apply_config_edit(&mut entries, ConfigEdit::Remove { name: "b".to_owned() });
    assert_eq!(entries.len(), 1);
    apply_config_edit(
        &mut entries,
        ConfigEdit::Save {
            original: Some("a".to_owned()),
            entry: entry("renamed", Some("u@a")),
        },
    );
    assert_eq!(entries.len(), 1);
    assert_eq!(entries[0].name, "renamed");

    let mut ctx = client(three_descriptors());
    let rows = remote_list_rows(
        &[entry("buildbox", Some("can@buildbox.example"))],
        &ctx.descriptors,
        &ctx.mirrors,
    );
    ctx.chrome.remote_list = Some(RemoteListState::new(rows));
    match ctx.handle_key(key(KeyCode::Char(' ')), false) {
        KeyAction::List(ListStep::Edit(ConfigEdit::ToggleEnabled { name })) => {
            assert_eq!(name, "buildbox");
        }
        other => panic!("expected an edit, got {other:?}"),
    }
    ctx.list_edit_refused("read-only".to_owned());
    assert_eq!(
        ctx.chrome.remote_list.as_ref().expect("list").error.as_deref(),
        Some("read-only")
    );
}

#[test]
fn pastes_and_cursor_keys_follow_the_panes_mode() {
    assert_eq!(encode_paste("x", false), b"x");
    assert_eq!(encode_paste("x", true), b"\x1b[200~x\x1b[201~");
    assert!(uses_application_cursor(true, key(KeyCode::Up), true));
    assert!(!uses_application_cursor(true, key(KeyCode::Up), false));
    assert!(!uses_application_cursor(false, key(KeyCode::Up), true));
    assert!(!uses_application_cursor(true, key(KeyCode::Char('a')), true));
    assert_eq!(wheel_delta(3, MouseEventKind::ScrollUp), -3);
    assert_eq!(wheel_delta(3, MouseEventKind::ScrollDown), 3);
}

#[test]
fn images_are_pasted_only_where_they_are_taken() {
    let mut ctx = client(vec![RemoteDescriptor::local()]);
    let mut mirror = mirror_with_replica();
    mirror.connection.connect_started();
    mirror.connection.connected(NegotiatedSession {
        protocol: FRAMED_PROTOCOL_VERSION,
        capabilities: vec!["paste-image".to_owned()],
    });
    ctx.mirrors.insert(mirror);
    compose_local(&mut ctx);
    assert!(!ctx.try_paste_image("", "png", b"img", 10), "the link is down");
    up(&mut ctx, LOCAL_REMOTE_INDEX, session(1));
    assert!(!ctx.try_paste_image("text", "png", b"img", 10));
    assert!(ctx.try_paste_image("", "png", b"far too large", 10), "refused for good");
    assert!(sent(&mut ctx, LOCAL_REMOTE_INDEX).is_empty());
    assert!(ctx.try_paste_image("", "png", b"img", 10));
    let requests = sent(&mut ctx, LOCAL_REMOTE_INDEX);
    let params = requests[0].get("params").expect("params");
    assert_eq!(params.text_of("extension"), Some("png"));
    assert_eq!(params.text_of("data_base64"), Some("aW1n"));
    assert_eq!(params.text_of("pane_id"), Some("p_1_1"));
}

#[test]
fn bridge_failures_are_described_and_classified() {
    assert!(uses_default_socket("default"));
    assert!(!uses_default_socket("work"));
    assert_eq!(
        with_tail("bridge closed".to_owned(), "a\nb\n\n"),
        "bridge closed (ssh: a; b)"
    );
    assert_eq!(with_tail("bridge closed".to_owned(), ""), "bridge closed");
    assert_eq!(
        describe_hello_failure(12_000, "timed out", ""),
        "session.hello timed out after 10s"
    );
    assert_eq!(
        describe_hello_failure(5, "eof", "denied\n"),
        "session.hello failed: eof (ssh: denied)"
    );
    match classify_failure("gpu", "no server".to_owned(), true) {
        BridgeFailure::Stopped { status } => assert_eq!(status, stopped_status_line("gpu")),
        other => panic!("expected a stopped server, got {other:?}"),
    }
    match classify_failure("gpu", "refused".to_owned(), false) {
        BridgeFailure::Failed { error } => assert_eq!(error, "refused"),
        other => panic!("expected a failure, got {other:?}"),
    }
}

#[test]
fn snapshots_resync_and_drop_streams_of_gone_panes() {
    let mut ctx = client(vec![RemoteDescriptor::local()]);
    ctx.mirrors.insert(mirror_with_replica());
    up(&mut ctx, LOCAL_REMOTE_INDEX, session(1));
    ctx.apply_snapshot(0, canned_snapshot("p_1_9", "repo"), 50);
    let mirror = ctx.mirrors.get(0).expect("mirror");
    assert_eq!(mirror.catalog.sequence, 50);
    assert!(mirror.catalog.pane("p_1_1").is_none());
    assert_eq!(mirror.replicas.len(), 0);
    let requests = sent(&mut ctx, LOCAL_REMOTE_INDEX);
    assert_eq!(requests.len(), 1);
    assert_eq!(requests[0].text_of("method"), Some("stream.close"));
}

#[test]
fn history_is_asked_for_only_where_it_can_land() {
    let mut ctx = client(vec![RemoteDescriptor::local()]);
    ctx.mirrors.insert(mirror_with_replica());
    ctx.request_backfill(0, 3, BackfillTrigger::Scroll, Some("cursor-1"));
    up(&mut ctx, LOCAL_REMOTE_INDEX, session(1));
    ctx.request_backfill(0, 4, BackfillTrigger::Scroll, Some("cursor-1"));
    assert!(sent(&mut ctx, 0).is_empty(), "no such replica");
    ctx.request_backfill(0, 3, BackfillTrigger::Scroll, None);
    assert!(sent(&mut ctx, 0).is_empty(), "nothing older is wanted");
    ctx.request_backfill(0, 3, BackfillTrigger::Scroll, Some("cursor-1"));
    let requests = sent(&mut ctx, 0);
    assert_eq!(requests.len(), 1);
    let id = requests[0].text_of("id").expect("id");
    assert_eq!(id, "pure:history:2");
    let page = format!(
        "{{\"id\":\"{id}\",\"result\":{{\"type\":\"stream_history\",\"content\":\"old\"}}}}"
    );
    match ctx.handle_server_frame(0, event_frame(&page)) {
        FrameEffect::ApplyHistory { stream_id, .. } => assert_eq!(stream_id, 3),
        other => panic!("expected a page, got {other:?}"),
    }
}

/// The one history request that was sent: its cursor and its size.
fn history_request(ctx: &mut ClientLoop) -> Option<(String, u64)> {
    let requests = sent(ctx, LOCAL_REMOTE_INDEX);
    let request = requests.first()?;
    assert_eq!(requests.len(), 1);
    assert_eq!(request.text_of("method"), Some(STREAM_HISTORY_METHOD));
    let params = request.get("params").expect("params");
    Some((
        params.text_of("cursor").expect("cursor").to_owned(),
        params.unsigned_of("max_bytes").expect("max_bytes"),
    ))
}

fn stream_opened_frame(request_id: &str, pane_id: &str, stream_id: u32) -> Frame {
    event_frame(&format!(
        "{{\"id\":\"{request_id}\",\"result\":{{\"type\":\"pane_stream_opened\",\"stream\":{{\
         \"pane_id\":\"{pane_id}\",\"stream_id\":{stream_id},\"sequence\":0,\
         \"snapshot\":\"hello\",\"history_cursor\":\"cursor-1\",\"cols\":80,\"rows\":24}}}}}}"
    ))
}

/// Records an opened stream the way the client does, then warms it.
fn attach(ctx: &mut ClientLoop, frame: Frame) {
    match ctx.handle_server_frame(LOCAL_REMOTE_INDEX, frame) {
        FrameEffect::OpenReplica { pane_id, mode, opened, cols, rows, focused } => {
            let cursor = opened.history_cursor.clone();
            let replica = PaneReplica {
                snapshot: opened.snapshot,
                sequence: opened.sequence,
                history_cursor: Some(opened.history_cursor),
                cols,
                rows,
            };
            ctx.replica_opened(LOCAL_REMOTE_INDEX, pane_id, mode, opened.stream_id, replica);
            ctx.request_backfill(
                LOCAL_REMOTE_INDEX,
                opened.stream_id,
                BackfillTrigger::Attach { focused },
                Some(&cursor),
            );
        }
        other => panic!("expected an opened stream, got {other:?}"),
    }
}

#[test]
fn attaching_warms_one_history_page_for_the_focused_pane_only() {
    let mut ctx = client(vec![RemoteDescriptor::local()]);
    // Two panes in one tab, p_1_1 focused. Both stream; only the focused one
    // may pay for history at attach.
    let mut mirror = RemoteMirror::local();
    connect(&mut mirror);
    let mut snapshot = canned_snapshot("p_1_1", "repo");
    snapshot.panes.push(pane("p_1_2", "term_2", "ws_1", "t_1_1", false, 1));
    mirror.catalog.resync(snapshot, 1);
    ctx.mirrors.insert(mirror);
    compose_local(&mut ctx);
    assert_eq!(
        ctx.app.workspaces[0]
            .focused_pane_id()
            .and_then(|pane| ctx.ids.public_pane_id(pane))
            .map(|(_, public)| public),
        Some("p_1_1"),
        "the composed view focuses the pane the catalog flagged"
    );

    let mut live = session(1);
    for (id, pane_id) in [("o1", "p_1_2"), ("o2", "p_1_1")] {
        live.expect(
            id.to_owned(),
            Pending::StreamOpen { pane_id: pane_id.to_owned(), mode: StreamMode::Write },
        );
    }
    up(&mut ctx, LOCAL_REMOTE_INDEX, live);

    // The unfocused pane attaches first and pays nothing.
    attach(&mut ctx, stream_opened_frame("o1", "p_1_2", 4));
    assert!(
        history_request(&mut ctx).is_none(),
        "a pane nobody is looking at must not fetch history at attach"
    );
    // The focused pane gets one eager page.
    attach(&mut ctx, stream_opened_frame("o2", "p_1_1", 3));
    let (cursor, _) = history_request(&mut ctx).expect("attach warms the focused pane");
    assert_eq!(cursor, "cursor-1");
}

/// Carries out what a click on the scrollbar came to.
fn scrollbar(ctx: &mut ClientLoop, pane: usize) {
    ctx.app.request_history_backfill_pane = Some(pane);
    let outcome = ctx.handle_mouse_action(Mode::Terminal, None);
    if let Some((remote, stream_id)) = outcome.backfill {
        ctx.request_backfill(remote, stream_id, BackfillTrigger::Scroll, Some("cursor-1"));
    }
}

#[test]
fn clicking_the_pane_scrollbar_track_pages_in_more_history() {
    let (mut ctx, pane) = client_with_pane();
    let press = mouse_at(MouseEventKind::Down(MouseButton::Left), 50, 5);
    assert!(matches!(ctx.handle_mouse(press, hits(PaneReport::Off), NOW), MouseStep::Chrome));
    scrollbar(&mut ctx, pane);
    let (cursor, _) = history_request(&mut ctx).expect("the click pages history in");
    assert_eq!(cursor, "cursor-1");
}

#[test]
fn dragging_the_pane_scrollbar_thumb_pages_in_more_history() {
    let (mut ctx, pane) = client_with_pane();
    let press = mouse_at(MouseEventKind::Down(MouseButton::Left), 50, 24);
    assert!(matches!(ctx.handle_mouse(press, hits(PaneReport::Off), NOW), MouseStep::Chrome));
    let outcome = ctx.handle_mouse_action(Mode::Terminal, None);
    assert_eq!(outcome.backfill, None, "grabbing the thumb scrolls nothing yet");
    let drag = mouse_at(MouseEventKind::Drag(MouseButton::Left), 50, 5);
    assert!(matches!(ctx.handle_mouse(drag, hits(PaneReport::Off), NOW), MouseStep::Chrome));
    scrollbar(&mut ctx, pane);
    let (cursor, _) = history_request(&mut ctx).expect("the drag pages history in");
    assert_eq!(cursor, "cursor-1");
    assert!(
        ctx.app.request_history_backfill_pane.is_none(),
        "the request is drained once"
    );
}

#[test]
fn wheel_scrolling_toward_the_top_pages_in_more_history() {
    let (mut ctx, _) = client_with_pane();
    let up = mouse_at(MouseEventKind::ScrollUp, 10, 5);
    match ctx.handle_mouse(up, hits(PaneReport::Off), NOW) {
        MouseStep::Scroll { remote, stream_id, .. } => {
            ctx.request_backfill(remote, stream_id, BackfillTrigger::Scroll, Some("cursor-1"));
        }
        other => panic!("expected a scroll, got {other:?}"),
    }
    // The lazy scroll plan, not the whole budget.
    let (_, max_bytes) = history_request(&mut ctx).expect("the wheel pages history in");
    assert_eq!(max_bytes, HISTORY_PAGE_DEFAULT_BYTES as u64);
}

#[test]
fn page_up_on_a_plain_pane_pages_in_more_history() {
    let (mut ctx, _) = client_with_pane();
    match ctx.handle_key(key(KeyCode::PageUp), false) {
        KeyAction::Page { remote, stream_id, up } => {
            assert!(up);
            ctx.request_backfill(remote, stream_id, BackfillTrigger::Scroll, Some("cursor-1"));
        }
        other => panic!("expected a page, got {other:?}"),
    }
    assert!(history_request(&mut ctx).is_some(), "page up pages history in");
}

/// Types a key in copy mode; `top` says whether it jumps to the top.
fn copy_mode_key(ctx: &mut ClientLoop, pane: usize, key: TerminalKey, top: bool) {
    ctx.app.mode = Mode::Copy;
    ctx.app.copy_mode_pane = Some(pane);
    match ctx.handle_key(key, false) {
        KeyAction::CopyMode { pane } => {
            ctx.app.request_history_top_backfill = top;
            let (stream, top) = ctx.copy_mode_backfill(pane);
            let (remote, stream_id) = stream.expect("the pane is streamed");
            let trigger =
                if top { BackfillTrigger::JumpToTop } else { BackfillTrigger::Scroll };
            ctx.request_backfill(remote, stream_id, trigger, Some("cursor-1"));
        }
        other => panic!("expected copy mode, got {other:?}"),
    }
}

#[test]
fn copy_mode_scrolling_pages_history_in_lazily_not_all_at_once() {
    let (mut ctx, pane) = client_with_pane();
    let up = TerminalKey {
        code: KeyCode::Char('u'),
        modifiers: KeyModifiers::control(),
        kind: KeyEventKind::Press,
    };
    copy_mode_key(&mut ctx, pane, up, false);
    // A motion is a scroll, not a jump: one lazy page, not the budget.
    let (_, max_bytes) = history_request(&mut ctx).expect("the motion pages history in");
    assert_eq!(max_bytes, HISTORY_PAGE_DEFAULT_BYTES as u64);
}

#[test]
fn copy_mode_jump_to_top_fetches_one_large_history_page() {
    let (mut ctx, pane) = client_with_pane();
    copy_mode_key(&mut ctx, pane, key(KeyCode::Char('g')), true);
    // One large fetch, not the page-by-page scroll plan.
    let (_, max_bytes) = history_request(&mut ctx).expect("the jump fetches history");
    assert_eq!(max_bytes, 1024 * 1024);
    assert!(!ctx.app.request_history_top_backfill, "the request is drained once");
}

#[test]
fn landed_rows_renumber_only_their_own_pane() {
    let mut ctx = client(vec![RemoteDescriptor::local()]);
    ctx.mirrors.insert(mirror_with_replica());
    compose_local(&mut ctx);
    let pane = ctx.ids.composed_pane_id(0, "p_1_1").expect("composed");
    assert_eq!(ctx.pane_to_rebase(0, 3, 5), Some(pane));
    assert_eq!(ctx.pane_to_rebase(0, 3, 0), None, "nothing landed");
    assert_eq!(ctx.pane_to_rebase(0, 4, 5), None);
    assert_eq!(ctx.pane_to_rebase(1, 3, 5), None);
}

#[test]
fn opened_streams_are_recorded_with_their_mode() {
    let mut ctx = client(vec![RemoteDescriptor::local()]);
    ctx.mirrors.insert(adversarial_mirror());
    up(&mut ctx, LOCAL_REMOTE_INDEX, session(1));
    ctx.replica_opened(0, "p_2_1".to_owned(), StreamMode::Read, 7, replica("s", 1));
    assert_eq!(ctx.mirrors.get(0).expect("mirror").stream_for_pane("p_2_1"), Some(7));
    match ctx.links.get(&0) {
        Some(Link::Up(session)) => assert!(session.read_only.contains(&7)),
        other => panic!("expected a live link, got {other:?}"),
    }
}

#[test]
fn copy_mode_ends_with_its_pane() {
    let mut ctx = client(vec![RemoteDescriptor::local()]);
    ctx.mirrors.insert(mirror_with_replica());
    compose_local(&mut ctx);
    assert!(!ctx.copy_mode_pane_gone());
    ctx.app.copy_mode_pane = ctx.ids.composed_pane_id(0, "p_1_1");
    assert!(!ctx.copy_mode_pane_gone());
    ctx.apply_catalog_event(
        0,
        9,
        EventEnvelope {
            data: EventData::PaneClosed {
                pane_id: "p_1_1".to_owned(),
                workspace_id: "ws_1".to_owned(),
            },
        },
    );
    assert!(ctx.copy_mode_pane_gone());
}

#[test]
fn flashes_show_until_they_expire() {
    let mut ctx = client(three_descriptors());
    ctx.ui.status_flash = Some(("at least one remote stays in view".to_owned(), NOW));
    ctx.apply_status_flash(NOW + STATUS_FLASH_TTL_MS);
    let toast = ctx.app.toast.as_ref().expect("a toast");
    assert_eq!(toast.title, "at least one remote stays in view");
    assert_eq!(toast.context, "remotes");
    ctx.app.toast = None;
    ctx.apply_status_flash(NOW + STATUS_FLASH_TTL_MS + 1);
    assert!(ctx.app.toast.is_none());
    assert!(ctx.ui.status_flash.is_none());
}

#[test]
fn notifications_name_their_remote_in_a_fleet() {
    let ctx = client(three_descriptors());
    assert_eq!(ctx.notification_message(1, "done"), "[buildbox] done");
    assert_eq!(ctx.notification_message(9, "done"), "[remote] done");
    let alone = client(vec![RemoteDescriptor::local()]);
    assert_eq!(alone.notification_message(0, "done"), "done");
}

#[test]
fn views_serve_the_screens_of_what_is_in_view() {
    let mut ctx = client(three_descriptors());
    ctx.mirrors.insert(mirror_with_replica());
    let view = ctx.in_view_remotes();
    assert_eq!(view, vec![0, 1, 2]);
    let screens = screens_for_view(&ctx.mirrors, &view);
    assert_eq!(screens.get(&"term_1".to_owned()), Some(&(0, 3)));
    ctx.chrome.selection.toggle(0, &ctx.descriptors).expect("out of view");
    let view = ctx.in_view_remotes();
    assert_eq!(view, vec![1, 2]);
    assert_eq!(screens_for_view(&ctx.mirrors, &view).len(), 0);
}

#[test]
fn saved_edits_reconcile_the_fleet() {
    let mut ctx = client(three_descriptors());
    ctx.chrome.remote_edit = Some(RemoteEditState::add());
    ctx.dialog_edit_refused("read-only".to_owned());
    assert_eq!(
        ctx.chrome.remote_edit.as_ref().expect("dialog").error.as_deref(),
        Some("read-only")
    );
    let entries = vec![entry("local", None), entry("new", Some("u@new"))];
    ctx.dialog_edit_saved(&entries, NOW);
    assert!(ctx.chrome.remote_edit.is_none());
    assert_eq!(ctx.descriptors.len(), 2);
    assert_eq!(ctx.descriptors[1].name, "new");
    assert!(matches!(ctx.links.get(&1), Some(Link::Down { .. })));
}

#[test]
fn stops_that_fail_are_flashed() {
    let mut ctx = client(three_descriptors());
    ctx.chrome.remote_list = Some(RemoteListState::new(Vec::new()));
    ctx.handle_remote_stopped(Err("no route".to_owned()));
    assert_eq!(
        ctx.chrome.remote_list.as_ref().expect("list").error.as_deref(),
        Some("no route")
    );
}

#[test]
fn clicks_in_modals_stay_in_modals() {
    let mut ctx = client(three_descriptors());
    let down = MouseEventKind::Down(MouseButton::Left);
    let rows = remote_list_rows(
        &[entry("a", Some("u@a")), entry("b", Some("u@b"))],
        &ctx.descriptors,
        &ctx.mirrors,
    );
    ctx.chrome.remote_list = Some(RemoteListState::new(rows));
    assert_eq!(ctx.route_mouse(down, Some(0)), MouseRoute::RemoteList);
    ctx.handle_remote_list_click(down, false, Some(1));
    assert_eq!(ctx.chrome.remote_list.as_ref().expect("list").selected, 1);
    ctx.handle_remote_list_click(down, true, None);
    assert!(ctx.chrome.remote_list.is_none());

    ctx.chrome.remote_edit = Some(RemoteEditState::add());
    assert_eq!(ctx.route_mouse(down, Some(0)), MouseRoute::EditDialog);
    assert!(ctx.handle_dialog_click(down, false, true).is_none());
    assert!(ctx.chrome.remote_edit.is_none(), "cancel closes it");
    assert_eq!(
        ctx.route_mouse(down, Some(2)),
        MouseRoute::Chip(2, MouseButton::Left)
    );
}

#[test]
fn modal_methods_go_to_the_selected_workspaces_remote() {
    let mut ctx = client(three_descriptors());
    let mut remote = RemoteMirror::new(1, "buildbox".to_owned());
    connect(&mut remote);
    remote.catalog.resync(canned_snapshot("p_1_1", "builds"), 1);
    ctx.mirrors.insert(remote);
    render_chip_strip(&mut ctx, 4);
    up(&mut ctx, 1, session(1));
    ctx.app.selected = 0;
    ctx.send_modal_methods(
        vec![Method::WorkspaceClose { workspace_id: "r1:ws_1".to_owned() }],
        0,
    );
    let requests = sent(&mut ctx, 1);
    assert_eq!(method_of(&requests[0]), Some("workspace.close"));
    let params = requests[0]
        .get("params")
        .and_then(|p| p.get("request"))
        .and_then(|r| r.get("params"))
        .expect("params");
    assert_eq!(params.text_of("workspace_id"), Some("ws_1"));
}

#[test]
fn pastes_go_where_typing_goes() {
    let mut ctx = client(vec![RemoteDescriptor::local()]);
    ctx.app.mode = Mode::Terminal;
    assert_eq!(ctx.route_paste(), PasteRoute::Pane);
    ctx.app.mode = Mode::RenameTab;
    assert_eq!(ctx.route_paste(), PasteRoute::RenameInput);
    ctx.app.mode = Mode::Navigate;
    assert_eq!(ctx.route_paste(), PasteRoute::Nowhere);
    ctx.app.mode = Mode::Terminal;
    ctx.chrome.remote_edit = Some(RemoteEditState::add());
    assert_eq!(ctx.route_paste(), PasteRoute::Nowhere);
    assert_eq!(page_delta(Some(30), true), -30);
    assert_eq!(page_delta(Some(0), false), 1);
    assert_eq!(page_delta(None, false), 24);
}

#[test]
fn config_reaches_the_view_and_nothing_else() {
    let mut ctx = client(vec![RemoteDescriptor::local()]);
    ctx.mirrors.insert(mirror_with_replica());
    compose_local(&mut ctx);
    apply_client_config(
        &mut ctx.app,
        ClientConfig {
            prefix_key: KeyChord { code: KeyCode::Char('a'), modifiers: KeyModifiers::control() },
            sidebar_start_collapsed: true,
            copy_on_select: true,
            mouse_scroll_lines: 5,
            keybinds: Keybinds::unbound(),
        },
    );
    assert!(ctx.app.sidebar_collapsed);
    assert_eq!(ctx.app.mouse_scroll_lines, 5);
    assert!(ctx.app.is_prefix_key(TerminalKey::new(KeyCode::Char('a'), KeyModifiers::control())));
    assert_eq!(ctx.app.workspaces.len(), 1);
}

#[test]
fn a_client_starts_with_mirrors_and_no_links() {
    let ctx = ClientLoop::start(
        three_descriptors(),
        ClientConfig {
            prefix_key: KeyChord { code: KeyCode::Char('a'), modifiers: KeyModifiers::control() },
            sidebar_start_collapsed: true,
            copy_on_select: false,
            mouse_scroll_lines: 7,
            keybinds: default_keybinds(),
        },
        true,
    );
    assert_eq!(ctx.mirrors.len(), 3);
    assert_eq!(ctx.mirrors.get(2).expect("mirror").name, "gpu-01");
    assert_eq!(ctx.links.len(), 0);
    assert!(ctx.chrome.sidebar_collapsed && ctx.app.sidebar_collapsed);
    assert!(ctx.app.fleet_config_backed);
    assert_eq!(ctx.app.mode, Mode::Navigate);
    assert!(!ctx.ui.ever_connected);
}

#[test]
fn every_failed_step_says_what_failed() {
    for (stage, start) in [
        (ConnectStage::Reach, "api socket unreachable: "),
        (ConnectStage::Spawn, "ssh bridge spawn failed: "),
        (ConnectStage::Magic, "framed handshake failed: "),
        (ConnectStage::Hello, "session.hello send failed: "),
        (ConnectStage::Answer, "session.hello failed: "),
        (ConnectStage::Reading, "invalid hello answer: "),
        (ConnectStage::Split, "socket clone failed: "),
    ] {
        assert_eq!(describe_connect_failure(stage, "why"), format!("{start}why"));
    }
    assert_eq!(
        describe_bridge_failure(ConnectStage::Magic, "eof", 5, "denied"),
        "framed handshake failed: eof (ssh: denied)"
    );
    assert_eq!(
        describe_bridge_failure(ConnectStage::Answer, "eof", 10_000, "denied"),
        "session.hello timed out after 10s"
    );
    assert_eq!(
        describe_bridge_failure(ConnectStage::Reading, "bad", 5, "denied"),
        "invalid hello answer: bad"
    );
}

fn hits(report: PaneReport) -> MouseHits {
    MouseHits { chip: None, accept: false, cancel: false, row: None, report }
}

fn mouse_at(kind: MouseEventKind, column: u16, row: u16) -> MouseEvent {
    MouseEvent {
        kind,
        column,
        row,
        modifiers: KeyModifiers { shift: false, control: false, alt: false, extra: false },
    }
}

/// A client in terminal mode with one streamed pane drawn at (10, 5).
fn client_with_pane() -> (ClientLoop, usize) {
    let mut ctx = client(vec![RemoteDescriptor::local()]);
    ctx.mirrors.insert(mirror_with_replica());
    compose_local(&mut ctx);
    ctx.app.mode = Mode::Terminal;
    ctx.app.mouse_scroll_lines = 3;
    let pane = ctx.ids.composed_pane_id(0, "p_1_1").expect("composed");
    ctx.app.pane_areas = vec![PaneArea {
        pane,
        inner: Rect { x: 10, y: 5, width: 40, height: 20 },
    }];
    up(&mut ctx, LOCAL_REMOTE_INDEX, session(1));
    (ctx, pane)
}

#[test]
fn the_wheel_scrolls_unless_the_pane_asks_for_reports() {
    let (mut ctx, _) = client_with_pane();
    let over = mouse_at(MouseEventKind::ScrollUp, 12, 6);
    match ctx.handle_mouse(over, hits(PaneReport::Off), NOW) {
        MouseStep::Scroll { remote, stream_id, lines } => {
            assert_eq!((remote, stream_id, lines), (0, 3, -3));
        }
        other => panic!("expected a scroll, got {other:?}"),
    }
    assert!(sent(&mut ctx, 0).is_empty());
    assert!(matches!(
        ctx.handle_mouse(over, hits(PaneReport::Unreported), NOW),
        MouseStep::Nothing
    ));
    assert!(sent(&mut ctx, 0).is_empty());
    assert!(matches!(
        ctx.handle_mouse(over, hits(PaneReport::Bytes(b"img".to_vec())), NOW),
        MouseStep::Nothing
    ));
    let requests = sent(&mut ctx, 0);
    assert_eq!(requests.len(), 1);
    let params = requests[0].get("params").expect("params");
    assert_eq!(params.text_of("pane_id"), Some("p_1_1"));
    assert_eq!(params.text_of("data_base64"), Some("aW1n"));
    // Off the panes the wheel does nothing.
    let off = mouse_at(MouseEventKind::ScrollDown, 1, 1);
    assert!(matches!(
        ctx.handle_mouse(off, hits(PaneReport::Off), NOW),
        MouseStep::Nothing
    ));
}

#[test]
fn buttons_reach_reporting_panes_in_terminal_mode_only() {
    let (mut ctx, _) = client_with_pane();
    let press = mouse_at(MouseEventKind::Down(MouseButton::Left), 12, 6);
    assert!(matches!(
        ctx.handle_mouse(press, hits(PaneReport::Bytes(vec![1])), NOW),
        MouseStep::Nothing
    ));
    assert_eq!(sent(&mut ctx, 0).len(), 1, "the pane is focused already");
    ctx.app.active = None;
    assert!(matches!(
        ctx.handle_mouse(press, hits(PaneReport::Bytes(vec![1])), NOW),
        MouseStep::Nothing
    ));
    let requests = sent(&mut ctx, 0);
    assert_eq!(requests.len(), 2);
    assert_eq!(method_of(&requests[0]), Some("pane.focus"));
    ctx.app.mode = Mode::Navigate;
    assert!(matches!(
        ctx.handle_mouse(press, hits(PaneReport::Bytes(vec![1])), NOW),
        MouseStep::Chrome
    ));
    assert!(sent(&mut ctx, 0).is_empty());
}

#[test]
fn a_second_click_on_a_cell_selects_its_word() {
    let (mut ctx, pane) = client_with_pane();
    let press = mouse_at(MouseEventKind::Down(MouseButton::Left), 12, 6);
    assert!(matches!(ctx.handle_mouse(press, hits(PaneReport::Off), 100), MouseStep::Chrome));
    match ctx.handle_mouse(press, hits(PaneReport::Off), 200) {
        MouseStep::SelectWord(click) => {
            assert_eq!((click.pane, click.row, click.col), (pane, 1, 2));
        }
        other => panic!("expected a word, got {other:?}"),
    }
    assert!(
        matches!(ctx.handle_mouse(press, hits(PaneReport::Off), 250), MouseStep::Chrome),
        "a third click starts over"
    );
    let drag = mouse_at(MouseEventKind::Drag(MouseButton::Left), 13, 6);
    assert!(matches!(ctx.handle_mouse(drag, hits(PaneReport::Off), 260), MouseStep::Chrome));
    assert!(
        matches!(ctx.handle_mouse(press, hits(PaneReport::Off), 270), MouseStep::Chrome),
        "a drag ends the candidate"
    );
}

#[test]
fn chrome_actions_are_sent_and_dead_modals_taken_back() {
    let (mut ctx, pane) = client_with_pane();
    ctx.app.mode = Mode::Settings;
    let fallback = ctx.handle_mouse_action(
        Mode::Terminal,
        Some(MouseAction::FocusPane { pane_id: pane }),
    );
    assert_eq!(fallback, MouseOutcome { modal_fallback: None, backfill: None });
    assert_eq!(ctx.app.mode, Mode::Terminal);
    let requests = sent(&mut ctx, 0);
    assert_eq!(method_of(&requests[0]), Some("pane.focus"));
    ctx.app.mode = Mode::ContextMenu;
    let modal = ctx.handle_mouse_action(Mode::Terminal, Some(MouseAction::Other));
    assert_eq!(modal.modal_fallback, Some(0));
    assert_eq!(ctx.app.mode, Mode::ContextMenu);
    assert_eq!(ctx.handle_mouse_action(Mode::Terminal, None).modal_fallback, None);
    assert!(sent(&mut ctx, 0).is_empty());
}

#[test]
fn open_dialogs_take_every_mouse_event() {
    let (mut ctx, _) = client_with_pane();
    ctx.chrome.remote_edit = Some(RemoteEditState::add());
    let wheel = mouse_at(MouseEventKind::ScrollUp, 12, 6);
    assert!(matches!(
        ctx.handle_mouse(wheel, hits(PaneReport::Bytes(vec![1])), NOW),
        MouseStep::Nothing
    ));
    assert!(sent(&mut ctx, 0).is_empty());
    let press = mouse_at(MouseEventKind::Down(MouseButton::Left), 12, 6);
    let cancel = MouseHits { cancel: true, ..hits(PaneReport::Off) };
    assert!(matches!(ctx.handle_mouse(press, cancel, NOW), MouseStep::Nothing));
    assert!(ctx.chrome.remote_edit.is_none());
}

#[test]
fn the_copy_chord_copies_a_retained_selection_instead_of_forwarding() {
    let (mut ctx, _) = client_with_pane();
    ctx.app.copy_on_select = false;
    ctx.app.selection_finalized = true;
    let chord = TerminalKey {
        code: KeyCode::Char('c'),
        modifiers: KeyModifiers::control(),
        kind: KeyEventKind::Press,
    };
    assert!(matches!(ctx.handle_key(chord, true), KeyAction::CopySelection));
    assert!(sent(&mut ctx, 0).is_empty(), "the copy chord must not reach the pane");

    // With copy_on_select the chord forwards to the pane instead.
    ctx.app.copy_on_select = true;
    assert!(matches!(ctx.handle_key(chord, true), KeyAction::Forward));
    let (remote, pane_id) = ctx.focused_public_pane().expect("focused");
    ctx.send_pane_bytes(remote, &pane_id, &[3]);
    let requests = sent(&mut ctx, 0);
    assert_eq!(requests[0].text_of("method"), Some("pane.send_bytes"));
}

#[test]
fn a_replica_is_seeded_with_the_cursor_it_was_given() {
    let opened = |cursor: &str| StreamOpened {
        pane_id: "p_1_1".to_owned(),
        stream_id: 3,
        sequence: 10,
        snapshot: "hello".to_owned(),
        history_cursor: cursor.to_owned(),
        cols: 0,
        rows: 0,
    };
    assert_eq!(PaneReplica::seeded(opened(""), 80, 24), replica("hello", 10));
    let replica = PaneReplica::seeded(opened("cursor-1"), 100, 30);
    assert_eq!(replica.history_cursor.as_deref(), Some("cursor-1"));
    assert_eq!((replica.cols, replica.rows), (100, 30));
}
