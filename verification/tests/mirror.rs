use herdr_fleet::api::schema::{
    AgentStatus, EventData, EventEnvelope, PaneInfo, SessionSnapshot, TabInfo, WorkspaceInfo,
};
use herdr_fleet::client_state::catalog::SessionCatalog;
use herdr_fleet::client_state::chrome::GlobalChrome;
use herdr_fleet::client_state::mirror::{
    PaneReplica, RemoteMirror, RemoteMirrors, LOCAL_REMOTE_INDEX, LOCAL_REMOTE_NAME,
};
use herdr_fleet::protocol::framed::{NegotiatedSession, CAPABILITY_PANE_STREAM};
use herdr_fleet::protocol::hello::FRAMED_PROTOCOL_VERSION;

fn workspace(id: &str, number: usize, label: &str, focused: bool, tab: &str, status: AgentStatus) -> WorkspaceInfo {
    WorkspaceInfo {
        workspace_id: id.to_owned(),
        number,
        label: label.to_owned(),
        focused,
        pane_count: 1,
        tab_count: 1,
        active_tab_id: tab.to_owned(),
        agent_status: status,
    }
}

fn tab(id: &str, workspace_id: &str, number: usize, label: &str, focused: bool) -> TabInfo {
    TabInfo {
        tab_id: id.to_owned(),
        workspace_id: workspace_id.to_owned(),
        number,
        label: label.to_owned(),
        focused,
        pane_count: 1,
        agent_status: AgentStatus::Idle,
    }
}

fn pane(id: &str, terminal: &str, workspace_id: &str, tab_id: &str, focused: bool, revision: u64) -> PaneInfo {
    PaneInfo {
        pane_id: id.to_owned(),
        terminal_id: terminal.to_owned(),
        workspace_id: workspace_id.to_owned(),
        tab_id: tab_id.to_owned(),
        focused,
        agent_status: AgentStatus::Idle,
        revision,
        agent: None,
        title: None,
        display_agent: None,
        state_labels: Vec::new(),
        cwd: None,
        terminal_title: None,
        label: None,
    }
}

fn canned_snapshot(pane_id: &str, label: &str) -> SessionSnapshot {
    SessionSnapshot {
        focused_workspace_id: Some("ws_1".to_owned()),
        focused_tab_id: Some("t_1_1".to_owned()),
        focused_pane_id: Some(pane_id.to_owned()),
        workspaces: vec![workspace("ws_1", 1, label, true, "t_1_1", AgentStatus::Idle)],
        tabs: vec![tab("t_1_1", "ws_1", 1, "shell", true)],
        panes: vec![pane(pane_id, "term_1", "ws_1", "t_1_1", true, 1)],
        layouts: Vec::new(),
    }
}

fn connect(mirror: &mut RemoteMirror) {
    mirror.connection.connect_started();
    mirror.connection.connected(NegotiatedSession {
        protocol: FRAMED_PROTOCOL_VERSION,
        capabilities: vec![CAPABILITY_PANE_STREAM.to_owned()],
    });
}

/// Duplicate labels, lookalike ids, unordered numbers, focus spread across
/// entries.
fn adversarial_mirror() -> RemoteMirror {
    let mut mirror = RemoteMirror::local();
    connect(&mut mirror);
    mirror.catalog.resync(
        SessionSnapshot {
            focused_workspace_id: Some("ws_2".to_owned()),
            focused_tab_id: Some("t_2_1".to_owned()),
            focused_pane_id: Some("p_2_1".to_owned()),
            workspaces: vec![
                workspace("ws_2", 2, "repo", true, "t_2_1", AgentStatus::Working),
                workspace("ws_10", 1, "repo", false, "t_10_1", AgentStatus::Idle),
            ],
            tabs: vec![
                tab("t_2_1", "ws_2", 1, "tab", true),
                tab("t_10_1", "ws_10", 1, "tab", false),
            ],
            panes: vec![
                pane("p_2_1", "term_21", "ws_2", "t_2_1", true, 7),
                pane("p_2_10", "term_210", "ws_2", "t_2_1", false, 1),
                pane("p_10_1", "term_101", "ws_10", "t_10_1", false, 3),
            ],
            layouts: Vec::new(),
        },
        41,
    );
    mirror
}

fn event(data: EventData) -> EventEnvelope {
    EventEnvelope { data }
}

fn connected_mirror() -> RemoteMirror {
    let mut mirror = RemoteMirror::local();
    connect(&mut mirror);
    mirror
}

fn replica(snapshot: &str, sequence: u64) -> PaneReplica {
    PaneReplica {
        snapshot: snapshot.to_owned(),
        sequence,
        history_cursor: None,
        cols: 80,
        rows: 24,
    }
}

fn assert_distinct(mut ids: Vec<&str>, what: &str) {
    ids.sort_unstable();
    let n = ids.len();
    ids.dedup();
    assert_eq!(n, ids.len(), "duplicate {what} ids");
}

fn assert_catalog(catalog: &SessionCatalog) {
    assert_distinct(
        catalog.workspaces.iter().map(|w| w.workspace_id.as_str()).collect(),
        "workspace",
    );
    assert_distinct(catalog.tabs.iter().map(|t| t.tab_id.as_str()).collect(), "tab");
    assert_distinct(catalog.panes.iter().map(|p| p.pane_id.as_str()).collect(), "pane");
    for tab in &catalog.tabs {
        assert!(catalog.workspace(&tab.workspace_id).is_some());
    }
    for pane in &catalog.panes {
        assert!(catalog.workspace(&pane.workspace_id).is_some());
        assert!(catalog.tabs.iter().any(|tab| tab.tab_id == pane.tab_id));
    }
    if let Some(pane_id) = &catalog.focused_pane_id {
        assert!(catalog.pane(pane_id).is_some(), "focused pane {pane_id} missing");
    }
    if let Some(tab_id) = &catalog.focused_tab_id {
        assert!(catalog.tab(tab_id).is_some(), "focused tab {tab_id} missing");
    }
    if let Some(workspace_id) = &catalog.focused_workspace_id {
        assert!(catalog.workspace(workspace_id).is_some());
    }
}

fn assert_mirror(mirror: &RemoteMirror) {
    assert_catalog(&mirror.catalog);
    for (pane_id, stream_id) in &mirror.pane_streams.entries {
        assert!(mirror.replicas.contains(stream_id));
        assert!(mirror.catalog.pane(pane_id).is_some());
    }
    assert_eq!(mirror.pane_streams.len(), mirror.replicas.len());
    if !mirror.connection.is_connected() {
        assert!(mirror.replicas.len() == 0 && mirror.pane_streams.len() == 0);
    }
}

#[test]
fn resync_from_canned_snapshot_populates_the_catalog() {
    let mut mirror = connected_mirror();
    mirror.catalog.resync(canned_snapshot("p_1_1", "repo"), 10);

    assert_eq!(mirror.catalog.sequence, 10);
    assert_eq!(mirror.catalog.workspaces.len(), 1);
    assert_eq!(mirror.catalog.focused_pane_id.as_deref(), Some("p_1_1"));
    assert_mirror(&mirror);
}

#[test]
fn events_after_the_snapshot_anchor_apply_in_order() {
    let mut mirror = connected_mirror();
    mirror.catalog.resync(canned_snapshot("p_1_1", "repo"), 10);

    // Stale event at the anchor is dropped.
    let stale = event(EventData::PaneClosed {
        pane_id: "p_1_1".to_owned(),
        workspace_id: "ws_1".to_owned(),
    });
    assert!(!mirror.catalog.apply(10, stale));
    assert!(mirror.catalog.pane("p_1_1").is_some());

    let created = event(EventData::PaneCreated {
        pane: pane("p_1_2", "term_2", "ws_1", "t_1_1", false, 0),
    });
    assert!(mirror.catalog.apply(11, created));
    let focused = event(EventData::PaneFocused {
        pane_id: "p_1_2".to_owned(),
        workspace_id: "ws_1".to_owned(),
    });
    assert!(mirror.catalog.apply(12, focused));

    assert_eq!(mirror.catalog.panes.len(), 2);
    assert_eq!(mirror.catalog.focused_pane_id.as_deref(), Some("p_1_2"));
    assert!(mirror
        .catalog
        .pane("p_1_1")
        .is_some_and(|pane| !pane.focused));
    assert_mirror(&mirror);
}

#[test]
fn workspace_close_removes_its_tabs_and_panes() {
    let mut mirror = adversarial_mirror();
    let closed = event(EventData::WorkspaceClosed { workspace_id: "ws_2".to_owned() });
    assert!(mirror.catalog.apply(42, closed));
    assert!(mirror.catalog.workspace("ws_2").is_none());
    assert!(mirror.catalog.pane("p_2_1").is_none());
    assert!(mirror.catalog.pane("p_2_10").is_none());
    assert!(mirror.catalog.pane("p_10_1").is_some());
    assert_eq!(mirror.catalog.focused_pane_id, None);
    assert_mirror(&mirror);
}

#[test]
fn reconnect_full_resync_leaves_no_ghost_or_duplicate_panes() {
    let mut mirror = connected_mirror();
    mirror.catalog.resync(canned_snapshot("p_1_1", "repo"), 10);
    mirror.stream_opened("p_1_1".to_owned(), 3, replica("hello", 5));
    assert_mirror(&mirror);

    // Connection drops: stream ids and replicas die with it.
    mirror.connection_lost("connection closed".to_owned());
    assert!(mirror.replicas.len() == 0);
    assert_mirror(&mirror);

    // Reconnect: full resync from a snapshot where the old pane is gone and a
    // new one exists. Events from before the new anchor must not resurrect
    // the old pane.
    connect(&mut mirror);
    mirror.begin_resync();
    mirror.catalog.resync(canned_snapshot("p_1_9", "repo"), 50);

    let stale_recreate = event(EventData::PaneCreated {
        pane: pane("p_1_1", "term_1", "ws_1", "t_1_1", false, 1),
    });
    assert!(!mirror.catalog.apply(49, stale_recreate));

    assert!(
        mirror.catalog.pane("p_1_1").is_none(),
        "ghost pane survived resync"
    );
    assert_eq!(mirror.catalog.panes.len(), 1);
    mirror.stream_opened("p_1_9".to_owned(), 7, replica("fresh", 9));
    assert_mirror(&mirror);
}

#[test]
fn reopening_a_pane_stream_replaces_the_previous_replica() {
    let mut mirror = connected_mirror();
    mirror.catalog.resync(canned_snapshot("p_1_1", "repo"), 10);
    mirror.stream_opened("p_1_1".to_owned(), 3, replica("one", 1));
    mirror.stream_opened("p_1_1".to_owned(), 4, replica("two", 2));

    assert_eq!(mirror.stream_for_pane("p_1_1"), Some(4));
    assert_eq!(mirror.pane_for_stream(4), Some("p_1_1"));
    assert!(mirror.pane_for_stream(3).is_none());
    assert_eq!(mirror.replicas.len(), 1);
    assert_mirror(&mirror);
}

#[test]
fn mirror_collection_is_keyed_with_local_as_remote_zero() {
    let mut mirrors = RemoteMirrors::with_local();
    let local = mirrors.get(LOCAL_REMOTE_INDEX).expect("local mirror");
    assert_eq!(local.remote_index, LOCAL_REMOTE_INDEX);
    assert_eq!(local.name, LOCAL_REMOTE_NAME);
    assert_eq!(mirrors.len(), 1);

    let mirror = mirrors.get_mut(LOCAL_REMOTE_INDEX).expect("local mirror");
    mirror.connection.connect_started();
    mirror.connection.connected(NegotiatedSession {
        protocol: FRAMED_PROTOCOL_VERSION,
        capabilities: Vec::new(),
    });
    mirror.catalog.resync(canned_snapshot("p_1_1", "repo"), 1);
    mirror.stream_opened("p_1_1".to_owned(), 1, replica("one", 1));
    mirror.stream_closed(1);
    assert!(mirror.replicas.len() == 0);
    assert!(mirror.stream_for_pane("p_1_1").is_none());
    assert_mirror(mirror);
}

#[test]
fn global_chrome_is_plain_client_data() {
    let mut chrome = GlobalChrome::new();
    assert!(!chrome.sidebar_collapsed);
    assert_eq!(chrome.workspace_scroll, 0);
    assert_eq!(chrome.agent_panel_scroll, 0);
    assert_eq!(chrome.tab_scroll, 0);
    assert_eq!(chrome.connection_status, None);
    chrome.sidebar_collapsed = true;
    chrome.connection_status = Some("connecting (attempt 2)".into());
    assert_eq!(chrome, chrome.clone());
}

#[test]
fn adversarial_catalog_passes_invariants() {
    let mirror = adversarial_mirror();
    assert_mirror(&mirror);
    assert_eq!(mirror.catalog.workspaces.len(), 2);
    assert_eq!(mirror.catalog.panes.len(), 3);
}

#[test]
fn every_event_applies_once_and_moves_the_sequence() {
    let mut mirror = adversarial_mirror();
    let rename = |label: &str| {
        event(EventData::WorkspaceRenamed {
            workspace_id: "ws_10".to_owned(),
            label: label.to_owned(),
        })
    };
    assert!(mirror.catalog.apply(42, rename("one")));
    assert!(!mirror.catalog.apply(42, rename("two")));
    assert!(!mirror.catalog.apply(7, rename("three")));
    assert_eq!(mirror.catalog.sequence, 42);
    assert_eq!(mirror.catalog.workspace("ws_10").expect("workspace").label, "one");
    assert!(mirror.catalog.apply(50, rename("four")));
    assert_eq!(mirror.catalog.sequence, 50);
    assert_mirror(&mirror);
}

#[test]
fn a_closed_tab_takes_its_panes_and_focus() {
    let mut mirror = adversarial_mirror();
    assert!(mirror.catalog.apply(
        42,
        event(EventData::TabClosed {
            tab_id: "t_2_1".to_owned(),
            workspace_id: "ws_2".to_owned(),
        })
    ));
    assert!(mirror.catalog.pane("p_2_1").is_none());
    assert!(mirror.catalog.pane("p_10_1").is_some());
    assert_mirror(&mirror);
}

#[test]
fn a_moved_pane_keeps_the_catalog_sound() {
    let mut mirror = adversarial_mirror();
    assert!(mirror.catalog.apply(
        42,
        event(EventData::PaneMoved {
            previous_pane_id: "p_2_10".to_owned(),
            pane: pane("p_11_1", "term_210", "ws_11", "t_11_1", true, 2),
            created_workspace: Some(workspace(
                "ws_11",
                3,
                "new",
                true,
                "t_11_1",
                AgentStatus::Idle
            )),
            created_tab: Some(tab("t_11_1", "ws_11", 1, "tab", true)),
            closed_workspace_id: None,
            closed_tab_id: None,
        })
    ));
    assert!(mirror.catalog.pane("p_2_10").is_none());
    assert!(mirror.catalog.pane("p_11_1").is_some());
    assert_mirror(&mirror);
}

#[test]
fn an_ended_session_takes_streams_and_sequence_with_it() {
    let mut mirror = connected_mirror();
    mirror.catalog.resync(canned_snapshot("p_1_1", "repo"), 10);
    mirror.stream_opened("p_1_1".to_owned(), 3, replica("hello", 5));
    mirror.session_ended();
    assert_eq!(mirror.replicas.len(), 0);
    assert_eq!(mirror.pane_streams.len(), 0);
}

#[test]
fn an_event_that_is_replayed_converges() {
    let moved = || {
        event(EventData::PaneMoved {
            previous_pane_id: "p_2_1".to_owned(),
            pane: pane("p_2_9", "term_9", "ws_2", "t_2_9", true, 4),
            created_workspace: None,
            created_tab: Some(tab("t_2_9", "ws_2", 9, "moved", false)),
            closed_workspace_id: None,
            closed_tab_id: Some("t_2_1".to_owned()),
        })
    };
    let closed = || event(EventData::WorkspaceClosed { workspace_id: "ws_2".to_owned() });
    let renamed = || {
        event(EventData::WorkspaceRenamed {
            workspace_id: "ws_10".to_owned(),
            label: "again".to_owned(),
        })
    };
    let makes: [&dyn Fn() -> EventEnvelope; 3] = [&moved, &closed, &renamed];
    for make in makes {
        let mut once = adversarial_mirror().catalog;
        let mut twice = adversarial_mirror().catalog;
        let first = once.sequence + 1;
        assert!(once.apply(first + 5, make()));
        assert!(twice.apply(first, make()));
        assert!(twice.apply(first + 5, make()));
        assert_eq!(format!("{once:?}"), format!("{twice:?}"));
    }
}
