//! Catalog records and the events that change them.
use vstd::prelude::*;

verus! {

/// What an agent in a pane is doing.
#[derive(Clone, Copy, PartialEq, Eq, Structural, Debug)]
pub enum AgentStatus {
    Idle,
    Working,
    Blocked,
    Done,
    Unknown,
}

/// The side on which a split puts its second half.
#[derive(Clone, Copy, PartialEq, Eq, Structural, Debug)]
pub enum SplitDirection {
    Right,
    Down,
}

/// One workspace of a session.
#[derive(Debug)]
pub struct WorkspaceInfo {
    pub workspace_id: String,
    pub number: usize,
    pub label: String,
    pub focused: bool,
    pub pane_count: usize,
    pub tab_count: usize,
    pub active_tab_id: String,
    pub agent_status: AgentStatus,
}

/// One tab of a workspace.
#[derive(Debug)]
pub struct TabInfo {
    pub tab_id: String,
    pub workspace_id: String,
    pub number: usize,
    pub label: String,
    pub focused: bool,
    pub pane_count: usize,
    pub agent_status: AgentStatus,
}

/// One pane of a tab.
#[derive(Debug)]
pub struct PaneInfo {
    pub pane_id: String,
    pub terminal_id: String,
    pub workspace_id: String,
    pub tab_id: String,
    pub focused: bool,
    pub agent_status: AgentStatus,
    pub revision: u64,
    pub agent: Option<String>,
    pub title: Option<String>,
    pub display_agent: Option<String>,
    pub state_labels: Vec<(String, String)>,
    pub cwd: Option<String>,
    pub terminal_title: Option<String>,
    pub label: Option<String>,
}

/// A rectangle of terminal cells.
#[derive(Clone, Copy, PartialEq, Eq, Structural, Debug)]
pub struct LayoutRect {
    pub x: u16,
    pub y: u16,
    pub width: u16,
    pub height: u16,
}

/// A leaf of an exported layout.
#[derive(Debug)]
pub struct LayoutPane {
    pub pane_id: String,
    pub focused: bool,
    pub rect: LayoutRect,
}

/// An inner node of an exported layout. The ratio is carried by its bit
/// pattern: this client stores it and hands it on, and never computes on it.
#[derive(Debug)]
pub struct LayoutSplit {
    pub id: String,
    pub direction: SplitDirection,
    pub ratio_bits: u32,
    pub rect: LayoutRect,
}

/// The exported split tree of one tab.
#[derive(Debug)]
pub struct PaneLayoutSnapshot {
    pub workspace_id: String,
    pub tab_id: String,
    pub zoomed: bool,
    pub area: LayoutRect,
    pub focused_pane_id: String,
    pub panes: Vec<LayoutPane>,
    pub splits: Vec<LayoutSplit>,
}

/// A full picture of a session.
#[derive(Debug)]
pub struct SessionSnapshot {
    pub focused_workspace_id: Option<String>,
    pub focused_tab_id: Option<String>,
    pub focused_pane_id: Option<String>,
    pub workspaces: Vec<WorkspaceInfo>,
    pub tabs: Vec<TabInfo>,
    pub panes: Vec<PaneInfo>,
    pub layouts: Vec<PaneLayoutSnapshot>,
}

/// What a server event reports.
#[allow(inconsistent_fields)]
#[derive(Debug)]
pub enum EventData {
    WorkspaceCreated { workspace: WorkspaceInfo },
    WorkspaceUpdated { workspace: WorkspaceInfo },
    WorkspaceMetadataUpdated { workspace: WorkspaceInfo },
    WorkspaceClosed { workspace_id: String },
    WorkspaceRenamed { workspace_id: String, label: String },
    WorkspaceMoved { workspaces: Vec<WorkspaceInfo> },
    WorkspaceFocused { workspace_id: String },
    WorktreeCreated { workspace: WorkspaceInfo },
    WorktreeOpened { workspace: WorkspaceInfo },
    WorktreeRemoved { workspace_id: String, workspace: Option<WorkspaceInfo> },
    TabCreated { tab: TabInfo },
    TabClosed { tab_id: String, workspace_id: String },
    TabRenamed { tab_id: String, workspace_id: String, label: String },
    TabMoved { workspace_id: String, tabs: Vec<TabInfo> },
    TabFocused { tab_id: String, workspace_id: String },
    PaneCreated { pane: PaneInfo },
    PaneUpdated { pane: PaneInfo },
    PaneClosed { pane_id: String, workspace_id: String },
    PaneExited { pane_id: String, workspace_id: String },
    PaneFocused { pane_id: String, workspace_id: String },
    PaneMoved {
        previous_pane_id: String,
        pane: PaneInfo,
        created_workspace: Option<WorkspaceInfo>,
        created_tab: Option<TabInfo>,
        closed_workspace_id: Option<String>,
        closed_tab_id: Option<String>,
    },
    PaneOutputChanged { pane_id: String, workspace_id: String, revision: u64 },
    PaneAgentDetected { pane_id: String, workspace_id: String, agent: Option<String> },
    PaneAgentStatusChanged {
        pane_id: String,
        workspace_id: String,
        agent_status: AgentStatus,
        agent: Option<String>,
        title: Option<String>,
        display_agent: Option<String>,
        state_labels: Vec<(String, String)>,
    },
    LayoutUpdated { layout: PaneLayoutSnapshot },
    NotificationPosted { kind: String, message: String, body: Option<String> },
    WindowTitleChanged { title: Option<String> },
}

/// An event as it travels.
#[derive(Debug)]
pub struct EventEnvelope {
    pub data: EventData,
}

} // verus!
