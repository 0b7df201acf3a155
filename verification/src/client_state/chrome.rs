//! Presentation state that belongs to this client alone. It survives resyncs
//! and reconnects, is never sent to a server and never rebuilt from one.
use crate::client_state::app_state::views;
use crate::client_state::fleet_view::{FleetSelection, SelectionModel};
use crate::client_state::remote_edit::{EditModel, RemoteEditState};
use crate::client_state::remote_list::{ListModel, RemoteListState};
use crate::client_state::remote_start::RemoteStartPrompt;
use crate::sorted_map::SortedMap;
use crate::text::opt_view;
use vstd::prelude::*;

verus! {

/// A click on a pane cell, kept as a double-click candidate.
#[derive(Clone, Copy, PartialEq, Eq, Structural, Debug)]
pub struct PaneClick {
    pub pane: usize,
    pub row: u16,
    pub col: u16,
    /// When it happened, in milliseconds of the client's clock.
    pub at: u64,
}

/// Presentation state owned by the client.
#[derive(Clone, PartialEq, Eq, Debug)]
pub struct GlobalChrome {
    pub sidebar_collapsed: bool,
    pub workspace_scroll: usize,
    pub agent_panel_scroll: usize,
    pub tab_scroll: usize,
    /// One line surfaced while a remote is not connected.
    pub connection_status: Option<String>,
    /// Which remotes are in view and which holds the focus.
    pub selection: FleetSelection,
    /// Last window title pushed by each remote.
    pub window_titles: SortedMap<usize, String>,
    /// The add/edit-remote dialog, when open.
    pub remote_edit: Option<RemoteEditState>,
    /// The fleet as a list, when open.
    pub remote_list: Option<RemoteListState>,
    /// The start confirmation, when open.
    pub remote_start: Option<RemoteStartPrompt>,
    /// Double-click candidate for word selection.
    pub last_pane_click: Option<PaneClick>,
}

/// The mathematical value of a start prompt.
pub struct PromptModel {
    pub remote: usize,
    pub name: Seq<char>,
    pub status: Seq<char>,
    pub error: Option<Seq<char>>,
    pub starting: bool,
}

impl View for RemoteStartPrompt {
    type V = PromptModel;

    open spec fn view(&self) -> PromptModel {
        PromptModel {
            remote: self.remote,
            name: self.name@,
            status: self.status@,
            error: opt_view(self.error),
            starting: self.starting,
        }
    }
}

/// The mathematical value of the chrome.
pub struct ChromeModel {
    pub sidebar_collapsed: bool,
    pub workspace_scroll: usize,
    pub agent_panel_scroll: usize,
    pub tab_scroll: usize,
    pub connection_status: Option<Seq<char>>,
    pub selection: SelectionModel,
    pub window_titles: Map<usize, Seq<char>>,
    pub remote_edit: Option<EditModel>,
    pub remote_list: Option<ListModel>,
    pub remote_start: Option<PromptModel>,
    pub last_pane_click: Option<PaneClick>,
}

impl View for GlobalChrome {
    type V = ChromeModel;

    open spec fn view(&self) -> ChromeModel {
        ChromeModel {
            sidebar_collapsed: self.sidebar_collapsed,
            workspace_scroll: self.workspace_scroll,
            agent_panel_scroll: self.agent_panel_scroll,
            tab_scroll: self.tab_scroll,
            connection_status: opt_view(self.connection_status),
            selection: self.selection@,
            window_titles: views(self.window_titles@),
            remote_edit: match self.remote_edit {
                Some(d) => Some(d@),
                None => None,
            },
            remote_list: match self.remote_list {
                Some(l) => Some(l@),
                None => None,
            },
            remote_start: match self.remote_start {
                Some(p) => Some(p@),
                None => None,
            },
            last_pane_click: self.last_pane_click,
        }
    }
}

impl GlobalChrome {
    /// Titles stand in key order, and the dialog's focus is on a field.
    pub open spec fn wf(&self) -> bool {
        &&& self.window_titles.wf()
        &&& self.remote_edit matches Some(d) ==> d.focused_field
            < crate::client_state::remote_edit::REMOTE_EDIT_FIELDS
    }

    /// Nothing scrolled, filtered, titled or open.
    pub open spec fn blank(self) -> bool {
        &&& !self.sidebar_collapsed
        &&& self.workspace_scroll == 0
        &&& self.agent_panel_scroll == 0
        &&& self.tab_scroll == 0
        &&& self.connection_status is None
        &&& self.selection@.hidden == Set::<usize>::empty()
        &&& self.selection@.focused_remote == 0
        &&& self.window_titles@ == Map::<usize, String>::empty()
        &&& self.remote_edit is None
        &&& self.remote_list is None
        &&& self.remote_start is None
        &&& self.last_pane_click is None
    }

    /// Nothing collapsed, scrolled, hidden or open.
    pub fn new() -> (r: GlobalChrome)
        ensures
            r.wf(),
            r.blank(),
    {
        GlobalChrome {
            sidebar_collapsed: false,
            workspace_scroll: 0,
            agent_panel_scroll: 0,
            tab_scroll: 0,
            connection_status: None,
            selection: FleetSelection::new(),
            window_titles: SortedMap::new(),
            remote_edit: None,
            remote_list: None,
            remote_start: None,
            last_pane_click: None,
        }
    }
}

} // verus!
