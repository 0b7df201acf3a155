//! The event-driven session catalog of one remote: workspaces, tabs, panes,
//! layouts and focus, built from one full snapshot and kept current by
//! applying the server's catalog events in sequence order. Events at or below
//! the snapshot's sequence anchor are dropped, so no ghost or duplicate entry
//! survives a resync.
use crate::api::schema::{
    AgentStatus, EventData, EventEnvelope, PaneInfo, PaneLayoutSnapshot, SessionSnapshot, TabInfo,
    WorkspaceInfo,
};
use crate::seqs::{alter, any, find, first_index, first_match, keep, put};
use crate::text::{opt_is, opt_view, same};
use vstd::prelude::*;

verus! {

/// The mirrored session catalog of one remote.
#[derive(Debug)]
pub struct SessionCatalog {
    /// Event sequence the catalog is current through.
    pub sequence: u64,
    pub focused_workspace_id: Option<String>,
    pub focused_tab_id: Option<String>,
    pub focused_pane_id: Option<String>,
    pub workspaces: Vec<WorkspaceInfo>,
    pub tabs: Vec<TabInfo>,
    pub panes: Vec<PaneInfo>,
    pub layouts: Vec<PaneLayoutSnapshot>,
}

/// The mathematical value of a catalog.
pub struct CatalogModel {
    pub sequence: u64,
    pub focused_workspace_id: Option<Seq<char>>,
    pub focused_tab_id: Option<Seq<char>>,
    pub focused_pane_id: Option<Seq<char>>,
    pub workspaces: Seq<WorkspaceInfo>,
    pub tabs: Seq<TabInfo>,
    pub panes: Seq<PaneInfo>,
    pub layouts: Seq<PaneLayoutSnapshot>,
}

impl View for SessionCatalog {
    type V = CatalogModel;

    open spec fn view(&self) -> CatalogModel {
        CatalogModel {
            sequence: self.sequence,
            focused_workspace_id: opt_view(self.focused_workspace_id),
            focused_tab_id: opt_view(self.focused_tab_id),
            focused_pane_id: opt_view(self.focused_pane_id),
            workspaces: self.workspaces@,
            tabs: self.tabs@,
            panes: self.panes@,
            layouts: self.layouts@,
        }
    }
}

pub open spec fn workspace_named(id: Seq<char>) -> spec_fn(WorkspaceInfo) -> bool {
    |w: WorkspaceInfo| w.workspace_id@ == id
}

pub open spec fn workspace_not(id: Seq<char>) -> spec_fn(WorkspaceInfo) -> bool {
    |w: WorkspaceInfo| w.workspace_id@ != id
}

pub open spec fn tab_named(id: Seq<char>) -> spec_fn(TabInfo) -> bool {
    |t: TabInfo| t.tab_id@ == id
}

pub open spec fn tab_not(id: Seq<char>) -> spec_fn(TabInfo) -> bool {
    |t: TabInfo| t.tab_id@ != id
}

pub open spec fn tab_outside(workspace: Seq<char>) -> spec_fn(TabInfo) -> bool {
    |t: TabInfo| t.workspace_id@ != workspace
}

pub open spec fn pane_named(id: Seq<char>) -> spec_fn(PaneInfo) -> bool {
    |p: PaneInfo| p.pane_id@ == id
}

pub open spec fn pane_not(id: Seq<char>) -> spec_fn(PaneInfo) -> bool {
    |p: PaneInfo| p.pane_id@ != id
}

pub open spec fn pane_outside(workspace: Seq<char>) -> spec_fn(PaneInfo) -> bool {
    |p: PaneInfo| p.workspace_id@ != workspace
}

pub open spec fn pane_off_tab(tab: Seq<char>) -> spec_fn(PaneInfo) -> bool {
    |p: PaneInfo| p.tab_id@ != tab
}

pub open spec fn layout_outside(workspace: Seq<char>) -> spec_fn(PaneLayoutSnapshot) -> bool {
    |l: PaneLayoutSnapshot| l.workspace_id@ != workspace
}

pub open spec fn layout_off_tab(tab: Seq<char>) -> spec_fn(PaneLayoutSnapshot) -> bool {
    |l: PaneLayoutSnapshot| l.tab_id@ != tab
}

pub open spec fn layout_of(workspace: Seq<char>, tab: Seq<char>) -> spec_fn(
    PaneLayoutSnapshot,
) -> bool {
    |l: PaneLayoutSnapshot| l.workspace_id@ == workspace && l.tab_id@ == tab
}

/// A workspace with its focus flag saying whether it is `id`.
pub open spec fn workspace_focus(id: Seq<char>) -> spec_fn(WorkspaceInfo) -> WorkspaceInfo {
    |w: WorkspaceInfo| WorkspaceInfo { focused: w.workspace_id@ == id, ..w }
}

/// A tab of `workspace` with its focus flag saying whether it is `tab`.
pub open spec fn tab_focus(tab: Seq<char>, workspace: Seq<char>) -> spec_fn(TabInfo) -> TabInfo {
    |t: TabInfo|
        if t.workspace_id@ == workspace {
            TabInfo { focused: t.tab_id@ == tab, ..t }
        } else {
            t
        }
}

/// A pane of `workspace` with its focus flag saying whether it is `pane`.
pub open spec fn pane_focus(pane: Seq<char>, workspace: Seq<char>) -> spec_fn(PaneInfo) -> PaneInfo {
    |p: PaneInfo|
        if p.workspace_id@ == workspace {
            PaneInfo { focused: p.pane_id@ == pane, ..p }
        } else {
            p
        }
}

/// A workspace with `tab` as its active tab.
pub open spec fn workspace_on_tab(tab: String) -> spec_fn(WorkspaceInfo) -> WorkspaceInfo {
    |w: WorkspaceInfo| WorkspaceInfo { active_tab_id: tab, ..w }
}

/// An update that keeps the old value where the new one is absent.
pub open spec fn newer<T>(new: Option<T>, old: Option<T>) -> Option<T> {
    match new {
        Some(_) => new,
        None => old,
    }
}

/// A workspace under another label.
pub open spec fn workspace_labelled(label: String) -> spec_fn(WorkspaceInfo) -> WorkspaceInfo {
    |w: WorkspaceInfo| WorkspaceInfo { label, ..w }
}

/// A tab under another label.
pub open spec fn tab_labelled(label: String) -> spec_fn(TabInfo) -> TabInfo {
    |t: TabInfo| TabInfo { label, ..t }
}

/// A pane at another revision.
pub open spec fn pane_revised(revision: u64) -> spec_fn(PaneInfo) -> PaneInfo {
    |p: PaneInfo| PaneInfo { revision, ..p }
}

/// A pane that runs another agent, or none.
pub open spec fn pane_running(agent: Option<String>) -> spec_fn(PaneInfo) -> PaneInfo {
    |p: PaneInfo| PaneInfo { agent, ..p }
}

/// A pane with what its agent reported.
pub open spec fn pane_reported(
    agent_status: AgentStatus,
    agent: Option<String>,
    title: Option<String>,
    display_agent: Option<String>,
    state_labels: Vec<(String, String)>,
) -> spec_fn(PaneInfo) -> PaneInfo {
    |p: PaneInfo|
        PaneInfo {
            agent_status,
            agent: newer(agent, p.agent),
            title: newer(title, p.title),
            display_agent: newer(display_agent, p.display_agent),
            state_labels,
            ..p
        }
}

impl CatalogModel {
    pub open spec fn workspace(self, id: Seq<char>) -> Option<WorkspaceInfo> {
        first_match(self.workspaces, workspace_named(id))
    }

    pub open spec fn tab(self, id: Seq<char>) -> Option<TabInfo> {
        first_match(self.tabs, tab_named(id))
    }

    pub open spec fn pane(self, id: Seq<char>) -> Option<PaneInfo> {
        first_match(self.panes, pane_named(id))
    }

    pub open spec fn has_workspace(self, id: Seq<char>) -> bool {
        any(self.workspaces, workspace_named(id))
    }

    pub open spec fn has_tab(self, id: Seq<char>) -> bool {
        any(self.tabs, tab_named(id))
    }

    pub open spec fn has_pane(self, id: Seq<char>) -> bool {
        any(self.panes, pane_named(id))
    }

    pub open spec fn put_workspace(self, w: WorkspaceInfo) -> CatalogModel {
        CatalogModel {
            workspaces: put(self.workspaces, workspace_named(w.workspace_id@), w),
            ..self
        }
    }

    pub open spec fn put_tab(self, t: TabInfo) -> CatalogModel {
        CatalogModel { tabs: put(self.tabs, tab_named(t.tab_id@), t), ..self }
    }

    pub open spec fn put_pane(self, p: PaneInfo) -> CatalogModel {
        CatalogModel { panes: put(self.panes, pane_named(p.pane_id@), p), ..self }
    }

    pub open spec fn put_layout(self, l: PaneLayoutSnapshot) -> CatalogModel {
        CatalogModel {
            layouts: put(self.layouts, layout_of(l.workspace_id@, l.tab_id@), l),
            ..self
        }
    }

    /// Pane and tab focus that names nothing is cleared.
    pub open spec fn focus_settled(self) -> CatalogModel {
        CatalogModel {
            focused_pane_id: match self.focused_pane_id {
                Some(id) if self.has_pane(id) => Some(id),
                _ => None,
            },
            focused_tab_id: match self.focused_tab_id {
                Some(id) if self.has_tab(id) => Some(id),
                _ => None,
            },
            ..self
        }
    }

    /// A workspace goes with its tabs, panes, layouts and focus.
    pub open spec fn without_workspace(self, id: Seq<char>) -> CatalogModel {
        CatalogModel {
            workspaces: self.workspaces.filter(workspace_not(id)),
            tabs: self.tabs.filter(tab_outside(id)),
            panes: self.panes.filter(pane_outside(id)),
            layouts: self.layouts.filter(layout_outside(id)),
            focused_workspace_id: if self.focused_workspace_id == Some(id) {
                None
            } else {
                self.focused_workspace_id
            },
            ..self
        }.focus_settled()
    }

    /// A tab goes with its panes, layouts and focus.
    pub open spec fn without_tab(self, id: Seq<char>) -> CatalogModel {
        CatalogModel {
            tabs: self.tabs.filter(tab_not(id)),
            panes: self.panes.filter(pane_off_tab(id)),
            layouts: self.layouts.filter(layout_off_tab(id)),
            focused_tab_id: if self.focused_tab_id == Some(id) {
                None
            } else {
                self.focused_tab_id
            },
            ..self
        }.focus_settled()
    }

    pub open spec fn without_pane(self, id: Seq<char>) -> CatalogModel {
        CatalogModel {
            panes: self.panes.filter(pane_not(id)),
            focused_pane_id: if self.focused_pane_id == Some(id) {
                None
            } else {
                self.focused_pane_id
            },
            ..self
        }
    }

    pub open spec fn with_workspace_change(
        self,
        id: Seq<char>,
        f: spec_fn(WorkspaceInfo) -> WorkspaceInfo,
    ) -> CatalogModel {
        CatalogModel { workspaces: alter(self.workspaces, workspace_named(id), f), ..self }
    }

    pub open spec fn with_tab_change(
        self,
        id: Seq<char>,
        f: spec_fn(TabInfo) -> TabInfo,
    ) -> CatalogModel {
        CatalogModel { tabs: alter(self.tabs, tab_named(id), f), ..self }
    }

    pub open spec fn with_pane_change(
        self,
        id: Seq<char>,
        f: spec_fn(PaneInfo) -> PaneInfo,
    ) -> CatalogModel {
        CatalogModel { panes: alter(self.panes, pane_named(id), f), ..self }
    }

    /// The pane's move: it leaves its old identity, whatever was created for
    /// it arrives, it takes its new identity, and whatever it emptied closes.
    pub open spec fn pane_moved(
        self,
        previous: Seq<char>,
        pane: PaneInfo,
        created_workspace: Option<WorkspaceInfo>,
        created_tab: Option<TabInfo>,
        closed_workspace: Option<Seq<char>>,
        closed_tab: Option<Seq<char>>,
    ) -> CatalogModel {
        let a = self.without_pane(previous);
        let b = match created_workspace {
            Some(w) => a.put_workspace(w),
            None => a,
        };
        let c = match created_tab {
            Some(t) => b.put_tab(t),
            None => b,
        };
        let d = c.put_pane(pane);
        let e = match closed_tab {
            Some(id) => d.without_tab(id),
            None => d,
        };
        match closed_workspace {
            Some(id) => e.without_workspace(id),
            None => e,
        }
    }

    /// The catalog after an event, whatever its sequence.
    pub open spec fn changed_by(self, data: EventData) -> CatalogModel {
        match data {
            EventData::WorkspaceCreated { workspace } => self.put_workspace(workspace),
            EventData::WorkspaceUpdated { workspace } => self.put_workspace(workspace),
            EventData::WorkspaceMetadataUpdated { workspace } => self.put_workspace(workspace),
            EventData::WorkspaceClosed { workspace_id } => self.without_workspace(workspace_id@),
            EventData::WorkspaceRenamed { workspace_id, label } => self.with_workspace_change(
                workspace_id@,
                workspace_labelled(label),
            ),
            EventData::WorkspaceMoved { workspaces } => CatalogModel {
                workspaces: workspaces@,
                ..self
            },
            EventData::WorkspaceFocused { workspace_id } => CatalogModel {
                focused_workspace_id: Some(workspace_id@),
                workspaces: self.workspaces.map_values(workspace_focus(workspace_id@)),
                ..self
            },
            EventData::WorktreeCreated { workspace } => self.put_workspace(workspace),
            EventData::WorktreeOpened { workspace } => self.put_workspace(workspace),
            EventData::WorktreeRemoved { workspace_id, workspace } => match workspace {
                Some(w) => self.put_workspace(w),
                None => self.without_workspace(workspace_id@),
            },
            EventData::TabCreated { tab } => self.put_tab(tab),
            EventData::TabClosed { tab_id, workspace_id } => self.without_tab(tab_id@),
            EventData::TabRenamed { tab_id, workspace_id, label } => self.with_tab_change(
                tab_id@,
                tab_labelled(label),
            ),
            EventData::TabMoved { workspace_id, tabs } => CatalogModel {
                tabs: self.tabs.filter(tab_outside(workspace_id@)) + tabs@,
                ..self
            },
            EventData::TabFocused { tab_id, workspace_id } => CatalogModel {
                focused_tab_id: Some(tab_id@),
                tabs: self.tabs.map_values(tab_focus(tab_id@, workspace_id@)),
                ..self
            }.with_workspace_change(
                workspace_id@,
                workspace_on_tab(tab_id),
            ),
            EventData::PaneCreated { pane } => self.put_pane(pane),
            EventData::PaneUpdated { pane } => self.put_pane(pane),
            EventData::PaneClosed { pane_id, workspace_id } => self.without_pane(pane_id@),
            EventData::PaneExited { pane_id, workspace_id } => self.without_pane(pane_id@),
            EventData::PaneFocused { pane_id, workspace_id } => CatalogModel {
                focused_pane_id: Some(pane_id@),
                panes: self.panes.map_values(pane_focus(pane_id@, workspace_id@)),
                ..self
            },
            EventData::PaneMoved {
                previous_pane_id,
                pane,
                created_workspace,
                created_tab,
                closed_workspace_id,
                closed_tab_id,
            } => self.pane_moved(
                previous_pane_id@,
                pane,
                created_workspace,
                created_tab,
                opt_view(closed_workspace_id),
                opt_view(closed_tab_id),
            ),
            EventData::PaneOutputChanged { pane_id, workspace_id, revision } =>
                self.with_pane_change(pane_id@, pane_revised(revision)),
            EventData::PaneAgentDetected { pane_id, workspace_id, agent } =>
                self.with_pane_change(pane_id@, pane_running(agent)),
            EventData::PaneAgentStatusChanged {
                pane_id,
                workspace_id,
                agent_status,
                agent,
                title,
                display_agent,
                state_labels,
            } => self.with_pane_change(
                pane_id@,
                pane_reported(agent_status, agent, title, display_agent, state_labels),
            ),
            EventData::LayoutUpdated { layout } => self.put_layout(layout),
            EventData::NotificationPosted { kind, message, body } => self,
            EventData::WindowTitleChanged { title } => self,
        }
    }

    /// The catalog after an event at `sequence`: a stale one changes nothing.
    pub open spec fn after(self, sequence: u64, data: EventData) -> CatalogModel {
        if sequence <= self.sequence {
            self
        } else {
            CatalogModel { sequence, ..self }.changed_by(data)
        }
    }

    /// The catalog that a snapshot anchored at `sequence` describes.
    pub open spec fn of_snapshot(snapshot: SessionSnapshot, sequence: u64) -> CatalogModel {
        CatalogModel {
            sequence,
            focused_workspace_id: opt_view(snapshot.focused_workspace_id),
            focused_tab_id: opt_view(snapshot.focused_tab_id),
            focused_pane_id: opt_view(snapshot.focused_pane_id),
            workspaces: snapshot.workspaces@,
            tabs: snapshot.tabs@,
            panes: snapshot.panes@,
            layouts: snapshot.layouts@,
        }
    }

    pub open spec fn empty() -> CatalogModel {
        CatalogModel {
            sequence: 0,
            focused_workspace_id: None,
            focused_tab_id: None,
            focused_pane_id: None,
            workspaces: Seq::empty(),
            tabs: Seq::empty(),
            panes: Seq::empty(),
            layouts: Seq::empty(),
        }
    }
}

impl SessionCatalog {
    pub fn new() -> (r: SessionCatalog)
        ensures
            r@ == CatalogModel::empty(),
    {
        SessionCatalog {
            sequence: 0,
            focused_workspace_id: None,
            focused_tab_id: None,
            focused_pane_id: None,
            workspaces: Vec::new(),
            tabs: Vec::new(),
            panes: Vec::new(),
            layouts: Vec::new(),
        }
    }

    /// Replaces the whole catalog by a full snapshot anchored at `sequence`
    /// in the server's event stream.
    pub fn resync(&mut self, snapshot: SessionSnapshot, sequence: u64)
        ensures
            final(self)@ == CatalogModel::of_snapshot(snapshot, sequence),
    {
        self.sequence = sequence;
        self.focused_workspace_id = snapshot.focused_workspace_id;
        self.focused_tab_id = snapshot.focused_tab_id;
        self.focused_pane_id = snapshot.focused_pane_id;
        self.workspaces = snapshot.workspaces;
        self.tabs = snapshot.tabs;
        self.panes = snapshot.panes;
        self.layouts = snapshot.layouts;
    }

    pub fn workspace(&self, workspace_id: &str) -> (r: Option<&WorkspaceInfo>)
        ensures
            match r {
                Some(w) => self@.workspace(workspace_id@) == Some(*w),
                None => self@.workspace(workspace_id@) is None,
            },
            r is Some <==> self@.has_workspace(workspace_id@),
    {
        let test = |w: &WorkspaceInfo| -> (b: bool)
                ensures
                    b == (w.workspace_id@ == workspace_id@),
                { same(w.workspace_id.as_str(), workspace_id) };
        let i: usize = find(self.workspaces.as_slice(), test, Ghost(workspace_named(workspace_id@)));
        if i < self.workspaces.len() {
            Some(&self.workspaces[i])
        } else {
            None
        }
    }

    pub fn tab(&self, tab_id: &str) -> (r: Option<&TabInfo>)
        ensures
            match r {
                Some(t) => self@.tab(tab_id@) == Some(*t),
                None => self@.tab(tab_id@) is None,
            },
            r is Some <==> self@.has_tab(tab_id@),
    {
        let i: usize = self.tab_index(tab_id);
        if i < self.tabs.len() {
            Some(&self.tabs[i])
        } else {
            None
        }
    }

    pub fn pane(&self, pane_id: &str) -> (r: Option<&PaneInfo>)
        ensures
            match r {
                Some(p) => self@.pane(pane_id@) == Some(*p),
                None => self@.pane(pane_id@) is None,
            },
            r is Some <==> self@.has_pane(pane_id@),
    {
        let i: usize = self.pane_index(pane_id);
        if i < self.panes.len() {
            Some(&self.panes[i])
        } else {
            None
        }
    }

    /// The exported layout of one tab.
    pub fn layout(&self, workspace_id: &str, tab_id: &str) -> (r: Option<&PaneLayoutSnapshot>)
        ensures
            match r {
                Some(l) => first_match(self@.layouts, layout_of(workspace_id@, tab_id@)) == Some(
                    *l,
                ),
                None => first_match(self@.layouts, layout_of(workspace_id@, tab_id@)) is None,
            },
    {
        let test = |l: &PaneLayoutSnapshot| -> (b: bool)
            ensures
                b == (l.workspace_id@ == workspace_id@ && l.tab_id@ == tab_id@),
            { same(l.workspace_id.as_str(), workspace_id) && same(l.tab_id.as_str(), tab_id) };
        let i: usize = find(
            self.layouts.as_slice(),
            test,
            Ghost(layout_of(workspace_id@, tab_id@)),
        );
        if i < self.layouts.len() {
            Some(&self.layouts[i])
        } else {
            None
        }
    }

    fn workspace_index(&self, id: &str) -> (r: usize)
        ensures
            r == first_index(self.workspaces@, workspace_named(id@)),
            r <= self.workspaces@.len(),
    {
        let test = |w: &WorkspaceInfo| -> (b: bool)
                ensures
                    b == (w.workspace_id@ == id@),
                { same(w.workspace_id.as_str(), id) };
        find(self.workspaces.as_slice(), test, Ghost(workspace_named(id@)))
    }

    fn tab_index(&self, id: &str) -> (r: usize)
        ensures
            r == first_index(self.tabs@, tab_named(id@)),
            r <= self.tabs@.len(),
            r < self.tabs@.len() <==> any(self.tabs@, tab_named(id@)),
    {
        let test = |t: &TabInfo| -> (b: bool)
                ensures
                    b == (t.tab_id@ == id@),
                { same(t.tab_id.as_str(), id) };
        find(self.tabs.as_slice(), test, Ghost(tab_named(id@)))
    }

    fn pane_index(&self, id: &str) -> (r: usize)
        ensures
            r == first_index(self.panes@, pane_named(id@)),
            r <= self.panes@.len(),
            r < self.panes@.len() <==> any(self.panes@, pane_named(id@)),
    {
        let test = |p: &PaneInfo| -> (b: bool)
                ensures
                    b == (p.pane_id@ == id@),
                { same(p.pane_id.as_str(), id) };
        find(self.panes.as_slice(), test, Ghost(pane_named(id@)))
    }

    fn upsert_workspace(&mut self, workspace: WorkspaceInfo)
        ensures
            final(self)@ == old(self)@.put_workspace(workspace),
    {
        let i: usize = self.workspace_index(workspace.workspace_id.as_str());
        if i < self.workspaces.len() {
            self.workspaces[i] = workspace;
        } else {
            self.workspaces.push(workspace);
        }
    }

    fn upsert_tab(&mut self, tab: TabInfo)
        ensures
            final(self)@ == old(self)@.put_tab(tab),
    {
        let i: usize = self.tab_index(tab.tab_id.as_str());
        if i < self.tabs.len() {
            self.tabs[i] = tab;
        } else {
            self.tabs.push(tab);
        }
    }

    fn upsert_pane(&mut self, pane: PaneInfo)
        ensures
            final(self)@ == old(self)@.put_pane(pane),
    {
        let i: usize = self.pane_index(pane.pane_id.as_str());
        if i < self.panes.len() {
            self.panes[i] = pane;
        } else {
            self.panes.push(pane);
        }
    }

    fn upsert_layout(&mut self, layout: PaneLayoutSnapshot)
        ensures
            final(self)@ == old(self)@.put_layout(layout),
    {
        let test = |l: &PaneLayoutSnapshot| -> (b: bool)
                ensures
                    b == (l.workspace_id@ == layout.workspace_id@ && l.tab_id@ == layout.tab_id@),
                {
                    same(l.workspace_id.as_str(), layout.workspace_id.as_str()) && same(
                        l.tab_id.as_str(),
                        layout.tab_id.as_str(),
                    )
                };
        let i: usize = find(
            self.layouts.as_slice(),
            test,
            Ghost(layout_of(layout.workspace_id@, layout.tab_id@)),
        );
        if i < self.layouts.len() {
            self.layouts[i] = layout;
        } else {
            self.layouts.push(layout);
        }
    }

    fn clear_dangling_focus(&mut self)
        ensures
            final(self)@ == old(self)@.focus_settled(),
    {
        let pane_gone = match &self.focused_pane_id {
            Some(id) => self.pane(id.as_str()).is_none(),
            None => false,
        };
        let tab_gone = match &self.focused_tab_id {
            Some(id) => self.tab(id.as_str()).is_none(),
            None => false,
        };
        if pane_gone {
            self.focused_pane_id = None;
        }
        if tab_gone {
            self.focused_tab_id = None;
        }
    }

    fn remove_workspace(&mut self, workspace_id: &str)
        ensures
            final(self)@ == old(self)@.without_workspace(workspace_id@),
    {
        let test = |w: &WorkspaceInfo| -> (b: bool)
                ensures
                    b == (w.workspace_id@ != workspace_id@),
                { !same(w.workspace_id.as_str(), workspace_id) };
        keep(&mut self.workspaces, test, Ghost(workspace_not(workspace_id@)));
        let test = |t: &TabInfo| -> (b: bool)
                ensures
                    b == (t.workspace_id@ != workspace_id@),
                { !same(t.workspace_id.as_str(), workspace_id) };
        keep(&mut self.tabs, test, Ghost(tab_outside(workspace_id@)));
        let test = |p: &PaneInfo| -> (b: bool)
                ensures
                    b == (p.workspace_id@ != workspace_id@),
                { !same(p.workspace_id.as_str(), workspace_id) };
        keep(&mut self.panes, test, Ghost(pane_outside(workspace_id@)));
        let test = |l: &PaneLayoutSnapshot| -> (b: bool)
                ensures
                    b == (l.workspace_id@ != workspace_id@),
                { !same(l.workspace_id.as_str(), workspace_id) };
        keep(&mut self.layouts, test, Ghost(layout_outside(workspace_id@)));
        if opt_is(&self.focused_workspace_id, workspace_id) {
            self.focused_workspace_id = None;
        }
        self.clear_dangling_focus();
    }

    fn remove_tab(&mut self, tab_id: &str)
        ensures
            final(self)@ == old(self)@.without_tab(tab_id@),
    {
        let test = |t: &TabInfo| -> (b: bool)
                ensures
                    b == (t.tab_id@ != tab_id@),
                { !same(t.tab_id.as_str(), tab_id) };
        keep(&mut self.tabs, test, Ghost(tab_not(tab_id@)));
        let test = |p: &PaneInfo| -> (b: bool)
                ensures
                    b == (p.tab_id@ != tab_id@),
                { !same(p.tab_id.as_str(), tab_id) };
        keep(&mut self.panes, test, Ghost(pane_off_tab(tab_id@)));
        let test = |l: &PaneLayoutSnapshot| -> (b: bool)
                ensures
                    b == (l.tab_id@ != tab_id@),
                { !same(l.tab_id.as_str(), tab_id) };
        keep(&mut self.layouts, test, Ghost(layout_off_tab(tab_id@)));
        if opt_is(&self.focused_tab_id, tab_id) {
            self.focused_tab_id = None;
        }
        self.clear_dangling_focus();
    }

    fn remove_pane(&mut self, pane_id: &str)
        ensures
            final(self)@ == old(self)@.without_pane(pane_id@),
    {
        let test = |p: &PaneInfo| -> (b: bool)
                ensures
                    b == (p.pane_id@ != pane_id@),
                { !same(p.pane_id.as_str(), pane_id) };
        keep(&mut self.panes, test, Ghost(pane_not(pane_id@)));
        if opt_is(&self.focused_pane_id, pane_id) {
            self.focused_pane_id = None;
        }
    }

    fn focus_workspace(&mut self, workspace_id: String)
        ensures
            final(self)@ == (CatalogModel {
                focused_workspace_id: Some(workspace_id@),
                workspaces: old(self)@.workspaces.map_values(workspace_focus(workspace_id@)),
                ..old(self)@
            }),
    {
        let ghost all = self.workspaces@;
        let ghost f = workspace_focus(workspace_id@);
        let mut i: usize = 0;
        while i < self.workspaces.len()
            invariant
                f == workspace_focus(workspace_id@),
                i <= all.len(),
                self.workspaces@.len() == all.len(),
                forall|j: int| 0 <= j < i ==> self.workspaces@[j] == f(all[j]),
                forall|j: int| i <= j < all.len() ==> self.workspaces@[j] == all[j],
                self@ == (CatalogModel { workspaces: self.workspaces@, ..old(self)@ }),
            decreases all.len() - i,
        {
            let focused: bool = self.workspaces[i].workspace_id == workspace_id;
            self.workspaces[i].focused = focused;
            assert(self.workspaces@[i as int] == f(all[i as int]));
            i = i + 1;
        }
        self.focused_workspace_id = Some(workspace_id);
        assert(self.workspaces@ =~= all.map_values(f));
    }

    fn focus_tab(&mut self, tab_id: String, workspace_id: &str)
        ensures
            final(self)@ == (CatalogModel {
                focused_tab_id: Some(tab_id@),
                tabs: old(self)@.tabs.map_values(tab_focus(tab_id@, workspace_id@)),
                ..old(self)@
            }).with_workspace_change(
                workspace_id@,
                workspace_on_tab(tab_id),
            ),
    {
        let ghost all = self.tabs@;
        let ghost f = tab_focus(tab_id@, workspace_id@);
        let mut i: usize = 0;
        while i < self.tabs.len()
            invariant
                f == tab_focus(tab_id@, workspace_id@),
                i <= all.len(),
                self.tabs@.len() == all.len(),
                forall|j: int| 0 <= j < i ==> self.tabs@[j] == f(all[j]),
                forall|j: int| i <= j < all.len() ==> self.tabs@[j] == all[j],
                self@ == (CatalogModel { tabs: self.tabs@, ..old(self)@ }),
            decreases all.len() - i,
        {
            if same(self.tabs[i].workspace_id.as_str(), workspace_id) {
                let focused: bool = self.tabs[i].tab_id == tab_id;
                self.tabs[i].focused = focused;
            }
            assert(self.tabs@[i as int] == f(all[i as int]));
            i = i + 1;
        }
        assert(self.tabs@ =~= all.map_values(f));
        self.focused_tab_id = Some(tab_id.clone());
        let w: usize = self.workspace_index(workspace_id);
        if w < self.workspaces.len() {
            self.workspaces[w].active_tab_id = tab_id;
        }
    }

    fn focus_pane(&mut self, pane_id: String, workspace_id: &str)
        ensures
            final(self)@ == (CatalogModel {
                focused_pane_id: Some(pane_id@),
                panes: old(self)@.panes.map_values(pane_focus(pane_id@, workspace_id@)),
                ..old(self)@
            }),
    {
        let ghost all = self.panes@;
        let ghost f = pane_focus(pane_id@, workspace_id@);
        let mut i: usize = 0;
        while i < self.panes.len()
            invariant
                f == pane_focus(pane_id@, workspace_id@),
                i <= all.len(),
                self.panes@.len() == all.len(),
                forall|j: int| 0 <= j < i ==> self.panes@[j] == f(all[j]),
                forall|j: int| i <= j < all.len() ==> self.panes@[j] == all[j],
                self@ == (CatalogModel { panes: self.panes@, ..old(self)@ }),
            decreases all.len() - i,
        {
            if same(self.panes[i].workspace_id.as_str(), workspace_id) {
                let focused: bool = self.panes[i].pane_id == pane_id;
                self.panes[i].focused = focused;
            }
            assert(self.panes@[i as int] == f(all[i as int]));
            i = i + 1;
        }
        assert(self.panes@ =~= all.map_values(f));
        self.focused_pane_id = Some(pane_id);
    }

    /// Applies one catalog event at `sequence`. Returns false when the event
    /// is stale (at or below the catalog's current sequence) and was dropped.
    pub fn apply(&mut self, sequence: u64, envelope: EventEnvelope) -> (r: bool)
        ensures
            final(self)@ == old(self)@.after(sequence, envelope.data),
            r == (sequence > old(self)@.sequence),
    {
        if sequence <= self.sequence {
            return false;
        }
        self.sequence = sequence;
        match envelope.data {
            EventData::WorkspaceCreated { workspace } => self.upsert_workspace(workspace),
            EventData::WorkspaceUpdated { workspace } => self.upsert_workspace(workspace),
            EventData::WorkspaceMetadataUpdated { workspace } => self.upsert_workspace(workspace),
            EventData::WorkspaceClosed { workspace_id } => self.remove_workspace(
                workspace_id.as_str(),
            ),
            EventData::WorkspaceRenamed { workspace_id, label } => {
                let i: usize = self.workspace_index(workspace_id.as_str());
                if i < self.workspaces.len() {
                    self.workspaces[i].label = label;
                }
            },
            EventData::WorkspaceMoved { workspaces } => {
                self.workspaces = workspaces;
            },
            EventData::WorkspaceFocused { workspace_id } => self.focus_workspace(workspace_id),
            EventData::WorktreeCreated { workspace } => self.upsert_workspace(workspace),
            EventData::WorktreeOpened { workspace } => self.upsert_workspace(workspace),
            EventData::WorktreeRemoved { workspace_id, workspace } => match workspace {
                Some(workspace) => self.upsert_workspace(workspace),
                None => self.remove_workspace(workspace_id.as_str()),
            },
            EventData::TabCreated { tab } => self.upsert_tab(tab),
            EventData::TabClosed { tab_id, workspace_id: _ } => self.remove_tab(tab_id.as_str()),
            EventData::TabRenamed { tab_id, workspace_id: _, label } => {
                let i: usize = self.tab_index(tab_id.as_str());
                if i < self.tabs.len() {
                    self.tabs[i].label = label;
                }
            },
            EventData::TabMoved { workspace_id, tabs } => {
                let test = |t: &TabInfo| -> (b: bool)
                        ensures
                            b == (t.workspace_id@ != workspace_id@),
                        { !same(t.workspace_id.as_str(), workspace_id.as_str()) };
                keep(&mut self.tabs, test, Ghost(tab_outside(workspace_id@)));
                let mut tabs = tabs;
                self.tabs.append(&mut tabs);
            },
            EventData::TabFocused { tab_id, workspace_id } => self.focus_tab(
                tab_id,
                workspace_id.as_str(),
            ),
            EventData::PaneCreated { pane } => self.upsert_pane(pane),
            EventData::PaneUpdated { pane } => self.upsert_pane(pane),
            EventData::PaneClosed { pane_id, workspace_id: _ } => self.remove_pane(
                pane_id.as_str(),
            ),
            EventData::PaneExited { pane_id, workspace_id: _ } => self.remove_pane(
                pane_id.as_str(),
            ),
            EventData::PaneFocused { pane_id, workspace_id } => self.focus_pane(
                pane_id,
                workspace_id.as_str(),
            ),
            EventData::PaneMoved {
                previous_pane_id,
                pane,
                created_workspace,
                created_tab,
                closed_workspace_id,
                closed_tab_id,
            } => {
                self.remove_pane(previous_pane_id.as_str());
                if let Some(workspace) = created_workspace {
                    self.upsert_workspace(workspace);
                }
                if let Some(tab) = created_tab {
                    self.upsert_tab(tab);
                }
                self.upsert_pane(pane);
                if let Some(tab_id) = closed_tab_id {
                    self.remove_tab(tab_id.as_str());
                }
                if let Some(workspace_id) = closed_workspace_id {
                    self.remove_workspace(workspace_id.as_str());
                }
            },
            EventData::PaneOutputChanged { pane_id, workspace_id: _, revision } => {
                let i: usize = self.pane_index(pane_id.as_str());
                if i < self.panes.len() {
                    self.panes[i].revision = revision;
                }
            },
            EventData::PaneAgentDetected { pane_id, workspace_id: _, agent } => {
                let i: usize = self.pane_index(pane_id.as_str());
                if i < self.panes.len() {
                    self.panes[i].agent = agent;
                }
            },
            EventData::PaneAgentStatusChanged {
                pane_id,
                workspace_id: _,
                agent_status,
                agent,
                title,
                display_agent,
                state_labels,
            } => {
                let i: usize = self.pane_index(pane_id.as_str());
                if i < self.panes.len() {
                    let pane = &mut self.panes[i];
                    pane.agent_status = agent_status;
                    if agent.is_some() {
                        pane.agent = agent;
                    }
                    if title.is_some() {
                        pane.title = title;
                    }
                    if display_agent.is_some() {
                        pane.display_agent = display_agent;
                    }
                    pane.state_labels = state_labels;
                }
            },
            EventData::LayoutUpdated { layout } => self.upsert_layout(layout),
            EventData::NotificationPosted { kind: _, message: _, body: _ } => {},
            EventData::WindowTitleChanged { title: _ } => {},
        }
        true
    }
}

} // verus!
