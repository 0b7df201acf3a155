//! What each catalog event leaves to be looked up.
use crate::api::schema::{
    AgentStatus, EventData, PaneInfo, PaneLayoutSnapshot, SessionSnapshot, TabInfo, WorkspaceInfo,
};
use crate::client_state::catalog::{
    layout_of, layout_off_tab, layout_outside, pane_named, pane_not, pane_off_tab, pane_outside,
    tab_named, tab_not, tab_outside, workspace_named, workspace_not, CatalogModel,
};
use crate::seqs::{
    alter_elsewhere, alter_is_found, any, filter_is_found, filtered_is_gone, first_index_is,
    first_index_props, first_match, kept_exactly, map_is_found, put_elsewhere, put_is_found,
};
use crate::text::opt_view;
use vstd::prelude::*;

verus! {

/// What is looked up by id is the first that has it; what nothing has is not
/// found.
pub proof fn lookups_go_by_id(c: CatalogModel, id: Seq<char>, at: int)
    ensures
        0 <= at < c.panes.len() && c.panes[at].pane_id@ == id && (forall|j: int|
            0 <= j < at ==> (#[trigger] c.panes[j]).pane_id@ != id) ==> c.pane(id) == Some(
            c.panes[at],
        ),
        0 <= at < c.tabs.len() && c.tabs[at].tab_id@ == id && (forall|j: int|
            0 <= j < at ==> (#[trigger] c.tabs[j]).tab_id@ != id) ==> c.tab(id) == Some(c.tabs[at]),
        0 <= at < c.workspaces.len() && c.workspaces[at].workspace_id@ == id && (forall|j: int|
            0 <= j < at ==> (#[trigger] c.workspaces[j]).workspace_id@ != id) ==> c.workspace(id)
            == Some(c.workspaces[at]),
        c.has_pane(id) <==> exists|j: int|
            0 <= j < c.panes.len() && (#[trigger] c.panes[j]).pane_id@ == id,
        c.has_tab(id) <==> exists|j: int|
            0 <= j < c.tabs.len() && (#[trigger] c.tabs[j]).tab_id@ == id,
        c.has_workspace(id) <==> exists|j: int|
            0 <= j < c.workspaces.len() && (#[trigger] c.workspaces[j]).workspace_id@ == id,
        c.pane(id) is Some <==> c.has_pane(id),
        c.tab(id) is Some <==> c.has_tab(id),
        c.workspace(id) is Some <==> c.has_workspace(id),
{
    first_index_props(c.panes, pane_named(id));
    first_index_props(c.tabs, tab_named(id));
    first_index_props(c.workspaces, workspace_named(id));
    if exists|j: int| 0 <= j < c.panes.len() && (#[trigger] c.panes[j]).pane_id@ == id {
        let j = choose|j: int| 0 <= j < c.panes.len() && (#[trigger] c.panes[j]).pane_id@ == id;
        assert(pane_named(id)(c.panes[j]));
    }
    if exists|j: int| 0 <= j < c.tabs.len() && (#[trigger] c.tabs[j]).tab_id@ == id {
        let j = choose|j: int| 0 <= j < c.tabs.len() && (#[trigger] c.tabs[j]).tab_id@ == id;
        assert(tab_named(id)(c.tabs[j]));
    }
    if exists|j: int|
        0 <= j < c.workspaces.len() && (#[trigger] c.workspaces[j]).workspace_id@ == id {
        let j = choose|j: int|
            0 <= j < c.workspaces.len() && (#[trigger] c.workspaces[j]).workspace_id@ == id;
        assert(workspace_named(id)(c.workspaces[j]));
    }
    if 0 <= at < c.panes.len() && c.panes[at].pane_id@ == id && (forall|j: int|
        0 <= j < at ==> (#[trigger] c.panes[j]).pane_id@ != id) {
        first_index_is(c.panes, pane_named(id), at);
    }
    if 0 <= at < c.tabs.len() && c.tabs[at].tab_id@ == id && (forall|j: int|
        0 <= j < at ==> (#[trigger] c.tabs[j]).tab_id@ != id) {
        first_index_is(c.tabs, tab_named(id), at);
    }
    if 0 <= at < c.workspaces.len() && c.workspaces[at].workspace_id@ == id && (forall|j: int|
        0 <= j < at ==> (#[trigger] c.workspaces[j]).workspace_id@ != id) {
        first_index_is(c.workspaces, workspace_named(id), at);
    }
}

/// A stale event changes nothing; a fresh one moves the sequence to its own.
pub proof fn events_move_the_sequence(c: CatalogModel, sequence: u64, data: EventData)
    ensures
        sequence <= c.sequence ==> c.after(sequence, data) == c,
        sequence > c.sequence ==> c.after(sequence, data).sequence == sequence,
{
}

/// A status event gives the pane it names the status, the labels and the
/// names it carries, and touches no other pane.
pub proof fn status_events_set_the_status(
    c: CatalogModel,
    sequence: u64,
    pane_id: String,
    workspace_id: String,
    agent_status: AgentStatus,
    agent: Option<String>,
    title: Option<String>,
    display_agent: Option<String>,
    state_labels: Vec<(String, String)>,
    other: Seq<char>,
)
    requires
        sequence > c.sequence,
        c.pane(pane_id@) is Some,
        other != pane_id@,
    ensures
        ({
            let data = EventData::PaneAgentStatusChanged {
                pane_id,
                workspace_id,
                agent_status,
                agent,
                title,
                display_agent,
                state_labels,
            };
            let r = c.after(sequence, data);
            let was = c.pane(pane_id@)->Some_0;
            &&& r.pane(pane_id@) matches Some(p) && {
                &&& p.agent_status == agent_status
                &&& p.state_labels == state_labels
                &&& p.agent == if agent is Some { agent } else { was.agent }
                &&& p.title == if title is Some { title } else { was.title }
                &&& p.display_agent == if display_agent is Some { display_agent } else { was.display_agent }
                &&& p.pane_id == was.pane_id
                &&& p.terminal_id == was.terminal_id
                &&& p.workspace_id == was.workspace_id
                &&& p.tab_id == was.tab_id
                &&& p.focused == was.focused
                &&& p.revision == was.revision
                &&& p.cwd == was.cwd
                &&& p.terminal_title == was.terminal_title
                &&& p.label == was.label
            }
            &&& r.pane(other) == c.pane(other)
            &&& r.panes.len() == c.panes.len()
            &&& only_panes_differ(c, r)
        }),
{
    let data = EventData::PaneAgentStatusChanged {
        pane_id,
        workspace_id,
        agent_status,
        agent,
        title,
        display_agent,
        state_labels,
    };
    let f = crate::client_state::catalog::pane_reported(
        agent_status,
        agent,
        title,
        display_agent,
        state_labels,
    );
    alter_is_found(c.panes, pane_named(pane_id@), f);
    alter_elsewhere(c.panes, pane_named(pane_id@), f, pane_named(other));
    first_index_props(c.panes, pane_named(pane_id@));
}

/// Two catalogs agree on everything but their panes and their sequence.
pub open spec fn only_panes_differ(c: CatalogModel, r: CatalogModel) -> bool {
    &&& r.workspaces == c.workspaces
    &&& r.tabs == c.tabs
    &&& r.layouts == c.layouts
    &&& r.focused_workspace_id == c.focused_workspace_id
    &&& r.focused_tab_id == c.focused_tab_id
    &&& r.focused_pane_id == c.focused_pane_id
}

/// New output gives the pane its revision, a detected agent its agent;
/// nothing else of it changes, and no other pane.
pub proof fn output_and_agents_reach_their_pane(
    c: CatalogModel,
    sequence: u64,
    pane_id: String,
    workspace_id: String,
    revision: u64,
    agent: Option<String>,
    other: Seq<char>,
)
    requires
        sequence > c.sequence,
        c.pane(pane_id@) is Some,
        other != pane_id@,
    ensures
        ({
            let was = c.pane(pane_id@)->Some_0;
            let output = c.after(
                sequence,
                EventData::PaneOutputChanged { pane_id, workspace_id, revision },
            );
            let detected = c.after(
                sequence,
                EventData::PaneAgentDetected { pane_id, workspace_id, agent },
            );
            &&& output.pane(pane_id@) matches Some(p) && p.revision == revision && p == (
            PaneInfo { revision: p.revision, ..was })
            &&& detected.pane(pane_id@) matches Some(p) && p.agent == agent && p == (PaneInfo {
                agent: p.agent,
                ..was
            })
            &&& output.pane(other) == c.pane(other)
            &&& detected.pane(other) == c.pane(other)
            &&& only_panes_differ(c, output)
            &&& only_panes_differ(c, detected)
        }),
{
    let p = pane_named(pane_id@);
    let f = crate::client_state::catalog::pane_revised(revision);
    let g = crate::client_state::catalog::pane_running(agent);
    alter_is_found(c.panes, p, f);
    alter_is_found(c.panes, p, g);
    alter_elsewhere(c.panes, p, f, pane_named(other));
    alter_elsewhere(c.panes, p, g, pane_named(other));
    first_index_props(c.panes, p);
}

/// A pane that is created or updated is what is looked up under its id; one
/// that closed or exited is not there any more, and has no focus.
pub proof fn panes_come_and_go(
    c: CatalogModel,
    sequence: u64,
    pane: PaneInfo,
    pane_id: String,
    workspace_id: String,
    other: Seq<char>,
)
    requires
        sequence > c.sequence,
    ensures
        ({
            let created = c.after(sequence, EventData::PaneCreated { pane });
            let updated = c.after(sequence, EventData::PaneUpdated { pane });
            let closed = c.after(sequence, EventData::PaneClosed { pane_id, workspace_id });
            let exited = c.after(sequence, EventData::PaneExited { pane_id, workspace_id });
            &&& created.pane(pane.pane_id@) == Some(pane)
            &&& other != pane.pane_id@ ==> created.pane(other) == c.pane(other)
            &&& only_panes_differ(c, created)
            &&& updated == created
            &&& closed.pane(pane_id@) is None
            &&& other != pane_id@ ==> closed.pane(other) == c.pane(other)
            &&& closed.focused_pane_id == if c.focused_pane_id == Some(pane_id@) {
                None
            } else {
                c.focused_pane_id
            }
            &&& closed.workspaces == c.workspaces && closed.tabs == c.tabs && closed.layouts
                == c.layouts
            &&& closed.focused_tab_id == c.focused_tab_id && closed.focused_workspace_id
                == c.focused_workspace_id
            &&& exited == closed
        }),
{
    let p = pane_named(pane.pane_id@);
    put_is_found(c.panes, p, pane);
    if other != pane.pane_id@ {
        put_elsewhere(c.panes, p, pane, pane_named(other));
    }
    filtered_is_gone(c.panes, pane_not(pane_id@), pane_named(pane_id@));
    if other != pane_id@ {
        filter_is_found(c.panes, pane_not(pane_id@), pane_named(other));
    }
}

/// Focus on a pane: it is named, and of its workspace's panes exactly it is
/// flagged. Panes elsewhere keep their flags.
pub proof fn pane_focus_is_exclusive(
    c: CatalogModel,
    sequence: u64,
    pane_id: String,
    workspace_id: String,
    some: Seq<char>,
)
    requires
        sequence > c.sequence,
    ensures
        ({
            let r = c.after(sequence, EventData::PaneFocused { pane_id, workspace_id });
            &&& r.focused_pane_id == Some(pane_id@)
            &&& match (c.pane(some), r.pane(some)) {
                (Some(was), Some(p)) => {
                    &&& p.focused == if was.workspace_id@ == workspace_id@ {
                        some == pane_id@
                    } else {
                        was.focused
                    }
                    &&& p == (PaneInfo { focused: p.focused, ..was })
                },
                (None, None) => true,
                _ => false,
            }
            &&& r.workspaces == c.workspaces && r.tabs == c.tabs && r.layouts == c.layouts
            &&& r.focused_tab_id == c.focused_tab_id && r.focused_workspace_id
                == c.focused_workspace_id
        }),
{
    map_is_found(
        c.panes,
        crate::client_state::catalog::pane_focus(pane_id@, workspace_id@),
        pane_named(some),
    );
    first_index_props(c.panes, pane_named(some));
}

/// A tab that is created is what is looked up under its id; a rename changes
/// the label alone.
pub proof fn tabs_are_created_and_renamed(
    c: CatalogModel,
    sequence: u64,
    tab: TabInfo,
    tab_id: String,
    workspace_id: String,
    label: String,
    other: Seq<char>,
)
    requires
        sequence > c.sequence,
    ensures
        ({
            let created = c.after(sequence, EventData::TabCreated { tab });
            let renamed = c.after(sequence, EventData::TabRenamed { tab_id, workspace_id, label });
            &&& created.tab(tab.tab_id@) == Some(tab)
            &&& other != tab.tab_id@ ==> created.tab(other) == c.tab(other)
            &&& created.panes == c.panes && created.workspaces == c.workspaces
            &&& match (c.tab(tab_id@), renamed.tab(tab_id@)) {
                (Some(was), Some(t)) => t.label == label && t == (TabInfo {
                    label: t.label,
                    ..was
                }),
                (None, None) => true,
                _ => false,
            }
            &&& other != tab_id@ ==> renamed.tab(other) == c.tab(other)
            &&& renamed.panes == c.panes && renamed.workspaces == c.workspaces
            &&& renamed.focused_tab_id == c.focused_tab_id && created.focused_tab_id
                == c.focused_tab_id
        }),
{
    let p = tab_named(tab.tab_id@);
    put_is_found(c.tabs, p, tab);
    if other != tab.tab_id@ {
        put_elsewhere(c.tabs, p, tab, tab_named(other));
    }
    let q = tab_named(tab_id@);
    let f = crate::client_state::catalog::tab_labelled(label);
    alter_is_found(c.tabs, q, f);
    if other != tab_id@ {
        alter_elsewhere(c.tabs, q, f, tab_named(other));
    }
}

/// A tab that closes takes its panes and layouts along, and nothing else. No
/// focus is left on what went.
pub proof fn closed_tabs_take_their_panes(
    c: CatalogModel,
    sequence: u64,
    tab_id: String,
    workspace_id: String,
    other: Seq<char>,
    pane: PaneInfo,
    layout: PaneLayoutSnapshot,
)
    requires
        sequence > c.sequence,
    ensures
        ({
            let r = c.after(sequence, EventData::TabClosed { tab_id, workspace_id });
            &&& r.tab(tab_id@) is None
            &&& other != tab_id@ ==> r.tab(other) == c.tab(other)
            &&& r.panes.contains(pane) <==> c.panes.contains(pane) && pane.tab_id@ != tab_id@
            &&& r.layouts.contains(layout) <==> c.layouts.contains(layout) && layout.tab_id@
                != tab_id@
            &&& r.workspaces == c.workspaces
            &&& r.focused_tab_id matches Some(id) ==> id != tab_id@ && c.focused_tab_id == Some(id)
                && r.tab(id) is Some
            &&& r.focused_pane_id matches Some(id) ==> c.focused_pane_id == Some(id) && r.pane(
                id,
            ) is Some
            &&& (c.focused_pane_id matches Some(id) && r.pane(id) is Some) ==> r.focused_pane_id
                == c.focused_pane_id
            &&& (c.focused_tab_id matches Some(id) && id != tab_id@ && c.has_tab(id))
                ==> r.focused_tab_id == c.focused_tab_id
            &&& r.focused_workspace_id == c.focused_workspace_id
        }),
{
    let r = c.after(sequence, EventData::TabClosed { tab_id, workspace_id });
    filtered_is_gone(c.tabs, tab_not(tab_id@), tab_named(tab_id@));
    if other != tab_id@ {
        filter_is_found(c.tabs, tab_not(tab_id@), tab_named(other));
    }
    kept_exactly(c.panes, pane_off_tab(tab_id@), pane);
    kept_exactly(c.layouts, layout_off_tab(tab_id@), layout);
    found_iff_any(r.panes, c.focused_pane_id);
    if let Some(id) = c.focused_tab_id {
        first_index_props(r.tabs, tab_named(id));
        first_index_props(c.tabs, tab_named(id));
        if id != tab_id@ {
            filter_is_found(c.tabs, tab_not(tab_id@), tab_named(id));
        }
    }
}

proof fn found_iff_any(s: Seq<PaneInfo>, id: Option<Seq<char>>)
    ensures
        id matches Some(x) ==> (first_match(s, pane_named(x)) is Some <==> any(s, pane_named(x))),
{
    if let Some(x) = id {
        first_index_props(s, pane_named(x));
    }
}

/// Reordered tabs stand, in their new order, behind the tabs of the other
/// workspaces; none of the workspace's old tabs is left.
pub proof fn moved_tabs_replace_their_workspaces(
    c: CatalogModel,
    sequence: u64,
    workspace_id: String,
    tabs: Vec<TabInfo>,
    some: TabInfo,
)
    requires
        sequence > c.sequence,
    ensures
        ({
            let r = c.after(sequence, EventData::TabMoved { workspace_id, tabs });
            &&& r.tabs.len() >= tabs@.len()
            &&& r.tabs.skip(r.tabs.len() - tabs@.len()) == tabs@
            &&& r.tabs.take(r.tabs.len() - tabs@.len()).contains(some) <==> c.tabs.contains(some)
                && some.workspace_id@ != workspace_id@
            &&& r.panes == c.panes && r.workspaces == c.workspaces
            &&& r.focused_tab_id == c.focused_tab_id
        }),
{
    let r = c.after(sequence, EventData::TabMoved { workspace_id, tabs });
    let kept = c.tabs.filter(tab_outside(workspace_id@));
    kept_exactly(c.tabs, tab_outside(workspace_id@), some);
    assert(r.tabs.skip(kept.len() as int) =~= tabs@);
    assert(r.tabs.take(kept.len() as int) =~= kept);
}

/// Focus on a tab: it is named, it is its workspace's active tab, and of the
/// workspace's tabs exactly it is flagged.
pub proof fn tab_focus_is_exclusive(
    c: CatalogModel,
    sequence: u64,
    tab_id: String,
    workspace_id: String,
    some: Seq<char>,
    other: Seq<char>,
)
    requires
        sequence > c.sequence,
        other != workspace_id@,
    ensures
        ({
            let r = c.after(sequence, EventData::TabFocused { tab_id, workspace_id });
            &&& r.focused_tab_id == Some(tab_id@)
            &&& match (c.tab(some), r.tab(some)) {
                (Some(was), Some(t)) => {
                    &&& t.focused == if was.workspace_id@ == workspace_id@ {
                        some == tab_id@
                    } else {
                        was.focused
                    }
                    &&& t == (TabInfo { focused: t.focused, ..was })
                },
                (None, None) => true,
                _ => false,
            }
            &&& match (c.workspace(workspace_id@), r.workspace(workspace_id@)) {
                (Some(was), Some(w)) => w.active_tab_id == tab_id && w == (WorkspaceInfo {
                    active_tab_id: w.active_tab_id,
                    ..was
                }),
                (None, None) => true,
                _ => false,
            }
            &&& r.workspace(other) == c.workspace(other)
            &&& r.panes == c.panes
            &&& r.focused_pane_id == c.focused_pane_id
            &&& r.focused_workspace_id == c.focused_workspace_id
        }),
{
    map_is_found(
        c.tabs,
        crate::client_state::catalog::tab_focus(tab_id@, workspace_id@),
        tab_named(some),
    );
    first_index_props(c.tabs, tab_named(some));
    let p = workspace_named(workspace_id@);
    let f = crate::client_state::catalog::workspace_on_tab(tab_id);
    alter_is_found(c.workspaces, p, f);
    alter_elsewhere(c.workspaces, p, f, workspace_named(other));
}

/// Whatever reports a workspace as it now is, makes it what is looked up.
pub proof fn workspaces_are_reported(
    c: CatalogModel,
    sequence: u64,
    workspace: WorkspaceInfo,
    gone: String,
    other: Seq<char>,
)
    requires
        sequence > c.sequence,
        other != workspace.workspace_id@,
    ensures
        ({
            let r = c.after(sequence, EventData::WorkspaceCreated { workspace });
            &&& r.workspace(workspace.workspace_id@) == Some(workspace)
            &&& r.workspace(other) == c.workspace(other)
            &&& r.tabs == c.tabs && r.panes == c.panes && r.layouts == c.layouts
            &&& r.focused_workspace_id == c.focused_workspace_id
            &&& c.after(sequence, EventData::WorkspaceUpdated { workspace }) == r
            &&& c.after(sequence, EventData::WorkspaceMetadataUpdated { workspace }) == r
            &&& c.after(sequence, EventData::WorktreeCreated { workspace }) == r
            &&& c.after(sequence, EventData::WorktreeOpened { workspace }) == r
            &&& c.after(
                sequence,
                EventData::WorktreeRemoved { workspace_id: gone, workspace: Some(workspace) },
            ) == r
        }),
{
    let p = workspace_named(workspace.workspace_id@);
    put_is_found(c.workspaces, p, workspace);
    put_elsewhere(c.workspaces, p, workspace, workspace_named(other));
}

/// A workspace that closes takes its tabs, panes and layouts along, and
/// nothing else; a worktree that is removed without a successor does too.
pub proof fn closed_workspaces_take_their_own(
    c: CatalogModel,
    sequence: u64,
    workspace_id: String,
    other: Seq<char>,
    tab: TabInfo,
    pane: PaneInfo,
    layout: PaneLayoutSnapshot,
)
    requires
        sequence > c.sequence,
    ensures
        ({
            let r = c.after(sequence, EventData::WorkspaceClosed { workspace_id });
            &&& r.workspace(workspace_id@) is None
            &&& other != workspace_id@ ==> r.workspace(other) == c.workspace(other)
            &&& r.tabs.contains(tab) <==> c.tabs.contains(tab) && tab.workspace_id@
                != workspace_id@
            &&& r.panes.contains(pane) <==> c.panes.contains(pane) && pane.workspace_id@
                != workspace_id@
            &&& r.layouts.contains(layout) <==> c.layouts.contains(layout)
                && layout.workspace_id@ != workspace_id@
            &&& r.focused_workspace_id == if c.focused_workspace_id == Some(workspace_id@) {
                None
            } else {
                c.focused_workspace_id
            }
            &&& r.focused_pane_id matches Some(id) ==> c.focused_pane_id == Some(id) && r.pane(
                id,
            ) is Some
            &&& (c.focused_pane_id matches Some(id) && r.pane(id) is Some) ==> r.focused_pane_id
                == c.focused_pane_id
            &&& r.focused_tab_id matches Some(id) ==> c.focused_tab_id == Some(id) && r.tab(
                id,
            ) is Some
            &&& (c.focused_tab_id matches Some(id) && r.tab(id) is Some) ==> r.focused_tab_id
                == c.focused_tab_id
            &&& c.after(
                sequence,
                EventData::WorktreeRemoved { workspace_id, workspace: None },
            ) == r
        }),
{
    let r = c.after(sequence, EventData::WorkspaceClosed { workspace_id });
    let id = workspace_id@;
    filtered_is_gone(c.workspaces, workspace_not(id), workspace_named(id));
    if other != id {
        filter_is_found(c.workspaces, workspace_not(id), workspace_named(other));
    }
    kept_exactly(c.tabs, tab_outside(id), tab);
    kept_exactly(c.panes, pane_outside(id), pane);
    kept_exactly(c.layouts, layout_outside(id), layout);
    found_iff_any(r.panes, c.focused_pane_id);
    if let Some(tab) = c.focused_tab_id {
        first_index_props(r.tabs, tab_named(tab));
    }
}

/// A renamed workspace has the new label and is otherwise as it was;
/// reordered workspaces are exactly those listed, in that order; focus names
/// and flags exactly one.
pub proof fn workspaces_are_renamed_moved_and_focused(
    c: CatalogModel,
    sequence: u64,
    workspace_id: String,
    label: String,
    workspaces: Vec<WorkspaceInfo>,
    some: Seq<char>,
)
    requires
        sequence > c.sequence,
    ensures
        ({
            let renamed = c.after(sequence, EventData::WorkspaceRenamed { workspace_id, label });
            let moved = c.after(sequence, EventData::WorkspaceMoved { workspaces });
            let focused = c.after(sequence, EventData::WorkspaceFocused { workspace_id });
            &&& match (c.workspace(workspace_id@), renamed.workspace(workspace_id@)) {
                (Some(was), Some(w)) => w.label == label && w == (WorkspaceInfo {
                    label: w.label,
                    ..was
                }),
                (None, None) => true,
                _ => false,
            }
            &&& some != workspace_id@ ==> renamed.workspace(some) == c.workspace(some)
            &&& moved.workspaces == workspaces@
            &&& focused.focused_workspace_id == Some(workspace_id@)
            &&& match (c.workspace(some), focused.workspace(some)) {
                (Some(was), Some(w)) => w.focused == (some == workspace_id@) && w
                    == (WorkspaceInfo { focused: w.focused, ..was }),
                (None, None) => true,
                _ => false,
            }
            &&& renamed.tabs == c.tabs && renamed.panes == c.panes
            &&& moved.tabs == c.tabs && moved.panes == c.panes && moved.focused_workspace_id
                == c.focused_workspace_id
            &&& focused.tabs == c.tabs && focused.panes == c.panes
        }),
{
    let p = workspace_named(workspace_id@);
    let f = crate::client_state::catalog::workspace_labelled(label);
    alter_is_found(c.workspaces, p, f);
    if some != workspace_id@ {
        alter_elsewhere(c.workspaces, p, f, workspace_named(some));
    }
    map_is_found(
        c.workspaces,
        crate::client_state::catalog::workspace_focus(workspace_id@),
        workspace_named(some),
    );
    first_index_props(c.workspaces, workspace_named(some));
}

/// A layout that is reported is its tab's; other tabs keep theirs. News for
/// the user alone changes nothing but the sequence.
pub proof fn layouts_are_reported(
    c: CatalogModel,
    sequence: u64,
    layout: PaneLayoutSnapshot,
    workspace: Seq<char>,
    tab: Seq<char>,
    kind: String,
    message: String,
    body: Option<String>,
    title: Option<String>,
)
    requires
        sequence > c.sequence,
    ensures
        ({
            let r = c.after(sequence, EventData::LayoutUpdated { layout });
            let found = |m: CatalogModel, w: Seq<char>, t: Seq<char>|
                first_match(m.layouts, layout_of(w, t));
            &&& found(r, layout.workspace_id@, layout.tab_id@) == Some(layout)
            &&& (workspace != layout.workspace_id@ || tab != layout.tab_id@) ==> found(
                r,
                workspace,
                tab,
            ) == found(c, workspace, tab)
            &&& r.panes == c.panes && r.tabs == c.tabs && r.workspaces == c.workspaces
            &&& c.after(sequence, EventData::NotificationPosted { kind, message, body }) == (
            CatalogModel { sequence, ..c })
            &&& c.after(sequence, EventData::WindowTitleChanged { title }) == (CatalogModel {
                sequence,
                ..c
            })
        }),
{
    let p = layout_of(layout.workspace_id@, layout.tab_id@);
    put_is_found(c.layouts, p, layout);
    if workspace != layout.workspace_id@ || tab != layout.tab_id@ {
        put_elsewhere(c.layouts, p, layout, layout_of(workspace, tab));
    }
}

/// A moved pane is found under its new id, unless the place it went to closed;
/// its old id names nothing. What was created for it is found, what closed is
/// gone with its panes, and every other pane outside of that stays.
pub proof fn moved_panes_are_found(
    c: CatalogModel,
    sequence: u64,
    previous_pane_id: String,
    pane: PaneInfo,
    created_workspace: Option<WorkspaceInfo>,
    created_tab: Option<TabInfo>,
    other: Seq<char>,
)
    requires
        sequence > c.sequence,
        other != previous_pane_id@,
        other != pane.pane_id@,
    ensures
        ({
            let r = c.after(
                sequence,
                EventData::PaneMoved {
                    previous_pane_id,
                    pane,
                    created_workspace,
                    created_tab,
                    closed_workspace_id: None,
                    closed_tab_id: None,
                },
            );
            &&& r.pane(pane.pane_id@) == Some(pane)
            &&& previous_pane_id@ != pane.pane_id@ ==> r.pane(previous_pane_id@) is None
            &&& r.pane(other) == c.pane(other)
            &&& created_workspace matches Some(w) ==> r.workspace(w.workspace_id@) == Some(w)
            &&& created_tab matches Some(t) ==> r.tab(t.tab_id@) == Some(t)
            &&& created_workspace is None ==> r.workspaces == c.workspaces
            &&& created_tab is None ==> r.tabs == c.tabs
            &&& r.layouts == c.layouts
            &&& r.focused_pane_id == if c.focused_pane_id == Some(previous_pane_id@) {
                None
            } else {
                c.focused_pane_id
            }
        }),
{
    let rest = c.panes.filter(pane_not(previous_pane_id@));
    let p = pane_named(pane.pane_id@);
    put_is_found(rest, p, pane);
    filter_is_found(c.panes, pane_not(previous_pane_id@), pane_named(other));
    put_elsewhere(rest, p, pane, pane_named(other));
    if previous_pane_id@ != pane.pane_id@ {
        filtered_is_gone(
            c.panes,
            pane_not(previous_pane_id@),
            pane_named(previous_pane_id@),
        );
        put_elsewhere(rest, p, pane, pane_named(previous_pane_id@));
    }
    if let Some(w) = created_workspace {
        put_is_found(c.workspaces, workspace_named(w.workspace_id@), w);
    }
    if let Some(t) = created_tab {
        put_is_found(c.tabs, tab_named(t.tab_id@), t);
    }
}

/// A move that closes something ends where the same move without closing and
/// then those closings would.
pub proof fn closing_moves_close(
    c: CatalogModel,
    sequence: u64,
    later: u64,
    last: u64,
    previous_pane_id: String,
    pane: PaneInfo,
    created_workspace: Option<WorkspaceInfo>,
    created_tab: Option<TabInfo>,
    tab_id: String,
    workspace_id: String,
    of: String,
)
    requires
        c.sequence < sequence < later < last,
    ensures
        ({
            let moved = |workspace: Option<String>, tab: Option<String>|
                EventData::PaneMoved {
                    previous_pane_id,
                    pane,
                    created_workspace,
                    created_tab,
                    closed_workspace_id: workspace,
                    closed_tab_id: tab,
                };
            let plain = c.after(sequence, moved(None, None));
            let tab_closed = plain.after(later, EventData::TabClosed { tab_id, workspace_id: of });
            let both = tab_closed.after(last, EventData::WorkspaceClosed { workspace_id });
            &&& c.after(later, moved(None, Some(tab_id))) == tab_closed
            &&& c.after(last, moved(Some(workspace_id), Some(tab_id))) == both
            &&& c.after(later, moved(Some(workspace_id), None)) == plain.after(
                later,
                EventData::WorkspaceClosed { workspace_id },
            )
        }),
{
}

/// A resync takes over exactly what the snapshot says, and its anchor.
pub proof fn resyncs_take_the_snapshot_over(snapshot: SessionSnapshot, sequence: u64)
    ensures
        ({
            let r = CatalogModel::of_snapshot(snapshot, sequence);
            &&& r.sequence == sequence
            &&& r.workspaces == snapshot.workspaces@
            &&& r.tabs == snapshot.tabs@
            &&& r.panes == snapshot.panes@
            &&& r.layouts == snapshot.layouts@
            &&& r.focused_workspace_id == opt_view(snapshot.focused_workspace_id)
            &&& r.focused_tab_id == opt_view(snapshot.focused_tab_id)
            &&& r.focused_pane_id == opt_view(snapshot.focused_pane_id)
        }),
{
}

} // verus!
