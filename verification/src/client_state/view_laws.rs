//! What a composed view shows of a catalog, read off the composed records.
use crate::api::schema::{AgentStatus, PaneInfo, TabInfo, WorkspaceInfo};
use crate::client_state::app_state::{AgentState, AppState, TerminalStateModel};
use crate::client_state::catalog::{layout_of, CatalogModel};
use crate::client_state::chrome::GlobalChrome;
use crate::client_state::compose::{
    active_of, active_tab, catalog_terminals, composed_before, composed_publics, fleet_composition,
    fleet_focus, fleet_owners, fleet_tags, fleet_terminals, fleet_workspaces, focused_workspace, has_panes,
    is_composed, mirror_composition, pane_states, panes_of_tabs, scoped, shown_tags, shows, tab_models,
    tab_within, tabs_of, terminal_of, with_terminals, workspace_model, workspace_models,
    workspace_with_id, Composition,
};
use crate::client_state::compose_ids::{id_of, on_tab, pane_is_focused, PaneSlot};
use crate::client_state::fleet_view::{RemoteDescriptor, SelectionModel};
use crate::client_state::intent::{
    panes_any, shown_tab, tab_positions_agree, tab_public, tab_with_panes,
};
use crate::client_state::mirror::MirrorModel;
use crate::seqs::{filter_props, first_index_is, first_index_props, first_match};
use crate::text::opt_view;
use vstd::prelude::*;

verus! {

/// The tabs a workspace shows: its own, in catalog order, that have a pane.
pub open spec fn tab_bar(c: CatalogModel, workspace: Seq<char>) -> Seq<TabInfo> {
    c.tabs.filter(crate::client_state::intent_laws::with_a_pane(c, workspace))
}

proof fn tab_bar_is_shown(c: CatalogModel, workspace: Seq<char>)
    ensures
        tab_bar(c, workspace) == c.tabs.filter(shown_tab(c, workspace)),
{
    crate::client_state::intent_laws::shown_tabs_have_panes(c, workspace);
}

/// Whether a tab asks to be the workspace's active one.
pub open spec fn asks_to_be_active(w: WorkspaceInfo, t: TabInfo) -> bool {
    t.tab_id@ == w.active_tab_id@ || t.focused
}

proof fn active_tab_upto(c: CatalogModel, w: WorkspaceInfo, tabs: Seq<TabInfo>, n: int, at: int)
    requires
        0 <= n <= tabs.len(),
    ensures
        ({
            let bar = tabs.take(n).filter(tab_with_panes(c));
            &&& composed_before(c, tabs, n) == bar.len()
            &&& (forall|i: int| 0 <= i < bar.len() ==> !asks_to_be_active(w, #[trigger] bar[i]))
                ==> active_tab(c, w, tabs, n) == 0
            &&& (0 <= at < bar.len() && asks_to_be_active(w, bar[at]) && forall|i: int|
                at < i < bar.len() ==> !asks_to_be_active(w, #[trigger] bar[i])) ==> active_tab(
                c,
                w,
                tabs,
                n,
            ) == at
        }),
    decreases n,
{
    reveal(Seq::filter);
    if n > 0 {
        active_tab_upto(c, w, tabs, n - 1, at);
        let t = tabs[n - 1];
        panes_any(c, t);
        assert(tabs.take(n) =~= tabs.take(n - 1).push(t));
        tabs.take(n - 1).lemma_filter_push(t, tab_with_panes(c));
        let before = tabs.take(n - 1).filter(tab_with_panes(c));
        let bar = tabs.take(n).filter(tab_with_panes(c));
        if has_panes(c, t) {
            assert(bar[before.len() as int] == t);
            assert forall|i: int| 0 <= i < before.len() implies bar[i] == #[trigger] before[i] by {}
        }
    }
}

/// The active tab of a composed workspace is the shown tab that the workspace
/// names active or that is flagged focused: its place in the tab bar, where
/// its id is what is found. Of several the last counts; where none asks, it
/// is the first.
pub proof fn the_active_tab_is_the_one_asked_for(
    slots: Seq<PaneSlot>,
    remote: usize,
    c: CatalogModel,
    w: WorkspaceInfo,
    at: int,
)
    requires
        c.tabs.len() <= usize::MAX,
    ensures
        ({
            let bar = tab_bar(c, w.workspace_id@);
            let m = workspace_model(slots, remote, c, w);
            &&& (0 <= at < bar.len() && asks_to_be_active(w, bar[at]) && forall|i: int|
                at < i < bar.len() ==> !asks_to_be_active(w, #[trigger] bar[i])) ==> m.active_tab
                == at && tab_public(c, w.workspace_id@, m.active_tab) == Some(bar[at].tab_id@)
            &&& (forall|i: int| 0 <= i < bar.len() ==> !asks_to_be_active(w, #[trigger] bar[i]))
                ==> m.active_tab == 0
        }),
{
    let tabs = tabs_of(c, w);
    tab_bar_is_shown(c, w.workspace_id@);
    crate::client_state::intent::filter_twice(c, w.workspace_id@, c.tabs);
    active_tab_upto(c, w, tabs, tabs.len() as int, at);
    assert(tabs.take(tabs.len() as int) =~= tabs);
    filters_shorten(c.tabs, shown_tab(c, w.workspace_id@));
    let bar = tab_bar(c, w.workspace_id@);
    assert(bar == tabs.filter(tab_with_panes(c)));
}

/// If exactly one shown tab asks to be active, it is: the workspace's active
/// position holds it, and no other.
pub proof fn the_only_tab_asked_for_is_active(
    slots: Seq<PaneSlot>,
    remote: usize,
    c: CatalogModel,
    w: WorkspaceInfo,
    tab: TabInfo,
)
    requires
        c.tabs.len() <= usize::MAX,
        tab_bar(c, w.workspace_id@).contains(tab),
        tab.tab_id@ == w.active_tab_id@,
        forall|i: int|
            0 <= i < tab_bar(c, w.workspace_id@).len() ==> (asks_to_be_active(
                w,
                #[trigger] tab_bar(c, w.workspace_id@)[i],
            ) ==> tab_bar(c, w.workspace_id@)[i] == tab),
    ensures
        tab_public(c, w.workspace_id@, workspace_model(slots, remote, c, w).active_tab) == Some(
            w.active_tab_id@,
        ),
{
    let bar = tab_bar(c, w.workspace_id@);
    let first = choose|i: int| 0 <= i < bar.len() && bar[i] == tab;
    let at = last_place(bar, tab, bar.len() as int);
    last_place_is(bar, tab, bar.len() as int, first);
    the_active_tab_is_the_one_asked_for(slots, remote, c, w, at);
}

spec fn last_place(s: Seq<TabInfo>, t: TabInfo, n: int) -> int
    decreases n,
{
    if n <= 0 {
        -1
    } else if s[n - 1] == t {
        n - 1
    } else {
        last_place(s, t, n - 1)
    }
}

proof fn last_place_is(s: Seq<TabInfo>, t: TabInfo, n: int, some: int)
    requires
        0 <= some < n <= s.len(),
        s[some] == t,
    ensures
        some <= last_place(s, t, n) < n,
        s[last_place(s, t, n)] == t,
        forall|i: int| last_place(s, t, n) < i < n ==> #[trigger] s[i] != t,
    decreases n,
{
    if s[n - 1] != t {
        last_place_is(s, t, n - 1, some);
    }
}

proof fn filters_shorten<T>(s: Seq<T>, p: spec_fn(T) -> bool)
    ensures
        s.filter(p).len() <= s.len(),
    decreases s.len(),
{
    reveal(Seq::filter);
    if s.len() > 0 {
        filters_shorten(s.drop_last(), p);
    }
}

/// A composed workspace carries its own label and its remote's id, and shows
/// one tab for each tab of its bar: numbered by its place among the
/// workspace's tabs, under its label unless that is empty or the default one,
/// zoomed where its layout is, focused on the pane that is flagged.
pub proof fn composed_tabs_show_their_tabs(
    slots: Seq<PaneSlot>,
    remote: usize,
    c: CatalogModel,
    w: WorkspaceInfo,
    i: int,
    pane: PaneInfo,
)
    requires
        c.tabs.len() < usize::MAX,
        0 <= i < tab_bar(c, w.workspace_id@).len(),
    ensures
        ({
            let t = tab_bar(c, w.workspace_id@)[i];
            let m = workspace_model(slots, remote, c, w);
            let shown = m.tabs[i];
            let default = "tab "@ + crate::text::decimal(shown.number as nat);
            &&& m.label == w.label@
            &&& m.id == scoped(remote, w.workspace_id@)
            &&& m.tabs.len() == tab_bar(c, w.workspace_id@).len()
            &&& 1 <= shown.number && c.tabs.filter(
                |x: TabInfo| x.workspace_id@ == w.workspace_id@,
            )[shown.number - 1] == t
            &&& shown.custom_name == if t.label@ == default || t.label@.len() == 0 {
                None
            } else {
                Some(t.label@)
            }
            &&& first_match(
                c.panes.filter(|p: PaneInfo| p.tab_id@ == t.tab_id@),
                |p: PaneInfo| p.focused,
            ) == Some(pane) ==> shown.layout.focus == id_of(slots, remote, pane.pane_id@)
            &&& (forall|k: int|
                0 <= k < c.panes.len() ==> !((#[trigger] c.panes[k]).focused && c.panes[k].tab_id@
                    == t.tab_id@)) ==> (first_match(
                c.layouts,
                layout_of(w.workspace_id@, t.tab_id@),
            ) matches Some(s) ==> shown.layout.focus == id_of(slots, remote, s.focused_pane_id@))
            &&& shown.panes == pane_states(
                slots,
                remote,
                c.panes.filter(|p: PaneInfo| p.tab_id@ == t.tab_id@),
            )
            &&& shown.root_pane == crate::client_state::layout::leaves_of(shown.layout.root)[0]
            &&& shown.layout.root == crate::client_state::compose::tab_tree(
                slots,
                remote,
                c.panes.filter(|p: PaneInfo| p.tab_id@ == t.tab_id@),
                first_match(c.layouts, layout_of(w.workspace_id@, t.tab_id@)),
            )
            &&& shown.zoomed <==> (first_match(
                c.layouts,
                layout_of(w.workspace_id@, t.tab_id@),
            ) matches Some(s) && s.zoomed)
        }),
{
    let tabs = tabs_of(c, w);
    tab_bar_is_shown(c, w.workspace_id@);
    tab_positions_agree(slots, remote, c, w);
    filters_shorten(c.tabs, tab_within(w.workspace_id@));
    assert(tab_within(w.workspace_id@) =~= (|x: TabInfo| x.workspace_id@ == w.workspace_id@));
    let bar = tab_models(slots, remote, c, w, tabs, tabs.len() as int);
    let shown = c.tabs.filter(shown_tab(c, w.workspace_id@));
    let k = choose|k: int|
        0 <= k < tabs.len() && tabs[k] == shown[i] && bar[i]
            == crate::client_state::compose::tab_model(slots, remote, c, w, tabs[k], k);
    let t = shown[i];
    assert(on_tab(t.tab_id@) =~= (|p: PaneInfo| p.tab_id@ == t.tab_id@));
    assert(pane_is_focused() =~= (|p: PaneInfo| p.focused));
    assert(bar[i].number == k + 1);
    crate::client_state::state_laws::first_leaves_come_first(bar[i].layout.root);
    if forall|k: int|
        0 <= k < c.panes.len() ==> !((#[trigger] c.panes[k]).focused && c.panes[k].tab_id@
            == t.tab_id@) {
        let own = c.panes.filter(on_tab(t.tab_id@));
        filter_props(c.panes, on_tab(t.tab_id@));
        assert forall|j: int| 0 <= j < own.len() implies !(#[trigger] own[j]).focused by {
            assert(on_tab(t.tab_id@)(own[j]));
            assert(c.panes.contains(own[j]));
            let k = choose|k: int| 0 <= k < c.panes.len() && c.panes[k] == own[j];
            assert(c.panes[k].tab_id@ == t.tab_id@);
        }
        crate::client_state::state_laws::flags_decide_the_focus(
            own,
            first_match(c.layouts, layout_of(w.workspace_id@, t.tab_id@)),
            0,
        );
    }
}

/// Every pane of a shown tab has its state in the tab, under the pane's id:
/// its terminal, and whether its work was seen. No id is there without one.
pub proof fn composed_panes_show_their_panes(
    slots: Seq<PaneSlot>,
    remote: usize,
    panes: Seq<PaneInfo>,
    at: int,
)
    requires
        0 <= at < panes.len(),
        forall|j: int|
            0 <= j < panes.len() && j != at ==> id_of(
                slots,
                remote,
                (#[trigger] panes[j]).pane_id@,
            ) != id_of(slots, remote, panes[at].pane_id@),
    ensures
        ({
            let m = pane_states(slots, remote, panes);
            let id = id_of(slots, remote, panes[at].pane_id@);
            &&& m.contains_key(id)
            &&& m[id].terminal_id == scoped(remote, panes[at].terminal_id@)
            &&& m[id].seen <==> panes[at].agent_status != AgentStatus::Done
            &&& forall|key: usize| #[trigger]
                m.contains_key(key) ==> exists|j: int|
                    0 <= j < panes.len() && key == id_of(
                        slots,
                        remote,
                        (#[trigger] panes[j]).pane_id@,
                    )
        }),
    decreases panes.len(),
{
    only_panes_are_shown(slots, remote, panes);
    let front = panes.drop_last();
    if at < panes.len() - 1 {
        assert forall|j: int| 0 <= j < front.len() && j != at implies id_of(
            slots,
            remote,
            (#[trigger] front[j]).pane_id@,
        ) != id_of(slots, remote, front[at].pane_id@) by {
            assert(front[j] == panes[j]);
        }
        composed_panes_show_their_panes(slots, remote, front, at);
        assert(panes.last() == panes[panes.len() - 1]);
    }
}

proof fn only_panes_are_shown(slots: Seq<PaneSlot>, remote: usize, panes: Seq<PaneInfo>)
    ensures
        forall|key: usize| #[trigger]
            pane_states(slots, remote, panes).contains_key(key) ==> exists|j: int|
                0 <= j < panes.len() && key == id_of(slots, remote, (#[trigger] panes[j]).pane_id@),
    decreases panes.len(),
{
    if panes.len() > 0 {
        let front = panes.drop_last();
        only_panes_are_shown(slots, remote, front);
        assert forall|key: usize| #[trigger]
            pane_states(slots, remote, panes).contains_key(key) implies exists|j: int|
            0 <= j < panes.len() && key == id_of(
                slots,
                remote,
                (#[trigger] panes[j]).pane_id@,
            ) by {
            if pane_states(slots, remote, front).contains_key(key) {
                let j = choose|j: int|
                    0 <= j < front.len() && key == id_of(
                        slots,
                        remote,
                        (#[trigger] front[j]).pane_id@,
                    );
                assert(panes[j] == front[j]);
            } else {
                assert(panes[panes.len() - 1] == panes.last());
            }
        }
    }
}

/// What the terminal of a pane is shown as: the pane's own directory, titles
/// and revision, its agent under the name it is displayed by, and its state,
/// in which finished work is idle.
pub open spec fn shown_as(p: PaneInfo, t: TerminalStateModel) -> bool {
    &&& t.cwd == if p.cwd is Some {
        p.cwd->Some_0@
    } else {
        "/"@
    }
    &&& t.terminal_title == opt_view(p.terminal_title)
    &&& t.manual_label == opt_view(p.label)
    &&& t.agent_name == if p.display_agent is Some {
        opt_view(p.display_agent)
    } else {
        opt_view(p.agent)
    }
    &&& t.revision == p.revision
    &&& t.state == AgentState::Working <==> p.agent_status == AgentStatus::Working
    &&& t.state == AgentState::Blocked <==> p.agent_status == AgentStatus::Blocked
    &&& t.state == AgentState::Unknown <==> p.agent_status == AgentStatus::Unknown
    &&& t.state == AgentState::Idle <==> (p.agent_status == AgentStatus::Idle || p.agent_status
        == AgentStatus::Done)
}

proof fn scoping_keeps_apart(remote: usize, a: Seq<char>, b: Seq<char>)
    ensures
        scoped(remote, a) == scoped(remote, b) ==> a == b,
{
    if scoped(remote, a) == scoped(remote, b) {
        crate::client_state::compose::scoped_ids_never_collide(remote, a, remote, b);
    }
}

/// Every pane of the list whose terminal is that one is this pane.
pub open spec fn sole_terminal(panes: Seq<PaneInfo>, pane: PaneInfo) -> bool {
    forall|j: int|
        0 <= j < panes.len() && (#[trigger] panes[j]).terminal_id@ == pane.terminal_id@ ==> panes[j]
            == pane
}

proof fn terminals_added(
    m: Map<Seq<char>, TerminalStateModel>,
    remote: usize,
    panes: Seq<PaneInfo>,
    pane: PaneInfo,
)
    requires
        sole_terminal(panes, pane),
    ensures
        ({
            let r = with_terminals(m, remote, panes);
            let key = scoped(remote, pane.terminal_id@);
            if panes.contains(pane) {
                r.contains_key(key) && r[key] == terminal_of(pane)
            } else {
                r.contains_key(key) == m.contains_key(key) && r[key] == m[key]
            }
        }),
    decreases panes.len(),
{
    if panes.len() > 0 {
        let front = panes.drop_last();
        let last = panes.last();
        assert(panes[panes.len() - 1] == last);
        assert(sole_terminal(front, pane)) by {
            assert forall|j: int|
                0 <= j < front.len() && (#[trigger] front[j]).terminal_id@
                    == pane.terminal_id@ implies front[j] == pane by {
                assert(front[j] == panes[j]);
            }
        }
        terminals_added(m, remote, front, pane);
        scoping_keeps_apart(remote, last.terminal_id@, pane.terminal_id@);
        if panes.contains(pane) && last != pane {
            let j = choose|j: int| 0 <= j < panes.len() && panes[j] == pane;
            assert(front[j] == pane);
        }
        if front.contains(pane) {
            let j = choose|j: int| 0 <= j < front.len() && front[j] == pane;
            assert(panes[j] == pane);
        }
    }
}

proof fn tab_panes_are_catalog_panes(c: CatalogModel, tabs: Seq<TabInfo>, n: int)
    requires
        0 <= n <= tabs.len(),
    ensures
        forall|p: PaneInfo| #[trigger]
            panes_of_tabs(c, tabs, n).contains(p) <==> c.panes.contains(p) && exists|k: int|
                0 <= k < n && (#[trigger] tabs[k]).tab_id@ == p.tab_id@,
    decreases n,
{
    if n > 0 {
        tab_panes_are_catalog_panes(c, tabs, n - 1);
        let own = c.panes.filter(on_tab(tabs[n - 1].tab_id@));
        filter_props(c.panes, on_tab(tabs[n - 1].tab_id@));
        let before = panes_of_tabs(c, tabs, n - 1);
        let all = panes_of_tabs(c, tabs, n);
        assert forall|p: PaneInfo| #[trigger] all.contains(p) <==> c.panes.contains(p) && exists|
            k: int,
        |
            0 <= k < n && (#[trigger] tabs[k]).tab_id@ == p.tab_id@ by {
            if all.contains(p) {
                let i = choose|i: int| 0 <= i < all.len() && all[i] == p;
                if i < before.len() {
                    assert(before[i] == p);
                    assert(before.contains(p));
                } else {
                    assert(own[i - before.len()] == p);
                    assert(c.panes.contains(own[i - before.len()]));
                    assert(on_tab(tabs[n - 1].tab_id@)(own[i - before.len()]));
                }
            }
            if c.panes.contains(p) && exists|k: int|
                0 <= k < n && (#[trigger] tabs[k]).tab_id@ == p.tab_id@ {
                let k = choose|k: int| 0 <= k < n && (#[trigger] tabs[k]).tab_id@ == p.tab_id@;
                if k == n - 1 {
                    assert(on_tab(tabs[n - 1].tab_id@)(p));
                    assert(own.contains(p));
                    let i = choose|i: int| 0 <= i < own.len() && own[i] == p;
                    assert(all[before.len() + i] == p);
                } else {
                    assert(before.contains(p));
                    let i = choose|i: int| 0 <= i < before.len() && before[i] == p;
                    assert(all[i] == p);
                }
            }
        }
    }
}

/// Whether the pane stands on a tab of one of the first `n` workspaces.
pub open spec fn stands_in(c: CatalogModel, n: int, pane: PaneInfo) -> bool {
    exists|w: int, t: int|
        0 <= w < n && 0 <= t < c.tabs.len() && (#[trigger] c.tabs[t]).workspace_id@ == (
        #[trigger] c.workspaces[w]).workspace_id@ && c.tabs[t].tab_id@ == pane.tab_id@
}

proof fn catalog_terminals_upto(
    m: Map<Seq<char>, TerminalStateModel>,
    remote: usize,
    c: CatalogModel,
    n: int,
    pane: PaneInfo,
)
    requires
        0 <= n <= c.workspaces.len(),
        c.panes.contains(pane),
        sole_terminal(c.panes, pane),
    ensures
        ({
            let r = catalog_terminals(m, remote, c, n);
            let key = scoped(remote, pane.terminal_id@);
            if stands_in(c, n, pane) {
                r.contains_key(key) && r[key] == terminal_of(pane)
            } else {
                r.contains_key(key) == m.contains_key(key) && r[key] == m[key]
            }
        }),
    decreases n,
{
    if n > 0 {
        catalog_terminals_upto(m, remote, c, n - 1, pane);
        let w = c.workspaces[n - 1];
        let tabs = tabs_of(c, w);
        let panes = panes_of_tabs(c, tabs, tabs.len() as int);
        tab_panes_are_catalog_panes(c, tabs, tabs.len() as int);
        assert(sole_terminal(panes, pane)) by {
            assert forall|j: int|
                0 <= j < panes.len() && (#[trigger] panes[j]).terminal_id@
                    == pane.terminal_id@ implies panes[j] == pane by {
                assert(panes.contains(panes[j]));
                let k = choose|k: int| 0 <= k < c.panes.len() && c.panes[k] == panes[j];
                assert(c.panes[k].terminal_id@ == pane.terminal_id@);
            }
        }
        terminals_added(catalog_terminals(m, remote, c, n - 1), remote, panes, pane);
        filter_props(c.tabs, tab_within(w.workspace_id@));
        if panes.contains(pane) {
            let k = choose|k: int|
                0 <= k < tabs.len() && (#[trigger] tabs[k]).tab_id@ == pane.tab_id@;
            assert(c.tabs.contains(tabs[k]));
            assert(tab_within(w.workspace_id@)(tabs[k]));
            let t = choose|t: int| 0 <= t < c.tabs.len() && c.tabs[t] == tabs[k];
            assert(c.tabs[t].workspace_id@ == c.workspaces[n - 1].workspace_id@);
            assert(stands_in(c, n, pane));
        } else {
            if stands_in(c, n, pane) && !stands_in(c, n - 1, pane) {
                let (v, t) = choose|v: int, t: int|
                    0 <= v < n && 0 <= t < c.tabs.len() && (
                    #[trigger] c.tabs[t]).workspace_id@ == (
                    #[trigger] c.workspaces[v]).workspace_id@ && c.tabs[t].tab_id@
                        == pane.tab_id@;
                assert(v == n - 1);
                assert(c.tabs.contains(c.tabs[t]));
                assert(tab_within(w.workspace_id@)(c.tabs[t]));
                assert(tabs.contains(c.tabs[t]));
                let k = choose|k: int| 0 <= k < tabs.len() && tabs[k] == c.tabs[t];
                assert(tabs[k].tab_id@ == pane.tab_id@);
                assert(panes.contains(pane));
            }
            if stands_in(c, n - 1, pane) {
                let (v, t) = choose|v: int, t: int|
                    0 <= v < n - 1 && 0 <= t < c.tabs.len() && (
                    #[trigger] c.tabs[t]).workspace_id@ == (
                    #[trigger] c.workspaces[v]).workspace_id@ && c.tabs[t].tab_id@
                        == pane.tab_id@;
                assert(stands_in(c, n, pane));
            }
        }
    }
}

/// Every pane on a tab of a workspace has its terminal in the view, under its
/// remote's name for it, shown as the catalog has it.
pub proof fn terminals_show_their_panes(
    slots: Seq<PaneSlot>,
    remote: usize,
    c: CatalogModel,
    context: Seq<char>,
    pane: PaneInfo,
)
    requires
        c.panes.contains(pane),
        sole_terminal(c.panes, pane),
        stands_in(c, c.workspaces.len() as int, pane),
    ensures
        ({
            let m = mirror_composition(slots, remote, c, context).terminals;
            let key = scoped(remote, pane.terminal_id@);
            m.contains_key(key) && shown_as(pane, m[key])
        }),
{
    catalog_terminals_upto(Map::empty(), remote, c, c.workspaces.len() as int, pane);
}

/// The head's ids are shown raw; every other remote's carry its number.
pub proof fn ids_carry_their_remote(remote: usize, id: Seq<char>)
    ensures
        scoped(0, id) == id,
        remote > 0 ==> scoped(remote, id).len() > id.len() && scoped(remote, id).skip(
            scoped(remote, id).len() - id.len(),
        ) == id && scoped(remote, id)[0] == 'r' && scoped(remote, id)[scoped(remote, id).len()
            - id.len() - 1] == ':' && scoped(remote, id).subrange(
            1,
            scoped(remote, id).len() - id.len() - 1,
        ) == crate::text::decimal(remote as nat),
{
    reveal_strlit("r");
    reveal_strlit(":");
    if remote > 0 {
        let d = crate::text::decimal(remote as nat);
        let s = scoped(remote, id);
        assert(s =~= seq!['r'] + d + seq![':'] + id);
        assert(s.skip(s.len() - id.len()) =~= id);
        assert(s.subrange(1, s.len() - id.len() - 1) =~= d);
    }
}

/// Whether a workspace is shown: one of its tabs has a pane.
pub proof fn workspaces_with_panes_are_shown(c: CatalogModel, w: WorkspaceInfo)
    ensures
        is_composed(c, w) <==> tab_bar(c, w.workspace_id@).len() > 0,
{
    let tabs = tabs_of(c, w);
    tab_bar_is_shown(c, w.workspace_id@);
    crate::client_state::intent::filter_twice(c, w.workspace_id@, c.tabs);
    active_tab_upto(c, w, tabs, tabs.len() as int, 0);
    assert(tabs.take(tabs.len() as int) =~= tabs);
}

/// The workspaces of one remote are shown in catalog order, those without a
/// pane left out.
pub proof fn workspaces_are_shown_in_order(
    slots: Seq<PaneSlot>,
    remote: usize,
    c: CatalogModel,
    n: int,
)
    requires
        0 <= n <= c.workspaces.len(),
    ensures
        ({
            let shown = c.workspaces.take(n).filter(
                |w: WorkspaceInfo| tab_bar(c, w.workspace_id@).len() > 0,
            );
            let spaces = workspace_models(slots, remote, c, n);
            let publics = composed_publics(c, n);
            &&& spaces.len() == shown.len()
            &&& publics.len() == shown.len()
            &&& forall|i: int|
                0 <= i < shown.len() ==> #[trigger] spaces[i] == workspace_model(
                    slots,
                    remote,
                    c,
                    shown[i],
                )
            &&& forall|i: int|
                0 <= i < shown.len() ==> #[trigger] publics[i] == shown[i].workspace_id@
        }),
    decreases n,
{
    reveal(Seq::filter);
    let keep = |w: WorkspaceInfo| tab_bar(c, w.workspace_id@).len() > 0;
    if n > 0 {
        workspaces_are_shown_in_order(slots, remote, c, n - 1);
        let w = c.workspaces[n - 1];
        workspaces_with_panes_are_shown(c, w);
        assert(c.workspaces.take(n) =~= c.workspaces.take(n - 1).push(w));
        c.workspaces.take(n - 1).lemma_filter_push(w, keep);
    }
}

/// The remotes in view are shown one after the other, each as it is shown
/// alone, with its index and its own name and hue beside every workspace.
pub proof fn fleets_show_remote_after_remote(
    slots: Seq<PaneSlot>,
    mirrors: Map<usize, MirrorModel>,
    view: Seq<RemoteDescriptor>,
    d: RemoteDescriptor,
    i: int,
)
    ensures
        ({
            let all = view.push(d);
            let c = mirrors[d.index].catalog;
            let n = c.workspaces.len() as int;
            let added = workspace_models(slots, d.index, c, n);
            let spaces = fleet_workspaces(slots, mirrors, all);
            let owners = fleet_owners(mirrors, all);
            let tags = fleet_tags(mirrors, all);
            let before = fleet_workspaces(slots, mirrors, view).len();
            if mirrors.contains_key(d.index) {
                &&& spaces == fleet_workspaces(slots, mirrors, view) + added
                &&& before <= i < spaces.len() && before == fleet_owners(mirrors, view).len()
                    && before == fleet_tags(mirrors, view).len() && composed_publics(c, n).len()
                    == added.len() ==> owners[i].0 == d.index && owners[i].1 == composed_publics(
                    c,
                    n,
                )[i - before] && tags[i].name == d.name && tags[i].hue_index == d.hue_index
            } else {
                spaces == fleet_workspaces(slots, mirrors, view) && owners == fleet_owners(
                    mirrors,
                    view,
                ) && tags == fleet_tags(mirrors, view)
            }
        }),
        fleet_workspaces(slots, mirrors, Seq::empty()).len() == 0,
        fleet_owners(mirrors, Seq::empty()).len() == 0,
        fleet_tags(mirrors, Seq::empty()).len() == 0,
{
    assert(view.push(d).drop_last() =~= view);
}

/// The active workspace of a view is the one that the focused remote focuses,
/// where it is shown; otherwise the first, where there is one.
pub proof fn the_focused_workspace_is_active(
    spaces: Seq<crate::client_state::app_state::WorkspaceModel>,
    focused: Option<Seq<char>>,
    at: int,
)
    requires
        spaces.len() <= usize::MAX,
    ensures
        spaces.len() == 0 ==> active_of(spaces, focused) is None,
        spaces.len() > 0 ==> (active_of(spaces, focused) matches Some(i) && i < spaces.len()),
        spaces.len() > 0 && focused is None ==> active_of(spaces, focused) == Some(0usize),
        0 <= at < spaces.len() && focused == Some(spaces[at].id) ==> (active_of(
            spaces,
            focused,
        ) matches Some(i) && spaces[i as int].id == spaces[at].id),
        spaces.len() > 0 && (focused matches Some(id) && forall|j: int|
            0 <= j < spaces.len() ==> (#[trigger] spaces[j]).id != id) ==> active_of(
            spaces,
            focused,
        ) == Some(0usize),
{
    if let Some(id) = focused {
        let p = workspace_with_id(id);
        first_index_props(spaces, p);
        if 0 <= at < spaces.len() && id == spaces[at].id {
            assert(p(spaces[at]));
        }
        if forall|j: int| 0 <= j < spaces.len() ==> (#[trigger] spaces[j]).id != id {
            first_index_is(spaces, p, spaces.len() as int);
        }
    }
}

/// The focus of a fleet's view is its focused remote's own focused workspace,
/// under that remote's name for it, where that is shown.
pub proof fn the_focused_remote_decides(
    slots: Seq<PaneSlot>,
    mirrors: Map<usize, MirrorModel>,
    descriptors: Seq<RemoteDescriptor>,
    selection: SelectionModel,
    i: int,
    k: int,
)
    requires
        0 <= i < selection.in_view(descriptors).len(),
        ({
            let d = selection.in_view(descriptors)[i];
            let c = mirrors[d.index].catalog;
            &&& d.index == selection.effective_focus(descriptors)
            &&& mirrors.contains_key(d.index)
            &&& 0 <= k < c.workspaces.len()
            &&& c.focused_workspace_id == Some(c.workspaces[k].workspace_id@)
            &&& tab_bar(c, c.workspaces[k].workspace_id@).len() > 0
        }),
    ensures
        ({
            let remote = selection.effective_focus(descriptors);
            let c = mirrors[remote].catalog;
            fleet_composition(slots, mirrors, descriptors, selection).focused == Some(
                scoped(remote, c.workspaces[k].workspace_id@),
            )
        }),
{
    let view = selection.in_view(descriptors);
    let remote = selection.effective_focus(descriptors);
    let c = mirrors[remote].catalog;
    focus_found(mirrors, view, remote, i);
    shown_workspaces_are_listed(c, c.workspaces.len() as int, k);
}

proof fn shown_workspaces_are_listed(c: CatalogModel, n: int, k: int)
    requires
        0 <= k < n <= c.workspaces.len(),
        tab_bar(c, c.workspaces[k].workspace_id@).len() > 0,
    ensures
        composed_publics(c, n).contains(c.workspaces[k].workspace_id@),
    decreases n,
{
    workspaces_with_panes_are_shown(c, c.workspaces[k]);
    let before = composed_publics(c, n - 1);
    let all = composed_publics(c, n);
    if k == n - 1 {
        assert(all[before.len() as int] == c.workspaces[k].workspace_id@);
    } else {
        shown_workspaces_are_listed(c, n - 1, k);
        let i = choose|i: int| 0 <= i < before.len() && before[i] == c.workspaces[k].workspace_id@;
        assert(all[i] == before[i]);
    }
}

proof fn focus_found(
    mirrors: Map<usize, MirrorModel>,
    view: Seq<RemoteDescriptor>,
    remote: usize,
    i: int,
)
    requires
        0 <= i < view.len(),
        view[i].index == remote,
        mirrors.contains_key(remote),
    ensures
        fleet_focus(mirrors, view, remote) == focused_workspace(remote, mirrors[remote].catalog),
    decreases view.len(),
{
    if view.last().index != remote {
        assert(view.drop_last()[i] == view[i]);
        focus_found(mirrors, view.drop_last(), remote, i);
    }
}

/// What composing leaves alone, and where the rest comes from: the mode, the
/// bindings and every request of the user stay, scrolling and the sidebar are
/// the chrome's, the connection's status is the toast.
pub proof fn composing_keeps_the_users_state(
    was: AppState,
    now: AppState,
    c: Composition,
    chrome: GlobalChrome,
)
    requires
        shows(was, now, c, chrome),
    ensures
        now.mode == was.mode,
        now.keybinds == was.keybinds,
        now.prefix_key == was.prefix_key,
        now.should_quit == was.should_quit,
        now.context_menu_open == was.context_menu_open,
        now.request_add_remote == was.request_add_remote,
        now.request_manage_remotes == was.request_manage_remotes,
        now.copy_mode_pane == was.copy_mode_pane,
        now.selection_visible == was.selection_visible,
        now.pane_areas == was.pane_areas,
        now.sidebar_collapsed == chrome.sidebar_collapsed,
        now.workspace_scroll == chrome.workspace_scroll,
        now.agent_panel_scroll == chrome.agent_panel_scroll,
        now.tab_scroll == chrome.tab_scroll,
        now.active matches Some(i) ==> now.selected == i,
        now.workspaces@.len() == c.workspaces.len(),
        chrome.connection_status is None <==> now.toast is None,
        chrome.connection_status matches Some(s) ==> (now.toast matches Some(t) && t.title@ == s@
            && t.context@ == c.context),
{
}

/// A toast of a single remote's view names that remote, one of a fleet's view
/// the remotes.
pub proof fn toasts_name_their_origin(
    slots: Seq<PaneSlot>,
    mirrors: Map<usize, MirrorModel>,
    descriptors: Seq<RemoteDescriptor>,
    selection: SelectionModel,
    remote: usize,
    c: CatalogModel,
    name: Seq<char>,
)
    ensures
        mirror_composition(slots, remote, c, name).context == name,
        fleet_composition(slots, mirrors, descriptors, selection).context == "remotes"@,
{
}

/// Whatever is in view before it, a remote's terminals are shown as its catalog
/// has them.
pub proof fn fleets_show_every_terminal(
    mirrors: Map<usize, MirrorModel>,
    view: Seq<RemoteDescriptor>,
    d: RemoteDescriptor,
    pane: PaneInfo,
)
    requires
        mirrors.contains_key(d.index),
        mirrors[d.index].catalog.panes.contains(pane),
        sole_terminal(mirrors[d.index].catalog.panes, pane),
        stands_in(
            mirrors[d.index].catalog,
            mirrors[d.index].catalog.workspaces.len() as int,
            pane,
        ),
    ensures
        ({
            let m = fleet_terminals(mirrors, view.push(d));
            let key = scoped(d.index, pane.terminal_id@);
            m.contains_key(key) && shown_as(pane, m[key])
        }),
{
    assert(view.push(d).drop_last() =~= view);
    let c = mirrors[d.index].catalog;
    catalog_terminals_upto(
        fleet_terminals(mirrors, view),
        d.index,
        c,
        c.workspaces.len() as int,
        pane,
    );
}

/// Workspaces are labelled with their remote once two remotes are in view, one
/// label for each, and not before.
pub proof fn labels_tell_remotes_apart(
    slots: Seq<PaneSlot>,
    mirrors: Map<usize, MirrorModel>,
    descriptors: Seq<RemoteDescriptor>,
    selection: SelectionModel,
)
    ensures
        ({
            let view = selection.in_view(descriptors);
            let tags = shown_tags(mirrors, view);
            &&& view.len() <= 1 ==> tags.len() == 0
            &&& view.len() > 1 ==> tags.len() == fleet_composition(
                slots,
                mirrors,
                descriptors,
                selection,
            ).workspaces.len()
        }),
{
    crate::client_state::compose_laws::owners_stand_beside_their_workspaces(
        slots,
        mirrors,
        descriptors,
        selection,
    );
}

/// A workspace badges every pane of its tabs whose id ends in a number with
/// that number.
pub proof fn workspaces_badge_their_panes(
    slots: Seq<PaneSlot>,
    remote: usize,
    c: CatalogModel,
    w: WorkspaceInfo,
    t: int,
    pane: PaneInfo,
    head: Seq<char>,
    n: nat,
)
    requires
        n <= usize::MAX,
        pane.pane_id@ == head.push('_') + crate::text::decimal(n),
        c.panes.contains(pane),
        0 <= t < c.tabs.len(),
        c.tabs[t].workspace_id@ == w.workspace_id@,
        c.tabs[t].tab_id@ == pane.tab_id@,
        forall|j: int|
            0 <= j < c.panes.len() && id_of(slots, remote, (#[trigger] c.panes[j]).pane_id@)
                == id_of(slots, remote, pane.pane_id@) ==> c.panes[j] == pane,
    ensures
        ({
            let m = workspace_model(slots, remote, c, w);
            let id = id_of(slots, remote, pane.pane_id@);
            m.pane_numbers.contains_key(id) && m.pane_numbers[id] == n
        }),
{
    let tabs = tabs_of(c, w);
    let panes = panes_of_tabs(c, tabs, tabs.len() as int);
    tab_panes_are_catalog_panes(c, tabs, tabs.len() as int);
    filter_props(c.tabs, tab_within(w.workspace_id@));
    assert(c.tabs.contains(c.tabs[t]));
    assert(tab_within(w.workspace_id@)(c.tabs[t]));
    assert(tabs.contains(c.tabs[t]));
    let k = choose|k: int| 0 <= k < tabs.len() && tabs[k] == c.tabs[t];
    assert(tabs[k].tab_id@ == pane.tab_id@);
    assert(panes.contains(pane));
    assert forall|j: int|
        0 <= j < panes.len() && id_of(slots, remote, (#[trigger] panes[j]).pane_id@) == id_of(
            slots,
            remote,
            pane.pane_id@,
        ) implies panes[j] == pane by {
        assert(panes.contains(panes[j]));
        let i = choose|i: int| 0 <= i < c.panes.len() && c.panes[i] == panes[j];
        assert(c.panes[i].pane_id@ == panes[j].pane_id@);
    }
    crate::client_state::state_laws::badges_are_the_panes_numbers(
        slots,
        remote,
        panes,
        pane,
        head,
        n,
    );
}

} // verus!
