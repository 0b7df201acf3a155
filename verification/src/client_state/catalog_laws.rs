//! What holds of every catalog, whatever events it has seen.
use crate::api::schema::{EventData, PaneInfo, SessionSnapshot, TabInfo, WorkspaceInfo};
use crate::client_state::catalog::{
    layout_outside, pane_named, pane_not, pane_off_tab, pane_outside, tab_named, tab_not,
    tab_outside, workspace_named, workspace_not, CatalogModel,
};
use crate::seqs::{any, filter_props, first_index_props, put};
use crate::text::opt_view;
use vstd::prelude::*;

verus! {

/// No two items have the same key.
pub open spec fn distinct<T>(s: Seq<T>, key: spec_fn(T) -> Seq<char>) -> bool {
    forall|i: int, j: int| 0 <= i < j < s.len() ==> key(#[trigger] s[i]) != key(#[trigger] s[j])
}

pub open spec fn workspace_key() -> spec_fn(WorkspaceInfo) -> Seq<char> {
    |w: WorkspaceInfo| w.workspace_id@
}

pub open spec fn tab_key() -> spec_fn(TabInfo) -> Seq<char> {
    |t: TabInfo| t.tab_id@
}

pub open spec fn pane_key() -> spec_fn(PaneInfo) -> Seq<char> {
    |p: PaneInfo| p.pane_id@
}

/// The tab `tab` of workspace `workspace`.
pub open spec fn tab_in(tab: Seq<char>, workspace: Seq<char>) -> spec_fn(TabInfo) -> bool {
    |t: TabInfo| t.tab_id@ == tab && t.workspace_id@ == workspace
}

impl CatalogModel {
    /// Ids are unique, every tab stands in a workspace, every pane in a tab
    /// of its own workspace, and focus names what exists.
    pub open spec fn sound(self) -> bool {
        &&& distinct(self.workspaces, workspace_key())
        &&& distinct(self.tabs, tab_key())
        &&& distinct(self.panes, pane_key())
        &&& forall|i: int|
            0 <= i < self.tabs.len() ==> self.has_workspace((#[trigger] self.tabs[i]).workspace_id@)
        &&& forall|i: int|
            0 <= i < self.panes.len() ==> any(
                self.tabs,
                tab_in((#[trigger] self.panes[i]).tab_id@, self.panes[i].workspace_id@),
            )
        &&& match self.focused_workspace_id {
            Some(id) => self.has_workspace(id),
            None => true,
        }
        &&& match self.focused_tab_id {
            Some(id) => self.has_tab(id),
            None => true,
        }
        &&& match self.focused_pane_id {
            Some(id) => self.has_pane(id),
            None => true,
        }
    }

    /// The event speaks of things that exist where it needs them to.
    pub open spec fn admits(self, data: EventData) -> bool {
        match data {
            EventData::WorkspaceMoved { workspaces } => {
                &&& distinct(workspaces@, workspace_key())
                &&& forall|id: Seq<char>| #[trigger]
                    self.has_workspace(id) ==> any(workspaces@, workspace_named(id))
            },
            EventData::WorkspaceFocused { workspace_id } => self.has_workspace(workspace_id@),
            EventData::TabCreated { tab } => self.admits_tab(tab),
            EventData::TabMoved { workspace_id, tabs } => {
                &&& self.has_workspace(workspace_id@)
                &&& distinct(tabs@, tab_key())
                &&& forall|i: int|
                    0 <= i < tabs@.len() ==> (#[trigger] tabs@[i]).workspace_id@ == workspace_id@
                &&& forall|i: int, j: int|
                    0 <= i < self.tabs.len() && 0 <= j < tabs@.len() && (
                    #[trigger] self.tabs[i]).workspace_id@ != workspace_id@
                        ==> self.tabs[i].tab_id@ != (#[trigger] tabs@[j]).tab_id@
                &&& forall|i: int|
                    0 <= i < self.tabs.len() && (#[trigger] self.tabs[i]).workspace_id@
                        == workspace_id@ ==> any(tabs@, tab_named(self.tabs[i].tab_id@))
            },
            EventData::TabFocused { tab_id, workspace_id } => self.has_tab(tab_id@),
            EventData::PaneCreated { pane } => self.admits_pane(pane),
            EventData::PaneUpdated { pane } => self.admits_pane(pane),
            EventData::PaneFocused { pane_id, workspace_id } => self.has_pane(pane_id@),
            EventData::PaneMoved {
                previous_pane_id,
                pane,
                created_workspace,
                created_tab,
                closed_workspace_id,
                closed_tab_id,
            } => {
                let a = self.without_pane(previous_pane_id@);
                let b = match created_workspace {
                    Some(w) => a.put_workspace(w),
                    None => a,
                };
                let c = match created_tab {
                    Some(t) => b.put_tab(t),
                    None => b,
                };
                &&& created_tab matches Some(t) ==> b.admits_tab(t)
                &&& c.admits_pane(pane)
            },
            _ => true,
        }
    }

    /// The tab's workspace exists, and the tab has not changed workspaces.
    pub open spec fn admits_tab(self, tab: TabInfo) -> bool {
        &&& self.has_workspace(tab.workspace_id@)
        &&& forall|i: int|
            0 <= i < self.tabs.len() && (#[trigger] self.tabs[i]).tab_id@ == tab.tab_id@
                ==> self.tabs[i].workspace_id@ == tab.workspace_id@
    }

    /// The pane's tab exists, in the pane's workspace.
    pub open spec fn admits_pane(self, pane: PaneInfo) -> bool {
        any(self.tabs, tab_in(pane.tab_id@, pane.workspace_id@))
    }
}

pub proof fn distinct_filter<T>(s: Seq<T>, key: spec_fn(T) -> Seq<char>, p: spec_fn(T) -> bool)
    requires
        distinct(s, key),
    ensures
        distinct(s.filter(p), key),
    decreases s.len(),
{
    reveal(Seq::filter);
    if s.len() > 0 {
        let front = s.drop_last();
        assert(distinct(front, key)) by {
            assert forall|i: int, j: int| 0 <= i < j < front.len() implies key(
                #[trigger] front[i],
            ) != key(#[trigger] front[j]) by {
                assert(front[i] == s[i] && front[j] == s[j]);
            }
        }
        distinct_filter(front, key, p);
        if p(s.last()) {
            let kept = front.filter(p);
            filter_props(front, p);
            assert forall|i: int| 0 <= i < kept.len() implies key(#[trigger] kept[i]) != key(
                s.last(),
            ) by {
                assert(front.contains(kept[i]));
                let j = choose|j: int| 0 <= j < front.len() && front[j] == kept[i];
                assert(s[j] == kept[i]);
                assert(s[s.len() - 1] == s.last());
            }
            assert(s.filter(p) =~= kept.push(s.last()));
        }
    }
}

proof fn distinct_put<T>(
    s: Seq<T>,
    key: spec_fn(T) -> Seq<char>,
    p: spec_fn(T) -> bool,
    x: T,
)
    requires
        distinct(s, key),
        forall|t: T| #[trigger] p(t) == (key(t) == key(x)),
    ensures
        distinct(put(s, p, x), key),
{
    first_index_props(s, p);
    let r = put(s, p, x);
    assert forall|i: int, j: int| 0 <= i < j < r.len() implies key(#[trigger] r[i]) != key(
        #[trigger] r[j],
    ) by {
        let at = crate::seqs::first_index(s, p);
        if at < s.len() {
            assert(p(s[at]));
            if i == at {
                assert(r[j] == s[j]);
                assert(key(s[at]) != key(s[j]));
            } else if j == at {
                assert(r[i] == s[i]);
                assert(key(s[i]) != key(s[at]));
            } else {
                assert(r[i] == s[i] && r[j] == s[j]);
            }
        } else {
            assert(r[i] == s[i]);
            assert(!p(s[i]));
            if j < s.len() {
                assert(r[j] == s[j]);
            }
        }
    }
}

/// Anything present stays present after a `put` that keeps what `q` asks.
proof fn any_put<T>(s: Seq<T>, p: spec_fn(T) -> bool, x: T, q: spec_fn(T) -> bool)
    requires
        any(s, q),
        forall|t: T| #[trigger] s.contains(t) && p(t) && q(t) ==> q(x),
    ensures
        any(put(s, p, x), q),
{
    first_index_props(s, p);
    let i = choose|i: int| 0 <= i < s.len() && q(#[trigger] s[i]);
    let at = crate::seqs::first_index(s, p);
    let r = put(s, p, x);
    if i == at {
        assert(s.contains(s[i]));
        assert(q(r[i]));
    } else {
        assert(r[i] == s[i]);
        assert(q(r[i]));
    }
}

proof fn any_filter<T>(s: Seq<T>, p: spec_fn(T) -> bool, q: spec_fn(T) -> bool)
    requires
        any(s, q),
        forall|t: T| #[trigger] q(t) ==> p(t),
    ensures
        any(s.filter(p), q),
{
    filter_props(s, p);
    let i = choose|i: int| 0 <= i < s.len() && q(#[trigger] s[i]);
    assert(s.contains(s[i]));
    assert(s.filter(p).contains(s[i]));
    let j = choose|j: int| 0 <= j < s.filter(p).len() && s.filter(p)[j] == s[i];
    assert(q(s.filter(p)[j]));
}

/// A map or a one-item change that keeps what `q` asks keeps presence.
proof fn any_pointwise<T>(s: Seq<T>, r: Seq<T>, q: spec_fn(T) -> bool)
    requires
        any(s, q),
        r.len() == s.len(),
        forall|i: int| 0 <= i < s.len() ==> q(#[trigger] s[i]) == q(r[i]),
    ensures
        any(r, q),
{
    let i = choose|i: int| 0 <= i < s.len() && q(#[trigger] s[i]);
    assert(q(r[i]));
}

proof fn distinct_pointwise<T>(s: Seq<T>, r: Seq<T>, key: spec_fn(T) -> Seq<char>)
    requires
        distinct(s, key),
        r.len() == s.len(),
        forall|i: int| 0 <= i < s.len() ==> key(#[trigger] s[i]) == key(r[i]),
    ensures
        distinct(r, key),
{
    assert forall|i: int, j: int| 0 <= i < j < r.len() implies key(#[trigger] r[i]) != key(
        #[trigger] r[j],
    ) by {
        assert(key(s[i]) != key(s[j]));
    }
}

proof fn put_workspace_sound(c: CatalogModel, w: WorkspaceInfo)
    requires
        c.sound(),
    ensures
        c.put_workspace(w).sound(),
{
    let p = workspace_named(w.workspace_id@);
    let r = c.put_workspace(w);
    distinct_put(c.workspaces, workspace_key(), p, w);
    assert forall|id: Seq<char>| #[trigger] c.has_workspace(id) implies r.has_workspace(id) by {
        any_put(c.workspaces, p, w, workspace_named(id));
    }
    assert forall|i: int| 0 <= i < r.tabs.len() implies r.has_workspace(
        (#[trigger] r.tabs[i]).workspace_id@,
    ) by {
        assert(c.has_workspace(c.tabs[i].workspace_id@));
    }
}

proof fn put_tab_sound(c: CatalogModel, t: TabInfo)
    requires
        c.sound(),
        c.admits_tab(t),
    ensures
        c.put_tab(t).sound(),
{
    let p = tab_named(t.tab_id@);
    let r = c.put_tab(t);
    distinct_put(c.tabs, tab_key(), p, t);
    first_index_props(c.tabs, p);
    assert forall|id: Seq<char>| #[trigger] c.has_tab(id) implies r.has_tab(id) by {
        any_put(c.tabs, p, t, tab_named(id));
    }
    assert forall|i: int| 0 <= i < r.tabs.len() implies r.has_workspace(
        (#[trigger] r.tabs[i]).workspace_id@,
    ) by {
        if r.tabs[i] != t {
            assert(r.tabs[i] == c.tabs[i]);
            assert(c.has_workspace(c.tabs[i].workspace_id@));
        }
        assert(c.has_workspace(r.tabs[i].workspace_id@));
    }
    assert forall|i: int| 0 <= i < r.panes.len() implies any(
        r.tabs,
        tab_in((#[trigger] r.panes[i]).tab_id@, r.panes[i].workspace_id@),
    ) by {
        let q = tab_in(c.panes[i].tab_id@, c.panes[i].workspace_id@);
        assert(any(c.tabs, q));
        assert forall|x: TabInfo| #[trigger] c.tabs.contains(x) && p(x) && q(x) implies q(t) by {
            let k = choose|k: int| 0 <= k < c.tabs.len() && c.tabs[k] == x;
            assert(c.tabs[k].tab_id@ == t.tab_id@);
        }
        any_put(c.tabs, p, t, q);
    }
}

proof fn put_pane_sound(c: CatalogModel, x: PaneInfo)
    requires
        c.sound(),
        c.admits_pane(x),
    ensures
        c.put_pane(x).sound(),
{
    let p = pane_named(x.pane_id@);
    let r = c.put_pane(x);
    distinct_put(c.panes, pane_key(), p, x);
    first_index_props(c.panes, p);
    assert forall|id: Seq<char>| #[trigger] c.has_pane(id) implies r.has_pane(id) by {
        any_put(c.panes, p, x, pane_named(id));
    }
    assert forall|i: int| 0 <= i < r.panes.len() implies any(
        r.tabs,
        tab_in((#[trigger] r.panes[i]).tab_id@, r.panes[i].workspace_id@),
    ) by {
        if r.panes[i] != x {
            assert(r.panes[i] == c.panes[i]);
        }
    }
}

proof fn without_workspace_sound(c: CatalogModel, id: Seq<char>)
    requires
        c.sound(),
    ensures
        c.without_workspace(id).sound(),
{
    let r = c.without_workspace(id);
    distinct_filter(c.workspaces, workspace_key(), workspace_not(id));
    distinct_filter(c.tabs, tab_key(), tab_outside(id));
    distinct_filter(c.panes, pane_key(), pane_outside(id));
    filter_props(c.workspaces, workspace_not(id));
    filter_props(c.tabs, tab_outside(id));
    filter_props(c.panes, pane_outside(id));
    assert forall|other: Seq<char>| #[trigger]
        c.has_workspace(other) && other != id implies r.has_workspace(other) by {
        any_filter(c.workspaces, workspace_not(id), workspace_named(other));
    }
    assert forall|i: int| 0 <= i < r.tabs.len() implies r.has_workspace(
        (#[trigger] r.tabs[i]).workspace_id@,
    ) by {
        assert(tab_outside(id)(r.tabs[i]));
        assert(c.tabs.contains(r.tabs[i]));
        let k = choose|k: int| 0 <= k < c.tabs.len() && c.tabs[k] == r.tabs[i];
        assert(c.has_workspace(c.tabs[k].workspace_id@));
    }
    assert forall|i: int| 0 <= i < r.panes.len() implies any(
        r.tabs,
        tab_in((#[trigger] r.panes[i]).tab_id@, r.panes[i].workspace_id@),
    ) by {
        assert(pane_outside(id)(r.panes[i]));
        assert(c.panes.contains(r.panes[i]));
        let k = choose|k: int| 0 <= k < c.panes.len() && c.panes[k] == r.panes[i];
        any_filter(
            c.tabs,
            tab_outside(id),
            tab_in(c.panes[k].tab_id@, c.panes[k].workspace_id@),
        );
    }
}

proof fn without_tab_sound(c: CatalogModel, id: Seq<char>)
    requires
        c.sound(),
    ensures
        c.without_tab(id).sound(),
{
    let r = c.without_tab(id);
    distinct_filter(c.tabs, tab_key(), tab_not(id));
    distinct_filter(c.panes, pane_key(), pane_off_tab(id));
    filter_props(c.tabs, tab_not(id));
    filter_props(c.panes, pane_off_tab(id));
    assert forall|i: int| 0 <= i < r.tabs.len() implies r.has_workspace(
        (#[trigger] r.tabs[i]).workspace_id@,
    ) by {
        assert(c.tabs.contains(r.tabs[i]));
        let k = choose|k: int| 0 <= k < c.tabs.len() && c.tabs[k] == r.tabs[i];
        assert(c.has_workspace(c.tabs[k].workspace_id@));
    }
    assert forall|i: int| 0 <= i < r.panes.len() implies any(
        r.tabs,
        tab_in((#[trigger] r.panes[i]).tab_id@, r.panes[i].workspace_id@),
    ) by {
        assert(pane_off_tab(id)(r.panes[i]));
        assert(c.panes.contains(r.panes[i]));
        let k = choose|k: int| 0 <= k < c.panes.len() && c.panes[k] == r.panes[i];
        any_filter(c.tabs, tab_not(id), tab_in(c.panes[k].tab_id@, c.panes[k].workspace_id@));
    }
}

proof fn without_pane_sound(c: CatalogModel, id: Seq<char>)
    requires
        c.sound(),
    ensures
        c.without_pane(id).sound(),
{
    let r = c.without_pane(id);
    distinct_filter(c.panes, pane_key(), pane_not(id));
    filter_props(c.panes, pane_not(id));
    assert forall|other: Seq<char>| #[trigger]
        c.has_pane(other) && other != id implies r.has_pane(other) by {
        any_filter(c.panes, pane_not(id), pane_named(other));
    }
    assert forall|i: int| 0 <= i < r.panes.len() implies any(
        r.tabs,
        tab_in((#[trigger] r.panes[i]).tab_id@, r.panes[i].workspace_id@),
    ) by {
        assert(c.panes.contains(r.panes[i]));
        let k = choose|k: int| 0 <= k < c.panes.len() && c.panes[k] == r.panes[i];
        assert(c.panes[k] == r.panes[i]);
    }
}

/// Changing records in place, with their ids and owners, keeps soundness.
proof fn pointwise_sound(c: CatalogModel, r: CatalogModel)
    requires
        c.sound(),
        r.workspaces.len() == c.workspaces.len(),
        forall|i: int|
            0 <= i < c.workspaces.len() ==> (#[trigger] c.workspaces[i]).workspace_id@
                == r.workspaces[i].workspace_id@,
        r.tabs.len() == c.tabs.len(),
        forall|i: int|
            0 <= i < c.tabs.len() ==> (#[trigger] c.tabs[i]).tab_id@ == r.tabs[i].tab_id@
                && c.tabs[i].workspace_id@ == r.tabs[i].workspace_id@,
        r.panes.len() == c.panes.len(),
        forall|i: int|
            0 <= i < c.panes.len() ==> (#[trigger] c.panes[i]).pane_id@ == r.panes[i].pane_id@
                && c.panes[i].tab_id@ == r.panes[i].tab_id@ && c.panes[i].workspace_id@
                == r.panes[i].workspace_id@,
        r.focused_workspace_id matches Some(id) ==> c.has_workspace(id),
        r.focused_tab_id matches Some(id) ==> c.has_tab(id),
        r.focused_pane_id matches Some(id) ==> c.has_pane(id),
    ensures
        r.sound(),
{
    distinct_pointwise(c.workspaces, r.workspaces, workspace_key());
    distinct_pointwise(c.tabs, r.tabs, tab_key());
    distinct_pointwise(c.panes, r.panes, pane_key());
    assert forall|id: Seq<char>| #[trigger] c.has_workspace(id) implies r.has_workspace(id) by {
        any_pointwise(c.workspaces, r.workspaces, workspace_named(id));
    }
    assert forall|id: Seq<char>| #[trigger] c.has_tab(id) implies r.has_tab(id) by {
        any_pointwise(c.tabs, r.tabs, tab_named(id));
    }
    assert forall|id: Seq<char>| #[trigger] c.has_pane(id) implies r.has_pane(id) by {
        any_pointwise(c.panes, r.panes, pane_named(id));
    }
    assert forall|i: int| 0 <= i < r.tabs.len() implies r.has_workspace(
        (#[trigger] r.tabs[i]).workspace_id@,
    ) by {
        assert(c.has_workspace(c.tabs[i].workspace_id@));
    }
    assert forall|i: int| 0 <= i < r.panes.len() implies any(
        r.tabs,
        tab_in((#[trigger] r.panes[i]).tab_id@, r.panes[i].workspace_id@),
    ) by {
        let q = tab_in(c.panes[i].tab_id@, c.panes[i].workspace_id@);
        assert(any(c.tabs, q));
        any_pointwise(c.tabs, r.tabs, q);
    }
}

proof fn workspaces_moved_sound(c: CatalogModel, workspaces: Seq<WorkspaceInfo>)
    requires
        c.sound(),
        distinct(workspaces, workspace_key()),
        forall|id: Seq<char>| #[trigger]
            c.has_workspace(id) ==> any(workspaces, workspace_named(id)),
    ensures
        (CatalogModel { workspaces, ..c }).sound(),
{
    let r = CatalogModel { workspaces, ..c };
    assert forall|i: int| 0 <= i < r.tabs.len() implies r.has_workspace(
        (#[trigger] r.tabs[i]).workspace_id@,
    ) by {
        assert(c.has_workspace(c.tabs[i].workspace_id@));
    }
    assert forall|i: int| 0 <= i < r.panes.len() implies any(
        r.tabs,
        tab_in((#[trigger] r.panes[i]).tab_id@, r.panes[i].workspace_id@),
    ) by {
        assert(c.panes[i] == r.panes[i]);
    }
}

proof fn tabs_moved_sound(c: CatalogModel, workspace: Seq<char>, tabs: Seq<TabInfo>)
    requires
        c.sound(),
        c.has_workspace(workspace),
        distinct(tabs, tab_key()),
        forall|i: int| 0 <= i < tabs.len() ==> (#[trigger] tabs[i]).workspace_id@ == workspace,
        forall|i: int, j: int|
            0 <= i < c.tabs.len() && 0 <= j < tabs.len() && (
            #[trigger] c.tabs[i]).workspace_id@ != workspace ==> c.tabs[i].tab_id@ != (
            #[trigger] tabs[j]).tab_id@,
        forall|i: int|
            0 <= i < c.tabs.len() && (#[trigger] c.tabs[i]).workspace_id@ == workspace ==> any(
                tabs,
                tab_named(c.tabs[i].tab_id@),
            ),
    ensures
        (CatalogModel { tabs: c.tabs.filter(tab_outside(workspace)) + tabs, ..c }).sound(),
{
    let kept = c.tabs.filter(tab_outside(workspace));
    let r = CatalogModel { tabs: kept + tabs, ..c };
    filter_props(c.tabs, tab_outside(workspace));
    distinct_filter(c.tabs, tab_key(), tab_outside(workspace));
    assert forall|i: int| 0 <= i < kept.len() implies exists|k: int|
        0 <= k < c.tabs.len() && c.tabs[k] == #[trigger] kept[i] && c.tabs[k].workspace_id@
            != workspace by {
        assert(c.tabs.contains(kept[i]));
        assert(tab_outside(workspace)(kept[i]));
        let k = choose|k: int| 0 <= k < c.tabs.len() && c.tabs[k] == kept[i];
        assert(c.tabs[k].workspace_id@ != workspace);
    }
    assert forall|i: int, j: int| 0 <= i < j < r.tabs.len() implies tab_key()(
        #[trigger] r.tabs[i],
    ) != tab_key()(#[trigger] r.tabs[j]) by {
        if j < kept.len() {
            assert(r.tabs[i] == kept[i] && r.tabs[j] == kept[j]);
            assert(tab_key()(kept[i]) != tab_key()(kept[j]));
        } else if i >= kept.len() {
            assert(r.tabs[i] == tabs[i - kept.len()] && r.tabs[j] == tabs[j - kept.len()]);
            assert(tab_key()(tabs[i - kept.len()]) != tab_key()(tabs[j - kept.len()]));
        } else {
            assert(r.tabs[i] == kept[i] && r.tabs[j] == tabs[j - kept.len()]);
            let k = choose|k: int|
                0 <= k < c.tabs.len() && c.tabs[k] == kept[i] && c.tabs[k].workspace_id@
                    != workspace;
            assert(c.tabs[k].tab_id@ != tabs[j - kept.len()].tab_id@);
        }
    }
    assert forall|i: int| 0 <= i < r.tabs.len() implies r.has_workspace(
        (#[trigger] r.tabs[i]).workspace_id@,
    ) by {
        if i < kept.len() {
            assert(r.tabs[i] == kept[i]);
            let k = choose|k: int|
                0 <= k < c.tabs.len() && c.tabs[k] == kept[i] && c.tabs[k].workspace_id@
                    != workspace;
            assert(c.has_workspace(c.tabs[k].workspace_id@));
        } else {
            assert(r.tabs[i] == tabs[i - kept.len()]);
        }
    }
    assert forall|k: int| 0 <= k < c.tabs.len() implies any(
        r.tabs,
        tab_in((#[trigger] c.tabs[k]).tab_id@, c.tabs[k].workspace_id@),
    ) by {
        let q = tab_in(c.tabs[k].tab_id@, c.tabs[k].workspace_id@);
        if c.tabs[k].workspace_id@ == workspace {
            assert(any(tabs, tab_named(c.tabs[k].tab_id@)));
            let j = choose|j: int|
                0 <= j < tabs.len() && tab_named(c.tabs[k].tab_id@)(#[trigger] tabs[j]);
            assert(r.tabs[kept.len() + j] == tabs[j]);
            assert(q(r.tabs[kept.len() + j]));
        } else {
            assert(c.tabs.contains(c.tabs[k]));
            assert(kept.contains(c.tabs[k]));
            let j = choose|j: int| 0 <= j < kept.len() && kept[j] == c.tabs[k];
            assert(r.tabs[j] == kept[j]);
            assert(q(r.tabs[j]));
        }
    }
    assert forall|id: Seq<char>| #[trigger] c.has_tab(id) implies r.has_tab(id) by {
        let k = choose|k: int| 0 <= k < c.tabs.len() && tab_named(id)(#[trigger] c.tabs[k]);
        let q = tab_in(c.tabs[k].tab_id@, c.tabs[k].workspace_id@);
        assert(any(r.tabs, q));
        let j = choose|j: int| 0 <= j < r.tabs.len() && q(#[trigger] r.tabs[j]);
        assert(tab_named(id)(r.tabs[j]));
    }
    assert forall|i: int| 0 <= i < r.panes.len() implies any(
        r.tabs,
        tab_in((#[trigger] r.panes[i]).tab_id@, r.panes[i].workspace_id@),
    ) by {
        let q = tab_in(c.panes[i].tab_id@, c.panes[i].workspace_id@);
        assert(any(c.tabs, q));
        let k = choose|k: int| 0 <= k < c.tabs.len() && q(#[trigger] c.tabs[k]);
        assert(any(r.tabs, tab_in(c.tabs[k].tab_id@, c.tabs[k].workspace_id@)));
    }
}

/// A sound catalog stays sound under every event it admits: ids stay unique,
/// nothing dangles, and focus never names what is gone.
pub proof fn events_keep_catalogs_sound(c: CatalogModel, sequence: u64, data: EventData)
    requires
        c.sound(),
        c.admits(data),
    ensures
        c.after(sequence, data).sound(),
{
    if sequence > c.sequence {
        let m = CatalogModel { sequence, ..c };
        pointwise_sound(c, m);
        changed_by_sound(m, c, data);
    }
}

proof fn changed_by_sound(m: CatalogModel, c: CatalogModel, data: EventData)
    requires
        m.sound(),
        m == (CatalogModel { sequence: m.sequence, ..c }),
        c.admits(data),
    ensures
        m.changed_by(data).sound(),
{
    assert forall|id: Seq<char>| #[trigger] m.has_workspace(id) implies c.has_workspace(id) by {}
    match data {
        EventData::WorkspaceCreated { workspace } => put_workspace_sound(m, workspace),
        EventData::WorkspaceUpdated { workspace } => put_workspace_sound(m, workspace),
        EventData::WorkspaceMetadataUpdated { workspace } => put_workspace_sound(m, workspace),
        EventData::WorkspaceClosed { workspace_id } => without_workspace_sound(m, workspace_id@),
        EventData::WorkspaceMoved { workspaces } => workspaces_moved_sound(m, workspaces@),
        EventData::WorktreeCreated { workspace } => put_workspace_sound(m, workspace),
        EventData::WorktreeOpened { workspace } => put_workspace_sound(m, workspace),
        EventData::WorktreeRemoved { workspace_id, workspace } => match workspace {
            Some(w) => put_workspace_sound(m, w),
            None => without_workspace_sound(m, workspace_id@),
        },
        EventData::TabCreated { tab } => put_tab_sound(m, tab),
        EventData::TabClosed { tab_id, workspace_id } => without_tab_sound(m, tab_id@),
        EventData::TabMoved { workspace_id, tabs } => tabs_moved_sound(m, workspace_id@, tabs@),
        EventData::PaneCreated { pane } => put_pane_sound(m, pane),
        EventData::PaneUpdated { pane } => put_pane_sound(m, pane),
        EventData::PaneClosed { pane_id, workspace_id } => without_pane_sound(m, pane_id@),
        EventData::PaneExited { pane_id, workspace_id } => without_pane_sound(m, pane_id@),
        EventData::PaneMoved {
            previous_pane_id,
            pane,
            created_workspace,
            created_tab,
            closed_workspace_id,
            closed_tab_id,
        } => {
            let a = m.without_pane(previous_pane_id@);
            without_pane_sound(m, previous_pane_id@);
            let b = match created_workspace {
                Some(w) => a.put_workspace(w),
                None => a,
            };
            if let Some(w) = created_workspace {
                put_workspace_sound(a, w);
            }
            let t = match created_tab {
                Some(t) => b.put_tab(t),
                None => b,
            };
            if let Some(tab) = created_tab {
                put_tab_sound(b, tab);
            }
            put_pane_sound(t, pane);
            let d = t.put_pane(pane);
            let e = match opt_view(closed_tab_id) {
                Some(id) => d.without_tab(id),
                None => d,
            };
            if let Some(id) = opt_view(closed_tab_id) {
                without_tab_sound(d, id);
            }
            if let Some(id) = opt_view(closed_workspace_id) {
                without_workspace_sound(e, id);
            }
        },
        _ => {
            first_index_all(m);
            pointwise_sound(m, m.changed_by(data));
        },
    }
}

/// Positions that searches by id return lie within their lists.
proof fn first_index_all(m: CatalogModel)
    ensures
        forall|id: Seq<char>|
            0 <= #[trigger] crate::seqs::first_index(m.workspaces, workspace_named(id)),
        forall|id: Seq<char>| 0 <= #[trigger] crate::seqs::first_index(m.tabs, tab_named(id)),
        forall|id: Seq<char>| 0 <= #[trigger] crate::seqs::first_index(m.panes, pane_named(id)),
{
    assert forall|id: Seq<char>|
        0 <= #[trigger] crate::seqs::first_index(m.workspaces, workspace_named(id)) by {
        first_index_props(m.workspaces, workspace_named(id));
    }
    assert forall|id: Seq<char>|
        0 <= #[trigger] crate::seqs::first_index(m.tabs, tab_named(id)) by {
        first_index_props(m.tabs, tab_named(id));
    }
    assert forall|id: Seq<char>|
        0 <= #[trigger] crate::seqs::first_index(m.panes, pane_named(id)) by {
        first_index_props(m.panes, pane_named(id));
    }
}

/// The catalog's sequence never goes back, and an applied event sets it.
pub proof fn sequence_is_monotone(c: CatalogModel, sequence: u64, data: EventData)
    ensures
        c.after(sequence, data).sequence == if sequence > c.sequence {
            sequence
        } else {
            c.sequence
        },
{
}

/// Pane ids that are distinct stay distinct, whatever event comes.
pub proof fn pane_ids_stay_distinct(c: CatalogModel, sequence: u64, data: EventData)
    requires
        distinct(c.panes, pane_key()),
    ensures
        distinct(c.after(sequence, data).panes, pane_key()),
{
    if sequence > c.sequence {
        changed_panes_distinct(CatalogModel { sequence, ..c }, data);
    }
}

proof fn changed_panes_distinct(m: CatalogModel, data: EventData)
    requires
        distinct(m.panes, pane_key()),
    ensures
        distinct(m.changed_by(data).panes, pane_key()),
{
    match data {
        EventData::WorkspaceClosed { workspace_id } => distinct_filter(
            m.panes,
            pane_key(),
            pane_outside(workspace_id@),
        ),
        EventData::WorktreeRemoved { workspace_id, workspace } => distinct_filter(
            m.panes,
            pane_key(),
            pane_outside(workspace_id@),
        ),
        EventData::TabClosed { tab_id, workspace_id } => distinct_filter(
            m.panes,
            pane_key(),
            pane_off_tab(tab_id@),
        ),
        EventData::PaneCreated { pane } | EventData::PaneUpdated { pane } => distinct_put(
            m.panes,
            pane_key(),
            pane_named(pane.pane_id@),
            pane,
        ),
        EventData::PaneClosed { pane_id, workspace_id } | EventData::PaneExited {
            pane_id,
            workspace_id,
        } => distinct_filter(m.panes, pane_key(), pane_not(pane_id@)),
        EventData::PaneMoved {
            previous_pane_id,
            pane,
            created_workspace,
            created_tab,
            closed_workspace_id,
            closed_tab_id,
        } => {
            let rest = m.panes.filter(pane_not(previous_pane_id@));
            let arrived = put(rest, pane_named(pane.pane_id@), pane);
            distinct_filter(m.panes, pane_key(), pane_not(previous_pane_id@));
            distinct_put(rest, pane_key(), pane_named(pane.pane_id@), pane);
            let left = match opt_view(closed_tab_id) {
                Some(id) => arrived.filter(pane_off_tab(id)),
                None => arrived,
            };
            if let Some(id) = opt_view(closed_tab_id) {
                distinct_filter(arrived, pane_key(), pane_off_tab(id));
            }
            if let Some(id) = opt_view(closed_workspace_id) {
                distinct_filter(left, pane_key(), pane_outside(id));
            }
        },
        _ => {
            first_index_all(m);
            distinct_pointwise(m.panes, m.changed_by(data).panes, pane_key());
        },
    }
}

/// Events from before a snapshot's anchor cannot touch what it described, so
/// nothing that closed before the snapshot comes back.
pub proof fn resync_outlives_older_events(
    snapshot: SessionSnapshot,
    anchor: u64,
    sequence: u64,
    data: EventData,
)
    requires
        sequence <= anchor,
    ensures
        CatalogModel::of_snapshot(snapshot, anchor).after(sequence, data)
            == CatalogModel::of_snapshot(snapshot, anchor),
{
}

/// Closing a workspace leaves nothing of it behind, and nothing else goes:
/// its tabs, panes and layouts leave with it, the others stay in order.
pub proof fn closing_a_workspace_takes_all_of_it(c: CatalogModel, id: Seq<char>)
    ensures
        !c.without_workspace(id).has_workspace(id),
        forall|i: int|
            0 <= i < c.without_workspace(id).tabs.len() ==> (
            #[trigger] c.without_workspace(id).tabs[i]).workspace_id@ != id,
        forall|i: int|
            0 <= i < c.without_workspace(id).panes.len() ==> (
            #[trigger] c.without_workspace(id).panes[i]).workspace_id@ != id,
        forall|i: int|
            0 <= i < c.without_workspace(id).layouts.len() ==> (
            #[trigger] c.without_workspace(id).layouts[i]).workspace_id@ != id,
        c.without_workspace(id).focused_workspace_id != Some(id),
        forall|w: WorkspaceInfo| #[trigger]
            c.workspaces.contains(w) && w.workspace_id@ != id ==> c.without_workspace(
                id,
            ).workspaces.contains(w),
        forall|t: TabInfo| #[trigger]
            c.tabs.contains(t) && t.workspace_id@ != id ==> c.without_workspace(id).tabs.contains(
                t,
            ),
        forall|p: PaneInfo| #[trigger]
            c.panes.contains(p) && p.workspace_id@ != id ==> c.without_workspace(
                id,
            ).panes.contains(p),
{
    let r = c.without_workspace(id);
    filter_props(c.workspaces, workspace_not(id));
    filter_props(c.tabs, tab_outside(id));
    filter_props(c.panes, pane_outside(id));
    filter_props(c.layouts, layout_outside(id));
    if r.has_workspace(id) {
        let k = choose|k: int|
            0 <= k < r.workspaces.len() && workspace_named(id)(#[trigger] r.workspaces[k]);
        assert(workspace_not(id)(r.workspaces[k]));
    }
    assert forall|i: int| 0 <= i < r.tabs.len() implies (#[trigger] r.tabs[i]).workspace_id@
        != id by {
        assert(tab_outside(id)(r.tabs[i]));
    }
    assert forall|i: int| 0 <= i < r.panes.len() implies (#[trigger] r.panes[i]).workspace_id@
        != id by {
        assert(pane_outside(id)(r.panes[i]));
    }
    assert forall|i: int| 0 <= i < r.layouts.len() implies (
    #[trigger] r.layouts[i]).workspace_id@ != id by {
        assert(layout_outside(id)(r.layouts[i]));
    }
}

} // verus!
