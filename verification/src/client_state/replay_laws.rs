//! Why an event that is seen again does no harm.
use crate::api::schema::{EventData, PaneInfo, PaneLayoutSnapshot, TabInfo, WorkspaceInfo};
use crate::client_state::catalog::{
    layout_of, layout_off_tab, layout_outside, pane_focus, pane_named, pane_not, pane_off_tab,
    pane_outside, pane_reported, pane_revised, pane_running, tab_focus, tab_labelled, tab_named,
    tab_not, tab_outside, workspace_focus, workspace_labelled, workspace_named, workspace_not,
    workspace_on_tab, CatalogModel,
};
use crate::client_state::catalog_laws::{distinct, distinct_filter, pane_key, tab_key};
use crate::seqs::{alter, any, filter_props, first_index, first_index_is, first_index_props, put};
use crate::text::opt_view;
use vstd::prelude::*;

verus! {

proof fn filter_all<T>(s: Seq<T>, p: spec_fn(T) -> bool)
    requires
        forall|i: int| 0 <= i < s.len() ==> p(#[trigger] s[i]),
    ensures
        s.filter(p) == s,
    decreases s.len(),
{
    reveal(Seq::filter);
    if s.len() > 0 {
        let front = s.drop_last();
        assert forall|i: int| 0 <= i < front.len() implies p(#[trigger] front[i]) by {
            assert(front[i] == s[i]);
        }
        filter_all(front, p);
        assert(p(s[s.len() - 1]));
        assert(s =~= front.push(s.last()));
    }
}

proof fn filter_none<T>(s: Seq<T>, p: spec_fn(T) -> bool)
    requires
        forall|i: int| 0 <= i < s.len() ==> !p(#[trigger] s[i]),
    ensures
        s.filter(p) == Seq::<T>::empty(),
{
    filter_props(s, p);
    if s.filter(p).len() > 0 {
        let x = s.filter(p)[0];
        assert(p(x));
        assert(s.contains(x));
    }
    assert(s.filter(p) =~= Seq::<T>::empty());
}

/// Keeping what was kept changes nothing.
proof fn filter_twice<T>(s: Seq<T>, p: spec_fn(T) -> bool)
    ensures
        s.filter(p).filter(p) == s.filter(p),
{
    filter_props(s, p);
    filter_all(s.filter(p), p);
}

/// Keeping by one test and then by another is keeping by both.
proof fn filter_both<T>(s: Seq<T>, p: spec_fn(T) -> bool, q: spec_fn(T) -> bool)
    ensures
        s.filter(p).filter(q) == s.filter(|x: T| p(x) && q(x)),
    decreases s.len(),
{
    reveal(Seq::filter);
    if s.len() > 0 {
        filter_both(s.drop_last(), p, q);
        if p(s.last()) {
            let front = s.drop_last().filter(p);
            assert(s.filter(p) =~= front.push(s.last()));
            assert(front.push(s.last()).drop_last() =~= front);
        }
    }
}

/// Putting the same item again changes nothing.
proof fn put_twice<T>(s: Seq<T>, p: spec_fn(T) -> bool, x: T)
    requires
        p(x),
    ensures
        put(put(s, p, x), p, x) == put(s, p, x),
{
    first_index_props(s, p);
    let i = first_index(s, p);
    let r = put(s, p, x);
    assert forall|j: int| 0 <= j < i implies !p(#[trigger] r[j]) by {
        assert(r[j] == s[j]);
    }
    first_index_is(r, p, i);
    assert(put(r, p, x) =~= r);
}

/// A change that settles at once, and keeps what it is found by, changes
/// nothing the second time.
proof fn alter_twice<T>(s: Seq<T>, p: spec_fn(T) -> bool, f: spec_fn(T) -> T)
    requires
        forall|x: T| p(x) ==> p(#[trigger] f(x)),
        forall|x: T| #[trigger] f(f(x)) == f(x),
    ensures
        alter(alter(s, p, f), p, f) == alter(s, p, f),
{
    first_index_props(s, p);
    let i = first_index(s, p);
    let r = alter(s, p, f);
    if i < s.len() {
        assert(p(f(s[i])));
        assert forall|j: int| 0 <= j < i implies !p(#[trigger] r[j]) by {
            assert(r[j] == s[j]);
        }
        first_index_is(r, p, i);
        assert(f(f(s[i])) == f(s[i]));
        assert(alter(r, p, f) =~= r);
    }
}

proof fn map_twice<T>(s: Seq<T>, f: spec_fn(T) -> T)
    requires
        forall|x: T| #[trigger] f(f(x)) == f(x),
    ensures
        s.map_values(f).map_values(f) == s.map_values(f),
{
    assert forall|i: int| 0 <= i < s.len() implies s.map_values(f).map_values(f)[i]
        == #[trigger] s.map_values(f)[i] by {
        assert(f(f(s[i])) == f(s[i]));
    }
    assert(s.map_values(f).map_values(f) =~= s.map_values(f));
}

/// An item is put, and then only some are kept.
pub open spec fn put_kept<T>(
    s: Seq<T>,
    p: spec_fn(T) -> bool,
    x: T,
    keep: spec_fn(T) -> bool,
) -> Seq<T> {
    put(s, p, x).filter(keep)
}

/// Nothing behind the first match is both a match and kept.
pub open spec fn unlike_behind<T>(
    s: Seq<T>,
    p: spec_fn(T) -> bool,
    keep: spec_fn(T) -> bool,
) -> bool {
    forall|j: int| first_index(s, p) < j < s.len() && p(#[trigger] s[j]) ==> !keep(s[j])
}

/// What comes before the item that is put, and what comes behind it.
proof fn put_parts<T>(
    s: Seq<T>,
    p: spec_fn(T) -> bool,
    x: T,
    keep: spec_fn(T) -> bool,
) -> (parts: (Seq<T>, Seq<T>))
    ensures
        put_kept(s, p, x, keep) == parts.0 + seq![x].filter(keep) + parts.1,
        forall|j: int| 0 <= j < parts.0.len() ==> !p(#[trigger] parts.0[j]),
        unlike_behind(s, p, keep) ==> forall|j: int|
            0 <= j < parts.1.len() ==> !p(#[trigger] parts.1[j]),
{
    first_index_props(s, p);
    let i = first_index(s, p);
    let r = put(s, p, x);
    let before = s.take(i);
    let behind = if i < s.len() {
        s.skip(i + 1)
    } else {
        Seq::empty()
    };
    assert(r =~= before + seq![x] + behind);
    Seq::filter_distributes_over_add(before + seq![x], behind, keep);
    Seq::filter_distributes_over_add(before, seq![x], keep);
    filter_props(before, keep);
    filter_props(behind, keep);
    let head = before.filter(keep);
    assert forall|j: int| 0 <= j < head.len() implies !p(#[trigger] head[j]) by {
        assert(before.contains(head[j]));
        let k = choose|k: int| 0 <= k < before.len() && before[k] == head[j];
        assert(before[k] == s[k]);
    }
    let tail = behind.filter(keep);
    if unlike_behind(s, p, keep) {
        assert forall|j: int| 0 <= j < tail.len() implies !p(#[trigger] tail[j]) by {
            assert(keep(tail[j]));
            assert(behind.contains(tail[j]));
            let k = choose|k: int| 0 <= k < behind.len() && behind[k] == tail[j];
            assert(behind[k] == s[i + 1 + k]);
        }
    }
    (head, tail)
}

/// Putting an item that is kept settles at once.
proof fn kept_put_twice<T>(s: Seq<T>, p: spec_fn(T) -> bool, x: T, keep: spec_fn(T) -> bool)
    requires
        p(x),
        keep(x),
    ensures
        put(put_kept(s, p, x, keep), p, x) == put_kept(s, p, x, keep),
        put_kept(put_kept(s, p, x, keep), p, x, keep) == put_kept(s, p, x, keep),
        put_kept(s, p, x, keep).contains(x),
{
    let g = put_kept(s, p, x, keep);
    let (head, tail) = put_parts(s, p, x, keep);
    filter_all(seq![x], keep);
    assert(g == head + seq![x] + tail);
    assert forall|j: int| 0 <= j < head.len() implies !p(#[trigger] g[j]) by {
        assert(g[j] == head[j]);
    }
    assert(g[head.len() as int] == x);
    first_index_is(g, p, head.len() as int);
    assert(put(g, p, x) =~= g);
    filter_twice(put(s, p, x), keep);
}

/// So does putting one that is not kept, where none of its like is kept
/// besides it.
proof fn dropped_put_twice<T>(s: Seq<T>, p: spec_fn(T) -> bool, x: T, keep: spec_fn(T) -> bool)
    requires
        !keep(x),
        unlike_behind(s, p, keep),
    ensures
        !any(put_kept(s, p, x, keep), p),
        put_kept(put_kept(s, p, x, keep), p, x, keep) == put_kept(s, p, x, keep),
{
    let g = put_kept(s, p, x, keep);
    let (head, tail) = put_parts(s, p, x, keep);
    filter_none(seq![x], keep);
    assert(g =~= head + tail);
    assert forall|j: int| 0 <= j < g.len() implies !p(#[trigger] g[j]) by {
        if j < head.len() {
            assert(g[j] == head[j]);
        } else {
            assert(g[j] == tail[j - head.len()]);
        }
    }
    filter_twice(put(s, p, x), keep);
    put_missing_kept(g, p, x, keep);
}

/// Putting an item that is not there, and not kept either.
proof fn put_missing_kept<T>(g: Seq<T>, p: spec_fn(T) -> bool, x: T, keep: spec_fn(T) -> bool)
    requires
        forall|j: int| 0 <= j < g.len() ==> !p(#[trigger] g[j]),
        !keep(x),
        g.filter(keep) == g,
    ensures
        put_kept(g, p, x, keep) == g,
{
    first_index_is(g, p, g.len() as int);
    assert(put(g, p, x) =~= g + seq![x]);
    Seq::filter_distributes_over_add(g, seq![x], keep);
    filter_none(seq![x], keep);
    assert(g + Seq::<T>::empty() =~= g);
}

proof fn filter_same<T>(s: Seq<T>, p: spec_fn(T) -> bool, q: spec_fn(T) -> bool)
    requires
        forall|x: T| #[trigger] p(x) == q(x),
    ensures
        s.filter(p) == s.filter(q),
    decreases s.len(),
{
    reveal(Seq::filter);
    if s.len() > 0 {
        filter_same(s.drop_last(), p, q);
        assert(p(s.last()) == q(s.last()));
    }
}

/// What is kept where something may have closed and something else may have.
pub open spec fn kept_by<T>(
    s: Seq<T>,
    a: Option<spec_fn(T) -> bool>,
    b: Option<spec_fn(T) -> bool>,
) -> Seq<T> {
    let once = match a {
        Some(p) => s.filter(p),
        None => s,
    };
    match b {
        Some(q) => once.filter(q),
        None => once,
    }
}

proof fn kept_is<T>(
    s: Seq<T>,
    a: Option<spec_fn(T) -> bool>,
    b: Option<spec_fn(T) -> bool>,
    keep: spec_fn(T) -> bool,
)
    requires
        forall|x: T| #[trigger]
            keep(x) == ((a matches Some(p) ==> p(x)) && (b matches Some(q) ==> q(x))),
    ensures
        kept_by(s, a, b) == s.filter(keep),
{
    match (a, b) {
        (Some(p), Some(q)) => {
            filter_both(s, p, q);
            filter_same(s, |x: T| p(x) && q(x), keep);
        },
        (Some(p), None) => filter_same(s, p, keep),
        (None, Some(q)) => filter_same(s, q, keep),
        (None, None) => filter_all(s, keep),
    }
}

/// Panes that a move leaves in place: those of nothing that it closed.
pub open spec fn pane_stays(tab: Option<Seq<char>>, workspace: Option<Seq<char>>) -> spec_fn(
    PaneInfo,
) -> bool {
    |p: PaneInfo| tab != Some(p.tab_id@) && workspace != Some(p.workspace_id@)
}

pub open spec fn tab_stays(tab: Option<Seq<char>>, workspace: Option<Seq<char>>) -> spec_fn(
    TabInfo,
) -> bool {
    |t: TabInfo| tab != Some(t.tab_id@) && workspace != Some(t.workspace_id@)
}

pub open spec fn workspace_stays(workspace: Option<Seq<char>>) -> spec_fn(WorkspaceInfo) -> bool {
    |w: WorkspaceInfo| workspace != Some(w.workspace_id@)
}

pub open spec fn layout_stays(tab: Option<Seq<char>>, workspace: Option<Seq<char>>) -> spec_fn(
    PaneLayoutSnapshot,
) -> bool {
    |l: PaneLayoutSnapshot| tab != Some(l.tab_id@) && workspace != Some(l.workspace_id@)
}

/// A list after a move that may have created an item of it.
pub open spec fn made_kept<T>(
    s: Seq<T>,
    made: Option<(spec_fn(T) -> bool, T)>,
    keep: spec_fn(T) -> bool,
) -> Seq<T> {
    match made {
        Some((p, x)) => put_kept(s, p, x, keep),
        None => s.filter(keep),
    }
}

proof fn made_kept_twice<T>(
    s: Seq<T>,
    made: Option<(spec_fn(T) -> bool, T)>,
    keep: spec_fn(T) -> bool,
)
    requires
        made matches Some((p, x)) ==> p(x) && (keep(x) || unlike_behind(s, p, keep)),
    ensures
        made_kept(made_kept(s, made, keep), made, keep) == made_kept(s, made, keep),
{
    match made {
        Some((p, x)) => if keep(x) {
            kept_put_twice(s, p, x, keep);
        } else {
            dropped_put_twice(s, p, x, keep);
        },
        None => filter_twice(s, keep),
    }
}

pub open spec fn made_tab(created: Option<TabInfo>) -> Option<(spec_fn(TabInfo) -> bool, TabInfo)> {
    match created {
        Some(t) => Some((tab_named(t.tab_id@), t)),
        None => None,
    }
}

pub open spec fn made_workspace(created: Option<WorkspaceInfo>) -> Option<
    (spec_fn(WorkspaceInfo) -> bool, WorkspaceInfo),
> {
    match created {
        Some(w) => Some((workspace_named(w.workspace_id@), w)),
        None => None,
    }
}

/// A move, list by list: the panes, tabs, workspaces and layouts it leaves,
/// and the focus that still names something.
proof fn moves_list_by_list(
    m: CatalogModel,
    previous: Seq<char>,
    pane: PaneInfo,
    created_workspace: Option<WorkspaceInfo>,
    created_tab: Option<TabInfo>,
    workspace: Option<Seq<char>>,
    tab: Option<Seq<char>>,
)
    ensures
        ({
            let r = m.pane_moved(previous, pane, created_workspace, created_tab, workspace, tab);
            let closing = tab is Some || workspace is Some;
            &&& r.sequence == m.sequence
            &&& r.panes == put_kept(
                m.panes.filter(pane_not(previous)),
                pane_named(pane.pane_id@),
                pane,
                pane_stays(tab, workspace),
            )
            &&& r.tabs == made_kept(m.tabs, made_tab(created_tab), tab_stays(tab, workspace))
            &&& r.workspaces == made_kept(
                m.workspaces,
                made_workspace(created_workspace),
                workspace_stays(workspace),
            )
            &&& r.layouts == m.layouts.filter(layout_stays(tab, workspace))
            &&& r.focused_workspace_id == if workspace is Some && m.focused_workspace_id
                == workspace {
                None
            } else {
                m.focused_workspace_id
            }
            &&& r.focused_pane_id == match m.focused_pane_id {
                Some(id) if id != previous && (!closing || r.has_pane(id)) => Some(id),
                _ => None,
            }
            &&& r.focused_tab_id == match m.focused_tab_id {
                Some(id) if !closing || r.has_tab(id) => Some(id),
                _ => None,
            }
        }),
{
    let a = m.without_pane(previous);
    let b = match created_workspace {
        Some(w) => a.put_workspace(w),
        None => a,
    };
    let c = match created_tab {
        Some(t) => b.put_tab(t),
        None => b,
    };
    let d = c.put_pane(pane);
    let e = match tab {
        Some(id) => d.without_tab(id),
        None => d,
    };
    let r = m.pane_moved(previous, pane, created_workspace, created_tab, workspace, tab);
    moved_panes(d.panes, tab, workspace);
    moved_tabs(d.tabs, tab, workspace);
    let w = match workspace {
        Some(id) => Some(workspace_not(id)),
        None => None,
    };
    kept_is(d.workspaces, None, w, workspace_stays(workspace));
    let t = match tab {
        Some(id) => Some(layout_off_tab(id)),
        None => None,
    };
    let o = match workspace {
        Some(id) => Some(layout_outside(id)),
        None => None,
    };
    kept_is(d.layouts, t, o, layout_stays(tab, workspace));
    filter_keeps_less(e.panes, r.panes, workspace);
    filter_keeps_fewer_tabs(d.tabs, e.tabs, r.tabs, tab, workspace);
}

proof fn moved_panes(s: Seq<PaneInfo>, tab: Option<Seq<char>>, workspace: Option<Seq<char>>)
    ensures
        kept_by(
            s,
            match tab {
                Some(id) => Some(pane_off_tab(id)),
                None => None,
            },
            match workspace {
                Some(id) => Some(pane_outside(id)),
                None => None,
            },
        ) == s.filter(pane_stays(tab, workspace)),
{
    let a = match tab {
        Some(id) => Some(pane_off_tab(id)),
        None => None,
    };
    let b = match workspace {
        Some(id) => Some(pane_outside(id)),
        None => None,
    };
    kept_is(s, a, b, pane_stays(tab, workspace));
}

proof fn moved_tabs(s: Seq<TabInfo>, tab: Option<Seq<char>>, workspace: Option<Seq<char>>)
    ensures
        kept_by(
            s,
            match tab {
                Some(id) => Some(tab_not(id)),
                None => None,
            },
            match workspace {
                Some(id) => Some(tab_outside(id)),
                None => None,
            },
        ) == s.filter(tab_stays(tab, workspace)),
{
    let a = match tab {
        Some(id) => Some(tab_not(id)),
        None => None,
    };
    let b = match workspace {
        Some(id) => Some(tab_outside(id)),
        None => None,
    };
    kept_is(s, a, b, tab_stays(tab, workspace));
}

/// A pane that is there after a workspace closed was there before.
proof fn filter_keeps_less(
    e: Seq<PaneInfo>,
    r: Seq<PaneInfo>,
    workspace: Option<Seq<char>>,
)
    requires
        r == match workspace {
            Some(id) => e.filter(pane_outside(id)),
            None => e,
        },
    ensures
        forall|id: Seq<char>| #[trigger] any(r, pane_named(id)) ==> any(e, pane_named(id)),
{
    if let Some(w) = workspace {
        filter_props(e, pane_outside(w));
        assert forall|id: Seq<char>| #[trigger] any(r, pane_named(id)) implies any(
            e,
            pane_named(id),
        ) by {
            let i = choose|i: int| 0 <= i < r.len() && pane_named(id)(#[trigger] r[i]);
            assert(e.contains(r[i]));
            let k = choose|k: int| 0 <= k < e.len() && e[k] == r[i];
            assert(pane_named(id)(e[k]));
        }
    }
}

/// So was a tab, and the tab that closed is not there.
proof fn filter_keeps_fewer_tabs(
    d: Seq<TabInfo>,
    e: Seq<TabInfo>,
    r: Seq<TabInfo>,
    tab: Option<Seq<char>>,
    workspace: Option<Seq<char>>,
)
    requires
        e == match tab {
            Some(id) => d.filter(tab_not(id)),
            None => d,
        },
        r == match workspace {
            Some(id) => e.filter(tab_outside(id)),
            None => e,
        },
    ensures
        forall|id: Seq<char>| #[trigger] any(r, tab_named(id)) ==> any(e, tab_named(id)),
        tab matches Some(id) ==> !any(e, tab_named(id)),
{
    if let Some(w) = workspace {
        filter_props(e, tab_outside(w));
        assert forall|id: Seq<char>| #[trigger] any(r, tab_named(id)) implies any(
            e,
            tab_named(id),
        ) by {
            let i = choose|i: int| 0 <= i < r.len() && tab_named(id)(#[trigger] r[i]);
            assert(e.contains(r[i]));
            let k = choose|k: int| 0 <= k < e.len() && e[k] == r[i];
            assert(tab_named(id)(e[k]));
        }
    }
    if let Some(id) = tab {
        filter_props(d, tab_not(id));
        if any(e, tab_named(id)) {
            let i = choose|i: int| 0 <= i < e.len() && tab_named(id)(#[trigger] e[i]);
            assert(tab_not(id)(e[i]));
        }
    }
}

/// With distinct ids, nothing behind the first match is another.
proof fn distinct_is_unlike_behind<T>(
    s: Seq<T>,
    key: spec_fn(T) -> Seq<char>,
    p: spec_fn(T) -> bool,
    id: Seq<char>,
    keep: spec_fn(T) -> bool,
)
    requires
        distinct(s, key),
        forall|x: T| #[trigger] p(x) == (key(x) == id),
    ensures
        unlike_behind(s, p, keep),
{
    first_index_props(s, p);
    let i = first_index(s, p);
    assert forall|j: int| i < j < s.len() && p(#[trigger] s[j]) implies !keep(s[j]) by {
        assert(p(s[i]));
        assert(key(s[i]) != key(s[j]));
    }
}

/// Moving a pane a second time leaves the panes as the first time did.
proof fn moved_panes_settle(
    s: Seq<PaneInfo>,
    previous: Seq<char>,
    pane: PaneInfo,
    keep: spec_fn(PaneInfo) -> bool,
)
    requires
        keep(pane) || pane.pane_id@ == previous || unlike_behind(
            s.filter(pane_not(previous)),
            pane_named(pane.pane_id@),
            keep,
        ),
    ensures
        ({
            let p = pane_named(pane.pane_id@);
            let g = put_kept(s.filter(pane_not(previous)), p, pane, keep);
            put_kept(g.filter(pane_not(previous)), p, pane, keep) == g
        }),
{
    let p = pane_named(pane.pane_id@);
    let n = pane_not(previous);
    let rest = s.filter(n);
    let g = put_kept(rest, p, pane, keep);
    filter_props(s, n);
    if pane.pane_id@ == previous {
        assert forall|j: int| 0 <= j < rest.len() implies !p(#[trigger] rest[j]) by {
            assert(n(rest[j]));
        }
        let kept = rest.filter(keep);
        filter_props(rest, keep);
        first_index_is(rest, p, rest.len() as int);
        assert(put(rest, p, pane) =~= rest + seq![pane]);
        Seq::filter_distributes_over_add(rest, seq![pane], keep);
        assert forall|j: int| 0 <= j < kept.len() implies n(#[trigger] kept[j]) && !p(kept[j]) by {
            assert(rest.contains(kept[j]));
            let k = choose|k: int| 0 <= k < rest.len() && rest[k] == kept[j];
            assert(n(rest[k]));
        }
        filter_all(kept, n);
        Seq::filter_distributes_over_add(kept, seq![pane].filter(keep), n);
        filter_props(seq![pane], keep);
        let one = seq![pane].filter(keep);
        assert forall|j: int| 0 <= j < one.len() implies !n(#[trigger] one[j]) by {
            assert(seq![pane].contains(one[j]));
        }
        filter_none(one, n);
        assert(g.filter(n) =~= kept);
        first_index_is(kept, p, kept.len() as int);
        assert(put(kept, p, pane) =~= kept + seq![pane]);
        Seq::filter_distributes_over_add(kept, seq![pane], keep);
        filter_twice(rest, keep);
    } else {
        put_items(rest, p, pane);
        filter_props(put(rest, p, pane), keep);
        assert forall|j: int| 0 <= j < g.len() implies n(#[trigger] g[j]) by {
            assert(put(rest, p, pane).contains(g[j]));
            if g[j] != pane {
                assert(rest.contains(g[j]));
                let k = choose|k: int| 0 <= k < rest.len() && rest[k] == g[j];
                assert(n(rest[k]));
            }
        }
        filter_all(g, n);
        if keep(pane) {
            kept_put_twice(rest, p, pane, keep);
        } else {
            dropped_put_twice(rest, p, pane, keep);
        }
    }
}

/// What is there after an item was put: that item, and what was there before.
proof fn put_items<T>(s: Seq<T>, p: spec_fn(T) -> bool, x: T)
    ensures
        forall|y: T| #[trigger] put(s, p, x).contains(y) ==> y == x || s.contains(y),
{
    first_index_props(s, p);
    assert forall|y: T| #[trigger] put(s, p, x).contains(y) implies y == x || s.contains(y) by {
        let r = put(s, p, x);
        let k = choose|k: int| 0 <= k < r.len() && r[k] == y;
        if y != x {
            assert(r[k] == s[k]);
        }
    }
}

impl CatalogModel {
    /// Whether a move may be seen a second time. Where it closes the very
    /// place that its pane, or the tab it created, went to, nothing else of
    /// that id may outlive it.
    pub open spec fn move_replays(
        self,
        previous: Seq<char>,
        pane: PaneInfo,
        created_tab: Option<TabInfo>,
        workspace: Option<Seq<char>>,
        tab: Option<Seq<char>>,
    ) -> bool {
        &&& pane_stays(tab, workspace)(pane) || pane.pane_id@ == previous || unlike_behind(
            self.panes.filter(pane_not(previous)),
            pane_named(pane.pane_id@),
            pane_stays(tab, workspace),
        )
        &&& created_tab matches Some(t) ==> tab_stays(tab, workspace)(t) || unlike_behind(
            self.tabs,
            tab_named(t.tab_id@),
            tab_stays(tab, workspace),
        )
    }

    /// Whether an event may be seen a second time. A reordering lists tabs of
    /// its own workspace only.
    pub open spec fn replays(self, data: EventData) -> bool {
        match data {
            EventData::TabMoved { workspace_id, tabs } => forall|i: int|
                0 <= i < tabs@.len() ==> (#[trigger] tabs@[i]).workspace_id@ == workspace_id@,
            EventData::PaneMoved {
                previous_pane_id,
                pane,
                created_workspace,
                created_tab,
                closed_workspace_id,
                closed_tab_id,
            } => self.move_replays(
                previous_pane_id@,
                pane,
                created_tab,
                opt_view(closed_workspace_id),
                opt_view(closed_tab_id),
            ),
            _ => true,
        }
    }
}

proof fn moves_settle(
    m: CatalogModel,
    previous: Seq<char>,
    pane: PaneInfo,
    created_workspace: Option<WorkspaceInfo>,
    created_tab: Option<TabInfo>,
    workspace: Option<Seq<char>>,
    tab: Option<Seq<char>>,
)
    requires
        m.move_replays(previous, pane, created_tab, workspace, tab),
    ensures
        ({
            let r = m.pane_moved(previous, pane, created_workspace, created_tab, workspace, tab);
            r.pane_moved(previous, pane, created_workspace, created_tab, workspace, tab) == r
        }),
{
    let r = m.pane_moved(previous, pane, created_workspace, created_tab, workspace, tab);
    moves_list_by_list(m, previous, pane, created_workspace, created_tab, workspace, tab);
    moves_list_by_list(r, previous, pane, created_workspace, created_tab, workspace, tab);
    moved_panes_settle(m.panes, previous, pane, pane_stays(tab, workspace));
    made_kept_twice(m.tabs, made_tab(created_tab), tab_stays(tab, workspace));
    made_kept_twice(m.workspaces, made_workspace(created_workspace), workspace_stays(workspace));
    filter_twice(m.layouts, layout_stays(tab, workspace));
}

/// Reordering a workspace's tabs a second time leaves them as the first did.
proof fn moved_tabs_settle(s: Seq<TabInfo>, workspace: Seq<char>, tabs: Seq<TabInfo>)
    requires
        forall|i: int| 0 <= i < tabs.len() ==> (#[trigger] tabs[i]).workspace_id@ == workspace,
    ensures
        (s.filter(tab_outside(workspace)) + tabs).filter(tab_outside(workspace)) + tabs
            == s.filter(tab_outside(workspace)) + tabs,
{
    let p = tab_outside(workspace);
    Seq::filter_distributes_over_add(s.filter(p), tabs, p);
    filter_twice(s, p);
    filter_none(tabs, p);
    assert(s.filter(p) + Seq::<TabInfo>::empty() =~= s.filter(p));
}

proof fn closed_workspaces_settle(m: CatalogModel, id: Seq<char>)
    ensures
        m.without_workspace(id).without_workspace(id) == m.without_workspace(id),
{
    filter_twice(m.workspaces, workspace_not(id));
    filter_twice(m.tabs, tab_outside(id));
    filter_twice(m.panes, pane_outside(id));
    filter_twice(m.layouts, layout_outside(id));
}

proof fn closed_tabs_settle(m: CatalogModel, id: Seq<char>)
    ensures
        m.without_tab(id).without_tab(id) == m.without_tab(id),
{
    filter_twice(m.tabs, tab_not(id));
    filter_twice(m.panes, pane_off_tab(id));
    filter_twice(m.layouts, layout_off_tab(id));
}

proof fn changes_settle(m: CatalogModel, data: EventData)
    requires
        m.replays(data),
    ensures
        m.changed_by(data).changed_by(data) == m.changed_by(data),
{
    match data {
        EventData::WorkspaceCreated { workspace } | EventData::WorkspaceUpdated {
            workspace,
        } | EventData::WorkspaceMetadataUpdated { workspace } | EventData::WorktreeCreated {
            workspace,
        } | EventData::WorktreeOpened { workspace } => put_twice(
            m.workspaces,
            workspace_named(workspace.workspace_id@),
            workspace,
        ),
        EventData::WorktreeRemoved { workspace_id, workspace } => match workspace {
            Some(w) => put_twice(m.workspaces, workspace_named(w.workspace_id@), w),
            None => closed_workspaces_settle(m, workspace_id@),
        },
        EventData::WorkspaceClosed { workspace_id } => closed_workspaces_settle(m, workspace_id@),
        EventData::WorkspaceRenamed { workspace_id, label } => alter_twice(
            m.workspaces,
            workspace_named(workspace_id@),
            workspace_labelled(label),
        ),
        EventData::WorkspaceMoved { workspaces } => {},
        EventData::WorkspaceFocused { workspace_id } => map_twice(
            m.workspaces,
            workspace_focus(workspace_id@),
        ),
        EventData::TabCreated { tab } => put_twice(m.tabs, tab_named(tab.tab_id@), tab),
        EventData::TabClosed { tab_id, workspace_id } => closed_tabs_settle(m, tab_id@),
        EventData::TabRenamed { tab_id, workspace_id, label } => alter_twice(
            m.tabs,
            tab_named(tab_id@),
            tab_labelled(label),
        ),
        EventData::TabMoved { workspace_id, tabs } => moved_tabs_settle(
            m.tabs,
            workspace_id@,
            tabs@,
        ),
        EventData::TabFocused { tab_id, workspace_id } => {
            map_twice(m.tabs, tab_focus(tab_id@, workspace_id@));
            alter_twice(
                m.workspaces,
                workspace_named(workspace_id@),
                workspace_on_tab(tab_id),
            );
        },
        EventData::PaneCreated { pane } | EventData::PaneUpdated { pane } => put_twice(
            m.panes,
            pane_named(pane.pane_id@),
            pane,
        ),
        EventData::PaneClosed { pane_id, workspace_id } | EventData::PaneExited {
            pane_id,
            workspace_id,
        } => filter_twice(m.panes, pane_not(pane_id@)),
        EventData::PaneFocused { pane_id, workspace_id } => map_twice(
            m.panes,
            pane_focus(pane_id@, workspace_id@),
        ),
        EventData::PaneMoved {
            previous_pane_id,
            pane,
            created_workspace,
            created_tab,
            closed_workspace_id,
            closed_tab_id,
        } => moves_settle(
            m,
            previous_pane_id@,
            pane,
            created_workspace,
            created_tab,
            opt_view(closed_workspace_id),
            opt_view(closed_tab_id),
        ),
        EventData::PaneOutputChanged { pane_id, workspace_id, revision } => alter_twice(
            m.panes,
            pane_named(pane_id@),
            pane_revised(revision),
        ),
        EventData::PaneAgentDetected { pane_id, workspace_id, agent } => alter_twice(
            m.panes,
            pane_named(pane_id@),
            pane_running(agent),
        ),
        EventData::PaneAgentStatusChanged {
            pane_id,
            workspace_id,
            agent_status,
            agent,
            title,
            display_agent,
            state_labels,
        } => alter_twice(
            m.panes,
            pane_named(pane_id@),
            pane_reported(agent_status, agent, title, display_agent, state_labels),
        ),
        EventData::LayoutUpdated { layout } => put_twice(
            m.layouts,
            layout_of(layout.workspace_id@, layout.tab_id@),
            layout,
        ),
        EventData::NotificationPosted { kind, message, body } => {},
        EventData::WindowTitleChanged { title } => {},
    }
}

/// A move may always be seen a second time where no two panes and no two tabs
/// share an id.
pub proof fn moves_of_distinct_ids_replay(
    c: CatalogModel,
    previous: Seq<char>,
    pane: PaneInfo,
    created_tab: Option<TabInfo>,
    workspace: Option<Seq<char>>,
    tab: Option<Seq<char>>,
)
    requires
        distinct(c.panes, pane_key()),
        distinct(c.tabs, tab_key()),
    ensures
        c.move_replays(previous, pane, created_tab, workspace, tab),
{
    distinct_filter(c.panes, pane_key(), pane_not(previous));
    distinct_is_unlike_behind(
        c.panes.filter(pane_not(previous)),
        pane_key(),
        pane_named(pane.pane_id@),
        pane.pane_id@,
        pane_stays(tab, workspace),
    );
    if let Some(t) = created_tab {
        distinct_is_unlike_behind(
            c.tabs,
            tab_key(),
            tab_named(t.tab_id@),
            t.tab_id@,
            tab_stays(tab, workspace),
        );
    }
}

/// Replaying converges: an event that is seen again, at the same sequence or
/// a later one, leaves the catalog as if it had been seen once, at that
/// sequence. A snapshot may thus hold an event that is sent again after it.
pub proof fn replays_converge(c: CatalogModel, first: u64, second: u64, data: EventData)
    requires
        first <= second,
        first < second ==> c.replays(data),
    ensures
        c.after(first, data).after(second, data) == c.after(second, data),
{
    if c.sequence < first && first < second {
        let at_first = CatalogModel { sequence: first, ..c };
        let at_second = CatalogModel { sequence: second, ..c };
        changes_settle(at_second, data);
        assert(CatalogModel { sequence: second, ..at_first.changed_by(data) }
            == at_second.changed_by(data));
    }
}

} // verus!
