//! What input means: prefix keys and chrome mouse actions become API methods
//! for the remote that owns what they act on. The server applies them, and
//! the events that follow update the mirror; nothing here changes a session.
use crate::api::method::{Method, MethodModel, PaneDirection};
use crate::api::schema::{PaneInfo, SplitDirection, TabInfo, WorkspaceInfo};
use crate::client_state::app_state::{AppState, Mode, PrefixAction};
use crate::client_state::catalog::{CatalogModel, SessionCatalog};
use crate::client_state::chrome::GlobalChrome;
use crate::client_state::compose::{
    creation_target, creation_target_remote, has_panes, tab_model, tab_models, tab_within, tabs_of,
    workspace_with_id,
};
use crate::client_state::compose_ids::{on_tab, ComposeIds, PaneSlot};
use crate::client_state::fleet_view::{RemoteDescriptor, SelectionModel};
use crate::client_state::mirror::{MirrorModel, RemoteMirrors};
use crate::input::TerminalKey;
use crate::seqs::{any, filter_props, find, first_index, first_index_is, pick};
use crate::text::{opt_view, same};
use vstd::prelude::*;

verus! {

pub open spec fn is_text(t: Seq<char>) -> spec_fn(Seq<char>) -> bool {
    |x: Seq<char>| x == t
}

/// The neighbour of `current` in a list, round the end.
pub open spec fn neighbour(list: Seq<Seq<char>>, current: Seq<char>, forward: bool) -> Option<
    Seq<char>,
> {
    let i = first_index(list, is_text(current));
    if i >= list.len() {
        None
    } else if forward {
        Some(
            if i + 1 < list.len() {
                list[i + 1]
            } else {
                list[0]
            },
        )
    } else {
        Some(
            if i == 0 {
                list.last()
            } else {
                list[i - 1]
            },
        )
    }
}

/// Finds the neighbour of `current` in a list, round the end.
fn find_neighbour(list: &Vec<String>, current: &str, forward: bool) -> (r: Option<String>)
    ensures
        opt_view(r) == neighbour(crate::text::texts(list@), current@, forward),
{
    let ghost all = crate::text::texts(list@);
    let mut i: usize = 0;
    while i < list.len() && !same(list[i].as_str(), current)
        invariant
            i <= list@.len(),
            all == crate::text::texts(list@),
            forall|j: int| 0 <= j < i ==> !is_text(current@)(#[trigger] all[j]),
        decreases list@.len() - i,
    {
        assert(all[i as int] == list@[i as int]@);
        i = i + 1;
    }
    let n: usize = list.len();
    proof {
        if i < n {
            assert(all[i as int] == list@[i as int]@);
        }
        first_index_is(all, is_text(current@), i as int);
    }
    if i >= n {
        return None;
    }
    let k: usize = if forward {
        if i + 1 < n {
            i + 1
        } else {
            0
        }
    } else {
        if i == 0 {
            n - 1
        } else {
            i - 1
        }
    };
    assert(all[k as int] == list@[k as int]@);
    Some(list[k].clone())
}

pub open spec fn workspace_ids(s: Seq<WorkspaceInfo>) -> Seq<Seq<char>> {
    s.map_values(|w: WorkspaceInfo| w.workspace_id@)
}

pub open spec fn tab_ids(s: Seq<TabInfo>) -> Seq<Seq<char>> {
    s.map_values(|t: TabInfo| t.tab_id@)
}

/// The method an action stands for on a remote with that catalog, where the
/// focus is on that workspace and that pane. Vertical splits put the new pane
/// to the right, horizontal ones below.
pub open spec fn action_method(
    action: PrefixAction,
    c: CatalogModel,
    workspace: Option<Seq<char>>,
    pane: Option<Seq<char>>,
) -> Option<MethodModel> {
    match action {
        PrefixAction::NewWorkspace => Some(MethodModel::WorkspaceCreate { focus: true }),
        PrefixAction::CloseWorkspace => match workspace {
            Some(workspace_id) => Some(MethodModel::WorkspaceClose { workspace_id }),
            None => None,
        },
        PrefixAction::NextWorkspace => focus_neighbour(c, workspace, true),
        PrefixAction::PreviousWorkspace => focus_neighbour(c, workspace, false),
        PrefixAction::NewTab => Some(
            MethodModel::TabCreate { workspace_id: workspace, focus: true },
        ),
        PrefixAction::NextTab => tab_neighbour(c, workspace, true),
        PrefixAction::PreviousTab => tab_neighbour(c, workspace, false),
        PrefixAction::CloseTab => match active_tab_of(c, workspace) {
            Some(tab_id) => Some(MethodModel::TabClose { tab_id }),
            None => None,
        },
        PrefixAction::SplitVertical => Some(
            MethodModel::PaneSplit {
                target_pane_id: pane,
                direction: SplitDirection::Right,
                focus: true,
            },
        ),
        PrefixAction::SplitHorizontal => Some(
            MethodModel::PaneSplit {
                target_pane_id: pane,
                direction: SplitDirection::Down,
                focus: true,
            },
        ),
        PrefixAction::ClosePane => match pane {
            Some(pane_id) => Some(MethodModel::PaneClose { pane_id }),
            None => None,
        },
        PrefixAction::Zoom => Some(MethodModel::PaneZoom { pane_id: pane }),
        PrefixAction::FocusLeft => Some(
            MethodModel::PaneFocusDirection { pane_id: pane, direction: PaneDirection::Left },
        ),
        PrefixAction::FocusDown => Some(
            MethodModel::PaneFocusDirection { pane_id: pane, direction: PaneDirection::Down },
        ),
        PrefixAction::FocusUp => Some(
            MethodModel::PaneFocusDirection { pane_id: pane, direction: PaneDirection::Up },
        ),
        PrefixAction::FocusRight => Some(
            MethodModel::PaneFocusDirection { pane_id: pane, direction: PaneDirection::Right },
        ),
    }
}

pub open spec fn focus_neighbour(
    c: CatalogModel,
    workspace: Option<Seq<char>>,
    forward: bool,
) -> Option<MethodModel> {
    match workspace {
        Some(current) => match neighbour(workspace_ids(c.workspaces), current, forward) {
            Some(workspace_id) => Some(MethodModel::WorkspaceFocus { workspace_id }),
            None => None,
        },
        None => None,
    }
}

/// The active tab of the focused workspace.
pub open spec fn active_tab_of(c: CatalogModel, workspace: Option<Seq<char>>) -> Option<Seq<char>> {
    match workspace {
        Some(id) => match c.workspace(id) {
            Some(w) => Some(w.active_tab_id@),
            None => None,
        },
        None => None,
    }
}

pub open spec fn tab_neighbour(
    c: CatalogModel,
    workspace: Option<Seq<char>>,
    forward: bool,
) -> Option<MethodModel> {
    match (workspace, active_tab_of(c, workspace)) {
        (Some(id), Some(active)) => match neighbour(
            tab_ids(c.tabs.filter(tab_within(id))),
            active,
            forward,
        ) {
            Some(tab_id) => Some(MethodModel::TabFocus { tab_id }),
            None => None,
        },
        _ => None,
    }
}

/// The public id of the focused workspace.
pub open spec fn focused_workspace_public(app: AppState, ids: ComposeIds) -> Option<Seq<char>> {
    match app.active {
        Some(i) => match ids.owner(i) {
            Some((_, public)) => Some(public),
            None => None,
        },
        None => None,
    }
}

/// The public id of the focused pane, when `remote` owns it.
pub open spec fn focused_pane_public(app: AppState, ids: ComposeIds, remote: usize) -> Option<
    Seq<char>,
> {
    match app.focused_pane() {
        Some(pane) => match ids.public_of(pane) {
            Some((owner, public)) => if owner == remote {
                Some(public)
            } else {
                None
            },
            None => None,
        },
        None => None,
    }
}

/// The owning remote and method of a prefix-mode key. Everything goes to the
/// remote that owns the focused workspace, in that remote's own public ids.
#[verifier::opaque]
pub open spec fn prefix_intent(
    key: TerminalKey,
    mirrors: Map<usize, MirrorModel>,
    ids: ComposeIds,
    app: AppState,
    fallback: usize,
) -> Option<(usize, MethodModel)> {
    let remote = creation_target(app, ids, fallback);
    if !mirrors.contains_key(remote) {
        None
    } else {
        match app.keybinds.action_of(key) {
            Some(action) => match action_method(
                action,
                mirrors[remote].catalog,
                focused_workspace_public(app, ids),
                focused_pane_public(app, ids, remote),
            ) {
                Some(method) => Some((remote, method)),
                None => None,
            },
            None => None,
        }
    }
}

/// An intent as its model.
pub open spec fn intent_view(r: Option<(usize, Method)>) -> Option<(usize, MethodModel)> {
    match r {
        Some((remote, method)) => Some((remote, method@)),
        None => None,
    }
}

fn workspace_neighbour(catalog: &SessionCatalog, workspace: &Option<String>, forward: bool) -> (r:
    Option<Method>)
    ensures
        match r {
            Some(m) => focus_neighbour(catalog@, opt_view(*workspace), forward) == Some(m@),
            None => focus_neighbour(catalog@, opt_view(*workspace), forward) is None,
        },
{
    match workspace {
        Some(current) => {
            let mut list: Vec<String> = Vec::new();
            let mut i: usize = 0;
            while i < catalog.workspaces.len()
                invariant
                    i <= catalog.workspaces@.len(),
                    list@.len() == i,
                    forall|j: int|
                        0 <= j < i ==> (#[trigger] list@[j])@
                            == catalog.workspaces@[j].workspace_id@,
                decreases catalog.workspaces@.len() - i,
            {
                list.push(catalog.workspaces[i].workspace_id.clone());
                i = i + 1;
            }
            assert(crate::text::texts(list@) =~= workspace_ids(catalog@.workspaces));
            match find_neighbour(&list, current.as_str(), forward) {
                Some(workspace_id) => Some(Method::WorkspaceFocus { workspace_id }),
                None => None,
            }
        },
        None => None,
    }
}

fn active_tab_id(catalog: &SessionCatalog, workspace: &Option<String>) -> (r: Option<String>)
    ensures
        opt_view(r) == active_tab_of(catalog@, opt_view(*workspace)),
{
    match workspace {
        Some(id) => match catalog.workspace(id.as_str()) {
            Some(w) => Some(w.active_tab_id.clone()),
            None => None,
        },
        None => None,
    }
}

fn tab_cycle(catalog: &SessionCatalog, workspace: &Option<String>, forward: bool) -> (r: Option<
    Method,
>)
    ensures
        match r {
            Some(m) => tab_neighbour(catalog@, opt_view(*workspace), forward) == Some(m@),
            None => tab_neighbour(catalog@, opt_view(*workspace), forward) is None,
        },
{
    match (workspace, active_tab_id(catalog, workspace)) {
        (Some(id), Some(active)) => {
            let test = |t: &TabInfo| -> (b: bool)
                ensures
                    b == (t.workspace_id@ == id@),
                { same(t.workspace_id.as_str(), id.as_str()) };
            let own = pick(catalog.tabs.as_slice(), test, Ghost(tab_within(id@)));
            let ghost all = catalog@.tabs.filter(tab_within(id@));
            let mut list: Vec<String> = Vec::new();
            let mut i: usize = 0;
            while i < own.len()
                invariant
                    i <= own@.len(),
                    own@.len() == all.len(),
                    forall|j: int| 0 <= j < own@.len() ==> *(#[trigger] own@[j]) == all[j],
                    list@.len() == i,
                    forall|j: int| 0 <= j < i ==> (#[trigger] list@[j])@ == all[j].tab_id@,
                decreases own@.len() - i,
            {
                assert(*own@[i as int] == all[i as int]);
                list.push(own[i].tab_id.clone());
                i = i + 1;
            }
            assert(crate::text::texts(list@) =~= tab_ids(all));
            match find_neighbour(&list, active.as_str(), forward) {
                Some(tab_id) => Some(Method::TabFocus { tab_id }),
                None => None,
            }
        },
        _ => None,
    }
}

/// The owning remote and method a prefix-mode key maps to, if any.
pub fn prefix_intent_method(
    key: TerminalKey,
    mirrors: &RemoteMirrors,
    ids: &ComposeIds,
    app: &AppState,
    fallback_remote: usize,
) -> (r: Option<(usize, Method)>)
    requires
        mirrors.wf(),
    ensures
        intent_view(r) == prefix_intent(key, mirrors@, *ids, *app, fallback_remote),
{
    reveal(prefix_intent);
    let remote: usize = creation_target_remote(app, ids, fallback_remote);
    let catalog = match mirrors.get(remote) {
        Some(mirror) => &mirror.catalog,
        None => {
            return None;
        },
    };
    let workspace: Option<String> = match app.active {
        Some(i) => match ids.workspace_owner(i) {
            Some((_, public)) => Some(public.to_owned()),
            None => None,
        },
        None => None,
    };
    let pane: Option<String> = match app.focused_pane_id() {
        Some(pane) => match ids.public_pane_id(pane) {
            Some((owner, public)) => {
                if owner == remote {
                    Some(public.to_owned())
                } else {
                    None
                }
            },
            None => None,
        },
        None => None,
    };
    let action = match app.keybinds.resolve(key) {
        Some(action) => action,
        None => {
            return None;
        },
    };
    let method: Option<Method> = match action {
        PrefixAction::NewWorkspace => Some(Method::WorkspaceCreate { focus: true }),
        PrefixAction::CloseWorkspace => match workspace {
            Some(workspace_id) => Some(Method::WorkspaceClose { workspace_id }),
            None => None,
        },
        PrefixAction::NextWorkspace => workspace_neighbour(catalog, &workspace, true),
        PrefixAction::PreviousWorkspace => workspace_neighbour(catalog, &workspace, false),
        PrefixAction::NewTab => Some(Method::TabCreate { workspace_id: workspace, focus: true }),
        PrefixAction::NextTab => tab_cycle(catalog, &workspace, true),
        PrefixAction::PreviousTab => tab_cycle(catalog, &workspace, false),
        PrefixAction::CloseTab => match active_tab_id(catalog, &workspace) {
            Some(tab_id) => Some(Method::TabClose { tab_id }),
            None => None,
        },
        PrefixAction::SplitVertical => Some(
            Method::PaneSplit {
                target_pane_id: pane,
                direction: SplitDirection::Right,
                focus: true,
            },
        ),
        PrefixAction::SplitHorizontal => Some(
            Method::PaneSplit {
                target_pane_id: pane,
                direction: SplitDirection::Down,
                focus: true,
            },
        ),
        PrefixAction::ClosePane => match pane {
            Some(pane_id) => Some(Method::PaneClose { pane_id }),
            None => None,
        },
        PrefixAction::Zoom => Some(Method::PaneZoom { pane_id: pane }),
        PrefixAction::FocusLeft => Some(
            Method::PaneFocusDirection { pane_id: pane, direction: PaneDirection::Left },
        ),
        PrefixAction::FocusDown => Some(
            Method::PaneFocusDirection { pane_id: pane, direction: PaneDirection::Down },
        ),
        PrefixAction::FocusUp => Some(
            Method::PaneFocusDirection { pane_id: pane, direction: PaneDirection::Up },
        ),
        PrefixAction::FocusRight => Some(
            Method::PaneFocusDirection { pane_id: pane, direction: PaneDirection::Right },
        ),
    };
    match method {
        Some(method) => Some((remote, method)),
        None => None,
    }
}

/// Acting on a remote's content moves the client's focus there, and changes
/// nothing else.
pub open spec fn focus_follows(
    was: GlobalChrome,
    now: GlobalChrome,
    intent: Option<(usize, Method)>,
) -> bool {
    &&& now.selection@ == match intent {
        Some((remote, _)) => SelectionModel { focused_remote: remote, ..was.selection@ },
        None => was.selection@,
    }
    &&& now == (GlobalChrome { selection: now.selection, ..was })
}

/// What a click or drag on the chrome asks for.
#[derive(Debug)]
pub enum MouseAction {
    NewWorkspace,
    FocusWorkspace { ws_idx: usize },
    FocusTab { tab_idx: usize },
    FocusPane { pane_id: usize },
    MoveWorkspace { source_ws_idx: usize, insert_idx: usize },
    MoveTab { ws_idx: usize, source_tab_idx: usize, insert_idx: usize },
    SetSplitRatio { path: Vec<bool>, ratio: String },
    /// Modal actions and those without a method.
    Other,
}

/// A tab of the workspace that has panes.
pub open spec fn shown_tab(c: CatalogModel, workspace: Seq<char>) -> spec_fn(TabInfo) -> bool {
    |t: TabInfo| t.workspace_id@ == workspace && any(c.panes, on_tab(t.tab_id@))
}

/// The public tab id at a position of the composed tab bar, which leaves out
/// tabs without panes.
pub open spec fn tab_public(c: CatalogModel, workspace: Seq<char>, tab_idx: usize) -> Option<
    Seq<char>,
> {
    let tabs = c.tabs.filter(shown_tab(c, workspace));
    if tab_idx < tabs.len() {
        Some(tabs[tab_idx as int].tab_id@)
    } else {
        None
    }
}

/// The public tab id at a position of the composed tab bar.
pub fn composed_tab_public_id(catalog: &SessionCatalog, workspace_id: &str, tab_idx: usize) -> (r:
    Option<String>)
    ensures
        opt_view(r) == tab_public(catalog@, workspace_id@, tab_idx),
{
    let test = |t: &TabInfo| -> (b: bool)
        ensures
            b == (t.workspace_id@ == workspace_id@ && any(catalog@.panes, on_tab(t.tab_id@))),
        { same(t.workspace_id.as_str(), workspace_id) && tab_has_panes(catalog, t) };
    let tabs = pick(
        catalog.tabs.as_slice(),
        test,
        Ghost(shown_tab(catalog@, workspace_id@)),
    );
    if tab_idx < tabs.len() {
        Some(tabs[tab_idx].tab_id.clone())
    } else {
        None
    }
}

fn tab_has_panes(catalog: &SessionCatalog, tab: &TabInfo) -> (r: bool)
    ensures
        r == any(catalog@.panes, on_tab(tab.tab_id@)),
{
    let test = |p: &PaneInfo| -> (b: bool)
        ensures
            b == (p.tab_id@ == tab.tab_id@),
        { same(p.tab_id.as_str(), tab.tab_id.as_str()) };
    find(catalog.panes.as_slice(), test, Ghost(on_tab(tab.tab_id@))) < catalog.panes.len()
}

/// The tab bar and the ids behind it agree: position `i` of the composed tabs
/// shows the tab whose public id position `i` resolves to.
pub proof fn tab_positions_agree(
    slots: Seq<PaneSlot>,
    remote: usize,
    c: CatalogModel,
    w: WorkspaceInfo,
)
    ensures
        ({
            let tabs = tabs_of(c, w);
            let bar = tab_models(slots, remote, c, w, tabs, tabs.len() as int);
            let shown = c.tabs.filter(shown_tab(c, w.workspace_id@));
            bar.len() == shown.len() && forall|i: int|
                0 <= i < bar.len() ==> exists|k: int|
                    0 <= k < tabs.len() && tabs[k] == shown[i] && #[trigger] bar[i] == tab_model(
                        slots,
                        remote,
                        c,
                        w,
                        tabs[k],
                        k,
                    )
        }),
{
    let tabs = tabs_of(c, w);
    filter_twice(c, w.workspace_id@, c.tabs);
    tab_positions_agree_upto(slots, remote, c, w, tabs, tabs.len() as int);
    assert(tabs.take(tabs.len() as int) =~= tabs);
}

pub open spec fn tab_with_panes(c: CatalogModel) -> spec_fn(TabInfo) -> bool {
    |t: TabInfo| any(c.panes, on_tab(t.tab_id@))
}

pub proof fn filter_twice(c: CatalogModel, workspace: Seq<char>, s: Seq<TabInfo>)
    ensures
        s.filter(tab_within(workspace)).filter(tab_with_panes(c)) == s.filter(
            shown_tab(c, workspace),
        ),
    decreases s.len(),
{
    reveal(Seq::filter);
    if s.len() > 0 {
        filter_twice(c, workspace, s.drop_last());
        let part = s.drop_last().filter(tab_within(workspace));
        if tab_within(workspace)(s.last()) {
            assert(s.filter(tab_within(workspace)) =~= part.push(s.last()));
            part.lemma_filter_push(s.last(), tab_with_panes(c));
        }
    }
}

pub proof fn panes_any(c: CatalogModel, tab: TabInfo)
    ensures
        has_panes(c, tab) == any(c.panes, on_tab(tab.tab_id@)),
{
    let p = on_tab(tab.tab_id@);
    filter_props(c.panes, p);
    if has_panes(c, tab) {
        let x = c.panes.filter(p)[0];
        assert(c.panes.contains(x));
        let k = choose|k: int| 0 <= k < c.panes.len() && c.panes[k] == x;
        assert(p(c.panes[k]));
    }
    if any(c.panes, p) {
        let k = choose|k: int| 0 <= k < c.panes.len() && p(#[trigger] c.panes[k]);
        assert(c.panes.contains(c.panes[k]));
        assert(c.panes.filter(p).contains(c.panes[k]));
    }
}

proof fn tab_positions_agree_upto(
    slots: Seq<PaneSlot>,
    remote: usize,
    c: CatalogModel,
    w: WorkspaceInfo,
    tabs: Seq<TabInfo>,
    n: int,
)
    requires
        0 <= n <= tabs.len(),
    ensures
        ({
            let bar = tab_models(slots, remote, c, w, tabs, n);
            let shown = tabs.take(n).filter(tab_with_panes(c));
            bar.len() == shown.len() && forall|i: int|
                0 <= i < bar.len() ==> exists|k: int|
                    0 <= k < n && tabs[k] == shown[i] && #[trigger] bar[i] == tab_model(
                        slots,
                        remote,
                        c,
                        w,
                        tabs[k],
                        k,
                    )
        }),
    decreases n,
{
    reveal(Seq::filter);
    if n > 0 {
        tab_positions_agree_upto(slots, remote, c, w, tabs, n - 1);
        let t = tabs[n - 1];
        panes_any(c, t);
        assert(tabs.take(n) =~= tabs.take(n - 1).push(t));
        tabs.take(n - 1).lemma_filter_push(t, tab_with_panes(c));
        let before = tab_models(slots, remote, c, w, tabs, n - 1);
        let bar = tab_models(slots, remote, c, w, tabs, n);
        let shown = tabs.take(n).filter(tab_with_panes(c));
        assert forall|i: int| 0 <= i < bar.len() implies exists|k: int|
            0 <= k < n && tabs[k] == shown[i] && #[trigger] bar[i] == tab_model(
                slots,
                remote,
                c,
                w,
                tabs[k],
                k,
            ) by {
            if i < before.len() {
                assert(bar[i] == before[i]);
                let k = choose|k: int|
                    0 <= k < n - 1 && tabs[k] == tabs.take(n - 1).filter(tab_with_panes(c))[i]
                        && before[i] == tab_model(slots, remote, c, w, tabs[k], k);
                assert(tabs[k] == shown[i]);
            } else {
                assert(tabs[n - 1] == shown[i]);
            }
        }
    }
}

/// How many of the first `n` composed workspaces belong to `remote`.
pub open spec fn owned_before(ids: ComposeIds, remote: usize, n: int) -> nat
    decreases n,
{
    if n <= 0 {
        0
    } else {
        owned_before(ids, remote, n - 1) + match ids.owner((n - 1) as usize) {
            Some((owner, _)) => if owner == remote {
                1nat
            } else {
                0nat
            },
            None => 0nat,
        }
    }
}

/// The owning remote and method of a chrome mouse action. Focus and moves go
/// to the owner of what was clicked; creation to the owner of the focus. A
/// workspace move is counted in its remote's own workspaces.
pub open spec fn mouse_intent(
    action: MouseAction,
    mirrors: Map<usize, MirrorModel>,
    ids: ComposeIds,
    app: AppState,
    fallback: usize,
) -> Option<(usize, MethodModel)> {
    match action {
        MouseAction::NewWorkspace => Some(
            (creation_target(app, ids, fallback), MethodModel::WorkspaceCreate { focus: true }),
        ),
        MouseAction::FocusWorkspace { ws_idx } => match ids.owner(ws_idx) {
            Some((remote, workspace_id)) => Some(
                (remote, MethodModel::WorkspaceFocus { workspace_id }),
            ),
            None => None,
        },
        MouseAction::FocusTab { tab_idx } => match app.active {
            Some(ws_idx) => match tab_at(mirrors, ids, ws_idx, tab_idx) {
                Some((remote, tab_id)) => Some((remote, MethodModel::TabFocus { tab_id })),
                None => None,
            },
            None => None,
        },
        MouseAction::FocusPane { pane_id } => match ids.public_of(pane_id) {
            Some((remote, public)) => Some((remote, MethodModel::PaneFocus { pane_id: public })),
            None => None,
        },
        MouseAction::MoveWorkspace { source_ws_idx, insert_idx } => match ids.owner(source_ws_idx) {
            Some((remote, workspace_id)) => {
                let shown = app.workspaces@.len();
                let n = if insert_idx < shown {
                    insert_idx as int
                } else {
                    shown as int
                };
                Some(
                    (
                        remote,
                        MethodModel::WorkspaceMove {
                            workspace_id,
                            insert_index: owned_before(ids, remote, n) as usize,
                        },
                    ),
                )
            },
            None => None,
        },
        MouseAction::MoveTab { ws_idx, source_tab_idx, insert_idx } => match tab_at(
            mirrors,
            ids,
            ws_idx,
            source_tab_idx,
        ) {
            Some((remote, tab_id)) => Some(
                (remote, MethodModel::TabMove { tab_id, insert_index: insert_idx }),
            ),
            None => None,
        },
        MouseAction::SetSplitRatio { path, ratio } => Some(
            (
                creation_target(app, ids, fallback),
                MethodModel::LayoutSetSplitRatio { path: path@, ratio: ratio@ },
            ),
        ),
        MouseAction::Other => None,
    }
}

/// The owner and public id of a composed tab.
pub open spec fn tab_at(
    mirrors: Map<usize, MirrorModel>,
    ids: ComposeIds,
    ws_idx: usize,
    tab_idx: usize,
) -> Option<(usize, Seq<char>)> {
    match ids.owner(ws_idx) {
        Some((remote, workspace)) => if mirrors.contains_key(remote) {
            match tab_public(mirrors[remote].catalog, workspace, tab_idx) {
                Some(tab) => Some((remote, tab)),
                None => None,
            }
        } else {
            None
        },
        None => None,
    }
}

/// The owner and public id of a composed tab.
pub fn find_tab(mirrors: &RemoteMirrors, ids: &ComposeIds, ws_idx: usize, tab_idx: usize) -> (r:
    Option<(usize, String)>)
    requires
        mirrors.wf(),
    ensures
        match r {
            Some((remote, tab)) => tab_at(mirrors@, *ids, ws_idx, tab_idx) == Some((remote, tab@)),
            None => tab_at(mirrors@, *ids, ws_idx, tab_idx) is None,
        },
{
    match ids.workspace_owner(ws_idx) {
        Some((remote, workspace)) => match mirrors.get(remote) {
            Some(mirror) => match composed_tab_public_id(&mirror.catalog, workspace, tab_idx) {
                Some(tab) => Some((remote, tab)),
                None => None,
            },
            None => None,
        },
        None => None,
    }
}

fn count_owned(ids: &ComposeIds, remote: usize, n: usize) -> (r: usize)
    ensures
        r == owned_before(*ids, remote, n as int),
        r <= n,
{
    let mut count: usize = 0;
    let mut i: usize = 0;
    while i < n
        invariant
            i <= n,
            count <= i,
            count == owned_before(*ids, remote, i as int),
        decreases n - i,
    {
        if let Some((owner, _)) = ids.workspace_owner(i) {
            if owner == remote {
                count = count + 1;
            }
        }
        i = i + 1;
    }
    count
}

/// The owning remote and method a chrome mouse action maps to, if any.
pub fn mouse_intent_method(
    action: MouseAction,
    mirrors: &RemoteMirrors,
    ids: &ComposeIds,
    app: &AppState,
    fallback_remote: usize,
) -> (r: Option<(usize, Method)>)
    requires
        mirrors.wf(),
    ensures
        intent_view(r) == mouse_intent(action, mirrors@, *ids, *app, fallback_remote),
{
    match action {
        MouseAction::NewWorkspace => Some(
            (
                creation_target_remote(app, ids, fallback_remote),
                Method::WorkspaceCreate { focus: true },
            ),
        ),
        MouseAction::FocusWorkspace { ws_idx } => match ids.workspace_owner(ws_idx) {
            Some((remote, public)) => Some(
                (remote, Method::WorkspaceFocus { workspace_id: public.to_owned() }),
            ),
            None => None,
        },
        MouseAction::FocusTab { tab_idx } => match app.active {
            Some(ws_idx) => match find_tab(mirrors, ids, ws_idx, tab_idx) {
                Some((remote, tab_id)) => Some((remote, Method::TabFocus { tab_id })),
                None => None,
            },
            None => None,
        },
        MouseAction::FocusPane { pane_id } => match ids.public_pane_id(pane_id) {
            Some((remote, public)) => Some(
                (remote, Method::PaneFocus { pane_id: public.to_owned() }),
            ),
            None => None,
        },
        MouseAction::MoveWorkspace { source_ws_idx, insert_idx } => match ids.workspace_owner(
            source_ws_idx,
        ) {
            Some((remote, public)) => {
                let shown: usize = app.workspaces.len();
                let n: usize = if insert_idx < shown {
                    insert_idx
                } else {
                    shown
                };
                Some(
                    (
                        remote,
                        Method::WorkspaceMove {
                            workspace_id: public.to_owned(),
                            insert_index: count_owned(ids, remote, n),
                        },
                    ),
                )
            },
            None => None,
        },
        MouseAction::MoveTab { ws_idx, source_tab_idx, insert_idx } => match find_tab(
            mirrors,
            ids,
            ws_idx,
            source_tab_idx,
        ) {
            Some((remote, tab_id)) => Some(
                (remote, Method::TabMove { tab_id, insert_index: insert_idx }),
            ),
            None => None,
        },
        MouseAction::SetSplitRatio { path, ratio } => Some(
            (
                creation_target_remote(app, ids, fallback_remote),
                Method::LayoutSetSplitRatio { path, ratio },
            ),
        ),
        MouseAction::Other => None,
    }
}

/// Modes that a click may leave the client in.
pub open spec fn click_may_leave(mode: Mode) -> bool {
    !(mode == Mode::Settings || mode == Mode::Navigator || mode == Mode::Worktree)
}

/// Resolves a chrome mouse action after hit testing. A mode that the client
/// does not interpret is taken back, so that no click opens a dead modal. The
/// client's focus follows the remote that the action goes to.
pub fn dispatch_mouse_intent(
    mode_before: Mode,
    action: Option<MouseAction>,
    mirrors: &RemoteMirrors,
    ids: &ComposeIds,
    descriptors: &[RemoteDescriptor],
    app: &mut AppState,
    chrome: &mut GlobalChrome,
) -> (r: Option<(usize, Method)>)
    requires
        mirrors.wf(),
        old(app).wf(),
        old(chrome).wf(),
    ensures
        final(app).wf(),
        final(chrome).wf(),
        *final(app) == if click_may_leave(old(app).mode) {
            *old(app)
        } else {
            AppState { mode: mode_before, context_menu_open: false, ..*old(app) }
        },
        intent_view(r) == match action {
            Some(a) => mouse_intent(
                a,
                mirrors@,
                *ids,
                *final(app),
                old(chrome).selection@.effective_focus(descriptors@),
            ),
            None => None,
        },
        focus_follows(*old(chrome), *final(chrome), r),
{
    match app.mode {
        Mode::Settings | Mode::Navigator | Mode::Worktree => {
            app.mode = mode_before;
            app.context_menu_open = false;
        },
        _ => {},
    }
    let fallback: usize = chrome.selection.effective_focused_remote(descriptors);
    let action = match action {
        Some(action) => action,
        None => {
            return None;
        },
    };
    let intent = mouse_intent_method(action, mirrors, ids, app, fallback);
    if let Some((remote, _)) = &intent {
        chrome.selection.focused_remote = *remote;
    }
    intent
}

/// The remote a modal's methods go to: the owner of the selected workspace.
pub open spec fn modal_target(app: AppState, ids: ComposeIds, fallback: usize) -> usize {
    match ids.owner(app.selected) {
        Some((remote, _)) => remote,
        None => fallback,
    }
}

/// The remote a modal's methods go to.
pub fn modal_target_remote(app: &AppState, ids: &ComposeIds, fallback: usize) -> (r: usize)
    ensures
        r == modal_target(*app, *ids, fallback),
{
    match ids.workspace_owner(app.selected) {
        Some((remote, _)) => remote,
        None => fallback,
    }
}

/// The public id of the workspace composed under `id`, or `id` itself.
pub open spec fn unscoped(app: AppState, ids: ComposeIds, id: Seq<char>) -> Seq<char> {
    let spaces = crate::client_state::compose::models(app.workspaces@);
    let i = first_index(spaces, workspace_with_id(id));
    if i < spaces.len() {
        match ids.owner(i as usize) {
            Some((_, public)) => public,
            None => id,
        }
    } else {
        id
    }
}

/// A method with its workspace named by the owner's public id.
pub open spec fn unscoped_method(app: AppState, ids: ComposeIds, m: MethodModel) -> MethodModel {
    match m {
        MethodModel::WorkspaceRename { workspace_id, label } => MethodModel::WorkspaceRename {
            workspace_id: unscoped(app, ids, workspace_id),
            label,
        },
        MethodModel::WorkspaceClose { workspace_id } => MethodModel::WorkspaceClose {
            workspace_id: unscoped(app, ids, workspace_id),
        },
        MethodModel::WorkspaceFocus { workspace_id } => MethodModel::WorkspaceFocus {
            workspace_id: unscoped(app, ids, workspace_id),
        },
        _ => m,
    }
}

fn unscope_id(app: &AppState, ids: &ComposeIds, id: String) -> (r: String)
    ensures
        r@ == unscoped(*app, *ids, id@),
{
    let ghost spaces = crate::client_state::compose::models(app.workspaces@);
    let mut i: usize = 0;
    while i < app.workspaces.len() && app.workspaces[i].id != id
        invariant
            i <= app.workspaces@.len(),
            spaces == crate::client_state::compose::models(app.workspaces@),
            forall|j: int| 0 <= j < i ==> !workspace_with_id(id@)(#[trigger] spaces[j]),
        decreases app.workspaces@.len() - i,
    {
        assert(spaces[i as int] == app.workspaces@[i as int]@);
        i = i + 1;
    }
    proof {
        if i < app.workspaces@.len() {
            assert(spaces[i as int] == app.workspaces@[i as int]@);
        }
        first_index_is(spaces, workspace_with_id(id@), i as int);
    }
    if i < app.workspaces.len() {
        match ids.workspace_owner(i) {
            Some((_, public)) => public.to_owned(),
            None => id,
        }
    } else {
        id
    }
}

/// Modal methods name workspaces by their composed ids; on the wire they
/// carry the owner's public ids.
pub fn unscope_workspace_methods(methods: Vec<Method>, app: &AppState, ids: &ComposeIds) -> (r: Vec<
    Method,
>)
    ensures
        r@.len() == methods@.len(),
        forall|i: int|
            0 <= i < r@.len() ==> (#[trigger] r@[i])@ == unscoped_method(
                *app,
                *ids,
                methods@[i]@,
            ),
{
    let ghost all = methods@;
    let mut rest = methods;
    let mut out: Vec<Method> = Vec::new();
    while rest.len() > 0
        invariant
            out@.len() <= all.len(),
            rest@ == all.skip(out@.len() as int),
            forall|i: int|
                0 <= i < out@.len() ==> (#[trigger] out@[i])@ == unscoped_method(
                    *app,
                    *ids,
                    all[i]@,
                ),
        decreases rest@.len(),
    {
        let ghost k = out@.len() as int;
        assert(rest@[0] == all[k]);
        let method = rest.remove(0);
        assert(rest@ =~= all.skip(k + 1));
        let method = match method {
            Method::WorkspaceRename { workspace_id, label } => Method::WorkspaceRename {
                workspace_id: unscope_id(app, ids, workspace_id),
                label,
            },
            Method::WorkspaceClose { workspace_id } => Method::WorkspaceClose {
                workspace_id: unscope_id(app, ids, workspace_id),
            },
            Method::WorkspaceFocus { workspace_id } => Method::WorkspaceFocus {
                workspace_id: unscope_id(app, ids, workspace_id),
            },
            other => other,
        };
        out.push(method);
    }
    out
}

/// Cycling forward and back returns to where it started, in a list without
/// repeats.
pub proof fn cycling_back_returns(list: Seq<Seq<char>>, current: Seq<char>)
    requires
        forall|i: int, j: int| 0 <= i < j < list.len() ==> list[i] != list[j],
        list.contains(current),
    ensures
        neighbour(list, current, true) matches Some(next) && neighbour(list, next, false) == Some(
            current,
        ),
{
    let i = choose|i: int| 0 <= i < list.len() && list[i] == current;
    assert forall|j: int| 0 <= j < i implies !is_text(current)(#[trigger] list[j]) by {
        assert(list[j] != list[i]);
    }
    first_index_is(list, is_text(current), i);
    let k = if i + 1 < list.len() {
        i + 1
    } else {
        0
    };
    let next = list[k];
    assert forall|j: int| 0 <= j < k implies !is_text(next)(#[trigger] list[j]) by {
        assert(list[j] != list[k]);
    }
    first_index_is(list, is_text(next), k);
}

} // verus!
