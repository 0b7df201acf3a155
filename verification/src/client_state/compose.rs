//! The rendered view as a pure composition of mirrors plus chrome. Every
//! in-view mirror is projected flat, in fleet order; ids of different remotes
//! are kept apart, and pane ids survive recomposition.
use crate::api::schema::{AgentStatus, PaneInfo, PaneLayoutSnapshot, TabInfo, WorkspaceInfo};
use crate::client_state::app_state::{
    views, views_insert, AgentState, AppState, KeyChord, Keybinds, Node, PaneState, PaneStateModel,
    RemoteTag, Tab, TabModel, TerminalState, TerminalStateModel, TileLayout, Toast, Workspace,
    WorkspaceModel,
};
use crate::client_state::catalog::{layout_of, CatalogModel, SessionCatalog};
use crate::client_state::chrome::GlobalChrome;
use crate::client_state::compose_ids::{
    catalog_known, catalog_known_stable, extends, focused_public, focused_public_id, grows, id_of,
    on_tab, retained, retained_one, ComposeIds, PaneSlot,
};
use crate::client_state::fleet_view::{
    chips_of, remote_chip_states, RemoteDescriptor, SelectionModel,
};
use crate::client_state::layout::{
    leftmost, leftmost_leaf, nest_panes, nested, rebuild_tree, tree_of,
};
use crate::client_state::mirror::{MirrorModel, RemoteMirror, RemoteMirrors, LOCAL_REMOTE_INDEX};
use crate::seqs::{derefs, first_index, first_index_is, first_match, pick};
use crate::sorted_map::SortedMap;
use crate::text::{copy_opt, decimal, decimal_text, digit, digit_value, opt_view, same};
use std::collections::BTreeMap;
use vstd::prelude::*;
use vstd::string::*;

verus! {

/// A server-scoped id made distinct per remote. The head's ids stay raw.
pub open spec fn scoped(remote_index: usize, id: Seq<char>) -> Seq<char> {
    if remote_index == LOCAL_REMOTE_INDEX {
        id
    } else {
        "r"@ + decimal(remote_index as nat) + ":"@ + id
    }
}

/// Namespaces a server-scoped id with its remote.
pub fn scoped_id(remote_index: usize, id: &str) -> (r: String)
    ensures
        r@ == scoped(remote_index, id@),
{
    if remote_index == LOCAL_REMOTE_INDEX {
        id.to_owned()
    } else {
        "r".to_owned().concat(decimal_text(remote_index as u64).as_str()).concat(":").concat(id)
    }
}

/// The composed-view id of a remote pane's terminal.
pub fn composed_terminal_id(remote_index: usize, terminal_id: &str) -> (r: String)
    ensures
        r@ == scoped(remote_index, terminal_id@),
{
    scoped_id(remote_index, terminal_id)
}

/// The digits of a number hold no colon.
proof fn decimal_has_no_colon(n: nat)
    ensures
        forall|i: int| 0 <= i < decimal(n).len() ==> #[trigger] decimal(n)[i] != ':',
        decimal(n).len() > 0,
    decreases n,
{
    if n >= 10 {
        decimal_has_no_colon(n / 10);
    }
}

proof fn decimal_value(n: nat)
    ensures
        value_of(decimal(n)) == n,
    decreases n,
{
    if n >= 10 {
        decimal_value(n / 10);
        assert(decimal(n).drop_last() =~= decimal(n / 10));
        assert(decimal(n).last() == digit(n % 10));
        assert(digit_value(digit(n % 10)) == Some(n % 10));
    } else {
        assert(decimal(n).drop_last() =~= Seq::<char>::empty());
        assert(value_of(Seq::<char>::empty()) == 0);
        assert(decimal(n).last() == digit(n));
        assert(digit_value(digit(n)) == Some(n));
    }
}

/// The number a run of digits stands for.
pub open spec fn value_of(t: Seq<char>) -> nat
    decreases t.len(),
{
    if t.len() == 0 {
        0
    } else {
        value_of(t.drop_last()) * 10 + match digit_value(t.last()) {
            Some(d) => d,
            None => 0,
        }
    }
}

/// Whether an id has the look of a scoped one: an `r` first, a colon somewhere.
pub open spec fn looks_scoped(id: Seq<char>) -> bool {
    id.len() > 0 && id[0] == 'r' && id.contains(':')
}

/// Ids of two remotes past the head never collide, and an id of the head that
/// does not look like a scoped one collides with none of them.
pub proof fn scoped_ids_never_collide(r1: usize, a: Seq<char>, r2: usize, b: Seq<char>)
    requires
        scoped(r1, a) == scoped(r2, b),
        r1 == LOCAL_REMOTE_INDEX && r2 != LOCAL_REMOTE_INDEX ==> !looks_scoped(a),
        r2 == LOCAL_REMOTE_INDEX && r1 != LOCAL_REMOTE_INDEX ==> !looks_scoped(b),
    ensures
        r1 == r2,
        a == b,
{
    reveal_strlit("r");
    reveal_strlit(":");
    let x = scoped(r1, a);
    if r1 != LOCAL_REMOTE_INDEX && r2 != LOCAL_REMOTE_INDEX {
        let d1 = decimal(r1 as nat);
        let d2 = decimal(r2 as nat);
        let n1 = d1.len() as int;
        let n2 = d2.len() as int;
        decimal_has_no_colon(r1 as nat);
        decimal_has_no_colon(r2 as nat);
        assert(x[1 + n1] == ':');
        assert(x[1 + n2] == ':');
        if d1.len() < d2.len() {
            assert(x[1 + n1] == d2[n1]);
        } else if d2.len() < d1.len() {
            assert(x[1 + n2] == d1[n2]);
        }
        assert(d1 =~= x.subrange(1, 1 + n1));
        assert(d2 =~= x.subrange(1, 1 + n2));
        decimal_value(r1 as nat);
        decimal_value(r2 as nat);
        assert(a =~= x.skip(2 + n1));
        assert(b =~= x.skip(2 + n2));
    } else if r1 != LOCAL_REMOTE_INDEX {
        assert(x[0] == 'r');
        assert(x[1 + decimal(r1 as nat).len() as int] == ':');
    } else if r2 != LOCAL_REMOTE_INDEX {
        assert(x[0] == 'r');
        assert(x[1 + decimal(r2 as nat).len() as int] == ':');
    }
}

/// The text after the last underscore, or all of it.
pub open spec fn after_last_underscore(t: Seq<char>) -> Seq<char>
    decreases t.len(),
{
    if t.len() == 0 {
        t
    } else if t.last() == '_' {
        Seq::empty()
    } else {
        after_last_underscore(t.drop_last()).push(t.last())
    }
}

/// A run of digits as a number that fits a machine word.
pub open spec fn digits_as_number(t: Seq<char>) -> Option<nat> {
    if t.len() > 0 && (forall|i: int|
        0 <= i < t.len() ==> digit_value(#[trigger] t[i]) is Some) && value_of(t) <= usize::MAX {
        Some(value_of(t))
    } else {
        None
    }
}

/// A run of digits, with an optional plus sign before it, as a number.
pub open spec fn number_in(t: Seq<char>) -> Option<nat> {
    if t.len() > 0 && t[0] == '+' {
        digits_as_number(t.skip(1))
    } else {
        digits_as_number(t)
    }
}

proof fn value_of_grows(t: Seq<char>, k: int)
    requires
        0 <= k <= t.len(),
    ensures
        value_of(t.take(k)) <= value_of(t),
    decreases t.len() - k,
{
    if k < t.len() {
        value_of_grows(t, k + 1);
        assert(t.take(k + 1).drop_last() =~= t.take(k));
    } else {
        assert(t.take(k) =~= t);
    }
}

proof fn after_last_is(t: Seq<char>, i: int)
    requires
        0 <= i <= t.len(),
        i > 0 ==> t[i - 1] == '_',
        forall|j: int| i <= j < t.len() ==> #[trigger] t[j] != '_',
    ensures
        after_last_underscore(t) == t.skip(i),
    decreases t.len(),
{
    if t.len() > 0 && t.last() != '_' {
        if i < t.len() {
            assert(t.last() == t[t.len() - 1]);
            after_last_is(t.drop_last(), i);
            assert(t.skip(i) =~= t.drop_last().skip(i).push(t.last()));
        }
    } else if t.len() > 0 {
        if i < t.len() {
            assert(t[t.len() - 1] != '_');
        }
        assert(t.skip(i) =~= Seq::empty());
    } else {
        assert(t.skip(i) =~= t);
    }
}

/// Trailing number of a public id such as `p_2_7`, for pane number badges.
pub fn public_id_number(public_id: &str) -> (r: Option<usize>)
    ensures
        match r {
            Some(n) => number_in(after_last_underscore(public_id@)) == Some(n as nat),
            None => number_in(after_last_underscore(public_id@)) is None,
        },
{
    let n: usize = public_id.unicode_len();
    let mut i: usize = n;
    while i > 0 && public_id.get_char(i - 1) != '_'
        invariant
            n == public_id@.len(),
            i <= n,
            forall|j: int| i <= j < n ==> #[trigger] public_id@[j] != '_',
        decreases i,
    {
        i = i - 1;
    }
    proof {
        after_last_is(public_id@, i as int);
    }
    let ghost tail = public_id@.skip(i as int);
    let mut k: usize = i;
    if k < n && public_id.get_char(k) == '+' {
        k = k + 1;
    }
    let ghost digits = if tail.len() > 0 && tail[0] == '+' {
        tail.skip(1)
    } else {
        tail
    };
    assert(digits =~= public_id@.skip(k as int));
    if k == n {
        return None;
    }
    let ghost start = k as int;
    let mut value: usize = 0;
    assert(digits.take(0) =~= Seq::empty());
    while k < n
        invariant
            n == public_id@.len(),
            start <= k <= n,
            start < n,
            digits == public_id@.skip(start),
            0 <= start,
            number_in(after_last_underscore(public_id@)) == digits_as_number(digits),
            value == value_of(digits.take(k - start)),
            forall|j: int| 0 <= j < k - start ==> digit_value(#[trigger] digits[j]) is Some,
        decreases n - k,
    {
        let c: char = public_id.get_char(k);
        assert(digits[k - start] == c);
        if !('0' <= c && c <= '9') {
            assert(digit_value(digits[k - start]) is None);
            return None;
        }
        let d: usize = (c as u32 - '0' as u32) as usize;
        proof {
            value_of_grows(digits, k - start + 1);
            assert(digits.take(k - start + 1).drop_last() =~= digits.take(k - start));
            assert(digits.take(k - start + 1).last() == c);
            assert(value_of(digits.take(k - start + 1)) == value * 10 + d);
        }
        if value > (usize::MAX - d) / 10 {
            assert(value * 10 + d > usize::MAX);
            return None;
        }
        value = value * 10 + d;
        k = k + 1;
    }
    assert(digits.take(k - start) =~= digits);
    Some(value)
}

/// A number that was spelled out is read back.
pub proof fn numbers_read_back(n: nat)
    requires
        n <= usize::MAX,
    ensures
        number_in(decimal(n)) == Some(n),
{
    decimal_value(n);
    crate::text_laws::numbers_spell_themselves(n);
    assert forall|i: int| 0 <= i < decimal(n).len() implies digit_value(
        #[trigger] decimal(n)[i],
    ) is Some by {}
}

/// The agent's state as the sidebar shows it: done work is idle.
pub open spec fn agent_state(status: AgentStatus) -> AgentState {
    match status {
        AgentStatus::Idle => AgentState::Idle,
        AgentStatus::Done => AgentState::Idle,
        AgentStatus::Working => AgentState::Working,
        AgentStatus::Blocked => AgentState::Blocked,
        AgentStatus::Unknown => AgentState::Unknown,
    }
}

/// Terminal metadata of a catalog pane.
pub open spec fn terminal_of(pane: PaneInfo) -> TerminalStateModel {
    TerminalStateModel {
        cwd: match pane.cwd {
            Some(d) => d@,
            None => "/"@,
        },
        terminal_title: opt_view(pane.terminal_title),
        manual_label: opt_view(pane.label),
        agent_name: match pane.display_agent {
            Some(a) => Some(a@),
            None => opt_view(pane.agent),
        },
        state: agent_state(pane.agent_status),
        revision: pane.revision,
    }
}

/// Maps a catalog pane to the plain terminal metadata the sidebar reads.
pub fn terminal_state_for(pane: &PaneInfo) -> (r: TerminalState)
    ensures
        r@ == terminal_of(*pane),
{
    TerminalState {
        cwd: match &pane.cwd {
            Some(d) => d.clone(),
            None => "/".to_owned(),
        },
        terminal_title: copy_opt(&pane.terminal_title),
        manual_label: copy_opt(&pane.label),
        agent_name: match &pane.display_agent {
            Some(a) => Some(a.clone()),
            None => copy_opt(&pane.agent),
        },
        state: match pane.agent_status {
            AgentStatus::Idle | AgentStatus::Done => AgentState::Idle,
            AgentStatus::Working => AgentState::Working,
            AgentStatus::Blocked => AgentState::Blocked,
            AgentStatus::Unknown => AgentState::Unknown,
        },
        revision: pane.revision,
    }
}

/// The composed ids of catalog panes.
pub open spec fn pane_ids(slots: Seq<PaneSlot>, remote: usize, panes: Seq<PaneInfo>) -> Seq<usize> {
    panes.map_values(|p: PaneInfo| id_of(slots, remote, p.pane_id@))
}

pub open spec fn pane_called(id: Seq<char>) -> spec_fn(PaneInfo) -> bool {
    |p: PaneInfo| p.pane_id@ == id
}

/// The snapshot lists as many panes as the tab has, each of them the tab's.
pub open spec fn snapshot_fits(snapshot: PaneLayoutSnapshot, panes: Seq<PaneInfo>) -> bool {
    &&& snapshot.panes@.len() == panes.len()
    &&& forall|i: int|
        0 <= i < snapshot.panes@.len() ==> crate::seqs::any(
            panes,
            pane_called((#[trigger] snapshot.panes@[i]).pane_id@),
        )
}

/// The snapshot's leaves as composed ids.
pub open spec fn leaf_ids(slots: Seq<PaneSlot>, remote: usize, snapshot: PaneLayoutSnapshot) -> Seq<
    usize,
> {
    Seq::new(
        snapshot.panes@.len(),
        |i: int| id_of(slots, remote, snapshot.panes@[i].pane_id@),
    )
}

/// A tab's split tree: the exported one where it fits the tab's panes, else
/// the panes in nested even splits.
pub open spec fn tab_tree(
    slots: Seq<PaneSlot>,
    remote: usize,
    panes: Seq<PaneInfo>,
    snapshot: Option<PaneLayoutSnapshot>,
) -> Node {
    let exported = match snapshot {
        Some(s) => if snapshot_fits(s, panes) {
            tree_of(s.splits@, leaf_ids(slots, remote, s))
        } else {
            None
        },
        None => None,
    };
    match exported {
        Some(root) => root,
        None => nested(pane_ids(slots, remote, panes)),
    }
}

/// A tab's layout: its tree, focused where the catalog says.
pub open spec fn tab_layout(
    slots: Seq<PaneSlot>,
    remote: usize,
    panes: Seq<PaneInfo>,
    snapshot: Option<PaneLayoutSnapshot>,
) -> TileLayout {
    TileLayout {
        root: tab_tree(slots, remote, panes, snapshot),
        focus: match focused_public(panes, snapshot) {
            Some(public) => id_of(slots, remote, public),
            None => pane_ids(slots, remote, panes)[0],
        },
    }
}

/// Composed pane states by id.
pub open spec fn pane_states(slots: Seq<PaneSlot>, remote: usize, panes: Seq<PaneInfo>) -> Map<
    usize,
    PaneStateModel,
>
    decreases panes.len(),
{
    if panes.len() == 0 {
        Map::empty()
    } else {
        let p = panes.last();
        pane_states(slots, remote, panes.drop_last()).insert(
            id_of(slots, remote, p.pane_id@),
            PaneStateModel {
                terminal_id: scoped(remote, p.terminal_id@),
                seen: p.agent_status != AgentStatus::Done,
            },
        )
    }
}

/// Pane number badges by id, for the panes whose public id ends in a number.
pub open spec fn pane_numbers(slots: Seq<PaneSlot>, remote: usize, panes: Seq<PaneInfo>) -> Map<
    usize,
    usize,
>
    decreases panes.len(),
{
    if panes.len() == 0 {
        Map::empty()
    } else {
        let p = panes.last();
        let before = pane_numbers(slots, remote, panes.drop_last());
        match number_in(after_last_underscore(p.pane_id@)) {
            Some(n) => before.insert(id_of(slots, remote, p.pane_id@), n as usize),
            None => before,
        }
    }
}

/// Terminal metadata by composed terminal id, added to what is there.
pub open spec fn with_terminals(
    m: Map<Seq<char>, TerminalStateModel>,
    remote: usize,
    panes: Seq<PaneInfo>,
) -> Map<Seq<char>, TerminalStateModel>
    decreases panes.len(),
{
    if panes.len() == 0 {
        m
    } else {
        with_terminals(m, remote, panes.drop_last()).insert(
            scoped(remote, panes.last().terminal_id@),
            terminal_of(panes.last()),
        )
    }
}

/// A tab's own name, unless it is empty or the default for its place.
pub open spec fn custom_name(label: Seq<char>, number: nat) -> Option<Seq<char>> {
    if label.len() == 0 || label == "tab "@ + decimal(number) {
        None
    } else {
        Some(label)
    }
}

/// The composed tab at place `idx` of its workspace.
pub open spec fn tab_model(
    slots: Seq<PaneSlot>,
    remote: usize,
    c: CatalogModel,
    workspace: WorkspaceInfo,
    tab: TabInfo,
    idx: int,
) -> TabModel {
    let panes = c.panes.filter(on_tab(tab.tab_id@));
    let snapshot = first_match(c.layouts, layout_of(workspace.workspace_id@, tab.tab_id@));
    let layout = tab_layout(slots, remote, panes, snapshot);
    TabModel {
        number: (idx + 1) as usize,
        custom_name: custom_name(tab.label@, (idx + 1) as nat),
        root_pane: leftmost(layout.root),
        layout,
        panes: pane_states(slots, remote, panes),
        zoomed: snapshot matches Some(s) && s.zoomed,
    }
}

pub open spec fn tab_within(workspace: Seq<char>) -> spec_fn(TabInfo) -> bool {
    |t: TabInfo| t.workspace_id@ == workspace
}

/// Whether any pane of the catalog is on the tab.
pub open spec fn has_panes(c: CatalogModel, tab: TabInfo) -> bool {
    c.panes.filter(on_tab(tab.tab_id@)).len() > 0
}

/// The composed tabs of a workspace's first `n` tabs: those with panes.
pub open spec fn tab_models(
    slots: Seq<PaneSlot>,
    remote: usize,
    c: CatalogModel,
    workspace: WorkspaceInfo,
    tabs: Seq<TabInfo>,
    n: int,
) -> Seq<TabModel>
    decreases n,
{
    if n <= 0 {
        Seq::empty()
    } else {
        let before = tab_models(slots, remote, c, workspace, tabs, n - 1);
        if has_panes(c, tabs[n - 1]) {
            before.push(tab_model(slots, remote, c, workspace, tabs[n - 1], n - 1))
        } else {
            before
        }
    }
}

/// The active composed tab: the last that the workspace names active or that
/// is flagged focused, else the first.
pub open spec fn active_tab(
    c: CatalogModel,
    workspace: WorkspaceInfo,
    tabs: Seq<TabInfo>,
    n: int,
) -> nat
    decreases n,
{
    if n <= 0 {
        0
    } else if has_panes(c, tabs[n - 1]) && (tabs[n - 1].tab_id@ == workspace.active_tab_id@
        || tabs[n - 1].focused) {
        composed_before(c, tabs, n - 1)
    } else {
        active_tab(c, workspace, tabs, n - 1)
    }
}

/// How many of the first `n` tabs are composed.
pub open spec fn composed_before(c: CatalogModel, tabs: Seq<TabInfo>, n: int) -> nat
    decreases n,
{
    if n <= 0 {
        0
    } else {
        composed_before(c, tabs, n - 1) + if has_panes(c, tabs[n - 1]) {
            1nat
        } else {
            0nat
        }
    }
}

/// The panes of a workspace's first `n` tabs, tab by tab.
pub open spec fn panes_of_tabs(c: CatalogModel, tabs: Seq<TabInfo>, n: int) -> Seq<PaneInfo>
    decreases n,
{
    if n <= 0 {
        Seq::empty()
    } else {
        panes_of_tabs(c, tabs, n - 1) + c.panes.filter(on_tab(tabs[n - 1].tab_id@))
    }
}

/// A workspace's tabs.
pub open spec fn tabs_of(c: CatalogModel, w: WorkspaceInfo) -> Seq<TabInfo> {
    c.tabs.filter(tab_within(w.workspace_id@))
}

pub open spec fn workspace_model(
    slots: Seq<PaneSlot>,
    remote: usize,
    c: CatalogModel,
    w: WorkspaceInfo,
) -> WorkspaceModel {
    let tabs = tabs_of(c, w);
    WorkspaceModel {
        id: scoped(remote, w.workspace_id@),
        label: w.label@,
        tabs: tab_models(slots, remote, c, w, tabs, tabs.len() as int),
        active_tab: active_tab(c, w, tabs, tabs.len() as int) as usize,
        pane_numbers: pane_numbers(slots, remote, panes_of_tabs(c, tabs, tabs.len() as int)),
    }
}

/// Whether the workspace shows any tab.
pub open spec fn is_composed(c: CatalogModel, w: WorkspaceInfo) -> bool {
    composed_before(c, tabs_of(c, w), tabs_of(c, w).len() as int) > 0
}

/// The composed workspaces of the first `n`, in catalog order.
pub open spec fn workspace_models(
    slots: Seq<PaneSlot>,
    remote: usize,
    c: CatalogModel,
    n: int,
) -> Seq<WorkspaceModel>
    decreases n,
{
    if n <= 0 {
        Seq::empty()
    } else {
        let before = workspace_models(slots, remote, c, n - 1);
        if is_composed(c, c.workspaces[n - 1]) {
            before.push(workspace_model(slots, remote, c, c.workspaces[n - 1]))
        } else {
            before
        }
    }
}

/// The public ids of the composed workspaces.
pub open spec fn composed_publics(c: CatalogModel, n: int) -> Seq<Seq<char>>
    decreases n,
{
    if n <= 0 {
        Seq::empty()
    } else {
        let before = composed_publics(c, n - 1);
        if is_composed(c, c.workspaces[n - 1]) {
            before.push(c.workspaces[n - 1].workspace_id@)
        } else {
            before
        }
    }
}

/// All panes the first `n` workspaces show, with terminal metadata added.
pub open spec fn catalog_terminals(
    m: Map<Seq<char>, TerminalStateModel>,
    remote: usize,
    c: CatalogModel,
    n: int,
) -> Map<Seq<char>, TerminalStateModel>
    decreases n,
{
    if n <= 0 {
        m
    } else {
        let tabs = tabs_of(c, c.workspaces[n - 1]);
        with_terminals(
            catalog_terminals(m, remote, c, n - 1),
            remote,
            panes_of_tabs(c, tabs, tabs.len() as int),
        )
    }
}

/// The composed id of the catalog's focused workspace, when it is composed.
pub open spec fn focused_workspace(remote: usize, c: CatalogModel) -> Option<Seq<char>> {
    match c.focused_workspace_id {
        Some(id) => if composed_publics(c, c.workspaces.len() as int).contains(id) {
            Some(scoped(remote, id))
        } else {
            None
        },
        None => None,
    }
}

/// Builds one tab's layout.
fn build_tab_layout(
    ids: &ComposeIds,
    remote: usize,
    panes: &Vec<&PaneInfo>,
    snapshot: Option<&PaneLayoutSnapshot>,
) -> (r: TileLayout)
    requires
        panes@.len() > 0,
    ensures
        r == tab_layout(
            ids.slots@,
            remote,
            derefs(panes@),
            match snapshot {
                Some(s) => Some(*s),
                None => None,
            },
        ),
{
    let ghost all = derefs(panes@);
    let mut own: Vec<usize> = Vec::new();
    let mut i: usize = 0;
    while i < panes.len()
        invariant
            i <= panes@.len(),
            all == derefs(panes@),
            own@.len() == i,
            forall|j: int|
                0 <= j < i ==> #[trigger] own@[j] == id_of(ids.slots@, remote, all[j].pane_id@),
        decreases panes@.len() - i,
    {
        assert(all[i as int] == *panes@[i as int]);
        own.push(ids.position(remote, panes[i].pane_id.as_str()));
        i = i + 1;
    }
    assert(own@ =~= pane_ids(ids.slots@, remote, all));
    let focus: usize = match focused_public_id(panes, snapshot) {
        Some(public) => ids.position(remote, public),
        None => own[0],
    };
    let exported: Option<Node> = match snapshot {
        Some(s) => layout_from_snapshot(ids, remote, s, panes),
        None => None,
    };
    let root = match exported {
        Some(root) => root,
        None => nest_panes(&own),
    };
    TileLayout { root, focus }
}

/// The exported tree, where the snapshot fits the tab.
fn layout_from_snapshot(
    ids: &ComposeIds,
    remote: usize,
    snapshot: &PaneLayoutSnapshot,
    panes: &Vec<&PaneInfo>,
) -> (r: Option<Node>)
    ensures
        r == if snapshot_fits(*snapshot, derefs(panes@)) {
            tree_of(snapshot.splits@, leaf_ids(ids.slots@, remote, *snapshot))
        } else {
            None
        },
{
    let ghost all = derefs(panes@);
    if snapshot.panes.len() != panes.len() {
        return None;
    }
    let mut leaves: Vec<usize> = Vec::new();
    let mut i: usize = 0;
    while i < snapshot.panes.len()
        invariant
            i <= snapshot.panes@.len(),
            all == derefs(panes@),
            leaves@.len() == i,
            forall|j: int|
                0 <= j < i ==> #[trigger] leaves@[j] == id_of(
                    ids.slots@,
                    remote,
                    snapshot.panes@[j].pane_id@,
                ),
            forall|j: int|
                0 <= j < i ==> crate::seqs::any(
                    all,
                    pane_called((#[trigger] snapshot.panes@[j]).pane_id@),
                ),
        decreases snapshot.panes@.len() - i,
    {
        if !lists_pane(panes, snapshot.panes[i].pane_id.as_str()) {
            assert(!crate::seqs::any(all, pane_called(snapshot.panes@[i as int].pane_id@)));
            return None;
        }
        leaves.push(ids.position(remote, snapshot.panes[i].pane_id.as_str()));
        i = i + 1;
    }
    assert(leaves@ =~= leaf_ids(ids.slots@, remote, *snapshot));
    rebuild_tree(&snapshot.splits, &leaves)
}

fn lists_pane(panes: &Vec<&PaneInfo>, id: &str) -> (r: bool)
    ensures
        r == crate::seqs::any(derefs(panes@), pane_called(id@)),
{
    let ghost all = derefs(panes@);
    let mut i: usize = 0;
    while i < panes.len()
        invariant
            i <= panes@.len(),
            all == derefs(panes@),
            forall|j: int| 0 <= j < i ==> !pane_called(id@)(#[trigger] all[j]),
        decreases panes@.len() - i,
    {
        assert(all[i as int] == *panes@[i as int]);
        if same(panes[i].pane_id.as_str(), id) {
            assert(pane_called(id@)(all[i as int]));
            return true;
        }
        i = i + 1;
    }
    false
}

/// Projects one tab. Badges and terminal metadata of its panes are added.
fn project_tab(
    catalog: &SessionCatalog,
    remote: usize,
    ids: &ComposeIds,
    workspace: &WorkspaceInfo,
    tab: &TabInfo,
    idx: usize,
    numbers: &mut BTreeMap<usize, usize>,
    terminals: &mut SortedMap<String, TerminalState>,
    Ghost(shown): Ghost<Seq<PaneInfo>>,
    Ghost(base): Ghost<Map<Seq<char>, TerminalStateModel>>,
) -> (r: Option<Tab>)
    requires
        idx < usize::MAX,
        old(terminals).wf(),
        old(numbers)@ == pane_numbers(ids.slots@, remote, shown),
        views(old(terminals)@) == with_terminals(base, remote, shown),
    ensures
        final(terminals).wf(),
        final(numbers)@ == pane_numbers(
            ids.slots@,
            remote,
            shown + catalog@.panes.filter(on_tab(tab.tab_id@)),
        ),
        views(final(terminals)@) == with_terminals(
            base,
            remote,
            shown + catalog@.panes.filter(on_tab(tab.tab_id@)),
        ),
        match r {
            Some(t) => has_panes(catalog@, *tab) && t@ == tab_model(
                ids.slots@,
                remote,
                catalog@,
                *workspace,
                *tab,
                idx as int,
            ),
            None => !has_panes(catalog@, *tab),
        },
{
    let test = |p: &PaneInfo| -> (b: bool)
        ensures
            b == (p.tab_id@ == tab.tab_id@),
        { same(p.tab_id.as_str(), tab.tab_id.as_str()) };
    let panes = pick(catalog.panes.as_slice(), test, Ghost(on_tab(tab.tab_id@)));
    let ghost all = catalog@.panes.filter(on_tab(tab.tab_id@));
    if panes.len() == 0 {
        assert(shown + all =~= shown);
        return None;
    }
    let snapshot = catalog.layout(workspace.workspace_id.as_str(), tab.tab_id.as_str());
    let layout = build_tab_layout(ids, remote, &panes, snapshot);
    let zoomed: bool = match snapshot {
        Some(s) => s.zoomed,
        None => false,
    };
    let mut states: BTreeMap<usize, PaneState> = BTreeMap::new();
    let mut i: usize = 0;
    proof {
        assert(all.take(0) =~= Seq::empty());
        assert(shown + all.take(0) =~= shown);
        assert(views(states@) =~= Map::<usize, PaneStateModel>::empty());
    }
    while i < panes.len()
        invariant
            i <= panes@.len(),
            panes@.len() == all.len(),
            forall|j: int| 0 <= j < panes@.len() ==> *(#[trigger] panes@[j]) == all[j],
            terminals.wf(),
            views(states@) == pane_states(ids.slots@, remote, all.take(i as int)),
            numbers@ == pane_numbers(ids.slots@, remote, shown + all.take(i as int)),
            views(terminals@) == with_terminals(base, remote, shown + all.take(i as int)),
        decreases panes@.len() - i,
    {
        let pane = panes[i];
        let id: usize = ids.position(remote, pane.pane_id.as_str());
        proof {
            assert(*panes@[i as int] == all[i as int]);
            assert(all.take(i + 1).drop_last() =~= all.take(i as int));
            assert(all.take(i + 1).last() == *pane);
            assert((shown + all.take(i + 1)).drop_last() =~= shown + all.take(i as int));
            assert((shown + all.take(i + 1)).last() == *pane);
        }
        let state = PaneState {
            terminal_id: composed_terminal_id(remote, pane.terminal_id.as_str()),
            seen: pane.agent_status != AgentStatus::Done,
        };
        proof {
            views_insert(states@, id, state);
        }
        states.insert(id, state);
        if let Some(number) = public_id_number(pane.pane_id.as_str()) {
            numbers.insert(id, number);
        }
        let terminal_id = composed_terminal_id(remote, pane.terminal_id.as_str());
        let terminal = terminal_state_for(pane);
        proof {
            views_insert(terminals@, terminal_id@, terminal);
        }
        terminals.insert(terminal_id, terminal);
        i = i + 1;
    }
    assert(all.take(i as int) =~= all);
    assert(derefs(panes@) =~= all);
    let default_name = "tab ".to_owned().concat(decimal_text((idx + 1) as u64).as_str());
    let custom: Option<String> = if tab.label.as_str().is_empty() || tab.label == default_name {
        None
    } else {
        Some(tab.label.clone())
    };
    let root_pane: usize = leftmost_leaf(&layout.root);
    Some(Tab { number: idx + 1, custom_name: custom, root_pane, layout, panes: states, zoomed })
}

proof fn tab_models_len(
    slots: Seq<PaneSlot>,
    remote: usize,
    c: CatalogModel,
    w: WorkspaceInfo,
    tabs: Seq<TabInfo>,
    n: int,
)
    ensures
        tab_models(slots, remote, c, w, tabs, n).len() == composed_before(c, tabs, n),
    decreases n,
{
    if n > 0 {
        tab_models_len(slots, remote, c, w, tabs, n - 1);
    }
}

proof fn with_terminals_splits(
    m: Map<Seq<char>, TerminalStateModel>,
    remote: usize,
    a: Seq<PaneInfo>,
    b: Seq<PaneInfo>,
)
    ensures
        with_terminals(m, remote, a + b) == with_terminals(with_terminals(m, remote, a), remote, b),
    decreases b.len(),
{
    if b.len() > 0 {
        with_terminals_splits(m, remote, a, b.drop_last());
        assert((a + b).drop_last() =~= a + b.drop_last());
    } else {
        assert(a + b =~= a);
    }
}

/// Projects one workspace, if any of its tabs has panes.
fn project_workspace(
    catalog: &SessionCatalog,
    remote: usize,
    ids: &ComposeIds,
    workspace: &WorkspaceInfo,
    terminals: &mut SortedMap<String, TerminalState>,
) -> (r: Option<Workspace>)
    requires
        old(terminals).wf(),
    ensures
        final(terminals).wf(),
        views(final(terminals)@) == with_terminals(
            views(old(terminals)@),
            remote,
            panes_of_tabs(
                catalog@,
                tabs_of(catalog@, *workspace),
                tabs_of(catalog@, *workspace).len() as int,
            ),
        ),
        match r {
            Some(w) => is_composed(catalog@, *workspace) && w@ == workspace_model(
                ids.slots@,
                remote,
                catalog@,
                *workspace,
            ),
            None => !is_composed(catalog@, *workspace),
        },
{
    let ghost c = catalog@;
    let ghost base = views(terminals@);
    let test = |t: &TabInfo| -> (b: bool)
        ensures
            b == (t.workspace_id@ == workspace.workspace_id@),
        { same(t.workspace_id.as_str(), workspace.workspace_id.as_str()) };
    let own = pick(catalog.tabs.as_slice(), test, Ghost(tab_within(workspace.workspace_id@)));
    let ghost all = tabs_of(c, *workspace);
    let mut tabs: Vec<Tab> = Vec::new();
    let mut numbers: BTreeMap<usize, usize> = BTreeMap::new();
    let mut active: usize = 0;
    let mut i: usize = 0;
    assert(tabs@.map_values(|t: Tab| t@) =~= Seq::<TabModel>::empty());
    while i < own.len()
        invariant
            c == catalog@,
            all == tabs_of(c, *workspace),
            i <= own@.len(),
            own@.len() == all.len(),
            forall|j: int| 0 <= j < own@.len() ==> *(#[trigger] own@[j]) == all[j],
            terminals.wf(),
            tabs@.len() == composed_before(c, all, i as int),
            tabs@.map_values(|t: Tab| t@) == tab_models(
                ids.slots@,
                remote,
                c,
                *workspace,
                all,
                i as int,
            ),
            active == active_tab(c, *workspace, all, i as int),
            numbers@ == pane_numbers(ids.slots@, remote, panes_of_tabs(c, all, i as int)),
            views(terminals@) == with_terminals(base, remote, panes_of_tabs(c, all, i as int)),
        decreases own@.len() - i,
    {
        let tab = own[i];
        let ghost shown = panes_of_tabs(c, all, i as int);
        let ghost was = tabs@;
        assert(*own@[i as int] == all[i as int]);
        let projected = project_tab(
            catalog,
            remote,
            ids,
            workspace,
            tab,
            i,
            &mut numbers,
            terminals,
            Ghost(shown),
            Ghost(base),
        );
        if let Some(t) = projected {
            if tab.tab_id == workspace.active_tab_id || tab.focused {
                active = tabs.len();
            }
            tabs.push(t);
            assert(tabs@.map_values(|t: Tab| t@) =~= was.map_values(|t: Tab| t@).push(t@));
        }
        i = i + 1;
    }
    proof {
        tab_models_len(ids.slots@, remote, c, *workspace, all, all.len() as int);
    }
    if tabs.len() == 0 {
        return None;
    }
    Some(
        Workspace {
            id: scoped_id(remote, workspace.workspace_id.as_str()),
            label: workspace.label.clone(),
            tabs,
            active_tab: active,
            pane_numbers: numbers,
        },
    )
}

/// What one mirror adds to the view.
pub struct MirrorProjection {
    /// The composed workspaces, in catalog order.
    pub workspaces: Vec<Workspace>,
    /// Public id of each composed workspace.
    pub workspace_publics: Vec<String>,
    /// Composed id of the mirror's focused workspace, when it is composed.
    pub focused_workspace: Option<String>,
}

/// Views of workspaces.
pub open spec fn models(w: Seq<Workspace>) -> Seq<WorkspaceModel> {
    w.map_values(|x: Workspace| x@)
}

/// Projects one mirror's catalog, with all ids scoped to its remote.
/// Terminal metadata is added to what other mirrors contributed.
pub fn project_mirror(
    mirror: &RemoteMirror,
    remote: usize,
    ids: &ComposeIds,
    terminals: &mut SortedMap<String, TerminalState>,
) -> (r: MirrorProjection)
    requires
        old(terminals).wf(),
        catalog_known(ids.slots@, remote, mirror@.catalog),
    ensures
        final(terminals).wf(),
        models(r.workspaces@) == workspace_models(
            ids.slots@,
            remote,
            mirror@.catalog,
            mirror@.catalog.workspaces.len() as int,
        ),
        crate::text::texts(r.workspace_publics@) == composed_publics(
            mirror@.catalog,
            mirror@.catalog.workspaces.len() as int,
        ),
        opt_view(r.focused_workspace) == focused_workspace(remote, mirror@.catalog),
        views(final(terminals)@) == catalog_terminals(
            views(old(terminals)@),
            remote,
            mirror@.catalog,
            mirror@.catalog.workspaces.len() as int,
        ),
        r.workspaces@.len() == r.workspace_publics@.len(),
{
    let catalog = &mirror.catalog;
    let ghost c = catalog@;
    let ghost base = views(terminals@);
    let mut workspaces: Vec<Workspace> = Vec::new();
    let mut publics: Vec<String> = Vec::new();
    let mut i: usize = 0;
    proof {
        assert(models(workspaces@) =~= Seq::<WorkspaceModel>::empty());
        assert(crate::text::texts(publics@) =~= Seq::<Seq<char>>::empty());
    }
    while i < catalog.workspaces.len()
        invariant
            c == catalog@,
            c == mirror@.catalog,
            i <= c.workspaces.len(),
            terminals.wf(),
            workspaces@.len() == publics@.len(),
            models(workspaces@) == workspace_models(ids.slots@, remote, c, i as int),
            crate::text::texts(publics@) == composed_publics(c, i as int),
            views(terminals@) == catalog_terminals(base, remote, c, i as int),
        decreases c.workspaces.len() - i,
    {
        let info = &catalog.workspaces[i];
        let ghost was = workspaces@;
        let ghost named = publics@;
        if let Some(w) = project_workspace(catalog, remote, ids, info, terminals) {
            publics.push(info.workspace_id.clone());
            workspaces.push(w);
            assert(models(workspaces@) =~= models(was).push(w@));
            assert(crate::text::texts(publics@) =~= crate::text::texts(named).push(
                info.workspace_id@,
            ));
        }
        i = i + 1;
    }
    let focused: Option<String> = match &catalog.focused_workspace_id {
        Some(id) => {
            if crate::text::list_holds(&publics, id.as_str()) {
                proof {
                    let k = choose|k: int|
                        0 <= k < publics@.len() && (#[trigger] publics@[k])@ == id@;
                    assert(crate::text::texts(publics@)[k] == id@);
                }
                Some(scoped_id(remote, id.as_str()))
            } else {
                proof {
                    if composed_publics(c, c.workspaces.len() as int).contains(id@) {
                        let k = choose|k: int|
                            0 <= k < publics@.len() && crate::text::texts(publics@)[k] == id@;
                        assert(publics@[k]@ == id@);
                    }
                }
                None
            }
        },
        None => None,
    };
    MirrorProjection { workspaces, workspace_publics: publics, focused_workspace: focused }
}

pub open spec fn workspace_with_id(id: Seq<char>) -> spec_fn(WorkspaceModel) -> bool {
    |w: WorkspaceModel| w.id == id
}

/// The active workspace: the focused one where it is composed, else the first.
pub open spec fn active_of(spaces: Seq<WorkspaceModel>, focused: Option<Seq<char>>) -> Option<
    usize,
> {
    let found = match focused {
        Some(id) => if first_index(spaces, workspace_with_id(id)) < spaces.len() {
            Some(first_index(spaces, workspace_with_id(id)) as usize)
        } else {
            None
        },
        None => None,
    };
    match found {
        Some(i) => Some(i),
        None => if spaces.len() == 0 {
            None
        } else {
            Some(0)
        },
    }
}

/// The composed part of a view.
pub struct Composition {
    pub workspaces: Seq<WorkspaceModel>,
    pub terminals: Map<Seq<char>, TerminalStateModel>,
    pub focused: Option<Seq<char>>,
    pub context: Seq<char>,
}

/// The view shows the composition and the chrome, and keeps the rest.
pub open spec fn shows(was: AppState, now: AppState, c: Composition, chrome: GlobalChrome) -> bool {
    &&& models(now.workspaces@) == c.workspaces
    &&& views(now.terminals@) == c.terminals
    &&& now.active == active_of(c.workspaces, c.focused)
    &&& now.selected == match now.active {
        Some(i) => i,
        None => 0,
    }
    &&& now.sidebar_collapsed == chrome.sidebar_collapsed
    &&& now.workspace_scroll == chrome.workspace_scroll
    &&& now.agent_panel_scroll == chrome.agent_panel_scroll
    &&& now.tab_scroll == chrome.tab_scroll
    &&& match (now.toast, chrome.connection_status) {
        (Some(t), Some(s)) => t.title@ == s@ && t.context@ == c.context,
        (None, None) => true,
        _ => false,
    }
    &&& now.mode == was.mode
    &&& now.should_quit == was.should_quit
    &&& now.keybinds == was.keybinds
    &&& now.prefix_key == was.prefix_key
    &&& now.fleet_config_backed == was.fleet_config_backed
    &&& now.request_add_remote == was.request_add_remote
    &&& now.request_manage_remotes == was.request_manage_remotes
    &&& now.request_history_top_backfill == was.request_history_top_backfill
    &&& now.request_history_backfill_pane == was.request_history_backfill_pane
    &&& now.copy_on_select == was.copy_on_select
    &&& now.selection_finalized == was.selection_finalized
    &&& now.selection_visible == was.selection_visible
    &&& now.copy_mode_pane == was.copy_mode_pane
    &&& now.context_menu_open == was.context_menu_open
    &&& now.spinner_tick == was.spinner_tick
    &&& now.mouse_scroll_lines == was.mouse_scroll_lines
    &&& now.chip_strip_height == was.chip_strip_height
    &&& now.pane_areas == was.pane_areas
}

/// Applies composed workspaces plus the client chrome to the view.
fn apply_composition(
    workspaces: Vec<Workspace>,
    terminals: SortedMap<String, TerminalState>,
    focused: &Option<String>,
    chrome: &GlobalChrome,
    context: &str,
    app: &mut AppState,
)
    requires
        terminals.wf(),
        old(app).wf(),
    ensures
        final(app).wf(),
        shows(
            *old(app),
            *final(app),
            Composition {
                workspaces: models(workspaces@),
                terminals: views(terminals@),
                focused: opt_view(*focused),
                context: context@,
            },
            *chrome,
        ),
        final(app).workspace_remote_tags == old(app).workspace_remote_tags,
        final(app).remote_chips == old(app).remote_chips,
{
    let ghost all = models(workspaces@);
    let mut found: Option<usize> = None;
    if let Some(id) = focused {
        let mut i: usize = 0;
        while i < workspaces.len() && workspaces[i].id != *id
            invariant
                i <= workspaces@.len(),
                all == models(workspaces@),
                forall|j: int| 0 <= j < i ==> !workspace_with_id(id@)(#[trigger] all[j]),
            decreases workspaces@.len() - i,
        {
            assert(all[i as int] == workspaces@[i as int]@);
            i = i + 1;
        }
        proof {
            if i < workspaces@.len() {
                assert(all[i as int] == workspaces@[i as int]@);
            }
            first_index_is(all, workspace_with_id(id@), i as int);
        }
        if i < workspaces.len() {
            found = Some(i);
        }
    }
    let active: Option<usize> = match found {
        Some(i) => Some(i),
        None => {
            if workspaces.len() == 0 {
                None
            } else {
                Some(0)
            }
        },
    };
    let first: usize = match active {
        Some(i) => i,
        None => 0,
    };
    let last: usize = workspaces.len().saturating_sub(1);
    app.workspaces = workspaces;
    app.terminals = terminals;
    app.active = active;
    app.selected = if first <= last {
        first
    } else {
        last
    };
    app.sidebar_collapsed = chrome.sidebar_collapsed;
    app.workspace_scroll = chrome.workspace_scroll;
    app.agent_panel_scroll = chrome.agent_panel_scroll;
    app.tab_scroll = chrome.tab_scroll;
    app.toast = match &chrome.connection_status {
        Some(status) => Some(Toast { title: status.clone(), context: context.to_owned() }),
        None => None,
    };
}

/// Workspaces owned by one remote.
pub open spec fn owned(remote: usize, publics: Seq<Seq<char>>) -> Seq<(usize, Seq<char>)> {
    publics.map_values(|p: Seq<char>| (remote, p))
}

/// The composition of one remote's catalog.
pub open spec fn mirror_composition(
    slots: Seq<PaneSlot>,
    remote: usize,
    c: CatalogModel,
    context: Seq<char>,
) -> Composition {
    Composition {
        workspaces: workspace_models(slots, remote, c, c.workspaces.len() as int),
        terminals: catalog_terminals(Map::empty(), remote, c, c.workspaces.len() as int),
        focused: focused_workspace(remote, c),
        context,
    }
}

/// Composes one mirror into the view: no chips and no attribution.
pub fn compose_into(
    mirror: &RemoteMirror,
    chrome: &GlobalChrome,
    ids: &mut ComposeIds,
    app: &mut AppState,
)
    requires
        old(ids).wf(),
        old(app).wf(),
    ensures
        final(ids).wf(),
        final(app).wf(),
        extends(
            retained_one(old(ids).slots@, mirror@),
            final(ids).slots@,
            mirror@.remote_index,
        ),
        catalog_known(final(ids).slots@, mirror@.remote_index, mirror@.catalog),
        final(ids).owners() == owned(
            mirror@.remote_index,
            composed_publics(mirror@.catalog, mirror@.catalog.workspaces.len() as int),
        ),
        shows(
            *old(app),
            *final(app),
            mirror_composition(
                final(ids).slots@,
                mirror@.remote_index,
                mirror@.catalog,
                mirror@.name,
            ),
            *chrome,
        ),
        final(app).workspace_remote_tags@.len() == 0,
        final(app).remote_chips@.len() == 0,
{
    let remote: usize = mirror.remote_index;
    ids.retain_mirror(mirror);
    ids.register(remote, &mirror.catalog);
    let mut terminals: SortedMap<String, TerminalState> = SortedMap::new();
    assert(views(terminals@) =~= Map::<Seq<char>, TerminalStateModel>::empty());
    let projection = project_mirror(mirror, remote, ids, &mut terminals);
    let mut owners: Vec<(usize, String)> = Vec::new();
    let mut i: usize = 0;
    while i < projection.workspace_publics.len()
        invariant
            i <= projection.workspace_publics@.len(),
            owners@.len() == i,
            forall|j: int|
                0 <= j < i ==> (#[trigger] owners@[j]).0 == remote && owners@[j].1
                    == projection.workspace_publics@[j],
        decreases projection.workspace_publics@.len() - i,
    {
        owners.push((remote, projection.workspace_publics[i].clone()));
        i = i + 1;
    }
    ids.workspace_owners = owners;
    proof {
        let publics = composed_publics(mirror@.catalog, mirror@.catalog.workspaces.len() as int);
        assert(crate::text::texts(projection.workspace_publics@) == publics);
        assert forall|j: int| 0 <= j < publics.len() implies #[trigger] ids.owners()[j] == owned(
            remote,
            publics,
        )[j] by {
            assert(crate::text::texts(projection.workspace_publics@)[j]
                == projection.workspace_publics@[j]@);
        }
        assert(ids.owners() =~= owned(remote, publics));
    }
    apply_composition(
        projection.workspaces,
        terminals,
        &projection.focused_workspace,
        chrome,
        mirror.name.as_str(),
        app,
    );
    app.remote_chips = Vec::new();
    app.workspace_remote_tags = Vec::new();
}

/// The workspaces of a view's remotes, flat and in order.
pub open spec fn fleet_workspaces(
    slots: Seq<PaneSlot>,
    mirrors: Map<usize, MirrorModel>,
    view: Seq<RemoteDescriptor>,
) -> Seq<WorkspaceModel>
    decreases view.len(),
{
    if view.len() == 0 {
        Seq::empty()
    } else {
        let d = view.last();
        let before = fleet_workspaces(slots, mirrors, view.drop_last());
        if mirrors.contains_key(d.index) {
            let c = mirrors[d.index].catalog;
            before + workspace_models(slots, d.index, c, c.workspaces.len() as int)
        } else {
            before
        }
    }
}

/// Who owns each of those workspaces.
pub open spec fn fleet_owners(
    mirrors: Map<usize, MirrorModel>,
    view: Seq<RemoteDescriptor>,
) -> Seq<(usize, Seq<char>)>
    decreases view.len(),
{
    if view.len() == 0 {
        Seq::empty()
    } else {
        let d = view.last();
        let before = fleet_owners(mirrors, view.drop_last());
        if mirrors.contains_key(d.index) {
            let c = mirrors[d.index].catalog;
            before + owned(d.index, composed_publics(c, c.workspaces.len() as int))
        } else {
            before
        }
    }
}

/// The label each of those workspaces carries: its remote's name and hue.
pub open spec fn fleet_tags(
    mirrors: Map<usize, MirrorModel>,
    view: Seq<RemoteDescriptor>,
) -> Seq<RemoteTag>
    decreases view.len(),
{
    if view.len() == 0 {
        Seq::empty()
    } else {
        let d = view.last();
        let before = fleet_tags(mirrors, view.drop_last());
        if mirrors.contains_key(d.index) {
            let c = mirrors[d.index].catalog;
            before + composed_publics(c, c.workspaces.len() as int).map_values(
                |p: Seq<char>| RemoteTag { name: d.name, hue_index: d.hue_index },
            )
        } else {
            before
        }
    }
}

/// The labels as they are shown: only where more than one remote is in view.
pub open spec fn shown_tags(
    mirrors: Map<usize, MirrorModel>,
    view: Seq<RemoteDescriptor>,
) -> Seq<RemoteTag> {
    if view.len() >= 2 {
        fleet_tags(mirrors, view)
    } else {
        Seq::empty()
    }
}

/// Terminal metadata of a view's remotes.
pub open spec fn fleet_terminals(
    mirrors: Map<usize, MirrorModel>,
    view: Seq<RemoteDescriptor>,
) -> Map<Seq<char>, TerminalStateModel>
    decreases view.len(),
{
    if view.len() == 0 {
        Map::empty()
    } else {
        let d = view.last();
        let before = fleet_terminals(mirrors, view.drop_last());
        if mirrors.contains_key(d.index) {
            let c = mirrors[d.index].catalog;
            catalog_terminals(before, d.index, c, c.workspaces.len() as int)
        } else {
            before
        }
    }
}

/// The focused remote's focused workspace.
pub open spec fn fleet_focus(
    mirrors: Map<usize, MirrorModel>,
    view: Seq<RemoteDescriptor>,
    focused_remote: usize,
) -> Option<Seq<char>>
    decreases view.len(),
{
    if view.len() == 0 {
        None
    } else {
        let d = view.last();
        if d.index == focused_remote && mirrors.contains_key(d.index) {
            focused_workspace(d.index, mirrors[d.index].catalog)
        } else {
            fleet_focus(mirrors, view.drop_last(), focused_remote)
        }
    }
}

/// Every mirror in view has ids for its panes.
pub open spec fn view_known(
    slots: Seq<PaneSlot>,
    mirrors: Map<usize, MirrorModel>,
    view: Seq<RemoteDescriptor>,
) -> bool {
    forall|i: int|
        0 <= i < view.len() && mirrors.contains_key((#[trigger] view[i]).index) ==> catalog_known(
            slots,
            view[i].index,
            mirrors[view[i].index].catalog,
        )
}

/// The composition of a fleet's view.
pub open spec fn fleet_composition(
    slots: Seq<PaneSlot>,
    mirrors: Map<usize, MirrorModel>,
    descriptors: Seq<RemoteDescriptor>,
    selection: SelectionModel,
) -> Composition {
    let view = selection.in_view(descriptors);
    Composition {
        workspaces: fleet_workspaces(slots, mirrors, view),
        terminals: fleet_terminals(mirrors, view),
        focused: fleet_focus(mirrors, view, selection.effective_focus(descriptors)),
        context: "remotes"@,
    }
}

fn register_view(ids: &mut ComposeIds, mirrors: &RemoteMirrors, view: &Vec<&RemoteDescriptor>)
    requires
        old(ids).wf(),
        mirrors.wf(),
    ensures
        final(ids).wf(),
        grows(old(ids).slots@, final(ids).slots@),
        final(ids).workspace_owners == old(ids).workspace_owners,
        view_known(final(ids).slots@, mirrors@, derefs(view@)),
{
    let ghost before = ids.slots@;
    let ghost all = derefs(view@);
    assert(before.take(before.len() as int) =~= before);
    let mut i: usize = 0;
    while i < view.len()
        invariant
            mirrors.wf(),
            ids.wf(),
            i <= view@.len(),
            all == derefs(view@),
            grows(before, ids.slots@),
            ids.workspace_owners == old(ids).workspace_owners,
            view_known(ids.slots@, mirrors@, all.take(i as int)),
        decreases view@.len() - i,
    {
        let d = view[i];
        let ghost mid = ids.slots@;
        assert(all[i as int] == *view@[i as int]);
        assert(mid.take(mid.len() as int) =~= mid);
        if let Some(mirror) = mirrors.get(d.index) {
            ids.register(d.index, &mirror.catalog);
            proof {
                assert(ids.slots@.take(before.len() as int) =~= ids.slots@.take(
                    mid.len() as int,
                ).take(before.len() as int));
                assert forall|k: int| before.len() <= k < ids.slots@.len() implies (
                #[trigger] ids.slots@[k]).live by {
                    if k < mid.len() {
                        assert(ids.slots@.take(mid.len() as int)[k] == ids.slots@[k]);
                        assert(mid[k].live);
                    }
                }
            }
        }
        proof {
            let now = all.take(i + 1);
            assert forall|k: int|
                0 <= k < now.len() && mirrors@.contains_key(
                    (#[trigger] now[k]).index,
                ) implies catalog_known(
                ids.slots@,
                now[k].index,
                mirrors@[now[k].index].catalog,
            ) by {
                if k < i {
                    assert(all.take(i as int)[k] == now[k]);
                    catalog_known_stable(
                        mid,
                        ids.slots@,
                        now[k].index,
                        mirrors@[now[k].index].catalog,
                    );
                }
            }
        }
        i = i + 1;
    }
    assert(all.take(i as int) =~= all);
}

/// Composes every in-view mirror into the view, flat and in fleet order.
/// With two or more remotes in view every workspace carries its remote's tag.
/// There is one chip per configured remote, in view or not. The focused
/// remote contributes the composed focus.
pub fn compose_fleet_into(
    mirrors: &RemoteMirrors,
    descriptors: &[RemoteDescriptor],
    chrome: &GlobalChrome,
    ids: &mut ComposeIds,
    app: &mut AppState,
)
    requires
        mirrors.wf(),
        old(ids).wf(),
        old(app).wf(),
    ensures
        final(ids).wf(),
        final(app).wf(),
        grows(retained(old(ids).slots@, mirrors@), final(ids).slots@),
        view_known(final(ids).slots@, mirrors@, chrome.selection@.in_view(descriptors@)),
        final(ids).owners() == fleet_owners(mirrors@, chrome.selection@.in_view(descriptors@)),
        shows(
            *old(app),
            *final(app),
            fleet_composition(final(ids).slots@, mirrors@, descriptors@, chrome.selection@),
            *chrome,
        ),
        final(app).workspace_remote_tags@ == shown_tags(
            mirrors@,
            chrome.selection@.in_view(descriptors@),
        ),
        final(app).remote_chips@ == chips_of(mirrors@, chrome.selection@, descriptors@),
{
    ids.retain_known(mirrors);
    let view = chrome.selection.in_view(descriptors);
    let ghost all = chrome.selection@.in_view(descriptors@);
    assert(derefs(view@) =~= all);
    register_view(ids, mirrors, &view);
    let focused_remote: usize = chrome.selection.effective_focused_remote(descriptors);
    let ghost slots = ids.slots@;
    let mut workspaces: Vec<Workspace> = Vec::new();
    let mut terminals: SortedMap<String, TerminalState> = SortedMap::new();
    let mut owners: Vec<(usize, String)> = Vec::new();
    let mut tags: Vec<RemoteTag> = Vec::new();
    let mut focused: Option<String> = None;
    let mut i: usize = 0;
    proof {
        assert(all.take(0) =~= Seq::empty());
        assert(models(workspaces@) =~= Seq::<WorkspaceModel>::empty());
        assert(views(terminals@) =~= Map::<Seq<char>, TerminalStateModel>::empty());
        assert(owners@.map_values(|o: (usize, String)| (o.0, o.1@)) =~= Seq::<
            (usize, Seq<char>),
        >::empty());
        assert(tags@ =~= Seq::<RemoteTag>::empty());
    }
    while i < view.len()
        invariant
            mirrors.wf(),
            ids.wf(),
            slots == ids.slots@,
            i <= view@.len(),
            view@.len() == all.len(),
            forall|j: int| 0 <= j < view@.len() ==> *(#[trigger] view@[j]) == all[j],
            view_known(slots, mirrors@, all),
            terminals.wf(),
            models(workspaces@) == fleet_workspaces(slots, mirrors@, all.take(i as int)),
            views(terminals@) == fleet_terminals(mirrors@, all.take(i as int)),
            owners@.map_values(|o: (usize, String)| (o.0, o.1@)) == fleet_owners(
                mirrors@,
                all.take(i as int),
            ),
            tags@ == fleet_tags(mirrors@, all.take(i as int)),
            opt_view(focused) == fleet_focus(mirrors@, all.take(i as int), focused_remote),
        decreases view@.len() - i,
    {
        let d = view[i];
        proof {
            assert(*view@[i as int] == all[i as int]);
            assert(all.take(i + 1).drop_last() =~= all.take(i as int));
            assert(all.take(i + 1).last() == *d);
        }
        if let Some(mirror) = mirrors.get(d.index) {
            assert(catalog_known(slots, all[i as int].index, mirrors@[d.index].catalog));
            let mut projection = project_mirror(mirror, d.index, ids, &mut terminals);
            let ghost publics = composed_publics(
                mirror@.catalog,
                mirror@.catalog.workspaces.len() as int,
            );
            let ghost was_owners = owners@;
            let ghost was_tags = tags@;
            let ghost was_spaces = workspaces@;
            let mut k: usize = 0;
            while k < projection.workspace_publics.len()
                invariant
                    k <= projection.workspace_publics@.len(),
                    owners@.len() == was_owners.len() + k,
                    tags@.len() == was_tags.len() + k,
                    forall|j: int| 0 <= j < was_owners.len() ==> owners@[j] == was_owners[j],
                    forall|j: int| 0 <= j < was_tags.len() ==> tags@[j] == was_tags[j],
                    forall|j: int|
                        was_owners.len() <= j < owners@.len() ==> (#[trigger] owners@[j]).0 == d.index
                            && owners@[j].1
                            == projection.workspace_publics@[j - was_owners.len()],
                    forall|j: int|
                        was_tags.len() <= j < tags@.len() ==> #[trigger] tags@[j] == (RemoteTag {
                            name: d.name,
                            hue_index: d.hue_index,
                        }),
                decreases projection.workspace_publics@.len() - k,
            {
                owners.push((d.index, projection.workspace_publics[k].clone()));
                tags.push(RemoteTag { name: d.name.clone(), hue_index: d.hue_index });
                k = k + 1;
            }
            let ghost added = projection.workspaces@;
            workspaces.append(&mut projection.workspaces);
            if d.index == focused_remote {
                focused = projection.focused_workspace;
            }
            proof {
                assert(models(workspaces@) =~= models(was_spaces) + models(added));
                let texts = crate::text::texts(projection.workspace_publics@);
                assert(texts == publics);
                assert(publics.len() == k);
                assert forall|j: int| 0 <= j < k implies #[trigger] publics[j]
                    == projection.workspace_publics@[j]@ by {
                    assert(texts[j] == projection.workspace_publics@[j]@);
                }
                assert(owners@.map_values(|o: (usize, String)| (o.0, o.1@))
                    =~= was_owners.map_values(|o: (usize, String)| (o.0, o.1@)) + owned(
                    d.index,
                    publics,
                ));
                assert(tags@ =~= was_tags + publics.map_values(
                    |p: Seq<char>| RemoteTag { name: d.name, hue_index: d.hue_index },
                ));
            }
        }
        i = i + 1;
    }
    assert(all.take(i as int) =~= all);
    ids.workspace_owners = owners;
    apply_composition(workspaces, terminals, &focused, chrome, "remotes", app);
    app.workspace_remote_tags = if view.len() >= 2 {
        tags
    } else {
        Vec::new()
    };
    app.remote_chips = remote_chip_states(mirrors, descriptors, &chrome.selection);
    assert(view.len() < 2 ==> app.workspace_remote_tags@ =~= Seq::empty());
}

/// The remote that owns creation: the owner of the focused workspace, or
/// `fallback` when nothing is focused.
pub open spec fn creation_target(app: AppState, ids: ComposeIds, fallback: usize) -> usize {
    match app.active {
        Some(i) => match ids.owner(i) {
            Some((remote, _)) => remote,
            None => fallback,
        },
        None => fallback,
    }
}

/// The remote on which new spaces and panes are created.
pub fn creation_target_remote(app: &AppState, ids: &ComposeIds, fallback: usize) -> (r: usize)
    ensures
        r == creation_target(*app, *ids, fallback),
{
    match app.active {
        Some(i) => match ids.workspace_owner(i) {
            Some((remote, _)) => remote,
            None => fallback,
        },
        None => fallback,
    }
}

/// What the config says about the client.
#[derive(Debug)]
pub struct ClientConfig {
    pub prefix_key: KeyChord,
    pub sidebar_start_collapsed: bool,
    pub copy_on_select: bool,
    pub mouse_scroll_lines: usize,
    pub keybinds: Keybinds,
}

/// Takes over what the config says. Nothing that is composed is touched.
pub fn apply_client_config(app: &mut AppState, config: ClientConfig)
    requires
        old(app).wf(),
    ensures
        final(app).wf(),
        *final(app) == (AppState {
            prefix_key: config.prefix_key,
            sidebar_collapsed: config.sidebar_start_collapsed,
            copy_on_select: config.copy_on_select,
            mouse_scroll_lines: config.mouse_scroll_lines,
            keybinds: config.keybinds,
            ..*old(app)
        }),
{
    app.prefix_key = config.prefix_key;
    app.sidebar_collapsed = config.sidebar_start_collapsed;
    app.copy_on_select = config.copy_on_select;
    app.mouse_scroll_lines = config.mouse_scroll_lines;
    app.keybinds = config.keybinds;
}

} // verus!
