//! Stable composed pane ids. A pane of a remote keeps its id for as long as
//! it is known, and an id is never handed out twice.
use crate::api::schema::{PaneInfo, PaneLayoutSnapshot, TabInfo, WorkspaceInfo};
use crate::client_state::catalog::{layout_of, CatalogModel, SessionCatalog};
use crate::client_state::mirror::{MirrorModel, RemoteMirror, RemoteMirrors};
use crate::seqs::{any, find, first_index, first_index_is, first_index_props, first_match, pick, derefs};
use crate::text::same;
use vstd::prelude::*;

verus! {

/// One id handed out: the id is the slot's position.
#[derive(Debug)]
pub struct PaneSlot {
    pub remote: usize,
    pub public: String,
    /// Whether the pane is still known.
    pub live: bool,
}

/// Id allocations across compositions, and who owns what is composed.
#[derive(Debug)]
pub struct ComposeIds {
    pub slots: Vec<PaneSlot>,
    /// Owning remote and public id of each composed workspace.
    pub workspace_owners: Vec<(usize, String)>,
}

/// The live slot of a pane.
pub open spec fn slot_for(remote: usize, public: Seq<char>) -> spec_fn(PaneSlot) -> bool {
    |s: PaneSlot| s.live && s.remote == remote && s.public@ == public
}

pub open spec fn knows(slots: Seq<PaneSlot>, remote: usize, public: Seq<char>) -> bool {
    any(slots, slot_for(remote, public))
}

/// The composed id of a pane.
pub open spec fn id_of(slots: Seq<PaneSlot>, remote: usize, public: Seq<char>) -> usize {
    first_index(slots, slot_for(remote, public)) as usize
}

/// No pane has two live ids.
pub open spec fn one_id_each(slots: Seq<PaneSlot>) -> bool {
    forall|i: int, j: int|
        0 <= i < j < slots.len() && (#[trigger] slots[i]).live && (#[trigger] slots[j]).live
            ==> slots[i].remote != slots[j].remote || slots[i].public@ != slots[j].public@
}

/// `b` is `a` with new live slots of `remote` added at the end.
pub open spec fn extends(a: Seq<PaneSlot>, b: Seq<PaneSlot>, remote: usize) -> bool {
    &&& a.len() <= b.len()
    &&& b.take(a.len() as int) == a
    &&& forall|i: int|
        a.len() <= i < b.len() ==> (#[trigger] b[i]).live && b[i].remote == remote
}

/// `b` is `a` with new live slots added at the end.
pub open spec fn grows(a: Seq<PaneSlot>, b: Seq<PaneSlot>) -> bool {
    &&& a.len() <= b.len()
    &&& b.take(a.len() as int) == a
    &&& forall|i: int| a.len() <= i < b.len() ==> (#[trigger] b[i]).live
}

/// An id once given stays the same however many are added.
pub proof fn ids_are_stable(
    a: Seq<PaneSlot>,
    b: Seq<PaneSlot>,
    remote: usize,
    public: Seq<char>,
)
    requires
        grows(a, b),
        knows(a, remote, public),
    ensures
        knows(b, remote, public),
        id_of(b, remote, public) == id_of(a, remote, public),
{
    let p = slot_for(remote, public);
    first_index_props(a, p);
    let i = first_index(a, p);
    assert forall|j: int| 0 <= j <= i implies #[trigger] b[j] == a[j] by {
        assert(b.take(a.len() as int)[j] == b[j]);
    }
    first_index_is(b, p, i);
    assert(p(b[i]));
}

/// Two panes share an id only if they are the same pane of the same remote.
pub proof fn ids_tell_panes_apart(
    slots: Seq<PaneSlot>,
    r1: usize,
    p1: Seq<char>,
    r2: usize,
    p2: Seq<char>,
)
    requires
        slots.len() <= usize::MAX,
        knows(slots, r1, p1),
        knows(slots, r2, p2),
        id_of(slots, r1, p1) == id_of(slots, r2, p2),
    ensures
        r1 == r2 && p1 == p2,
{
    first_index_props(slots, slot_for(r1, p1));
    first_index_props(slots, slot_for(r2, p2));
}

/// The panes of a tab.
pub open spec fn on_tab(tab: Seq<char>) -> spec_fn(PaneInfo) -> bool {
    |p: PaneInfo| p.tab_id@ == tab
}

pub open spec fn pane_is_focused() -> spec_fn(PaneInfo) -> bool {
    |p: PaneInfo| p.focused
}

/// The public id of a tab's focused pane: the catalog's flags win, the layout
/// is only a fallback.
pub open spec fn focused_public(
    panes: Seq<PaneInfo>,
    snapshot: Option<PaneLayoutSnapshot>,
) -> Option<Seq<char>> {
    match first_match(panes, pane_is_focused()) {
        Some(p) => Some(p.pane_id@),
        None => match snapshot {
            Some(s) => Some(s.focused_pane_id@),
            None => None,
        },
    }
}

/// The tab's panes and its focused one have ids.
pub open spec fn tab_known(
    slots: Seq<PaneSlot>,
    remote: usize,
    c: CatalogModel,
    workspace: Seq<char>,
    tab: Seq<char>,
) -> bool {
    let panes = c.panes.filter(on_tab(tab));
    &&& forall|i: int|
        0 <= i < panes.len() ==> knows(slots, remote, (#[trigger] panes[i]).pane_id@)
    &&& panes.len() > 0 ==> (focused_public(panes, first_match(c.layouts, layout_of(workspace, tab)))
        matches Some(f) ==> knows(slots, remote, f))
}

/// Every tab of every workspace has ids for its panes.
pub open spec fn catalog_known(slots: Seq<PaneSlot>, remote: usize, c: CatalogModel) -> bool {
    forall|w: int, t: int|
        0 <= w < c.workspaces.len() && 0 <= t < c.tabs.len() && (
        #[trigger] c.workspaces[w]).workspace_id@ == (#[trigger] c.tabs[t]).workspace_id@
            ==> tab_known(slots, remote, c, c.workspaces[w].workspace_id@, c.tabs[t].tab_id@)
}

proof fn tab_known_stable(
    a: Seq<PaneSlot>,
    b: Seq<PaneSlot>,
    remote: usize,
    c: CatalogModel,
    workspace: Seq<char>,
    tab: Seq<char>,
)
    requires
        grows(a, b),
        tab_known(a, remote, c, workspace, tab),
    ensures
        tab_known(b, remote, c, workspace, tab),
{
    let panes = c.panes.filter(on_tab(tab));
    assert forall|i: int| 0 <= i < panes.len() implies knows(
        b,
        remote,
        (#[trigger] panes[i]).pane_id@,
    ) by {
        ids_are_stable(a, b, remote, panes[i].pane_id@);
    }
    if panes.len() > 0 {
        if let Some(f) = focused_public(panes, first_match(c.layouts, layout_of(workspace, tab))) {
            ids_are_stable(a, b, remote, f);
        }
    }
}

/// Known catalogs stay known as ids are added.
pub proof fn catalog_known_stable(
    a: Seq<PaneSlot>,
    b: Seq<PaneSlot>,
    remote: usize,
    c: CatalogModel,
)
    requires
        grows(a, b),
        catalog_known(a, remote, c),
    ensures
        catalog_known(b, remote, c),
{
    assert forall|w: int, t: int|
        0 <= w < c.workspaces.len() && 0 <= t < c.tabs.len() && (
        #[trigger] c.workspaces[w]).workspace_id@ == (
        #[trigger] c.tabs[t]).workspace_id@ implies tab_known(
        b,
        remote,
        c,
        c.workspaces[w].workspace_id@,
        c.tabs[t].tab_id@,
    ) by {
        tab_known_stable(a, b, remote, c, c.workspaces[w].workspace_id@, c.tabs[t].tab_id@);
    }
}

/// Adding twice is adding.
pub proof fn extends_trans(a: Seq<PaneSlot>, b: Seq<PaneSlot>, c: Seq<PaneSlot>, remote: usize)
    requires
        extends(a, b, remote),
        extends(b, c, remote),
    ensures
        extends(a, c, remote),
{
    assert(c.take(a.len() as int) =~= c.take(b.len() as int).take(a.len() as int));
    assert forall|i: int| a.len() <= i < c.len() implies (#[trigger] c[i]).live && c[i].remote
        == remote by {
        if i < b.len() {
            assert(c.take(b.len() as int)[i] == c[i]);
            assert(b[i].live);
        }
    }
}

/// A slot with its liveness narrowed.
pub open spec fn narrowed(s: PaneSlot, known: bool) -> PaneSlot {
    PaneSlot { live: s.live && known, ..s }
}

/// Whether some mirror still knows the slot's pane.
pub open spec fn known_to(mirrors: Map<usize, MirrorModel>, s: PaneSlot) -> bool {
    mirrors.contains_key(s.remote) && mirrors[s.remote].catalog.has_pane(s.public@)
}

/// The slots after every pane unknown to the mirrors is dropped.
pub open spec fn retained(slots: Seq<PaneSlot>, mirrors: Map<usize, MirrorModel>) -> Seq<PaneSlot> {
    slots.map_values(|s: PaneSlot| narrowed(s, known_to(mirrors, s)))
}

/// The slots after every pane but the known ones of one mirror is dropped.
pub open spec fn retained_one(slots: Seq<PaneSlot>, m: MirrorModel) -> Seq<PaneSlot> {
    slots.map_values(
        |s: PaneSlot| narrowed(s, s.remote == m.remote_index && m.catalog.has_pane(s.public@)),
    )
}

impl ComposeIds {
    pub open spec fn wf(&self) -> bool {
        one_id_each(self.slots@)
    }

    /// The owners of the composed workspaces.
    pub open spec fn owners(&self) -> Seq<(usize, Seq<char>)> {
        self.workspace_owners@.map_values(|o: (usize, String)| (o.0, o.1@))
    }

    /// The owning remote and public id of a composed workspace.
    pub open spec fn owner(&self, ws_idx: usize) -> Option<(usize, Seq<char>)> {
        if ws_idx < self.workspace_owners@.len() {
            Some(
                (self.workspace_owners@[ws_idx as int].0, self.workspace_owners@[ws_idx as int].1@),
            )
        } else {
            None
        }
    }

    /// The remote and public id behind a composed pane id.
    pub open spec fn public_of(&self, pane: usize) -> Option<(usize, Seq<char>)> {
        if pane < self.slots@.len() && self.slots@[pane as int].live {
            Some((self.slots@[pane as int].remote, self.slots@[pane as int].public@))
        } else {
            None
        }
    }

    pub fn new() -> (r: ComposeIds)
        ensures
            r.wf(),
            r.slots@.len() == 0,
            r.workspace_owners@.len() == 0,
    {
        ComposeIds { slots: Vec::new(), workspace_owners: Vec::new() }
    }

    /// The position of the pane's live slot, or the number of slots.
    pub fn position(&self, remote: usize, public: &str) -> (r: usize)
        ensures
            r == first_index(self.slots@, slot_for(remote, public@)),
            r <= self.slots@.len(),
            r < self.slots@.len() <==> knows(self.slots@, remote, public@),
    {
        let test = |s: &PaneSlot| -> (b: bool)
            ensures
                b == (s.live && s.remote == remote && s.public@ == public@),
            { s.live && s.remote == remote && same(s.public.as_str(), public) };
        find(self.slots.as_slice(), test, Ghost(slot_for(remote, public@)))
    }

    /// The composed id of a pane, allocated on first sight.
    pub fn pane_id(&mut self, remote: usize, public: &str) -> (r: usize)
        requires
            old(self).wf(),
        ensures
            final(self).wf(),
            knows(final(self).slots@, remote, public@),
            r == id_of(final(self).slots@, remote, public@),
            extends(old(self).slots@, final(self).slots@, remote),
            knows(old(self).slots@, remote, public@) ==> final(self).slots@ == old(self).slots@,
            !knows(old(self).slots@, remote, public@) ==> r == old(self).slots@.len()
                && final(self).slots@.len() == r + 1,
            final(self).workspace_owners == old(self).workspace_owners,
    {
        let ghost before = self.slots@;
        let ghost p = slot_for(remote, public@);
        let i: usize = self.position(remote, public);
        assert(before.take(before.len() as int) =~= before);
        if i < self.slots.len() {
            return i;
        }
        proof {
            first_index_props(before, p);
        }
        self.slots.push(PaneSlot { remote, public: public.to_owned(), live: true });
        proof {
            assert(self.slots@.take(before.len() as int) =~= before);
            assert(p(self.slots@[before.len() as int]));
            first_index_is(self.slots@, p, before.len() as int);
            assert forall|a: int, b: int|
                0 <= a < b < self.slots@.len() && (#[trigger] self.slots@[a]).live && (
                #[trigger] self.slots@[b]).live implies self.slots@[a].remote
                != self.slots@[b].remote || self.slots@[a].public@ != self.slots@[b].public@ by {
                if b == before.len() {
                    assert(self.slots@[a] == before[a]);
                    assert(!p(before[a]));
                } else {
                    assert(self.slots@[a] == before[a] && self.slots@[b] == before[b]);
                }
            }
        }
        i
    }

    /// The composed id of a pane that has one.
    pub fn composed_pane_id(&self, remote: usize, public: &str) -> (r: Option<usize>)
        ensures
            match r {
                Some(id) => knows(self.slots@, remote, public@) && id == id_of(
                    self.slots@,
                    remote,
                    public@,
                ),
                None => !knows(self.slots@, remote, public@),
            },
    {
        let i: usize = self.position(remote, public);
        if i < self.slots.len() {
            Some(i)
        } else {
            None
        }
    }

    /// The owning remote and public pane id behind a composed one.
    pub fn public_pane_id(&self, pane: usize) -> (r: Option<(usize, &str)>)
        ensures
            match r {
                Some((remote, public)) => self.public_of(pane) == Some((remote, public@)),
                None => self.public_of(pane) is None,
            },
    {
        if pane < self.slots.len() && self.slots[pane].live {
            Some((self.slots[pane].remote, self.slots[pane].public.as_str()))
        } else {
            None
        }
    }

    /// The owning remote and public workspace id of a composed workspace.
    pub fn workspace_owner(&self, ws_idx: usize) -> (r: Option<(usize, &str)>)
        ensures
            match r {
                Some((remote, public)) => self.owner(ws_idx) == Some((remote, public@)),
                None => self.owner(ws_idx) is None,
            },
    {
        if ws_idx < self.workspace_owners.len() {
            Some((self.workspace_owners[ws_idx].0, self.workspace_owners[ws_idx].1.as_str()))
        } else {
            None
        }
    }

    /// Drops allocations for panes that no mirror knows any more.
    pub fn retain_known(&mut self, mirrors: &RemoteMirrors)
        requires
            old(self).wf(),
            mirrors.wf(),
        ensures
            final(self).wf(),
            final(self).slots@ == retained(old(self).slots@, mirrors@),
            final(self).workspace_owners == old(self).workspace_owners,
    {
        let ghost before = self.slots@;
        let n: usize = self.slots.len();
        let mut i: usize = 0;
        while i < n
            invariant
                mirrors.wf(),
                i <= n,
                n == before.len(),
                self.slots@.len() == n,
                self.workspace_owners == old(self).workspace_owners,
                forall|j: int|
                    0 <= j < i ==> #[trigger] self.slots@[j] == narrowed(
                        before[j],
                        known_to(mirrors@, before[j]),
                    ),
                forall|j: int| i <= j < n ==> #[trigger] self.slots@[j] == before[j],
            decreases n - i,
        {
            let known: bool = match mirrors.get(self.slots[i].remote) {
                Some(mirror) => mirror.catalog.pane(self.slots[i].public.as_str()).is_some(),
                None => false,
            };
            if !known {
                self.slots[i].live = false;
            }
            i = i + 1;
        }
        assert(self.slots@ =~= retained(before, mirrors@));
        proof {
            narrowing_keeps_one_id_each(before, self.slots@);
        }
    }

    /// Drops every allocation but those for this mirror's known panes.
    pub fn retain_mirror(&mut self, mirror: &RemoteMirror)
        requires
            old(self).wf(),
        ensures
            final(self).wf(),
            final(self).slots@ == retained_one(old(self).slots@, mirror@),
            final(self).workspace_owners == old(self).workspace_owners,
    {
        let ghost before = self.slots@;
        let n: usize = self.slots.len();
        let mut i: usize = 0;
        while i < n
            invariant
                i <= n,
                n == before.len(),
                self.slots@.len() == n,
                self.workspace_owners == old(self).workspace_owners,
                forall|j: int|
                    0 <= j < i ==> #[trigger] self.slots@[j] == narrowed(
                        before[j],
                        before[j].remote == mirror@.remote_index && mirror@.catalog.has_pane(
                            before[j].public@,
                        ),
                    ),
                forall|j: int| i <= j < n ==> #[trigger] self.slots@[j] == before[j],
            decreases n - i,
        {
            let known: bool = self.slots[i].remote == mirror.remote_index && mirror.catalog.pane(
                self.slots[i].public.as_str(),
            ).is_some();
            if !known {
                self.slots[i].live = false;
            }
            i = i + 1;
        }
        assert(self.slots@ =~= retained_one(before, mirror@));
        proof {
            narrowing_keeps_one_id_each(before, self.slots@);
        }
    }

    fn register_tab(
        &mut self,
        remote: usize,
        catalog: &SessionCatalog,
        workspace: &WorkspaceInfo,
        tab: &TabInfo,
    )
        requires
            old(self).wf(),
        ensures
            final(self).wf(),
            extends(old(self).slots@, final(self).slots@, remote),
            final(self).workspace_owners == old(self).workspace_owners,
            tab_known(
                final(self).slots@,
                remote,
                catalog@,
                workspace.workspace_id@,
                tab.tab_id@,
            ),
    {
        let ghost before = self.slots@;
        assert(before.take(before.len() as int) =~= before);
        let test = |p: &PaneInfo| -> (b: bool)
            ensures
                b == (p.tab_id@ == tab.tab_id@),
            { same(p.tab_id.as_str(), tab.tab_id.as_str()) };
        let panes = pick(catalog.panes.as_slice(), test, Ghost(on_tab(tab.tab_id@)));
        let ghost all = catalog@.panes.filter(on_tab(tab.tab_id@));
        let mut i: usize = 0;
        while i < panes.len()
            invariant
                self.wf(),
                i <= panes@.len(),
                panes@.len() == all.len(),
                forall|j: int| 0 <= j < panes@.len() ==> *(#[trigger] panes@[j]) == all[j],
                extends(before, self.slots@, remote),
                self.workspace_owners == old(self).workspace_owners,
                forall|j: int|
                    0 <= j < i ==> knows(self.slots@, remote, (#[trigger] all[j]).pane_id@),
            decreases panes@.len() - i,
        {
            let ghost mid = self.slots@;
            assert(*panes@[i as int] == all[i as int]);
            self.pane_id(remote, panes[i].pane_id.as_str());
            proof {
                extends_trans(before, mid, self.slots@, remote);
                assert forall|j: int| 0 <= j < i + 1 implies knows(
                    self.slots@,
                    remote,
                    (#[trigger] all[j]).pane_id@,
                ) by {
                    if j < i {
                        ids_are_stable(mid, self.slots@, remote, all[j].pane_id@);
                    }
                }
            }
            i = i + 1;
        }
        let snapshot = catalog.layout(workspace.workspace_id.as_str(), tab.tab_id.as_str());
        let ghost mid = self.slots@;
        assert(mid.take(mid.len() as int) =~= mid);
        if panes.len() > 0 {
            if let Some(focused) = focused_public_id(&panes, snapshot) {
                assert(derefs(panes@) =~= all);
                self.pane_id(remote, focused);
                proof {
                    extends_trans(before, mid, self.slots@, remote);
                    assert forall|j: int| 0 <= j < all.len() implies knows(
                        self.slots@,
                        remote,
                        (#[trigger] all[j]).pane_id@,
                    ) by {
                        ids_are_stable(mid, self.slots@, remote, all[j].pane_id@);
                    }
                }
            }
            assert(derefs(panes@) =~= all);
        }
    }

    /// Gives every pane of every composed tab an id.
    pub fn register(&mut self, remote: usize, catalog: &SessionCatalog)
        requires
            old(self).wf(),
        ensures
            final(self).wf(),
            extends(old(self).slots@, final(self).slots@, remote),
            final(self).workspace_owners == old(self).workspace_owners,
            catalog_known(final(self).slots@, remote, catalog@),
    {
        let ghost before = self.slots@;
        assert(before.take(before.len() as int) =~= before);
        let mut w: usize = 0;
        while w < catalog.workspaces.len()
            invariant
                self.wf(),
                w <= catalog.workspaces@.len(),
                extends(before, self.slots@, remote),
                self.workspace_owners == old(self).workspace_owners,
                forall|a: int, t: int|
                    0 <= a < w && 0 <= t < catalog@.tabs.len() && (
                    #[trigger] catalog@.workspaces[a]).workspace_id@ == (
                    #[trigger] catalog@.tabs[t]).workspace_id@ ==> tab_known(
                        self.slots@,
                        remote,
                        catalog@,
                        catalog@.workspaces[a].workspace_id@,
                        catalog@.tabs[t].tab_id@,
                    ),
            decreases catalog.workspaces@.len() - w,
        {
            let workspace = &catalog.workspaces[w];
            let mut t: usize = 0;
            while t < catalog.tabs.len()
                invariant
                    self.wf(),
                    w < catalog.workspaces@.len(),
                    *workspace == catalog.workspaces@[w as int],
                    t <= catalog.tabs@.len(),
                    extends(before, self.slots@, remote),
                    self.workspace_owners == old(self).workspace_owners,
                    forall|a: int, b: int|
                        0 <= a && 0 <= b < catalog@.tabs.len() && (a < w || (a == w && b < t)) && (
                        #[trigger] catalog@.workspaces[a]).workspace_id@ == (
                        #[trigger] catalog@.tabs[b]).workspace_id@ ==> tab_known(
                            self.slots@,
                            remote,
                            catalog@,
                            catalog@.workspaces[a].workspace_id@,
                            catalog@.tabs[b].tab_id@,
                        ),
                decreases catalog.tabs@.len() - t,
            {
                let tab = &catalog.tabs[t];
                if same(tab.workspace_id.as_str(), workspace.workspace_id.as_str()) {
                    let ghost mid = self.slots@;
                    self.register_tab(remote, catalog, workspace, tab);
                    proof {
                        extends_trans(before, mid, self.slots@, remote);
                        assert forall|a: int, b: int|
                            0 <= a && 0 <= b < catalog@.tabs.len() && (a < w || (a == w && b < t
                                + 1)) && (#[trigger] catalog@.workspaces[a]).workspace_id@ == (
                            #[trigger] catalog@.tabs[b]).workspace_id@ implies tab_known(
                            self.slots@,
                            remote,
                            catalog@,
                            catalog@.workspaces[a].workspace_id@,
                            catalog@.tabs[b].tab_id@,
                        ) by {
                            if !(a == w && b == t) {
                                tab_known_stable(
                                    mid,
                                    self.slots@,
                                    remote,
                                    catalog@,
                                    catalog@.workspaces[a].workspace_id@,
                                    catalog@.tabs[b].tab_id@,
                                );
                            }
                        }
                    }
                }
                t = t + 1;
            }
            w = w + 1;
        }
    }
}

/// The public id of a tab's focused pane.
pub fn focused_public_id<'a>(
    panes: &Vec<&'a PaneInfo>,
    snapshot: Option<&'a PaneLayoutSnapshot>,
) -> (r: Option<&'a str>)
    ensures
        match r {
            Some(f) => focused_public(
                derefs(panes@),
                match snapshot {
                    Some(s) => Some(*s),
                    None => None,
                },
            ) == Some(f@),
            None => focused_public(
                derefs(panes@),
                match snapshot {
                    Some(s) => Some(*s),
                    None => None,
                },
            ) is None,
        },
{
    let ghost all = derefs(panes@);
    let mut i: usize = 0;
    while i < panes.len()
        invariant
            i <= panes@.len(),
            all == derefs(panes@),
            forall|j: int| 0 <= j < i ==> !pane_is_focused()(#[trigger] all[j]),
        decreases panes@.len() - i,
    {
        assert(all[i as int] == *panes@[i as int]);
        if panes[i].focused {
            proof {
                first_index_is(all, pane_is_focused(), i as int);
            }
            return Some(panes[i].pane_id.as_str());
        }
        i = i + 1;
    }
    proof {
        first_index_is(all, pane_is_focused(), i as int);
    }
    match snapshot {
        Some(s) => Some(s.focused_pane_id.as_str()),
        None => None,
    }
}

proof fn narrowing_keeps_one_id_each(a: Seq<PaneSlot>, b: Seq<PaneSlot>)
    requires
        one_id_each(a),
        a.len() == b.len(),
        forall|i: int|
            0 <= i < a.len() ==> (#[trigger] b[i]).remote == a[i].remote && b[i].public == a[i].public
                && (b[i].live ==> a[i].live),
    ensures
        one_id_each(b),
{
    assert forall|i: int, j: int|
        0 <= i < j < b.len() && (#[trigger] b[i]).live && (
        #[trigger] b[j]).live implies b[i].remote != b[j].remote || b[i].public@
        != b[j].public@ by {
        assert(a[i].live && a[j].live);
    }
}

} // verus!
