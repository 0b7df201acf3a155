//! Everything one event of the loop may touch.
use crate::client_state::app_state::{views, views_insert, views_remove, AppState};
use crate::client_state::chrome::{ChromeModel, GlobalChrome};
use crate::client_state::compose::{apply_client_config, ClientConfig};
use crate::client_state::compose_ids::ComposeIds;
use crate::client_state::fleet_view::{at_index, descriptor_at, RemoteDescriptor};
use crate::client_state::mirror::{MirrorModel, RemoteMirror, RemoteMirrors};
use crate::client_state::session::{Link, LinkModel, Session, SessionModel};
use crate::seqs::first_match;
use crate::sorted_map::{Key, SortedMap};
use crate::text::opt_view;
use vstd::prelude::*;

verus! {

/// Transient interaction bookkeeping, in milliseconds of the client's clock.
#[derive(Debug)]
pub struct InteractionState {
    /// Last chip click, for the double click that solos.
    pub last_chip_click: Option<(usize, u64)>,
    /// A short-lived status message.
    pub status_flash: Option<(String, u64)>,
    /// Last window title written to the host terminal.
    pub last_window_title: Option<String>,
    /// Source of link generations.
    pub next_generation: u64,
    /// When the connecting spinner last advanced.
    pub last_spinner_step: Option<u64>,
    /// Whether any remote ever completed a handshake.
    pub ever_connected: bool,
}

pub struct UiModel {
    pub last_chip_click: Option<(usize, u64)>,
    pub status_flash: Option<(Seq<char>, u64)>,
    pub last_window_title: Option<Seq<char>>,
    pub next_generation: u64,
    pub last_spinner_step: Option<u64>,
    pub ever_connected: bool,
}

impl View for InteractionState {
    type V = UiModel;

    open spec fn view(&self) -> UiModel {
        UiModel {
            last_chip_click: self.last_chip_click,
            status_flash: match self.status_flash {
                Some((m, at)) => Some((m@, at)),
                None => None,
            },
            last_window_title: opt_view(self.last_window_title),
            next_generation: self.next_generation,
            last_spinner_step: self.last_spinner_step,
            ever_connected: self.ever_connected,
        }
    }
}

impl UiModel {
    pub open spec fn idle() -> UiModel {
        UiModel {
            last_chip_click: None,
            status_flash: None,
            last_window_title: None,
            next_generation: 0,
            last_spinner_step: None,
            ever_connected: false,
        }
    }
}

impl InteractionState {
    /// Nothing clicked, flashed, written or connected.
    pub fn new() -> (r: InteractionState)
        ensures
            r@ == UiModel::idle(),
    {
        InteractionState {
            last_chip_click: None,
            status_flash: None,
            last_window_title: None,
            next_generation: 0,
            last_spinner_step: None,
            ever_connected: false,
        }
    }
}

/// The client's whole state.
#[derive(Debug)]
pub struct ClientLoop {
    pub descriptors: Vec<RemoteDescriptor>,
    pub links: SortedMap<usize, Link>,
    pub mirrors: RemoteMirrors,
    pub chrome: GlobalChrome,
    pub ids: ComposeIds,
    pub app: AppState,
    pub ui: InteractionState,
}

/// The mathematical value of the client's state.
pub struct LoopModel {
    pub descriptors: Seq<RemoteDescriptor>,
    pub links: Map<usize, LinkModel>,
    pub mirrors: Map<usize, MirrorModel>,
    pub chrome: ChromeModel,
    pub ids: ComposeIds,
    pub app: AppState,
    pub ui: UiModel,
}

impl View for ClientLoop {
    type V = LoopModel;

    open spec fn view(&self) -> LoopModel {
        LoopModel {
            descriptors: self.descriptors@,
            links: views(self.links@),
            mirrors: self.mirrors@,
            chrome: self.chrome@,
            ids: self.ids,
            app: self.app,
            ui: self.ui@,
        }
    }
}

impl LoopModel {
    /// The session of a link that is up.
    pub open spec fn session(self, remote: usize) -> Option<SessionModel> {
        if self.links.contains_key(remote) {
            match self.links[remote] {
                LinkModel::Up(s) => Some(s),
                _ => None,
            }
        } else {
            None
        }
    }

    pub open spec fn with_session(self, remote: usize, s: SessionModel) -> LoopModel {
        LoopModel { links: self.links.insert(remote, LinkModel::Up(s)), ..self }
    }

    pub open spec fn with_link(self, remote: usize, l: LinkModel) -> LoopModel {
        LoopModel { links: self.links.insert(remote, l), ..self }
    }

    pub open spec fn with_mirror(self, remote: usize, m: MirrorModel) -> LoopModel {
        LoopModel { mirrors: self.mirrors.insert(remote, m), ..self }
    }

    pub open spec fn with_chrome(self, chrome: ChromeModel) -> LoopModel {
        LoopModel { chrome, ..self }
    }

    pub open spec fn with_status(self, status: Option<Seq<char>>) -> LoopModel {
        LoopModel { chrome: ChromeModel { connection_status: status, ..self.chrome }, ..self }
    }

    /// Whether the status line is the only place left for the state of the
    /// head's connection: there is no chip, or the strip is laid away.
    pub open spec fn status_line_only(self) -> bool {
        self.descriptors.len() == 0 || self.app.chip_strip_height == 0
    }

    /// Whether the remote is reached without a bridge.
    pub open spec fn is_local(self, remote: usize) -> bool {
        match first_match(self.descriptors, at_index(remote)) {
            Some(d) => d.target is None,
            None => true,
        }
    }

    /// The focused pane's remote and public id, while its catalog has it.
    pub open spec fn focused_public(self) -> Option<(usize, Seq<char>)> {
        match self.app.focused_pane() {
            Some(pane) => match self.ids.public_of(pane) {
                Some((remote, public)) => if self.mirrors.contains_key(remote)
                    && self.mirrors[remote].catalog.has_pane(public) {
                    Some((remote, public))
                } else {
                    None
                },
                None => None,
            },
            None => None,
        }
    }
}

/// Fresh mirrors for the first `n` remotes.
pub open spec fn fresh_mirrors(descriptors: Seq<RemoteDescriptor>, n: int) -> Map<
    usize,
    MirrorModel,
>
    decreases n,
{
    if n <= 0 {
        Map::empty()
    } else {
        let d = descriptors[n - 1];
        fresh_mirrors(descriptors, n - 1).insert(d.index, MirrorModel::fresh(d.index, d.name@))
    }
}

impl ClientLoop {
    /// Every part is well-formed.
    pub open spec fn wf(&self) -> bool {
        &&& self.links.wf()
        &&& forall|i: usize| #[trigger] self.links@.contains_key(i) ==> self.links@[i].wf()
        &&& self.mirrors.wf()
        &&& self.chrome.wf()
        &&& self.ids.wf()
        &&& self.app.wf()
    }

    /// An empty client: no fleet, no links.
    pub fn new() -> (r: ClientLoop)
        ensures
            r.wf(),
            r@.descriptors.len() == 0,
            r@.links == Map::<usize, LinkModel>::empty(),
            r@.mirrors == Map::<usize, MirrorModel>::empty(),
            r.chrome.blank(),
            r.ids.slots@.len() == 0,
            r.ids.workspace_owners@.len() == 0,
            r.app.blank(),
            r@.ui == UiModel::idle(),
    {
        let r = ClientLoop {
            descriptors: Vec::new(),
            links: SortedMap::new(),
            mirrors: RemoteMirrors::new(),
            chrome: GlobalChrome::new(),
            ids: ComposeIds::new(),
            app: AppState::empty(),
            ui: InteractionState::new(),
        };
        assert(r@.links =~= Map::<usize, LinkModel>::empty());
        r
    }

    /// A client for a fleet, as it starts: every remote has a mirror and none
    /// a link yet. A fleet that is not backed by the config cannot be edited.
    pub fn start(descriptors: Vec<RemoteDescriptor>, config: ClientConfig, config_backed: bool) -> (r:
        ClientLoop)
        ensures
            r.wf(),
            r@.descriptors == descriptors@,
            r@.links == Map::<usize, LinkModel>::empty(),
            r@.mirrors == fresh_mirrors(descriptors@, descriptors@.len() as int),
            exists|c: GlobalChrome|
                #[trigger] c.blank() && r.chrome == (GlobalChrome {
                    sidebar_collapsed: config.sidebar_start_collapsed,
                    ..c
                }),
            r.ids.slots@.len() == 0,
            r.ids.workspace_owners@.len() == 0,
            exists|a: AppState|
                #[trigger] a.blank() && r.app == (AppState {
                    prefix_key: config.prefix_key,
                    sidebar_collapsed: config.sidebar_start_collapsed,
                    copy_on_select: config.copy_on_select,
                    mouse_scroll_lines: config.mouse_scroll_lines,
                    keybinds: config.keybinds,
                    fleet_config_backed: config_backed,
                    ..a
                }),
            r@.ui == UiModel::idle(),
    {
        let mut mirrors = RemoteMirrors::new();
        let mut i: usize = 0;
        while i < descriptors.len()
            invariant
                mirrors.wf(),
                i <= descriptors@.len(),
                mirrors@ == fresh_mirrors(descriptors@, i as int),
            decreases descriptors@.len() - i,
        {
            let d = &descriptors[i];
            mirrors.insert(RemoteMirror::new(d.index, d.name.clone()));
            i = i + 1;
        }
        let mut app = AppState::empty();
        let ghost blank_app = app;
        let collapsed: bool = config.sidebar_start_collapsed;
        apply_client_config(&mut app, config);
        app.fleet_config_backed = config_backed;
        let mut chrome = GlobalChrome::new();
        let ghost blank_chrome = chrome;
        chrome.sidebar_collapsed = collapsed;
        let r = ClientLoop {
            descriptors,
            links: SortedMap::new(),
            mirrors,
            chrome,
            ids: ComposeIds::new(),
            app,
            ui: InteractionState::new(),
        };
        assert(r@.links =~= Map::<usize, LinkModel>::empty());
        assert(blank_app.blank() && blank_chrome.blank());
        r
    }

    /// The remotes that have a link, in order.
    pub(crate) fn linked_remotes(&self) -> (r: Vec<usize>)
        requires
            self.wf(),
        ensures
            forall|i: int| 0 <= i < r@.len() ==> self@.links.contains_key(#[trigger] r@[i]),
            forall|k: usize| #[trigger] self@.links.contains_key(k) ==> r@.contains(k),
            forall|i: int, j: int| 0 <= i < j < r@.len() ==> r@[i] < r@[j],
    {
        let mut out: Vec<usize> = Vec::new();
        let mut i: usize = 0;
        while i < self.links.entries.len()
            invariant
                self.wf(),
                i <= self.links.entries@.len(),
                out@.len() == i,
                forall|j: int| 0 <= j < i ==> #[trigger] out@[j] == self.links.entries@[j].0,
            decreases self.links.entries@.len() - i,
        {
            out.push(self.links.entries[i].0);
            i = i + 1;
        }
        proof {
            assert forall|j: int| 0 <= j < out@.len() implies self@.links.contains_key(
                #[trigger] out@[j],
            ) by {
                self.links.lemma_at(j);
            }
            assert forall|k: usize| #[trigger] self@.links.contains_key(k) implies out@.contains(
                k,
            ) by {
                let p = self.links.pos(k);
                assert(self.links.at(p, k));
                assert(out@[p] == k);
            }
            assert forall|a: int, b: int| 0 <= a < b < out@.len() implies out@[a] < out@[b] by {
                assert(usize::before(self.links.entries@[a].0.id(), self.links.entries@[b].0.id()));
            }
        }
        out
    }

    /// Takes the session of a link that is up out of its link.
    pub(crate) fn take_session(&mut self, remote: usize) -> (r: Option<Session>)
        requires
            old(self).wf(),
        ensures
            final(self).wf(),
            match r {
                Some(s) => s.wf() && old(self)@.session(remote) == Some(s@) && final(self)@ == (
                LoopModel { links: old(self)@.links.remove(remote), ..old(self)@ }),
                None => old(self)@.session(remote) is None && *final(self) == *old(self),
            },
            final(self).mirrors == old(self).mirrors,
    {
        let up: bool = match self.links.get(&remote) {
            Some(Link::Up(_)) => true,
            _ => false,
        };
        if !up {
            return None;
        }
        let ghost before = self.links@;
        let link = self.links.remove(&remote);
        proof {
            views_remove(before, remote);
        }
        match link {
            Some(Link::Up(session)) => Some(session),
            _ => None,
        }
    }

    /// Sets a remote's link.
    pub(crate) fn set_link(&mut self, remote: usize, link: Link)
        requires
            old(self).wf(),
            link.wf(),
        ensures
            final(self).wf(),
            final(self)@ == old(self)@.with_link(remote, link@),
            final(self).mirrors == old(self).mirrors,
    {
        let ghost before = self.links@;
        self.links.insert(remote, link);
        proof {
            views_insert(before, remote, link);
        }
    }

    /// Drops a remote's link.
    pub(crate) fn remove_link(&mut self, remote: usize)
        requires
            old(self).wf(),
        ensures
            final(self).wf(),
            final(self)@ == (LoopModel { links: old(self)@.links.remove(remote), ..old(self)@ }),
    {
        let ghost before = self.links@;
        self.links.remove(&remote);
        proof {
            views_remove(before, remote);
        }
    }

    /// Puts a session back after [`Self::take_session`].
    pub(crate) fn put_session(&mut self, remote: usize, session: Session)
        requires
            old(self).wf(),
            session.wf(),
        ensures
            final(self).wf(),
            final(self)@ == old(self)@.with_session(remote, session@),
            final(self).mirrors == old(self).mirrors,
    {
        self.set_link(remote, Link::Up(session));
    }

    /// Whether the chip strip shows nothing of the head's connection.
    pub fn local_status_line_is_the_only_channel(&self) -> (r: bool)
        ensures
            r == self@.status_line_only(),
    {
        self.descriptors.len() == 0 || self.app.chip_strip_height == 0
    }

    /// Whether the remote is reached without a bridge.
    pub fn is_local_remote(&self, remote: usize) -> (r: bool)
        ensures
            r == self@.is_local(remote),
    {
        match descriptor_at(self.descriptors.as_slice(), remote) {
            Some(d) => d.target.is_none(),
            None => true,
        }
    }

    /// The focused pane's remote and public id, while its catalog has it.
    pub fn focused_public_pane(&self) -> (r: Option<(usize, String)>)
        requires
            self.wf(),
        ensures
            match r {
                Some((remote, public)) => self@.focused_public() == Some((remote, public@)),
                None => self@.focused_public() is None,
            },
    {
        let pane: usize = match self.app.focused_pane_id() {
            Some(pane) => pane,
            None => {
                return None;
            },
        };
        match self.ids.public_pane_id(pane) {
            Some((remote, public)) => match self.mirrors.get(remote) {
                Some(mirror) => {
                    if mirror.catalog.pane(public).is_some() {
                        Some((remote, public.to_owned()))
                    } else {
                        None
                    }
                },
                None => None,
            },
            None => None,
        }
    }
}

} // verus!
