//! Keeping pane streams to what is on screen: streams open for visible panes,
//! close for hidden ones, and are resized as the layout plans.
use crate::api::schema::PaneInfo;
use crate::client_state::catalog::{CatalogModel, SessionCatalog};
use crate::client_state::compose::{composed_terminal_id, scoped};
use crate::client_state::compose_ids::on_tab;
use crate::client_state::mirror::{MirrorModel, PaneReplica, RemoteMirror};
use crate::client_state::run::effects::{drop_streams, streams_dropped};
use crate::client_state::run::state::{ClientLoop, LoopModel};
use crate::client_state::session::{Pending, Session, SessionModel};
use crate::protocol::framed::{
    open_view, resize_view, stream_open_request, stream_resize_request, StreamMode,
    CAPABILITY_PANE_STREAM,
};
use crate::seqs::{filter_props, pick};
use crate::sorted_map::Key;
use crate::text::{holds_text, list_holds, same};
use vstd::prelude::*;

verus! {

/// A planned size of a terminal, named by its composed id.
#[derive(Debug)]
pub struct PaneResizeRequest {
    pub terminal_id: String,
    pub cols: u16,
    pub rows: u16,
}

/// A stream whose pane is not visible.
pub open spec fn hidden_from(visible: Seq<String>) -> spec_fn((String, u32)) -> bool {
    |e: (String, u32)| !holds_text(visible, e.0@)
}

/// Open streams whose panes are not in the visible set, in pane order.
pub fn hidden_pane_streams(mirror: &RemoteMirror, visible: &Vec<String>) -> (r: Vec<(String, u32)>)
    requires
        mirror.wf(),
    ensures
        r@ == mirror.pane_streams.entries@.filter(hidden_from(visible@)),
{
    let ghost p = hidden_from(visible@);
    let ghost all = mirror.pane_streams.entries@;
    let mut out: Vec<(String, u32)> = Vec::new();
    let mut i: usize = 0;
    proof {
        reveal(Seq::filter);
        assert(out@ =~= all.take(0).filter(p));
    }
    while i < mirror.pane_streams.entries.len()
        invariant
            all == mirror.pane_streams.entries@,
            p == hidden_from(visible@),
            i <= all.len(),
            out@ == all.take(i as int).filter(p),
        decreases all.len() - i,
    {
        let entry = &mirror.pane_streams.entries[i];
        proof {
            assert(all.take(i + 1) =~= all.take(i as int).push(*entry));
            all.take(i as int).lemma_filter_push(*entry, p);
        }
        if !list_holds(visible, entry.0.as_str()) {
            out.push((entry.0.clone(), entry.1));
        }
        i = i + 1;
    }
    assert(all.take(i as int) =~= all);
    out
}

/// The pane ids of a workspace's active tab.
pub open spec fn visible_in(c: CatalogModel, workspace: Seq<char>) -> Seq<String> {
    match c.workspace(workspace) {
        Some(w) => c.panes.filter(on_tab(w.active_tab_id@)).map_values(|p: PaneInfo| p.pane_id),
        None => Seq::empty(),
    }
}

/// The panes of one workspace's active tab.
pub fn visible_panes_of_workspace(catalog: &SessionCatalog, workspace_id: &str) -> (r: Vec<String>)
    ensures
        r@ == visible_in(catalog@, workspace_id@),
{
    let mut out: Vec<String> = Vec::new();
    match catalog.workspace(workspace_id) {
        Some(w) => {
            let test = |p: &PaneInfo| -> (b: bool)
                ensures
                    b == (p.tab_id@ == w.active_tab_id@),
                { same(p.tab_id.as_str(), w.active_tab_id.as_str()) };
            let panes = pick(catalog.panes.as_slice(), test, Ghost(on_tab(w.active_tab_id@)));
            let ghost all = catalog@.panes.filter(on_tab(w.active_tab_id@));
            let mut i: usize = 0;
            while i < panes.len()
                invariant
                    i <= panes@.len(),
                    panes@.len() == all.len(),
                    forall|j: int| 0 <= j < panes@.len() ==> *(#[trigger] panes@[j]) == all[j],
                    out@.len() == i,
                    forall|j: int| 0 <= j < i ==> #[trigger] out@[j] == all[j].pane_id,
                decreases panes@.len() - i,
            {
                assert(*panes@[i as int] == all[i as int]);
                out.push(panes[i].pane_id.clone());
                i = i + 1;
            }
        },
        None => {},
    }
    assert(out@ =~= visible_in(catalog@, workspace_id@));
    out
}

/// Whether a `stream.open` for the pane is outstanding.
pub open spec fn opening(s: SessionModel, pane: Seq<char>) -> bool {
    exists|id: Seq<char>| #[trigger]
        s.pending.contains_key(id) && (s.pending[id] matches Pending::StreamOpen { pane_id, .. }
            && pane_id@ == pane)
}

fn is_opening(session: &Session, pane: &str) -> (r: bool)
    requires
        session.wf(),
    ensures
        r == opening(session@, pane@),
{
    let mut i: usize = 0;
    while i < session.pending.entries.len()
        invariant
            session.wf(),
            i <= session.pending.entries@.len(),
            forall|j: int|
                0 <= j < i ==> !((#[trigger] session.pending.entries@[j]).1 matches
                    Pending::StreamOpen { pane_id, .. } && pane_id@ == pane@),
        decreases session.pending.entries@.len() - i,
    {
        if let Pending::StreamOpen { pane_id, mode: _ } = &session.pending.entries[i].1 {
            if same(pane_id.as_str(), pane) {
                proof {
                    session.pending.lemma_at(i as int);
                    let id = session.pending.entries@[i as int].0.id();
                    assert(session@.pending.contains_key(id));
                }
                return true;
            }
        }
        i = i + 1;
    }
    proof {
        assert forall|id: Seq<char>| #[trigger] session@.pending.contains_key(id) implies !(
        session@.pending[id] matches Pending::StreamOpen { pane_id, .. } && pane_id@ == pane@) by {
            let k = session.pending.pos(id);
            assert(session.pending.at(k, id));
            session.pending.lemma_at(k);
        }
    }
    false
}

/// Streams are opened for writing for the first `n` visible panes that have
/// none and await none. Opening stops where a message cannot be queued.
pub open spec fn opens(s: SessionModel, m: MirrorModel, visible: Seq<String>, n: int) -> (
    SessionModel,
    bool,
)
    decreases n,
{
    if n <= 0 {
        (s, true)
    } else {
        let (s1, going) = opens(s, m, visible, n - 1);
        let pane = visible[n - 1];
        if !going {
            (s1, false)
        } else if m.pane_streams.contains_key(pane@) || opening(s1, pane@) {
            (s1, true)
        } else {
            let request = open_view(
                s1.next_id("open"@),
                pane@,
                StreamMode::Write,
                false,
                None,
                None,
            );
            (
                s1.posted(
                    "open"@,
                    Pending::StreamOpen { pane_id: pane, mode: StreamMode::Write },
                    request,
                ),
                s1.can_send(request),
            )
        }
    }
}

fn open_streams(session: &mut Session, mirror: &RemoteMirror, visible: &Vec<String>) -> (r: bool)
    requires
        old(session).wf(),
        mirror.wf(),
    ensures
        final(session).wf(),
        (final(session)@, r) == opens(old(session)@, mirror@, visible@, visible@.len() as int),
{
    let mut i: usize = 0;
    while i < visible.len()
        invariant
            session.wf(),
            mirror.wf(),
            i <= visible@.len(),
            (session@, true) == opens(old(session)@, mirror@, visible@, i as int),
        decreases visible@.len() - i,
    {
        let pane = &visible[i];
        if mirror.stream_for_pane(pane.as_str()).is_none() && !is_opening(session, pane.as_str()) {
            let id = session.request_id("open");
            let request = stream_open_request(
                id.as_str(),
                pane.as_str(),
                StreamMode::Write,
                false,
                None,
                None,
            );
            session.expect(
                id,
                Pending::StreamOpen { pane_id: pane.clone(), mode: StreamMode::Write },
            );
            if session.send_control(request).is_err() {
                proof {
                    opens_stopped(
                        old(session)@,
                        mirror@,
                        visible@,
                        i + 1,
                        visible@.len() as int,
                    );
                }
                return false;
            }
        }
        i = i + 1;
    }
    true
}

proof fn opens_stopped(s: SessionModel, m: MirrorModel, visible: Seq<String>, k: int, n: int)
    requires
        0 <= k <= n,
        !opens(s, m, visible, k).1,
    ensures
        opens(s, m, visible, n) == opens(s, m, visible, k),
    decreases n - k,
{
    if k < n {
        opens_stopped(s, m, visible, k, n - 1);
    }
}

/// The public id of the pane behind a composed terminal; of several, the last
/// in the catalog.
pub open spec fn pane_of_terminal(panes: Seq<PaneInfo>, remote: usize, terminal: Seq<char>) -> Option<
    Seq<char>,
>
    decreases panes.len(),
{
    if panes.len() == 0 {
        None
    } else if scoped(remote, panes.last().terminal_id@) == terminal {
        Some(panes.last().pane_id@)
    } else {
        pane_of_terminal(panes.drop_last(), remote, terminal)
    }
}

fn find_terminal<'a>(catalog: &'a SessionCatalog, remote: usize, terminal: &str) -> (r: Option<
    &'a str,
>)
    ensures
        match r {
            Some(p) => pane_of_terminal(catalog@.panes, remote, terminal@) == Some(p@),
            None => pane_of_terminal(catalog@.panes, remote, terminal@) is None,
        },
{
    let mut i: usize = catalog.panes.len();
    assert(catalog@.panes.take(i as int) =~= catalog@.panes);
    while i > 0
        invariant
            i <= catalog@.panes.len(),
            pane_of_terminal(catalog@.panes, remote, terminal@) == pane_of_terminal(
                catalog@.panes.take(i as int),
                remote,
                terminal@,
            ),
        decreases i,
    {
        let pane = &catalog.panes[i - 1];
        proof {
            assert(catalog@.panes.take(i as int).last() == *pane);
            assert(catalog@.panes.take(i as int).drop_last() =~= catalog@.panes.take(i - 1));
        }
        let composed = composed_terminal_id(remote, pane.terminal_id.as_str());
        if same(composed.as_str(), terminal) {
            return Some(pane.pane_id.as_str());
        }
        i = i - 1;
    }
    None
}

/// The stream that a planned size is to be told on: the terminal's pane is
/// streamed, not read-only, and was not told this size already.
pub open spec fn resize_stream(
    s: SessionModel,
    m: MirrorModel,
    remote: usize,
    q: PaneResizeRequest,
) -> Option<u32> {
    match pane_of_terminal(m.catalog.panes, remote, q.terminal_id@) {
        Some(pane) => match m.stream_for_pane(pane) {
            Some(id) => if s.read_only.contains(id) || (s.sent_sizes.contains_key(id)
                && s.sent_sizes[id] == (q.cols, q.rows)) {
                None
            } else {
                Some(id)
            },
            None => None,
        },
        None => None,
    }
}

/// A planned size is told to the server, once, and its replica follows.
pub open spec fn resized_once(
    s: SessionModel,
    m: MirrorModel,
    remote: usize,
    q: PaneResizeRequest,
) -> (SessionModel, MirrorModel) {
    match resize_stream(s, m, remote, q) {
        Some(id) => {
            let request = resize_view(s.next_id("resize"@), id, q.cols, q.rows, 0, 0);
            let asked = s.asked("resize"@, Pending::Resize { stream_id: id }, request);
            if s.can_send(request) {
                (
                    SessionModel {
                        sent_sizes: asked.sent_sizes.insert(id, (q.cols, q.rows)),
                        ..asked
                    },
                    if m.replicas.contains_key(id) {
                        MirrorModel {
                            replicas: m.replicas.insert(
                                id,
                                PaneReplica { cols: q.cols, rows: q.rows, ..m.replicas[id] },
                            ),
                            ..m
                        }
                    } else {
                        m
                    },
                )
            } else {
                (asked, m)
            }
        },
        None => (s, m),
    }
}

/// The first `n` planned sizes, one after the other.
pub open spec fn resized(
    s: SessionModel,
    m: MirrorModel,
    remote: usize,
    requests: Seq<PaneResizeRequest>,
    n: int,
) -> (SessionModel, MirrorModel)
    decreases n,
{
    if n <= 0 {
        (s, m)
    } else {
        let (s1, m1) = resized(s, m, remote, requests, n - 1);
        resized_once(s1, m1, remote, requests[n - 1])
    }
}

fn resize_one(
    session: &mut Session,
    mirror: &mut RemoteMirror,
    remote: usize,
    q: &PaneResizeRequest,
)
    requires
        old(session).wf(),
        old(mirror).wf(),
    ensures
        final(session).wf(),
        final(mirror).wf(),
        final(mirror)@.remote_index == old(mirror)@.remote_index,
        (final(session)@, final(mirror)@) == resized_once(
            old(session)@,
            old(mirror)@,
            remote,
            *q,
        ),
{
    let stream_id: u32 = match find_terminal(&mirror.catalog, remote, q.terminal_id.as_str()) {
        Some(pane) => match mirror.stream_for_pane(pane) {
            Some(id) => id,
            None => {
                return;
            },
        },
        None => {
            return;
        },
    };
    if session.read_only.contains(&stream_id) {
        return;
    }
    if let Some((cols, rows)) = session.sent_sizes.get(&stream_id) {
        if *cols == q.cols && *rows == q.rows {
            return;
        }
    }
    let ghost s = session@;
    let id = session.request_id("resize");
    let request = stream_resize_request(id.as_str(), stream_id, q.cols, q.rows, 0, 0);
    let copy = id.clone();
    session.expect(copy, Pending::Resize { stream_id });
    if session.send_control(request).is_ok() {
        session.sent_sizes.insert(stream_id, (q.cols, q.rows));
        if let Some(replica) = mirror.replica_mut(stream_id) {
            replica.cols = q.cols;
            replica.rows = q.rows;
        }
    } else {
        session.settle(id.as_str());
        assert(session@.pending =~= s.numbered().settled(id@).pending);
    }
}

/// Everything one remote's streams need for what is visible on it.
pub open spec fn synced(
    s: SessionModel,
    m: MirrorModel,
    remote: usize,
    hidden: Seq<(String, u32)>,
    visible: Seq<String>,
    requests: Seq<PaneResizeRequest>,
) -> (SessionModel, MirrorModel) {
    if !m.connection.grants(CAPABILITY_PANE_STREAM@) {
        (s, m)
    } else {
        let (s1, m1) = streams_dropped(s, m, hidden);
        let (s2, going) = opens(s1, m1, visible, visible.len() as int);
        if going {
            resized(s2, m1, remote, requests, requests.len() as int)
        } else {
            (s2, m1)
        }
    }
}

/// Opens streams for visible panes that lack one, closes streams whose panes
/// left visibility, and tells the server of planned sizes that changed.
pub fn sync_remote_pane_streams(
    session: &mut Session,
    mirror: &mut RemoteMirror,
    remote: usize,
    visible: &Vec<String>,
    requests: &Vec<PaneResizeRequest>,
)
    requires
        old(session).wf(),
        old(mirror).wf(),
    ensures
        final(session).wf(),
        final(mirror).wf(),
        final(mirror)@.remote_index == old(mirror)@.remote_index,
        (final(session)@, final(mirror)@) == synced(
            old(session)@,
            old(mirror)@,
            remote,
            old(mirror).pane_streams.entries@.filter(hidden_from(visible@)),
            visible@,
            requests@,
        ),
{
    if !mirror.connection.has_capability(CAPABILITY_PANE_STREAM) {
        return;
    }
    let hidden = hidden_pane_streams(mirror, visible);
    drop_streams(session, mirror, &hidden);
    if !open_streams(session, mirror, visible) {
        return;
    }
    let ghost s2 = session@;
    let ghost m1 = mirror@;
    let mut i: usize = 0;
    while i < requests.len()
        invariant
            session.wf(),
            mirror.wf(),
            mirror@.remote_index == old(mirror)@.remote_index,
            i <= requests@.len(),
            (session@, mirror@) == resized(s2, m1, remote, requests@, i as int),
        decreases requests@.len() - i,
    {
        resize_one(session, mirror, remote, &requests[i]);
        i = i + 1;
    }
}

impl LoopModel {
    /// What is visible on a remote: the active tab of the active workspace,
    /// if the remote owns it.
    pub open spec fn visible_on(self, remote: usize) -> Seq<String> {
        match self.app.active {
            Some(i) => match self.ids.owner(i) {
                Some((owner, workspace)) => if owner == remote && self.mirrors.contains_key(
                    remote,
                ) {
                    visible_in(self.mirrors[remote].catalog, workspace)
                } else {
                    Seq::empty()
                },
                None => Seq::empty(),
            },
            None => Seq::empty(),
        }
    }
}

impl ClientLoop {
    fn visible_panes(&self, remote: usize) -> (r: Vec<String>)
        requires
            self.wf(),
        ensures
            r@ == self@.visible_on(remote),
    {
        if let Some(i) = self.app.active {
            if let Some((owner, workspace)) = self.ids.workspace_owner(i) {
                if owner == remote {
                    if let Some(mirror) = self.mirrors.get(remote) {
                        return visible_panes_of_workspace(&mirror.catalog, workspace);
                    }
                }
            }
        }
        let none: Vec<String> = Vec::new();
        assert(none@ =~= Seq::empty());
        none
    }

    fn sync_one(&mut self, remote: usize, requests: &Vec<PaneResizeRequest>)
        requires
            old(self).wf(),
        ensures
            final(self).wf(),
            remote_synced(*old(self), *final(self), remote, requests@),
            others_kept(*old(self), *final(self), remote),
    {
        let ghost before = *self;
        let visible = self.visible_panes(remote);
        if let Some(mut session) = self.take_session(remote) {
            if let Some(mirror) = self.mirrors.get_mut(remote) {
                sync_remote_pane_streams(&mut session, mirror, remote, &visible, requests);
            }
            self.put_session(remote, session);
            proof {
                assert forall|k: usize| k != remote implies #[trigger] remote_kept(
                    before,
                    *self,
                    k,
                ) by {
                    assert(before@.links.contains_key(k) == self@.links.contains_key(k));
                }
            }
        }
    }

    /// Syncs pane streams on every connected remote. Only the owner of the
    /// active workspace has visible panes; all other streams close.
    pub fn sync_all_pane_streams(&mut self, requests: &Vec<PaneResizeRequest>)
        requires
            old(self).wf(),
        ensures
            final(self).wf(),
            forall|remote: usize| #[trigger]
                remote_synced(*old(self), *final(self), remote, requests@),
            final(self)@ == (LoopModel {
                links: final(self)@.links,
                mirrors: final(self)@.mirrors,
                ..old(self)@
            }),
    {
        let remotes = self.linked_remotes();
        let mut i: usize = 0;
        while i < remotes.len()
            invariant
                self.wf(),
                i <= remotes@.len(),
                forall|a: int, b: int| 0 <= a < b < remotes@.len() ==> remotes@[a] < remotes@[b],
                forall|k: usize| #[trigger] old(self)@.links.contains_key(k) ==> remotes@.contains(k),
                self@ == (LoopModel {
                    links: self@.links,
                    mirrors: self@.mirrors,
                    ..old(self)@
                }),
                forall|j: int|
                    0 <= j < i ==> remote_synced(
                        *old(self),
                        *self,
                        #[trigger] remotes@[j],
                        requests@,
                    ),
                forall|k: usize|
                    (forall|j: int| 0 <= j < i ==> remotes@[j] != k) ==> #[trigger] remote_kept(
                        *old(self),
                        *self,
                        k,
                    ),
            decreases remotes@.len() - i,
        {
            let ghost before = *self;
            let remote: usize = remotes[i];
            assert(remote_kept(*old(self), before, remote));
            self.sync_one(remote, requests);
            proof {
                assert forall|j: int| 0 <= j < i + 1 implies remote_synced(
                    *old(self),
                    *self,
                    #[trigger] remotes@[j],
                    requests@,
                ) by {
                    if j < i {
                        assert(remotes@[j] < remotes@[i as int]);
                        assert(remote_kept(before, *self, remotes@[j]));
                    }
                }
                assert forall|k: usize|
                    (forall|j: int| 0 <= j < i + 1 ==> remotes@[j] != k) implies #[trigger] remote_kept(
                    *old(self),
                    *self,
                    k,
                ) by {
                    assert(k != remotes@[i as int]);
                    assert(remote_kept(*old(self), before, k));
                    assert(remote_kept(before, *self, k));
                }
            }
            i = i + 1;
        }
        proof {
            assert forall|remote: usize| #[trigger]
                remote_synced(*old(self), *self, remote, requests@) by {
                if !remotes@.contains(remote) {
                    assert(!old(self)@.links.contains_key(remote));
                    assert(remote_kept(*old(self), *self, remote));
                } else {
                    let j = choose|j: int| 0 <= j < remotes@.len() && remotes@[j] == remote;
                    assert(remote_synced(*old(self), *self, remotes@[j], requests@));
                }
            }
        }
    }
}

/// A remote's link and mirror did not change.
pub open spec fn remote_kept(was: ClientLoop, now: ClientLoop, remote: usize) -> bool {
    &&& now@.links.contains_key(remote) == was@.links.contains_key(remote)
    &&& was@.links.contains_key(remote) ==> now@.links[remote] == was@.links[remote]
    &&& now@.mirrors.contains_key(remote) == was@.mirrors.contains_key(remote)
    &&& was@.mirrors.contains_key(remote) ==> now@.mirrors[remote] == was@.mirrors[remote]
        && now.mirrors.mirrors@[remote] == was.mirrors.mirrors@[remote]
}

/// Nothing changed but one remote's link and mirror.
pub open spec fn others_kept(was: ClientLoop, now: ClientLoop, remote: usize) -> bool {
    &&& forall|k: usize| k != remote ==> #[trigger] remote_kept(was, now, k)
    &&& now@ == (LoopModel { links: now@.links, mirrors: now@.mirrors, ..was@ })
}

/// A remote that is connected and mirrored has its streams synced; any other
/// is left as it was.
pub open spec fn remote_synced(
    was: ClientLoop,
    now: ClientLoop,
    remote: usize,
    requests: Seq<PaneResizeRequest>,
) -> bool {
    match was@.session(remote) {
        Some(s) => if was@.mirrors.contains_key(remote) {
            let visible = was@.visible_on(remote);
            let (s1, m1) = synced(
                s,
                was@.mirrors[remote],
                remote,
                was.mirrors.mirrors@[remote].pane_streams.entries@.filter(hidden_from(visible)),
                visible,
                requests,
            );
            now@.session(remote) == Some(s1) && now@.mirrors.contains_key(remote)
                && now@.mirrors[remote] == m1
        } else {
            remote_kept(was, now, remote)
        },
        None => remote_kept(was, now, remote),
    }
}

/// Dropped streams are gone, and every other one stays.
proof fn dropped_streams_are_gone(
    s: SessionModel,
    m: MirrorModel,
    streams: Seq<(String, u32)>,
    pane: Seq<char>,
)
    ensures
        ({
            let after = streams_dropped(s, m, streams).1;
            &&& after.pane_streams.contains_key(pane) <==> m.pane_streams.contains_key(pane)
                && forall|i: int|
                0 <= i < streams.len() ==> (#[trigger] streams[i]).1 != m.pane_streams[pane]
            &&& after.pane_streams.contains_key(pane) ==> after.pane_streams[pane]
                == m.pane_streams[pane]
            &&& after.connection == m.connection
        }),
    decreases streams.len(),
{
    if streams.len() > 0 {
        let rest = streams.drop_last();
        dropped_streams_are_gone(s, m, rest, pane);
        assert forall|i: int| 0 <= i < rest.len() implies rest[i] == streams[i] by {}
        let n = streams.len() - 1;
        if m.pane_streams.contains_key(pane) && forall|i: int|
            0 <= i < rest.len() ==> (#[trigger] rest[i]).1 != m.pane_streams[pane] {
            if streams[n].1 != m.pane_streams[pane] {
                assert forall|i: int| 0 <= i < streams.len() implies (#[trigger] streams[i]).1
                    != m.pane_streams[pane] by {
                    if i < n {
                        assert(rest[i] == streams[i]);
                    }
                }
            }
        }
    }
}

/// Telling sizes opens and closes nothing.
proof fn resizing_keeps_streams(
    s: SessionModel,
    m: MirrorModel,
    remote: usize,
    requests: Seq<PaneResizeRequest>,
    n: int,
)
    ensures
        resized(s, m, remote, requests, n).1.pane_streams == m.pane_streams,
    decreases n,
{
    if n > 0 {
        resizing_keeps_streams(s, m, remote, requests, n - 1);
    }
}

/// After a sync only visible panes are streamed: nothing that left the screen
/// keeps its stream.
pub proof fn only_visible_panes_are_streamed(
    s: SessionModel,
    mirror: RemoteMirror,
    remote: usize,
    visible: Seq<String>,
    requests: Seq<PaneResizeRequest>,
    pane: Seq<char>,
)
    requires
        mirror.wf(),
        mirror@.connection.grants(CAPABILITY_PANE_STREAM@),
        synced(
            s,
            mirror@,
            remote,
            mirror.pane_streams.entries@.filter(hidden_from(visible)),
            visible,
            requests,
        ).1.pane_streams.contains_key(pane),
    ensures
        holds_text(visible, pane),
        mirror@.pane_streams.contains_key(pane),
{
    let entries = mirror.pane_streams.entries@;
    let p = hidden_from(visible);
    let hidden = entries.filter(p);
    let (s1, m1) = streams_dropped(s, mirror@, hidden);
    let (s2, going) = opens(s1, m1, visible, visible.len() as int);
    resizing_keeps_streams(s2, m1, remote, requests, requests.len() as int);
    dropped_streams_are_gone(s, mirror@, hidden, pane);
    if !holds_text(visible, pane) {
        let k = mirror.pane_streams.pos(pane);
        assert(mirror.pane_streams.has(pane));
        assert(mirror.pane_streams.at(k, pane));
        mirror.pane_streams.lemma_at(k);
        assert(p(entries[k]));
        filter_props(entries, p);
        assert(entries.contains(entries[k]));
        let j = choose|j: int| 0 <= j < hidden.len() && hidden[j] == entries[k];
        assert(hidden[j].1 == mirror@.pane_streams[pane]);
    }
}

/// A sync with nothing to do sends nothing: panes that are streamed or on
/// their way are not asked for again.
pub proof fn settled_streams_stay_quiet(
    s: SessionModel,
    m: MirrorModel,
    remote: usize,
    visible: Seq<String>,
)
    requires
        forall|i: int|
            0 <= i < visible.len() ==> m.pane_streams.contains_key((#[trigger] visible[i])@)
                || opening(s, visible[i]@),
    ensures
        synced(s, m, remote, Seq::empty(), visible, Seq::empty()) == (s, m),
{
    nothing_to_open(s, m, visible, visible.len() as int);
}

proof fn nothing_to_open(s: SessionModel, m: MirrorModel, visible: Seq<String>, n: int)
    requires
        n <= visible.len(),
        forall|i: int|
            0 <= i < visible.len() ==> m.pane_streams.contains_key((#[trigger] visible[i])@)
                || opening(s, visible[i]@),
    ensures
        opens(s, m, visible, n) == (s, true),
    decreases n,
{
    if n > 0 {
        nothing_to_open(s, m, visible, n - 1);
        assert(m.pane_streams.contains_key(visible[n - 1]@) || opening(s, visible[n - 1]@));
    }
}

} // verus!
