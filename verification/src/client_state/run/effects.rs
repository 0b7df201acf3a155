//! The second half of a frame: applying what was decoded or opened outside.
use crate::api::method::{Method, MethodModel};
use crate::api::schema::{EventData, EventEnvelope, SessionSnapshot};
use crate::client_state::catalog::CatalogModel;
use crate::client_state::compose_ids::{id_of, knows};
use crate::client_state::fleet_view::{
    at_index, descriptor_at, labeled, labeled_notification_message,
};
use crate::client_state::intent::{
    modal_target, modal_target_remote, unscope_workspace_methods, unscoped_method,
};
use crate::client_state::mirror::{
    served_by, MirrorModel, PaneReplica, RemoteMirror, LOCAL_REMOTE_INDEX,
};
use crate::client_state::run::state::{ClientLoop, LoopModel};
use crate::client_state::session::{Pending, Session, SessionModel};
use crate::json::JsonView;
use crate::protocol::framed::{
    api_control_request, api_view, close_view, history_view, pane_paste_image_request,
    pane_send_bytes_request, paste_image_view, stream_close_request, stream_history_request,
    StreamMode, CAPABILITY_PASTE_IMAGE,
};
use crate::protocol::history::{HISTORY_FETCH_MAX_BYTES, HISTORY_PAGE_DEFAULT_BYTES};
use crate::seqs::first_match;
use vstd::prelude::*;

verus! {

/// A stream whose pane left the catalog.
pub open spec fn lost_pane(c: CatalogModel) -> spec_fn((String, u32)) -> bool {
    |e: (String, u32)| !c.has_pane(e.0@)
}

/// One stream is closed: told to the server, forgotten by session and mirror.
pub open spec fn stream_dropped(s: SessionModel, m: MirrorModel, stream_id: u32) -> (
    SessionModel,
    MirrorModel,
) {
    (
        s.numbered().sent(close_view(s.next_id("close"@), stream_id)).forgot_stream(stream_id),
        m.closed(stream_id),
    )
}

/// Streams are closed one after the other.
pub open spec fn streams_dropped(s: SessionModel, m: MirrorModel, streams: Seq<(String, u32)>) -> (
    SessionModel,
    MirrorModel,
)
    decreases streams.len(),
{
    if streams.len() == 0 {
        (s, m)
    } else {
        let (s1, m1) = streams_dropped(s, m, streams.drop_last());
        stream_dropped(s1, m1, streams.last().1)
    }
}

/// Closes streams: each is told to the server, and forgotten.
pub fn drop_streams(
    session: &mut Session,
    mirror: &mut RemoteMirror,
    streams: &Vec<(String, u32)>,
)
    requires
        old(session).wf(),
        old(mirror).wf(),
    ensures
        final(session).wf(),
        final(mirror).wf(),
        (final(session)@, final(mirror)@) == streams_dropped(
            old(session)@,
            old(mirror)@,
            streams@,
        ),
        final(mirror)@.remote_index == old(mirror)@.remote_index,
        final(mirror)@.catalog == old(mirror)@.catalog,
{
    let mut i: usize = 0;
    assert(streams@.take(0) =~= Seq::empty());
    while i < streams.len()
        invariant
            session.wf(),
            mirror.wf(),
            mirror@.remote_index == old(mirror)@.remote_index,
            mirror@.catalog == old(mirror)@.catalog,
            i <= streams@.len(),
            (session@, mirror@) == streams_dropped(
                old(session)@,
                old(mirror)@,
                streams@.take(i as int),
            ),
        decreases streams@.len() - i,
    {
        proof {
            assert(streams@.take(i + 1).drop_last() =~= streams@.take(i as int));
            assert(streams@.take(i + 1).last() == streams@[i as int]);
        }
        let stream_id: u32 = streams[i].1;
        let id = session.request_id("close");
        let _ = session.send_control(stream_close_request(id.as_str(), stream_id));
        session.forget_stream(stream_id);
        mirror.stream_closed(stream_id);
        i = i + 1;
    }
    assert(streams@.take(i as int) =~= streams@);
}

impl LoopModel {
    /// The catalog is what the snapshot says, streams of panes that are gone
    /// are closed, and the head clears its status line.
    pub open spec fn resynced(
        self,
        remote: usize,
        snapshot: SessionSnapshot,
        sequence: u64,
        stale: Seq<(String, u32)>,
    ) -> LoopModel {
        let m = MirrorModel {
            catalog: CatalogModel::of_snapshot(snapshot, sequence),
            ..self.mirrors[remote]
        };
        let next = match self.session(remote) {
            Some(s) => {
                let (s1, m1) = streams_dropped(s, m, stale);
                self.with_mirror(remote, m1).with_session(remote, s1)
            },
            None => self,
        };
        if self.session(remote) is Some && remote == LOCAL_REMOTE_INDEX && self.status_line_only() {
            next.with_status(None)
        } else {
            next
        }
    }

    /// The name of a remote as notifications show it.
    pub open spec fn notifier(self, remote: usize) -> Seq<char> {
        match first_match(self.descriptors, at_index(remote)) {
            Some(d) => d.name@,
            None => "remote"@,
        }
    }

    /// A remote's catalog follows an event.
    pub open spec fn followed(self, remote: usize, sequence: u64, data: EventData) -> LoopModel {
        if self.mirrors.contains_key(remote) {
            self.with_mirror(
                remote,
                MirrorModel {
                    catalog: self.mirrors[remote].catalog.after(sequence, data),
                    ..self.mirrors[remote]
                },
            )
        } else {
            self
        }
    }

    /// A stream's replica is there; a stream that is only read is marked.
    pub open spec fn replicated(
        self,
        remote: usize,
        pane: Seq<char>,
        mode: StreamMode,
        stream_id: u32,
        replica: PaneReplica,
    ) -> LoopModel {
        match self.session(remote) {
            Some(s) if self.mirrors.contains_key(remote) => self.with_session(
                remote,
                SessionModel {
                    read_only: if mode == StreamMode::Read {
                        s.read_only.insert(stream_id)
                    } else {
                        s.read_only
                    },
                    ..s
                },
            ).with_mirror(remote, self.mirrors[remote].opened(pane, stream_id, replica)),
            _ => self,
        }
    }

    /// An image is sent to a pane.
    pub open spec fn image_sent(
        self,
        remote: usize,
        pane: Seq<char>,
        extension: Seq<char>,
        bytes: Seq<u8>,
    ) -> LoopModel {
        match self.session(remote) {
            Some(s) => self.with_session(
                remote,
                s.posted(
                    "paste-image"@,
                    Pending::Api,
                    paste_image_view(s.next_id("paste-image"@), pane, extension, bytes),
                ),
            ),
            None => self,
        }
    }

    /// A message to a remote whose answer only surfaces errors.
    pub open spec fn told(self, remote: usize, kind: Seq<char>, message: spec_fn(Seq<char>) -> JsonView)
        -> LoopModel {
        match self.session(remote) {
            Some(s) => self.with_session(
                remote,
                s.posted(kind, Pending::Api, message(s.next_id(kind))),
            ),
            None => self,
        }
    }
}

/// Why older rows are wanted.
#[derive(Clone, Copy, PartialEq, Eq, Structural, Debug)]
pub enum BackfillTrigger {
    /// A stream was opened.
    Attach { focused: bool },
    Scroll,
    JumpToTop,
}

impl BackfillTrigger {
    /// How much to ask for: a page when scrolling, all at once for a jump to
    /// the top. Opening a stream warms a page of the focused pane only.
    pub open spec fn page(self) -> Option<u64> {
        match self {
            BackfillTrigger::Attach { focused } => if focused {
                Some(HISTORY_PAGE_DEFAULT_BYTES as u64)
            } else {
                None
            },
            BackfillTrigger::Scroll => Some(HISTORY_PAGE_DEFAULT_BYTES as u64),
            BackfillTrigger::JumpToTop => Some(HISTORY_FETCH_MAX_BYTES as u64),
        }
    }

    /// How much to ask for.
    pub fn max_bytes(self) -> (r: Option<u64>)
        ensures
            r == self.page(),
    {
        match self {
            BackfillTrigger::Attach { focused: false } => None,
            BackfillTrigger::Attach { focused: true } | BackfillTrigger::Scroll => Some(
                HISTORY_PAGE_DEFAULT_BYTES as u64,
            ),
            BackfillTrigger::JumpToTop => Some(HISTORY_FETCH_MAX_BYTES as u64),
        }
    }
}

impl LoopModel {
    /// Older rows of a stream are asked for, from a cursor on.
    pub open spec fn backfilled(
        self,
        remote: usize,
        stream_id: u32,
        trigger: BackfillTrigger,
        cursor: Option<Seq<char>>,
    ) -> LoopModel {
        if !self.mirrors.contains_key(remote) || !self.mirrors[remote].replicas.contains_key(
            stream_id,
        ) {
            self
        } else {
            match self.session(remote) {
                Some(s) => self.with_session(
                    remote,
                    match (trigger.page(), cursor) {
                        (Some(max_bytes), Some(cursor)) => s.posted(
                            "history"@,
                            Pending::History { stream_id },
                            history_view(s.next_id("history"@), cursor, max_bytes),
                        ),
                        _ => s.numbered(),
                    },
                ),
                None => self,
            }
        }
    }
}

/// Opening the stream of a pane that nobody looks at sends nothing.
pub proof fn unwatched_panes_fetch_nothing(
    m: LoopModel,
    remote: usize,
    stream_id: u32,
    cursor: Option<Seq<char>>,
)
    ensures
        ({
            let next = m.backfilled(
                remote,
                stream_id,
                BackfillTrigger::Attach { focused: false },
                cursor,
            );
            match m.session(remote) {
                Some(s) => next.session(remote) matches Some(t) && t.outbox == s.outbox
                    && t.pending == s.pending,
                None => next == m,
            }
        }),
{
}

impl LoopModel {
    /// The first `n` methods of a modal, one after the other, in the public
    /// ids of the remote they go to.
    pub open spec fn modal_told(
        self,
        remote: usize,
        methods: Seq<Method>,
        n: int,
    ) -> LoopModel
        decreases n,
    {
        if n <= 0 {
            self
        } else {
            self.modal_told(remote, methods, n - 1).told(
                remote,
                "api"@,
                api_message(unscoped_method(self.app, self.ids, methods[n - 1]@)),
            )
        }
    }
}

/// A request for an API method under an id.
pub open spec fn api_message(method: MethodModel) -> spec_fn(Seq<char>) -> JsonView {
    |id: Seq<char>| api_view(id, method.request(id))
}

impl ClientLoop {
    /// Applies a decoded catalog event. A stale one changes nothing.
    pub fn apply_catalog_event(&mut self, remote: usize, sequence: u64, envelope: EventEnvelope)
        requires
            old(self).wf(),
        ensures
            final(self).wf(),
            final(self)@ == old(self)@.followed(remote, sequence, envelope.data),
    {
        if let Some(mirror) = self.mirrors.get_mut(remote) {
            mirror.catalog.apply(sequence, envelope);
        }
    }

    /// Resyncs a remote from a decoded snapshot. Streams of panes that closed
    /// while events were lost do not linger. A remote without a mirror has
    /// nothing to resync.
    pub fn apply_snapshot(&mut self, remote: usize, snapshot: SessionSnapshot, sequence: u64)
        requires
            old(self).wf(),
        ensures
            final(self).wf(),
            final(self)@ == if old(self)@.mirrors.contains_key(remote) {
                old(self)@.resynced(
                    remote,
                    snapshot,
                    sequence,
                    old(self).mirrors.mirrors@[remote].pane_streams.entries@.filter(
                        lost_pane(CatalogModel::of_snapshot(snapshot, sequence)),
                    ),
                )
            } else {
                old(self)@
            },
    {
        if self.mirrors.get(remote).is_none() {
            return;
        }
        let ghost before = self@;
        let ghost c = CatalogModel::of_snapshot(snapshot, sequence);
        let ghost stale = self.mirrors.mirrors@[remote].pane_streams.entries@.filter(lost_pane(c));
        let only_channel: bool = self.local_status_line_is_the_only_channel();
        let mut session = match self.take_session(remote) {
            Some(session) => session,
            None => {
                return;
            },
        };
        if let Some(mirror) = self.mirrors.get_mut(remote) {
            let ghost streams = mirror.pane_streams;
            mirror.resync(snapshot, sequence);
            let gone = lost_streams(mirror);
            drop_streams(&mut session, mirror, &gone);
            assert(gone@ == stale);
        }
        self.put_session(remote, session);
        if remote == LOCAL_REMOTE_INDEX && only_channel {
            self.chrome.connection_status = None;
        }
        proof {
            let after = before.resynced(remote, snapshot, sequence, stale);
            assert(self@.links =~= after.links);
            assert(self@.mirrors =~= after.mirrors);
        }
    }

    /// The message of a notification, labelled with its remote.
    pub fn notification_message(&self, remote: usize, message: &str) -> (r: String)
        ensures
            r@ == labeled(self@.notifier(remote), self@.descriptors.len(), message@),
    {
        match descriptor_at(self.descriptors.as_slice(), remote) {
            Some(d) => labeled_notification_message(
                d.name.as_str(),
                self.descriptors.len(),
                message,
            ),
            None => labeled_notification_message("remote", self.descriptors.len(), message),
        }
    }

    /// Records a replica that opened. A read-only stream's size is its
    /// writer's. Without a session or a mirror there is nothing to record.
    pub fn replica_opened(
        &mut self,
        remote: usize,
        pane_id: String,
        mode: StreamMode,
        stream_id: u32,
        replica: PaneReplica,
    )
        requires
            old(self).wf(),
        ensures
            final(self).wf(),
            final(self)@ == old(self)@.replicated(remote, pane_id@, mode, stream_id, replica),
    {
        let ghost before = self@;
        if self.mirrors.get(remote).is_none() {
            return;
        }
        let mut session = match self.take_session(remote) {
            Some(session) => session,
            None => {
                return;
            },
        };
        if mode == StreamMode::Read {
            session.read_only.insert(stream_id);
        }
        self.put_session(remote, session);
        assert(self@.links =~= before.with_session(remote, session@).links);
        if let Some(mirror) = self.mirrors.get_mut(remote) {
            mirror.stream_opened(pane_id, stream_id, replica);
        }
    }

    /// Asks for older rows of a stream that has a replica. `cursor` is where
    /// they continue, or none where the replica wants none for now.
    pub fn request_backfill(
        &mut self,
        remote: usize,
        stream_id: u32,
        trigger: BackfillTrigger,
        cursor: Option<&str>,
    )
        requires
            old(self).wf(),
        ensures
            final(self).wf(),
            final(self)@ == old(self)@.backfilled(
                remote,
                stream_id,
                trigger,
                match cursor {
                    Some(c) => Some(c@),
                    None => None,
                },
            ),
    {
        let ghost before = self@;
        let known: bool = match self.mirrors.get(remote) {
            Some(mirror) => mirror.replicas.contains(&stream_id),
            None => false,
        };
        if !known {
            return;
        }
        if let Some(mut session) = self.take_session(remote) {
            let id = session.request_id("history");
            if let (Some(max_bytes), Some(cursor)) = (trigger.max_bytes(), cursor) {
                let request = stream_history_request(id.as_str(), cursor, max_bytes);
                session.expect(id, Pending::History { stream_id });
                let _ = session.send_control(request);
            }
            self.put_session(remote, session);
            assert(self@.links =~= before.with_session(remote, session@).links);
        }
    }

    /// The composed pane whose rows were renumbered by older rows landing
    /// above them. Nothing landed, or no pane composed: nothing to renumber.
    pub fn pane_to_rebase(&self, remote: usize, stream_id: u32, rows: usize) -> (r: Option<usize>)
        requires
            self.wf(),
        ensures
            match r {
                Some(pane) => {
                    let m = self.mirrors.mirrors@[remote];
                    &&& rows > 0
                    &&& self@.mirrors.contains_key(remote)
                    &&& m.replicas@.contains_key(stream_id)
                    &&& first_match(m.pane_streams.entries@, served_by(stream_id)) matches Some(e)
                        && knows(self.ids.slots@, remote, e.0@) && pane == id_of(
                        self.ids.slots@,
                        remote,
                        e.0@,
                    )
                },
                None => {
                    ||| rows == 0
                    ||| !self@.mirrors.contains_key(remote)
                    ||| !self@.mirrors[remote].replicas.contains_key(stream_id)
                    ||| forall|public: Seq<char>| #[trigger]
                        self@.mirrors[remote].pane_streams.contains_key(public)
                            ==> self@.mirrors[remote].pane_streams[public] != stream_id
                    ||| first_match(
                        self.mirrors.mirrors@[remote].pane_streams.entries@,
                        served_by(stream_id),
                    ) matches Some(e) && !knows(self.ids.slots@, remote, e.0@)
                },
            },
    {
        if rows == 0 {
            return None;
        }
        match self.mirrors.get(remote) {
            Some(mirror) => {
                if !mirror.replicas.contains(&stream_id) {
                    return None;
                }
                match mirror.pane_for_stream(stream_id) {
                    Some(public) => {
                        proof {
                            crate::seqs::first_index_props(
                                mirror.pane_streams.entries@,
                                served_by(stream_id),
                            );
                            let k = mirror.pane_streams.pos(public@);
                            assert(mirror.pane_streams.at(k, public@));
                            mirror.pane_streams.lemma_at(k);
                            assert(served_by(stream_id)(mirror.pane_streams.entries@[k]));
                        }
                        self.ids.composed_pane_id(remote, public)
                    },
                    None => None,
                }
            },
            None => None,
        }
    }

    /// Sends an API method to a remote.
    pub fn send_api_request(&mut self, remote: usize, method: &Method)
        requires
            old(self).wf(),
        ensures
            final(self).wf(),
            final(self)@ == old(self)@.told(remote, "api"@, api_message(method@)),
    {
        let ghost before = self@;
        if let Some(mut session) = self.take_session(remote) {
            let id = session.request_id("api");
            let request = method.to_request(id.as_str());
            let control = api_control_request(id.as_str(), request);
            session.expect(id, Pending::Api);
            let _ = session.send_control(control);
            self.put_session(remote, session);
            assert(self@.links =~= before.told(remote, "api"@, api_message(method@)).links);
        }
    }

    /// Sends what a modal came to, to the remote of the selected workspace.
    pub fn send_modal_methods(&mut self, methods: Vec<Method>, fallback: usize)
        requires
            old(self).wf(),
        ensures
            final(self).wf(),
            final(self)@ == old(self)@.modal_told(
                modal_target(old(self)@.app, old(self)@.ids, fallback),
                methods@,
                methods@.len() as int,
            ),
    {
        let ghost before = self@;
        let ghost asked = methods@;
        let remote: usize = modal_target_remote(&self.app, &self.ids, fallback);
        let named = unscope_workspace_methods(methods, &self.app, &self.ids);
        let mut i: usize = 0;
        while i < named.len()
            invariant
                self.wf(),
                i <= named@.len(),
                named@.len() == asked.len(),
                forall|j: int|
                    0 <= j < named@.len() ==> (#[trigger] named@[j])@ == unscoped_method(
                        before.app,
                        before.ids,
                        asked[j]@,
                    ),
                self@ == before.modal_told(remote, asked, i as int),
            decreases named@.len() - i,
        {
            self.send_api_request(remote, &named[i]);
            i = i + 1;
        }
    }

    /// Sends bytes to a pane. No answer is awaited.
    pub fn send_pane_bytes(&mut self, remote: usize, pane_id: &str, bytes: &[u8])
        requires
            old(self).wf(),
        ensures
            final(self).wf(),
            final(self)@ == old(self)@.typed_into(remote, pane_id@, bytes@),
    {
        let ghost before = self@;
        if let Some(mut session) = self.take_session(remote) {
            let id = session.request_id("input");
            let request = pane_send_bytes_request(id.as_str(), pane_id, bytes);
            let _ = session.send_control(request);
            self.put_session(remote, session);
            assert(self@.links =~= before.with_session(remote, session@).links);
        }
    }

    /// Pastes an image into a pane; false when its link is down.
    pub fn send_paste_image(&mut self, remote: usize, pane_id: &str, extension: &str, bytes: &[u8])
        -> (r: bool)
        requires
            old(self).wf(),
        ensures
            final(self).wf(),
            r == (old(self)@.session(remote) is Some),
            final(self)@ == old(self)@.image_sent(remote, pane_id@, extension@, bytes@),
    {
        let ghost before = self@;
        match self.take_session(remote) {
            Some(mut session) => {
                let id = session.request_id("paste-image");
                let request = pane_paste_image_request(id.as_str(), pane_id, extension, bytes);
                session.expect(id, Pending::Api);
                let _ = session.send_control(request);
                self.put_session(remote, session);
                assert(self@.links =~= before.with_session(remote, session@).links);
                true
            },
            None => false,
        }
    }

    /// Where a pasted image would go: an empty paste over the focused pane of
    /// a remote that takes images. Anything else is pasted as text.
    pub open spec fn image_paste_target(&self, text: Seq<char>) -> Option<(usize, Seq<char>)> {
        match self@.focused_public() {
            Some((remote, public)) => if self@.mirrors[remote].connection.grants(
                CAPABILITY_PASTE_IMAGE@,
            ) && text.len() == 0 {
                Some((remote, public))
            } else {
                None
            },
            None => None,
        }
    }

    /// Where a pasted image would go, if this paste can be one.
    pub fn paste_image_target(&self, text: &str) -> (r: Option<(usize, String)>)
        requires
            self.wf(),
        ensures
            match r {
                Some((remote, public)) => self.image_paste_target(text@) == Some(
                    (remote, public@),
                ),
                None => self.image_paste_target(text@) is None,
            },
    {
        match self.focused_public_pane() {
            Some((remote, public)) => {
                let takes: bool = match self.mirrors.get(remote) {
                    Some(mirror) => mirror.connection.has_capability(CAPABILITY_PASTE_IMAGE),
                    None => false,
                };
                if takes && text.is_empty() {
                    Some((remote, public))
                } else {
                    None
                }
            },
            None => None,
        }
    }
}

impl ClientLoop {
    /// Pastes a clipboard image if this paste can be one. True when the paste
    /// is dealt with: the image is on its way, or is too large to go.
    pub fn try_paste_image(
        &mut self,
        text: &str,
        extension: &str,
        bytes: &[u8],
        max_bytes: usize,
    ) -> (r: bool)
        requires
            old(self).wf(),
        ensures
            final(self).wf(),
            match old(self).image_paste_target(text@) {
                None => !r && final(self)@ == old(self)@,
                Some((remote, public)) => if bytes@.len() > max_bytes {
                    r && final(self)@ == old(self)@
                } else {
                    &&& r == (old(self)@.session(remote) is Some)
                    &&& final(self)@ == old(self)@.image_sent(remote, public, extension@, bytes@)
                },
            },
    {
        match self.paste_image_target(text) {
            None => false,
            Some((remote, public)) => {
                if bytes.len() > max_bytes {
                    return true;
                }
                self.send_paste_image(remote, public.as_str(), extension, bytes)
            },
        }
    }
}

/// The streams whose panes left the catalog, in pane order.
fn lost_streams(mirror: &RemoteMirror) -> (r: Vec<(String, u32)>)
    requires
        mirror.wf(),
    ensures
        r@ == mirror.pane_streams.entries@.filter(lost_pane(mirror@.catalog)),
{
    let ghost p = lost_pane(mirror@.catalog);
    let ghost all = mirror.pane_streams.entries@;
    let mut out: Vec<(String, u32)> = Vec::new();
    let mut i: usize = 0;
    proof {
        reveal(Seq::filter);
        assert(out@ =~= all.take(0).filter(p));
    }
    while i < mirror.pane_streams.entries.len()
        invariant
            all == mirror.pane_streams.entries@,
            p == lost_pane(mirror@.catalog),
            i <= all.len(),
            out@ == all.take(i as int).filter(p),
        decreases all.len() - i,
    {
        let entry = &mirror.pane_streams.entries[i];
        proof {
            assert(all.take(i + 1) =~= all.take(i as int).push(*entry));
            all.take(i as int).lemma_filter_push(*entry, p);
        }
        if mirror.catalog.pane(entry.0.as_str()).is_none() {
            out.push((entry.0.clone(), entry.1));
        }
        i = i + 1;
    }
    assert(all.take(i as int) =~= all);
    out
}

/// Text as it is pasted: wrapped in paste brackets where the pane asked for
/// them.
pub open spec fn pasted(text: Seq<u8>, bracketed: bool) -> Seq<u8> {
    if bracketed {
        seq![0x1bu8, 0x5b, 0x32, 0x30, 0x30, 0x7e] + text + seq![0x1bu8, 0x5b, 0x32, 0x30, 0x31, 0x7e]
    } else {
        text
    }
}

fn push_all(out: &mut Vec<u8>, bytes: &[u8])
    ensures
        final(out)@ == old(out)@ + bytes@,
{
    let ghost before = out@;
    out.extend_from_slice(bytes);
    assert(out@ =~= before + bytes@);
}

/// Encodes a text paste.
pub fn encode_paste(text: &str, bracketed: bool) -> (r: Vec<u8>)
    ensures
        r@ == pasted(vstd::utf8::encode_utf8(text@), bracketed),
{
    let mut out: Vec<u8> = Vec::new();
    if bracketed {
        let open: [u8; 6] = [0x1b, 0x5b, 0x32, 0x30, 0x30, 0x7e];
        let close: [u8; 6] = [0x1b, 0x5b, 0x32, 0x30, 0x31, 0x7e];
        push_all(&mut out, &open);
        push_all(&mut out, text.as_bytes());
        push_all(&mut out, &close);
    } else {
        push_all(&mut out, text.as_bytes());
    }
    assert(out@ =~= pasted(vstd::utf8::encode_utf8(text@), bracketed));
    out
}

} // verus!
