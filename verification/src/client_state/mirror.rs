//! One remote's mirrored state: connection, catalog and pane replicas, and
//! the collection of all mirrors.
use crate::api::schema::SessionSnapshot;
use crate::client_state::catalog::{CatalogModel, SessionCatalog};
use crate::client_state::connection::{ClientConnectionState, ConnectionModel};
use crate::protocol::framed::StreamOpened;
use crate::seqs::{find, first_match};
use crate::sorted_map::{kept, SortedMap};
use vstd::prelude::*;

verus! {

/// Index of the fleet's first remote: the only index guaranteed to exist in
/// a fleet that is not empty.
pub const LOCAL_REMOTE_INDEX: usize = 0;

/// Name of a local runtime at the fleet's head.
pub const LOCAL_REMOTE_NAME: &'static str = "local";

/// How a replicated pane screen was seeded.
#[derive(Clone, PartialEq, Eq, Debug)]
pub struct PaneReplica {
    pub snapshot: String,
    pub sequence: u64,
    pub history_cursor: Option<String>,
    pub cols: u16,
    pub rows: u16,
}

impl PaneReplica {
    /// The screen that an opened stream seeds, at that size. An empty cursor
    /// means that there is no older history.
    pub fn seeded(opened: StreamOpened, cols: u16, rows: u16) -> (r: PaneReplica)
        ensures
            r == (PaneReplica {
                snapshot: opened.snapshot,
                sequence: opened.sequence,
                history_cursor: if opened.history_cursor@.len() == 0 {
                    None
                } else {
                    Some(opened.history_cursor)
                },
                cols,
                rows,
            }),
    {
        PaneReplica {
            snapshot: opened.snapshot,
            sequence: opened.sequence,
            history_cursor: if opened.history_cursor.as_str().is_empty() {
                None
            } else {
                Some(opened.history_cursor)
            },
            cols,
            rows,
        }
    }
}

/// One remote's mirrored state.
#[derive(Debug)]
pub struct RemoteMirror {
    /// Stable remote index.
    pub remote_index: usize,
    /// Display name.
    pub name: String,
    pub connection: ClientConnectionState,
    /// Event-driven session catalog, resynced in full on reconnect.
    pub catalog: SessionCatalog,
    /// Replicated pane screens by server stream id.
    pub replicas: SortedMap<u32, PaneReplica>,
    /// Open stream id by public pane id.
    pub pane_streams: SortedMap<String, u32>,
}

/// The mathematical value of a mirror.
pub struct MirrorModel {
    pub remote_index: usize,
    pub name: Seq<char>,
    pub connection: ConnectionModel,
    pub catalog: CatalogModel,
    pub replicas: Map<u32, PaneReplica>,
    pub pane_streams: Map<Seq<char>, u32>,
}

impl View for RemoteMirror {
    type V = MirrorModel;

    open spec fn view(&self) -> MirrorModel {
        MirrorModel {
            remote_index: self.remote_index,
            name: self.name@,
            connection: self.connection@,
            catalog: self.catalog@,
            replicas: self.replicas@,
            pane_streams: self.pane_streams@,
        }
    }
}

/// Keeps every stream but `stream_id`.
pub open spec fn not_stream(stream_id: u32) -> spec_fn(Seq<char>, u32) -> bool {
    |pane: Seq<char>, id: u32| id != stream_id
}

/// An entry served by `stream_id`.
pub open spec fn served_by(stream_id: u32) -> spec_fn((String, u32)) -> bool {
    |e: (String, u32)| e.1 == stream_id
}

impl MirrorModel {
    pub open spec fn fresh(remote_index: usize, name: Seq<char>) -> MirrorModel {
        MirrorModel {
            remote_index,
            name,
            connection: ConnectionModel::Disconnected,
            catalog: CatalogModel::empty(),
            replicas: Map::empty(),
            pane_streams: Map::empty(),
        }
    }

    /// Nothing mirrored is left.
    pub open spec fn cleared(self) -> MirrorModel {
        MirrorModel {
            catalog: CatalogModel::empty(),
            replicas: Map::empty(),
            pane_streams: Map::empty(),
            ..self
        }
    }

    /// The connection failed; its streams went with it, the catalog stays.
    pub open spec fn lost(self, error: Seq<char>) -> MirrorModel {
        MirrorModel {
            connection: self.connection.failed(error),
            replicas: Map::empty(),
            pane_streams: Map::empty(),
            ..self
        }
    }

    pub open spec fn opened(self, pane: Seq<char>, stream_id: u32, replica: PaneReplica) -> MirrorModel {
        MirrorModel {
            pane_streams: self.pane_streams.insert(pane, stream_id),
            replicas: if self.pane_streams.contains_key(pane) {
                self.replicas.remove(self.pane_streams[pane]).insert(stream_id, replica)
            } else {
                self.replicas.insert(stream_id, replica)
            },
            ..self
        }
    }

    pub open spec fn closed(self, stream_id: u32) -> MirrorModel {
        MirrorModel {
            replicas: self.replicas.remove(stream_id),
            pane_streams: kept(self.pane_streams, not_stream(stream_id)),
            ..self
        }
    }

    pub open spec fn stream_for_pane(self, pane: Seq<char>) -> Option<u32> {
        if self.pane_streams.contains_key(pane) {
            Some(self.pane_streams[pane])
        } else {
            None
        }
    }

    /// Every stream serves one catalog pane and has a replica, every replica
    /// has its stream, and nothing streamed outlives the connection.
    pub open spec fn streams_sound(self) -> bool {
        &&& forall|pane: Seq<char>| #[trigger]
            self.pane_streams.contains_key(pane) ==> self.replicas.contains_key(
                self.pane_streams[pane],
            ) && self.catalog.has_pane(pane)
        &&& forall|a: Seq<char>, b: Seq<char>| #[trigger]
            self.pane_streams.contains_key(a) && #[trigger] self.pane_streams.contains_key(b)
                && self.pane_streams[a] == self.pane_streams[b] ==> a == b
        &&& forall|id: u32| #[trigger]
            self.replicas.contains_key(id) ==> exists|pane: Seq<char>| #[trigger]
                self.pane_streams.contains_key(pane) && self.pane_streams[pane] == id
        &&& !(self.connection is Connected) ==> self.replicas =~= Map::empty()
            && self.pane_streams =~= Map::empty()
    }
}

impl RemoteMirror {
    /// The maps of the mirror are in key order.
    pub open spec fn wf(&self) -> bool {
        self.replicas.wf() && self.pane_streams.wf()
    }

    pub fn new(remote_index: usize, name: String) -> (r: RemoteMirror)
        ensures
            r.wf(),
            r@ == MirrorModel::fresh(remote_index, name@),
    {
        RemoteMirror {
            remote_index,
            name,
            connection: ClientConnectionState::new(),
            catalog: SessionCatalog::new(),
            replicas: SortedMap::new(),
            pane_streams: SortedMap::new(),
        }
    }

    /// A mirror at the fleet's head, named as the local runtime.
    pub fn local() -> (r: RemoteMirror)
        ensures
            r.wf(),
            r@ == MirrorModel::fresh(LOCAL_REMOTE_INDEX, LOCAL_REMOTE_NAME@),
    {
        RemoteMirror::new(LOCAL_REMOTE_INDEX, LOCAL_REMOTE_NAME.to_owned())
    }

    fn clear_mirrored_state(&mut self)
        requires
            old(self).wf(),
        ensures
            final(self).wf(),
            final(self)@ == old(self)@.cleared(),
    {
        self.catalog = SessionCatalog::new();
        self.replicas.clear();
        self.pane_streams.clear();
    }

    /// Discards all replicated state ahead of a full resync: the fresh
    /// snapshot plus re-opened streams are then the only source of truth.
    pub fn begin_resync(&mut self)
        requires
            old(self).wf(),
        ensures
            final(self).wf(),
            final(self)@ == old(self)@.cleared(),
    {
        self.clear_mirrored_state();
    }

    /// Drops everything mirrored from a session that is gone for good. The
    /// connection state is left alone: the caller decides what parked it.
    pub fn session_ended(&mut self)
        requires
            old(self).wf(),
        ensures
            final(self).wf(),
            final(self)@ == old(self)@.cleared(),
    {
        self.clear_mirrored_state();
    }

    /// Drops connection-scoped state when the session ends. Stream ids and
    /// replicas mean nothing across connections; the catalog is kept, so a
    /// remote that is expected back does not flicker.
    pub fn connection_lost(&mut self, error: String)
        requires
            old(self).wf(),
        ensures
            final(self).wf(),
            final(self)@ == old(self)@.lost(error@),
    {
        self.connection.connection_failed(error);
        self.replicas.clear();
        self.pane_streams.clear();
    }

    /// The stream id serving `pane_id`, when one is open.
    pub fn stream_for_pane(&self, pane_id: &str) -> (r: Option<u32>)
        requires
            self.wf(),
        ensures
            r == self@.stream_for_pane(pane_id@),
    {
        let key = pane_id.to_owned();
        match self.pane_streams.get(&key) {
            Some(id) => Some(*id),
            None => None,
        }
    }

    /// The public pane id served by `stream_id`, when one is open.
    pub fn pane_for_stream(&self, stream_id: u32) -> (r: Option<&str>)
        requires
            self.wf(),
        ensures
            match r {
                Some(pane) => self@.pane_streams.contains_key(pane@) && self@.pane_streams[pane@]
                    == stream_id && first_match(
                    self.pane_streams.entries@,
                    served_by(stream_id),
                ).unwrap().0@ == pane@,
                None => forall|pane: Seq<char>| #[trigger]
                    self@.pane_streams.contains_key(pane) ==> self@.pane_streams[pane]
                        != stream_id,
            },
    {
        let test = |e: &(String, u32)| -> (b: bool)
            ensures
                b == (e.1 == stream_id),
            { e.1 == stream_id };
        let i: usize = find(
            self.pane_streams.entries.as_slice(),
            test,
            Ghost(served_by(stream_id)),
        );
        if i < self.pane_streams.entries.len() {
            proof {
                self.pane_streams.lemma_at(i as int);
            }
            Some(self.pane_streams.entries[i].0.as_str())
        } else {
            proof {
                assert forall|pane: Seq<char>| #[trigger]
                    self@.pane_streams.contains_key(pane) implies self@.pane_streams[pane]
                    != stream_id by {
                    let k = self.pane_streams.pos(pane);
                    assert(self.pane_streams.at(k, pane));
                    self.pane_streams.lemma_at(k);
                    assert(!served_by(stream_id)(self.pane_streams.entries@[k]));
                }
            }
            None
        }
    }

    /// Records an opened pane stream and its seeded replica. A pane's earlier
    /// stream loses its replica.
    pub fn stream_opened(&mut self, pane_id: String, stream_id: u32, replica: PaneReplica)
        requires
            old(self).wf(),
        ensures
            final(self).wf(),
            final(self)@ == old(self)@.opened(pane_id@, stream_id, replica),
    {
        let previous: Option<u32> = self.stream_for_pane(pane_id.as_str());
        self.pane_streams.insert(pane_id, stream_id);
        if let Some(previous) = previous {
            self.replicas.remove(&previous);
        }
        self.replicas.insert(stream_id, replica);
    }

    /// Mutable access to the replica behind a stream id.
    pub fn replica_mut(&mut self, stream_id: u32) -> (r: Option<&mut PaneReplica>)
        requires
            old(self).wf(),
        ensures
            final(self).wf(),
            match r {
                Some(replica) => old(self)@.replicas.contains_key(stream_id) && *replica
                    == old(self)@.replicas[stream_id] && final(self)@ == (MirrorModel {
                    replicas: old(self)@.replicas.insert(stream_id, *final(replica)),
                    ..old(self)@
                }),
                None => !old(self)@.replicas.contains_key(stream_id) && final(self)@
                    == old(self)@,
            },
    {
        self.replicas.get_mut(&stream_id)
    }

    /// Removes a closed or revoked stream and its replica.
    pub fn stream_closed(&mut self, stream_id: u32)
        requires
            old(self).wf(),
        ensures
            final(self).wf(),
            final(self)@ == old(self)@.closed(stream_id),
    {
        self.replicas.remove(&stream_id);
        let test = |e: &(String, u32)| -> (b: bool)
            ensures
                b == (e.1 != stream_id),
            { e.1 != stream_id };
        self.pane_streams.retain(test, Ghost(not_stream(stream_id)));
    }

    /// Replaces the catalog by a fresh one built from a snapshot.
    pub fn resync(&mut self, snapshot: SessionSnapshot, sequence: u64)
        requires
            old(self).wf(),
        ensures
            final(self).wf(),
            final(self)@ == (MirrorModel {
                catalog: CatalogModel::of_snapshot(snapshot, sequence),
                ..old(self)@
            }),
            final(self).pane_streams == old(self).pane_streams,
    {
        let mut catalog = SessionCatalog::new();
        catalog.resync(snapshot, sequence);
        self.catalog = catalog;
    }
}

/// Opening a stream for a catalog pane on a live connection keeps the streams
/// sound, as the server never hands out a stream id twice. Reopening a pane
/// leaves exactly one stream and one replica for it.
pub proof fn opening_keeps_streams_sound(
    m: MirrorModel,
    pane: Seq<char>,
    stream_id: u32,
    replica: PaneReplica,
)
    requires
        m.streams_sound(),
        m.connection is Connected,
        m.catalog.has_pane(pane),
        !m.replicas.contains_key(stream_id),
    ensures
        m.opened(pane, stream_id, replica).streams_sound(),
        m.opened(pane, stream_id, replica).stream_for_pane(pane) == Some(stream_id),
        m.opened(pane, stream_id, replica).replicas.contains_key(stream_id),
        m.opened(pane, stream_id, replica).replicas[stream_id] == replica,
        m.stream_for_pane(pane) matches Some(previous) ==> !m.opened(
            pane,
            stream_id,
            replica,
        ).replicas.contains_key(previous),
{
    let r = m.opened(pane, stream_id, replica);
    assert forall|p: Seq<char>| #[trigger]
        r.pane_streams.contains_key(p) implies r.replicas.contains_key(r.pane_streams[p])
        && r.catalog.has_pane(p) by {
        if p != pane {
            assert(m.pane_streams.contains_key(p));
            if m.pane_streams.contains_key(pane) {
                assert(m.pane_streams[p] != m.pane_streams[pane]);
            }
        }
    }
    assert forall|a: Seq<char>, b: Seq<char>| #[trigger]
        r.pane_streams.contains_key(a) && #[trigger] r.pane_streams.contains_key(b)
            && r.pane_streams[a] == r.pane_streams[b] implies a == b by {
        if a != pane {
            assert(m.pane_streams.contains_key(a));
        }
        if b != pane {
            assert(m.pane_streams.contains_key(b));
        }
    }
    assert forall|id: u32| #[trigger] r.replicas.contains_key(id) implies exists|p: Seq<char>|
        #[trigger]
        r.pane_streams.contains_key(p) && r.pane_streams[p] == id by {
        if id == stream_id {
            assert(r.pane_streams.contains_key(pane));
        } else {
            assert(m.replicas.contains_key(id));
            let p = choose|p: Seq<char>| #[trigger]
                m.pane_streams.contains_key(p) && m.pane_streams[p] == id;
            assert(p != pane);
            assert(r.pane_streams.contains_key(p));
        }
    }
}

/// Closing a stream keeps the rest sound, and leaves no trace of it.
pub proof fn closing_keeps_streams_sound(m: MirrorModel, stream_id: u32)
    requires
        m.streams_sound(),
    ensures
        m.closed(stream_id).streams_sound(),
        !m.closed(stream_id).replicas.contains_key(stream_id),
        forall|pane: Seq<char>|
            m.closed(stream_id).stream_for_pane(pane) != Some(stream_id),
        forall|pane: Seq<char>| #[trigger]
            m.stream_for_pane(pane) != Some(stream_id) ==> m.closed(stream_id).stream_for_pane(
                pane,
            ) == m.stream_for_pane(pane),
{
    let r = m.closed(stream_id);
    assert forall|p: Seq<char>| #[trigger]
        r.pane_streams.contains_key(p) implies r.replicas.contains_key(r.pane_streams[p])
        && r.catalog.has_pane(p) by {
        assert(m.pane_streams.contains_key(p));
    }
    assert forall|a: Seq<char>, b: Seq<char>| #[trigger]
        r.pane_streams.contains_key(a) && #[trigger] r.pane_streams.contains_key(b)
            && r.pane_streams[a] == r.pane_streams[b] implies a == b by {
        assert(m.pane_streams.contains_key(a) && m.pane_streams.contains_key(b));
    }
    assert forall|id: u32| #[trigger] r.replicas.contains_key(id) implies exists|p: Seq<char>|
        #[trigger]
        r.pane_streams.contains_key(p) && r.pane_streams[p] == id by {
        assert(m.replicas.contains_key(id));
        let p = choose|p: Seq<char>| #[trigger]
            m.pane_streams.contains_key(p) && m.pane_streams[p] == id;
        assert(r.pane_streams.contains_key(p));
    }
}

/// Whatever was streamed, nothing of it survives the loss of the connection
/// or the start of a resync; a resync forgets the catalog too.
pub proof fn nothing_streamed_outlives_its_connection(m: MirrorModel, error: Seq<char>)
    ensures
        m.lost(error).streams_sound(),
        m.lost(error).catalog == m.catalog,
        m.cleared().streams_sound(),
        m.cleared().catalog == CatalogModel::empty(),
{
}

/// The mirrors of the fleet by remote index. Every configured remote keeps
/// its mirror, whatever the view selection.
#[derive(Debug)]
pub struct RemoteMirrors {
    pub mirrors: SortedMap<usize, RemoteMirror>,
}

impl RemoteMirrors {
    /// Mirrors stand in key order under their own index, each well-formed.
    pub open spec fn wf(&self) -> bool {
        &&& self.mirrors.wf()
        &&& forall|i: usize| #[trigger]
            self.mirrors@.contains_key(i) ==> self.mirrors@[i].wf()
                && self.mirrors@[i].remote_index == i
    }

    pub open spec fn view(&self) -> Map<usize, MirrorModel> {
        Map::new(|i: usize| self.mirrors@.contains_key(i), |i: usize| self.mirrors@[i]@)
    }

    /// An empty collection: no runtime is implicit.
    pub fn new() -> (r: RemoteMirrors)
        ensures
            r.wf(),
            r@ == Map::<usize, MirrorModel>::empty(),
    {
        let r = RemoteMirrors { mirrors: SortedMap::new() };
        assert(r@ =~= Map::<usize, MirrorModel>::empty());
        r
    }

    /// A collection with one local mirror at its head.
    pub fn with_local() -> (r: RemoteMirrors)
        ensures
            r.wf(),
            r@ == Map::<usize, MirrorModel>::empty().insert(
                LOCAL_REMOTE_INDEX,
                MirrorModel::fresh(LOCAL_REMOTE_INDEX, LOCAL_REMOTE_NAME@),
            ),
    {
        let mut r = RemoteMirrors::new();
        r.insert(RemoteMirror::local());
        r
    }

    pub fn len(&self) -> (r: usize)
        ensures
            r == self.mirrors.entries@.len(),
    {
        self.mirrors.len()
    }

    pub fn get(&self, remote_index: usize) -> (r: Option<&RemoteMirror>)
        requires
            self.wf(),
        ensures
            match r {
                Some(m) => m.wf() && self@.contains_key(remote_index) && m@ == self@[remote_index]
                    && self.mirrors@.contains_key(remote_index) && *m
                    == self.mirrors@[remote_index],
                None => !self@.contains_key(remote_index),
            },
    {
        self.mirrors.get(&remote_index)
    }

    /// Mutable access to a mirror, which keeps its index and its maps sound.
    pub fn get_mut(&mut self, remote_index: usize) -> (r: Option<&mut RemoteMirror>)
        requires
            old(self).wf(),
        ensures
            match r {
                Some(m) => {
                    &&& m.wf()
                    &&& old(self)@.contains_key(remote_index)
                    &&& m@ == old(self)@[remote_index]
                    &&& *m == old(self).mirrors@[remote_index]
                    &&& m@.remote_index == remote_index
                    &&& final(m).wf() && final(m)@.remote_index == remote_index
                        ==> final(self).wf()
                    &&& final(self)@ == old(self)@.insert(remote_index, final(m)@)
                    &&& final(self).mirrors@ == old(self).mirrors@.insert(remote_index, *final(m))
                },
                None => !old(self)@.contains_key(remote_index) && *final(self) == *old(self)
                    && final(self).wf(),
            },
    {
        let ghost before = self@;
        let ghost held = self.mirrors@;
        proof {
            assert forall|after: RemoteMirrors, m: RemoteMirror|
                #![trigger after.view(), held.insert(remote_index, m)]
                held.contains_key(remote_index) && after.mirrors@ == held.insert(
                    remote_index,
                    m,
                ) implies after@ == before.insert(remote_index, m@) by {
                assert(after@ =~= before.insert(remote_index, m@));
            }
        }
        self.mirrors.get_mut(&remote_index)
    }

    /// Registers a mirror, replacing any earlier one at its index.
    pub fn insert(&mut self, mirror: RemoteMirror)
        requires
            old(self).wf(),
            mirror.wf(),
        ensures
            final(self).wf(),
            final(self)@ == old(self)@.insert(mirror.remote_index, mirror@),
    {
        let ghost before = self@;
        self.mirrors.insert(mirror.remote_index, mirror);
        assert(self@ =~= before.insert(mirror.remote_index, mirror@));
    }

    /// Drops a remote's mirror.
    pub fn remove(&mut self, remote_index: usize)
        requires
            old(self).wf(),
        ensures
            final(self).wf(),
            final(self)@ == old(self)@.remove(remote_index),
    {
        let ghost before = self@;
        self.mirrors.remove(&remote_index);
        assert(self@ =~= before.remove(remote_index));
    }

    /// Whether some remote is connecting right now.
    pub fn any_connecting(&self) -> (r: bool)
        requires
            self.wf(),
        ensures
            r == exists|i: usize| #[trigger]
                self@.contains_key(i) && self@[i].connection is Connecting,
    {
        let mut i: usize = 0;
        while i < self.mirrors.entries.len()
            invariant
                self.wf(),
                i <= self.mirrors.entries@.len(),
                forall|j: int|
                    0 <= j < i ==> !((#[trigger] self.mirrors.entries@[j]).1.connection@ is
                        Connecting),
            decreases self.mirrors.entries@.len() - i,
        {
            if self.mirrors.entries[i].1.connection.is_connecting() {
                proof {
                    self.mirrors.lemma_at(i as int);
                    assert(self@.contains_key(self.mirrors.entries@[i as int].0));
                }
                return true;
            }
            i = i + 1;
        }
        proof {
            assert forall|k: usize| #[trigger] self@.contains_key(k) implies !(self@[k].connection
                is Connecting) by {
                let p = self.mirrors.pos(k);
                assert(self.mirrors.at(p, k));
                self.mirrors.lemma_at(p);
            }
        }
        false
    }
}

} // verus!
