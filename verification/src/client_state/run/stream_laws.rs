//! What a sync of pane streams tells the server, message by message.
use crate::api::schema::PaneInfo;
use crate::api::server::requests::{request_in, resize_params, StreamResizeParams};
use crate::api::server::wire_laws::resizes_survive_the_wire;
use crate::client_state::compose::scoped;
use crate::client_state::mirror::MirrorModel;
use crate::client_state::run::effects::{lost_pane, streams_dropped};
use crate::client_state::run::state::LoopModel;
use crate::client_state::run::streams::{
    hidden_from, opening, opens, pane_of_terminal, resize_stream, resized, resized_once, synced, visible_in,
    PaneResizeRequest,
};
use crate::client_state::catalog::CatalogModel;
use crate::client_state::session::{Pending, SessionModel};
use crate::json::{written, JsonView};
use crate::protocol::framed::{close_view, open_view, resize_view, StreamMode};
use crate::protocol::wire_shapes::param;
use vstd::prelude::*;

verus! {

/// A message of exactly a resize of that stream to that size: what its
/// members say, and what the server reads from its bytes.
pub open spec fn tells_size(v: JsonView, stream_id: u32, cols: u16, rows: u16) -> bool {
    &&& v.field("method"@) == Some(JsonView::Text("stream.resize"@))
    &&& param(v, "stream_id"@) == Some(JsonView::Unsigned(stream_id as u64))
    &&& param(v, "cols"@) == Some(JsonView::Unsigned(cols as u64))
    &&& param(v, "rows"@) == Some(JsonView::Unsigned(rows as u64))
    &&& forall|bytes: Seq<u8>| #[trigger]
        written(bytes, v) ==> (request_in(bytes) matches Some(r) && r.method == "stream.resize"@
            && (resize_params(r.params) matches Ok(p) && p.stream_id == stream_id && p.cols == cols
            && p.rows == rows))
}

proof fn resizes_tell_the_size(id: Seq<char>, stream_id: u32, cols: u16, rows: u16)
    ensures
        tells_size(resize_view(id, stream_id, cols, rows, 0, 0), stream_id, cols, rows),
{
    let v = resize_view(id, stream_id, cols, rows, 0, 0);
    crate::protocol::wire_shapes::resizes_name_stream_and_size(id, stream_id, cols, rows, 0, 0);
    assert forall|bytes: Seq<u8>| #[trigger] written(bytes, v) implies (request_in(
        bytes,
    ) matches Some(r) && r.method == "stream.resize"@ && (resize_params(r.params) matches Ok(p)
        && p.stream_id == stream_id && p.cols == cols && p.rows == rows)) by {
        resizes_survive_the_wire(
            bytes,
            id,
            StreamResizeParams { stream_id, cols, rows, cell_width_px: 0, cell_height_px: 0 },
        );
    }
}

/// The pane of a terminal is the one the catalog lists with it.
proof fn terminals_find_their_pane(
    panes: Seq<PaneInfo>,
    remote: usize,
    terminal: Seq<char>,
    at: int,
)
    requires
        0 <= at < panes.len(),
        scoped(remote, panes[at].terminal_id@) == terminal,
        forall|j: int|
            at < j < panes.len() ==> scoped(remote, (#[trigger] panes[j]).terminal_id@) != terminal,
    ensures
        pane_of_terminal(panes, remote, terminal) == Some(panes[at].pane_id@),
    decreases panes.len(),
{
    if at < panes.len() - 1 {
        assert(panes[panes.len() - 1] == panes.last());
        assert forall|j: int| at < j < panes.drop_last().len() implies scoped(
            remote,
            (#[trigger] panes.drop_last()[j]).terminal_id@,
        ) != terminal by {
            assert(panes.drop_last()[j] == panes[j]);
        }
        terminals_find_their_pane(panes.drop_last(), remote, terminal, at);
    }
}

/// The stream is the one open on the pane that the plan's terminal belongs to.
pub open spec fn planned_for(
    m: MirrorModel,
    remote: usize,
    q: PaneResizeRequest,
    at: int,
    stream_id: u32,
) -> bool {
    &&& 0 <= at < m.catalog.panes.len()
    &&& scoped(remote, m.catalog.panes[at].terminal_id@) == q.terminal_id@
    &&& forall|j: int|
        at < j < m.catalog.panes.len() ==> scoped(
            remote,
            (#[trigger] m.catalog.panes[j]).terminal_id@,
        ) != q.terminal_id@
    &&& m.pane_streams.contains_key(m.catalog.panes[at].pane_id@)
    &&& m.pane_streams[m.catalog.panes[at].pane_id@] == stream_id
}

/// A planned size that was not told yet is told once, with the plan's columns
/// and rows in their places; the same size is then on record for the stream
/// and on its replica. Nothing is told of a stream that another client sizes,
/// or again of a size on record.
pub proof fn planned_sizes_are_told(
    s: SessionModel,
    m: MirrorModel,
    remote: usize,
    q: PaneResizeRequest,
    at: int,
    stream_id: u32,
)
    requires
        planned_for(m, remote, q, at, stream_id),
    ensures
        ({
            let (s1, m1) = resized_once(s, m, remote, q);
            let owed = !s.read_only.contains(stream_id) && !(s.sent_sizes.contains_key(stream_id)
                && s.sent_sizes[stream_id] == (q.cols, q.rows));
            &&& !owed ==> (s1, m1) == (s, m)
            &&& s1.outbox != s.outbox ==> {
                &&& owed
                &&& s1.outbox.len() == s.outbox.len() + 1
                &&& s1.outbox.drop_last() == s.outbox
                &&& tells_size(s1.outbox.last(), stream_id, q.cols, q.rows)
                &&& s1.sent_sizes.contains_key(stream_id)
                &&& s1.sent_sizes[stream_id].0 == q.cols
                &&& s1.sent_sizes[stream_id].1 == q.rows
                &&& m.replicas.contains_key(stream_id) ==> m1.replicas[stream_id].cols == q.cols
                    && m1.replicas[stream_id].rows == q.rows
                &&& s1.sent_sizes.remove(stream_id) == s.sent_sizes.remove(stream_id)
            }
            &&& owed && s1.outbox == s.outbox ==> s1.sent_sizes == s.sent_sizes && m1 == m
            &&& owed && s.writable && s.bound is None && crate::json::json_bytes(
                resize_view(s.next_id("resize"@), stream_id, q.cols, q.rows, 0, 0),
            ).len() <= crate::protocol::frame::MAX_FRAME_PAYLOAD ==> s1.outbox.len()
                == s.outbox.len() + 1
        }),
{
    terminals_find_their_pane(m.catalog.panes, remote, q.terminal_id@, at);
    let request = resize_view(s.next_id("resize"@), stream_id, q.cols, q.rows, 0, 0);
    resizes_tell_the_size(s.next_id("resize"@), stream_id, q.cols, q.rows);
    let (s1, m1) = resized_once(s, m, remote, q);
    assert(s.outbox.push(request).drop_last() =~= s.outbox);
    assert(s1.sent_sizes.remove(stream_id) =~= s.sent_sizes.remove(stream_id));
}

/// A message that tells one of the planned sizes, of a stream that this
/// client sizes.
pub open spec fn tells_one_of(
    v: JsonView,
    read_only: Set<u32>,
    requests: Seq<PaneResizeRequest>,
) -> bool {
    exists|k: int, stream_id: u32|
        #![trigger tells_size(v, stream_id, requests[k].cols, requests[k].rows)]
        0 <= k < requests.len() && !read_only.contains(stream_id) && tells_size(
            v,
            stream_id,
            requests[k].cols,
            requests[k].rows,
        )
}

/// Whatever number of sizes is planned, every message that goes out tells one
/// of the planned sizes, columns as columns and rows as rows.
pub proof fn only_planned_sizes_are_told(
    s: SessionModel,
    m: MirrorModel,
    remote: usize,
    requests: Seq<PaneResizeRequest>,
    n: int,
)
    requires
        0 <= n <= requests.len(),
    ensures
        ({
            let s1 = resized(s, m, remote, requests, n).0;
            &&& s1.outbox.len() >= s.outbox.len()
            &&& s1.outbox.take(s.outbox.len() as int) == s.outbox
            &&& s1.read_only == s.read_only
            &&& forall|i: int|
                s.outbox.len() <= i < s1.outbox.len() ==> tells_one_of(
                    #[trigger] s1.outbox[i],
                    s.read_only,
                    requests.take(n),
                )
        }),
    decreases n,
{
    if n > 0 {
        only_planned_sizes_are_told(s, m, remote, requests, n - 1);
        let (s0, m0) = resized(s, m, remote, requests, n - 1);
        let s1 = resized(s, m, remote, requests, n).0;
        let q = requests[n - 1];
        if let Some(id) = resize_stream(s0, m0, remote, q) {
            resizes_tell_the_size(s0.next_id("resize"@), id, q.cols, q.rows);
            assert(requests.take(n)[n - 1] == q);
            assert(tells_one_of(s1.outbox.last(), s.read_only, requests.take(n))
                || s1.outbox == s0.outbox);
        }
        assert forall|i: int| s.outbox.len() <= i < s1.outbox.len() implies tells_one_of(
            #[trigger] s1.outbox[i],
            s.read_only,
            requests.take(n),
        ) by {
            if i < s0.outbox.len() {
                assert(s1.outbox[i] == s0.outbox[i]);
                let (k, stream_id) = choose|k: int, stream_id: u32|
                    #![trigger tells_size(s0.outbox[i], stream_id, requests.take(n - 1)[k].cols, requests.take(n - 1)[k].rows)]
                    0 <= k < n - 1 && !s.read_only.contains(stream_id) && tells_size(
                        s0.outbox[i],
                        stream_id,
                        requests.take(n - 1)[k].cols,
                        requests.take(n - 1)[k].rows,
                    );
                assert(requests.take(n)[k] == requests.take(n - 1)[k]);
            } else {
                assert(s1.outbox[i] == s1.outbox.last());
            }
        }
        assert(s1.outbox.take(s.outbox.len() as int) =~= s0.outbox.take(s.outbox.len() as int));
    } else {
        assert(s.outbox.take(s.outbox.len() as int) =~= s.outbox);
    }
}

/// A message of exactly an open of that pane, for writing, that takes nothing
/// over and asks for no size.
pub open spec fn asks_to_write(v: JsonView, pane: Seq<char>) -> bool {
    &&& v.field("method"@) == Some(JsonView::Text("stream.open"@))
    &&& param(v, "pane_id"@) == Some(JsonView::Text(pane))
    &&& param(v, "mode"@) == Some(JsonView::Text("write"@))
    &&& param(v, "takeover"@) == Some(JsonView::Bool(false))
    &&& param(v, "cols"@) is None
    &&& param(v, "rows"@) is None
}

/// One more visible pane: where it has no stream and none is on its way, a
/// stream to write it is asked for and expected; otherwise nothing happens.
pub proof fn visible_panes_are_asked_for(
    s: SessionModel,
    m: MirrorModel,
    visible: Seq<String>,
    n: int,
)
    requires
        0 < n <= visible.len(),
        opens(s, m, visible, n - 1).1,
    ensures
        ({
            let s0 = opens(s, m, visible, n - 1).0;
            let s1 = opens(s, m, visible, n).0;
            let pane = visible[n - 1];
            let served = m.pane_streams.contains_key(pane@) || opening(s0, pane@);
            &&& served ==> s1 == s0
            &&& !served ==> {
                &&& s1.pending.contains_key(s0.next_id("open"@))
                &&& s1.pending[s0.next_id("open"@)] == (Pending::StreamOpen {
                    pane_id: pane,
                    mode: StreamMode::Write,
                })
                &&& opening(s1, pane@)
                &&& s1.outbox == s0.outbox || (s1.outbox.drop_last() == s0.outbox
                    && s1.outbox.last().field("id"@) == Some(JsonView::Text(s0.next_id("open"@)))
                    && asks_to_write(s1.outbox.last(), pane@))
                &&& opens(s, m, visible, n).1 <==> s1.outbox.len() == s0.outbox.len() + 1
            }
            &&& s1.sent_sizes == s0.sent_sizes
            &&& s1.read_only == s0.read_only
        }),
{
    let s0 = opens(s, m, visible, n - 1).0;
    let s1 = opens(s, m, visible, n).0;
    let pane = visible[n - 1];
    let id = s0.next_id("open"@);
    let request = open_view(id, pane@, StreamMode::Write, false, None, None);
    crate::protocol::wire_shapes::opens_name_pane_and_mode(
        id,
        pane@,
        StreamMode::Write,
        false,
        None,
        None,
    );
    assert(s0.outbox.push(request).drop_last() =~= s0.outbox);
    if !(m.pane_streams.contains_key(pane@) || opening(s0, pane@)) {
        assert(s1.pending.contains_key(id));
        assert(s1.pending[id] matches Pending::StreamOpen { pane_id, .. } && pane_id@ == pane@);
    }
}

/// What is dropped is told, stream by stream: the message names the stream,
/// and its replica, its size on record and its mark go.
pub proof fn dropped_streams_are_told(
    s: SessionModel,
    m: MirrorModel,
    streams: Seq<(String, u32)>,
    last: (String, u32),
)
    ensures
        ({
            let (s0, m0) = streams_dropped(s, m, streams);
            let (s1, m1) = streams_dropped(s, m, streams.push(last));
            &&& s1.outbox == s0.outbox || (s1.outbox.len() == s0.outbox.len() + 1
                && s1.outbox.drop_last() == s0.outbox && s1.outbox.last().field("method"@) == Some(
                JsonView::Text("stream.close"@),
            ) && param(s1.outbox.last(), "stream_id"@) == Some(JsonView::Unsigned(last.1 as u64)))
            &&& !m1.replicas.contains_key(last.1)
            &&& m1.replicas == m0.replicas.remove(last.1)
            &&& !s1.sent_sizes.contains_key(last.1)
            &&& !s1.read_only.contains(last.1)
            &&& m1.catalog == m0.catalog
            &&& m1.connection == m0.connection
            &&& forall|pane: Seq<char>| #[trigger]
                m1.pane_streams.contains_key(pane) <==> m0.pane_streams.contains_key(pane)
                    && m0.pane_streams[pane] != last.1
        }),
        streams_dropped(s, m, Seq::empty()) == (s, m),
{
    let (s0, m0) = streams_dropped(s, m, streams);
    let (s1, m1) = streams_dropped(s, m, streams.push(last));
    assert(streams.push(last).drop_last() =~= streams);
    let id = s0.next_id("close"@);
    let request = close_view(id, last.1);
    crate::protocol::wire_shapes::closes_name_their_stream(id, last.1);
    assert(s0.outbox.push(request).drop_last() =~= s0.outbox);
}

/// The visible panes of a workspace are those on its active tab, in catalog
/// order.
pub proof fn visible_panes_are_on_the_active_tab(
    c: CatalogModel,
    workspace: Seq<char>,
    pane: String,
)
    requires
        c.workspace(workspace) is Some,
    ensures
        visible_in(c, workspace).contains(pane) <==> exists|k: int|
            0 <= k < c.panes.len() && (#[trigger] c.panes[k]).pane_id == pane && c.panes[k].tab_id@
                == c.workspace(workspace)->Some_0.active_tab_id@,
{
    let w = c.workspace(workspace)->Some_0;
    let on = crate::client_state::compose_ids::on_tab(w.active_tab_id@);
    let own = c.panes.filter(on);
    let list = visible_in(c, workspace);
    crate::seqs::filter_props(c.panes, on);
    if list.contains(pane) {
        let i = choose|i: int| 0 <= i < list.len() && list[i] == pane;
        assert(list[i] == own[i].pane_id);
        assert(c.panes.contains(own[i]));
        assert(on(own[i]));
        let k = choose|k: int| 0 <= k < c.panes.len() && c.panes[k] == own[i];
        assert(c.panes[k].pane_id == pane);
    }
    if exists|k: int|
        0 <= k < c.panes.len() && (#[trigger] c.panes[k]).pane_id == pane && c.panes[k].tab_id@
            == w.active_tab_id@ {
        let k = choose|k: int|
            0 <= k < c.panes.len() && (#[trigger] c.panes[k]).pane_id == pane && c.panes[k].tab_id@
                == w.active_tab_id@;
        assert(c.panes.contains(c.panes[k]));
        assert(on(c.panes[k]));
        assert(own.contains(c.panes[k]));
        let i = choose|i: int| 0 <= i < own.len() && own[i] == c.panes[k];
        assert(list[i] == pane);
    }
}

/// Only the remote that owns the active workspace has visible panes: those of
/// that workspace. A remote that does not stream panes is left as it is.
pub proof fn only_the_active_owner_is_visible(l: LoopModel, remote: usize, at: usize)
    requires
        l.app.active == Some(at),
        at < l.ids.workspace_owners@.len(),
    ensures
        l.ids.workspace_owners@[at as int].0 != remote ==> l.visible_on(remote).len() == 0,
        l.ids.workspace_owners@[at as int].0 == remote && l.mirrors.contains_key(remote)
            ==> l.visible_on(remote) == visible_in(
            l.mirrors[remote].catalog,
            l.ids.workspace_owners@[at as int].1@,
        ),
{
}

/// Without the capability a sync does nothing.
pub proof fn ungranted_streams_stay(
    s: SessionModel,
    m: MirrorModel,
    remote: usize,
    hidden: Seq<(String, u32)>,
    visible: Seq<String>,
    requests: Seq<PaneResizeRequest>,
)
    requires
        !m.connection.grants("pane-stream"@),
    ensures
        synced(s, m, remote, hidden, visible, requests) == (s, m),
{
}

/// A sync of one planned size for panes that are all streamed already tells
/// that size to the server: what is queued is read back as the plan.
pub proof fn a_sync_tells_the_planned_size(
    s: SessionModel,
    m: MirrorModel,
    remote: usize,
    visible: Seq<String>,
    q: PaneResizeRequest,
    at: int,
    stream_id: u32,
    bytes: Seq<u8>,
)
    requires
        m.connection.grants("pane-stream"@),
        planned_for(m, remote, q, at, stream_id),
        forall|i: int|
            0 <= i < visible.len() ==> m.pane_streams.contains_key((#[trigger] visible[i])@),
        ({
            let s1 = synced(s, m, remote, Seq::empty(), visible, seq![q]).0;
            s1.outbox != s.outbox && written(bytes, s1.outbox.last())
        }),
    ensures
        ({
            let (s1, m1) = synced(s, m, remote, Seq::empty(), visible, seq![q]);
            request_in(bytes) matches Some(r) && r.method == "stream.resize"@ && (resize_params(
                r.params,
            ) matches Ok(p) && {
                &&& p.stream_id == stream_id
                &&& p.cols == q.cols
                &&& p.rows == q.rows
                &&& s1.sent_sizes.contains_key(stream_id)
                &&& s1.sent_sizes[stream_id] == (p.cols, p.rows)
                &&& m.replicas.contains_key(stream_id) ==> m1.replicas[stream_id].cols == p.cols
                    && m1.replicas[stream_id].rows == p.rows
            })
        }),
{
    crate::client_state::run::streams::settled_streams_stay_quiet(s, m, remote, visible);
    reveal_with_fuel(resized, 2);
    assert(seq![q][0] == q);
    planned_sizes_are_told(s, m, remote, q, at, stream_id);
}

/// A stream is hidden where its pane is none of the visible ones, and stale
/// where its pane left the catalog.
pub proof fn streams_are_hidden_or_stale(
    visible: Seq<String>,
    c: CatalogModel,
    entry: (String, u32),
)
    ensures
        hidden_from(visible)(entry) <==> forall|i: int|
            0 <= i < visible.len() ==> (#[trigger] visible[i])@ != entry.0@,
        lost_pane(c)(entry) <==> forall|i: int|
            0 <= i < c.panes.len() ==> (#[trigger] c.panes[i]).pane_id@ != entry.0@,
{
    crate::client_state::event_laws::lookups_go_by_id(c, entry.0@, 0);
}

} // verus!
