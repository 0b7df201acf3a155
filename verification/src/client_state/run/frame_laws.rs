//! What each frame from a server does, from its members to the state.
use crate::client_state::connection::ConnectionModel;
use crate::client_state::run::frames::{frame_step, EffectModel};
use crate::client_state::run::state::LoopModel;
use crate::client_state::session::{Pending, SessionModel};
use crate::json::{json_parsed, JsonView};
use crate::protocol::framed::{close_view, open_view, opened_of, Frame, FrameType, StreamMode};
use crate::protocol::wire_shapes::{param, plain_requests_are_their_method};
use vstd::prelude::*;

verus! {

/// A control frame whose payload is that.
pub open spec fn holds(frame: Frame, payload: JsonView) -> bool {
    frame.frame_type == FrameType::Control && json_parsed(frame.payload@) == Some(payload)
}

/// An event of that name.
pub open spec fn is_event(payload: JsonView, name: Seq<char>) -> bool {
    payload.field("event"@) == Some(JsonView::Text(name))
}

/// What an event carries under a name of its data.
pub open spec fn told_of(payload: JsonView, name: Seq<char>) -> Option<JsonView> {
    match payload.field("data"@) {
        Some(data) => data.field(name),
        None => None,
    }
}

/// No two events share a name.
pub proof fn events_are_told_apart()
    ensures
        "catalog.event"@ != "catalog.resync"@,
        "catalog.event"@ != "notification.posted"@,
        "catalog.event"@ != "window_title.changed"@,
        "catalog.event"@ != "stream.closed"@,
        "catalog.event"@ != "stream.revoked"@,
        "catalog.event"@ != "server.stopping"@,
        "catalog.resync"@ != "notification.posted"@,
        "catalog.resync"@ != "window_title.changed"@,
        "catalog.resync"@ != "stream.closed"@,
        "catalog.resync"@ != "stream.revoked"@,
        "catalog.resync"@ != "server.stopping"@,
        "notification.posted"@ != "window_title.changed"@,
        "notification.posted"@ != "stream.closed"@,
        "notification.posted"@ != "stream.revoked"@,
        "notification.posted"@ != "server.stopping"@,
        "window_title.changed"@ != "stream.closed"@,
        "window_title.changed"@ != "stream.revoked"@,
        "window_title.changed"@ != "server.stopping"@,
        "stream.closed"@ != "stream.revoked"@,
        "stream.closed"@ != "server.stopping"@,
        "stream.revoked"@ != "server.stopping"@,
{
    reveal_strlit("catalog.event");
    reveal_strlit("catalog.resync");
    reveal_strlit("notification.posted");
    reveal_strlit("window_title.changed");
    reveal_strlit("stream.closed");
    reveal_strlit("stream.revoked");
    reveal_strlit("server.stopping");
    assert("catalog.event"@.len() != "catalog.resync"@.len());
    assert("catalog.event"@.len() != "notification.posted"@.len());
    assert("catalog.event"@.len() != "window_title.changed"@.len());
    assert("catalog.event"@[0] != "stream.closed"@[0]);
    assert("catalog.event"@.len() != "stream.revoked"@.len());
    assert("catalog.event"@.len() != "server.stopping"@.len());
    assert("catalog.resync"@.len() != "notification.posted"@.len());
    assert("catalog.resync"@.len() != "window_title.changed"@.len());
    assert("catalog.resync"@.len() != "stream.closed"@.len());
    assert("catalog.resync"@[0] != "stream.revoked"@[0]);
    assert("catalog.resync"@.len() != "server.stopping"@.len());
    assert("notification.posted"@.len() != "window_title.changed"@.len());
    assert("notification.posted"@.len() != "stream.closed"@.len());
    assert("notification.posted"@.len() != "stream.revoked"@.len());
    assert("notification.posted"@.len() != "server.stopping"@.len());
    assert("window_title.changed"@.len() != "stream.closed"@.len());
    assert("window_title.changed"@.len() != "stream.revoked"@.len());
    assert("window_title.changed"@.len() != "server.stopping"@.len());
    assert("stream.closed"@.len() != "stream.revoked"@.len());
    assert("stream.closed"@.len() != "server.stopping"@.len());
    assert("stream.revoked"@.len() != "server.stopping"@.len());
}

/// Data goes to the replica of the stream it is for, byte for byte; data for
/// no replica is dropped. Neither changes the state.
pub proof fn data_goes_to_its_replica(was: LoopModel, remote: usize, frame: Frame)
    requires
        frame.frame_type == FrameType::Data,
    ensures
        frame_step(was, remote, frame).0 == was,
        frame_step(was, remote, frame).1 == if was.mirrors.contains_key(remote)
            && was.mirrors[remote].replicas.contains_key(frame.stream_id) {
            EffectModel::ApplyTail { stream_id: frame.stream_id, payload: frame.payload@ }
        } else {
            EffectModel::Nothing
        },
{
}

/// A catalog event is decoded under the sequence it came with, a
/// notification as it came. Neither changes the state by itself.
pub proof fn events_are_decoded_as_sent(
    was: LoopModel,
    remote: usize,
    frame: Frame,
    payload: JsonView,
    sequence: u64,
    data: JsonView,
)
    requires
        was.mirrors.contains_key(remote),
        holds(frame, payload),
        payload.field("data"@) == Some(data),
    ensures
        ({
            let (now, effect) = frame_step(was, remote, frame);
            &&& is_event(payload, "catalog.event"@) && payload.field("seq"@) == Some(
                JsonView::Unsigned(sequence),
            ) ==> now == was && effect == (EffectModel::DecodeEvent { sequence, data })
            &&& is_event(payload, "notification.posted"@) ==> now == was && effect == (
            EffectModel::DecodeNotification { data })
        }),
{
    events_are_told_apart();
}

/// A call for a resync asks for a snapshot on that remote's session, and
/// expects it.
pub proof fn resyncs_ask_for_a_snapshot(
    was: LoopModel,
    remote: usize,
    frame: Frame,
    payload: JsonView,
    s: SessionModel,
)
    requires
        was.mirrors.contains_key(remote),
        was.session(remote) == Some(s),
        holds(frame, payload),
        is_event(payload, "catalog.resync"@),
    ensures
        ({
            let (now, effect) = frame_step(was, remote, frame);
            let id = s.next_id("snapshot"@);
            &&& effect is Nothing
            &&& now.mirrors == was.mirrors && now.chrome == was.chrome && now.app == was.app
            &&& now.session(remote) matches Some(t) && (t.outbox == s.outbox || {
                &&& t.outbox.drop_last() == s.outbox
                &&& t.outbox.last().field("method"@) == Some(JsonView::Text("session.snapshot"@))
                &&& t.outbox.last().field("id"@) == Some(JsonView::Text(id))
                &&& t.pending.contains_key(id) && t.pending[id] is Snapshot
            })
        }),
{
    events_are_told_apart();
    let id = s.next_id("snapshot"@);
    plain_requests_are_their_method(id);
    let v = crate::client_state::session::next_snapshot_request(s);
    assert(s.outbox.push(v).drop_last() =~= s.outbox);
}

/// A window title is kept for the remote that sent it, and forgotten where it
/// sends none; other remotes keep theirs.
pub proof fn titles_are_kept_per_remote(
    was: LoopModel,
    remote: usize,
    frame: Frame,
    payload: JsonView,
    title: Seq<char>,
    other: usize,
)
    requires
        was.mirrors.contains_key(remote),
        holds(frame, payload),
        is_event(payload, "window_title.changed"@),
        other != remote,
    ensures
        ({
            let (now, effect) = frame_step(was, remote, frame);
            let titles = now.chrome.window_titles;
            &&& effect is Nothing
            &&& told_of(payload, "title"@) == Some(JsonView::Text(title)) ==> titles.contains_key(
                remote,
            ) && titles[remote] == title
            &&& told_of(payload, "title"@) is None ==> !titles.contains_key(remote)
            &&& titles.contains_key(other) == was.chrome.window_titles.contains_key(other)
            &&& titles.contains_key(other) ==> titles[other] == was.chrome.window_titles[other]
            &&& now.links == was.links && now.mirrors == was.mirrors
        }),
{
    events_are_told_apart();
}

/// A stream that closed or was revoked is gone: no replica, no pane on it,
/// nothing on record of it. Every other stream stays, and nothing is sent.
pub proof fn ended_streams_are_gone(
    was: LoopModel,
    remote: usize,
    frame: Frame,
    payload: JsonView,
    stream_id: u32,
    other: u32,
    pane: Seq<char>,
)
    requires
        was.mirrors.contains_key(remote),
        holds(frame, payload),
        is_event(payload, "stream.closed"@) || is_event(payload, "stream.revoked"@),
        told_of(payload, "stream_id"@) == Some(JsonView::Unsigned(stream_id as u64)),
        other != stream_id,
    ensures
        ({
            let (now, effect) = frame_step(was, remote, frame);
            let m = was.mirrors[remote];
            &&& effect is Nothing
            &&& now.mirrors.contains_key(remote)
            &&& !now.mirrors[remote].replicas.contains_key(stream_id)
            &&& now.mirrors[remote].replicas.contains_key(other) == m.replicas.contains_key(other)
            &&& now.mirrors[remote].pane_streams.contains_key(pane) <==> m.pane_streams.contains_key(
                pane,
            ) && m.pane_streams[pane] != stream_id
            &&& now.mirrors[remote].catalog == m.catalog
            &&& match (was.session(remote), now.session(remote)) {
                (Some(s), Some(t)) => {
                    &&& !t.sent_sizes.contains_key(stream_id)
                    &&& !t.read_only.contains(stream_id)
                    &&& t.sent_sizes.contains_key(other) == s.sent_sizes.contains_key(other)
                    &&& t.read_only.contains(other) == s.read_only.contains(other)
                    &&& t.outbox == s.outbox
                },
                (None, None) => true,
                _ => false,
            }
        }),
{
    events_are_told_apart();
}

/// A server that announces its stop is parked: its link is not retried, its
/// mirror is emptied and marked stopped, and the start prompt opens for it
/// with the line that says why.
pub proof fn announced_stops_are_shown(
    was: LoopModel,
    remote: usize,
    frame: Frame,
    payload: JsonView,
    other: usize,
)
    requires
        was.mirrors.contains_key(remote),
        holds(frame, payload),
        is_event(payload, "server.stopping"@),
        other != remote,
    ensures
        ({
            let (now, effect) = frame_step(was, remote, frame);
            let name = was.mirrors[remote].name;
            let line = if told_of(payload, "reason"@) == Some(JsonView::Text("empty"@)) {
                name + ": server stopped, no panes left"@
            } else {
                name + ": server stopped by request"@
            };
            &&& effect is Nothing
            &&& now.links.contains_key(remote) && now.links[remote] is Stopped
            &&& now.mirrors[remote].connection == (ConnectionModel::Stopped { message: line })
            &&& now.mirrors[remote].replicas.len() == 0
            &&& now.mirrors[remote].pane_streams.len() == 0
            &&& now.mirrors[remote].catalog.panes.len() == 0
            &&& now.mirrors[remote].catalog.workspaces.len() == 0
            &&& now.mirrors[remote].name == name
            &&& now.chrome.connection_status == Some(line)
            &&& now.chrome.remote_start matches Some(p) && p.remote == remote && p.name == name
                && p.status == line && p.error is None && !p.starting
            &&& now.links.contains_key(other) == was.links.contains_key(other)
            &&& now.mirrors.contains_key(other) ==> now.mirrors[other] == was.mirrors[other]
        }),
{
    events_are_told_apart();
    reveal_strlit("empty");
    reveal_strlit("requested");
    assert("empty"@.len() != "requested"@.len());
}

/// An event of any other name does nothing.
pub proof fn other_events_do_nothing(
    was: LoopModel,
    remote: usize,
    frame: Frame,
    payload: JsonView,
    name: Seq<char>,
)
    requires
        was.mirrors.contains_key(remote),
        holds(frame, payload),
        is_event(payload, name),
        name != "catalog.event"@,
        name != "catalog.resync"@,
        name != "notification.posted"@,
        name != "window_title.changed"@,
        name != "stream.closed"@,
        name != "stream.revoked"@,
        name != "server.stopping"@,
    ensures
        frame_step(was, remote, frame) == (was, EffectModel::Nothing),
{
}

/// An answer to that request of the session.
pub open spec fn answers(payload: JsonView, id: Seq<char>) -> bool {
    payload.field("event"@) is None && payload.field("id"@) == Some(JsonView::Text(id))
}

/// An answer settles its request; one that nobody asked for does nothing.
pub proof fn answers_settle_their_request(
    was: LoopModel,
    remote: usize,
    frame: Frame,
    payload: JsonView,
    id: Seq<char>,
    s: SessionModel,
)
    requires
        was.mirrors.contains_key(remote),
        was.session(remote) == Some(s),
        holds(frame, payload),
        answers(payload, id),
    ensures
        ({
            let (now, effect) = frame_step(was, remote, frame);
            &&& now.session(remote) is Some
            &&& !s.pending.contains_key(id) ==> effect is Nothing && now.session(
                remote,
            )->Some_0.outbox == s.outbox
            &&& now.mirrors == was.mirrors && now.chrome == was.chrome && now.app == was.app
            &&& s.pending.contains_key(id) && !(s.pending[id] is StreamOpen) ==> {
                &&& now.session(remote)->Some_0.pending == s.pending.remove(id)
                &&& now.session(remote)->Some_0.outbox == s.outbox
            }
            &&& s.pending.contains_key(id) && (s.pending[id] is Ping || s.pending[id] is Api)
                ==> effect is Nothing && now.session(remote)->Some_0.sent_sizes == s.sent_sizes
        }),
{
}

/// A snapshot that was asked for is decoded under the sequence it is anchored
/// at; an error decodes nothing.
pub proof fn snapshots_are_decoded_as_sent(
    was: LoopModel,
    remote: usize,
    frame: Frame,
    payload: JsonView,
    id: Seq<char>,
    s: SessionModel,
    result: JsonView,
    snapshot: JsonView,
    sequence: u64,
)
    requires
        was.mirrors.contains_key(remote),
        was.session(remote) == Some(s),
        holds(frame, payload),
        answers(payload, id),
        s.pending.contains_key(id),
        s.pending[id] is Snapshot,
        payload.field("result"@) == Some(result),
        result.field("snapshot"@) == Some(snapshot),
        result.field("sequence"@) == Some(JsonView::Unsigned(sequence)),
    ensures
        payload.field("error"@) is None ==> frame_step(was, remote, frame).1 == (
        EffectModel::DecodeSnapshot { sequence, snapshot }),
        payload.field("error"@) is Some ==> frame_step(was, remote, frame).1 is Nothing,
{
}

/// History goes to the replica it was asked for; a size that the server
/// refused is off the record, so that it is told again.
pub proof fn history_and_sizes_are_answered(
    was: LoopModel,
    remote: usize,
    frame: Frame,
    payload: JsonView,
    id: Seq<char>,
    s: SessionModel,
    stream_id: u32,
)
    requires
        was.mirrors.contains_key(remote),
        was.session(remote) == Some(s),
        holds(frame, payload),
        answers(payload, id),
        s.pending.contains_key(id),
    ensures
        ({
            let (now, effect) = frame_step(was, remote, frame);
            let t = now.session(remote)->Some_0;
            &&& s.pending[id] == (Pending::History { stream_id }) ==> effect
                == if was.mirrors[remote].replicas.contains_key(stream_id) {
                EffectModel::ApplyHistory { stream_id, payload }
            } else {
                EffectModel::Nothing
            }
            &&& s.pending[id] == (Pending::Resize { stream_id }) ==> effect is Nothing && if payload.field(
                "error"@,
            ) is Some {
                t.sent_sizes == s.sent_sizes.remove(stream_id)
            } else {
                t.sent_sizes == s.sent_sizes
            }
        }),
{
}

/// A stream that was opened on a pane that is still there becomes a replica
/// of that pane, in the size that came, or 80 by 24 where none did. One whose
/// pane is gone is closed again.
pub proof fn opened_streams_become_replicas(
    was: LoopModel,
    remote: usize,
    frame: Frame,
    payload: JsonView,
    id: Seq<char>,
    s: SessionModel,
    pane_id: String,
    mode: StreamMode,
)
    requires
        was.mirrors.contains_key(remote),
        was.session(remote) == Some(s),
        holds(frame, payload),
        answers(payload, id),
        s.pending.contains_key(id),
        s.pending[id] == (Pending::StreamOpen { pane_id, mode }),
        payload.field("error"@) is None,
        opened_of(payload) is Some,
    ensures
        ({
            let (now, effect) = frame_step(was, remote, frame);
            let o = opened_of(payload)->Some_0;
            let t = now.session(remote)->Some_0;
            if was.mirrors[remote].catalog.has_pane(pane_id@) {
                &&& effect matches EffectModel::OpenReplica {
                    pane_id: pane,
                    mode: how,
                    opened,
                    cols,
                    rows,
                    focused,
                } && {
                    &&& pane == pane_id@ && how == mode && opened == o
                    &&& o.cols > 0 && o.rows > 0 ==> cols == o.cols && rows == o.rows
                    &&& o.cols == 0 || o.rows == 0 ==> cols == 80 && rows == 24
                    &&& focused <==> crate::client_state::intent_laws::on_pane(
                        was.app,
                        was.ids,
                        remote,
                        pane_id@,
                    )
                }
                &&& t.outbox == s.outbox
            } else {
                &&& effect is Nothing
                &&& t.outbox == s.outbox || (t.outbox.drop_last() == s.outbox
                    && t.outbox.last().field("method"@) == Some(JsonView::Text("stream.close"@))
                    && param(t.outbox.last(), "stream_id"@) == Some(
                    JsonView::Unsigned(o.stream_id as u64),
                ))
            }
        }),
{
    let o = opened_of(payload)->Some_0;
    let rest = s.settled(id);
    let name = rest.next_id("close"@);
    crate::protocol::wire_shapes::closes_name_their_stream(name, o.stream_id);
    assert(s.outbox.push(close_view(name, o.stream_id)).drop_last() =~= s.outbox);
}

/// A pane that another client writes is opened again, for reading; any other
/// error leaves it closed.
pub proof fn locked_panes_are_read(
    was: LoopModel,
    remote: usize,
    frame: Frame,
    payload: JsonView,
    id: Seq<char>,
    s: SessionModel,
    pane_id: String,
    mode: StreamMode,
    error: JsonView,
)
    requires
        was.mirrors.contains_key(remote),
        was.session(remote) == Some(s),
        holds(frame, payload),
        answers(payload, id),
        s.pending.contains_key(id),
        s.pending[id] == (Pending::StreamOpen { pane_id, mode }),
        payload.field("error"@) == Some(error),
    ensures
        ({
            let (now, effect) = frame_step(was, remote, frame);
            let t = now.session(remote)->Some_0;
            let locked = error.field("code"@) == Some(JsonView::Text("pane_write_locked"@)) && mode
                == StreamMode::Write;
            &&& effect is Nothing
            &&& now.mirrors == was.mirrors
            &&& !locked ==> t.outbox == s.outbox
            &&& locked ==> t.outbox == s.outbox || {
                &&& t.outbox.drop_last() == s.outbox
                &&& t.outbox.last().field("method"@) == Some(JsonView::Text("stream.open"@))
                &&& param(t.outbox.last(), "pane_id"@) == Some(JsonView::Text(pane_id@))
                &&& param(t.outbox.last(), "mode"@) == Some(JsonView::Text("read"@))
                &&& param(t.outbox.last(), "takeover"@) == Some(JsonView::Bool(false))
                &&& exists|name: Seq<char>| #[trigger]
                    t.pending.contains_key(name) && t.pending[name] == (Pending::StreamOpen {
                        pane_id,
                        mode: StreamMode::Read,
                    })
            }
        }),
{
    let rest = s.settled(id);
    let name = rest.next_id("open"@);
    let request = open_view(name, pane_id@, StreamMode::Read, false, None, None);
    crate::protocol::wire_shapes::opens_name_pane_and_mode(
        name,
        pane_id@,
        StreamMode::Read,
        false,
        None,
        None,
    );
    assert(s.outbox.push(request).drop_last() =~= s.outbox);
    let t = frame_step(was, remote, frame).0.session(remote)->Some_0;
    reveal_strlit("pane_write_locked");
    reveal_strlit("");
    assert("pane_write_locked"@.len() == 17);
    if t.outbox != s.outbox {
        assert(t.pending.contains_key(name));
    }
}

} // verus!
