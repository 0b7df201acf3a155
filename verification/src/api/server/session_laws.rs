//! What opening, watching and ending a session comes to, message by message.
use crate::api::event_hub::{follows, HubModel};
use crate::api::schema::EventEnvelope;
use crate::api::server::completion::{
    forwarding, ForwardingModel,open_end, opened_pane, Attachment, OpenAnswerModel};
use crate::api::server::dispatch::{AppMethodModel, AppRequestModel};
use crate::api::server::framed_session::{ServedModel, StreamModel};
use crate::api::server::handshake::{opening_answer, window_view, HandshakeModel};
use crate::api::server::pump::{
    closed_ids, control_frame_view, data_frames, gone_view, goings, is_overloaded, revoked_ids,
    without, BroadcastModel, Drain, OutputModel, SessionEnd,
};
use crate::api::server::requests::{request_read, Objections};
use crate::api::server::step_laws::{
    answer_field, answers_carry_their_parts, errors_carry_their_parts, unopposed,
};
use crate::api::server::wire_laws::hellos_survive_the_wire;
use crate::client_state::run::connect::hello_view;
use crate::json::{written, JsonView};
use crate::protocol::frame::FrameModel;
use crate::protocol::framed::{FrameType, HelloRemedy, NegotiatedSession};
use crate::protocol::hello::{grants_are_exact, negotiated, HelloError, HelloModel};
use crate::protocol::wire_shapes::{named_from, named_is_found};
use crate::seqs::first_index_is;
use crate::text::decimal;
use vstd::prelude::*;

verus! {

/// An error reply with that code, and no session.
pub open spec fn turned_away(r: HandshakeModel, id: Seq<char>, code: Seq<char>) -> bool {
    &&& r.session is None
    &&& r.reply.field("id"@) == Some(JsonView::Text(id))
    &&& r.reply.field("error"@) matches Some(e) && e.field("code"@) == Some(JsonView::Text(code))
}

/// What the error of a reply says under a name of its data.
pub open spec fn reply_data(r: HandshakeModel, name: Seq<char>) -> Option<JsonView> {
    match r.reply.field("error"@) {
        Some(e) => match e.field("data"@) {
            Some(d) => d.field(name),
            None => None,
        },
        None => None,
    }
}

/// A hello whose window holds protocol 1 is welcomed to it, with exactly the
/// capabilities it asked for that there are. A client that is too new learns
/// that the server has to be upgraded, one that is too old that it has to be
/// itself, and a window that is empty is no request.
pub proof fn hellos_are_answered(
    bytes: Seq<u8>,
    objections: Objections,
    id: Seq<char>,
    protocol: u32,
    oldest: u32,
    list: Seq<Seq<char>>,
    version: Seq<char>,
    capability: Seq<char>,
)
    requires
        unopposed(objections),
        written(bytes, hello_view(id, protocol, oldest, list)),
    ensures
        ({
            let r = opening_answer(FrameType::Control, bytes, objections, version);
            &&& oldest <= 1 <= protocol ==> {
                &&& r.session matches Some(s) && s.protocol == 1 && (s.capabilities.contains(
                    capability,
                ) <==> list.contains(capability) && (capability == "pane-stream"@ || capability
                    == "paste-image"@ || capability == "notification"@ || capability
                    == "window-title"@ || capability == "catalog"@))
                &&& r.reply.field("id"@) == Some(JsonView::Text(id))
                &&& answer_field(r.reply, "type"@) == Some(JsonView::Text("session.welcome"@))
                &&& answer_field(r.reply, "protocol"@) == Some(JsonView::Unsigned(1))
                &&& answer_field(r.reply, "min_protocol"@) == Some(JsonView::Unsigned(1))
                &&& answer_field(r.reply, "server_version"@) == Some(JsonView::Text(version))
            }
            &&& oldest > protocol ==> turned_away(r, id, "invalid_request"@)
            &&& 1 < oldest <= protocol ==> turned_away(r, id, "protocol_out_of_window"@)
                && reply_data(r, "remedy"@) == Some(JsonView::Text("upgrade_server"@))
            &&& oldest <= protocol < 1 ==> turned_away(r, id, "protocol_out_of_window"@)
                && reply_data(r, "remedy"@) == Some(JsonView::Text("upgrade_client"@))
        }),
{
    hellos_survive_the_wire(bytes, id, protocol, oldest, list);
    let p = HelloModel { protocol, min_protocol: Some(oldest), capabilities: list };
    grants_are_exact(list, capability);
    let r = opening_answer(FrameType::Control, bytes, objections, version);
    reveal_with_fuel(named_from, 7);
    reveal_strlit("type");
    reveal_strlit("protocol");
    reveal_strlit("min_protocol");
    reveal_strlit("capabilities");
    reveal_strlit("server_version");
    reveal_strlit("remedy");
    assert("type"@.len() == 4);
    assert("protocol"@.len() == 8);
    assert("min_protocol"@.len() == 12);
    assert("capabilities"@.len() == 12);
    assert("server_version"@.len() == 14);
    assert("remedy"@.len() == 6);
    assert("min_protocol"@[0] != "capabilities"@[0]);
    if oldest <= 1 <= protocol {
        let result = r.reply->Object_0[1].1->Object_0;
        answers_carry_their_parts(id, JsonView::Object(result));
        named_is_found(result, 0, "type"@);
        named_is_found(result, 0, "protocol"@);
        named_is_found(result, 0, "min_protocol"@);
        named_is_found(result, 0, "server_version"@);
    } else if oldest > protocol {
        errors_carry_their_parts(
            id,
            "invalid_request"@,
            crate::protocol::hello::empty_window_message(p),
            None,
        );
    } else if oldest > 1 {
        let data = window_view(HelloRemedy::UpgradeServer, p);
        errors_carry_their_parts(
            id,
            "protocol_out_of_window"@,
            crate::protocol::hello::newer_client_message(p),
            Some(data),
        );
        named_is_found(data->Object_0, 0, "remedy"@);
    } else {
        let data = window_view(HelloRemedy::UpgradeClient, p);
        errors_carry_their_parts(
            id,
            "protocol_out_of_window"@,
            crate::protocol::hello::older_client_message(p),
            Some(data),
        );
        named_is_found(data->Object_0, 0, "remedy"@);
    }
}

/// Nothing but a hello opens a session.
pub proof fn only_hellos_open_sessions(
    frame_type: FrameType,
    bytes: Seq<u8>,
    objections: Objections,
    version: Seq<char>,
)
    ensures
        ({
            let r = opening_answer(frame_type, bytes, objections, version);
            &&& frame_type == FrameType::Data ==> turned_away(r, Seq::empty(), "invalid_request"@)
            &&& request_read(bytes, objections) matches Ok(q) ==> (q.method != "session.hello"@
                && frame_type == FrameType::Control ==> turned_away(r, q.id, "invalid_request"@))
            &&& request_read(bytes, objections) is Err ==> turned_away(
                r,
                Seq::empty(),
                "invalid_request"@,
            )
        }),
{
    errors_carry_their_parts(
        Seq::empty(),
        "invalid_request"@,
        "expected a session.hello control frame"@,
        None,
    );
    match request_read(bytes, objections) {
        Err(e) => {
            errors_carry_their_parts(
                Seq::empty(),
                "invalid_request"@,
                "invalid control request: "@ + e,
                None,
            );
        },
        Ok(q) => {
            errors_carry_their_parts(
                q.id,
                "invalid_request"@,
                "expected session.hello as the first control request, got "@ + q.method,
                None,
            );
        },
    }
}

/// A stream that the app opened and attached is the session's, on the pane
/// that the app's answer names and with what was attached. Where the app
/// refused, nothing is added, and what was attached all the same is released.
pub proof fn opened_streams_are_kept(
    s: ServedModel,
    id: Seq<char>,
    stream_id: u32,
    target: Seq<char>,
    v: JsonView,
    a: Attachment,
    other: u32,
)
    requires
        other != stream_id,
    ensures
        ({
            let r = s.after_open(stream_id, Some(v), Some(a));
            let end = open_end(id, stream_id, target, Some(v), Some(a));
            &&& v.field("error"@) is None ==> {
                &&& r.streams.contains_key(stream_id)
                &&& r.streams[stream_id].writable == a.writable
                &&& r.streams[stream_id].history == a.history@
                &&& r.streams[stream_id].pane_id == opened_pane(v)
                &&& end.release is None && end.answer is Relay
            }
            &&& v.field("error"@) is Some ==> {
                &&& r == s
                &&& end.answer is Relay
                &&& end.release is Some <==> a.writable && target.len() > 0
                &&& end.release matches Some(q) ==> q.method == (AppMethodModel::PaneStreamClose {
                    pane_id: target,
                    stream_id,
                })
            }
            &&& r.streams.contains_key(other) == s.streams.contains_key(other)
            &&& r.capabilities == s.capabilities
        }),
        s.after_open(stream_id, Some(v), None) == s,
        v.field("error"@) is None ==> (open_end(
            id,
            stream_id,
            target,
            Some(v),
            None,
        ).answer matches OpenAnswerModel::Error(e) && e.field("id"@) == Some(JsonView::Text(id)) && (
        e.field("error"@) matches Some(d) && d.field("code"@) == Some(
            JsonView::Text("internal_error"@),
        ))),
{
    errors_carry_their_parts(
        id,
        "internal_error"@,
        "pane stream subscription was not attached"@,
        None,
    );
}

/// Every data frame that is sent carries one stream's bytes as they came; a
/// stream without bytes sends none.
pub proof fn output_goes_out_as_it_came(drains: Seq<(u32, Drain)>, id: u32, drain: Drain)
    ensures
        ({
            let before = data_frames(drains);
            let r = data_frames(drains.push((id, drain)));
            &&& drain.bytes@.len() == 0 ==> r == before
            &&& drain.bytes@.len() > 0 ==> r == before.push(
                OutputModel::Send(
                    FrameModel { frame_type: FrameType::Data, stream_id: id, payload: drain.bytes@ },
                ),
            )
        }),
        data_frames(Seq::empty()).len() == 0,
{
    assert(drains.push((id, drain)).drop_last() =~= drains);
}

proof fn closed_exactly(drains: Seq<(u32, Drain)>, id: u32)
    ensures
        closed_ids(drains).contains(id) <==> exists|k: int|
            0 <= k < drains.len() && (#[trigger] drains[k]).0 == id && drains[k].1.closed,
        revoked_ids(drains).contains(id) <==> exists|k: int|
            0 <= k < drains.len() && (#[trigger] drains[k]).0 == id && !drains[k].1.closed
                && drains[k].1.revoked,
    decreases drains.len(),
{
    if drains.len() > 0 {
        let front = drains.drop_last();
        closed_exactly(front, id);
        let last = drains.last();
        assert(drains[drains.len() - 1] == last);
        let c0 = closed_ids(front);
        let c1 = closed_ids(drains);
        let r0 = revoked_ids(front);
        let r1 = revoked_ids(drains);
        if c0.contains(id) {
            let i = choose|i: int| 0 <= i < c0.len() && c0[i] == id;
            assert(c1[i] == id);
            let k = choose|k: int|
                0 <= k < front.len() && (#[trigger] front[k]).0 == id && front[k].1.closed;
            assert(drains[k] == front[k]);
        }
        if last.0 == id && last.1.closed {
            assert(c1[c0.len() as int] == id);
        }
        if c1.contains(id) && !c0.contains(id) {
            let i = choose|i: int| 0 <= i < c1.len() && c1[i] == id;
            assert(i == c0.len()) by {
                if i < c0.len() {
                    assert(c0[i] == id);
                }
            }
        }
        if exists|k: int|
            0 <= k < drains.len() && (#[trigger] drains[k]).0 == id && drains[k].1.closed {
            let k = choose|k: int|
                0 <= k < drains.len() && (#[trigger] drains[k]).0 == id && drains[k].1.closed;
            if k < front.len() {
                assert(front[k] == drains[k]);
            }
        }
        if r0.contains(id) {
            let i = choose|i: int| 0 <= i < r0.len() && r0[i] == id;
            assert(r1[i] == id);
            let k = choose|k: int|
                0 <= k < front.len() && (#[trigger] front[k]).0 == id && !front[k].1.closed
                    && front[k].1.revoked;
            assert(drains[k] == front[k]);
        }
        if last.0 == id && !last.1.closed && last.1.revoked {
            assert(r1[r0.len() as int] == id);
        }
        if r1.contains(id) && !r0.contains(id) {
            let i = choose|i: int| 0 <= i < r1.len() && r1[i] == id;
            assert(i == r0.len()) by {
                if i < r0.len() {
                    assert(r0[i] == id);
                }
            }
        }
        if exists|k: int|
            0 <= k < drains.len() && (#[trigger] drains[k]).0 == id && !drains[k].1.closed
                && drains[k].1.revoked {
            let k = choose|k: int|
                0 <= k < drains.len() && (#[trigger] drains[k]).0 == id && !drains[k].1.closed
                    && drains[k].1.revoked;
            if k < front.len() {
                assert(front[k] == drains[k]);
            }
        }
    }
}

/// What goes is told: the event with the reason, and the release of a write
/// grant.
proof fn goings_tell(
    streams: Map<u32, StreamModel>,
    ids: Seq<u32>,
    event: Seq<char>,
    reason: Seq<char>,
    id: u32,
)
    requires
        ids.contains(id),
    ensures
        goings(streams, ids, event, reason).contains(
            OutputModel::Send(control_frame_view(gone_view(event, id, reason))),
        ),
    decreases ids.len(),
{
    let all = goings(streams, ids, event, reason);
    let said = OutputModel::Send(control_frame_view(gone_view(event, id, reason)));
    if ids.last() == id {
        assert(all.last() == said);
        assert(all[all.len() - 1] == said);
    } else {
        let front = ids.drop_last();
        let i = choose|i: int| 0 <= i < ids.len() && ids[i] == id;
        assert(front[i] == id);
        goings_tell(streams, front, event, reason, id);
        let before = goings(streams, front, event, reason);
        let k = choose|k: int| 0 <= k < before.len() && before[k] == said;
        assert(all[k] == said);
    }
}

/// A look at the streams: where none was overrun, every stream whose pane is
/// gone is told of as closed, every one whose grant was taken over as
/// revoked, each with its reason, and the session goes on without them.
pub proof fn gone_streams_are_told_of(s: ServedModel, drains: Seq<(u32, Drain)>, k: int)
    requires
        0 <= k < drains.len(),
        forall|j: int| 0 <= j < drains.len() ==> !(#[trigger] drains[j]).1.overloaded,
    ensures
        s.pump_end(drains) is None,
        drains[k].1.closed ==> s.pump_outputs(drains).contains(
            OutputModel::Send(
                control_frame_view(gone_view("stream.closed"@, drains[k].0, "pane_closed"@)),
            ),
        ),
        !drains[k].1.closed && drains[k].1.revoked ==> s.pump_outputs(drains).contains(
            OutputModel::Send(
                control_frame_view(gone_view("stream.revoked"@, drains[k].0, "taken_over"@)),
            ),
        ),
        drains[k].1.closed || drains[k].1.revoked ==> !s.after_pump(drains).streams.contains_key(
            drains[k].0,
        ),
{
    let id = drains[k].0;
    closed_exactly(drains, id);
    assert forall|j: int| 0 <= j < drains.len() implies !is_overloaded()(#[trigger] drains[j]) by {}
    first_index_is(drains, is_overloaded(), drains.len() as int);
    let data = data_frames(drains);
    let closed = goings(s.streams, closed_ids(drains), "stream.closed"@, "pane_closed"@);
    let rest = without(s.streams, closed_ids(drains));
    let revoked = goings(rest, revoked_ids(drains), "stream.revoked"@, "taken_over"@);
    let all = s.pump_outputs(drains);
    assert(all == data + closed + revoked);
    if drains[k].1.closed {
        goings_tell(s.streams, closed_ids(drains), "stream.closed"@, "pane_closed"@, id);
        let said = OutputModel::Send(
            control_frame_view(gone_view("stream.closed"@, id, "pane_closed"@)),
        );
        let i = choose|i: int| 0 <= i < closed.len() && closed[i] == said;
        assert(all[data.len() + i] == said);
        crate::api::server::pump::gone_streams_are_dropped(s, drains, id);
    } else if drains[k].1.revoked {
        goings_tell(rest, revoked_ids(drains), "stream.revoked"@, "taken_over"@, id);
        let said = OutputModel::Send(
            control_frame_view(gone_view("stream.revoked"@, id, "taken_over"@)),
        );
        let i = choose|i: int| 0 <= i < revoked.len() && revoked[i] == said;
        assert(all[data.len() + closed.len() + i] == said);
        crate::api::server::pump::gone_streams_are_dropped(s, drains, id);
    }
}

/// The first stream that was overrun ends the session: what the streams
/// before it had goes out, then the error, and nothing more.
pub proof fn overruns_end_the_session(s: ServedModel, drains: Seq<(u32, Drain)>, k: int)
    requires
        0 <= k < drains.len(),
        drains[k].1.overloaded,
        forall|j: int| 0 <= j < k ==> !(#[trigger] drains[j]).1.overloaded,
    ensures
        s.pump_end(drains) == Some(SessionEnd::Overloaded),
        s.after_pump(drains) == s,
        s.pump_outputs(drains).drop_last() == data_frames(drains.take(k)),
        s.pump_outputs(drains).last() == OutputModel::Send(
            control_frame_view(crate::api::server::dispatch::overload_view(drains[k].0)),
        ),
{
    first_index_is(drains, is_overloaded(), k);
    let data = data_frames(drains.take(k));
    let said = OutputModel::Send(
        control_frame_view(crate::api::server::dispatch::overload_view(drains[k].0)),
    );
    assert(data.push(said).drop_last() =~= data);
}

/// What is said of an overrun stream, and of one that is gone.
pub proof fn notices_name_their_stream(stream_id: u32, event: Seq<char>, reason: Seq<char>)
    ensures
        ({
            let v = gone_view(event, stream_id, reason);
            &&& v.field("event"@) == Some(JsonView::Text(event))
            &&& v.field("data"@) matches Some(d) && d.field("stream_id"@) == Some(
                JsonView::Unsigned(stream_id as u64),
            ) && d.field("reason"@) == Some(JsonView::Text(reason))
        }),
        ({
            let v = crate::api::server::dispatch::overload_view(stream_id);
            &&& v.field("error"@) matches Some(e) && e.field("code"@) == Some(
                JsonView::Text("stream_overloaded"@),
            ) && (e.field("data"@) matches Some(d) && d.field("stream_id"@) == Some(
                JsonView::Unsigned(stream_id as u64),
            ))
        }),
        ({
            let v = crate::api::server::pump::resync_view();
            v.field("event"@) == Some(JsonView::Text("catalog.resync"@))
        }),
{
    reveal_with_fuel(named_from, 4);
    reveal_strlit("event");
    reveal_strlit("data");
    reveal_strlit("stream_id");
    reveal_strlit("reason");
    assert("event"@.len() == 5);
    assert("data"@.len() == 4);
    assert("stream_id"@.len() == 9);
    assert("reason"@.len() == 6);
    let members = gone_view(event, stream_id, reason)->Object_0;
    let data = members[1].1->Object_0;
    named_is_found(members, 0, "event"@);
    named_is_found(members, 0, "data"@);
    named_is_found(data, 0, "stream_id"@);
    named_is_found(data, 0, "reason"@);
    let more = JsonView::Object(seq![("stream_id"@, JsonView::Unsigned(stream_id as u64))]);
    errors_carry_their_parts(
        Seq::empty(),
        "stream_overloaded"@,
        "stream "@ + crate::text::decimal(stream_id as nat)
            + " overran the bounded output buffer; reconnect and reopen the stream to reseed"@,
        Some(more),
    );
    named_is_found(more->Object_0, 0, "stream_id"@);
    named_is_found(crate::api::server::pump::resync_view()->Object_0, 0, "event"@);
}

/// How an event goes out: a notification and a title under their own names
/// and only where they were agreed on; all else as a catalog event.
pub proof fn events_go_out_under_their_capability(s: ServedModel, e: EventEnvelope)
    ensures
        e.data is NotificationPosted ==> s.broadcast(e) == if s.capabilities.contains(
            "notification"@,
        ) {
            Some(("notification.posted"@, false))
        } else {
            None
        },
        e.data is WindowTitleChanged ==> s.broadcast(e) == if s.capabilities.contains(
            "window-title"@,
        ) {
            Some(("window_title.changed"@, false))
        } else {
            None
        },
        !(e.data is NotificationPosted) && !(e.data is WindowTitleChanged) ==> s.broadcast(e)
            == if s.capabilities.contains("catalog"@) {
            Some(("catalog.event"@, true))
        } else {
            None
        },
{
}

/// Every event after the session's cursor that it is to hear of goes out,
/// under its own sequence; a session that missed some is first told to
/// resync. Then the session is past all of them.
pub proof fn events_after_the_cursor_go_out(
    s: ServedModel,
    h: HubModel,
    sequence: int,
    event: Seq<char>,
    whole: bool,
)
    requires
        h.wf(),
        h.pushed <= u64::MAX,
        h.retains(sequence),
        s.event_cursor < sequence,
        s.broadcast(h.event(sequence)) == Some((event, whole)),
    ensures
        s.event_outputs(h).contains(
            BroadcastModel::Event { event, sequence, whole, envelope: h.event(sequence) },
        ),
        s.after_events(h).event_cursor == h.pushed,
        h.oldest() > s.event_cursor + 1 && s.capabilities.contains("catalog"@)
            ==> s.event_outputs(h)[0] is Resync,
        h.oldest() <= s.event_cursor + 1 ==> !s.event_outputs(h).contains(BroadcastModel::Resync),
{
    let cursor = s.event_cursor as int;
    let n = h.count_after(cursor);
    let first = h.pushed - n + 1;
    let told = s.broadcasts(h, first, n as nat);
    let out = BroadcastModel::Event { event, sequence, whole, envelope: h.event(sequence) };
    broadcasts_tell(s, h, first, n as nat, sequence);
    let i = choose|i: int| 0 <= i < told.len() && told[i] == out;
    let all = s.event_outputs(h);
    let lost = all.len() - told.len();
    assert(s.follows_events());
    if h.lost_after(cursor) && s.grants("catalog"@) {
        assert(all[1 + i] == out);
    } else {
        assert(all =~= told);
        assert(all[i] == out);
    }
    broadcasts_are_events(s, h, first, n as nat);
}

proof fn broadcasts_are_events(s: ServedModel, h: HubModel, first: int, n: nat)
    ensures
        forall|i: int| 0 <= i < s.broadcasts(h, first, n).len() ==> (#[trigger] s.broadcasts(
            h,
            first,
            n,
        )[i]) is Event,
    decreases n,
{
    if n > 0 {
        broadcasts_are_events(s, h, first, (n - 1) as nat);
    }
}

proof fn broadcasts_tell(s: ServedModel, h: HubModel, first: int, n: nat, sequence: int)
    requires
        first <= sequence < first + n,
        s.broadcast(h.event(sequence)) is Some,
    ensures
        ({
            let (event, whole) = s.broadcast(h.event(sequence))->Some_0;
            s.broadcasts(h, first, n).contains(
                BroadcastModel::Event { event, sequence, whole, envelope: h.event(sequence) },
            )
        }),
    decreases n,
{
    let (event, whole) = s.broadcast(h.event(sequence))->Some_0;
    let out = BroadcastModel::Event { event, sequence, whole, envelope: h.event(sequence) };
    let all = s.broadcasts(h, first, n);
    let before = s.broadcasts(h, first, (n - 1) as nat);
    if sequence == first + n - 1 {
        assert(all[before.len() as int] == out);
    } else {
        broadcasts_tell(s, h, first, (n - 1) as nat, sequence);
        let i = choose|i: int| 0 <= i < before.len() && before[i] == out;
        assert(all[i] == out);
    }
}

/// The hub keeps the newest 512 events; each is found under the number of its
/// push.
pub proof fn the_hub_keeps_the_newest(h: HubModel, event: EventEnvelope)
    requires
        h.wf(),
    ensures
        h.with(event).pushed == h.pushed + 1,
        h.with(event).retained.len() <= 512,
        h.pushed < 512 ==> h.with(event).retained.len() == h.retained.len() + 1,
        h.with(event).retained.last() == event,
        h.pushed >= 512 ==> h.with(event).oldest() == h.oldest() + 1,
        h.pushed < 512 ==> h.with(event).oldest() == 1,
        h.with(event).catalog_clients == h.catalog_clients,
        h.registered().catalog_clients == h.catalog_clients + 1,
        h.catalog_clients > 0 ==> h.released().catalog_clients == h.catalog_clients - 1,
        h.registered().pushed == h.pushed && h.registered().retained == h.retained,
{
}

/// A stream that goes with the write grant of a known pane is handed back to
/// the app.
proof fn goings_release(
    streams: Map<u32, StreamModel>,
    ids: Seq<u32>,
    event: Seq<char>,
    reason: Seq<char>,
    id: u32,
)
    requires
        ids.contains(id),
        streams.contains_key(id),
        streams[id].writable,
        streams[id].pane_id.len() > 0,
    ensures
        exists|q: AppRequestModel| #[trigger]
            goings(streams, ids, event, reason).contains(OutputModel::Tell(q)) && q.method == (
            AppMethodModel::PaneStreamClose { pane_id: streams[id].pane_id, stream_id: id }),
    decreases ids.len(),
{
    let front = ids.drop_last();
    let before = goings(streams, front, event, reason);
    let all = goings(streams, ids, event, reason);
    if front.contains(id) {
        goings_release(streams, front, event, reason, id);
        let q = choose|q: AppRequestModel| #[trigger]
            before.contains(OutputModel::Tell(q)) && q.method == (AppMethodModel::PaneStreamClose {
                pane_id: streams[id].pane_id,
                stream_id: id,
            });
        let k = choose|k: int| 0 <= k < before.len() && before[k] == OutputModel::Tell(q);
        assert(all[k] == OutputModel::Tell(q));
        assert(all.contains(OutputModel::Tell(q)));
    } else {
        let i = choose|i: int| 0 <= i < ids.len() && ids[i] == id;
        assert(i == ids.len() - 1) by {
            if i < ids.len() - 1 {
                assert(front[i] == id);
            }
        }
        without_others_stay(streams, front, id);
        let q = crate::api::server::framed_session::release_of(id, streams[id])->Some_0;
        assert(all[before.len() as int] == OutputModel::Tell(q));
        assert(all.contains(OutputModel::Tell(q)));
    }
}

proof fn without_others_stay(streams: Map<u32, StreamModel>, ids: Seq<u32>, id: u32)
    requires
        !ids.contains(id),
    ensures
        without(streams, ids).contains_key(id) == streams.contains_key(id),
        streams.contains_key(id) ==> without(streams, ids)[id] == streams[id],
    decreases ids.len(),
{
    if ids.len() > 0 {
        assert(ids[ids.len() - 1] == ids.last());
        assert(!ids.drop_last().contains(id)) by {
            if ids.drop_last().contains(id) {
                let i = choose|i: int| 0 <= i < ids.drop_last().len() && ids.drop_last()[i] == id;
                assert(ids[i] == id);
            }
        }
        without_others_stay(streams, ids.drop_last(), id);
    }
}

/// A pane that is gone takes the write grant on it along: the app is told to
/// close the stream.
pub proof fn grants_of_gone_panes_are_released(s: ServedModel, drains: Seq<(u32, Drain)>, k: int)
    requires
        0 <= k < drains.len(),
        forall|j: int| 0 <= j < drains.len() ==> !(#[trigger] drains[j]).1.overloaded,
        drains[k].1.closed,
        s.streams.contains_key(drains[k].0),
        s.streams[drains[k].0].writable,
        s.streams[drains[k].0].pane_id.len() > 0,
    ensures
        exists|q: AppRequestModel| #[trigger]
            s.pump_outputs(drains).contains(OutputModel::Tell(q)) && q.method == (
            AppMethodModel::PaneStreamClose {
                pane_id: s.streams[drains[k].0].pane_id,
                stream_id: drains[k].0,
            }),
{
    let id = drains[k].0;
    closed_exactly(drains, id);
    assert forall|j: int| 0 <= j < drains.len() implies !is_overloaded()(#[trigger] drains[j]) by {}
    first_index_is(drains, is_overloaded(), drains.len() as int);
    goings_release(s.streams, closed_ids(drains), "stream.closed"@, "pane_closed"@, id);
    let data = data_frames(drains);
    let closed = goings(s.streams, closed_ids(drains), "stream.closed"@, "pane_closed"@);
    let q = choose|q: AppRequestModel| #[trigger]
        closed.contains(OutputModel::Tell(q)) && q.method == (AppMethodModel::PaneStreamClose {
            pane_id: s.streams[id].pane_id,
            stream_id: id,
        });
    let i = choose|i: int| 0 <= i < closed.len() && closed[i] == OutputModel::Tell(q);
    let all = s.pump_outputs(drains);
    assert(all[data.len() + i] == OutputModel::Tell(q));
    assert(all.contains(OutputModel::Tell(q)));
}

/// A hello that is negotiated gets the newest protocol both sides speak and
/// what it asked for that there is; one that is not learns why, and which side
/// to upgrade.
pub proof fn negotiations_end_as_owed(
    p: HelloModel,
    r: Result<NegotiatedSession, HelloError>,
    capability: Seq<char>,
)
    requires
        negotiated(p, r),
    ensures
        p.oldest() <= 1 <= p.protocol ==> (r matches Ok(s) && s.protocol == 1 && (s.grants(
            capability,
        ) <==> p.capabilities.contains(capability) && (capability == "pane-stream"@ || capability
            == "paste-image"@ || capability == "notification"@ || capability == "window-title"@
            || capability == "catalog"@))),
        p.oldest() > p.protocol ==> (r matches Err(HelloError::InvalidWindow { message })
            && message@ == "session.hello window is empty: min_protocol "@ + decimal(
            p.oldest() as nat,
        ) + " exceeds protocol "@ + decimal(p.protocol as nat)),
        1 < p.oldest() <= p.protocol ==> (r matches Err(HelloError::OutOfWindow { remedy, message })
            && remedy is UpgradeServer && message@ == "the client requires framed protocol "@
            + decimal(p.oldest() as nat) + " or newer, but this server speaks up to "@ + decimal(1)
            + "; upgrade this herdr server"@),
        p.oldest() <= p.protocol < 1 ==> (r matches Err(HelloError::OutOfWindow { remedy, message })
            && remedy is UpgradeClient && message@ == "the client speaks framed protocol up to "@
            + decimal(p.protocol as nat) + ", but this server requires "@ + decimal(1)
            + " or newer; upgrade the herdr client"@),
{
    grants_are_exact(p.capabilities, capability);
}

/// What a refused client is told of both windows.
pub proof fn windows_are_told(remedy: HelloRemedy, p: HelloModel)
    ensures
        ({
            let v = window_view(remedy, p);
            &&& remedy is UpgradeClient ==> v.field("remedy"@) == Some(
                JsonView::Text("upgrade_client"@),
            )
            &&& remedy is UpgradeServer ==> v.field("remedy"@) == Some(
                JsonView::Text("upgrade_server"@),
            )
            &&& v.field("server_protocol"@) == Some(JsonView::Unsigned(1))
            &&& v.field("server_min_protocol"@) == Some(JsonView::Unsigned(1))
            &&& v.field("client_protocol"@) == Some(JsonView::Unsigned(p.protocol as u64))
            &&& v.field("client_min_protocol"@) == Some(JsonView::Unsigned(p.oldest() as u64))
        }),
{
    let members = window_view(remedy, p)->Object_0;
    reveal_with_fuel(named_from, 7);
    reveal_strlit("remedy");
    reveal_strlit("server_protocol");
    reveal_strlit("server_min_protocol");
    reveal_strlit("client_protocol");
    reveal_strlit("client_min_protocol");
    assert("remedy"@.len() == 6);
    assert("server_protocol"@.len() == 15);
    assert("server_min_protocol"@.len() == 19);
    assert("client_protocol"@.len() == 15);
    assert("client_min_protocol"@.len() == 19);
    assert("server_protocol"@[0] != "client_protocol"@[0]);
    assert("server_min_protocol"@[0] != "client_min_protocol"@[0]);
    named_is_found(members, 0, "remedy"@);
    named_is_found(members, 0, "server_protocol"@);
    named_is_found(members, 0, "server_min_protocol"@);
    named_is_found(members, 0, "client_protocol"@);
    named_is_found(members, 0, "client_min_protocol"@);
}

/// An API request goes on as it stands, unless it could not be read or is a
/// long poll, which would hold the session up.
pub proof fn api_requests_go_on(
    id: Seq<char>,
    request: JsonView,
    method: Seq<char>,
    error: String,
)
    requires
        request.field("method"@) == Some(JsonView::Text(method)),
    ensures
        method != "events.subscribe"@ && method != "events.wait"@ ==> forwarding(
            id,
            request,
            Ok(()),
        ) == ForwardingModel::Relay(request),
        method == "events.subscribe"@ || method == "events.wait"@ ==> (forwarding(
            id,
            request,
            Ok(()),
        ) matches ForwardingModel::Respond(v) && v.field("id"@) == Some(JsonView::Text(id)) && (
        v.field("error"@) matches Some(e) && e.field("code"@) == Some(
            JsonView::Text("invalid_params"@),
        ))),
        forwarding(id, request, Err(error)) matches ForwardingModel::Respond(v) && v.field("id"@)
            == Some(JsonView::Text(id)) && (v.field("error"@) matches Some(e) && e.field("code"@)
            == Some(JsonView::Text("invalid_params"@)) && e.field("message"@) == Some(
            JsonView::Text("invalid api request: "@ + error@),
        )),
{
    errors_carry_their_parts(id, "invalid_params"@, "invalid api request: "@ + error@, None);
    errors_carry_their_parts(
        id,
        "invalid_params"@,
        "long-poll methods are not available over api.request; negotiate the catalog capability for events"@,
        None,
    );
}

/// A reader that missed nothing gets every event after its cursor, one for
/// each number, in order; a reader that is up to date gets none.
pub proof fn readers_get_what_follows(
    h: HubModel,
    cursor: u64,
    got: Seq<(u64, &EventEnvelope)>,
    k: int,
)
    requires
        h.wf(),
        follows(h, cursor, got),
        h.oldest() <= cursor + 1,
    ensures
        cursor >= h.pushed ==> got.len() == 0,
        cursor < h.pushed ==> got.len() == h.pushed - cursor,
        0 <= k < got.len() ==> got[k].0 == cursor + 1 + k && *got[k].1 == h.event(cursor + 1 + k),
{
}

} // verus!
