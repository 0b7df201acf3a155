//! What each control request comes to, from its bytes to the step.
use crate::api::server::dispatch::{
    error_view, result_view, stray_data_view, AppMethodModel, AppRequestModel,
};
use crate::api::server::framed_session::{
    closed_view, cursor_of, fits, is_cursor, page_budget, page_view, pong_view, rejection_view,
    unreadable_step, ServedModel, StepModel,
};
use crate::api::server::requests::{
    history_params, open_params, paste_image_params, request_in, request_read, resize_params,
    scroll_params, send_bytes_params, stream_param, Objections, OpenParamsModel, RequestModel,
    StreamResizeParams,
};
use crate::api::server::wire_laws::{
    closes_survive_the_wire, images_survive_the_wire, legible_members, opens_survive_the_wire,
    pane_bytes_survive_the_wire, requests_survive_the_wire, resizes_survive_the_wire,
    scrolls_survive_the_wire,
};
use crate::json::{written, JsonView};
use crate::protocol::framed::{
    base64_text, close_view, open_view, paste_image_view, request_view, resize_view, scroll_view,
    send_bytes_view, StreamMode, StreamScrollParams,
};
use crate::protocol::history::{cursor_text, cursors_read_back, CursorModel};
use crate::protocol::wire_shapes::{named_from, named_is_found};
use crate::text::decimal;
use vstd::prelude::*;

verus! {

/// What the bytes of a control frame come to.
pub open spec fn comes_to(
    s: ServedModel,
    bytes: Seq<u8>,
    objections: Objections,
    next: u64,
    sequence: u64,
    version: Seq<char>,
) -> StepModel {
    match request_read(bytes, objections) {
        Ok(q) => s.control_step(q, next, sequence, version),
        Err(e) => unreadable_step(e),
    }
}

/// The session that the bytes of a control frame leave.
pub open spec fn leaves(s: ServedModel, bytes: Seq<u8>, objections: Objections) -> ServedModel {
    match request_read(bytes, objections) {
        Ok(q) => s.after_control(q),
        Err(_) => s,
    }
}

/// Nothing is held against a frame beyond what its bytes say.
pub open spec fn unopposed(objections: Objections) -> bool {
    objections.request is None && objections.params is None
}

/// An error answer to that request, with that code.
pub open spec fn refused(step: StepModel, id: Seq<char>, code: Seq<char>) -> bool {
    step matches StepModel::Respond(v) && v.field("id"@) == Some(JsonView::Text(id)) && (v.field(
        "error"@,
    ) matches Some(e) && e.field("code"@) == Some(JsonView::Text(code)))
}

/// What an error answer says under a name of its data.
pub open spec fn error_data(step: StepModel, name: Seq<char>) -> Option<JsonView> {
    match step {
        StepModel::Respond(v) => match v.field("error"@) {
            Some(e) => match e.field("data"@) {
                Some(d) => d.field(name),
                None => None,
            },
            None => None,
        },
        _ => None,
    }
}

/// An error answer with that message.
pub open spec fn says(step: StepModel, message: Seq<char>) -> bool {
    step matches StepModel::Respond(v) && (v.field("error"@) matches Some(e) && e.field("message"@)
        == Some(JsonView::Text(message)))
}

/// What an answer says under a name of its result.
pub open spec fn answer_field(v: JsonView, name: Seq<char>) -> Option<JsonView> {
    match v.field("result"@) {
        Some(r) => r.field(name),
        None => None,
    }
}

/// An error answer carries its request's id, its code, its message and its
/// data, under those names.
pub proof fn errors_carry_their_parts(
    id: Seq<char>,
    code: Seq<char>,
    message: Seq<char>,
    data: Option<JsonView>,
)
    ensures
        ({
            let v = error_view(id, code, message, data);
            &&& v.field("id"@) == Some(JsonView::Text(id))
            &&& v.field("result"@) is None
            &&& v.field("error"@) matches Some(e) && {
                &&& e.field("code"@) == Some(JsonView::Text(code))
                &&& e.field("message"@) == Some(JsonView::Text(message))
                &&& e.field("data"@) == data
            }
        }),
{
    let members = error_view(id, code, message, data)->Object_0;
    let error = members[1].1->Object_0;
    reveal_with_fuel(named_from, 4);
    reveal_strlit("id");
    reveal_strlit("error");
    reveal_strlit("result");
    reveal_strlit("code");
    reveal_strlit("message");
    reveal_strlit("data");
    assert("id"@.len() == 2);
    assert("error"@.len() == 5);
    assert("result"@.len() == 6);
    assert("code"@.len() == 4);
    assert("message"@.len() == 7);
    assert("data"@.len() == 4);
    assert("code"@[0] != "data"@[0]);
    named_is_found(members, 0, "id"@);
    named_is_found(members, 0, "error"@);
    named_is_found(members, 0, "result"@);
    named_is_found(error, 0, "code"@);
    named_is_found(error, 0, "message"@);
    named_is_found(error, 0, "data"@);
}

/// An answer carries its request's id and its result.
pub proof fn answers_carry_their_parts(id: Seq<char>, result: JsonView)
    ensures
        ({
            let v = result_view(id, result);
            &&& v.field("id"@) == Some(JsonView::Text(id))
            &&& v.field("result"@) == Some(result)
            &&& v.field("error"@) is None
        }),
{
    let members = result_view(id, result)->Object_0;
    reveal_with_fuel(named_from, 4);
    reveal_strlit("id");
    reveal_strlit("error");
    reveal_strlit("result");
    assert("id"@.len() == 2);
    assert("error"@.len() == 5);
    assert("result"@.len() == 6);
    named_is_found(members, 0, "id"@);
    named_is_found(members, 0, "error"@);
    named_is_found(members, 0, "result"@);
}

/// No two methods share a name.
pub proof fn methods_are_told_apart()
    ensures
        "ping"@ != "stream.open"@,
        "ping"@ != "stream.close"@,
        "ping"@ != "stream.resize"@,
        "ping"@ != "stream.scroll"@,
        "ping"@ != "stream.history"@,
        "ping"@ != "pane.send_bytes"@,
        "ping"@ != "pane.paste_image"@,
        "ping"@ != "session.snapshot"@,
        "ping"@ != "api.request"@,
        "ping"@ != "session.hello"@,
        "stream.open"@ != "stream.close"@,
        "stream.open"@ != "stream.resize"@,
        "stream.open"@ != "stream.scroll"@,
        "stream.open"@ != "stream.history"@,
        "stream.open"@ != "pane.send_bytes"@,
        "stream.open"@ != "pane.paste_image"@,
        "stream.open"@ != "session.snapshot"@,
        "stream.open"@ != "api.request"@,
        "stream.open"@ != "session.hello"@,
        "stream.close"@ != "stream.resize"@,
        "stream.close"@ != "stream.scroll"@,
        "stream.close"@ != "stream.history"@,
        "stream.close"@ != "pane.send_bytes"@,
        "stream.close"@ != "pane.paste_image"@,
        "stream.close"@ != "session.snapshot"@,
        "stream.close"@ != "api.request"@,
        "stream.close"@ != "session.hello"@,
        "stream.resize"@ != "stream.scroll"@,
        "stream.resize"@ != "stream.history"@,
        "stream.resize"@ != "pane.send_bytes"@,
        "stream.resize"@ != "pane.paste_image"@,
        "stream.resize"@ != "session.snapshot"@,
        "stream.resize"@ != "api.request"@,
        "stream.resize"@ != "session.hello"@,
        "stream.scroll"@ != "stream.history"@,
        "stream.scroll"@ != "pane.send_bytes"@,
        "stream.scroll"@ != "pane.paste_image"@,
        "stream.scroll"@ != "session.snapshot"@,
        "stream.scroll"@ != "api.request"@,
        "stream.scroll"@ != "session.hello"@,
        "stream.history"@ != "pane.send_bytes"@,
        "stream.history"@ != "pane.paste_image"@,
        "stream.history"@ != "session.snapshot"@,
        "stream.history"@ != "api.request"@,
        "stream.history"@ != "session.hello"@,
        "pane.send_bytes"@ != "pane.paste_image"@,
        "pane.send_bytes"@ != "session.snapshot"@,
        "pane.send_bytes"@ != "api.request"@,
        "pane.send_bytes"@ != "session.hello"@,
        "pane.paste_image"@ != "session.snapshot"@,
        "pane.paste_image"@ != "api.request"@,
        "pane.paste_image"@ != "session.hello"@,
        "session.snapshot"@ != "api.request"@,
        "session.snapshot"@ != "session.hello"@,
        "api.request"@ != "session.hello"@,
{
    reveal_strlit("ping");
    reveal_strlit("stream.open");
    reveal_strlit("stream.close");
    reveal_strlit("stream.resize");
    reveal_strlit("stream.scroll");
    reveal_strlit("stream.history");
    reveal_strlit("pane.send_bytes");
    reveal_strlit("pane.paste_image");
    reveal_strlit("session.snapshot");
    reveal_strlit("api.request");
    reveal_strlit("session.hello");
    assert("ping"@.len() != "stream.open"@.len());
    assert("ping"@.len() != "stream.close"@.len());
    assert("ping"@.len() != "stream.resize"@.len());
    assert("ping"@.len() != "stream.scroll"@.len());
    assert("ping"@.len() != "stream.history"@.len());
    assert("ping"@.len() != "pane.send_bytes"@.len());
    assert("ping"@.len() != "pane.paste_image"@.len());
    assert("ping"@.len() != "session.snapshot"@.len());
    assert("ping"@.len() != "api.request"@.len());
    assert("ping"@.len() != "session.hello"@.len());
    assert("stream.open"@.len() != "stream.close"@.len());
    assert("stream.open"@.len() != "stream.resize"@.len());
    assert("stream.open"@.len() != "stream.scroll"@.len());
    assert("stream.open"@.len() != "stream.history"@.len());
    assert("stream.open"@.len() != "pane.send_bytes"@.len());
    assert("stream.open"@.len() != "pane.paste_image"@.len());
    assert("stream.open"@.len() != "session.snapshot"@.len());
    assert("stream.open"@[0] != "api.request"@[0]);
    assert("stream.open"@.len() != "session.hello"@.len());
    assert("stream.close"@.len() != "stream.resize"@.len());
    assert("stream.close"@.len() != "stream.scroll"@.len());
    assert("stream.close"@.len() != "stream.history"@.len());
    assert("stream.close"@.len() != "pane.send_bytes"@.len());
    assert("stream.close"@.len() != "pane.paste_image"@.len());
    assert("stream.close"@.len() != "session.snapshot"@.len());
    assert("stream.close"@.len() != "api.request"@.len());
    assert("stream.close"@.len() != "session.hello"@.len());
    assert("stream.resize"@[7] != "stream.scroll"@[7]);
    assert("stream.resize"@.len() != "stream.history"@.len());
    assert("stream.resize"@.len() != "pane.send_bytes"@.len());
    assert("stream.resize"@.len() != "pane.paste_image"@.len());
    assert("stream.resize"@.len() != "session.snapshot"@.len());
    assert("stream.resize"@.len() != "api.request"@.len());
    assert("stream.resize"@[1] != "session.hello"@[1]);
    assert("stream.scroll"@.len() != "stream.history"@.len());
    assert("stream.scroll"@.len() != "pane.send_bytes"@.len());
    assert("stream.scroll"@.len() != "pane.paste_image"@.len());
    assert("stream.scroll"@.len() != "session.snapshot"@.len());
    assert("stream.scroll"@.len() != "api.request"@.len());
    assert("stream.scroll"@[1] != "session.hello"@[1]);
    assert("stream.history"@.len() != "pane.send_bytes"@.len());
    assert("stream.history"@.len() != "pane.paste_image"@.len());
    assert("stream.history"@.len() != "session.snapshot"@.len());
    assert("stream.history"@.len() != "api.request"@.len());
    assert("stream.history"@.len() != "session.hello"@.len());
    assert("pane.send_bytes"@.len() != "pane.paste_image"@.len());
    assert("pane.send_bytes"@.len() != "session.snapshot"@.len());
    assert("pane.send_bytes"@.len() != "api.request"@.len());
    assert("pane.send_bytes"@.len() != "session.hello"@.len());
    assert("pane.paste_image"@[0] != "session.snapshot"@[0]);
    assert("pane.paste_image"@.len() != "api.request"@.len());
    assert("pane.paste_image"@.len() != "session.hello"@.len());
    assert("session.snapshot"@.len() != "api.request"@.len());
    assert("session.snapshot"@.len() != "session.hello"@.len());
    assert("api.request"@.len() != "session.hello"@.len());
}

/// A scroll of a stream that the client writes goes to the app for the
/// stream's pane, as it was sent: which way, how far, from what, where.
pub proof fn scrolls_are_relayed(
    s: ServedModel,
    bytes: Seq<u8>,
    objections: Objections,
    next: u64,
    sequence: u64,
    version: Seq<char>,
    id: Seq<char>,
    p: StreamScrollParams,
)
    requires
        unopposed(objections),
        written(bytes, scroll_view(id, p)),
        s.grants("pane-stream"@),
        s.streams.contains_key(p.stream_id),
        s.streams[p.stream_id].writable,
    ensures
        comes_to(s, bytes, objections, next, sequence, version) matches StepModel::Relay(q)
            && q.id == id && (q.method matches AppMethodModel::PaneStreamScroll { pane_id, scroll }
            && pane_id == s.streams[p.stream_id].pane_id && scroll.direction == p.direction
            && scroll.lines == p.lines && scroll.source == p.source && scroll.column == p.column
            && scroll.row == p.row && scroll.modifiers == p.modifiers && scroll.stream_id
            == p.stream_id),
        leaves(s, bytes, objections) == s,
{
    scrolls_survive_the_wire(bytes, id, p);
    methods_are_told_apart();
}

/// A resize of a stream that the client writes goes to the app for the
/// stream's pane, with the columns, rows and cell size that were sent.
pub proof fn resizes_are_relayed(
    s: ServedModel,
    bytes: Seq<u8>,
    objections: Objections,
    next: u64,
    sequence: u64,
    version: Seq<char>,
    id: Seq<char>,
    p: StreamResizeParams,
)
    requires
        unopposed(objections),
        written(
            bytes,
            resize_view(id, p.stream_id, p.cols, p.rows, p.cell_width_px, p.cell_height_px),
        ),
        s.grants("pane-stream"@),
        s.streams.contains_key(p.stream_id),
        s.streams[p.stream_id].writable,
    ensures
        comes_to(s, bytes, objections, next, sequence, version) == StepModel::Relay(
            AppRequestModel {
                id,
                method: AppMethodModel::PaneStreamResize {
                    pane_id: s.streams[p.stream_id].pane_id,
                    stream_id: p.stream_id,
                    cols: p.cols,
                    rows: p.rows,
                    cell_width_px: p.cell_width_px,
                    cell_height_px: p.cell_height_px,
                },
            },
        ),
        leaves(s, bytes, objections) == s,
{
    resizes_survive_the_wire(bytes, id, p);
    methods_are_told_apart();
}

/// Scrolling and resizing a stream that is not open, or open only for
/// reading, is refused, each for its own reason.
pub proof fn only_write_streams_are_scrolled_and_resized(
    s: ServedModel,
    bytes: Seq<u8>,
    objections: Objections,
    next: u64,
    sequence: u64,
    version: Seq<char>,
    id: Seq<char>,
    p: StreamScrollParams,
    r: StreamResizeParams,
)
    requires
        unopposed(objections),
        s.grants("pane-stream"@),
        written(bytes, scroll_view(id, p)) || (written(
            bytes,
            resize_view(id, r.stream_id, r.cols, r.rows, r.cell_width_px, r.cell_height_px),
        ) && r.stream_id == p.stream_id),
    ensures
        ({
            let step = comes_to(s, bytes, objections, next, sequence, version);
            &&& !s.streams.contains_key(p.stream_id) ==> refused(step, id, "unknown_stream"@)
                && says(step, "no open stream with id "@ + decimal(p.stream_id as nat))
            &&& s.streams.contains_key(p.stream_id) && !s.streams[p.stream_id].writable ==> refused(
                step,
                id,
                "stream_not_write_holder"@,
            ) && says(
                step,
                "stream "@ + decimal(p.stream_id as nat) + " was not opened in write mode"@,
            )
        }),
{
    if written(bytes, scroll_view(id, p)) {
        scrolls_survive_the_wire(bytes, id, p);
    } else {
        resizes_survive_the_wire(bytes, id, r);
    }
    methods_are_told_apart();
    errors_carry_their_parts(
        id,
        "unknown_stream"@,
        "no open stream with id "@ + decimal(p.stream_id as nat),
        None,
    );
    errors_carry_their_parts(
        id,
        "stream_not_write_holder"@,
        "stream "@ + decimal(p.stream_id as nat) + " was not opened in write mode"@,
        None,
    );
}

/// An open is asked of the app under the next id, for the pane and in the
/// mode and size that were sent.
pub proof fn opens_are_asked_of_the_app(
    s: ServedModel,
    bytes: Seq<u8>,
    objections: Objections,
    next: u64,
    sequence: u64,
    version: Seq<char>,
    id: Seq<char>,
    p: OpenParamsModel,
)
    requires
        unopposed(objections),
        written(bytes, open_view(id, p.pane_id, p.mode, p.takeover, p.cols, p.rows)),
        s.grants("pane-stream"@),
    ensures
        ({
            let step = comes_to(s, bytes, objections, next, sequence, version);
            &&& next <= u32::MAX ==> step == (StepModel::Open {
                request: AppRequestModel {
                    id,
                    method: AppMethodModel::PaneStreamOpen {
                        pane_id: p.pane_id,
                        stream_id: next as u32,
                        write: p.mode == StreamMode::Write,
                        takeover: p.takeover,
                        cols: p.cols,
                        rows: p.rows,
                    },
                },
                stream_id: next as u32,
                target: p.pane_id,
            })
            &&& next > u32::MAX ==> refused(step, id, "stream_ids_exhausted"@)
            &&& next <= u32::MAX ==> (request_read(bytes, objections) matches Ok(q) && s.next_after(
                q,
                next,
            ) == next + 1)
        }),
        leaves(s, bytes, objections) == s,
{
    opens_survive_the_wire(bytes, id, p);
    methods_are_told_apart();
    errors_carry_their_parts(
        id,
        "stream_ids_exhausted"@,
        "this server process has exhausted its 32-bit stream id space; restart the server to open new streams"@,
        None,
    );
}

/// A close takes the stream out and answers with its id. The app is told of
/// it exactly where the stream held the write grant of a known pane.
pub proof fn closes_release_their_stream(
    s: ServedModel,
    bytes: Seq<u8>,
    objections: Objections,
    next: u64,
    sequence: u64,
    version: Seq<char>,
    id: Seq<char>,
    stream_id: u32,
)
    requires
        unopposed(objections),
        written(bytes, close_view(id, stream_id)),
        s.grants("pane-stream"@),
    ensures
        ({
            let step = comes_to(s, bytes, objections, next, sequence, version);
            let open = s.streams[stream_id];
            let left = leaves(s, bytes, objections);
            if s.streams.contains_key(stream_id) {
                &&& left.streams == s.streams.remove(stream_id)
                &&& !left.streams.contains_key(stream_id)
                &&& left.capabilities == s.capabilities && left.protocol == s.protocol
                &&& step matches StepModel::Release { release, response } && {
                    &&& response.field("id"@) == Some(JsonView::Text(id))
                    &&& answer_field(response, "type"@) == Some(JsonView::Text("stream_closed"@))
                    &&& answer_field(response, "stream_id"@) == Some(
                        JsonView::Unsigned(stream_id as u64),
                    )
                    &&& release is Some <==> open.writable && open.pane_id.len() > 0
                    &&& release matches Some(q) ==> q.id == "framed:stream.close:"@ + decimal(
                        stream_id as nat,
                    ) && q.method == (AppMethodModel::PaneStreamClose {
                        pane_id: open.pane_id,
                        stream_id,
                    })
                }
            } else {
                left == s && refused(step, id, "unknown_stream"@)
            }
        }),
{
    closes_survive_the_wire(bytes, id, stream_id);
    methods_are_told_apart();
    errors_carry_their_parts(
        id,
        "unknown_stream"@,
        "no open stream with id "@ + decimal(stream_id as nat),
        None,
    );
    let v = closed_view(id, stream_id);
    let result = v->Object_0[1].1->Object_0;
    answers_carry_their_parts(id, JsonView::Object(result));
    reveal_with_fuel(named_from, 4);
    reveal_strlit("type");
    reveal_strlit("stream_id");
    assert("type"@.len() == 4);
    assert("stream_id"@.len() == 9);
    named_is_found(result, 0, "type"@);
    named_is_found(result, 0, "stream_id"@);
}

/// Bytes for a pane go to the app as they were sent; so does an image, where
/// images were agreed on.
pub proof fn bytes_and_images_are_relayed(
    s: ServedModel,
    bytes: Seq<u8>,
    objections: Objections,
    next: u64,
    sequence: u64,
    version: Seq<char>,
    id: Seq<char>,
    pane_id: Seq<char>,
    extension: Seq<char>,
    data: Seq<u8>,
)
    requires
        unopposed(objections),
    ensures
        written(bytes, send_bytes_view(id, pane_id, data)) && s.grants("pane-stream"@) ==> comes_to(
            s,
            bytes,
            objections,
            next,
            sequence,
            version,
        ) == StepModel::Relay(
            AppRequestModel {
                id,
                method: AppMethodModel::PaneSendBytes { pane_id, data_base64: base64_text(data) },
            },
        ),
        written(bytes, paste_image_view(id, pane_id, extension, data)) && s.grants("paste-image"@)
            ==> comes_to(s, bytes, objections, next, sequence, version) == StepModel::Relay(
            AppRequestModel {
                id,
                method: AppMethodModel::PanePasteImage {
                    pane_id,
                    extension,
                    data_base64: base64_text(data),
                },
            },
        ),
{
    methods_are_told_apart();
    if written(bytes, send_bytes_view(id, pane_id, data)) {
        pane_bytes_survive_the_wire(bytes, id, pane_id, data);
    }
    if written(bytes, paste_image_view(id, pane_id, extension, data)) {
        images_survive_the_wire(bytes, id, pane_id, extension, data);
    }
}

/// A snapshot is anchored at the sequence before it is taken; a heartbeat is
/// answered with the server's version and the protocol that was agreed on.
pub proof fn snapshots_are_anchored_and_pings_answered(
    s: ServedModel,
    bytes: Seq<u8>,
    objections: Objections,
    next: u64,
    sequence: u64,
    version: Seq<char>,
    id: Seq<char>,
)
    requires
        unopposed(objections),
    ensures
        written(bytes, request_view(id, "session.snapshot"@, Seq::empty())) && s.grants("catalog"@)
            ==> comes_to(s, bytes, objections, next, sequence, version) == (StepModel::Anchor {
            request: AppRequestModel { id, method: AppMethodModel::SessionSnapshot },
            sequence,
        }),
        written(bytes, request_view(id, "ping"@, Seq::empty())) ==> (comes_to(
            s,
            bytes,
            objections,
            next,
            sequence,
            version,
        ) matches StepModel::Respond(v) && {
            &&& v.field("id"@) == Some(JsonView::Text(id))
            &&& answer_field(v, "type"@) == Some(JsonView::Text("pong"@))
            &&& answer_field(v, "version"@) == Some(JsonView::Text(version))
            &&& answer_field(v, "protocol"@) == Some(JsonView::Unsigned(s.protocol as u64))
        }),
        written(bytes, request_view(id, "session.hello"@, Seq::empty())) ==> refused(
            comes_to(s, bytes, objections, next, sequence, version),
            id,
            "invalid_request"@,
        ),
{
    methods_are_told_apart();
    let none = Seq::<(Seq<char>, JsonView)>::empty();
    reveal_with_fuel(legible_members, 1);
    if written(bytes, request_view(id, "session.snapshot"@, none)) {
        requests_survive_the_wire(bytes, id, "session.snapshot"@, none);
    }
    if written(bytes, request_view(id, "session.hello"@, none)) {
        requests_survive_the_wire(bytes, id, "session.hello"@, none);
        errors_carry_their_parts(
            id,
            "invalid_request"@,
            "session.hello was already negotiated on this connection"@,
            None,
        );
    }
    if written(bytes, request_view(id, "ping"@, none)) {
        requests_survive_the_wire(bytes, id, "ping"@, none);
        let v = pong_view(id, version, s.protocol);
        let result = v->Object_0[1].1->Object_0;
        answers_carry_their_parts(id, JsonView::Object(result));
        reveal_with_fuel(named_from, 4);
        reveal_strlit("type");
        reveal_strlit("version");
        reveal_strlit("protocol");
        assert("type"@.len() == 4);
        assert("version"@.len() == 7);
        assert("protocol"@.len() == 8);
        named_is_found(result, 0, "type"@);
        named_is_found(result, 0, "version"@);
        named_is_found(result, 0, "protocol"@);
    }
}

/// An API request is forwarded as it stands under `request`; without one it
/// is refused.
pub proof fn api_requests_are_forwarded(
    s: ServedModel,
    q: RequestModel,
    next: u64,
    sequence: u64,
    version: Seq<char>,
)
    requires
        q.method == "api.request"@,
        s.grants("catalog"@),
    ensures
        ({
            let step = s.control_step(q, next, sequence, version);
            match q.params.field("request"@) {
                Some(request) => step == (StepModel::Forward { id: q.id, request }),
                None => refused(step, q.id, "invalid_params"@),
            }
        }),
        s.after_control(q) == s,
{
    methods_are_told_apart();
    errors_carry_their_parts(
        q.id,
        "invalid_params"@,
        "api.request params carry no request"@,
        None,
    );
}

/// A page of history is refused for a cursor that is none, for a stream that is
/// not open and for a place in another capture; else it is served, unless it is
/// too long for a frame.
pub proof fn history_is_refused_for_cause(
    s: ServedModel,
    q: RequestModel,
    next: u64,
    sequence: u64,
    version: Seq<char>,
    cursor: CursorModel,
    asked: Option<u64>,
)
    requires
        q.method == "stream.history"@,
        s.grants("pane-stream"@),
    ensures
        ({
            let step = s.control_step(q, next, sequence, version);
            let history = s.streams[cursor.stream_id].history;
            let read = q.agreed(history_params(q.params));
            &&& (read matches Ok((text, _)) && !is_cursor(text)) ==> refused(
                step,
                q.id,
                "invalid_cursor"@,
            )
            &&& read == Ok::<(Seq<char>, Option<u64>), Seq<char>>((cursor_text(cursor), asked)) ==> {
                &&& !s.streams.contains_key(cursor.stream_id) ==> refused(
                    step,
                    q.id,
                    "unknown_stream"@,
                )
                &&& s.streams.contains_key(cursor.stream_id) && !fits(cursor, history) ==> refused(
                    step,
                    q.id,
                    "invalid_cursor"@,
                )
                &&& s.streams.contains_key(cursor.stream_id) && fits(cursor, history) ==> step
                    == StepModel::Respond(
                    page_view(q.id, cursor, history.content, page_budget(asked)),
                ) || refused(step, q.id, "history_page_too_large"@)
            }
        }),
        s.after_control(q) == s,
{
    methods_are_told_apart();
    if let Ok((text, _)) = q.agreed(history_params(q.params)) {
        if text == cursor_text(cursor) {
            assert(is_cursor(text));
            cursors_read_back(cursor_of(text), cursor);
        }
    }
    errors_carry_their_parts(
        q.id,
        "invalid_cursor"@,
        "history cursor is not decodable; reopen the stream for a fresh cursor"@,
        None,
    );
    errors_carry_their_parts(
        q.id,
        "invalid_cursor"@,
        "history cursor does not match the open stream's capture; reopen the stream for a fresh cursor"@,
        None,
    );
    errors_carry_their_parts(
        q.id,
        "unknown_stream"@,
        "no open stream with id "@ + decimal(cursor.stream_id as nat),
        None,
    );
    errors_carry_their_parts(
        q.id,
        "history_page_too_large"@,
        "history page encodes larger than the frame limit; retry with a smaller max_bytes"@,
        None,
    );
}

/// The capability that a method needs, where it needs one.
pub open spec fn needed(method: Seq<char>) -> Option<Seq<char>> {
    if method == "stream.open"@ || method == "stream.close"@ || method == "stream.resize"@ || method
        == "stream.scroll"@ || method == "stream.history"@ || method == "pane.send_bytes"@ {
        Some("pane-stream"@)
    } else if method == "pane.paste_image"@ {
        Some("paste-image"@)
    } else if method == "session.snapshot"@ || method == "api.request"@ {
        Some("catalog"@)
    } else {
        None
    }
}

/// Whatever needs a capability that was not agreed on is refused, with the
/// capability's name, and changes nothing.
pub proof fn ungranted_methods_are_refused(
    s: ServedModel,
    q: RequestModel,
    next: u64,
    sequence: u64,
    version: Seq<char>,
    capability: Seq<char>,
)
    requires
        needed(q.method) == Some(capability),
        !s.grants(capability),
    ensures
        ({
            let step = s.control_step(q, next, sequence, version);
            &&& refused(step, q.id, "capability_not_negotiated"@)
            &&& error_data(step, "capability"@) == Some(JsonView::Text(capability))
            &&& says(
                step,
                q.method + " requires the "@ + capability
                    + " capability, which was not negotiated at session.hello"@,
            )
        }),
        s.after_control(q) == s,
        s.next_after(q, next) == next,
{
    methods_are_told_apart();
    let data = JsonView::Object(seq![("capability"@, JsonView::Text(capability))]);
    errors_carry_their_parts(
        q.id,
        "capability_not_negotiated"@,
        q.method + " requires the "@ + capability
            + " capability, which was not negotiated at session.hello"@,
        Some(data),
    );
    reveal_with_fuel(named_from, 4);
    named_is_found(data->Object_0, 0, "capability"@);
    assert(s.control_step(q, next, sequence, version) == StepModel::Respond(
        rejection_view(q, capability),
    ));
}

/// Params that cannot be read are answered as such, with the method's name and
/// why; nothing changes, and no stream id is used up.
pub proof fn unreadable_params_are_refused(
    s: ServedModel,
    q: RequestModel,
    next: u64,
    sequence: u64,
    version: Seq<char>,
    e: Seq<char>,
)
    requires
        needed(q.method) matches Some(c) && s.grants(c),
        ({
            ||| q.method == "stream.open"@ && (q.agreed(open_params(q.params)) matches Err(f) && f
                == e)
            ||| q.method == "stream.close"@ && (q.agreed(stream_param(q.params)) matches Err(f) && f
                == e)
            ||| q.method == "stream.resize"@ && (q.agreed(resize_params(q.params)) matches Err(f)
                && f == e)
            ||| q.method == "stream.scroll"@ && (q.agreed(scroll_params(q.params)) matches Err(f)
                && f == e)
            ||| q.method == "stream.history"@ && (q.agreed(history_params(q.params)) matches Err(f)
                && f == e)
            ||| q.method == "pane.send_bytes"@ && (q.agreed(send_bytes_params(q.params)) matches
                Err(f) && f == e)
            ||| q.method == "pane.paste_image"@ && (q.agreed(paste_image_params(q.params)) matches
                Err(f) && f == e)
        }),
    ensures
        ({
            let step = s.control_step(q, next, sequence, version);
            refused(step, q.id, "invalid_params"@) && says(
                step,
                "invalid "@ + q.method + " params: "@ + e,
            )
        }),
        s.after_control(q) == s,
        s.next_after(q, next) == next,
        q.objection matches Some(o) ==> e == o,
{
    methods_are_told_apart();
    errors_carry_their_parts(
        q.id,
        "invalid_params"@,
        "invalid "@ + q.method + " params: "@ + e,
        None,
    );
}

/// A method that is none of the protocol's is refused by name.
pub proof fn unknown_methods_are_refused(
    s: ServedModel,
    q: RequestModel,
    next: u64,
    sequence: u64,
    version: Seq<char>,
)
    requires
        q.method != "ping"@,
        q.method != "stream.open"@,
        q.method != "stream.close"@,
        q.method != "stream.resize"@,
        q.method != "stream.scroll"@,
        q.method != "stream.history"@,
        q.method != "pane.send_bytes"@,
        q.method != "pane.paste_image"@,
        q.method != "session.snapshot"@,
        q.method != "api.request"@,
        q.method != "session.hello"@,
    ensures
        ({
            let step = s.control_step(q, next, sequence, version);
            &&& refused(step, q.id, "unknown_method"@)
            &&& step matches StepModel::Respond(v) && (v.field("error"@) matches Some(e) && e.field(
                "message"@,
            ) == Some(JsonView::Text("unknown control method "@ + q.method)))
        }),
        s.after_control(q) == s,
        s.next_after(q, next) == next,
{
    errors_carry_their_parts(q.id, "unknown_method"@, "unknown control method "@ + q.method, None);
}

/// A data frame from a client is out of step: it is answered as a stream that
/// is not the client's to write.
pub proof fn stray_data_is_refused(stream_id: u32)
    ensures
        refused(
            StepModel::Respond(stray_data_view(stream_id)),
            Seq::empty(),
            "unknown_stream"@,
        ),
        says(
            StepModel::Respond(stray_data_view(stream_id)),
            "data frames are server-to-client; no client-writable stream with id "@ + decimal(
                stream_id as nat,
            ),
        ),
{
    errors_carry_their_parts(
        Seq::empty(),
        "unknown_stream"@,
        "data frames are server-to-client; no client-writable stream with id "@ + decimal(
            stream_id as nat,
        ),
        None,
    );
}

/// Bytes that hold no request are answered as such and change nothing.
pub proof fn unreadable_frames_are_refused(
    s: ServedModel,
    bytes: Seq<u8>,
    objections: Objections,
    next: u64,
    sequence: u64,
    version: Seq<char>,
)
    requires
        request_in(bytes) is None,
    ensures
        refused(
            comes_to(s, bytes, objections, next, sequence, version),
            Seq::empty(),
            "invalid_request"@,
        ),
        leaves(s, bytes, objections) == s,
{
    let why = request_read(bytes, objections)->Err_0;
    errors_carry_their_parts(
        Seq::empty(),
        "invalid_request"@,
        "invalid control request: "@ + why,
        None,
    );
}

} // verus!
