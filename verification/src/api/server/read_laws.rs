//! How members of a message are read, present or absent.
use crate::api::server::requests::{
    hello_params, history_params, open_params, paste_image_params, request_of, resize_params,
    scroll_params, send_bytes_params, stream_param,
};
use crate::json::JsonView;
use crate::protocol::framed::{
    error_of, opened_of, session_refusal, snapshot_of, welcome_of, HelloRemedy, StreamMode,
    StreamScrollDirection, StreamScrollSource, WelcomeModel,
};
use crate::protocol::history::page_in;
use vstd::prelude::*;

verus! {

/// A request is a method, an id and params; without an id it has an empty
/// one, without a method it is none.
pub proof fn requests_are_read(v: JsonView, id: Seq<char>, method: Seq<char>)
    ensures
        v.field("id"@) == Some(JsonView::Text(id)) && v.field("method"@) == Some(
            JsonView::Text(method),
        ) ==> (request_of(v) matches Some(q) && q.id == id && q.method == method && q.objection is None
            && (v.field("params"@) matches Some(p) ==> q.params == p)),
        v.field("id"@) is None && v.field("method"@) == Some(JsonView::Text(method)) ==> (
        request_of(v) matches Some(q) && q.id.len() == 0 && q.method == method),
        v.field("method"@) is None ==> request_of(v) is None,
        v.field("id"@) == Some(JsonView::Null) ==> request_of(v) is None,
{
}

/// A stream is opened for reading unless it says to write, takes nothing over
/// unless it says so, and needs no size.
pub proof fn opens_are_read(v: JsonView, pane: Seq<char>, cols: u16, rows: u16)
    requires
        v.field("pane_id"@) == Some(JsonView::Text(pane)),
    ensures
        v.field("mode"@) is None && v.field("takeover"@) is None && v.field("cols"@) is None
            && v.field("rows"@) is None ==> (open_params(v) matches Ok(p) && p.pane_id == pane
            && p.mode == StreamMode::Read && !p.takeover && p.cols is None && p.rows is None),
        v.field("mode"@) == Some(JsonView::Text("write"@)) && v.field("takeover"@) == Some(
            JsonView::Bool(true),
        ) && v.field("cols"@) == Some(JsonView::Unsigned(cols as u64)) && v.field("rows"@) == Some(
            JsonView::Unsigned(rows as u64),
        ) ==> (open_params(v) matches Ok(p) && p.pane_id == pane && p.mode == StreamMode::Write
            && p.takeover && p.cols == Some(cols) && p.rows == Some(rows)),
        v.field("mode"@) == Some(JsonView::Text("read"@)) && v.field("takeover"@) is None && v.field(
            "cols"@,
        ) is None && v.field("rows"@) is None ==> (open_params(v) matches Ok(p) && p.mode
            == StreamMode::Read),
{
    reveal_strlit("read");
    reveal_strlit("write");
    assert("read"@.len() == 4);
    assert("write"@.len() == 5);
}

/// A request that names no pane, or no stream, is refused with the name of
/// what is missing.
pub proof fn missing_members_are_named(v: JsonView)
    ensures
        v.field("pane_id"@) is None ==> (open_params(v) matches Err(e) && e == "missing field `"@ + "pane_id"@ + "`"@),
        v.field("pane_id"@) is None ==> (send_bytes_params(v) matches Err(e) && e == "missing field `"@ + "pane_id"@ + "`"@),
        v.field("stream_id"@) is None ==> (stream_param(v) matches Err(e) && e == "missing field `"@ + "stream_id"@ + "`"@),
        v.field("stream_id"@) is None ==> (resize_params(v) matches Err(e) && e == "missing field `"@ + "stream_id"@ + "`"@),
        v.field("stream_id"@) is None ==> (scroll_params(v) matches Err(e) && e == "missing field `"@ + "stream_id"@ + "`"@),
        v.field("cursor"@) is None ==> (history_params(v) matches Err(e) && e == "missing field `"@ + "cursor"@ + "`"@),
        v.field("protocol"@) is None ==> (hello_params(v) matches Err(e) && e == "missing field `"@ + "protocol"@ + "`"@),
        v.field("stream_id"@) is Some && v.field("stream_id"@)->Some_0 is Text ==> (stream_param(v) matches Err(e) && e == "invalid value for field `"@ + "stream_id"@ + "`"@),
{
}

/// A stream id and a size are read as they stand, where they fit; cell sizes
/// are zero where they are left out.
pub proof fn sizes_are_read(v: JsonView, id: u64, cols: u64, rows: u64)
    requires
        v.field("stream_id"@) == Some(JsonView::Unsigned(id)),
        v.field("cols"@) == Some(JsonView::Unsigned(cols)),
        v.field("rows"@) == Some(JsonView::Unsigned(rows)),
        v.field("cell_width_px"@) is None,
        v.field("cell_height_px"@) is None,
    ensures
        id <= 0xffff_ffff && cols <= 0xffff && rows <= 0xffff ==> (resize_params(v) matches Ok(p)
            && p.stream_id == id && p.cols == cols && p.rows == rows && p.cell_width_px == 0
            && p.cell_height_px == 0),
        id > 0xffff_ffff || cols > 0xffff || rows > 0xffff ==> resize_params(v) is Err,
{
}

/// A scroll goes the way it says, by as many lines; it is the wheel's unless
/// it says otherwise, and has no place or modifiers unless it names them.
pub proof fn scrolls_are_read(v: JsonView, id: u32, lines: u16, column: u16, row: u16, held: u8)
    requires
        v.field("stream_id"@) == Some(JsonView::Unsigned(id as u64)),
        v.field("lines"@) == Some(JsonView::Unsigned(lines as u64)),
        v.field("source"@) is None || v.field("source"@) == Some(JsonView::Text("page_key"@)),
        v.field("column"@) is None || v.field("column"@) == Some(JsonView::Unsigned(column as u64)),
        v.field("row"@) is None || v.field("row"@) == Some(JsonView::Unsigned(row as u64)),
        v.field("modifiers"@) is None || v.field("modifiers"@) == Some(
            JsonView::Unsigned(held as u64),
        ),
        v.field("direction"@) == Some(JsonView::Text("up"@)) || v.field("direction"@) == Some(
            JsonView::Text("down"@),
        ),
    ensures
        scroll_params(v) matches Ok(p) && {
            &&& p.stream_id == id
            &&& p.lines == lines
            &&& v.field("direction"@) == Some(JsonView::Text("up"@)) ==> p.direction
                == StreamScrollDirection::Up
            &&& v.field("direction"@) == Some(JsonView::Text("down"@)) ==> p.direction
                == StreamScrollDirection::Down
            &&& p.source == if v.field("source"@) is None {
                StreamScrollSource::Wheel
            } else {
                StreamScrollSource::PageKey
            }
            &&& p.column == if v.field("column"@) is None {
                None
            } else {
                Some(column)
            }
            &&& p.row == if v.field("row"@) is None {
                None
            } else {
                Some(row)
            }
            &&& p.modifiers == if v.field("modifiers"@) is None {
                0
            } else {
                held
            }
        },
{
    reveal_strlit("up");
    reveal_strlit("down");
    reveal_strlit("wheel");
    reveal_strlit("page_key");
    assert("up"@.len() == 2);
    assert("down"@.len() == 4);
    assert("wheel"@.len() == 5);
    assert("page_key"@.len() == 8);
}

/// A hello speaks one protocol unless it names an older one too, and asks for
/// nothing unless it says what.
pub proof fn hellos_are_read(v: JsonView, protocol: u32, oldest: u32)
    requires
        v.field("protocol"@) == Some(JsonView::Unsigned(protocol as u64)),
        v.field("capabilities"@) is None,
    ensures
        v.field("min_protocol"@) is None ==> (hello_params(v) matches Ok(p) && p.protocol == protocol
            && p.oldest() == protocol && p.capabilities.len() == 0),
        v.field("min_protocol"@) == Some(JsonView::Unsigned(oldest as u64)) ==> (hello_params(
            v,
        ) matches Ok(p) && p.protocol == protocol && p.oldest() == oldest && p.capabilities.len()
            == 0),
{
}

/// Bytes, images and history are asked for under their names.
pub proof fn carried_members_are_read(
    v: JsonView,
    pane: Seq<char>,
    data: Seq<char>,
    extension: Seq<char>,
    cursor: Seq<char>,
    max: u64,
)
    ensures
        v.field("pane_id"@) == Some(JsonView::Text(pane)) && v.field("data_base64"@) == Some(
            JsonView::Text(data),
        ) ==> send_bytes_params(v) == Ok::<_, Seq<char>>((pane, data)),
        v.field("pane_id"@) == Some(JsonView::Text(pane)) && v.field("data_base64"@) == Some(
            JsonView::Text(data),
        ) && v.field("extension"@) == Some(JsonView::Text(extension)) ==> paste_image_params(v)
            == Ok::<_, Seq<char>>((pane, extension, data)),
        v.field("cursor"@) == Some(JsonView::Text(cursor)) && v.field("max_bytes"@) == Some(
            JsonView::Unsigned(max),
        ) ==> history_params(v) == Ok::<_, Seq<char>>((cursor, Some(max))),
        v.field("cursor"@) == Some(JsonView::Text(cursor)) && v.field("max_bytes"@) is None
            ==> history_params(v) == Ok::<_, Seq<char>>((cursor, None::<u64>)),
{
}

/// An answer that carries an error says its code and message, and which side
/// to upgrade where it names one.
pub proof fn errors_are_read(
    v: JsonView,
    e: JsonView,
    code: Seq<char>,
    message: Seq<char>,
    d: JsonView,
)
    requires
        v.field("error"@) == Some(e),
        e.field("code"@) == Some(JsonView::Text(code)),
        e.field("message"@) == Some(JsonView::Text(message)),
    ensures
        error_of(v) matches Some(r) && r.code == code && r.message == message && (e.field(
            "data"@,
        ) is None ==> r.remedy is None) && (e.field("data"@) == Some(d) && d.field("remedy"@) == Some(
            JsonView::Text("upgrade_client"@),
        ) ==> r.remedy == Some(HelloRemedy::UpgradeClient)) && (e.field("data"@) == Some(d)
            && d.field("remedy"@) == Some(JsonView::Text("upgrade_server"@)) ==> r.remedy == Some(
            HelloRemedy::UpgradeServer,
        )),
{
    reveal_strlit("upgrade_client");
    reveal_strlit("upgrade_server");
    assert("upgrade_client"@.len() == 14);
    assert("upgrade_server"@.len() == 14);
    assert("upgrade_client"@[8] != "upgrade_server"@[8]);
}

/// A welcome is read member by member; one without the catalog is not enough.
pub proof fn welcomes_are_read(
    v: JsonView,
    r: JsonView,
    protocol: u32,
    oldest: u32,
    version: Seq<char>,
    w: WelcomeModel,
)
    requires
        v.field("result"@) == Some(r),
        r.field("type"@) == Some(JsonView::Text("session.welcome"@)),
        r.field("protocol"@) == Some(JsonView::Unsigned(protocol as u64)),
        r.field("min_protocol"@) == Some(JsonView::Unsigned(oldest as u64)),
        r.field("server_version"@) == Some(JsonView::Text(version)),
        r.field("capabilities"@) matches Some(JsonView::Array(items)) && items.len() == 0,
    ensures
        welcome_of(v) matches Some(m) && m.protocol == protocol && m.min_protocol == oldest
            && m.server_version == version && m.capabilities.len() == 0,
        w.capabilities.contains("catalog"@) ==> session_refusal(w) is None,
        !w.capabilities.contains("catalog"@) ==> session_refusal(w) == Some(
            "server "@ + w.server_version + " does not offer the catalog capability"@,
        ),
{
}

/// An opened stream is read member by member; a size that is not there is
/// zero, a cursor that is not there empty.
pub proof fn opened_streams_are_read(
    v: JsonView,
    r: JsonView,
    s: JsonView,
    pane: Seq<char>,
    id: u32,
    sequence: u64,
    snapshot: Seq<char>,
    cursor: Seq<char>,
    cols: u16,
    rows: u16,
)
    requires
        v.field("result"@) == Some(r),
        r.field("stream"@) == Some(s),
        s.field("pane_id"@) == Some(JsonView::Text(pane)),
        s.field("stream_id"@) == Some(JsonView::Unsigned(id as u64)),
        s.field("sequence"@) == Some(JsonView::Unsigned(sequence)),
        s.field("snapshot"@) == Some(JsonView::Text(snapshot)),
    ensures
        opened_of(v) matches Some(o) && {
            &&& o.pane_id == pane && o.stream_id == id && o.sequence == sequence && o.snapshot
                == snapshot
            &&& s.field("history_cursor"@) == Some(JsonView::Text(cursor)) ==> o.history_cursor
                == cursor
            &&& s.field("history_cursor"@) is None ==> o.history_cursor.len() == 0
            &&& s.field("cols"@) == Some(JsonView::Unsigned(cols as u64)) ==> o.cols == cols
            &&& s.field("rows"@) == Some(JsonView::Unsigned(rows as u64)) ==> o.rows == rows
            &&& s.field("cols"@) is None ==> o.cols == 0
            &&& s.field("rows"@) is None ==> o.rows == 0
        },
{
}

/// A snapshot is read with the sequence beside it, a page of history with its
/// stream, text, next cursor and flags.
pub proof fn snapshots_and_pages_are_read(
    v: JsonView,
    r: JsonView,
    snapshot: JsonView,
    sequence: u64,
    id: u32,
    content: Seq<char>,
    next: Seq<char>,
)
    requires
        v.field("result"@) == Some(r),
    ensures
        r.field("snapshot"@) == Some(snapshot) && r.field("sequence"@) == Some(
            JsonView::Unsigned(sequence),
        ) ==> snapshot_of(v) == Some((snapshot, sequence)),
        r.field("type"@) == Some(JsonView::Text("stream_history"@)) && r.field("stream_id"@) == Some(
            JsonView::Unsigned(id as u64),
        ) && r.field("content"@) == Some(JsonView::Text(content)) ==> (page_in(v) matches Some(p) && {
            &&& p.stream_id == id && p.content == content
            &&& r.field("next_cursor"@) == Some(JsonView::Text(next)) ==> p.next_cursor == Some(
                next,
            )
            &&& r.field("next_cursor"@) == Some(JsonView::Null) ==> p.next_cursor is None
            &&& r.field("at_top"@) == Some(JsonView::Bool(true)) ==> p.at_top
            &&& r.field("at_top"@) == Some(JsonView::Bool(false)) ==> !p.at_top
            &&& r.field("end_cut_mid_line"@) == Some(JsonView::Bool(true)) ==> p.end_cut_mid_line
            &&& r.field("end_cut_mid_line"@) == Some(JsonView::Bool(false)) ==> !p.end_cut_mid_line
        }),
{
}

} // verus!
