//! Headless terminal sessions: JSON commands in, JSON records out.
use crate::api::server::requests::{
    defaulted_param, direction_param, narrow, narrowed, number_param, optional_param,
    read_defaulted, read_direction, read_number, read_optional, read_source, read_text,
    source_param, text_param,
};
use crate::json::{
    decode_json, json_parsed, members_view, no_members, object2, with_member, Json, JsonView,
};
use crate::protocol::framed::{
    base64_encode, base64_text, close_view, pane_send_bytes_request, resize_view, scroll_view,
    send_bytes_view, stream_close_request, stream_resize_request, stream_scroll_request, Frame,
    FrameType, StreamOpened, StreamScrollParams, STREAM_CLOSED_EVENT, STREAM_REVOKED_EVENT,
};
use crate::text::{decimal, decimal_text, same, trim, trimmed};
use vstd::prelude::*;
use vstd::string::*;
use vstd::utf8::encode_utf8;

verus! {

/// The request that a command comes to; none means that the stream is
/// released.
pub open spec fn command_request(
    id: Seq<char>,
    pane_id: Seq<char>,
    stream_id: u32,
    v: JsonView,
) -> Result<Option<JsonView>, Seq<char>> {
    match text_param(v, "type"@) {
        Err(e) => Err(e),
        Ok(kind) => if kind == "terminal.input"@ {
            match text_param(v, "text"@) {
                Err(e) => Err(e),
                Ok(text) => Ok(Some(send_bytes_view(id, pane_id, encode_utf8(text)))),
            }
        } else if kind == "terminal.resize"@ {
            resize_request(id, stream_id, v)
        } else if kind == "terminal.scroll"@ {
            scroll_request(id, stream_id, v)
        } else if kind == "terminal.release"@ {
            Ok(None)
        } else {
            Err("unknown terminal session command "@ + kind)
        },
    }
}

/// A resize has to leave the pane at least one cell.
pub open spec fn resize_request(id: Seq<char>, stream_id: u32, v: JsonView) -> Result<
    Option<JsonView>,
    Seq<char>,
> {
    match (
        number_param(v, "cols"@, u16::MAX as u64),
        number_param(v, "rows"@, u16::MAX as u64),
        defaulted_param(v, "cell_width_px"@, u32::MAX as u64),
        defaulted_param(v, "cell_height_px"@, u32::MAX as u64),
    ) {
        (Err(e), _, _, _) => Err(e),
        (_, Err(e), _, _) => Err(e),
        (_, _, Err(e), _) => Err(e),
        (_, _, _, Err(e)) => Err(e),
        (Ok(cols), Ok(rows), Ok(width), Ok(height)) => if cols == 0 || rows == 0 {
            Err("cols and rows must be greater than zero"@)
        } else {
            Ok(
                Some(
                    resize_view(
                        id,
                        stream_id,
                        cols as u16,
                        rows as u16,
                        width as u32,
                        height as u32,
                    ),
                ),
            )
        },
    }
}

pub open spec fn scroll_request(id: Seq<char>, stream_id: u32, v: JsonView) -> Result<
    Option<JsonView>,
    Seq<char>,
> {
    match (
        direction_param(v),
        number_param(v, "lines"@, u16::MAX as u64),
        source_param(v),
        optional_param(v, "column"@, u16::MAX as u64),
        optional_param(v, "row"@, u16::MAX as u64),
        defaulted_param(v, "modifiers"@, u8::MAX as u64),
    ) {
        (Err(e), _, _, _, _, _) => Err(e),
        (_, Err(e), _, _, _, _) => Err(e),
        (_, _, Err(e), _, _, _) => Err(e),
        (_, _, _, Err(e), _, _) => Err(e),
        (_, _, _, _, Err(e), _) => Err(e),
        (_, _, _, _, _, Err(e)) => Err(e),
        (Ok(direction), Ok(lines), Ok(source), Ok(column), Ok(row), Ok(modifiers)) => Ok(
            Some(
                scroll_view(
                    id,
                    StreamScrollParams {
                        stream_id,
                        direction,
                        lines: lines as u16,
                        source,
                        column: narrowed(column),
                        row: narrowed(row),
                        modifiers: modifiers as u8,
                    },
                ),
            ),
        ),
    }
}

/// Whether a result is the one that is owed.
pub open spec fn owed(
    r: Result<Option<Json>, String>,
    expected: Result<Option<JsonView>, Seq<char>>,
) -> bool {
    match r {
        Ok(Some(j)) => expected == Ok::<Option<JsonView>, Seq<char>>(Some(j@)),
        Ok(None) => expected == Ok::<Option<JsonView>, Seq<char>>(None),
        Err(e) => expected == Err::<Option<JsonView>, Seq<char>>(e@),
    }
}

fn resize_command(id: &str, stream_id: u32, v: &Json) -> (r: Result<Option<Json>, String>)
    ensures
        owed(r, resize_request(id@, stream_id, v@)),
{
    let cols: u64 = match read_number(v, "cols", u16::MAX as u64) {
        Ok(n) => n,
        Err(e) => return Err(e),
    };
    let rows: u64 = match read_number(v, "rows", u16::MAX as u64) {
        Ok(n) => n,
        Err(e) => return Err(e),
    };
    let width: u64 = match read_defaulted(v, "cell_width_px", u32::MAX as u64) {
        Ok(n) => n,
        Err(e) => return Err(e),
    };
    let height: u64 = match read_defaulted(v, "cell_height_px", u32::MAX as u64) {
        Ok(n) => n,
        Err(e) => return Err(e),
    };
    if cols == 0 || rows == 0 {
        return Err("cols and rows must be greater than zero".to_owned());
    }
    Ok(
        Some(
            stream_resize_request(
                id,
                stream_id,
                cols as u16,
                rows as u16,
                width as u32,
                height as u32,
            ),
        ),
    )
}

fn scroll_command(id: &str, stream_id: u32, v: &Json) -> (r: Result<Option<Json>, String>)
    ensures
        owed(r, scroll_request(id@, stream_id, v@)),
{
    let direction = match read_direction(v) {
        Ok(d) => d,
        Err(e) => return Err(e),
    };
    let lines: u64 = match read_number(v, "lines", u16::MAX as u64) {
        Ok(n) => n,
        Err(e) => return Err(e),
    };
    let source = match read_source(v) {
        Ok(s) => s,
        Err(e) => return Err(e),
    };
    let column: Option<u64> = match read_optional(v, "column", u16::MAX as u64) {
        Ok(n) => n,
        Err(e) => return Err(e),
    };
    let row: Option<u64> = match read_optional(v, "row", u16::MAX as u64) {
        Ok(n) => n,
        Err(e) => return Err(e),
    };
    let modifiers: u64 = match read_defaulted(v, "modifiers", u8::MAX as u64) {
        Ok(n) => n,
        Err(e) => return Err(e),
    };
    let params = StreamScrollParams {
        stream_id,
        direction,
        lines: lines as u16,
        source,
        column: narrow(column),
        row: narrow(row),
        modifiers: modifiers as u8,
    };
    Ok(Some(stream_scroll_request(id, params)))
}

/// Turns a command into a request.
pub fn session_command_request(id: &str, pane_id: &str, stream_id: u32, v: &Json) -> (r: Result<
    Option<Json>,
    String,
>)
    ensures
        owed(r, command_request(id@, pane_id@, stream_id, v@)),
{
    let kind = match read_text(v, "type") {
        Ok(t) => t,
        Err(e) => return Err(e),
    };
    if same(kind.as_str(), "terminal.input") {
        return match read_text(v, "text") {
            Ok(text) => Ok(
                Some(pane_send_bytes_request(id, pane_id, text.as_str().as_bytes())),
            ),
            Err(e) => Err(e),
        };
    }
    if same(kind.as_str(), "terminal.resize") {
        return resize_command(id, stream_id, v);
    }
    if same(kind.as_str(), "terminal.scroll") {
        return scroll_command(id, stream_id, v);
    }
    if same(kind.as_str(), "terminal.release") {
        return Ok(None);
    }
    Err("unknown terminal session command ".to_owned().concat(kind.as_str()))
}

/// The request that a line comes to.
pub open spec fn line_request(
    id: Seq<char>,
    pane_id: Seq<char>,
    stream_id: u32,
    raw: Seq<char>,
) -> Result<Option<JsonView>, Seq<char>> {
    match json_parsed(encode_utf8(raw)) {
        Some(v) => command_request(id, pane_id, stream_id, v),
        None => Err("terminal session command is not JSON"@),
    }
}

/// Turns a line into a request; none means that the stream is released.
pub fn framed_session_control_request(id: &str, pane_id: &str, stream_id: u32, raw: &str) -> (r:
    Result<Option<Json>, String>)
    ensures
        owed(r, line_request(id@, pane_id@, stream_id, raw@)),
{
    match decode_json(raw.as_bytes()) {
        Some(v) => session_command_request(id, pane_id, stream_id, &v),
        None => Err("terminal session command is not JSON".to_owned()),
    }
}

/// What a line of input comes to.
#[derive(Debug)]
pub enum CommandStep {
    /// A blank line.
    Skip,
    Send(Json),
    /// Send the request, then stop reading.
    Release(Json),
    /// The line is no command.
    Ignored(String),
}

pub enum CommandStepModel {
    Skip,
    Send(JsonView),
    Release(JsonView),
    Ignored(Seq<char>),
}

impl View for CommandStep {
    type V = CommandStepModel;

    open spec fn view(&self) -> CommandStepModel {
        match *self {
            CommandStep::Skip => CommandStepModel::Skip,
            CommandStep::Send(j) => CommandStepModel::Send(j@),
            CommandStep::Release(j) => CommandStepModel::Release(j@),
            CommandStep::Ignored(e) => CommandStepModel::Ignored(e@),
        }
    }
}

/// The id of a session's request.
pub open spec fn session_id_text(n: u64) -> Seq<char> {
    "session:"@ + decimal(n as nat)
}

fn session_id(n: u64) -> (r: String)
    ensures
        r@ == session_id_text(n),
{
    "session:".to_owned().concat(decimal_text(n).as_str())
}

/// What a line of input comes to: blank lines are skipped and take no id.
pub open spec fn command_step(n: u64, pane_id: Seq<char>, stream_id: u32, line: Seq<char>) -> (
    u64,
    CommandStepModel,
) {
    if trimmed(line).len() == 0 {
        (n, CommandStepModel::Skip)
    } else {
        let next = (n + 1) as u64;
        let id = session_id_text(next);
        (
            next,
            match line_request(id, pane_id, stream_id, line) {
                Ok(Some(j)) => CommandStepModel::Send(j),
                Ok(None) => CommandStepModel::Release(close_view(id, stream_id)),
                Err(e) => CommandStepModel::Ignored(e),
            },
        )
    }
}

/// The commands of a session, counted.
#[derive(Debug)]
pub struct SessionCommands {
    pub request_id: u64,
}

impl SessionCommands {
    pub fn new() -> (r: Self)
        ensures
            r.request_id == 0,
    {
        SessionCommands { request_id: 0 }
    }

    /// Takes a line of input.
    pub fn take_line(&mut self, pane_id: &str, stream_id: u32, line: &str) -> (r: CommandStep)
        requires
            old(self).request_id < u64::MAX,
        ensures
            final(self).request_id == command_step(
                old(self).request_id,
                pane_id@,
                stream_id,
                line@,
            ).0,
            r@ == command_step(old(self).request_id, pane_id@, stream_id, line@).1,
    {
        let bare = trim(line);
        if bare.as_str().is_empty() {
            return CommandStep::Skip;
        }
        self.request_id = self.request_id + 1;
        let id = session_id(self.request_id);
        match framed_session_control_request(id.as_str(), pane_id, stream_id, line) {
            Ok(Some(request)) => CommandStep::Send(request),
            Ok(None) => CommandStep::Release(stream_close_request(id.as_str(), stream_id)),
            Err(e) => CommandStep::Ignored(e),
        }
    }

    /// The request that ends the input: the stream is closed.
    pub fn end_of_input(&self, stream_id: u32) -> (r: Json)
        requires
            self.request_id < u64::MAX,
        ensures
            r@ == close_view(session_id_text((self.request_id + 1) as u64), stream_id),
    {
        stream_close_request(session_id(self.request_id + 1).as_str(), stream_id)
    }
}

/// A record of pane output.
pub open spec fn frame_record_view(
    sequence: u64,
    full: bool,
    pane_id: Option<Seq<char>>,
    bytes: Seq<u8>,
) -> JsonView {
    JsonView::Object(
        seq![
            ("type"@, JsonView::Text("terminal.frame"@)),
            ("seq"@, JsonView::Unsigned(sequence)),
            ("encoding"@, JsonView::Text("ansi"@)),
            ("full"@, JsonView::Bool(full)),
        ] + (match pane_id {
            Some(p) => seq![("pane_id"@, JsonView::Text(p))],
            None => Seq::empty(),
        }) + seq![("bytes"@, JsonView::Text(base64_text(bytes)))],
    )
}

fn frame_record(sequence: u64, full: bool, pane_id: Option<&str>, bytes: &[u8]) -> (r: Json)
    ensures
        r@ == frame_record_view(
            sequence,
            full,
            match pane_id {
                Some(p) => Some(p@),
                None => None,
            },
            bytes@,
        ),
{
    let m = with_member(no_members(), "type", Json::from_text("terminal.frame"));
    let m = with_member(m, "seq", Json::Unsigned(sequence));
    let m = with_member(m, "encoding", Json::from_text("ansi"));
    let m = with_member(m, "full", Json::Bool(full));
    let m = match pane_id {
        Some(p) => with_member(m, "pane_id", Json::from_text(p)),
        None => m,
    };
    let m = with_member(m, "bytes", Json::Text(base64_encode(bytes)));
    proof {
        let named = match pane_id {
            Some(p) => Some(p@),
            None => None,
        };
        let expected = frame_record_view(sequence, full, named, bytes@)->Object_0;
        assert(members_view(m@) =~= expected);
    }
    Json::object(m)
}

/// The record that a session opens with: the pane's whole screen.
pub fn snapshot_record(opened: &StreamOpened) -> (r: Json)
    ensures
        r@ == frame_record_view(
            opened.sequence,
            true,
            Some(opened.pane_id@),
            encode_utf8(opened.snapshot@),
        ),
{
    frame_record(
        opened.sequence,
        true,
        Some(opened.pane_id.as_str()),
        opened.snapshot.as_str().as_bytes(),
    )
}

/// The record that a session ends with.
pub open spec fn closed_record_view(reason: Seq<char>) -> JsonView {
    JsonView::Object(
        seq![
            ("type"@, JsonView::Text("terminal.closed"@)),
            ("reason"@, JsonView::Text(reason)),
        ],
    )
}

/// Builds the record that a session ends with.
pub fn closed_record(reason: &str) -> (r: Json)
    ensures
        r@ == closed_record_view(reason@),
{
    object2("type", Json::from_text("terminal.closed"), "reason", Json::from_text(reason))
}

/// The record of a connection that ended.
pub fn connection_closed_record() -> (r: Json)
    ensures
        r@ == closed_record_view("server connection closed"@),
{
    closed_record("server connection closed")
}

/// Whether a value is the answer to the close of a stream.
pub open spec fn closes_stream(v: JsonView, stream_id: u32) -> bool {
    v.field("result"@) matches Some(r) && r.text_field("type"@) == Some("stream_closed"@)
        && r.unsigned_field("stream_id"@) == Some(stream_id as u64)
}

/// Whether a value is the answer to the close of our stream.
pub fn closed_our_stream(v: &Json, stream_id: u32) -> (r: bool)
    ensures
        r == closes_stream(v@, stream_id),
{
    match v.get("result") {
        None => false,
        Some(result) => {
            let closed: bool = match result.text_of("type") {
                Some(t) => same(t, "stream_closed"),
                None => false,
            };
            let ours: bool = match result.unsigned_of("stream_id") {
                Some(n) => n == stream_id as u64,
                None => false,
            };
            closed && ours
        },
    }
}

/// Why a control value ends a session, if it does.
pub open spec fn ending(v: JsonView, stream_id: u32) -> Option<Seq<char>> {
    match v.text_field("event"@) {
        Some(event) => if event == STREAM_CLOSED_EVENT@ {
            Some("pane closed"@)
        } else if event == STREAM_REVOKED_EVENT@ {
            Some("taken over"@)
        } else {
            None
        },
        None => if closes_stream(v, stream_id) {
            Some("released"@)
        } else {
            None
        },
    }
}

/// Why a control value ends a session, if it does.
pub fn session_ending(v: &Json, stream_id: u32) -> (r: Option<&'static str>)
    ensures
        match r {
            Some(t) => ending(v@, stream_id) == Some(t@),
            None => ending(v@, stream_id) is None,
        },
{
    match v.text_of("event") {
        Some(event) => {
            if same(event, STREAM_CLOSED_EVENT) {
                Some("pane closed")
            } else if same(event, STREAM_REVOKED_EVENT) {
                Some("taken over")
            } else {
                None
            }
        },
        None => {
            if closed_our_stream(v, stream_id) {
                Some("released")
            } else {
                None
            }
        },
    }
}

/// What a frame comes to.
#[derive(Debug)]
pub enum RecordStep {
    Write(Json),
    /// Write the record, then stop.
    Finish(Json),
    Nothing,
}

pub enum RecordStepModel {
    Write(JsonView),
    Finish(JsonView),
    Nothing,
}

impl View for RecordStep {
    type V = RecordStepModel;

    open spec fn view(&self) -> RecordStepModel {
        match *self {
            RecordStep::Write(j) => RecordStepModel::Write(j@),
            RecordStep::Finish(j) => RecordStepModel::Finish(j@),
            RecordStep::Nothing => RecordStepModel::Nothing,
        }
    }
}

/// A byte count further on.
pub open spec fn advanced(sequence: u64, n: nat) -> u64 {
    if sequence + n > u64::MAX {
        u64::MAX
    } else {
        (sequence + n) as u64
    }
}

/// What a frame comes to: output of our stream is a record under the byte
/// count it ends at.
pub open spec fn record_step(stream_id: u32, sequence: u64, f: Frame) -> (u64, RecordStepModel) {
    match f.frame_type {
        FrameType::Data => if f.stream_id == stream_id {
            let n = advanced(sequence, f.payload@.len());
            (n, RecordStepModel::Write(frame_record_view(n, false, None, f.payload@)))
        } else {
            (sequence, RecordStepModel::Nothing)
        },
        FrameType::Control => (
            sequence,
            match json_parsed(f.payload@) {
                Some(v) => match ending(v, stream_id) {
                    Some(reason) => RecordStepModel::Finish(closed_record_view(reason)),
                    None => RecordStepModel::Nothing,
                },
                None => RecordStepModel::Nothing,
            },
        ),
    }
}

/// The records of a session. The count starts at the snapshot's.
#[derive(Debug)]
pub struct SessionRecords {
    pub stream_id: u32,
    pub sequence: u64,
}

impl SessionRecords {
    /// Takes a frame.
    pub fn take_frame(&mut self, frame: &Frame) -> (r: RecordStep)
        ensures
            final(self).stream_id == old(self).stream_id,
            final(self).sequence == record_step(
                old(self).stream_id,
                old(self).sequence,
                *frame,
            ).0,
            r@ == record_step(old(self).stream_id, old(self).sequence, *frame).1,
    {
        match frame.frame_type {
            FrameType::Data => {
                if frame.stream_id != self.stream_id {
                    return RecordStep::Nothing;
                }
                self.sequence = self.sequence.saturating_add(frame.payload.len() as u64);
                RecordStep::Write(
                    frame_record(self.sequence, false, None, frame.payload.as_slice()),
                )
            },
            FrameType::Control => match decode_json(frame.payload.as_slice()) {
                Some(v) => match session_ending(&v, self.stream_id) {
                    Some(reason) => RecordStep::Finish(closed_record(reason)),
                    None => RecordStep::Nothing,
                },
                None => RecordStep::Nothing,
            },
        }
    }
}

/// The count of records never goes back, and grows by what came until it is
/// full.
pub proof fn record_counts_never_go_back(stream_id: u32, sequence: u64, f: Frame)
    ensures
        record_step(stream_id, sequence, f).0 >= sequence,
        f.frame_type == FrameType::Data && f.stream_id == stream_id && sequence + f.payload@.len()
            <= u64::MAX ==> record_step(stream_id, sequence, f).0 == sequence + f.payload@.len(),
{
}

} // verus!
