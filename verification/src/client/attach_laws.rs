//! What an attach and a terminal session send, print and record.
use crate::client::framed_attach::{
    attachable, AttachEvent, AttachExit, AttachInputAction, AttachModel, AttachStepModel,
    CLEAR_SCREEN_SEQUENCE,
};
use crate::client::host_terminal::{
    restore_steps, setup_steps, TerminalStep, CURSOR_RESTORE_SEQUENCE,
    HOST_COLOR_SCHEME_REPORT_DISABLE_SEQUENCE, HOST_COLOR_SCHEME_REPORT_ENABLE_SEQUENCE,
    HOST_TERMINAL_THEME_QUERY, MODIFY_OTHER_KEYS_RESET_SEQUENCE, WIN32_INPUT_DISABLE_SEQUENCE,
    WIN32_INPUT_ENABLE_SEQUENCE,
};
use crate::client::terminal_session::{
    advanced, closed_record_view, command_request, command_step, ending, frame_record_view,
    record_step, resize_request, scroll_request, session_id_text, CommandStepModel, RecordStepModel,
};
use crate::json::{json_parsed, JsonView};
use crate::protocol::framed::{
    base64_text, welcome_of, Frame, FrameType, StreamScrollDirection, StreamScrollParams, StreamScrollSource,
};
use crate::protocol::wire_shapes::{
    closes_name_their_stream, named_from, named_is_found, pane_bytes_name_their_pane, param,
    resizes_name_stream_and_size, scrolls_name_all_of_the_scroll,
};
use crate::text::{decimal, trimmed};
use vstd::prelude::*;
use vstd::utf8::encode_utf8;

verus! {

/// Input is forwarded to the attach's pane, byte for byte, under the next
/// number.
pub proof fn input_is_forwarded(a: AttachModel, bytes: Vec<u8>)
    requires
        a.next_request_id < u64::MAX,
    ensures
        ({
            let (r, step) = a.stepped(AttachEvent::Input(AttachInputAction::Forward(bytes)));
            &&& r.next_request_id == a.next_request_id + 1
            &&& r.pane_id == a.pane_id && r.stream_id == a.stream_id && r.viewport_rows
                == a.viewport_rows
            &&& step matches AttachStepModel::Send(v) && {
                &&& v.field("id"@) == Some(
                    JsonView::Text(
                        "attach:"@ + "input"@ + ":"@ + decimal(a.next_request_id as nat),
                    ),
                )
                &&& v.field("method"@) == Some(JsonView::Text("pane.send_bytes"@))
                &&& param(v, "pane_id"@) == Some(JsonView::Text(a.pane_id))
                &&& param(v, "data_base64"@) == Some(JsonView::Text(base64_text(bytes@)))
            }
        }),
{
    let id = "attach:"@ + "input"@ + ":"@ + decimal(a.next_request_id as nat);
    pane_bytes_name_their_pane(id, a.pane_id, bytes@);
}

/// A scroll is sent as it was made: up is up and down is down, on the
/// attach's own stream.
pub proof fn scrolls_are_sent(
    a: AttachModel,
    source: StreamScrollSource,
    direction: StreamScrollDirection,
    lines: u16,
    column: Option<u16>,
    row: Option<u16>,
    modifiers: u8,
)
    requires
        a.next_request_id < u64::MAX,
    ensures
        ({
            let input = AttachInputAction::Scroll {
                source,
                direction,
                lines,
                column,
                row,
                modifiers,
            };
            let (r, step) = a.stepped(AttachEvent::Input(input));
            &&& r == (AttachModel { next_request_id: (a.next_request_id + 1) as u64, ..a })
            &&& step matches AttachStepModel::Send(v) && {
                &&& v.field("method"@) == Some(JsonView::Text("stream.scroll"@))
                &&& param(v, "stream_id"@) == Some(JsonView::Unsigned(a.stream_id as u64))
                &&& direction is Up ==> param(v, "direction"@) == Some(JsonView::Text("up"@))
                &&& direction is Down ==> param(v, "direction"@) == Some(JsonView::Text("down"@))
                &&& param(v, "lines"@) == Some(JsonView::Unsigned(lines as u64))
                &&& source is Wheel ==> param(v, "source"@) == Some(JsonView::Text("wheel"@))
                &&& source is PageKey ==> param(v, "source"@) == Some(JsonView::Text("page_key"@))
                &&& column matches Some(c) ==> param(v, "column"@) == Some(
                    JsonView::Unsigned(c as u64),
                )
                &&& row matches Some(n) ==> param(v, "row"@) == Some(JsonView::Unsigned(n as u64))
                &&& param(v, "modifiers"@) == Some(JsonView::Unsigned(modifiers as u64))
            }
        }),
{
    let id = "attach:"@ + "scroll"@ + ":"@ + decimal(a.next_request_id as nat);
    scrolls_name_all_of_the_scroll(
        id,
        StreamScrollParams {
            stream_id: a.stream_id,
            direction,
            lines,
            source,
            column,
            row,
            modifiers,
        },
    );
}

/// A resize is told with its columns and rows, and the rows are the
/// viewport's from then on. Detaching closes the stream and leaves.
pub proof fn resizes_and_detaches_are_sent(a: AttachModel, cols: u16, rows: u16)
    requires
        a.next_request_id < u64::MAX,
    ensures
        ({
            let (r, step) = a.stepped(AttachEvent::Resize(cols, rows));
            &&& r.viewport_rows == rows
            &&& r.next_request_id == a.next_request_id + 1 && r.stream_id == a.stream_id
            &&& step matches AttachStepModel::Send(v) && {
                &&& v.field("method"@) == Some(JsonView::Text("stream.resize"@))
                &&& param(v, "stream_id"@) == Some(JsonView::Unsigned(a.stream_id as u64))
                &&& param(v, "cols"@) == Some(JsonView::Unsigned(cols as u64))
                &&& param(v, "rows"@) == Some(JsonView::Unsigned(rows as u64))
            }
        }),
        ({
            let (r, step) = a.stepped(AttachEvent::Input(AttachInputAction::Detach));
            &&& r.next_request_id == a.next_request_id + 1
            &&& step matches AttachStepModel::Leave(v) && {
                &&& v.field("method"@) == Some(JsonView::Text("stream.close"@))
                &&& param(v, "stream_id"@) == Some(JsonView::Unsigned(a.stream_id as u64))
            }
        }),
        a.stepped(AttachEvent::Input(AttachInputAction::Nothing)) == (a, AttachStepModel::Nothing),
{
    let n = decimal(a.next_request_id as nat);
    resizes_name_stream_and_size(
        "attach:"@ + "resize"@ + ":"@ + n,
        a.stream_id,
        cols,
        rows,
        0,
        0,
    );
    closes_name_their_stream("attach:"@ + "close"@ + ":"@ + n, a.stream_id);
}

/// What arrives on the attach's stream is printed as it came; what arrives on
/// another is not. The end of the connection, of the pane and of the grant
/// each end the attach, for its own reason.
pub proof fn output_is_printed(a: AttachModel, frame: Frame, v: JsonView)
    ensures
        ({
            let (r, step) = a.stepped(AttachEvent::Frame(frame));
            let own = v.field("data"@) is None || (v.field("data"@) matches Some(d) && (d.field(
                "stream_id"@,
            ) is None || d.field("stream_id"@) == Some(JsonView::Unsigned(a.stream_id as u64))));
            &&& r == a
            &&& frame.frame_type == FrameType::Data ==> step == if frame.stream_id == a.stream_id {
                AttachStepModel::Print(frame.payload@)
            } else {
                AttachStepModel::Nothing
            }
            &&& frame.frame_type == FrameType::Control && json_parsed(frame.payload@) == Some(v)
                && own && v.field("event"@) == Some(JsonView::Text("stream.closed"@)) ==> step
                == AttachStepModel::Exit(AttachExit::PaneClosed)
            &&& frame.frame_type == FrameType::Control && json_parsed(frame.payload@) == Some(v)
                && own && v.field("event"@) == Some(JsonView::Text("stream.revoked"@)) ==> step
                == AttachStepModel::Exit(AttachExit::TakenOver)
            &&& frame.frame_type == FrameType::Control && json_parsed(frame.payload@) is None
                ==> step is Nothing
        }),
        a.stepped(AttachEvent::Disconnected) == (a, AttachStepModel::Exit(AttachExit::Disconnected)),
{
    reveal_strlit("stream.closed");
    reveal_strlit("stream.revoked");
    assert("stream.closed"@.len() == 13);
    assert("stream.revoked"@.len() == 14);
}

/// What is said at the end of an attach, and whether it counts as a failure.
pub proof fn exits_are_reported()
    ensures
        AttachExit::Detached.line() is None,
        AttachExit::PaneClosed.line() == Some("herdr: pane closed"@),
        AttachExit::TakenOver.line() == Some("herdr: terminal attach taken over"@),
        AttachExit::Disconnected.line() == Some(
            "herdr: server connection closed; reattach once the server is back"@,
        ),
        !AttachExit::Detached.fails(),
        !AttachExit::PaneClosed.fails(),
        AttachExit::TakenOver.fails(),
        AttachExit::Disconnected.fails(),
{
}

/// A command of a terminal session becomes the request it names: text goes to
/// the pane, a release closes, and what is not known is refused by name.
pub proof fn commands_become_requests(
    id: Seq<char>,
    pane: Seq<char>,
    stream_id: u32,
    v: JsonView,
    kind: Seq<char>,
    text: Seq<char>,
)
    requires
        v.field("type"@) == Some(JsonView::Text(kind)),
    ensures
        ({
            let r = command_request(id, pane, stream_id, v);
            &&& kind == "terminal.input"@ && v.field("text"@) == Some(JsonView::Text(text)) ==> (
            r matches Ok(Some(q)) && {
                &&& q.field("id"@) == Some(JsonView::Text(id))
                &&& q.field("method"@) == Some(JsonView::Text("pane.send_bytes"@))
                &&& param(q, "pane_id"@) == Some(JsonView::Text(pane))
                &&& param(q, "data_base64"@) == Some(
                    JsonView::Text(base64_text(encode_utf8(text))),
                )
            })
            &&& kind == "terminal.release"@ ==> (r matches Ok(None))
            &&& kind == "terminal.resize"@ ==> r == resize_request(id, stream_id, v)
            &&& kind == "terminal.scroll"@ ==> r == scroll_request(id, stream_id, v)
            &&& kind != "terminal.input"@ && kind != "terminal.resize"@ && kind
                != "terminal.scroll"@ && kind != "terminal.release"@ ==> (r matches Err(e) && e
                == "unknown terminal session command "@ + kind)
        }),
{
    reveal_strlit("terminal.input");
    reveal_strlit("terminal.resize");
    reveal_strlit("terminal.scroll");
    reveal_strlit("terminal.release");
    assert("terminal.input"@.len() == 14);
    assert("terminal.resize"@.len() == 15);
    assert("terminal.scroll"@.len() == 15);
    assert("terminal.release"@.len() == 16);
    assert("terminal.resize"@[9] != "terminal.scroll"@[9]);
    pane_bytes_name_their_pane(id, pane, encode_utf8(text));
}

/// A resize command names columns and rows, of which neither may be zero; a
/// scroll command goes the way it says.
pub proof fn commands_keep_their_numbers(
    id: Seq<char>,
    stream_id: u32,
    v: JsonView,
    cols: u16,
    rows: u16,
    lines: u16,
)
    ensures
        v.field("cols"@) == Some(JsonView::Unsigned(cols as u64)) && v.field("rows"@) == Some(
            JsonView::Unsigned(rows as u64),
        ) && v.field("cell_width_px"@) is None && v.field("cell_height_px"@) is None ==> {
            let r = resize_request(id, stream_id, v);
            if cols == 0 || rows == 0 {
                r matches Err(e) && e == "cols and rows must be greater than zero"@
            } else {
                r matches Ok(Some(q)) && {
                    &&& q.field("method"@) == Some(JsonView::Text("stream.resize"@))
                    &&& param(q, "stream_id"@) == Some(JsonView::Unsigned(stream_id as u64))
                    &&& param(q, "cols"@) == Some(JsonView::Unsigned(cols as u64))
                    &&& param(q, "rows"@) == Some(JsonView::Unsigned(rows as u64))
                }
            }
        },
        v.field("lines"@) == Some(JsonView::Unsigned(lines as u64)) && v.field("source"@) is None
            && v.field("column"@) is None && v.field("row"@) is None && v.field("modifiers"@) is None
            && (v.field("direction"@) == Some(JsonView::Text("up"@)) || v.field("direction"@)
            == Some(JsonView::Text("down"@))) ==> (scroll_request(
            id,
            stream_id,
            v,
        ) matches Ok(Some(q)) && {
            &&& q.field("method"@) == Some(JsonView::Text("stream.scroll"@))
            &&& param(q, "stream_id"@) == Some(JsonView::Unsigned(stream_id as u64))
            &&& param(q, "direction"@) == v.field("direction"@)
            &&& param(q, "lines"@) == Some(JsonView::Unsigned(lines as u64))
            &&& param(q, "source"@) == Some(JsonView::Text("wheel"@))
            &&& param(q, "modifiers"@) == Some(JsonView::Unsigned(0))
        }),
{
    reveal_strlit("up");
    reveal_strlit("down");
    assert("up"@.len() == 2);
    assert("down"@.len() == 4);
    resizes_name_stream_and_size(id, stream_id, cols, rows, 0, 0);
    let up = StreamScrollParams {
        stream_id,
        direction: StreamScrollDirection::Up,
        lines,
        source: StreamScrollSource::Wheel,
        column: None,
        row: None,
        modifiers: 0,
    };
    scrolls_name_all_of_the_scroll(id, up);
    scrolls_name_all_of_the_scroll(
        id,
        StreamScrollParams { direction: StreamScrollDirection::Down, ..up },
    );
}

/// A blank line is skipped and takes no number; every other one takes the
/// next, whether or not it can be read.
pub proof fn lines_are_numbered(n: u64, pane: Seq<char>, stream_id: u32, line: Seq<char>)
    requires
        n < u64::MAX,
    ensures
        ({
            let (m, step) = command_step(n, pane, stream_id, line);
            &&& trimmed(line).len() == 0 ==> m == n && step is Skip
            &&& trimmed(line).len() > 0 ==> m == n + 1 && !(step is Skip)
            &&& step matches CommandStepModel::Release(v) ==> v.field("method"@) == Some(
                JsonView::Text("stream.close"@),
            ) && param(v, "stream_id"@) == Some(JsonView::Unsigned(stream_id as u64))
            &&& trimmed(line).len() > 0 && json_parsed(encode_utf8(line)) is None ==> (
            step matches CommandStepModel::Ignored(e) && e
                == "terminal session command is not JSON"@)
        }),
        session_id_text(n) == "session:"@ + decimal(n as nat),
{
    closes_name_their_stream(session_id_text((n + 1) as u64), stream_id);
}

/// Output of the session's stream is recorded in base64 under the byte count
/// it ends at; the events that end the stream end the record, with the reason.
pub proof fn output_is_recorded(stream_id: u32, sequence: u64, frame: Frame, v: JsonView)
    requires
        sequence + frame.payload@.len() <= u64::MAX,
    ensures
        ({
            let (n, step) = record_step(stream_id, sequence, frame);
            &&& frame.frame_type == FrameType::Data && frame.stream_id == stream_id ==> {
                &&& n == sequence + frame.payload@.len()
                &&& step matches RecordStepModel::Write(r) && {
                    &&& r.field("type"@) == Some(JsonView::Text("terminal.frame"@))
                    &&& r.field("seq"@) == Some(JsonView::Unsigned(n))
                    &&& r.field("encoding"@) == Some(JsonView::Text("ansi"@))
                    &&& r.field("full"@) == Some(JsonView::Bool(false))
                    &&& r.field("bytes"@) == Some(JsonView::Text(base64_text(frame.payload@)))
                    &&& r.field("pane_id"@) is None
                }
            }
            &&& frame.frame_type == FrameType::Data && frame.stream_id != stream_id ==> n == sequence
                && step is Nothing
            &&& frame.frame_type == FrameType::Control ==> n == sequence
            &&& frame.frame_type == FrameType::Control && json_parsed(frame.payload@) == Some(v) ==> {
                &&& v.field("event"@) == Some(JsonView::Text("stream.closed"@)) ==> (
                step matches RecordStepModel::Finish(r) && r.field("type"@) == Some(
                    JsonView::Text("terminal.closed"@),
                ) && r.field("reason"@) == Some(JsonView::Text("pane closed"@)))
                &&& v.field("event"@) == Some(JsonView::Text("stream.revoked"@)) ==> (
                step matches RecordStepModel::Finish(r) && r.field("reason"@) == Some(
                    JsonView::Text("taken over"@),
                ))
            }
        }),
{
    reveal_strlit("stream.closed");
    reveal_strlit("stream.revoked");
    assert("stream.closed"@.len() == 13);
    assert("stream.revoked"@.len() == 14);
    records_hold_their_members(advanced(sequence, frame.payload@.len()), false, None, frame.payload@);
    endings_hold_their_reason("pane closed"@);
    endings_hold_their_reason("taken over"@);
}

/// A record of output holds its count, whether it is a whole screen, the pane
/// where it is named, and the bytes in base64.
pub proof fn records_hold_their_members(
    sequence: u64,
    full: bool,
    pane: Option<Seq<char>>,
    bytes: Seq<u8>,
)
    ensures
        ({
            let r = frame_record_view(sequence, full, pane, bytes);
            &&& r.field("type"@) == Some(JsonView::Text("terminal.frame"@))
            &&& r.field("seq"@) == Some(JsonView::Unsigned(sequence))
            &&& r.field("encoding"@) == Some(JsonView::Text("ansi"@))
            &&& r.field("full"@) == Some(JsonView::Bool(full))
            &&& r.field("bytes"@) == Some(JsonView::Text(base64_text(bytes)))
            &&& r.field("pane_id"@) == match pane {
                Some(p) => Some(JsonView::Text(p)),
                None => None,
            }
        }),
{
    let members = frame_record_view(sequence, full, pane, bytes)->Object_0;
    reveal_with_fuel(named_from, 8);
    reveal_strlit("type");
    reveal_strlit("seq");
    reveal_strlit("encoding");
    reveal_strlit("full");
    reveal_strlit("pane_id");
    reveal_strlit("bytes");
    assert("type"@.len() == 4);
    assert("seq"@.len() == 3);
    assert("encoding"@.len() == 8);
    assert("full"@.len() == 4);
    assert("pane_id"@.len() == 7);
    assert("bytes"@.len() == 5);
    assert("type"@[0] != "full"@[0]);
    named_is_found(members, 0, "type"@);
    named_is_found(members, 0, "seq"@);
    named_is_found(members, 0, "encoding"@);
    named_is_found(members, 0, "full"@);
    named_is_found(members, 0, "bytes"@);
    named_is_found(members, 0, "pane_id"@);
}

/// The last record of a session says why it ended.
pub proof fn endings_hold_their_reason(reason: Seq<char>)
    ensures
        closed_record_view(reason).field("type"@) == Some(JsonView::Text("terminal.closed"@)),
        closed_record_view(reason).field("reason"@) == Some(JsonView::Text(reason)),
{
    let members = closed_record_view(reason)->Object_0;
    reveal_with_fuel(named_from, 4);
    reveal_strlit("type");
    reveal_strlit("reason");
    assert("type"@.len() == 4);
    assert("reason"@.len() == 6);
    named_is_found(members, 0, "type"@);
    named_is_found(members, 0, "reason"@);
}

/// The answer to the session's own close ends it as released.
pub proof fn own_closes_release(v: JsonView, r: JsonView, stream_id: u32, other: u32)
    requires
        v.field("event"@) is None,
        v.field("result"@) == Some(r),
        r.field("type"@) == Some(JsonView::Text("stream_closed"@)),
        r.field("stream_id"@) == Some(JsonView::Unsigned(other as u64)),
    ensures
        ending(v, stream_id) == if other == stream_id {
            Some("released"@)
        } else {
            None
        },
{
}

/// A client takes the screen first and stops wrapping lines last; the mouse
/// is captured as asked. Only a full client gets the keyboard protocol,
/// paste, and, off Windows, colour reports.
pub proof fn setups_take_the_terminal(full: bool, mouse: bool, other_keys: bool, windows: bool)
    ensures
        ({
            let s = setup_steps(full, mouse, other_keys, windows);
            &&& s[0] == TerminalStep::Screen(true)
            &&& s[1] == TerminalStep::ClearMouseReporting
            &&& s.last() == TerminalStep::LineWrap(false)
            &&& s.contains(TerminalStep::MouseCapture(mouse))
            &&& full ==> s.contains(TerminalStep::KeyboardFlags(true))
            &&& full ==> s.contains(TerminalStep::PasteAndFocus(true))
            &&& full && !windows ==> s.contains(TerminalStep::ColorSchemeReports(true))
            &&& full && other_keys ==> s.contains(TerminalStep::ModifyOtherKeys(true))
            &&& !full && !windows ==> s.contains(TerminalStep::ColorSchemeReports(false))
            &&& !full ==> !s.contains(TerminalStep::KeyboardFlags(true))
            &&& !full ==> !s.contains(TerminalStep::PasteAndFocus(true))
            &&& !(full && other_keys) ==> !s.contains(TerminalStep::ModifyOtherKeys(true))
            &&& windows ==> !s.contains(TerminalStep::ColorSchemeReports(true))
        }),
{
    let s = setup_steps(full, mouse, other_keys, windows);
    if full {
        assert(s[3] == TerminalStep::MouseCapture(mouse));
        assert(s[4] == TerminalStep::PasteAndFocus(true));
        if windows {
            assert(s[5] == TerminalStep::KeyboardFlags(true));
            if other_keys {
                assert(s[6] == TerminalStep::ModifyOtherKeys(true));
            }
        } else {
            assert(s[5] == TerminalStep::ColorSchemeReports(true));
            assert(s[6] == TerminalStep::KeyboardFlags(true));
            if other_keys {
                assert(s[7] == TerminalStep::ModifyOtherKeys(true));
            }
        }
    } else if windows {
        assert(s[3] == TerminalStep::MouseCapture(mouse));
    } else {
        assert(s[2] == TerminalStep::ColorSchemeReports(false));
        assert(s[4] == TerminalStep::MouseCapture(mouse));
    }
}

/// Handing the terminal back turns everything off that was turned on, and
/// ends with a visible cursor.
pub proof fn restores_hand_the_terminal_back(other_keys: bool, reports: bool)
    ensures
        ({
            let s = restore_steps(other_keys, reports);
            &&& s[0] == TerminalStep::ClearGraphics
            &&& s.last() == TerminalStep::Cursor
            &&& s.contains(TerminalStep::KeyboardFlags(false))
            &&& s.contains(TerminalStep::LineWrap(true))
            &&& s.contains(TerminalStep::PasteAndFocus(false))
            &&& s.contains(TerminalStep::MouseCapture(false))
            &&& s.contains(TerminalStep::Screen(false))
            &&& other_keys ==> s.contains(TerminalStep::ModifyOtherKeys(false))
            &&& reports ==> s.contains(TerminalStep::ColorSchemeReports(false))
        }),
{
    let s = restore_steps(other_keys, reports);
    let k = if other_keys {
        2int
    } else {
        1int
    };
    if other_keys {
        assert(s[1] == TerminalStep::ModifyOtherKeys(false));
    }
    assert(s[k] == TerminalStep::KeyboardFlags(false));
    assert(s[k + 1] == TerminalStep::LineWrap(true));
    assert(s[k + 2] == TerminalStep::PasteAndFocus(false));
    assert(s[k + 3] == TerminalStep::MouseCapture(false));
    assert(s[k + 5] == TerminalStep::Screen(false));
    if reports {
        assert(s[k + 6] == TerminalStep::ColorSchemeReports(false));
    }
}

/// The sequences that switch the host terminal's modes.
pub proof fn sequences_switch_modes()
    ensures
        HOST_COLOR_SCHEME_REPORT_ENABLE_SEQUENCE@ == "\x1b[?2031h"@,
        HOST_COLOR_SCHEME_REPORT_DISABLE_SEQUENCE@ == "\x1b[?2031l"@,
        HOST_TERMINAL_THEME_QUERY@ == "\x1b]10;?\x1b\\\x1b]11;?\x1b\\"@,
        CURSOR_RESTORE_SEQUENCE@ == "\x1b[?25h\x1b[0 q"@,
        MODIFY_OTHER_KEYS_RESET_SEQUENCE@ == "\x1b[>4;0m"@,
        WIN32_INPUT_ENABLE_SEQUENCE@ == "\x1b[?9001h"@,
        WIN32_INPUT_DISABLE_SEQUENCE@ == "\x1b[?9001l"@,
        CLEAR_SCREEN_SEQUENCE@ == "\x1b[2J\x1b[H"@,
{
}

/// A pane is attached to over a welcome that grants pane streams, and no other
/// answer; what stands in the way is said in the server's words.
pub proof fn welcomes_are_accepted(v: JsonView, error: JsonView, text: Seq<char>)
    ensures
        v.field("error"@) == Some(error) && error.field("message"@) == Some(JsonView::Text(text))
            ==> (attachable(v) matches Err(e) && e == "framed session rejected: "@ + text),
        v.field("error"@) is None ==> (welcome_of(v) matches Some(w) ==> if w.capabilities.contains(
            "pane-stream"@,
        ) {
            attachable(v) matches Ok(r) && r == w
        } else {
            attachable(v) matches Err(e) && e == "server "@ + w.server_version
                + " does not advertise pane streams"@
        }),
        v.field("error"@) is None && welcome_of(v) is None ==> attachable(v) is Err,
{
}

} // verus!
