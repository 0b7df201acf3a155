//! What clients make of a server's answers and events.
use crate::api::server::dispatch::{error_view, overload_view};
use crate::api::server::framed_session::{
    closed_view, cursor_of, fits, is_cursor, page_view, HistoryModel,
};
use crate::api::server::handshake::window_view;
use crate::api::server::pump::gone_view;
use crate::client::framed_attach::{control_exit, AttachExit};
use crate::client::terminal_session::closes_stream;
use crate::json::JsonView;
use crate::protocol::framed::{
    error_of, ErrorModel, HelloRemedy, PROTOCOL_OUT_OF_WINDOW_CODE, STREAM_CLOSED_EVENT,
    STREAM_REVOKED_EVENT,
};
use crate::protocol::hello::HelloModel;
use crate::protocol::history::{
    cursor_text, cursors_read_back, cut_mid_line, page_in, page_start, page_text,
    pages_make_progress, CursorModel, PageModel,
};
use crate::seqs::first_index;
use vstd::prelude::*;
use vstd::utf8::{encode_utf8, encode_utf8_valid_utf8};

verus! {

/// An error is read as it was sent, with the side that has to be upgraded.
pub proof fn errors_are_read_as_sent(
    id: Seq<char>,
    code: Seq<char>,
    message: Seq<char>,
    data: Option<JsonView>,
)
    ensures
        error_of(error_view(id, code, message, data)) == Some(
            ErrorModel {
                code,
                message,
                remedy: match data {
                    Some(d) => crate::protocol::framed::remedy_of(d.text_field("remedy"@)),
                    None => None,
                },
            },
        ),
{
    reveal_with_fuel(first_index, 8);
    reveal_strlit("id");
    assert("id"@.len() == 2);
    reveal_strlit("error");
    assert("error"@.len() == 5);
    reveal_strlit("code");
    assert("code"@.len() == 4);
    reveal_strlit("message");
    assert("message"@.len() == 7);
    reveal_strlit("data");
    assert("data"@.len() == 4);
    assert("code"@[0] != "data"@[0]);
}

/// A client that is refused over its version learns which side to upgrade.
pub proof fn remedies_reach_the_client(
    id: Seq<char>,
    message: Seq<char>,
    remedy: HelloRemedy,
    p: HelloModel,
)
    ensures
        error_of(
            error_view(
                id,
                PROTOCOL_OUT_OF_WINDOW_CODE@,
                message,
                Some(window_view(remedy, p)),
            ),
        ) == Some(
            ErrorModel { code: PROTOCOL_OUT_OF_WINDOW_CODE@, message, remedy: Some(remedy) },
        ),
{
    reveal_with_fuel(first_index, 8);
    errors_are_read_as_sent(
        id,
        PROTOCOL_OUT_OF_WINDOW_CODE@,
        message,
        Some(window_view(remedy, p)),
    );
    reveal_strlit("remedy");
    assert("remedy"@.len() == 6);
    reveal_strlit("server_protocol");
    assert("server_protocol"@.len() == 15);
    reveal_strlit("server_min_protocol");
    assert("server_min_protocol"@.len() == 19);
    reveal_strlit("client_protocol");
    assert("client_protocol"@.len() == 15);
    reveal_strlit("client_min_protocol");
    assert("client_min_protocol"@.len() == 19);
    reveal_strlit("upgrade_client");
    assert("upgrade_client"@.len() == 14);
    reveal_strlit("upgrade_server");
    assert("upgrade_server"@.len() == 14);
    assert("upgrade_client"@[8] != "upgrade_server"@[8]);
}

/// The answer to a close is what its client waits for.
pub proof fn close_answers_are_recognised(id: Seq<char>, stream_id: u32)
    ensures
        closes_stream(closed_view(id, stream_id), stream_id),
{
    reveal_with_fuel(first_index, 8);
    reveal_strlit("id");
    assert("id"@.len() == 2);
    reveal_strlit("result");
    assert("result"@.len() == 6);
    reveal_strlit("type");
    assert("type"@.len() == 4);
    reveal_strlit("stream_id");
    assert("stream_id"@.len() == 9);
}

/// A stream that goes ends the attach that is on it, for the right reason,
/// and no other attach.
pub proof fn gone_streams_end_their_attach(gone: u32, stream_id: u32, reason: Seq<char>)
    ensures
        control_exit(gone_view(STREAM_CLOSED_EVENT@, gone, reason), stream_id) == if gone
            == stream_id {
            Some(AttachExit::PaneClosed)
        } else {
            None
        },
        control_exit(gone_view(STREAM_REVOKED_EVENT@, gone, reason), stream_id) == if gone
            == stream_id {
            Some(AttachExit::TakenOver)
        } else {
            None
        },
{
    reveal_with_fuel(first_index, 8);
    reveal_strlit("event");
    assert("event"@.len() == 5);
    reveal_strlit("data");
    assert("data"@.len() == 4);
    reveal_strlit("stream_id");
    assert("stream_id"@.len() == 9);
    reveal_strlit("reason");
    assert("reason"@.len() == 6);
    reveal_strlit("stream.closed");
    assert("stream.closed"@.len() == 13);
    reveal_strlit("stream.revoked");
    assert("stream.revoked"@.len() == 14);
    assert(STREAM_CLOSED_EVENT@.len() == 13);
    assert(STREAM_REVOKED_EVENT@.len() == 14);
}

/// A stream that was overrun ends every attach of the session: the server
/// closes the connection.
pub proof fn overloads_end_attaches(overrun: u32, stream_id: u32)
    ensures
        control_exit(overload_view(overrun), stream_id) == Some(AttachExit::Disconnected),
{
    reveal_with_fuel(first_index, 8);
    let v = overload_view(overrun);
    reveal_strlit("id");
    assert("id"@.len() == 2);
    reveal_strlit("error");
    assert("error"@.len() == 5);
    reveal_strlit("event");
    assert("event"@.len() == 5);
    reveal_strlit("data");
    assert("data"@.len() == 4);
    reveal_strlit("stream_overloaded");
    assert("stream_overloaded"@.len() == 17);
    assert("error"@[1] != "event"@[1]);
    assert(v.field("data"@) is None);
    assert(v.field("event"@) is None);
    errors_are_read_as_sent(
        Seq::empty(),
        "stream_overloaded"@,
        "stream "@ + crate::text::decimal(overrun as nat)
            + " overran the bounded output buffer; reconnect and reopen the stream to reseed"@,
        Some(JsonView::Object(seq![("stream_id"@, JsonView::Unsigned(overrun as u64))])),
    );
}

/// A page is read as it was served.
pub proof fn pages_are_read_as_served(
    id: Seq<char>,
    cursor: CursorModel,
    content: Seq<char>,
    budget: int,
)
    ensures
        page_in(page_view(id, cursor, content, budget)) == Some(
            PageModel {
                stream_id: cursor.stream_id,
                content: page_text(
                    content,
                    page_start(encode_utf8(content), cursor.offset as int, budget),
                    cursor.offset as int,
                ),
                next_cursor: if page_start(encode_utf8(content), cursor.offset as int, budget) > 0 {
                    Some(
                        cursor_text(
                            CursorModel {
                                offset: page_start(
                                    encode_utf8(content),
                                    cursor.offset as int,
                                    budget,
                                ) as u64,
                                ..cursor
                            },
                        ),
                    )
                } else {
                    None
                },
                at_top: page_start(encode_utf8(content), cursor.offset as int, budget) == 0,
                end_cut_mid_line: cut_mid_line(encode_utf8(content), cursor.offset as int),
            },
        ),
{
    reveal_with_fuel(first_index, 8);
    reveal_strlit("id");
    assert("id"@.len() == 2);
    reveal_strlit("result");
    assert("result"@.len() == 6);
    reveal_strlit("type");
    assert("type"@.len() == 4);
    reveal_strlit("stream_id");
    assert("stream_id"@.len() == 9);
    reveal_strlit("content");
    assert("content"@.len() == 7);
    reveal_strlit("next_cursor");
    assert("next_cursor"@.len() == 11);
    reveal_strlit("at_top");
    assert("at_top"@.len() == 6);
    reveal_strlit("end_cut_mid_line");
    assert("end_cut_mid_line"@.len() == 16);
}

/// The cursor that a page hands out is a place in the same capture, further
/// up, and is read back as that place: walking never gets stuck.
pub proof fn next_cursors_are_accepted(cursor: CursorModel, history: HistoryModel, budget: int)
    requires
        fits(cursor, history),
        0 < budget,
        0 < cursor.offset,
    ensures
        ({
            let start = page_start(
                encode_utf8(history.content),
                cursor.offset as int,
                budget,
            );
            let next = CursorModel { offset: start as u64, ..cursor };
            &&& start < cursor.offset
            &&& fits(next, history)
            &&& is_cursor(cursor_text(next))
            &&& cursor_of(cursor_text(next)) == next
        }),
{
    let start = page_start(encode_utf8(history.content), cursor.offset as int, budget);
    let next = CursorModel { offset: start as u64, ..cursor };
    encode_utf8_valid_utf8(history.content);
    pages_make_progress(history.content, cursor.offset as int, budget);
    cursors_read_back(cursor_of(cursor_text(next)), next);
}

} // verus!
