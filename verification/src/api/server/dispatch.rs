//! What a framed session asks of the app, and what it answers its client.
use crate::json::{object1, object2, with_member, no_members, members_view, Json, JsonView};
use crate::protocol::framed::StreamScrollParams;
use crate::text::{decimal, decimal_text};
use vstd::prelude::*;
use vstd::string::*;

verus! {

/// A method that the app carries out for a framed session.
#[derive(Debug)]
pub enum AppMethod {
    PaneStreamOpen {
        pane_id: String,
        stream_id: u32,
        write: bool,
        takeover: bool,
        cols: Option<u16>,
        rows: Option<u16>,
    },
    PaneStreamClose { pane_id: String, stream_id: u32 },
    PaneStreamResize {
        pane_id: String,
        stream_id: u32,
        cols: u16,
        rows: u16,
        cell_width_px: u32,
        cell_height_px: u32,
    },
    PaneStreamScroll { pane_id: String, scroll: StreamScrollParams },
    PaneSendBytes { pane_id: String, data_base64: String },
    PanePasteImage { pane_id: String, extension: String, data_base64: String },
    SessionSnapshot,
}

pub enum AppMethodModel {
    PaneStreamOpen {
        pane_id: Seq<char>,
        stream_id: u32,
        write: bool,
        takeover: bool,
        cols: Option<u16>,
        rows: Option<u16>,
    },
    PaneStreamClose { pane_id: Seq<char>, stream_id: u32 },
    PaneStreamResize {
        pane_id: Seq<char>,
        stream_id: u32,
        cols: u16,
        rows: u16,
        cell_width_px: u32,
        cell_height_px: u32,
    },
    PaneStreamScroll { pane_id: Seq<char>, scroll: StreamScrollParams },
    PaneSendBytes { pane_id: Seq<char>, data_base64: Seq<char> },
    PanePasteImage { pane_id: Seq<char>, extension: Seq<char>, data_base64: Seq<char> },
    SessionSnapshot,
}

impl View for AppMethod {
    type V = AppMethodModel;

    open spec fn view(&self) -> AppMethodModel {
        match *self {
            AppMethod::PaneStreamOpen { pane_id, stream_id, write, takeover, cols, rows } =>
                AppMethodModel::PaneStreamOpen {
                pane_id: pane_id@,
                stream_id,
                write,
                takeover,
                cols,
                rows,
            },
            AppMethod::PaneStreamClose { pane_id, stream_id } => AppMethodModel::PaneStreamClose {
                pane_id: pane_id@,
                stream_id,
            },
            AppMethod::PaneStreamResize {
                pane_id,
                stream_id,
                cols,
                rows,
                cell_width_px,
                cell_height_px,
            } => AppMethodModel::PaneStreamResize {
                pane_id: pane_id@,
                stream_id,
                cols,
                rows,
                cell_width_px,
                cell_height_px,
            },
            AppMethod::PaneStreamScroll { pane_id, scroll } => AppMethodModel::PaneStreamScroll {
                pane_id: pane_id@,
                scroll,
            },
            AppMethod::PaneSendBytes { pane_id, data_base64 } => AppMethodModel::PaneSendBytes {
                pane_id: pane_id@,
                data_base64: data_base64@,
            },
            AppMethod::PanePasteImage { pane_id, extension, data_base64 } =>
                AppMethodModel::PanePasteImage {
                pane_id: pane_id@,
                extension: extension@,
                data_base64: data_base64@,
            },
            AppMethod::SessionSnapshot => AppMethodModel::SessionSnapshot,
        }
    }
}

/// A request to the app.
#[derive(Debug)]
pub struct AppRequest {
    pub id: String,
    pub method: AppMethod,
}

pub struct AppRequestModel {
    pub id: Seq<char>,
    pub method: AppMethodModel,
}

impl View for AppRequest {
    type V = AppRequestModel;

    open spec fn view(&self) -> AppRequestModel {
        AppRequestModel { id: self.id@, method: self.method@ }
    }
}

/// The view of a request that may not be there.
pub open spec fn maybe_request(r: Option<AppRequest>) -> Option<AppRequestModel> {
    match r {
        Some(q) => Some(q@),
        None => None,
    }
}

/// The views of many requests.
pub open spec fn request_views(s: Seq<AppRequest>) -> Seq<AppRequestModel> {
    s.map_values(|q: AppRequest| q@)
}

/// The view of a value that may not be there.
pub open spec fn maybe_json(j: Option<Json>) -> Option<JsonView> {
    match j {
        Some(v) => Some(v@),
        None => None,
    }
}

/// An error answer.
pub open spec fn error_view(
    id: Seq<char>,
    code: Seq<char>,
    message: Seq<char>,
    data: Option<JsonView>,
) -> JsonView {
    let error = seq![("code"@, JsonView::Text(code)), ("message"@, JsonView::Text(message))];
    JsonView::Object(
        seq![
            ("id"@, JsonView::Text(id)),
            (
                "error"@,
                JsonView::Object(
                    match data {
                        Some(d) => error.push(("data"@, d)),
                        None => error,
                    },
                ),
            ),
        ],
    )
}

/// Builds an error answer.
pub fn error_response(id: &str, code: &str, message: &str, data: Option<Json>) -> (r: Json)
    ensures
        r@ == error_view(
            id@,
            code@,
            message@,
            maybe_json(data),
        ),
{
    let m = with_member(no_members(), "code", Json::from_text(code));
    let m = with_member(m, "message", Json::from_text(message));
    assert(members_view(m@) =~= seq![
        ("code"@, JsonView::Text(code@)),
        ("message"@, JsonView::Text(message@)),
    ]);
    let ghost head = members_view(m@);
    let ghost extra = maybe_json(data);
    let error = match data {
        Some(d) => Json::object(with_member(m, "data", d)),
        None => Json::object(m),
    };
    assert(error@ == JsonView::Object(
        match extra {
            Some(d) => head.push(("data"@, d)),
            None => head,
        },
    ));
    proof {
        let expected = error_view(id@, code@, message@, extra)->Object_0;
        assert(expected[1].1 == error@);
        assert(expected =~= seq![("id"@, JsonView::Text(id@)), ("error"@, error@)]);
    }
    object2("id", Json::from_text(id), "error", error)
}

/// A successful answer.
pub open spec fn result_view(id: Seq<char>, result: JsonView) -> JsonView {
    JsonView::Object(seq![("id"@, JsonView::Text(id)), ("result"@, result)])
}

/// Builds a successful answer.
pub fn result_response(id: &str, result: Json) -> (r: Json)
    ensures
        r@ == result_view(id@, result@),
{
    object2("id", Json::from_text(id), "result", result)
}

/// The answer to a request that names a stream that is not open.
pub open spec fn unknown_stream_view(id: Seq<char>, stream_id: u32) -> JsonView {
    error_view(
        id,
        "unknown_stream"@,
        "no open stream with id "@ + decimal(stream_id as nat),
        None,
    )
}

/// Builds the answer to a request that names a stream that is not open.
pub fn unknown_stream(id: &str, stream_id: u32) -> (r: Json)
    ensures
        r@ == unknown_stream_view(id@, stream_id),
{
    let message = "no open stream with id ".to_owned().concat(
        decimal_text(stream_id as u64).as_str(),
    );
    error_response(id, "unknown_stream", message.as_str(), None)
}

/// The answer to a data frame from a client: data flows from the server only.
pub open spec fn stray_data_view(stream_id: u32) -> JsonView {
    error_view(
        Seq::empty(),
        "unknown_stream"@,
        "data frames are server-to-client; no client-writable stream with id "@ + decimal(
            stream_id as nat,
        ),
        None,
    )
}

/// Builds the answer to a data frame from a client. The session ends with it.
pub fn stray_data_response(stream_id: u32) -> (r: Json)
    ensures
        r@ == stray_data_view(stream_id),
{
    let message =
        "data frames are server-to-client; no client-writable stream with id ".to_owned().concat(
        decimal_text(stream_id as u64).as_str(),
    );
    let r = error_response("", "unknown_stream", message.as_str(), None);
    proof {
        reveal_strlit("");
        assert(""@ =~= Seq::<char>::empty());
    }
    r
}

/// The error that ends a session whose client fell too far behind.
pub open spec fn overload_view(stream_id: u32) -> JsonView {
    error_view(
        Seq::empty(),
        "stream_overloaded"@,
        "stream "@ + decimal(stream_id as nat)
            + " overran the bounded output buffer; reconnect and reopen the stream to reseed"@,
        Some(
            JsonView::Object(seq![("stream_id"@, JsonView::Unsigned(stream_id as u64))]),
        ),
    )
}

/// Builds the error that ends a session whose client fell too far behind.
pub fn overload_response(stream_id: u32) -> (r: Json)
    ensures
        r@ == overload_view(stream_id),
{
    let message = "stream ".to_owned().concat(decimal_text(stream_id as u64).as_str()).concat(
        " overran the bounded output buffer; reconnect and reopen the stream to reseed",
    );
    let data = object1("stream_id", Json::Unsigned(stream_id as u64));
    let r = error_response("", "stream_overloaded", message.as_str(), Some(data));
    proof {
        reveal_strlit("");
        assert(""@ =~= Seq::<char>::empty());
    }
    r
}

} // verus!
