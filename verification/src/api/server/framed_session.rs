//! A framed session: its open streams, and what each control request comes to.
use crate::api::server::dispatch::{
    error_response, error_view, maybe_request, result_response, result_view, stray_data_response,
    stray_data_view, unknown_stream, unknown_stream_view, AppMethod, AppMethodModel, AppRequest,
    AppRequestModel,
};
use crate::api::server::page_laws::pages_take_little_room;
use crate::api::server::requests::{
    history_params, open_params, parse_history_params, parse_open_params, parse_paste_image_params,
    parse_resize_params, parse_scroll_params, parse_send_bytes_params, parse_stream_param,
    paste_image_params, read_control_request, request_read, resize_params, scroll_params,
    send_bytes_params, stream_param, ControlRequest, Objections, RequestModel,
};
use crate::client_state::app_state::{views, views_remove};
use crate::json::{
    encode_json, json_bytes, members_view, no_members, object1, object2, object3, with_member, Json,
    JsonView,
};
use crate::protocol::frame::MAX_FRAME_PAYLOAD;
use crate::protocol::framed::{
    Frame, FrameType, NegotiatedSession, StreamMode, API_REQUEST_METHOD,
    CAPABILITY_CATALOG, CAPABILITY_PANE_STREAM, CAPABILITY_PASTE_IMAGE, PANE_PASTE_IMAGE_METHOD,
    PANE_SEND_BYTES_METHOD, PING_METHOD, SESSION_HELLO_METHOD, SESSION_SNAPSHOT_METHOD,
    STREAM_CLOSE_METHOD, STREAM_HISTORY_METHOD, STREAM_OPEN_METHOD, STREAM_RESIZE_METHOD,
    STREAM_SCROLL_METHOD,
};
use crate::protocol::history::{
    cursor_text, cut_mid_line, decode_history_cursor, encode_history_cursor,
    history_page_end_cut_mid_line, history_page_start, page_of, page_start, page_text,
    pages_make_progress, CursorModel, HistoryCursor, HISTORY_FETCH_MAX_BYTES,
    HISTORY_PAGE_DEFAULT_BYTES, HISTORY_PAGE_MIN_BYTES, HISTORY_PAGE_SERVED_MAX_BYTES,
};
use crate::sorted_map::SortedMap;
use crate::text::{decimal, decimal_text, holds_is_contains, list_holds, same, texts};
use vstd::prelude::*;
use vstd::string::*;
use vstd::utf8::{
    encode_utf8, encode_utf8_valid_utf8, is_char_boundary, is_char_boundary_start_end_of_seq,
};

verus! {

/// Hands out stream ids: never the control stream's, never one twice.
#[derive(Debug)]
pub struct StreamIds {
    pub next: u64,
}

impl StreamIds {
    pub fn new() -> (r: Self)
        ensures
            r.next == 1,
    {
        StreamIds { next: 1 }
    }

    /// The next id, until the ids of 32 bits are used up.
    pub fn allocate(&mut self) -> (r: Option<u32>)
        ensures
            r == issued(old(self).next),
            final(self).next == after_issue(old(self).next),
    {
        if self.next <= u32::MAX as u64 {
            let id: u32 = self.next as u32;
            self.next = self.next + 1;
            Some(id)
        } else {
            None
        }
    }
}

/// The id that an allocator gives next.
pub open spec fn issued(next: u64) -> Option<u32> {
    if next <= u32::MAX {
        Some(next as u32)
    } else {
        None
    }
}

/// An allocator once it has given an id.
pub open spec fn after_issue(next: u64) -> u64 {
    if next <= u32::MAX {
        (next + 1) as u64
    } else {
        next
    }
}

/// The allocator after so many requests.
pub open spec fn after_issues(next: u64, n: nat) -> u64
    decreases n,
{
    if n == 0 {
        next
    } else {
        after_issue(after_issues(next, (n - 1) as nat))
    }
}

/// A stream id is never given out twice, and never that of control frames.
pub proof fn stream_ids_are_never_reused(next: u64, i: nat, j: nat)
    requires
        next >= 1,
        i < j,
    ensures
        issued(after_issues(next, i)) matches Some(a) ==> a > 0 && (issued(
            after_issues(next, j),
        ) matches Some(b) ==> a < b),
    decreases j,
{
    issues_ascend(next, i);
    if i + 1 < j {
        stream_ids_are_never_reused(next, i, (j - 1) as nat);
        issues_ascend(next, (j - 1) as nat);
    }
}

proof fn issues_ascend(next: u64, n: nat)
    ensures
        after_issues(next, n) >= next,
    decreases n,
{
    if n > 0 {
        issues_ascend(next, (n - 1) as nat);
    }
}

/// What a pane held when its stream was opened. It never changes, so pages of
/// it are slices of one text.
#[derive(Debug)]
pub struct PaneStreamHistory {
    pub pane_id: String,
    pub sequence: u64,
    pub content: String,
}

/// An open stream.
#[derive(Debug)]
pub struct OpenStream {
    /// The pane that the open target resolved to.
    pub pane_id: String,
    /// Whether it holds the pane's write grant.
    pub writable: bool,
    pub history: PaneStreamHistory,
}

pub struct HistoryModel {
    pub pane_id: Seq<char>,
    pub sequence: u64,
    pub content: Seq<char>,
}

pub struct StreamModel {
    pub pane_id: Seq<char>,
    pub writable: bool,
    pub history: HistoryModel,
}

impl View for PaneStreamHistory {
    type V = HistoryModel;

    open spec fn view(&self) -> HistoryModel {
        HistoryModel {
            pane_id: self.pane_id@,
            sequence: self.sequence,
            content: self.content@,
        }
    }
}

impl View for OpenStream {
    type V = StreamModel;

    open spec fn view(&self) -> StreamModel {
        StreamModel {
            pane_id: self.pane_id@,
            writable: self.writable,
            history: self.history@,
        }
    }
}

/// A negotiated session with its open streams and its place in the events.
#[derive(Debug)]
pub struct FramedSession {
    pub session: NegotiatedSession,
    pub streams: SortedMap<u32, OpenStream>,
    pub event_cursor: u64,
}

pub struct ServedModel {
    pub protocol: u32,
    pub capabilities: Seq<Seq<char>>,
    pub streams: Map<u32, StreamModel>,
    pub event_cursor: u64,
}

impl View for FramedSession {
    type V = ServedModel;

    open spec fn view(&self) -> ServedModel {
        ServedModel {
            protocol: self.session.protocol,
            capabilities: texts(self.session.capabilities@),
            streams: views(self.streams@),
            event_cursor: self.event_cursor,
        }
    }
}

/// The release of a stream: the app is told only of one that held the write
/// grant of a known pane.
pub open spec fn release_of(stream_id: u32, open: StreamModel) -> Option<AppRequestModel> {
    if open.writable && open.pane_id.len() > 0 {
        Some(
            AppRequestModel {
                id: "framed:stream.close:"@ + decimal(stream_id as nat),
                method: AppMethodModel::PaneStreamClose { pane_id: open.pane_id, stream_id },
            },
        )
    } else {
        None
    }
}

/// What the app is told of a stream that goes.
pub fn release_write_stream(stream_id: u32, open: &OpenStream) -> (r: Option<AppRequest>)
    ensures
        maybe_request(r) == release_of(stream_id, open@),
{
    if !open.writable || open.pane_id.as_str().is_empty() {
        return None;
    }
    let id = "framed:stream.close:".to_owned().concat(decimal_text(stream_id as u64).as_str());
    Some(
        AppRequest { id, method: AppMethod::PaneStreamClose { pane_id: open.pane_id.clone(), stream_id } },
    )
}

/// What a control request comes to.
#[derive(Debug)]
pub enum ControlStep {
    /// Answer at once.
    Respond(Json),
    /// Have the app do it, and hand its answer on.
    Relay(AppRequest),
    /// Have the app do it, and add the sequence to its answer.
    Anchor { request: AppRequest, sequence: u64 },
    /// Have the app open a stream, then finish opening it here.
    Open { request: AppRequest, stream_id: u32, target: String },
    /// Tell the app of the release first, then answer.
    Release { release: Option<AppRequest>, response: Json },
    /// Read the inner API request, then forward it.
    Forward { id: String, request: Json },
}

pub enum StepModel {
    Respond(JsonView),
    Relay(AppRequestModel),
    Anchor { request: AppRequestModel, sequence: u64 },
    Open { request: AppRequestModel, stream_id: u32, target: Seq<char> },
    Release { release: Option<AppRequestModel>, response: JsonView },
    Forward { id: Seq<char>, request: JsonView },
}

impl View for ControlStep {
    type V = StepModel;

    open spec fn view(&self) -> StepModel {
        match *self {
            ControlStep::Respond(j) => StepModel::Respond(j@),
            ControlStep::Relay(q) => StepModel::Relay(q@),
            ControlStep::Anchor { request, sequence } => StepModel::Anchor {
                request: request@,
                sequence,
            },
            ControlStep::Open { request, stream_id, target } => StepModel::Open {
                request: request@,
                stream_id,
                target: target@,
            },
            ControlStep::Release { release, response } => StepModel::Release {
                release: maybe_request(release),
                response: response@,
            },
            ControlStep::Forward { id, request } => StepModel::Forward {
                id: id@,
                request: request@,
            },
        }
    }
}

/// The answer to a method whose capability was not negotiated.
pub open spec fn rejection_view(q: RequestModel, capability: Seq<char>) -> JsonView {
    error_view(
        q.id,
        "capability_not_negotiated"@,
        q.method + " requires the "@ + capability
            + " capability, which was not negotiated at session.hello"@,
        Some(JsonView::Object(seq![("capability"@, JsonView::Text(capability))])),
    )
}

/// The answer to params that cannot be read.
pub open spec fn invalid_params_view(id: Seq<char>, method: Seq<char>, e: Seq<char>) -> JsonView {
    error_view(id, "invalid_params"@, "invalid "@ + method + " params: "@ + e, None)
}

fn invalid_params(id: &str, method: &str, e: &str) -> (r: Json)
    ensures
        r@ == invalid_params_view(id@, method@, e@),
{
    let message = "invalid ".to_owned().concat(method).concat(" params: ").concat(e);
    error_response(id, "invalid_params", message.as_str(), None)
}

pub open spec fn not_write_holder_view(id: Seq<char>, stream_id: u32) -> JsonView {
    error_view(
        id,
        "stream_not_write_holder"@,
        "stream "@ + decimal(stream_id as nat) + " was not opened in write mode"@,
        None,
    )
}

fn not_write_holder(id: &str, stream_id: u32) -> (r: Json)
    ensures
        r@ == not_write_holder_view(id@, stream_id),
{
    let message = "stream ".to_owned().concat(decimal_text(stream_id as u64).as_str()).concat(
        " was not opened in write mode",
    );
    error_response(id, "stream_not_write_holder", message.as_str(), None)
}

/// The answer to a heartbeat.
pub open spec fn pong_view(id: Seq<char>, version: Seq<char>, protocol: u32) -> JsonView {
    result_view(
        id,
        JsonView::Object(
            seq![
                ("type"@, JsonView::Text("pong"@)),
                ("version"@, JsonView::Text(version)),
                ("protocol"@, JsonView::Unsigned(protocol as u64)),
            ],
        ),
    )
}

/// The answer to a stream that was closed on request.
pub open spec fn closed_view(id: Seq<char>, stream_id: u32) -> JsonView {
    result_view(
        id,
        JsonView::Object(
            seq![
                ("type"@, JsonView::Text("stream_closed"@)),
                ("stream_id"@, JsonView::Unsigned(stream_id as u64)),
            ],
        ),
    )
}

/// How large a page a request gets.
pub open spec fn page_budget(asked: Option<u64>) -> int {
    let n = match asked {
        Some(n) => n as int,
        None => HISTORY_PAGE_DEFAULT_BYTES as int,
    };
    if n < HISTORY_PAGE_MIN_BYTES {
        HISTORY_PAGE_MIN_BYTES as int
    } else if n > HISTORY_PAGE_SERVED_MAX_BYTES {
        HISTORY_PAGE_SERVED_MAX_BYTES as int
    } else {
        n
    }
}

/// How large a page a request gets.
pub fn page_budget_bytes(asked: Option<u64>) -> (r: usize)
    ensures
        r == page_budget(asked),
        HISTORY_PAGE_MIN_BYTES <= r <= HISTORY_PAGE_SERVED_MAX_BYTES,
{
    let n: u64 = match asked {
        Some(n) => n,
        None => HISTORY_PAGE_DEFAULT_BYTES as u64,
    };
    let clamped: u64 = if n < HISTORY_PAGE_MIN_BYTES as u64 {
        HISTORY_PAGE_MIN_BYTES as u64
    } else if n > HISTORY_FETCH_MAX_BYTES as u64 {
        HISTORY_FETCH_MAX_BYTES as u64
    } else {
        n
    };
    if clamped > HISTORY_PAGE_SERVED_MAX_BYTES as u64 {
        HISTORY_PAGE_SERVED_MAX_BYTES
    } else {
        clamped as usize
    }
}

/// Whether a cursor is a place in a capture.
pub open spec fn fits(cursor: CursorModel, history: HistoryModel) -> bool {
    &&& cursor.pane_id == history.pane_id
    &&& cursor.sequence == history.sequence
    &&& cursor.offset <= encode_utf8(history.content).len()
    &&& is_char_boundary(encode_utf8(history.content), cursor.offset as int)
}

/// A page on the wire: the text before the cursor, and the cursor of what is
/// before that.
pub open spec fn page_view(
    id: Seq<char>,
    cursor: CursorModel,
    content: Seq<char>,
    budget: int,
) -> JsonView {
    let end = cursor.offset as int;
    let start = page_start(encode_utf8(content), end, budget);
    result_view(
        id,
        JsonView::Object(
            seq![
                ("type"@, JsonView::Text("stream_history"@)),
                ("stream_id"@, JsonView::Unsigned(cursor.stream_id as u64)),
                ("content"@, JsonView::Text(page_text(content, start, end))),
                (
                    "next_cursor"@,
                    if start > 0 {
                        JsonView::Text(
                            cursor_text(CursorModel { offset: start as u64, ..cursor }),
                        )
                    } else {
                        JsonView::Null
                    },
                ),
                ("at_top"@, JsonView::Bool(start == 0)),
                (
                    "end_cut_mid_line"@,
                    JsonView::Bool(cut_mid_line(encode_utf8(content), end)),
                ),
            ],
        ),
    )
}

/// The answer to a page that is too long for a frame.
pub open spec fn page_too_large_view(id: Seq<char>) -> JsonView {
    error_view(
        id,
        "history_page_too_large"@,
        "history page encodes larger than the frame limit; retry with a smaller max_bytes"@,
        None,
    )
}

pub open spec fn undecodable_cursor_view(id: Seq<char>) -> JsonView {
    error_view(
        id,
        "invalid_cursor"@,
        "history cursor is not decodable; reopen the stream for a fresh cursor"@,
        None,
    )
}

pub open spec fn foreign_cursor_view(id: Seq<char>) -> JsonView {
    error_view(
        id,
        "invalid_cursor"@,
        "history cursor does not match the open stream's capture; reopen the stream for a fresh cursor"@,
        None,
    )
}

/// A page, or the error in its place.
pub open spec fn page_answer(
    id: Seq<char>,
    cursor: CursorModel,
    content: Seq<char>,
    budget: int,
) -> JsonView {
    let page = page_view(id, cursor, content, budget);
    if json_bytes(page).len() > MAX_FRAME_PAYLOAD {
        page_too_large_view(id)
    } else {
        page
    }
}

/// Whether a page fits a frame.
pub open spec fn page_fits(
    id: Seq<char>,
    cursor: CursorModel,
    content: Seq<char>,
    budget: int,
) -> bool {
    json_bytes(page_view(id, cursor, content, budget)).len() <= MAX_FRAME_PAYLOAD
}

/// How much a request's id and its pane's may take together, so that every
/// page fits a frame.
pub const SHORT_NAMES_BYTES: usize = 131_072;

pub open spec fn short_names(id: Seq<char>, pane_id: Seq<char>) -> bool {
    encode_utf8(id).len() + encode_utf8(pane_id).len() <= SHORT_NAMES_BYTES
}

/// Whether a text is a cursor's.
pub open spec fn is_cursor(t: Seq<char>) -> bool {
    exists|c: CursorModel| #[trigger] cursor_text(c) == t
}

/// The cursor that a text is.
pub open spec fn cursor_of(t: Seq<char>) -> CursorModel {
    choose|c: CursorModel| #[trigger] cursor_text(c) == t
}

proof fn cursor_of_text(c: CursorModel)
    ensures
        is_cursor(cursor_text(c)),
        cursor_of(cursor_text(c)) == c,
{
    crate::protocol::history::cursors_read_back(cursor_of(cursor_text(c)), c);
}

impl ServedModel {
    pub open spec fn grants(self, capability: Seq<char>) -> bool {
        self.capabilities.contains(capability)
    }

    /// The write stream that a request addresses, or the refusal.
    pub open spec fn write_stream(self, id: Seq<char>, stream_id: u32) -> Result<
        Seq<char>,
        JsonView,
    > {
        if !self.streams.contains_key(stream_id) {
            Err(unknown_stream_view(id, stream_id))
        } else if !self.streams[stream_id].writable {
            Err(not_write_holder_view(id, stream_id))
        } else {
            Ok(self.streams[stream_id].pane_id)
        }
    }

    pub open spec fn open_step(self, q: RequestModel, next: u64) -> StepModel {
        if !self.grants(CAPABILITY_PANE_STREAM@) {
            StepModel::Respond(rejection_view(q, CAPABILITY_PANE_STREAM@))
        } else {
            match q.agreed(open_params(q.params)) {
                Err(e) => StepModel::Respond(invalid_params_view(q.id, STREAM_OPEN_METHOD@, e)),
                Ok(p) => match issued(next) {
                    None => StepModel::Respond(ids_exhausted_view(q.id)),
                    Some(stream_id) => StepModel::Open {
                        request: AppRequestModel {
                            id: q.id,
                            method: AppMethodModel::PaneStreamOpen {
                                pane_id: p.pane_id,
                                stream_id,
                                write: p.mode == StreamMode::Write,
                                takeover: p.takeover,
                                cols: p.cols,
                                rows: p.rows,
                            },
                        },
                        stream_id,
                        target: p.pane_id,
                    },
                },
            }
        }
    }

    /// The allocator after a `stream.open`: an id is taken only for params
    /// that can be read.
    pub open spec fn open_next(self, q: RequestModel, next: u64) -> u64 {
        if self.grants(CAPABILITY_PANE_STREAM@) && q.agreed(open_params(q.params)) is Ok {
            after_issue(next)
        } else {
            next
        }
    }

    pub open spec fn close_step(self, q: RequestModel) -> (ServedModel, StepModel) {
        if !self.grants(CAPABILITY_PANE_STREAM@) {
            (self, StepModel::Respond(rejection_view(q, CAPABILITY_PANE_STREAM@)))
        } else {
            match q.agreed(stream_param(q.params)) {
                Err(e) => (
                    self,
                    StepModel::Respond(invalid_params_view(q.id, STREAM_CLOSE_METHOD@, e)),
                ),
                Ok(stream_id) => if !self.streams.contains_key(stream_id) {
                    (self, StepModel::Respond(unknown_stream_view(q.id, stream_id)))
                } else {
                    (
                        ServedModel { streams: self.streams.remove(stream_id), ..self },
                        StepModel::Release {
                            release: release_of(stream_id, self.streams[stream_id]),
                            response: closed_view(q.id, stream_id),
                        },
                    )
                },
            }
        }
    }

    pub open spec fn resize_step(self, q: RequestModel) -> StepModel {
        if !self.grants(CAPABILITY_PANE_STREAM@) {
            StepModel::Respond(rejection_view(q, CAPABILITY_PANE_STREAM@))
        } else {
            match q.agreed(resize_params(q.params)) {
                Err(e) => StepModel::Respond(invalid_params_view(q.id, STREAM_RESIZE_METHOD@, e)),
                Ok(p) => match self.write_stream(q.id, p.stream_id) {
                    Err(refusal) => StepModel::Respond(refusal),
                    Ok(pane_id) => StepModel::Relay(
                        AppRequestModel {
                            id: q.id,
                            method: AppMethodModel::PaneStreamResize {
                                pane_id,
                                stream_id: p.stream_id,
                                cols: p.cols,
                                rows: p.rows,
                                cell_width_px: p.cell_width_px,
                                cell_height_px: p.cell_height_px,
                            },
                        },
                    ),
                },
            }
        }
    }

    pub open spec fn scroll_step(self, q: RequestModel) -> StepModel {
        if !self.grants(CAPABILITY_PANE_STREAM@) {
            StepModel::Respond(rejection_view(q, CAPABILITY_PANE_STREAM@))
        } else {
            match q.agreed(scroll_params(q.params)) {
                Err(e) => StepModel::Respond(invalid_params_view(q.id, STREAM_SCROLL_METHOD@, e)),
                Ok(p) => match self.write_stream(q.id, p.stream_id) {
                    Err(refusal) => StepModel::Respond(refusal),
                    Ok(pane_id) => StepModel::Relay(
                        AppRequestModel {
                            id: q.id,
                            method: AppMethodModel::PaneStreamScroll { pane_id, scroll: p },
                        },
                    ),
                },
            }
        }
    }

    /// A page of history. It needs no write grant.
    pub open spec fn history_step(self, q: RequestModel) -> StepModel {
        if !self.grants(CAPABILITY_PANE_STREAM@) {
            StepModel::Respond(rejection_view(q, CAPABILITY_PANE_STREAM@))
        } else {
            match q.agreed(history_params(q.params)) {
                Err(e) => StepModel::Respond(invalid_params_view(q.id, STREAM_HISTORY_METHOD@, e)),
                Ok((text, asked)) => if !is_cursor(text) {
                    StepModel::Respond(undecodable_cursor_view(q.id))
                } else {
                    let cursor = cursor_of(text);
                    if !self.streams.contains_key(cursor.stream_id) {
                        StepModel::Respond(unknown_stream_view(q.id, cursor.stream_id))
                    } else {
                        let history = self.streams[cursor.stream_id].history;
                        if !fits(cursor, history) {
                            StepModel::Respond(foreign_cursor_view(q.id))
                        } else {
                            StepModel::Respond(
                                page_answer(q.id, cursor, history.content, page_budget(asked)),
                            )
                        }
                    }
                },
            }
        }
    }

    /// Where the names are short, a page that is asked for fits a frame.
    pub open spec fn serves(self, q: RequestModel) -> bool {
        match q.agreed(history_params(q.params)) {
            Ok((text, asked)) => {
                let cursor = cursor_of(text);
                let history = self.streams[cursor.stream_id].history;
                self.grants(CAPABILITY_PANE_STREAM@) && is_cursor(text)
                    && self.streams.contains_key(cursor.stream_id) && fits(cursor, history)
                    && short_names(q.id, cursor.pane_id) ==> page_fits(
                    q.id,
                    cursor,
                    history.content,
                    page_budget(asked),
                )
            },
            Err(_) => true,
        }
    }

    pub open spec fn send_bytes_step(self, q: RequestModel) -> StepModel {
        if !self.grants(CAPABILITY_PANE_STREAM@) {
            StepModel::Respond(rejection_view(q, CAPABILITY_PANE_STREAM@))
        } else {
            match q.agreed(send_bytes_params(q.params)) {
                Err(e) => StepModel::Respond(invalid_params_view(q.id, PANE_SEND_BYTES_METHOD@, e)),
                Ok((pane_id, data_base64)) => StepModel::Relay(
                    AppRequestModel {
                        id: q.id,
                        method: AppMethodModel::PaneSendBytes { pane_id, data_base64 },
                    },
                ),
            }
        }
    }

    pub open spec fn paste_image_step(self, q: RequestModel) -> StepModel {
        if !self.grants(CAPABILITY_PASTE_IMAGE@) {
            StepModel::Respond(rejection_view(q, CAPABILITY_PASTE_IMAGE@))
        } else {
            match q.agreed(paste_image_params(q.params)) {
                Err(e) => StepModel::Respond(
                    invalid_params_view(q.id, PANE_PASTE_IMAGE_METHOD@, e),
                ),
                Ok((pane_id, extension, data_base64)) => StepModel::Relay(
                    AppRequestModel {
                        id: q.id,
                        method: AppMethodModel::PanePasteImage { pane_id, extension, data_base64 },
                    },
                ),
            }
        }
    }

    /// The anchor is the sequence before the snapshot is taken, so an event
    /// that races it is replayed and not lost.
    pub open spec fn snapshot_step(self, q: RequestModel, sequence: u64) -> StepModel {
        if !self.grants(CAPABILITY_CATALOG@) {
            StepModel::Respond(rejection_view(q, CAPABILITY_CATALOG@))
        } else {
            StepModel::Anchor {
                request: AppRequestModel { id: q.id, method: AppMethodModel::SessionSnapshot },
                sequence,
            }
        }
    }

    pub open spec fn api_step(self, q: RequestModel) -> StepModel {
        if !self.grants(CAPABILITY_CATALOG@) {
            StepModel::Respond(rejection_view(q, CAPABILITY_CATALOG@))
        } else {
            match q.params.field("request"@) {
                None => StepModel::Respond(
                    error_view(
                        q.id,
                        "invalid_params"@,
                        "api.request params carry no request"@,
                        None,
                    ),
                ),
                Some(request) => StepModel::Forward { id: q.id, request },
            }
        }
    }

    /// What a request comes to.
    pub open spec fn control_step(
        self,
        q: RequestModel,
        next: u64,
        sequence: u64,
        version: Seq<char>,
    ) -> StepModel {
        if q.method == PING_METHOD@ {
            StepModel::Respond(pong_view(q.id, version, self.protocol))
        } else if q.method == STREAM_OPEN_METHOD@ {
            self.open_step(q, next)
        } else if q.method == STREAM_CLOSE_METHOD@ {
            self.close_step(q).1
        } else if q.method == STREAM_RESIZE_METHOD@ {
            self.resize_step(q)
        } else if q.method == STREAM_SCROLL_METHOD@ {
            self.scroll_step(q)
        } else if q.method == STREAM_HISTORY_METHOD@ {
            self.history_step(q)
        } else if q.method == PANE_SEND_BYTES_METHOD@ {
            self.send_bytes_step(q)
        } else if q.method == PANE_PASTE_IMAGE_METHOD@ {
            self.paste_image_step(q)
        } else if q.method == SESSION_SNAPSHOT_METHOD@ {
            self.snapshot_step(q, sequence)
        } else if q.method == API_REQUEST_METHOD@ {
            self.api_step(q)
        } else if q.method == SESSION_HELLO_METHOD@ {
            StepModel::Respond(
                error_view(
                    q.id,
                    "invalid_request"@,
                    "session.hello was already negotiated on this connection"@,
                    None,
                ),
            )
        } else {
            StepModel::Respond(
                error_view(
                    q.id,
                    "unknown_method"@,
                    "unknown control method "@ + q.method,
                    None,
                ),
            )
        }
    }

    /// The session after a request: only a close changes it here.
    pub open spec fn after_control(self, q: RequestModel) -> ServedModel {
        if q.method == STREAM_CLOSE_METHOD@ {
            self.close_step(q).0
        } else {
            self
        }
    }

    /// The allocator after a request.
    pub open spec fn next_after(self, q: RequestModel, next: u64) -> u64 {
        if q.method == STREAM_OPEN_METHOD@ {
            self.open_next(q, next)
        } else {
            next
        }
    }
}

pub open spec fn ids_exhausted_view(id: Seq<char>) -> JsonView {
    error_view(
        id,
        "stream_ids_exhausted"@,
        "this server process has exhausted its 32-bit stream id space; restart the server to open new streams"@,
        None,
    )
}

impl FramedSession {
    pub open spec fn wf(&self) -> bool {
        self.streams.wf()
    }

    /// A session as negotiated. Events up to `sequence` are history to it.
    pub fn start(session: NegotiatedSession, sequence: u64) -> (r: Self)
        ensures
            r.wf(),
            r@ == (ServedModel {
                protocol: session.protocol,
                capabilities: texts(session.capabilities@),
                streams: Map::empty(),
                event_cursor: sequence,
            }),
    {
        let r = FramedSession { session, streams: SortedMap::new(), event_cursor: sequence };
        assert(r@.streams =~= Map::<u32, StreamModel>::empty());
        r
    }

    /// Whether a capability was negotiated.
    pub fn has_capability(&self, capability: &str) -> (r: bool)
        ensures
            r == self@.grants(capability@),
    {
        proof {
            holds_is_contains(self.session.capabilities@, capability@);
        }
        list_holds(&self.session.capabilities, capability)
    }

    /// The rejection of a method whose capability was not negotiated.
    pub fn capability_rejection(&self, capability: &str, q: &ControlRequest) -> (r: Option<Json>)
        ensures
            match r {
                Some(j) => !self@.grants(capability@) && j@ == rejection_view(q@, capability@),
                None => self@.grants(capability@),
            },
    {
        if self.has_capability(capability) {
            return None;
        }
        let message = q.method.clone().concat(" requires the ").concat(capability).concat(
            " capability, which was not negotiated at session.hello",
        );
        let data = object1("capability", Json::from_text(capability));
        Some(
            error_response(
                q.id.as_str(),
                "capability_not_negotiated",
                message.as_str(),
                Some(data),
            ),
        )
    }

    /// The pane of a write stream, or the refusal.
    pub fn write_stream_pane_id(&self, id: &str, stream_id: u32) -> (r: Result<String, Json>)
        requires
            self.wf(),
        ensures
            match r {
                Ok(p) => self@.write_stream(id@, stream_id) == Ok::<Seq<char>, JsonView>(p@),
                Err(j) => self@.write_stream(id@, stream_id) == Err::<Seq<char>, JsonView>(j@),
            },
    {
        match self.streams.get(&stream_id) {
            None => Err(unknown_stream(id, stream_id)),
            Some(open) => {
                if open.writable {
                    Ok(open.pane_id.clone())
                } else {
                    Err(not_write_holder(id, stream_id))
                }
            },
        }
    }

    /// Begins a `stream.open`.
    pub fn handle_stream_open(&self, q: &ControlRequest, ids: &mut StreamIds) -> (r: ControlStep)
        ensures
            r@ == self@.open_step(q@, old(ids).next),
            final(ids).next == self@.open_next(q@, old(ids).next),
    {
        if let Some(rejection) = self.capability_rejection(CAPABILITY_PANE_STREAM, q) {
            return ControlStep::Respond(rejection);
        }
        let params = match q.agree(parse_open_params(&q.params)) {
            Ok(p) => p,
            Err(e) => {
                return ControlStep::Respond(
                    invalid_params(q.id.as_str(), STREAM_OPEN_METHOD, e.as_str()),
                );
            },
        };
        let stream_id: u32 = match ids.allocate() {
            Some(id) => id,
            None => {
                return ControlStep::Respond(
                    error_response(
                        q.id.as_str(),
                        "stream_ids_exhausted",
                        "this server process has exhausted its 32-bit stream id space; restart the server to open new streams",
                        None,
                    ),
                );
            },
        };
        let target = params.pane_id.clone();
        let write: bool = match params.mode {
            StreamMode::Write => true,
            StreamMode::Read => false,
        };
        ControlStep::Open {
            request: AppRequest {
                id: q.id.clone(),
                method: AppMethod::PaneStreamOpen {
                    pane_id: params.pane_id,
                    stream_id,
                    write,
                    takeover: params.takeover,
                    cols: params.cols,
                    rows: params.rows,
                },
            },
            stream_id,
            target,
        }
    }

    /// Closes a stream.
    pub fn handle_stream_close(&mut self, q: &ControlRequest) -> (r: ControlStep)
        requires
            old(self).wf(),
        ensures
            final(self).wf(),
            final(self)@ == old(self)@.close_step(q@).0,
            r@ == old(self)@.close_step(q@).1,
    {
        let ghost before = self.streams@;
        if let Some(rejection) = self.capability_rejection(CAPABILITY_PANE_STREAM, q) {
            return ControlStep::Respond(rejection);
        }
        let stream_id: u32 = match q.agree(parse_stream_param(&q.params)) {
            Ok(id) => id,
            Err(e) => {
                return ControlStep::Respond(
                    invalid_params(q.id.as_str(), STREAM_CLOSE_METHOD, e.as_str()),
                );
            },
        };
        match self.streams.remove(&stream_id) {
            None => {
                assert(before.remove(stream_id) =~= before);
                ControlStep::Respond(unknown_stream(q.id.as_str(), stream_id))
            },
            Some(open) => {
                proof {
                    views_remove(before, stream_id);
                }
                let release = release_write_stream(stream_id, &open);
                let result = object2(
                    "type",
                    Json::from_text("stream_closed"),
                    "stream_id",
                    Json::Unsigned(stream_id as u64),
                );
                ControlStep::Release { release, response: result_response(q.id.as_str(), result) }
            },
        }
    }

    /// Resizes the pane of a write stream.
    pub fn handle_stream_resize(&self, q: &ControlRequest) -> (r: ControlStep)
        requires
            self.wf(),
        ensures
            r@ == self@.resize_step(q@),
    {
        if let Some(rejection) = self.capability_rejection(CAPABILITY_PANE_STREAM, q) {
            return ControlStep::Respond(rejection);
        }
        let p = match q.agree(parse_resize_params(&q.params)) {
            Ok(p) => p,
            Err(e) => {
                return ControlStep::Respond(
                    invalid_params(q.id.as_str(), STREAM_RESIZE_METHOD, e.as_str()),
                );
            },
        };
        let pane_id = match self.write_stream_pane_id(q.id.as_str(), p.stream_id) {
            Ok(pane_id) => pane_id,
            Err(refusal) => return ControlStep::Respond(refusal),
        };
        ControlStep::Relay(
            AppRequest {
                id: q.id.clone(),
                method: AppMethod::PaneStreamResize {
                    pane_id,
                    stream_id: p.stream_id,
                    cols: p.cols,
                    rows: p.rows,
                    cell_width_px: p.cell_width_px,
                    cell_height_px: p.cell_height_px,
                },
            },
        )
    }

    /// Scrolls the pane of a write stream.
    pub fn handle_stream_scroll(&self, q: &ControlRequest) -> (r: ControlStep)
        requires
            self.wf(),
        ensures
            r@ == self@.scroll_step(q@),
    {
        if let Some(rejection) = self.capability_rejection(CAPABILITY_PANE_STREAM, q) {
            return ControlStep::Respond(rejection);
        }
        let scroll = match q.agree(parse_scroll_params(&q.params)) {
            Ok(p) => p,
            Err(e) => {
                return ControlStep::Respond(
                    invalid_params(q.id.as_str(), STREAM_SCROLL_METHOD, e.as_str()),
                );
            },
        };
        let pane_id = match self.write_stream_pane_id(q.id.as_str(), scroll.stream_id) {
            Ok(pane_id) => pane_id,
            Err(refusal) => return ControlStep::Respond(refusal),
        };
        ControlStep::Relay(
            AppRequest {
                id: q.id.clone(),
                method: AppMethod::PaneStreamScroll { pane_id, scroll },
            },
        )
    }

    /// Serves a page of history.
    pub fn handle_stream_history(&self, q: &ControlRequest) -> (r: ControlStep)
        requires
            self.wf(),
        ensures
            r@ == self@.history_step(q@),
            self@.serves(q@),
    {
        if let Some(rejection) = self.capability_rejection(CAPABILITY_PANE_STREAM, q) {
            return ControlStep::Respond(rejection);
        }
        let (text, asked) = match q.agree(parse_history_params(&q.params)) {
            Ok(p) => p,
            Err(e) => {
                return ControlStep::Respond(
                    invalid_params(q.id.as_str(), STREAM_HISTORY_METHOD, e.as_str()),
                );
            },
        };
        let cursor = match decode_history_cursor(text.as_str()) {
            Some(c) => c,
            None => {
                return ControlStep::Respond(
                    error_response(
                        q.id.as_str(),
                        "invalid_cursor",
                        "history cursor is not decodable; reopen the stream for a fresh cursor",
                        None,
                    ),
                );
            },
        };
        proof {
            cursor_of_text(cursor@);
        }
        let open = match self.streams.get(&cursor.stream_id) {
            Some(open) => open,
            None => {
                return ControlStep::Respond(unknown_stream(q.id.as_str(), cursor.stream_id));
            },
        };
        if !cursor_fits(&cursor, &open.history) {
            return ControlStep::Respond(
                error_response(
                    q.id.as_str(),
                    "invalid_cursor",
                    "history cursor does not match the open stream's capture; reopen the stream for a fresh cursor",
                    None,
                ),
            );
        }
        ControlStep::Respond(
            serve_page(
                q.id.as_str(),
                &cursor,
                open.history.content.as_str(),
                page_budget_bytes(asked),
            ),
        )
    }

    /// Has the app write bytes to a pane.
    pub fn handle_send_bytes(&self, q: &ControlRequest) -> (r: ControlStep)
        ensures
            r@ == self@.send_bytes_step(q@),
    {
        if let Some(rejection) = self.capability_rejection(CAPABILITY_PANE_STREAM, q) {
            return ControlStep::Respond(rejection);
        }
        match q.agree(parse_send_bytes_params(&q.params)) {
            Err(e) => ControlStep::Respond(
                invalid_params(q.id.as_str(), PANE_SEND_BYTES_METHOD, e.as_str()),
            ),
            Ok((pane_id, data_base64)) => ControlStep::Relay(
                AppRequest {
                    id: q.id.clone(),
                    method: AppMethod::PaneSendBytes { pane_id, data_base64 },
                },
            ),
        }
    }

    /// Has the app paste an image into a pane.
    pub fn handle_paste_image(&self, q: &ControlRequest) -> (r: ControlStep)
        ensures
            r@ == self@.paste_image_step(q@),
    {
        if let Some(rejection) = self.capability_rejection(CAPABILITY_PASTE_IMAGE, q) {
            return ControlStep::Respond(rejection);
        }
        match q.agree(parse_paste_image_params(&q.params)) {
            Err(e) => ControlStep::Respond(
                invalid_params(q.id.as_str(), PANE_PASTE_IMAGE_METHOD, e.as_str()),
            ),
            Ok((pane_id, extension, data_base64)) => ControlStep::Relay(
                AppRequest {
                    id: q.id.clone(),
                    method: AppMethod::PanePasteImage { pane_id, extension, data_base64 },
                },
            ),
        }
    }

    /// Has the app take a snapshot, anchored at the sequence before it.
    pub fn handle_session_snapshot(&self, q: &ControlRequest, sequence: u64) -> (r: ControlStep)
        ensures
            r@ == self@.snapshot_step(q@, sequence),
    {
        if let Some(rejection) = self.capability_rejection(CAPABILITY_CATALOG, q) {
            return ControlStep::Respond(rejection);
        }
        ControlStep::Anchor {
            request: AppRequest { id: q.id.clone(), method: AppMethod::SessionSnapshot },
            sequence,
        }
    }

    /// Takes an API request out of its envelope.
    pub fn handle_api_request(&self, q: &ControlRequest) -> (r: ControlStep)
        ensures
            r@ == self@.api_step(q@),
    {
        if let Some(rejection) = self.capability_rejection(CAPABILITY_CATALOG, q) {
            return ControlStep::Respond(rejection);
        }
        match q.params.get("request") {
            None => ControlStep::Respond(
                error_response(
                    q.id.as_str(),
                    "invalid_params",
                    "api.request params carry no request",
                    None,
                ),
            ),
            Some(request) => ControlStep::Forward {
                id: q.id.clone(),
                request: crate::json::copy_json(request),
            },
        }
    }

    /// Handles one control request. `sequence` is the newest event's.
    pub fn handle_control_request(
        &mut self,
        q: &ControlRequest,
        ids: &mut StreamIds,
        sequence: u64,
        version: &str,
    ) -> (r: ControlStep)
        requires
            old(self).wf(),
        ensures
            final(self).wf(),
            final(self)@ == old(self)@.after_control(q@),
            final(ids).next == old(self)@.next_after(q@, old(ids).next),
            r@ == old(self)@.control_step(q@, old(ids).next, sequence, version@),
            q.method@ == STREAM_HISTORY_METHOD@ ==> old(self)@.serves(q@),
    {
        proof {
            history_is_another_method();
        }
        let method = q.method.as_str();
        proof {
            reveal_strlit("ping");
            reveal_strlit("stream.open");
            reveal_strlit("stream.close");
        }
        if same(method, PING_METHOD) {
            let result = object3(
                "type",
                Json::from_text("pong"),
                "version",
                Json::from_text(version),
                "protocol",
                Json::Unsigned(self.session.protocol as u64),
            );
            ControlStep::Respond(result_response(q.id.as_str(), result))
        } else if same(method, STREAM_OPEN_METHOD) {
            self.handle_stream_open(q, ids)
        } else if same(method, STREAM_CLOSE_METHOD) {
            self.handle_stream_close(q)
        } else if same(method, STREAM_RESIZE_METHOD) {
            self.handle_stream_resize(q)
        } else if same(method, STREAM_SCROLL_METHOD) {
            self.handle_stream_scroll(q)
        } else if same(method, STREAM_HISTORY_METHOD) {
            self.handle_stream_history(q)
        } else if same(method, PANE_SEND_BYTES_METHOD) {
            self.handle_send_bytes(q)
        } else if same(method, PANE_PASTE_IMAGE_METHOD) {
            self.handle_paste_image(q)
        } else if same(method, SESSION_SNAPSHOT_METHOD) {
            self.handle_session_snapshot(q, sequence)
        } else if same(method, API_REQUEST_METHOD) {
            self.handle_api_request(q)
        } else if same(method, SESSION_HELLO_METHOD) {
            ControlStep::Respond(
                error_response(
                    q.id.as_str(),
                    "invalid_request",
                    "session.hello was already negotiated on this connection",
                    None,
                ),
            )
        } else {
            let message = "unknown control method ".to_owned().concat(method);
            ControlStep::Respond(
                error_response(q.id.as_str(), "unknown_method", message.as_str(), None),
            )
        }
    }

    /// Handles the payload of one control frame. One that carries no request
    /// is answered with an error, and changes nothing.
    pub fn handle_control_frame(
        &mut self,
        payload: &[u8],
        objections: &Objections,
        ids: &mut StreamIds,
        sequence: u64,
        version: &str,
    ) -> (r: ControlStep)
        requires
            old(self).wf(),
        ensures
            final(self).wf(),
            match request_read(payload@, *objections) {
                Err(e) => *final(self) == *old(self) && final(ids).next == old(ids).next && r@
                    == unreadable_step(e),
                Ok(q) => {
                    &&& final(self)@ == old(self)@.after_control(q)
                    &&& final(ids).next == old(self)@.next_after(q, old(ids).next)
                    &&& r@ == old(self)@.control_step(q, old(ids).next, sequence, version@)
                },
            },
    {
        match read_control_request(payload, objections) {
            Err(e) => {
                proof {
                    reveal_strlit("");
                    assert(""@ =~= Seq::<char>::empty());
                }
                let message = "invalid control request: ".to_owned().concat(e.as_str());
                ControlStep::Respond(error_response("", "invalid_request", message.as_str(), None))
            },
            Ok(q) => self.handle_control_request(&q, ids, sequence, version),
        }
    }
}

/// A `stream.history` is no other request that comes before it.
pub proof fn history_is_another_method()
    ensures
        STREAM_HISTORY_METHOD@ != PING_METHOD@,
        STREAM_HISTORY_METHOD@ != STREAM_OPEN_METHOD@,
        STREAM_HISTORY_METHOD@ != STREAM_CLOSE_METHOD@,
        STREAM_HISTORY_METHOD@ != STREAM_RESIZE_METHOD@,
        STREAM_HISTORY_METHOD@ != STREAM_SCROLL_METHOD@,
{
    reveal_strlit("stream.history");
    reveal_strlit("ping");
    reveal_strlit("stream.open");
    reveal_strlit("stream.close");
    reveal_strlit("stream.resize");
    reveal_strlit("stream.scroll");
    assert(PING_METHOD@.len() != STREAM_HISTORY_METHOD@.len());
    assert(STREAM_OPEN_METHOD@[7] != STREAM_HISTORY_METHOD@[7]);
    assert(STREAM_CLOSE_METHOD@[7] != STREAM_HISTORY_METHOD@[7]);
    assert(STREAM_RESIZE_METHOD@[7] != STREAM_HISTORY_METHOD@[7]);
    assert(STREAM_SCROLL_METHOD@[7] != STREAM_HISTORY_METHOD@[7]);
}

/// What a frame from the client comes to.
#[derive(Debug)]
pub enum FrameStep {
    Control(ControlStep),
    /// Answer, then end the session: the client is out of step.
    Desynchronized(Json),
}

impl FramedSession {
    /// Handles one frame from the client. Data frames flow the other way
    /// only, so one from the client ends the session.
    pub fn handle_frame(
        &mut self,
        frame: &Frame,
        objections: &Objections,
        ids: &mut StreamIds,
        sequence: u64,
        version: &str,
    ) -> (r: FrameStep)
        requires
            old(self).wf(),
        ensures
            final(self).wf(),
            match (frame.frame_type, r) {
                (FrameType::Data, FrameStep::Desynchronized(reply)) => *final(self) == *old(self)
                    && final(ids).next == old(ids).next && reply@ == stray_data_view(
                    frame.stream_id,
                ),
                (FrameType::Control, FrameStep::Control(step)) => match request_read(
                    frame.payload@,
                    *objections,
                ) {
                    Err(e) => *final(self) == *old(self) && final(ids).next == old(ids).next
                        && step@ == unreadable_step(e),
                    Ok(q) => {
                        &&& final(self)@ == old(self)@.after_control(q)
                        &&& final(ids).next == old(self)@.next_after(q, old(ids).next)
                        &&& step@ == old(self)@.control_step(q, old(ids).next, sequence, version@)
                    },
                },
                _ => false,
            },
    {
        match frame.frame_type {
            FrameType::Data => FrameStep::Desynchronized(stray_data_response(frame.stream_id)),
            FrameType::Control => FrameStep::Control(
                self.handle_control_frame(
                    frame.payload.as_slice(),
                    objections,
                    ids,
                    sequence,
                    version,
                ),
            ),
        }
    }
}

/// What a frame that carries no request comes to.
pub open spec fn unreadable_step(why: Seq<char>) -> StepModel {
    StepModel::Respond(
        error_view(
            Seq::empty(),
            "invalid_request"@,
            "invalid control request: "@ + why,
            None,
        ),
    )
}

/// Whether a cursor is a place in a capture.
pub fn cursor_fits(cursor: &HistoryCursor, history: &PaneStreamHistory) -> (r: bool)
    ensures
        r == fits(cursor@, history@),
{
    let content = history.content.as_str();
    same(cursor.pane_id.as_str(), history.pane_id.as_str()) && cursor.sequence == history.sequence
        && cursor.offset <= content.as_bytes().len() as u64 && content.is_char_boundary(
        cursor.offset as usize,
    )
}

/// Serves the page before a cursor.
pub fn serve_page(id: &str, cursor: &HistoryCursor, content: &str, budget: usize) -> (r: Json)
    requires
        budget > 0,
        cursor.offset <= encode_utf8(content@).len(),
        is_char_boundary(encode_utf8(content@), cursor.offset as int),
    ensures
        r@ == page_answer(id@, cursor@, content@, budget as int),
        budget <= HISTORY_PAGE_SERVED_MAX_BYTES && short_names(id@, cursor.pane_id@) ==> page_fits(
            id@,
            cursor@,
            content@,
            budget as int,
        ),
{
    let bytes: usize = content.as_bytes().len();
    let end: usize = if cursor.offset <= bytes as u64 {
        cursor.offset as usize
    } else {
        bytes
    };
    let start: usize = history_page_start(content, end, budget);
    proof {
        encode_utf8_valid_utf8(content@);
        if end > 0 {
            pages_make_progress(content@, end as int, budget as int);
        } else {
            is_char_boundary_start_end_of_seq(encode_utf8(content@));
        }
    }
    let page = page_of(content, start, end);
    let next = if start > 0 {
        let c = HistoryCursor {
            pane_id: cursor.pane_id.clone(),
            sequence: cursor.sequence,
            stream_id: cursor.stream_id,
            offset: start as u64,
        };
        Json::Text(encode_history_cursor(&c))
    } else {
        Json::Null
    };
    let m = with_member(no_members(), "type", Json::from_text("stream_history"));
    let m = with_member(m, "stream_id", Json::Unsigned(cursor.stream_id as u64));
    let m = with_member(m, "content", Json::from_text(page.as_str()));
    let m = with_member(m, "next_cursor", next);
    let m = with_member(m, "at_top", Json::Bool(start == 0));
    let m = with_member(
        m,
        "end_cut_mid_line",
        Json::Bool(history_page_end_cut_mid_line(content, end)),
    );
    let ghost expected = page_view(id@, cursor@, content@, budget as int);
    proof {
        assert(expected->Object_0[1].1->Object_0 =~= members_view(m@));
    }
    let response = result_response(id, Json::object(m));
    proof {
        assert(expected->Object_0 =~= response@->Object_0);
    }
    let payload = encode_json(&response);
    proof {
        assert(response@ == expected);
        if budget <= HISTORY_PAGE_SERVED_MAX_BYTES && short_names(id@, cursor.pane_id@) {
            pages_take_little_room(id@, cursor@, content@, budget as int);
        }
    }
    if payload.len() > MAX_FRAME_PAYLOAD {
        return error_response(
            id,
            "history_page_too_large",
            "history page encodes larger than the frame limit; retry with a smaller max_bytes",
            None,
        );
    }
    response
}

} // verus!
