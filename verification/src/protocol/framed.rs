//! Frames, methods, events and negotiation of the framed protocol.
use crate::json::{members_view, no_members, object3, with_member, Json, JsonView};
use crate::text::{holds_is_contains, list_holds, same, texts};
use base64::Engine;
use vstd::prelude::*;
use vstd::string::*;

verus! {

pub const SESSION_HELLO_METHOD: &'static str = "session.hello";

pub const PING_METHOD: &'static str = "ping";

pub const STREAM_OPEN_METHOD: &'static str = "stream.open";

pub const STREAM_CLOSE_METHOD: &'static str = "stream.close";

pub const STREAM_RESIZE_METHOD: &'static str = "stream.resize";

pub const STREAM_SCROLL_METHOD: &'static str = "stream.scroll";

pub const STREAM_HISTORY_METHOD: &'static str = "stream.history";

pub const PANE_SEND_BYTES_METHOD: &'static str = "pane.send_bytes";

pub const PANE_PASTE_IMAGE_METHOD: &'static str = "pane.paste_image";

pub const SESSION_SNAPSHOT_METHOD: &'static str = "session.snapshot";

pub const API_REQUEST_METHOD: &'static str = "api.request";

pub const STREAM_CLOSED_EVENT: &'static str = "stream.closed";

pub const STREAM_REVOKED_EVENT: &'static str = "stream.revoked";

pub const NOTIFICATION_POSTED_EVENT: &'static str = "notification.posted";

pub const WINDOW_TITLE_CHANGED_EVENT: &'static str = "window_title.changed";

pub const CATALOG_EVENT: &'static str = "catalog.event";

pub const CATALOG_RESYNC_EVENT: &'static str = "catalog.resync";

pub const SERVER_STOPPING_EVENT: &'static str = "server.stopping";

pub const SERVER_STOPPING_REASON_EMPTY: &'static str = "empty";

pub const SERVER_STOPPING_REASON_REQUESTED: &'static str = "requested";

pub const CAPABILITY_PANE_STREAM: &'static str = "pane-stream";

pub const CAPABILITY_PASTE_IMAGE: &'static str = "paste-image";

pub const CAPABILITY_NOTIFICATION: &'static str = "notification";

pub const CAPABILITY_WINDOW_TITLE: &'static str = "window-title";

pub const CAPABILITY_CATALOG: &'static str = "catalog";

pub const PROTOCOL_OUT_OF_WINDOW_CODE: &'static str = "protocol_out_of_window";

pub const PANE_WRITE_LOCKED_ERROR: &'static str = "pane_write_locked";

pub const STREAM_OVERLOADED_ERROR: &'static str = "stream_overloaded";

/// The stream id of control frames.
pub const CONTROL_STREAM_ID: u32 = 0;

/// What a frame carries.
#[derive(Clone, Copy, PartialEq, Eq, Structural, Debug)]
pub enum FrameType {
    Control,
    Data,
}

/// One frame.
#[derive(Clone, PartialEq, Eq, Debug)]
pub struct Frame {
    pub frame_type: FrameType,
    pub stream_id: u32,
    pub payload: Vec<u8>,
}

/// Whether a stream may change its pane.
#[derive(Clone, Copy, PartialEq, Eq, Structural, Debug)]
pub enum StreamMode {
    Read,
    Write,
}

/// Which side has to be upgraded for two version windows to overlap.
#[derive(Clone, Copy, PartialEq, Eq, Structural, Debug)]
pub enum HelloRemedy {
    UpgradeClient,
    UpgradeServer,
}

impl HelloRemedy {
    pub open spec fn wire(self) -> Seq<char> {
        match self {
            HelloRemedy::UpgradeClient => "upgrade_client"@,
            HelloRemedy::UpgradeServer => "upgrade_server"@,
        }
    }

    pub fn as_str(self) -> (r: &'static str)
        ensures
            r@ == self.wire(),
    {
        match self {
            HelloRemedy::UpgradeClient => "upgrade_client",
            HelloRemedy::UpgradeServer => "upgrade_server",
        }
    }
}

/// What a client and a server agreed on.
#[derive(Clone, PartialEq, Eq, Debug)]
pub struct NegotiatedSession {
    pub protocol: u32,
    pub capabilities: Vec<String>,
}

impl NegotiatedSession {
    pub open spec fn grants(self, capability: Seq<char>) -> bool {
        texts(self.capabilities@).contains(capability)
    }

    pub fn has_capability(&self, capability: &str) -> (r: bool)
        ensures
            r == self.grants(capability@),
    {
        proof {
            holds_is_contains(self.capabilities@, capability@);
        }
        list_holds(&self.capabilities, capability)
    }
}

/// A server's answer to a hello.
#[derive(Clone, PartialEq, Eq, Debug)]
pub struct SessionWelcome {
    pub protocol: u32,
    pub min_protocol: u32,
    pub capabilities: Vec<String>,
    pub server_version: String,
}

/// An error answer.
#[derive(Debug)]
pub struct ControlError {
    pub code: String,
    pub message: String,
    /// The side that has to be upgraded, where the error names one.
    pub remedy: Option<HelloRemedy>,
}

/// The digits of base64.
pub const BASE64_DIGITS: &'static str =
    "ABCDEFGHIJKLMNOPQRSTUVWXYZabcdefghijklmnopqrstuvwxyz0123456789+/";

/// The low six bits of a number, as a digit.
pub open spec fn base64_digit(n: int) -> char {
    BASE64_DIGITS@[n % 64]
}

/// Bytes in standard base64: four digits for every three bytes, the last of
/// them filled up.
pub open spec fn base64_text(bytes: Seq<u8>) -> Seq<char>
    decreases bytes.len(),
{
    if bytes.len() == 0 {
        Seq::empty()
    } else if bytes.len() == 1 {
        let n = bytes[0] * 16;
        seq![base64_digit(n / 64), base64_digit(n), '=', '=']
    } else if bytes.len() == 2 {
        let n = (bytes[0] * 256 + bytes[1]) * 4;
        seq![base64_digit(n / 4096), base64_digit(n / 64), base64_digit(n), '=']
    } else {
        let n = bytes[0] * 65536 + bytes[1] * 256 + bytes[2];
        seq![
            base64_digit(n / 262144),
            base64_digit(n / 4096),
            base64_digit(n / 64),
            base64_digit(n),
        ] + base64_text(bytes.skip(3))
    }
}

/// `base64`'s standard engine, `Engine::encode`: the standard digits, with
/// padding. It fails only on a length that no slice can have.
#[verifier::external_body]
pub(crate) fn base64_encode(bytes: &[u8]) -> (r: String)
    ensures
        r@ == base64_text(bytes@),
{
    base64::engine::general_purpose::STANDARD.encode(bytes)
}

/// A control request.
pub open spec fn request_view(
    id: Seq<char>,
    method: Seq<char>,
    params: Seq<(Seq<char>, JsonView)>,
) -> JsonView {
    JsonView::Object(
        seq![
            ("id"@, JsonView::Text(id)),
            ("method"@, JsonView::Text(method)),
            ("params"@, JsonView::Object(params)),
        ],
    )
}

/// Builds a control request.
pub fn control_request(id: &str, method: &str, params: Vec<(String, Json)>) -> (r: Json)
    ensures
        r@ == request_view(id@, method@, members_view(params@)),
{
    object3(
        "id",
        Json::from_text(id),
        "method",
        Json::from_text(method),
        "params",
        Json::object(params),
    )
}

/// Asks for a full catalog snapshot.
pub fn session_snapshot_request(id: &str) -> (r: Json)
    ensures
        r@ == request_view(id@, SESSION_SNAPSHOT_METHOD@, Seq::empty()),
{
    control_request(id, SESSION_SNAPSHOT_METHOD, no_members())
}

/// A heartbeat.
pub fn ping_request(id: &str) -> (r: Json)
    ensures
        r@ == request_view(id@, PING_METHOD@, Seq::empty()),
{
    control_request(id, PING_METHOD, no_members())
}

pub open spec fn close_view(id: Seq<char>, stream_id: u32) -> JsonView {
    request_view(
        id,
        STREAM_CLOSE_METHOD@,
        seq![("stream_id"@, JsonView::Unsigned(stream_id as u64))],
    )
}

/// Closes a stream.
pub fn stream_close_request(id: &str, stream_id: u32) -> (r: Json)
    ensures
        r@ == close_view(id@, stream_id),
{
    let p = with_member(no_members(), "stream_id", Json::Unsigned(stream_id as u64));
    assert(members_view(p@) =~= seq![("stream_id"@, JsonView::Unsigned(stream_id as u64))]);
    control_request(id, STREAM_CLOSE_METHOD, p)
}

pub open spec fn mode_text(mode: StreamMode) -> Seq<char> {
    match mode {
        StreamMode::Read => "read"@,
        StreamMode::Write => "write"@,
    }
}

/// A number that is there only when known.
pub open spec fn maybe_number(key: Seq<char>, value: Option<u16>) -> Seq<(Seq<char>, JsonView)> {
    match value {
        Some(n) => seq![(key, JsonView::Unsigned(n as u64))],
        None => Seq::empty(),
    }
}

pub open spec fn open_view(
    id: Seq<char>,
    pane_id: Seq<char>,
    mode: StreamMode,
    takeover: bool,
    cols: Option<u16>,
    rows: Option<u16>,
) -> JsonView {
    request_view(
        id,
        STREAM_OPEN_METHOD@,
        seq![
            ("pane_id"@, JsonView::Text(pane_id)),
            ("mode"@, JsonView::Text(mode_text(mode))),
            ("takeover"@, JsonView::Bool(takeover)),
        ] + maybe_number("cols"@, cols) + maybe_number("rows"@, rows),
    )
}

fn with_number(members: Vec<(String, Json)>, key: &str, value: Option<u16>) -> (r: Vec<
    (String, Json),
>)
    ensures
        members_view(r@) == members_view(members@) + maybe_number(key@, value),
{
    match value {
        Some(n) => {
            let r = with_member(members, key, Json::Unsigned(n as u64));
            assert(members_view(r@) =~= members_view(members@) + maybe_number(key@, value));
            r
        },
        None => {
            assert(members_view(members@) =~= members_view(members@) + maybe_number(key@, value));
            members
        },
    }
}

/// Opens a stream on a pane.
pub fn stream_open_request(
    id: &str,
    pane_id: &str,
    mode: StreamMode,
    takeover: bool,
    cols: Option<u16>,
    rows: Option<u16>,
) -> (r: Json)
    ensures
        r@ == open_view(id@, pane_id@, mode, takeover, cols, rows),
{
    let mode_name = match mode {
        StreamMode::Read => "read",
        StreamMode::Write => "write",
    };
    let p = with_member(no_members(), "pane_id", Json::from_text(pane_id));
    let p = with_member(p, "mode", Json::from_text(mode_name));
    let p = with_member(p, "takeover", Json::Bool(takeover));
    assert(members_view(p@) =~= seq![
        ("pane_id"@, JsonView::Text(pane_id@)),
        ("mode"@, JsonView::Text(mode_text(mode))),
        ("takeover"@, JsonView::Bool(takeover)),
    ]);
    let p = with_number(with_number(p, "cols", cols), "rows", rows);
    control_request(id, STREAM_OPEN_METHOD, p)
}

pub open spec fn resize_view(
    id: Seq<char>,
    stream_id: u32,
    cols: u16,
    rows: u16,
    cell_width_px: u32,
    cell_height_px: u32,
) -> JsonView {
    request_view(
        id,
        STREAM_RESIZE_METHOD@,
        seq![
            ("stream_id"@, JsonView::Unsigned(stream_id as u64)),
            ("cols"@, JsonView::Unsigned(cols as u64)),
            ("rows"@, JsonView::Unsigned(rows as u64)),
            ("cell_width_px"@, JsonView::Unsigned(cell_width_px as u64)),
            ("cell_height_px"@, JsonView::Unsigned(cell_height_px as u64)),
        ],
    )
}

/// Resizes the pane behind a write stream.
pub fn stream_resize_request(
    id: &str,
    stream_id: u32,
    cols: u16,
    rows: u16,
    cell_width_px: u32,
    cell_height_px: u32,
) -> (r: Json)
    ensures
        r@ == resize_view(id@, stream_id, cols, rows, cell_width_px, cell_height_px),
{
    let p = with_member(no_members(), "stream_id", Json::Unsigned(stream_id as u64));
    let p = with_member(p, "cols", Json::Unsigned(cols as u64));
    let p = with_member(p, "rows", Json::Unsigned(rows as u64));
    let p = with_member(p, "cell_width_px", Json::Unsigned(cell_width_px as u64));
    let p = with_member(p, "cell_height_px", Json::Unsigned(cell_height_px as u64));
    assert(members_view(p@) =~= seq![
        ("stream_id"@, JsonView::Unsigned(stream_id as u64)),
        ("cols"@, JsonView::Unsigned(cols as u64)),
        ("rows"@, JsonView::Unsigned(rows as u64)),
        ("cell_width_px"@, JsonView::Unsigned(cell_width_px as u64)),
        ("cell_height_px"@, JsonView::Unsigned(cell_height_px as u64)),
    ]);
    control_request(id, STREAM_RESIZE_METHOD, p)
}

/// Which way a scroll goes.
#[derive(Clone, Copy, PartialEq, Eq, Structural, Debug)]
pub enum StreamScrollDirection {
    Up,
    Down,
}

/// What caused a scroll.
#[derive(Clone, Copy, PartialEq, Eq, Structural, Debug)]
pub enum StreamScrollSource {
    Wheel,
    PageKey,
}

/// A scroll of the pane behind a write stream.
#[derive(Clone, Copy, PartialEq, Eq, Structural, Debug)]
pub struct StreamScrollParams {
    pub stream_id: u32,
    pub direction: StreamScrollDirection,
    pub lines: u16,
    pub source: StreamScrollSource,
    pub column: Option<u16>,
    pub row: Option<u16>,
    pub modifiers: u8,
}

pub open spec fn scroll_direction_text(d: StreamScrollDirection) -> Seq<char> {
    match d {
        StreamScrollDirection::Up => "up"@,
        StreamScrollDirection::Down => "down"@,
    }
}

pub open spec fn scroll_source_text(s: StreamScrollSource) -> Seq<char> {
    match s {
        StreamScrollSource::Wheel => "wheel"@,
        StreamScrollSource::PageKey => "page_key"@,
    }
}

pub open spec fn scroll_view(id: Seq<char>, p: StreamScrollParams) -> JsonView {
    request_view(
        id,
        STREAM_SCROLL_METHOD@,
        seq![
            ("stream_id"@, JsonView::Unsigned(p.stream_id as u64)),
            ("direction"@, JsonView::Text(scroll_direction_text(p.direction))),
            ("lines"@, JsonView::Unsigned(p.lines as u64)),
            ("source"@, JsonView::Text(scroll_source_text(p.source))),
            ("modifiers"@, JsonView::Unsigned(p.modifiers as u64)),
        ] + maybe_number("column"@, p.column) + maybe_number("row"@, p.row),
    )
}

/// Scrolls the pane behind a write stream.
pub fn stream_scroll_request(id: &str, params: StreamScrollParams) -> (r: Json)
    ensures
        r@ == scroll_view(id@, params),
{
    let direction = match params.direction {
        StreamScrollDirection::Up => "up",
        StreamScrollDirection::Down => "down",
    };
    let source = match params.source {
        StreamScrollSource::Wheel => "wheel",
        StreamScrollSource::PageKey => "page_key",
    };
    let p = with_member(no_members(), "stream_id", Json::Unsigned(params.stream_id as u64));
    let p = with_member(p, "direction", Json::from_text(direction));
    let p = with_member(p, "lines", Json::Unsigned(params.lines as u64));
    let p = with_member(p, "source", Json::from_text(source));
    let p = with_member(p, "modifiers", Json::Unsigned(params.modifiers as u64));
    assert(members_view(p@) =~= seq![
        ("stream_id"@, JsonView::Unsigned(params.stream_id as u64)),
        ("direction"@, JsonView::Text(scroll_direction_text(params.direction))),
        ("lines"@, JsonView::Unsigned(params.lines as u64)),
        ("source"@, JsonView::Text(scroll_source_text(params.source))),
        ("modifiers"@, JsonView::Unsigned(params.modifiers as u64)),
    ]);
    let p = with_number(with_number(p, "column", params.column), "row", params.row);
    control_request(id, STREAM_SCROLL_METHOD, p)
}

pub open spec fn send_bytes_view(id: Seq<char>, pane_id: Seq<char>, bytes: Seq<u8>) -> JsonView {
    request_view(
        id,
        PANE_SEND_BYTES_METHOD@,
        seq![
            ("pane_id"@, JsonView::Text(pane_id)),
            ("data_base64"@, JsonView::Text(base64_text(bytes))),
        ],
    )
}

/// Sends bytes to a pane.
pub fn pane_send_bytes_request(id: &str, pane_id: &str, bytes: &[u8]) -> (r: Json)
    ensures
        r@ == send_bytes_view(id@, pane_id@, bytes@),
{
    let p = with_member(no_members(), "pane_id", Json::from_text(pane_id));
    let p = with_member(p, "data_base64", Json::Text(base64_encode(bytes)));
    assert(members_view(p@) =~= seq![
        ("pane_id"@, JsonView::Text(pane_id@)),
        ("data_base64"@, JsonView::Text(base64_text(bytes@))),
    ]);
    control_request(id, PANE_SEND_BYTES_METHOD, p)
}

pub open spec fn paste_image_view(
    id: Seq<char>,
    pane_id: Seq<char>,
    extension: Seq<char>,
    bytes: Seq<u8>,
) -> JsonView {
    request_view(
        id,
        PANE_PASTE_IMAGE_METHOD@,
        seq![
            ("pane_id"@, JsonView::Text(pane_id)),
            ("extension"@, JsonView::Text(extension)),
            ("data_base64"@, JsonView::Text(base64_text(bytes))),
        ],
    )
}

/// Pastes an image into a pane.
pub fn pane_paste_image_request(id: &str, pane_id: &str, extension: &str, bytes: &[u8]) -> (r: Json)
    ensures
        r@ == paste_image_view(id@, pane_id@, extension@, bytes@),
{
    let p = with_member(no_members(), "pane_id", Json::from_text(pane_id));
    let p = with_member(p, "extension", Json::from_text(extension));
    let p = with_member(p, "data_base64", Json::Text(base64_encode(bytes)));
    assert(members_view(p@) =~= seq![
        ("pane_id"@, JsonView::Text(pane_id@)),
        ("extension"@, JsonView::Text(extension@)),
        ("data_base64"@, JsonView::Text(base64_text(bytes@))),
    ]);
    control_request(id, PANE_PASTE_IMAGE_METHOD, p)
}

/// A request for the method behind the session API.
pub open spec fn api_view(id: Seq<char>, request: JsonView) -> JsonView {
    request_view(id, API_REQUEST_METHOD@, seq![("request"@, request)])
}

/// Wraps an API request for the control plane.
pub fn api_control_request(id: &str, request: Json) -> (r: Json)
    ensures
        r@ == api_view(id@, request@),
{
    let p = with_member(no_members(), "request", request);
    assert(members_view(p@) =~= seq![("request"@, request@)]);
    control_request(id, API_REQUEST_METHOD, p)
}

pub open spec fn history_view(id: Seq<char>, cursor: Seq<char>, max_bytes: u64) -> JsonView {
    request_view(
        id,
        STREAM_HISTORY_METHOD@,
        seq![
            ("cursor"@, JsonView::Text(cursor)),
            ("max_bytes"@, JsonView::Unsigned(max_bytes)),
        ],
    )
}

/// Asks for one page of history.
pub fn stream_history_request(id: &str, cursor: &str, max_bytes: u64) -> (r: Json)
    ensures
        r@ == history_view(id@, cursor@, max_bytes),
{
    let p = with_member(no_members(), "cursor", Json::from_text(cursor));
    let p = with_member(p, "max_bytes", Json::Unsigned(max_bytes));
    assert(members_view(p@) =~= seq![
        ("cursor"@, JsonView::Text(cursor@)),
        ("max_bytes"@, JsonView::Unsigned(max_bytes)),
    ]);
    control_request(id, STREAM_HISTORY_METHOD, p)
}

/// The mathematical value of an error answer.
pub struct ErrorModel {
    pub code: Seq<char>,
    pub message: Seq<char>,
    pub remedy: Option<HelloRemedy>,
}

impl View for ControlError {
    type V = ErrorModel;

    open spec fn view(&self) -> ErrorModel {
        ErrorModel { code: self.code@, message: self.message@, remedy: self.remedy }
    }
}

pub open spec fn remedy_of(t: Option<Seq<char>>) -> Option<HelloRemedy> {
    if t == Some("upgrade_client"@) {
        Some(HelloRemedy::UpgradeClient)
    } else if t == Some("upgrade_server"@) {
        Some(HelloRemedy::UpgradeServer)
    } else {
        None
    }
}

pub open spec fn text_or_empty(t: Option<Seq<char>>) -> Seq<char> {
    match t {
        Some(t) => t,
        None => Seq::empty(),
    }
}

/// The error an answer carries, if it is one.
pub open spec fn error_of(v: JsonView) -> Option<ErrorModel> {
    match v.field("error"@) {
        Some(e) => Some(
            ErrorModel {
                code: text_or_empty(e.text_field("code"@)),
                message: text_or_empty(e.text_field("message"@)),
                remedy: match e.field("data"@) {
                    Some(d) => remedy_of(d.text_field("remedy"@)),
                    None => None,
                },
            },
        ),
        None => None,
    }
}

fn owned_or_empty(t: Option<&str>) -> (r: String)
    ensures
        r@ == match t {
            Some(t) => t@,
            None => Seq::empty(),
        },
{
    match t {
        Some(t) => t.to_owned(),
        None => String::new(),
    }
}

/// The error an answer carries, if it is one.
pub fn control_error(response: &Json) -> (r: Option<ControlError>)
    ensures
        match r {
            Some(e) => error_of(response@) == Some(e@),
            None => error_of(response@) is None,
        },
{
    proof {
        reveal_strlit("upgrade_client");
        reveal_strlit("upgrade_server");
        assert("upgrade_client"@[8] != "upgrade_server"@[8]);
    }
    match response.get("error") {
        Some(error) => {
            let remedy = match error.get("data") {
                Some(data) => match data.text_of("remedy") {
                    Some(t) => {
                        if same(t, "upgrade_client") {
                            Some(HelloRemedy::UpgradeClient)
                        } else if same(t, "upgrade_server") {
                            Some(HelloRemedy::UpgradeServer)
                        } else {
                            None
                        }
                    },
                    None => None,
                },
                None => None,
            };
            Some(
                ControlError {
                    code: owned_or_empty(error.text_of("code")),
                    message: owned_or_empty(error.text_of("message")),
                    remedy,
                },
            )
        },
        None => None,
    }
}

/// The texts of an array; anything else in it fails.
pub open spec fn text_items(v: Seq<JsonView>) -> Option<Seq<Seq<char>>> {
    if forall|i: int| 0 <= i < v.len() ==> (#[trigger] v[i]).text() is Some {
        Some(v.map_values(|j: JsonView| text_or_empty(j.text())))
    } else {
        None
    }
}

/// A welcome as its model.
pub struct WelcomeModel {
    pub protocol: u32,
    pub min_protocol: u32,
    pub capabilities: Seq<Seq<char>>,
    pub server_version: Seq<char>,
}

impl View for SessionWelcome {
    type V = WelcomeModel;

    open spec fn view(&self) -> WelcomeModel {
        WelcomeModel {
            protocol: self.protocol,
            min_protocol: self.min_protocol,
            capabilities: texts(self.capabilities@),
            server_version: self.server_version@,
        }
    }
}

/// A number that fits 32 bits.
pub open spec fn small(n: Option<u64>) -> Option<u32> {
    match n {
        Some(n) => if n <= u32::MAX {
            Some(n as u32)
        } else {
            None
        },
        None => None,
    }
}

/// The type that every welcome states.
pub const WELCOME_TYPE: &'static str = "session.welcome";

/// The welcome an answer carries, if it is one.
pub open spec fn welcome_of(v: JsonView) -> Option<WelcomeModel> {
    match v.field("result"@) {
        Some(r) => if r.text_field("type"@) != Some(WELCOME_TYPE@) {
            None
        } else {
            match (
                small(r.unsigned_field("protocol"@)),
                small(r.unsigned_field("min_protocol"@)),
                r.field("capabilities"@),
                r.text_field("server_version"@),
            ) {
                (
                    Some(protocol),
                    Some(min_protocol),
                    Some(JsonView::Array(items)),
                    Some(server_version),
                ) => match text_items(items) {
                    Some(capabilities) => Some(
                        WelcomeModel { protocol, min_protocol, capabilities, server_version },
                    ),
                    None => None,
                },
                _ => None,
            }
        },
        None => None,
    }
}

fn small_number(n: Option<u64>) -> (r: Option<u32>)
    ensures
        r == small(n),
{
    match n {
        Some(n) => {
            if n <= u32::MAX as u64 {
                Some(n as u32)
            } else {
                None
            }
        },
        None => None,
    }
}

/// The texts of an array.
pub(crate) fn text_list(items: &Vec<Json>) -> (r: Option<Vec<String>>)
    ensures
        match r {
            Some(list) => text_items(crate::json::items_view(items@)) == Some(texts(list@)),
            None => text_items(crate::json::items_view(items@)) is None,
        },
{
    let ghost all = crate::json::items_view(items@);
    let mut out: Vec<String> = Vec::new();
    let mut i: usize = 0;
    while i < items.len()
        invariant
            i <= items@.len(),
            all == crate::json::items_view(items@),
            out@.len() == i,
            forall|j: int| 0 <= j < i ==> (#[trigger] all[j]).text() == Some(out@[j]@),
        decreases items@.len() - i,
    {
        assert(all[i as int] == items@[i as int]@);
        match items[i].as_str() {
            Some(t) => out.push(t.to_owned()),
            None => {
                assert(all[i as int].text() is None);
                return None;
            },
        }
        i = i + 1;
    }
    assert(texts(out@) =~= all.map_values(|j: JsonView| text_or_empty(j.text())));
    Some(out)
}

/// The answer is no welcome.
pub const NOT_A_WELCOME: &'static str = "session.hello answer was not a session welcome";

/// Reads a welcome.
pub fn parse_session_welcome(response: &Json) -> (r: Result<SessionWelcome, String>)
    ensures
        match r {
            Ok(w) => welcome_of(response@) == Some(w@),
            Err(e) => welcome_of(response@) is None && e@ == NOT_A_WELCOME@,
        },
{
    if let Some(result) = response.get("result") {
        if let Some(kind) = result.text_of("type") {
            if same(kind, WELCOME_TYPE) {
                let protocol = small_number(result.unsigned_of("protocol"));
                let min_protocol = small_number(result.unsigned_of("min_protocol"));
                if let (Some(protocol), Some(min_protocol), Some(version)) = (
                    protocol,
                    min_protocol,
                    result.text_of("server_version"),
                ) {
                    if let Some(capabilities) = result.get("capabilities") {
                        if let Json::Array(items) = capabilities {
                            proof {
                                crate::json::array_view(*items);
                            }
                            if let Some(capabilities) = text_list(items) {
                                return Ok(
                                    SessionWelcome {
                                        protocol,
                                        min_protocol,
                                        capabilities,
                                        server_version: version.to_owned(),
                                    },
                                );
                            }
                        }
                    }
                }
            }
        }
    }
    Err(NOT_A_WELCOME.to_owned())
}

/// A stream that a server opened.
#[derive(Clone, PartialEq, Eq, Debug)]
pub struct StreamOpened {
    pub pane_id: String,
    pub stream_id: u32,
    pub sequence: u64,
    pub snapshot: String,
    /// Empty when there is no older history.
    pub history_cursor: String,
    /// Zero when unknown.
    pub cols: u16,
    /// Zero when unknown.
    pub rows: u16,
}

pub struct OpenedModel {
    pub pane_id: Seq<char>,
    pub stream_id: u32,
    pub sequence: u64,
    pub snapshot: Seq<char>,
    pub history_cursor: Seq<char>,
    pub cols: u16,
    pub rows: u16,
}

impl View for StreamOpened {
    type V = OpenedModel;

    open spec fn view(&self) -> OpenedModel {
        OpenedModel {
            pane_id: self.pane_id@,
            stream_id: self.stream_id,
            sequence: self.sequence,
            snapshot: self.snapshot@,
            history_cursor: self.history_cursor@,
            cols: self.cols,
            rows: self.rows,
        }
    }
}

/// A cell count, zero when it is absent or out of range.
pub open spec fn cells(n: Option<u64>) -> u16 {
    match n {
        Some(n) => if n <= u16::MAX {
            n as u16
        } else {
            0
        },
        None => 0,
    }
}

fn cell_count(n: Option<u64>) -> (r: u16)
    ensures
        r == cells(n),
{
    match n {
        Some(n) => {
            if n <= u16::MAX as u64 {
                n as u16
            } else {
                0
            }
        },
        None => 0,
    }
}

/// The opened stream an answer carries, if it is one.
pub open spec fn opened_of(v: JsonView) -> Option<OpenedModel> {
    match v.field("result"@) {
        Some(r) => match r.field("stream"@) {
            Some(s) => match (
                s.text_field("pane_id"@),
                small(s.unsigned_field("stream_id"@)),
                s.unsigned_field("sequence"@),
                s.text_field("snapshot"@),
            ) {
                (Some(pane_id), Some(stream_id), Some(sequence), Some(snapshot)) => Some(
                    OpenedModel {
                        pane_id,
                        stream_id,
                        sequence,
                        snapshot,
                        history_cursor: text_or_empty(s.text_field("history_cursor"@)),
                        cols: cells(s.unsigned_field("cols"@)),
                        rows: cells(s.unsigned_field("rows"@)),
                    },
                ),
                _ => None,
            },
            None => None,
        },
        None => None,
    }
}

/// Reads the answer to a `stream.open`: the stream, the error it was refused
/// with, or nothing where it is neither.
pub fn parse_stream_opened(response: &Json) -> (r: Result<StreamOpened, Option<ControlError>>)
    ensures
        match r {
            Ok(opened) => error_of(response@) is None && opened_of(response@) == Some(opened@),
            Err(Some(e)) => error_of(response@) == Some(e@),
            Err(None) => error_of(response@) is None && opened_of(response@) is None,
        },
{
    if let Some(error) = control_error(response) {
        return Err(Some(error));
    }
    if let Some(result) = response.get("result") {
        if let Some(s) = result.get("stream") {
            if let (Some(pane_id), Some(stream_id), Some(sequence), Some(snapshot)) = (
                s.text_of("pane_id"),
                small_number(s.unsigned_of("stream_id")),
                s.unsigned_of("sequence"),
                s.text_of("snapshot"),
            ) {
                return Ok(
                    StreamOpened {
                        pane_id: pane_id.to_owned(),
                        stream_id,
                        sequence,
                        snapshot: snapshot.to_owned(),
                        history_cursor: owned_or_empty(s.text_of("history_cursor")),
                        cols: cell_count(s.unsigned_of("cols")),
                        rows: cell_count(s.unsigned_of("rows")),
                    },
                );
            }
        }
    }
    Err(None)
}

/// The snapshot and its event sequence anchor that an answer carries.
pub open spec fn snapshot_of(v: JsonView) -> Option<(JsonView, u64)> {
    match v.field("result"@) {
        Some(r) => match (r.field("snapshot"@), r.unsigned_field("sequence"@)) {
            (Some(snapshot), Some(sequence)) => Some((snapshot, sequence)),
            _ => None,
        },
        None => None,
    }
}

/// Reads the answer to a `session.snapshot`.
pub fn parse_session_snapshot(response: &Json) -> (r: Option<(&Json, u64)>)
    ensures
        match r {
            Some((snapshot, sequence)) => error_of(response@) is None && snapshot_of(response@)
                == Some((snapshot@, sequence)),
            None => error_of(response@) is Some || snapshot_of(response@) is None,
        },
{
    if response.get("error").is_some() {
        return None;
    }
    if let Some(result) = response.get("result") {
        if let (Some(snapshot), Some(sequence)) = (
            result.get("snapshot"),
            result.unsigned_of("sequence"),
        ) {
            return Some((snapshot, sequence));
        }
    }
    None
}

/// A welcome that lacks a capability the client cannot run without.
#[derive(Debug)]
pub struct HelloRefusal {
    pub message: String,
}

/// Why a welcome is not enough: it does not grant the catalog.
pub open spec fn session_refusal(w: WelcomeModel) -> Option<Seq<char>> {
    if w.capabilities.contains(CAPABILITY_CATALOG@) {
        None
    } else {
        Some("server "@ + w.server_version + " does not offer the catalog capability"@)
    }
}

/// Checks that a welcome grants what the client cannot run without.
pub fn check_session_capabilities(welcome: &SessionWelcome) -> (r: Option<HelloRefusal>)
    ensures
        match r {
            Some(e) => session_refusal(welcome@) == Some(e.message@),
            None => session_refusal(welcome@) is None,
        },
{
    proof {
        holds_is_contains(welcome.capabilities@, CAPABILITY_CATALOG@);
    }
    if list_holds(&welcome.capabilities, CAPABILITY_CATALOG) {
        None
    } else {
        Some(
            HelloRefusal {
                message: "server ".to_owned().concat(welcome.server_version.as_str()).concat(
                    " does not offer the catalog capability",
                ),
            },
        )
    }
}

} // verus!
