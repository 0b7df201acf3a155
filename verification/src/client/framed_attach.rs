//! An interactive attach to a pane over a framed session.
use crate::client_state::run::connect::{hello_view, hello_with};
use crate::json::{decode_json, items_view, json_parsed, Json, JsonView};
use crate::protocol::framed::{
    close_view, control_error, error_of, opened_of, pane_send_bytes_request, parse_session_welcome,
    parse_stream_opened, resize_view, scroll_view, send_bytes_view, stream_close_request,
    stream_resize_request, stream_scroll_request, welcome_of, ControlError, Frame, FrameType,
    SessionWelcome, StreamOpened, StreamScrollDirection, StreamScrollParams, StreamScrollSource,
    CAPABILITY_PANE_STREAM, STREAM_CLOSED_EVENT, STREAM_OVERLOADED_ERROR, STREAM_REVOKED_EVENT, WelcomeModel,
};
use crate::text::{decimal, decimal_text, holds_is_contains, list_holds, same};
use vstd::prelude::*;
use vstd::string::*;
use vstd::utf8::encode_utf8;

verus! {

/// Builds the request that opens an attach's session: pane streams are all
/// that it asks for.
pub fn attach_hello_request(id: &str, protocol: u32, min_protocol: u32) -> (r: Json)
    ensures
        r@ == hello_view(id@, protocol, min_protocol, seq![CAPABILITY_PANE_STREAM@]),
{
    let ghost capabilities = seq![CAPABILITY_PANE_STREAM@];
    let mut items: Vec<Json> = Vec::new();
    items.push(Json::from_text(CAPABILITY_PANE_STREAM));
    assert(items_view(items@) =~= capabilities.map_values(|c: Seq<char>| JsonView::Text(c)));
    hello_with(id, protocol, min_protocol, items, Ghost(capabilities))
}

/// The welcome that lets a pane be attached to, or why there is none.
pub open spec fn attachable(v: JsonView) -> Result<WelcomeModel, Seq<char>> {
    match (error_of(v), welcome_of(v)) {
        (Some(refusal), _) => Err("framed session rejected: "@ + refusal.message),
        (None, None) => Err(
            "framed session rejected: "@ + crate::protocol::framed::NOT_A_WELCOME@,
        ),
        (None, Some(w)) => if w.capabilities.contains(CAPABILITY_PANE_STREAM@) {
            Ok(w)
        } else {
            Err("server "@ + w.server_version + " does not advertise pane streams"@)
        },
    }
}

/// Reads the answer to a hello: a pane can be attached to only where pane
/// streams were granted.
pub fn accept_welcome(response: &Json) -> (r: Result<SessionWelcome, String>)
    ensures
        match r {
            Ok(w) => attachable(response@) == Ok::<WelcomeModel, Seq<char>>(w@),
            Err(e) => attachable(response@) == Err::<WelcomeModel, Seq<char>>(e@),
        },
{
    if let Some(refusal) = control_error(response) {
        return Err("framed session rejected: ".to_owned().concat(refusal.message.as_str()));
    }
    let welcome = match parse_session_welcome(response) {
        Ok(w) => w,
        Err(e) => return Err("framed session rejected: ".to_owned().concat(e.as_str())),
    };
    proof {
        holds_is_contains(welcome.capabilities@, CAPABILITY_PANE_STREAM@);
    }
    if !list_holds(&welcome.capabilities, CAPABILITY_PANE_STREAM) {
        return Err(
            "server ".to_owned().concat(welcome.server_version.as_str()).concat(
                " does not advertise pane streams",
            ),
        );
    }
    Ok(welcome)
}

/// How a `stream.open` came out.
#[derive(Debug)]
pub enum OpenOutcome {
    Opened(StreamOpened),
    /// The server refused; the session is still up.
    Refused(ControlError),
    /// The answer was neither.
    Invalid(String),
}

/// Reads the answer to a `stream.open`.
pub fn open_outcome(response: &Json) -> (r: OpenOutcome)
    ensures
        match r {
            OpenOutcome::Opened(o) => error_of(response@) is None && opened_of(response@) == Some(
                o@,
            ),
            OpenOutcome::Refused(e) => error_of(response@) == Some(e@),
            OpenOutcome::Invalid(e) => error_of(response@) is None && opened_of(response@) is None
                && e@ == "stream.open answer was not a pane stream"@,
        },
{
    match parse_stream_opened(response) {
        Ok(opened) => OpenOutcome::Opened(opened),
        Err(Some(error)) => OpenOutcome::Refused(error),
        Err(None) => OpenOutcome::Invalid("stream.open answer was not a pane stream".to_owned()),
    }
}

/// What a refused `stream.open` prints.
pub fn open_error_line(context: &str, error: &ControlError) -> (r: String)
    ensures
        r@ == "herdr: "@ + context@ + " failed: "@ + error.message@,
{
    "herdr: ".to_owned().concat(context).concat(" failed: ").concat(error.message.as_str())
}

/// Why an attach ended.
#[derive(Clone, Copy, PartialEq, Eq, Structural, Debug)]
pub enum AttachExit {
    /// The user left.
    Detached,
    /// The pane went away.
    PaneClosed,
    /// Another client took the write grant over.
    TakenOver,
    /// The connection ended.
    Disconnected,
}

impl AttachExit {
    /// What is printed, if anything.
    pub open spec fn line(self) -> Option<Seq<char>> {
        match self {
            AttachExit::Detached => None,
            AttachExit::PaneClosed => Some("herdr: pane closed"@),
            AttachExit::TakenOver => Some("herdr: terminal attach taken over"@),
            AttachExit::Disconnected => Some(
                "herdr: server connection closed; reattach once the server is back"@,
            ),
        }
    }

    /// Whether the command fails.
    pub open spec fn fails(self) -> bool {
        self == AttachExit::TakenOver || self == AttachExit::Disconnected
    }

    /// What is printed, if anything, and whether the command fails.
    pub fn report(self) -> (r: (Option<&'static str>, bool))
        ensures
            match r.0 {
                Some(t) => self.line() == Some(t@),
                None => self.line() is None,
            },
            r.1 == self.fails(),
    {
        match self {
            AttachExit::Detached => (None, false),
            AttachExit::PaneClosed => (Some("herdr: pane closed"), false),
            AttachExit::TakenOver => (Some("herdr: terminal attach taken over"), true),
            AttachExit::Disconnected => (
                Some("herdr: server connection closed; reattach once the server is back"),
                true,
            ),
        }
    }
}

/// The stream that an event speaks of, if it names one.
pub open spec fn event_stream(v: JsonView) -> Option<u64> {
    match v.field("data"@) {
        Some(d) => d.unsigned_field("stream_id"@),
        None => None,
    }
}

/// Whether a control value ends an attach, and why. One that names another
/// stream never does.
pub open spec fn control_exit(v: JsonView, stream_id: u32) -> Option<AttachExit> {
    if event_stream(v) is Some && event_stream(v) != Some(stream_id as u64) {
        None
    } else if v.text_field("event"@) == Some(STREAM_CLOSED_EVENT@) {
        Some(AttachExit::PaneClosed)
    } else if v.text_field("event"@) == Some(STREAM_REVOKED_EVENT@) {
        Some(AttachExit::TakenOver)
    } else {
        match error_of(v) {
            Some(e) => if e.code == STREAM_OVERLOADED_ERROR@ {
                Some(AttachExit::Disconnected)
            } else {
                None
            },
            None => None,
        }
    }
}

/// Whether a control value ends an attach, and why.
pub fn control_value_exit(v: &Json, stream_id: u32) -> (r: Option<AttachExit>)
    ensures
        r == control_exit(v@, stream_id),
{
    let named: Option<u64> = match v.get("data") {
        Some(d) => d.unsigned_of("stream_id"),
        None => None,
    };
    if let Some(id) = named {
        if id != stream_id as u64 {
            return None;
        }
    }
    if let Some(event) = v.text_of("event") {
        if same(event, STREAM_CLOSED_EVENT) {
            return Some(AttachExit::PaneClosed);
        }
        if same(event, STREAM_REVOKED_EVENT) {
            return Some(AttachExit::TakenOver);
        }
    }
    if let Some(error) = control_error(v) {
        if same(error.code.as_str(), STREAM_OVERLOADED_ERROR) {
            return Some(AttachExit::Disconnected);
        }
    }
    None
}

/// Whether a control frame ends an attach. What cannot be read does not.
pub open spec fn frame_exit(payload: Seq<u8>, stream_id: u32) -> Option<AttachExit> {
    match json_parsed(payload) {
        Some(v) => control_exit(v, stream_id),
        None => None,
    }
}

/// Whether a control frame ends an attach.
pub fn control_frame_exit(payload: &[u8], stream_id: u32) -> (r: Option<AttachExit>)
    ensures
        r == frame_exit(payload@, stream_id),
{
    match decode_json(payload) {
        Some(v) => control_value_exit(&v, stream_id),
        None => None,
    }
}

/// What the user's input comes to, once the detach keys were looked for.
#[derive(Debug)]
pub enum AttachInputAction {
    Forward(Vec<u8>),
    Scroll {
        source: StreamScrollSource,
        direction: StreamScrollDirection,
        lines: u16,
        column: Option<u16>,
        row: Option<u16>,
        modifiers: u8,
    },
    Detach,
    Nothing,
}

/// What an attach reacts to.
#[derive(Debug)]
pub enum AttachEvent {
    Input(AttachInputAction),
    Resize(u16, u16),
    Frame(Frame),
    Disconnected,
}

/// What an attach does.
#[derive(Debug)]
pub enum AttachStep {
    /// Send a request; where that fails the connection is gone.
    Send(Json),
    /// Send a request, then leave whether it went out or not.
    Leave(Json),
    /// Write bytes to the host terminal.
    Print(Vec<u8>),
    Exit(AttachExit),
    Nothing,
}

pub enum AttachStepModel {
    Send(JsonView),
    Leave(JsonView),
    Print(Seq<u8>),
    Exit(AttachExit),
    Nothing,
}

impl View for AttachStep {
    type V = AttachStepModel;

    open spec fn view(&self) -> AttachStepModel {
        match *self {
            AttachStep::Send(j) => AttachStepModel::Send(j@),
            AttachStep::Leave(j) => AttachStepModel::Leave(j@),
            AttachStep::Print(b) => AttachStepModel::Print(b@),
            AttachStep::Exit(e) => AttachStepModel::Exit(e),
            AttachStep::Nothing => AttachStepModel::Nothing,
        }
    }
}

/// The id of a request.
pub open spec fn request_id_text(kind: Seq<char>, n: u64) -> Seq<char> {
    "attach:"@ + kind + ":"@ + decimal(n as nat)
}

/// The id of the `n`th request, which is of that kind.
pub fn attach_request_id(kind: &str, n: u64) -> (r: String)
    ensures
        r@ == request_id_text(kind@, n),
{
    "attach:".to_owned().concat(kind).concat(":").concat(decimal_text(n).as_str())
}

/// An attach to an open stream.
#[derive(Debug)]
pub struct FramedAttach {
    pub pane_id: String,
    pub stream_id: u32,
    pub viewport_rows: u16,
    pub next_request_id: u64,
}

pub struct AttachModel {
    pub pane_id: Seq<char>,
    pub stream_id: u32,
    pub viewport_rows: u16,
    pub next_request_id: u64,
}

impl View for FramedAttach {
    type V = AttachModel;

    open spec fn view(&self) -> AttachModel {
        AttachModel {
            pane_id: self.pane_id@,
            stream_id: self.stream_id,
            viewport_rows: self.viewport_rows,
            next_request_id: self.next_request_id,
        }
    }
}

impl AttachModel {
    /// The attach once it has used a request id.
    pub open spec fn used(self) -> AttachModel {
        AttachModel { next_request_id: (self.next_request_id + 1) as u64, ..self }
    }

    /// What an event comes to.
    pub open spec fn stepped(self, event: AttachEvent) -> (AttachModel, AttachStepModel) {
        let n = self.next_request_id;
        match event {
            AttachEvent::Input(AttachInputAction::Forward(bytes)) => (
                self.used(),
                AttachStepModel::Send(
                    send_bytes_view(request_id_text("input"@, n), self.pane_id, bytes@),
                ),
            ),
            AttachEvent::Input(
                AttachInputAction::Scroll { source, direction, lines, column, row, modifiers },
            ) => (
                self.used(),
                AttachStepModel::Send(
                    scroll_view(
                        request_id_text("scroll"@, n),
                        StreamScrollParams {
                            stream_id: self.stream_id,
                            direction,
                            lines,
                            source,
                            column,
                            row,
                            modifiers,
                        },
                    ),
                ),
            ),
            AttachEvent::Input(AttachInputAction::Detach) => (
                self.used(),
                AttachStepModel::Leave(close_view(request_id_text("close"@, n), self.stream_id)),
            ),
            AttachEvent::Input(AttachInputAction::Nothing) => (self, AttachStepModel::Nothing),
            AttachEvent::Resize(cols, rows) => (
                AttachModel { viewport_rows: rows, ..self.used() },
                AttachStepModel::Send(
                    resize_view(request_id_text("resize"@, n), self.stream_id, cols, rows, 0, 0),
                ),
            ),
            AttachEvent::Frame(frame) => (
                self,
                match frame.frame_type {
                    FrameType::Data => if frame.stream_id == self.stream_id {
                        AttachStepModel::Print(frame.payload@)
                    } else {
                        AttachStepModel::Nothing
                    },
                    FrameType::Control => match frame_exit(frame.payload@, self.stream_id) {
                        Some(exit) => AttachStepModel::Exit(exit),
                        None => AttachStepModel::Nothing,
                    },
                },
            ),
            AttachEvent::Disconnected => (self, AttachStepModel::Exit(AttachExit::Disconnected)),
        }
    }
}

impl FramedAttach {
    /// The next request id of a kind.
    pub fn request_id(&mut self, kind: &str) -> (r: String)
        requires
            old(self).next_request_id < u64::MAX,
        ensures
            r@ == request_id_text(kind@, old(self).next_request_id),
            *final(self) == (FramedAttach {
                next_request_id: (old(self).next_request_id + 1) as u64,
                ..*old(self)
            }),
    {
        let id: u64 = self.next_request_id;
        self.next_request_id = id + 1;
        attach_request_id(kind, id)
    }

    /// Reacts to an event.
    pub fn step(&mut self, event: AttachEvent) -> (r: AttachStep)
        requires
            old(self).next_request_id < u64::MAX,
        ensures
            final(self)@ == old(self)@.stepped(event).0,
            r@ == old(self)@.stepped(event).1,
    {
        match event {
            AttachEvent::Input(action) => match action {
                AttachInputAction::Forward(bytes) => {
                    let id = self.request_id("input");
                    AttachStep::Send(
                        pane_send_bytes_request(
                            id.as_str(),
                            self.pane_id.as_str(),
                            bytes.as_slice(),
                        ),
                    )
                },
                AttachInputAction::Scroll { source, direction, lines, column, row, modifiers } => {
                    let id = self.request_id("scroll");
                    let params = StreamScrollParams {
                        stream_id: self.stream_id,
                        direction,
                        lines,
                        source,
                        column,
                        row,
                        modifiers,
                    };
                    AttachStep::Send(stream_scroll_request(id.as_str(), params))
                },
                AttachInputAction::Detach => {
                    let id = self.request_id("close");
                    AttachStep::Leave(stream_close_request(id.as_str(), self.stream_id))
                },
                AttachInputAction::Nothing => AttachStep::Nothing,
            },
            AttachEvent::Resize(cols, rows) => {
                let id = self.request_id("resize");
                self.viewport_rows = rows;
                AttachStep::Send(
                    stream_resize_request(id.as_str(), self.stream_id, cols, rows, 0, 0),
                )
            },
            AttachEvent::Frame(frame) => match frame.frame_type {
                FrameType::Data => {
                    if frame.stream_id == self.stream_id {
                        AttachStep::Print(frame.payload)
                    } else {
                        AttachStep::Nothing
                    }
                },
                FrameType::Control => match control_frame_exit(
                    frame.payload.as_slice(),
                    self.stream_id,
                ) {
                    Some(exit) => AttachStep::Exit(exit),
                    None => AttachStep::Nothing,
                },
            },
            AttachEvent::Disconnected => AttachStep::Exit(AttachExit::Disconnected),
        }
    }
}

/// An attach never acts on another stream: neither its output nor its end.
pub proof fn other_streams_do_not_reach_an_attach(a: AttachModel, frame: Frame)
    requires
        match frame.frame_type {
            FrameType::Data => frame.stream_id != a.stream_id,
            FrameType::Control => json_parsed(frame.payload@) matches Some(v) && event_stream(
                v,
            ) is Some && event_stream(v) != Some(a.stream_id as u64),
        },
    ensures
        a.stepped(AttachEvent::Frame(frame)) == (a, AttachStepModel::Nothing),
{
}

/// Clears the host screen and goes to its corner.
pub const CLEAR_SCREEN_SEQUENCE: &'static str = "\x1b[2J\x1b[H";

/// What paints the pane's screen at the start of an attach.
pub fn seed_screen(snapshot: &str) -> (r: Vec<u8>)
    ensures
        r@ == encode_utf8(CLEAR_SCREEN_SEQUENCE@) + encode_utf8(snapshot@),
{
    let mut out: Vec<u8> = Vec::new();
    out.extend_from_slice(CLEAR_SCREEN_SEQUENCE.as_bytes());
    out.extend_from_slice(snapshot.as_bytes());
    assert(out@ =~= encode_utf8(CLEAR_SCREEN_SEQUENCE@) + encode_utf8(snapshot@));
    out
}

} // verus!
