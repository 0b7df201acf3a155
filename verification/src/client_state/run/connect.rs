//! Words and requests of a connect attempt.
use crate::fleet::config::DEFAULT_SESSION_NAME;
use crate::fleet::status::{stopped_line, stopped_status_line};
use crate::json::{items_view, members_view, no_members, with_member, Json, JsonView};
use crate::protocol::framed::{
    control_request, request_view, CAPABILITY_CATALOG, CAPABILITY_NOTIFICATION,
    CAPABILITY_PANE_STREAM, CAPABILITY_PASTE_IMAGE, CAPABILITY_WINDOW_TITLE, SESSION_HELLO_METHOD,
};
use crate::text::{decimal, decimal_text, same, trim, trimmed};
use vstd::prelude::*;
use vstd::string::*;

verus! {

/// Deadline for a bridge's hello answer, in seconds.
pub const REMOTE_HANDSHAKE_TIMEOUT_SECS: u64 = 10;

/// The id of the opening request.
pub const HELLO_REQUEST_ID: &'static str = "pure:hello:0";

/// Capabilities every session asks for.
pub open spec fn session_capabilities() -> Seq<Seq<char>> {
    seq![
        CAPABILITY_PANE_STREAM@,
        CAPABILITY_CATALOG@,
        CAPABILITY_NOTIFICATION@,
        CAPABILITY_WINDOW_TITLE@,
        CAPABILITY_PASTE_IMAGE@,
    ]
}

/// A request that opens a session.
pub open spec fn hello_view(
    id: Seq<char>,
    protocol: u32,
    min_protocol: u32,
    capabilities: Seq<Seq<char>>,
) -> JsonView {
    request_view(
        id,
        SESSION_HELLO_METHOD@,
        seq![
            ("protocol"@, JsonView::Unsigned(protocol as u64)),
            ("min_protocol"@, JsonView::Unsigned(min_protocol as u64)),
            (
                "capabilities"@,
                JsonView::Array(capabilities.map_values(|c: Seq<char>| JsonView::Text(c))),
            ),
        ],
    )
}

/// Builds a request that opens a session.
pub(crate) fn hello_with(
    id: &str,
    protocol: u32,
    min_protocol: u32,
    items: Vec<Json>,
    Ghost(capabilities): Ghost<Seq<Seq<char>>>,
) -> (r: Json)
    requires
        items_view(items@) == capabilities.map_values(|c: Seq<char>| JsonView::Text(c)),
    ensures
        r@ == hello_view(id@, protocol, min_protocol, capabilities),
{
    let p = with_member(no_members(), "protocol", Json::Unsigned(protocol as u64));
    let p = with_member(p, "min_protocol", Json::Unsigned(min_protocol as u64));
    let p = with_member(p, "capabilities", Json::array(items));
    assert(members_view(p@) =~= seq![
        ("protocol"@, JsonView::Unsigned(protocol as u64)),
        ("min_protocol"@, JsonView::Unsigned(min_protocol as u64)),
        (
            "capabilities"@,
            JsonView::Array(capabilities.map_values(|c: Seq<char>| JsonView::Text(c))),
        ),
    ]);
    control_request(id, SESSION_HELLO_METHOD, p)
}

/// Builds the request that opens a session of the client.
pub fn session_hello_request(protocol: u32, min_protocol: u32) -> (r: Json)
    ensures
        r@ == hello_view(HELLO_REQUEST_ID@, protocol, min_protocol, session_capabilities()),
{
    let mut items: Vec<Json> = Vec::new();
    items.push(Json::from_text(CAPABILITY_PANE_STREAM));
    items.push(Json::from_text(CAPABILITY_CATALOG));
    items.push(Json::from_text(CAPABILITY_NOTIFICATION));
    items.push(Json::from_text(CAPABILITY_WINDOW_TITLE));
    items.push(Json::from_text(CAPABILITY_PASTE_IMAGE));
    assert(items_view(items@) =~= session_capabilities().map_values(
        |c: Seq<char>| JsonView::Text(c),
    ));
    hello_with(HELLO_REQUEST_ID, protocol, min_protocol, items, Ghost(session_capabilities()))
}

/// Whether a local runtime's session is reached on the default socket.
pub fn uses_default_socket(session: &str) -> (r: bool)
    ensures
        r == (session@ == DEFAULT_SESSION_NAME@),
{
    same(session, DEFAULT_SESSION_NAME)
}

/// Lines put on one line.
pub open spec fn on_one_line(t: Seq<char>) -> Seq<char>
    decreases t.len(),
{
    if t.len() == 0 {
        t
    } else if t.last() == '\n' {
        on_one_line(t.drop_last()) + "; "@
    } else {
        on_one_line(t.drop_last()).push(t.last())
    }
}

/// A failure with what the bridge said about it, if it said anything.
pub open spec fn tailed(message: Seq<char>, stderr: Seq<char>) -> Seq<char> {
    let tail = on_one_line(trimmed(stderr));
    if tail.len() == 0 {
        message
    } else {
        message + " (ssh: "@ + tail + ")"@
    }
}

fn join_lines(t: &str) -> (r: String)
    ensures
        r@ == on_one_line(t@),
{
    let n: usize = t.unicode_len();
    let mut out = String::new();
    let mut i: usize = 0;
    assert(t@.take(0) =~= Seq::empty());
    while i < n
        invariant
            n == t@.len(),
            i <= n,
            out@ == on_one_line(t@.take(i as int)),
        decreases n - i,
    {
        let c: char = t.get_char(i);
        proof {
            assert(t@.take(i + 1).drop_last() =~= t@.take(i as int));
            assert(t@.take(i + 1).last() == c);
        }
        if c == '\n' {
            out = out.concat("; ");
        } else {
            out.push(c);
        }
        i = i + 1;
    }
    assert(t@.take(i as int) =~= t@);
    out
}

/// Adds what a bridge said to a failure. The far side's own report is in it,
/// so a failure that dropped it would hide a stopped server.
pub fn with_tail(message: String, stderr: &str) -> (r: String)
    ensures
        r@ == tailed(message@, stderr@),
{
    let text = trim(stderr);
    let tail = join_lines(text.as_str());
    if tail.as_str().is_empty() {
        message
    } else {
        message.concat(" (ssh: ").concat(tail.as_str()).concat(")")
    }
}

/// Why a hello was not answered: past the deadline that is a timeout.
pub open spec fn hello_failure(elapsed_ms: u64, error: Seq<char>, stderr: Seq<char>) -> Seq<char> {
    if elapsed_ms >= REMOTE_HANDSHAKE_TIMEOUT_SECS * 1000 {
        "session.hello timed out after "@ + decimal(REMOTE_HANDSHAKE_TIMEOUT_SECS as nat) + "s"@
    } else {
        tailed("session.hello failed: "@ + error, stderr)
    }
}

/// Why a hello was not answered.
pub fn describe_hello_failure(elapsed_ms: u64, error: &str, stderr: &str) -> (r: String)
    ensures
        r@ == hello_failure(elapsed_ms, error@, stderr@),
{
    if elapsed_ms >= REMOTE_HANDSHAKE_TIMEOUT_SECS * 1000 {
        "session.hello timed out after ".to_owned().concat(
            decimal_text(REMOTE_HANDSHAKE_TIMEOUT_SECS).as_str(),
        ).concat("s")
    } else {
        with_tail("session.hello failed: ".to_owned().concat(error), stderr)
    }
}

/// A step on the way to a live session.
#[derive(Clone, Copy, PartialEq, Eq, Structural, Debug)]
pub enum ConnectStage {
    /// Reaching the local socket.
    Reach,
    /// Spawning the bridge.
    Spawn,
    /// Writing the magic.
    Magic,
    /// Sending the hello.
    Hello,
    /// Waiting for its answer.
    Answer,
    /// Reading the answer that came.
    Reading,
    /// Splitting the socket for reader and writer.
    Split,
}

impl ConnectStage {
    /// What a failure at this step starts with.
    pub open spec fn failed(self) -> Seq<char> {
        match self {
            ConnectStage::Reach => "api socket unreachable: "@,
            ConnectStage::Spawn => "ssh bridge spawn failed: "@,
            ConnectStage::Magic => "framed handshake failed: "@,
            ConnectStage::Hello => "session.hello send failed: "@,
            ConnectStage::Answer => "session.hello failed: "@,
            ConnectStage::Reading => "invalid hello answer: "@,
            ConnectStage::Split => "socket clone failed: "@,
        }
    }
}

/// Why a connect attempt failed.
pub fn describe_connect_failure(stage: ConnectStage, error: &str) -> (r: String)
    ensures
        r@ == stage.failed() + error@,
{
    let start = match stage {
        ConnectStage::Reach => "api socket unreachable: ",
        ConnectStage::Spawn => "ssh bridge spawn failed: ",
        ConnectStage::Magic => "framed handshake failed: ",
        ConnectStage::Hello => "session.hello send failed: ",
        ConnectStage::Answer => "session.hello failed: ",
        ConnectStage::Reading => "invalid hello answer: ",
        ConnectStage::Split => "socket clone failed: ",
    };
    start.to_owned().concat(error)
}

/// Why an attempt over a bridge failed. Once the bridge runs, what it said is
/// part of it; an answer that came is not the bridge's fault.
pub open spec fn bridge_failure(
    stage: ConnectStage,
    error: Seq<char>,
    elapsed_ms: u64,
    stderr: Seq<char>,
) -> Seq<char> {
    match stage {
        ConnectStage::Answer => hello_failure(elapsed_ms, error, stderr),
        ConnectStage::Magic => tailed(stage.failed() + error, stderr),
        ConnectStage::Hello => tailed(stage.failed() + error, stderr),
        _ => stage.failed() + error,
    }
}

/// Why an attempt over a bridge failed.
pub fn describe_bridge_failure(stage: ConnectStage, error: &str, elapsed_ms: u64, stderr: &str) -> (r:
    String)
    ensures
        r@ == bridge_failure(stage, error@, elapsed_ms, stderr@),
{
    match stage {
        ConnectStage::Answer => describe_hello_failure(elapsed_ms, error, stderr),
        ConnectStage::Magic | ConnectStage::Hello => with_tail(
            describe_connect_failure(stage, error),
            stderr,
        ),
        _ => describe_connect_failure(stage, error),
    }
}

/// A bridge's failure: a far side without a server is stopped, not failed.
#[derive(Debug)]
pub enum BridgeFailure {
    Stopped { status: String },
    Failed { error: String },
}

/// Classifies a bridge's failure.
pub fn classify_failure(name: &str, message: String, reports_stopped_server: bool) -> (r:
    BridgeFailure)
    ensures
        match r {
            BridgeFailure::Stopped { status } => reports_stopped_server && status@
                == stopped_line(name@),
            BridgeFailure::Failed { error } => !reports_stopped_server && error == message,
        },
{
    if reports_stopped_server {
        BridgeFailure::Stopped { status: stopped_status_line(name) }
    } else {
        BridgeFailure::Failed { error: message }
    }
}

} // verus!
