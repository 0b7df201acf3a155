//! One connected session of the client: outstanding requests, queued frames
//! and what has been told to the server.
use crate::json::{encode_json, json_bytes, written, Json, JsonView};
use crate::protocol::frame::MAX_FRAME_PAYLOAD;
use crate::protocol::framed::{
    check_session_capabilities, control_error, error_of, parse_session_welcome, request_view,
    session_refusal, session_snapshot_request, welcome_of, HelloRefusal, HelloRemedy,
    SessionWelcome, StreamMode, WelcomeModel, NOT_A_WELCOME, PROTOCOL_OUT_OF_WINDOW_CODE,
    SESSION_SNAPSHOT_METHOD,
};
use crate::sorted_map::SortedMap;
use crate::text::{decimal, decimal_text, same};
use std::collections::{BTreeMap, BTreeSet};
use vstd::prelude::*;
use vstd::string::*;

verus! {

/// Heartbeat cadence on established sessions, in milliseconds.
pub const REMOTE_PING_INTERVAL_MS: u64 = 5_000;

/// Silence after which a peer counts as dead, in milliseconds.
pub const REMOTE_PONG_TIMEOUT_MS: u64 = 15_000;

/// Bound on frames queued to one remote.
pub const REMOTE_WRITE_QUEUE_FRAMES: usize = 1024;

/// A point in time some milliseconds on, on the client's clock.
pub open spec fn later(now: u64, millis: u64) -> u64 {
    if now + millis <= u64::MAX {
        (now + millis) as u64
    } else {
        u64::MAX
    }
}

/// A control request that awaits its answer.
#[derive(Clone, PartialEq, Eq, Debug)]
pub enum Pending {
    Snapshot,
    /// Any inbound frame already proves liveness.
    Ping,
    StreamOpen { pane_id: String, mode: StreamMode },
    History { stream_id: u32 },
    Resize { stream_id: u32 },
    Api,
}

/// Why a frame could not be queued.
#[derive(Clone, Copy, PartialEq, Eq, Structural, Debug)]
pub enum SendError {
    /// The message is longer than a frame may be.
    TooLarge,
    /// The connection is stalled: its queue is full.
    QueueFull,
    /// The writer is gone.
    WriterEnded,
}

impl SendError {
    pub open spec fn text(self) -> Seq<char> {
        match self {
            SendError::TooLarge => "frame payload too large"@,
            SendError::QueueFull => "remote write queue full (stalled connection)"@,
            SendError::WriterEnded => "remote writer thread ended"@,
        }
    }

    pub fn message(self) -> (r: &'static str)
        ensures
            r@ == self.text(),
    {
        match self {
            SendError::TooLarge => "frame payload too large",
            SendError::QueueFull => "remote write queue full (stalled connection)",
            SendError::WriterEnded => "remote writer thread ended",
        }
    }
}

/// One connected session.
#[derive(Debug)]
pub struct Session {
    /// The link generation this session belongs to.
    pub generation: u64,
    /// When the last frame arrived.
    pub last_inbound: u64,
    /// When the next heartbeat is due.
    pub next_ping: u64,
    pub next_request_id: u64,
    pub pending: SortedMap<String, Pending>,
    /// Last size sent per stream, so that a resize is sent once.
    pub sent_sizes: BTreeMap<u32, (u16, u16)>,
    /// Streams whose pane another client writes; that client owns their size.
    pub read_only: BTreeSet<u32>,
    /// Control messages waiting for the writer.
    pub outbox: Vec<Json>,
    /// How many messages may wait; none means no bound.
    pub bound: Option<usize>,
    /// Whether the writer still takes messages.
    pub writable: bool,
}

/// The mathematical value of a session.
pub struct SessionModel {
    pub generation: u64,
    pub last_inbound: u64,
    pub next_ping: u64,
    pub next_request_id: u64,
    pub pending: Map<Seq<char>, Pending>,
    pub sent_sizes: Map<u32, (u16, u16)>,
    pub read_only: Set<u32>,
    pub outbox: Seq<JsonView>,
    pub bound: Option<usize>,
    pub writable: bool,
}

impl View for Session {
    type V = SessionModel;

    open spec fn view(&self) -> SessionModel {
        SessionModel {
            generation: self.generation,
            last_inbound: self.last_inbound,
            next_ping: self.next_ping,
            next_request_id: self.next_request_id,
            pending: self.pending@,
            sent_sizes: self.sent_sizes@,
            read_only: self.read_only@,
            outbox: self.outbox@.map_values(|j: Json| j@),
            bound: self.bound,
            writable: self.writable,
        }
    }
}

/// The request for a snapshot that a session sends next.
pub open spec fn next_snapshot_request(s: SessionModel) -> JsonView {
    request_view(s.next_id("snapshot"@), SESSION_SNAPSHOT_METHOD@, Seq::empty())
}

/// The id of the `n`th request of a kind.
pub open spec fn request_name(kind: Seq<char>, n: u64) -> Seq<char> {
    "pure:"@ + kind + ":"@ + decimal(n as nat)
}

impl SessionModel {
    pub open spec fn fresh(generation: u64, now: u64, bound: Option<usize>) -> SessionModel {
        SessionModel {
            generation,
            last_inbound: now,
            next_ping: later(now, REMOTE_PING_INTERVAL_MS),
            next_request_id: 1,
            pending: Map::empty(),
            sent_sizes: Map::empty(),
            read_only: Set::empty(),
            outbox: Seq::empty(),
            bound,
            writable: true,
        }
    }

    /// The id the next request of a kind gets.
    pub open spec fn next_id(self, kind: Seq<char>) -> Seq<char> {
        request_name(kind, self.next_request_id)
    }

    /// The session with that id given out.
    pub open spec fn numbered(self) -> SessionModel {
        SessionModel {
            next_request_id: ((self.next_request_id + 1) % 0x1_0000_0000_0000_0000) as u64,
            ..self
        }
    }

    /// Why a message cannot be queued now, if it cannot.
    pub open spec fn refusal(self, message: JsonView) -> Option<SendError> {
        if json_bytes(message).len() > MAX_FRAME_PAYLOAD {
            Some(SendError::TooLarge)
        } else if !self.writable {
            Some(SendError::WriterEnded)
        } else {
            match self.bound {
                Some(n) if self.outbox.len() >= n => Some(SendError::QueueFull),
                _ => None,
            }
        }
    }

    /// Whether a message can be queued now.
    pub open spec fn can_send(self, message: JsonView) -> bool {
        self.refusal(message) is None
    }

    /// The session after trying to queue a message.
    pub open spec fn sent(self, message: JsonView) -> SessionModel {
        if self.can_send(message) {
            SessionModel { outbox: self.outbox.push(message), ..self }
        } else {
            self
        }
    }

    pub open spec fn awaiting(self, id: Seq<char>, pending: Pending) -> SessionModel {
        SessionModel { pending: self.pending.insert(id, pending), ..self }
    }

    pub open spec fn settled(self, id: Seq<char>) -> SessionModel {
        SessionModel { pending: self.pending.remove(id), ..self }
    }

    /// What was told of a stream is forgotten.
    pub open spec fn forgot_stream(self, stream_id: u32) -> SessionModel {
        SessionModel {
            sent_sizes: self.sent_sizes.remove(stream_id),
            read_only: self.read_only.remove(stream_id),
            ..self
        }
    }

    /// A request with a pending answer: it stays pending only if it went out.
    pub open spec fn asked(self, kind: Seq<char>, pending: Pending, message: JsonView) -> SessionModel {
        let s = self.numbered();
        if s.can_send(message) {
            s.awaiting(self.next_id(kind), pending).sent(message)
        } else {
            s.settled(self.next_id(kind))
        }
    }

    /// A request whose answer stays expected whether or not it went out.
    pub open spec fn posted(self, kind: Seq<char>, pending: Pending, message: JsonView) -> SessionModel {
        self.numbered().awaiting(self.next_id(kind), pending).sent(message)
    }
}

impl Session {
    pub open spec fn wf(&self) -> bool {
        self.pending.wf()
    }

    /// A session that has just been negotiated.
    pub fn fresh(generation: u64, now: u64, bound: Option<usize>) -> (r: Session)
        ensures
            r.wf(),
            r@ == SessionModel::fresh(generation, now, bound),
    {
        let r = Session {
            generation,
            last_inbound: now,
            next_ping: now.saturating_add(REMOTE_PING_INTERVAL_MS),
            next_request_id: 1,
            pending: SortedMap::new(),
            sent_sizes: BTreeMap::new(),
            read_only: BTreeSet::new(),
            outbox: Vec::new(),
            bound,
            writable: true,
        };
        assert(r@.outbox =~= Seq::empty());
        r
    }

    /// Gives out the next request id of a kind.
    pub fn request_id(&mut self, kind: &str) -> (r: String)
        requires
            old(self).wf(),
        ensures
            final(self).wf(),
            final(self)@ == old(self)@.numbered(),
            r@ == old(self)@.next_id(kind@),
    {
        let id: u64 = self.next_request_id;
        self.next_request_id = id.wrapping_add(1);
        "pure:".to_owned().concat(kind).concat(":").concat(decimal_text(id).as_str())
    }

    /// Queues a control message. One that no frame can carry is refused, and
    /// a full queue fails instead of blocking.
    pub fn send_control(&mut self, value: Json) -> (r: Result<(), SendError>)
        requires
            old(self).wf(),
        ensures
            final(self).wf(),
            final(self)@ == old(self)@.sent(value@),
            match r {
                Ok(_) => old(self)@.refusal(value@) is None,
                Err(e) => old(self)@.refusal(value@) == Some(e),
            },
    {
        if encode_json(&value).len() > MAX_FRAME_PAYLOAD {
            return Err(SendError::TooLarge);
        }
        if !self.writable {
            return Err(SendError::WriterEnded);
        }
        if let Some(n) = self.bound {
            if self.outbox.len() >= n {
                return Err(SendError::QueueFull);
            }
        }
        let ghost was = self.outbox@;
        self.outbox.push(value);
        assert(self@.outbox =~= was.map_values(|j: Json| j@).push(value@));
        Ok(())
    }

    /// Expects an answer to a request.
    pub fn expect(&mut self, id: String, pending: Pending)
        requires
            old(self).wf(),
        ensures
            final(self).wf(),
            final(self)@ == old(self)@.awaiting(id@, pending),
    {
        self.pending.insert(id, pending);
    }

    /// Expects no answer to a request any more.
    pub fn settle(&mut self, id: &str) -> (r: Option<Pending>)
        requires
            old(self).wf(),
        ensures
            final(self).wf(),
            final(self)@ == old(self)@.settled(id@),
            match r {
                Some(p) => old(self)@.pending.contains_key(id@) && p == old(self)@.pending[id@],
                None => !old(self)@.pending.contains_key(id@),
            },
    {
        let key = id.to_owned();
        self.pending.remove(&key)
    }

    /// Forgets what was told of a stream.
    pub fn forget_stream(&mut self, stream_id: u32)
        requires
            old(self).wf(),
        ensures
            final(self).wf(),
            final(self)@ == old(self)@.forgot_stream(stream_id),
    {
        self.sent_sizes.remove(&stream_id);
        self.read_only.remove(&stream_id);
    }

    /// Asks for a fresh catalog snapshot.
    pub fn ask_snapshot(&mut self) -> (r: Result<(), SendError>)
        requires
            old(self).wf(),
        ensures
            final(self).wf(),
            final(self)@ == old(self)@.asked(
                "snapshot"@,
                Pending::Snapshot,
                next_snapshot_request(old(self)@),
            ),
            match r {
                Ok(_) => old(self)@.refusal(next_snapshot_request(old(self)@)) is None,
                Err(e) => old(self)@.refusal(next_snapshot_request(old(self)@)) == Some(e),
            },
    {
        let ghost before = self@;
        let id = self.request_id("snapshot");
        let request = session_snapshot_request(id.as_str());
        let copy = id.clone();
        self.expect(copy, Pending::Snapshot);
        let sent = self.send_control(request);
        if sent.is_err() {
            self.settle(id.as_str());
            assert(self@.pending =~= before.numbered().settled(id@).pending);
        }
        sent
    }

    /// Takes the message that has waited longest, encoded for the wire.
    pub fn next_message(&mut self) -> (r: Option<Vec<u8>>)
        requires
            old(self).wf(),
        ensures
            final(self).wf(),
            match r {
                Some(bytes) => {
                    &&& old(self)@.outbox.len() > 0
                    &&& written(bytes@, old(self)@.outbox[0])
                    &&& final(self)@ == (SessionModel {
                        outbox: old(self)@.outbox.drop_first(),
                        ..old(self)@
                    })
                },
                None => old(self)@.outbox.len() == 0 && final(self)@ == old(self)@,
            },
    {
        if self.outbox.len() == 0 {
            return None;
        }
        let ghost was = self@.outbox;
        let message = self.outbox.remove(0);
        assert(self@.outbox =~= was.drop_first());
        Some(encode_json(&message))
    }
}

/// The connection of one remote.
#[derive(Debug)]
pub enum Link {
    Up(Session),
    /// A connect attempt is in flight.
    Pending { generation: u64 },
    /// To be retried at that time.
    Down { retry_at: u64 },
    /// Reachable, but nothing running there: only a start changes it.
    Stopped,
    /// Only an upgrade changes it.
    Incompatible,
}

pub enum LinkModel {
    Up(SessionModel),
    Pending { generation: u64 },
    Down { retry_at: u64 },
    Stopped,
    Incompatible,
}

impl View for Link {
    type V = LinkModel;

    open spec fn view(&self) -> LinkModel {
        match *self {
            Link::Up(s) => LinkModel::Up(s@),
            Link::Pending { generation } => LinkModel::Pending { generation },
            Link::Down { retry_at } => LinkModel::Down { retry_at },
            Link::Stopped => LinkModel::Stopped,
            Link::Incompatible => LinkModel::Incompatible,
        }
    }
}

impl LinkModel {
    /// The generation of the current session or attempt.
    pub open spec fn generation(self) -> Option<u64> {
        match self {
            LinkModel::Up(s) => Some(s.generation),
            LinkModel::Pending { generation } => Some(generation),
            _ => None,
        }
    }
}

impl Link {
    pub open spec fn wf(&self) -> bool {
        *self matches Link::Up(s) ==> s.wf()
    }

    /// The generation of a link's current session or attempt.
    pub fn generation(&self) -> (r: Option<u64>)
        ensures
            r == self@.generation(),
    {
        match self {
            Link::Up(session) => Some(session.generation),
            Link::Pending { generation } => Some(*generation),
            _ => None,
        }
    }
}

/// Why a hello gave no session.
#[derive(Debug)]
pub enum HelloRejection {
    /// Terminal for this pairing; the remedy is the server's own.
    Incompatible { remedy: HelloRemedy, message: String },
    /// Worth a retry.
    Failed(String),
}

/// What an answer to a hello comes to.
pub enum HelloOutcome {
    Welcome(WelcomeModel),
    Incompatible { remedy: HelloRemedy, message: Seq<char> },
    Failed(Seq<char>),
}

/// A refusal outside the version window keeps the server's own remedy, and is
/// read as "this client is too old" where it names none. Any other refusal is
/// a failure. A welcome must grant what the client cannot run without.
pub open spec fn hello_outcome(v: JsonView) -> HelloOutcome {
    match error_of(v) {
        Some(e) => if e.code == PROTOCOL_OUT_OF_WINDOW_CODE@ {
            HelloOutcome::Incompatible {
                remedy: match e.remedy {
                    Some(r) => r,
                    None => HelloRemedy::UpgradeClient,
                },
                message: e.message,
            }
        } else {
            HelloOutcome::Failed("session.hello rejected: "@ + e.message)
        },
        None => match welcome_of(v) {
            Some(w) => match session_refusal(w) {
                Some(message) => HelloOutcome::Incompatible {
                    remedy: HelloRemedy::UpgradeServer,
                    message,
                },
                None => HelloOutcome::Welcome(w),
            },
            None => HelloOutcome::Failed(NOT_A_WELCOME@),
        },
    }
}

/// Interprets the answer to a hello.
pub fn interpret_hello_answer(response: &Json) -> (r: Result<SessionWelcome, HelloRejection>)
    ensures
        hello_outcome(response@) == match r {
            Ok(w) => HelloOutcome::Welcome(w@),
            Err(HelloRejection::Incompatible { remedy, message }) => HelloOutcome::Incompatible {
                remedy,
                message: message@,
            },
            Err(HelloRejection::Failed(message)) => HelloOutcome::Failed(message@),
        },
{
    if let Some(error) = control_error(response) {
        if same(error.code.as_str(), PROTOCOL_OUT_OF_WINDOW_CODE) {
            let remedy = match error.remedy {
                Some(r) => r,
                None => HelloRemedy::UpgradeClient,
            };
            return Err(HelloRejection::Incompatible { remedy, message: error.message });
        }
        return Err(
            HelloRejection::Failed(
                "session.hello rejected: ".to_owned().concat(error.message.as_str()),
            ),
        );
    }
    match parse_session_welcome(response) {
        Ok(welcome) => match check_session_capabilities(&welcome) {
            None => Ok(welcome),
            Some(HelloRefusal { message }) => Err(
                HelloRejection::Incompatible { remedy: HelloRemedy::UpgradeServer, message },
            ),
        },
        Err(e) => Err(HelloRejection::Failed(e)),
    }
}

} // verus!
