//! Connecting, losing and retrying remotes.
use crate::client_state::connection::{ClientConnectionState, ConnectionModel};
use crate::client_state::fleet_view::{at_index, descriptor_at};
use crate::client_state::mirror::{MirrorModel, LOCAL_REMOTE_INDEX};
use crate::client_state::remote_start::RemoteStartPrompt;
use crate::client_state::run::frames::{frame_step, EffectModel, FrameEffect};
use crate::client_state::run::state::{ClientLoop, LoopModel, UiModel};
use crate::client_state::session::{
    later, next_snapshot_request, Link, LinkModel, Pending, Session, SessionModel,
    REMOTE_PING_INTERVAL_MS, REMOTE_PONG_TIMEOUT_MS, REMOTE_WRITE_QUEUE_FRAMES,
};
use crate::fleet::status::{incompatible_line, incompatible_status_line};
use crate::protocol::framed::{
    ping_request, request_view, Frame, HelloRemedy, NegotiatedSession, SessionWelcome,
    WelcomeModel, PING_METHOD,
};
use crate::seqs::first_match;
use crate::text::same;
use vstd::prelude::*;
use vstd::string::*;

verus! {

/// Whether the client runs by default, when no setting says otherwise.
pub const PURE_CLIENT_DEFAULT: bool = true;

/// Resolution of the client switch: an override of `1` or `0` beats the
/// setting, which beats the default.
pub open spec fn client_switch(over: Option<Seq<char>>, setting: Option<bool>) -> bool {
    if over == Some("1"@) {
        true
    } else if over == Some("0"@) {
        false
    } else {
        match setting {
            Some(on) => on,
            None => PURE_CLIENT_DEFAULT,
        }
    }
}

/// Whether the client run path is enabled.
pub fn pure_client_enabled(over: Option<&str>, setting: Option<bool>) -> (r: bool)
    ensures
        r == client_switch(
            match over {
                Some(t) => Some(t@),
                None => None,
            },
            setting,
        ),
{
    proof {
        reveal_strlit("1");
        reveal_strlit("0");
        assert("1"@[0] != "0"@[0]);
    }
    if let Some(t) = over {
        if same(t, "1") {
            return true;
        }
        if same(t, "0") {
            return false;
        }
    }
    match setting {
        Some(on) => on,
        None => PURE_CLIENT_DEFAULT,
    }
}

/// Delay before a lost link is retried, in milliseconds.
pub const LOST_LINK_RETRY_MS: u64 = 500;

/// Delay before a link that could not be set up is retried, in milliseconds.
pub const SETUP_RETRY_MS: u64 = 1_000;

/// How a connect attempt ended.
#[derive(Debug)]
pub enum Established {
    /// The local socket negotiated a session.
    Local { welcome: SessionWelcome },
    /// A bridge negotiated a session.
    Bridge { welcome: SessionWelcome },
    /// A bridge negotiated a session, but its writer did not start.
    WriterFailed { welcome: SessionWelcome, error: String },
    Incompatible { remedy: HelloRemedy, message: String },
    /// Nothing runs on the far side.
    Stopped { status: String },
    /// To be retried after that many milliseconds.
    Failed { error: String, retry_in: u64 },
}

pub enum EstablishedModel {
    Local { welcome: WelcomeModel },
    Bridge { welcome: WelcomeModel },
    WriterFailed { welcome: WelcomeModel, error: Seq<char> },
    Incompatible { remedy: HelloRemedy, message: Seq<char> },
    Stopped { status: Seq<char> },
    Failed { error: Seq<char>, retry_in: u64 },
}

impl View for Established {
    type V = EstablishedModel;

    open spec fn view(&self) -> EstablishedModel {
        match *self {
            Established::Local { welcome } => EstablishedModel::Local { welcome: welcome@ },
            Established::Bridge { welcome } => EstablishedModel::Bridge { welcome: welcome@ },
            Established::WriterFailed { welcome, error } => EstablishedModel::WriterFailed {
                welcome: welcome@,
                error: error@,
            },
            Established::Incompatible { remedy, message } => EstablishedModel::Incompatible {
                remedy,
                message: message@,
            },
            Established::Stopped { status } => EstablishedModel::Stopped { status: status@ },
            Established::Failed { error, retry_in } => EstablishedModel::Failed {
                error: error@,
                retry_in,
            },
        }
    }
}

/// A generation after `n`.
pub open spec fn next_generation(n: u64) -> u64 {
    ((n + 1) % 0x1_0000_0000_0000_0000) as u64
}

impl LoopModel {
    /// A connect attempt of that generation is in flight.
    pub open spec fn connecting(self, remote: usize) -> LoopModel {
        let generation = next_generation(self.ui.next_generation);
        let m = LoopModel {
            mirrors: if self.mirrors.contains_key(remote) {
                self.mirrors.insert(
                    remote,
                    MirrorModel {
                        connection: ConnectionModel::Connecting {
                            attempt: self.mirrors[remote].connection.next_attempt(),
                        },
                        ..self.mirrors[remote]
                    },
                )
            } else {
                self.mirrors
            },
            ui: UiModel { next_generation: generation, ..self.ui },
            ..self
        };
        m.with_link(remote, LinkModel::Pending { generation })
    }

    /// A connect attempt for a configured remote. A local one without a
    /// mirror is put off; where no chip can show it, a local handshake is
    /// said to be in flight.
    pub open spec fn connect_begun(self, remote: usize, now: u64) -> (LoopModel, Option<u64>) {
        match first_match(self.descriptors, at_index(remote)) {
            None => (self, None),
            Some(d) => {
                let started = d.target is Some || self.mirrors.contains_key(remote);
                let m = if started {
                    self.connecting(remote)
                } else {
                    self.with_link(
                        remote,
                        LinkModel::Down { retry_at: later(now, SETUP_RETRY_MS) },
                    )
                };
                (
                    if d.target is None && self.status_line_only() {
                        m.with_status(Some("connecting to the local server"@))
                    } else {
                        m
                    },
                    if started {
                        Some(next_generation(self.ui.next_generation))
                    } else {
                        None
                    },
                )
            },
        }
    }

    /// Connect attempts for remotes, one after the other.
    pub open spec fn reconnected(self, remotes: Seq<usize>, now: u64) -> LoopModel
        decreases remotes.len(),
    {
        if remotes.len() == 0 {
            self
        } else {
            self.reconnected(remotes.drop_last(), now).connect_begun(remotes.last(), now).0
        }
    }

    /// A session is live: the mirror starts over, and a snapshot is asked.
    /// Where it cannot even be asked, the link is retried.
    pub open spec fn welcomed(
        self,
        remote: usize,
        generation: u64,
        welcome: WelcomeModel,
        now: u64,
        bound: Option<usize>,
    ) -> LoopModel {
        let m = live(self.mirrors[remote], welcome);
        LoopModel { ui: UiModel { ever_connected: true, ..self.ui }, ..self }.with_mirror(
            remote,
            m,
        ).session_started(remote, generation, now, bound)
    }

    /// A fresh session asks for a snapshot.
    pub open spec fn session_started(
        self,
        remote: usize,
        generation: u64,
        now: u64,
        bound: Option<usize>,
    ) -> LoopModel {
        let fresh = SessionModel::fresh(generation, now, bound);
        match fresh.refusal(next_snapshot_request(fresh)) {
            None => self.with_session(
                remote,
                fresh.asked("snapshot"@, Pending::Snapshot, next_snapshot_request(fresh)),
            ),
            Some(e) => self.with_mirror(
                remote,
                self.mirrors[remote].lost("snapshot request failed: "@ + e.text()),
            ).with_link(remote, LinkModel::Down { retry_at: later(now, SETUP_RETRY_MS) }),
        }
    }

    /// What the outcome of the current attempt does.
    pub open spec fn settled(
        self,
        remote: usize,
        generation: u64,
        outcome: EstablishedModel,
        now: u64,
    ) -> LoopModel {
        let m = self.mirrors[remote];
        match outcome {
            EstablishedModel::Local { welcome } => {
                let up = self.welcomed(remote, generation, welcome, now, None);
                if self.status_line_only() {
                    up.with_status(None)
                } else {
                    up
                }
            },
            EstablishedModel::Bridge { welcome } => self.welcomed(
                remote,
                generation,
                welcome,
                now,
                Some(REMOTE_WRITE_QUEUE_FRAMES),
            ),
            EstablishedModel::WriterFailed { welcome, error } => LoopModel {
                ui: UiModel { ever_connected: true, ..self.ui },
                ..self
            }.with_mirror(
                remote,
                live(m, welcome).lost("writer thread spawn failed: "@ + error),
            ).with_link(remote, LinkModel::Down { retry_at: later(now, SETUP_RETRY_MS) }),
            EstablishedModel::Incompatible { remedy, message } => self.with_mirror(
                remote,
                MirrorModel { connection: ConnectionModel::Incompatible { remedy, message }, ..m },
            ).with_status(
                Some(incompatible_line(m.name, self.is_local(remote), remedy, message)),
            ).with_link(remote, LinkModel::Incompatible),
            EstablishedModel::Stopped { status } => self.parked(remote, m, status),
            EstablishedModel::Failed { error, retry_in } => {
                let lost = self.with_mirror(remote, m.lost(error)).with_link(
                    remote,
                    LinkModel::Down { retry_at: later(now, retry_in) },
                );
                if self.is_local(remote) && self.status_line_only() {
                    lost.with_status(Some("local server unreachable; retrying: "@ + error))
                } else {
                    lost
                }
            },
        }
    }

    /// A connect outcome. Only the attempt that the link waits for may
    /// report; a remote that lost its mirror meanwhile loses its link.
    pub open spec fn established(
        self,
        remote: usize,
        generation: u64,
        outcome: EstablishedModel,
        now: u64,
    ) -> LoopModel {
        if !(self.links.contains_key(remote) && self.links[remote] == (LinkModel::Pending {
            generation,
        })) {
            self
        } else if !self.mirrors.contains_key(remote) {
            LoopModel { links: self.links.remove(remote), ..self }
        } else {
            self.settled(remote, generation, outcome, now)
        }
    }

    /// A link is lost and will be retried. One that is parked stays parked.
    pub open spec fn dropped(self, remote: usize, why: Seq<char>, now: u64) -> LoopModel {
        if !self.links.contains_key(remote) || self.links[remote] is Stopped
            || self.links[remote] is Incompatible {
            self
        } else if !self.mirrors.contains_key(remote) {
            LoopModel { links: self.links.remove(remote), ..self }
        } else {
            let lost = self.with_mirror(remote, self.mirrors[remote].lost(why)).with_link(
                remote,
                LinkModel::Down { retry_at: later(now, LOST_LINK_RETRY_MS) },
            );
            if remote == LOCAL_REMOTE_INDEX && self.status_line_only() {
                lost.with_status(Some(why + "; reconnecting"@))
            } else {
                lost
            }
        }
    }

    /// Whether an event of that generation is current.
    pub open spec fn is_current(self, remote: usize, generation: u64) -> bool {
        self.links.contains_key(remote) && self.links[remote].generation() == Some(generation)
    }

    /// The session has heard from its peer.
    pub open spec fn heard(self, remote: usize, now: u64) -> LoopModel {
        match self.session(remote) {
            Some(s) => self.with_session(remote, SessionModel { last_inbound: now, ..s }),
            None => self,
        }
    }

    /// A frame of the current session is heard and interpreted; any other is
    /// dropped.
    pub open spec fn received(self, remote: usize, generation: u64, frame: Frame, now: u64) -> (
        LoopModel,
        EffectModel,
    ) {
        if self.is_current(remote, generation) {
            frame_step(self.heard(remote, now), remote, frame)
        } else {
            (self, EffectModel::Nothing)
        }
    }

    /// The current session's connection ended.
    pub open spec fn ended(self, remote: usize, generation: u64, now: u64) -> LoopModel {
        if self.is_current(remote, generation) {
            self.dropped(remote, "connection closed"@, now)
        } else {
            self
        }
    }

    /// Whether a link is to be retried now.
    pub open spec fn is_due(self, remote: usize, now: u64) -> bool {
        self.links.contains_key(remote) && (self.links[remote] matches LinkModel::Down { retry_at }
            && now >= retry_at) && self.mirrors.contains_key(remote)
            && self.mirrors[remote].connection.retries()
    }
}

/// The attempts that are under way once remotes were told to connect.
pub open spec fn attempts(m: LoopModel, remotes: Seq<usize>, now: u64) -> Seq<(usize, u64)>
    decreases remotes.len(),
{
    if remotes.len() == 0 {
        Seq::empty()
    } else {
        let before = attempts(m, remotes.drop_last(), now);
        match m.reconnected(remotes.drop_last(), now).connect_begun(remotes.last(), now).1 {
            Some(generation) => before.push((remotes.last(), generation)),
            None => before,
        }
    }
}

/// A mirror with a live session, about to resync.
pub open spec fn live(m: MirrorModel, welcome: WelcomeModel) -> MirrorModel {
    MirrorModel {
        connection: ConnectionModel::Connected {
            protocol: welcome.protocol,
            capabilities: welcome.capabilities,
        },
        ..m
    }.cleared()
}

impl ClientLoop {
    /// Starts a connect attempt for a configured remote, and gives the
    /// generation to connect under.
    pub fn begin_connect(&mut self, remote: usize, now: u64) -> (r: Option<u64>)
        requires
            old(self).wf(),
        ensures
            final(self).wf(),
            (final(self)@, r) == old(self)@.connect_begun(remote, now),
    {
        let ghost before = self@;
        let bridged: bool = match descriptor_at(self.descriptors.as_slice(), remote) {
            Some(d) => d.target.is_some(),
            None => {
                return None;
            },
        };
        let known: bool = self.mirrors.get(remote).is_some();
        let only_channel: bool = self.local_status_line_is_the_only_channel();
        let mut started: Option<u64> = None;
        if bridged || known {
            if let Some(mirror) = self.mirrors.get_mut(remote) {
                mirror.connection.connect_started();
            }
            let generation: u64 = self.ui.next_generation.wrapping_add(1);
            self.ui.next_generation = generation;
            self.set_link(remote, Link::Pending { generation });
            started = Some(generation);
        } else {
            self.set_link(remote, Link::Down { retry_at: now.saturating_add(SETUP_RETRY_MS) });
        }
        if !bridged && only_channel {
            self.chrome.connection_status = Some("connecting to the local server".to_owned());
        }
        assert(self@.mirrors =~= before.connect_begun(remote, now).0.mirrors);
        started
    }

    /// Starts a connect attempt for every remote that is due. Gives the due
    /// remotes, and those of them to connect with their generations.
    pub fn service_reconnects(&mut self, now: u64) -> (r: (Vec<usize>, Vec<(usize, u64)>))
        requires
            old(self).wf(),
        ensures
            final(self).wf(),
            forall|k: usize| #[trigger] old(self)@.is_due(k, now) <==> r.0@.contains(k),
            forall|i: int, j: int| 0 <= i < j < r.0@.len() ==> r.0@[i] < r.0@[j],
            final(self)@ == old(self)@.reconnected(r.0@, now),
            r.1@ == attempts(old(self)@, r.0@, now),
    {
        let ghost before = self@;
        let due = self.due_reconnects(now);
        let mut started: Vec<(usize, u64)> = Vec::new();
        let mut i: usize = 0;
        assert(due@.take(0) =~= Seq::<usize>::empty());
        assert(started@ =~= Seq::<(usize, u64)>::empty());
        while i < due.len()
            invariant
                self.wf(),
                i <= due@.len(),
                self@ == before.reconnected(due@.take(i as int), now),
                started@ == attempts(before, due@.take(i as int), now),
            decreases due@.len() - i,
        {
            proof {
                assert(due@.take(i + 1).drop_last() =~= due@.take(i as int));
                assert(due@.take(i + 1).last() == due@[i as int]);
            }
            let remote: usize = due[i];
            if let Some(generation) = self.begin_connect(remote, now) {
                started.push((remote, generation));
            }
            i = i + 1;
        }
        proof {
            assert(due@.take(i as int) =~= due@);
            assert forall|k: usize| #[trigger] before.is_due(k, now) <==> due@.contains(k) by {
                if due@.contains(k) {
                    let j = choose|j: int| 0 <= j < due@.len() && due@[j] == k;
                    assert(before.is_due(due@[j], now));
                }
            }
        }
        (due, started)
    }

    /// Makes a mirror's session live.
    fn welcome_mirror(&mut self, remote: usize, welcome: SessionWelcome)
        requires
            old(self).wf(),
            old(self)@.mirrors.contains_key(remote),
        ensures
            final(self).wf(),
            final(self)@ == (LoopModel {
                ui: UiModel { ever_connected: true, ..old(self)@.ui },
                ..old(self)@
            }).with_mirror(remote, live(old(self)@.mirrors[remote], welcome@)),
    {
        if let Some(mirror) = self.mirrors.get_mut(remote) {
            mirror.connection.connected(
                NegotiatedSession {
                    protocol: welcome.protocol,
                    capabilities: welcome.capabilities,
                },
            );
            mirror.begin_resync();
        }
        self.ui.ever_connected = true;
    }

    fn start_session(&mut self, remote: usize, generation: u64, now: u64, bound: Option<usize>)
        requires
            old(self).wf(),
            old(self)@.mirrors.contains_key(remote),
        ensures
            final(self).wf(),
            final(self)@ == old(self)@.session_started(remote, generation, now, bound),
    {
        let mut session = Session::fresh(generation, now, bound);
        match session.ask_snapshot() {
            Ok(_) => self.put_session(remote, session),
            Err(e) => {
                let why = "snapshot request failed: ".to_owned().concat(e.message());
                self.lose_mirror(remote, why);
                self.set_link(remote, Link::Down { retry_at: now.saturating_add(SETUP_RETRY_MS) });
            },
        }
    }

    fn lose_mirror(&mut self, remote: usize, error: String)
        requires
            old(self).wf(),
            old(self)@.mirrors.contains_key(remote),
        ensures
            final(self).wf(),
            final(self)@ == old(self)@.with_mirror(
                remote,
                old(self)@.mirrors[remote].lost(error@),
            ),
    {
        if let Some(mirror) = self.mirrors.get_mut(remote) {
            mirror.connection_lost(error);
        }
    }

    fn mirror_name(&self, remote: usize) -> (r: String)
        requires
            self.wf(),
            self@.mirrors.contains_key(remote),
        ensures
            r@ == self@.mirrors[remote].name,
    {
        match self.mirrors.get(remote) {
            Some(mirror) => mirror.name.clone(),
            None => String::new(),
        }
    }

    /// Applies a connect outcome to its link and mirror.
    pub fn handle_established(
        &mut self,
        remote: usize,
        generation: u64,
        outcome: Established,
        now: u64,
    )
        requires
            old(self).wf(),
        ensures
            final(self).wf(),
            final(self)@ == old(self)@.established(remote, generation, outcome@, now),
    {
        let ghost before = self@;
        let current: bool = match self.links.get(&remote) {
            Some(Link::Pending { generation: pending }) => *pending == generation,
            _ => false,
        };
        if !current {
            return;
        }
        if self.mirrors.get(remote).is_none() {
            self.remove_link(remote);
            return;
        }
        let is_local: bool = self.is_local_remote(remote);
        let only_channel: bool = self.local_status_line_is_the_only_channel();
        match outcome {
            Established::Local { welcome } => {
                self.welcome_mirror(remote, welcome);
                if only_channel {
                    self.chrome.connection_status = None;
                }
                self.start_session(remote, generation, now, None);
            },
            Established::Bridge { welcome } => {
                self.welcome_mirror(remote, welcome);
                self.start_session(remote, generation, now, Some(REMOTE_WRITE_QUEUE_FRAMES));
            },
            Established::WriterFailed { welcome, error } => {
                self.welcome_mirror(remote, welcome);
                let why = "writer thread spawn failed: ".to_owned().concat(error.as_str());
                self.lose_mirror(remote, why);
                self.set_link(remote, Link::Down { retry_at: now.saturating_add(SETUP_RETRY_MS) });
                assert(self@.mirrors =~= before.established(
                    remote,
                    generation,
                    outcome@,
                    now,
                ).mirrors);
            },
            Established::Incompatible { remedy, message } => {
                let name = self.mirror_name(remote);
                let status = incompatible_status_line(
                    name.as_str(),
                    is_local,
                    remedy,
                    message.as_str(),
                );
                if let Some(mirror) = self.mirrors.get_mut(remote) {
                    mirror.connection.incompatible(remedy, message);
                }
                self.chrome.connection_status = Some(status);
                self.set_link(remote, Link::Incompatible);
            },
            Established::Stopped { status } => {
                let name = self.mirror_name(remote);
                if let Some(mirror) = self.mirrors.get_mut(remote) {
                    mirror.connection.stopped(status.clone());
                }
                self.chrome.connection_status = Some(status.clone());
                self.chrome.remote_start = Some(
                    RemoteStartPrompt { remote, name, status, error: None, starting: false },
                );
                self.set_link(remote, Link::Stopped);
            },
            Established::Failed { error, retry_in } => {
                if is_local && only_channel {
                    self.chrome.connection_status = Some(
                        "local server unreachable; retrying: ".to_owned().concat(error.as_str()),
                    );
                }
                self.lose_mirror(remote, error);
                self.set_link(remote, Link::Down { retry_at: now.saturating_add(retry_in) });
            },
        }
    }

    /// How many attempts the current connect attempt makes it, for backoff.
    pub fn connect_attempt(&self, remote: usize) -> (r: u32)
        requires
            self.wf(),
        ensures
            r == if self@.mirrors.contains_key(remote) {
                match self@.mirrors[remote].connection {
                    ConnectionModel::Connecting { attempt } => attempt,
                    _ => 1,
                }
            } else {
                1
            },
    {
        match self.mirrors.get(remote) {
            Some(mirror) => match &mirror.connection {
                ClientConnectionState::Connecting { attempt } => *attempt,
                _ => 1,
            },
            None => 1,
        }
    }

    /// Drops a remote's link after its transport died, and schedules a retry.
    pub fn drop_link(&mut self, remote: usize, why: &str, now: u64)
        requires
            old(self).wf(),
        ensures
            final(self).wf(),
            final(self)@ == old(self)@.dropped(remote, why@, now),
    {
        match self.links.get(&remote) {
            None | Some(Link::Stopped) | Some(Link::Incompatible) => {
                return;
            },
            _ => {},
        }
        if self.mirrors.get(remote).is_none() {
            self.remove_link(remote);
            return;
        }
        self.lose_mirror(remote, why.to_owned());
        if remote == LOCAL_REMOTE_INDEX && self.local_status_line_is_the_only_channel() {
            self.chrome.connection_status = Some(why.to_owned().concat("; reconnecting"));
        }
        self.set_link(remote, Link::Down { retry_at: now.saturating_add(LOST_LINK_RETRY_MS) });
    }

    fn is_current_generation(&self, remote: usize, generation: u64) -> (r: bool)
        requires
            self.wf(),
        ensures
            r == self@.is_current(remote, generation),
    {
        match self.links.get(&remote) {
            Some(link) => match link.generation() {
                Some(g) => g == generation,
                None => false,
            },
            None => false,
        }
    }

    /// A frame was read under a link generation. Frames of a session that was
    /// torn down never reach its successor.
    pub fn frame_arrived(&mut self, remote: usize, generation: u64, frame: Frame, now: u64) -> (r:
        FrameEffect)
        requires
            old(self).wf(),
        ensures
            final(self).wf(),
            (final(self)@, r@) == old(self)@.received(remote, generation, frame, now),
    {
        let ghost before = self@;
        if !self.is_current_generation(remote, generation) {
            return FrameEffect::Nothing;
        }
        if let Some(mut session) = self.take_session(remote) {
            session.last_inbound = now;
            self.put_session(remote, session);
            assert(self@.links =~= before.heard(remote, now).links);
        }
        self.handle_server_frame(remote, frame)
    }

    /// A reader's transport died. A stale reader cannot demote its successor.
    pub fn reader_ended(&mut self, remote: usize, generation: u64, now: u64)
        requires
            old(self).wf(),
        ensures
            final(self).wf(),
            final(self)@ == old(self)@.ended(remote, generation, now),
    {
        if self.is_current_generation(remote, generation) {
            self.drop_link(remote, "connection closed", now);
        }
    }

    /// The remotes to reconnect now, in order. View membership plays no part.
    pub fn due_reconnects(&self, now: u64) -> (r: Vec<usize>)
        requires
            self.wf(),
        ensures
            forall|i: int| 0 <= i < r@.len() ==> self@.is_due(#[trigger] r@[i], now),
            forall|k: usize| #[trigger] self@.is_due(k, now) ==> r@.contains(k),
            forall|i: int, j: int| 0 <= i < j < r@.len() ==> r@[i] < r@[j],
    {
        let remotes = self.linked_remotes();
        let mut out: Vec<usize> = Vec::new();
        let mut i: usize = 0;
        while i < remotes.len()
            invariant
                self.wf(),
                i <= remotes@.len(),
                forall|a: int, b: int| 0 <= a < b < remotes@.len() ==> remotes@[a] < remotes@[b],
                forall|j: int| 0 <= j < out@.len() ==> self@.is_due(#[trigger] out@[j], now),
                forall|j: int|
                    0 <= j < i && self@.is_due(#[trigger] remotes@[j], now) ==> out@.contains(
                        remotes@[j],
                    ),
                forall|j: int|
                    0 <= j < out@.len() && i < remotes@.len() ==> #[trigger] out@[j]
                        < remotes@[i as int],
                forall|a: int, b: int| 0 <= a < b < out@.len() ==> out@[a] < out@[b],
            decreases remotes@.len() - i,
        {
            let remote: usize = remotes[i];
            let ghost was = out@;
            let due: bool = match self.links.get(&remote) {
                Some(Link::Down { retry_at }) => now >= *retry_at && match self.mirrors.get(
                    remote,
                ) {
                    Some(mirror) => mirror.connection.may_retry(),
                    None => false,
                },
                _ => false,
            };
            if due {
                out.push(remote);
                assert(out@[was.len() as int] == remote);
            }
            proof {
                assert forall|j: int|
                    0 <= j < i + 1 && self@.is_due(
                        #[trigger] remotes@[j],
                        now,
                    ) implies out@.contains(remotes@[j]) by {
                    if j < i {
                        assert(was.contains(remotes@[j]));
                        let k = choose|k: int| 0 <= k < was.len() && was[k] == remotes@[j];
                        assert(out@[k] == remotes@[j]);
                    }
                }
            }
            i = i + 1;
        }
        proof {
            assert forall|k: usize| #[trigger] self@.is_due(k, now) implies out@.contains(k) by {
                assert(remotes@.contains(k));
                let j = choose|j: int| 0 <= j < remotes@.len() && remotes@[j] == k;
                assert(self@.is_due(remotes@[j], now));
            }
        }
        out
    }
}

/// Whether a session's peer has been silent for too long.
pub open spec fn silent(s: SessionModel, now: u64) -> bool {
    now - s.last_inbound >= REMOTE_PONG_TIMEOUT_MS
}

/// The heartbeat of a session whose peer is alive: a ping when one is due.
pub open spec fn beat(s: SessionModel, now: u64) -> SessionModel {
    if now >= s.next_ping {
        let next = SessionModel { next_ping: later(now, REMOTE_PING_INTERVAL_MS), ..s };
        next.asked(
            "ping"@,
            Pending::Ping,
            request_view(next.next_id("ping"@), PING_METHOD@, Seq::empty()),
        )
    } else {
        s
    }
}

/// What the heartbeat does to one remote: a silent peer's link is dropped, a
/// live one is pinged when due.
pub open spec fn heartbeat(was: LoopModel, now: LoopModel, remote: usize, at: u64) -> bool {
    match was.session(remote) {
        Some(s) => if silent(s, at) {
            if was.mirrors.contains_key(remote) {
                &&& now.links.contains_key(remote)
                &&& now.links[remote] == (LinkModel::Down {
                    retry_at: later(at, LOST_LINK_RETRY_MS),
                })
                &&& now.mirrors.contains_key(remote)
                &&& now.mirrors[remote] == was.mirrors[remote].lost("heartbeat timed out"@)
            } else {
                !now.links.contains_key(remote) && !now.mirrors.contains_key(remote)
            }
        } else {
            now.session(remote) == Some(beat(s, at)) && same_mirror(was, now, remote)
        },
        None => same_link(was, now, remote) && same_mirror(was, now, remote),
    }
}

pub open spec fn same_link(was: LoopModel, now: LoopModel, remote: usize) -> bool {
    &&& now.links.contains_key(remote) == was.links.contains_key(remote)
    &&& was.links.contains_key(remote) ==> now.links[remote] == was.links[remote]
}

pub open spec fn same_mirror(was: LoopModel, now: LoopModel, remote: usize) -> bool {
    &&& now.mirrors.contains_key(remote) == was.mirrors.contains_key(remote)
    &&& was.mirrors.contains_key(remote) ==> now.mirrors[remote] == was.mirrors[remote]
}

/// Whether the head's link is dropped and only the status line can say so.
pub open spec fn head_went_silent(m: LoopModel, at: u64) -> bool {
    &&& m.session(LOCAL_REMOTE_INDEX) matches Some(s) && silent(s, at)
    &&& m.mirrors.contains_key(LOCAL_REMOTE_INDEX)
    &&& m.status_line_only()
}

impl ClientLoop {
    fn beat_one(&mut self, remote: usize, now: u64)
        requires
            old(self).wf(),
        ensures
            final(self).wf(),
            heartbeat(old(self)@, final(self)@, remote, now),
            forall|k: usize|
                k != remote ==> #[trigger] same_link(old(self)@, final(self)@, k),
            forall|k: usize|
                k != remote ==> #[trigger] same_mirror(old(self)@, final(self)@, k),
            final(self)@ == (LoopModel {
                links: final(self)@.links,
                mirrors: final(self)@.mirrors,
                ..old(self)@
            }).with_status(
                if remote == LOCAL_REMOTE_INDEX && head_went_silent(old(self)@, now) {
                    Some("heartbeat timed out; reconnecting"@)
                } else {
                    old(self)@.chrome.connection_status
                },
            ),
    {
        proof {
            reveal_strlit("heartbeat timed out");
            reveal_strlit("; reconnecting");
            reveal_strlit("heartbeat timed out; reconnecting");
            assert("heartbeat timed out"@ + "; reconnecting"@
                =~= "heartbeat timed out; reconnecting"@);
        }
        let ghost before = self@;
        let mut session = match self.take_session(remote) {
            Some(session) => session,
            None => {
                return;
            },
        };
        let silence: u64 = now.saturating_sub(session.last_inbound);
        if silence >= REMOTE_PONG_TIMEOUT_MS {
            self.put_session(remote, session);
            assert(self@.links =~= before.links);
            self.drop_link(remote, "heartbeat timed out", now);
            return;
        }
        if now >= session.next_ping {
            session.next_ping = now.saturating_add(REMOTE_PING_INTERVAL_MS);
            let ghost due = session@;
            let id = session.request_id("ping");
            let request = ping_request(id.as_str());
            let copy = id.clone();
            session.expect(copy, Pending::Ping);
            if session.send_control(request).is_err() {
                session.settle(id.as_str());
                assert(session@.pending =~= due.numbered().settled(id@).pending);
            }
        }
        self.put_session(remote, session);
    }

    /// Pings every established link and drops links whose peer has been
    /// silent for too long, whatever the transport. True when a link changed.
    pub fn service_remote_heartbeats(&mut self, now: u64) -> (r: bool)
        requires
            old(self).wf(),
        ensures
            final(self).wf(),
            forall|remote: usize| #[trigger] heartbeat(old(self)@, final(self)@, remote, now),
            r == exists|remote: usize|
                #[trigger] old(self)@.session(remote) matches Some(s) && silent(s, now),
            final(self)@ == (LoopModel {
                links: final(self)@.links,
                mirrors: final(self)@.mirrors,
                ..old(self)@
            }).with_status(
                if head_went_silent(old(self)@, now) {
                    Some("heartbeat timed out; reconnecting"@)
                } else {
                    old(self)@.chrome.connection_status
                },
            ),
    {
        let ghost was = self@;
        let remotes = self.linked_remotes();
        let mut changed: bool = false;
        let mut i: usize = 0;
        while i < remotes.len()
            invariant
                was == old(self)@,
                self.wf(),
                i <= remotes@.len(),
                forall|a: int, b: int| 0 <= a < b < remotes@.len() ==> remotes@[a] < remotes@[b],
                forall|k: usize| #[trigger] was.links.contains_key(k) ==> remotes@.contains(k),
                forall|j: int|
                    0 <= j < i ==> heartbeat(was, self@, #[trigger] remotes@[j], now),
                forall|j: int|
                    i <= j < remotes@.len() ==> same_link(was, self@, #[trigger] remotes@[j])
                        && same_mirror(was, self@, remotes@[j]),
                forall|k: usize|
                    !remotes@.contains(k) ==> #[trigger] same_link(was, self@, k),
                forall|k: usize|
                    !remotes@.contains(k) ==> #[trigger] same_mirror(was, self@, k),
                changed == exists|j: int|
                    0 <= j < i && (#[trigger] was.session(remotes@[j]) matches Some(s) && silent(
                        s,
                        now,
                    )),
                self@ == (LoopModel {
                    links: self@.links,
                    mirrors: self@.mirrors,
                    ..was
                }).with_status(
                    if (exists|j: int| 0 <= j < i && #[trigger] remotes@[j] == LOCAL_REMOTE_INDEX)
                        && head_went_silent(was, now) {
                        Some("heartbeat timed out; reconnecting"@)
                    } else {
                        was.chrome.connection_status
                    },
                ),
            decreases remotes@.len() - i,
        {
            let ghost before = self@;
            let remote: usize = remotes[i];
            let dead: bool = match self.links.get(&remote) {
                Some(Link::Up(session)) => now.saturating_sub(session.last_inbound)
                    >= REMOTE_PONG_TIMEOUT_MS,
                _ => false,
            };
            proof {
                assert(same_link(was, before, remotes@[i as int]));
                assert(before.session(remote) == was.session(remote));
                assert(dead == (was.session(remote) matches Some(s) && silent(s, now)));
            }
            self.beat_one(remote, now);
            proof {
                assert forall|j: int| 0 <= j < i + 1 implies heartbeat(
                    was,
                    self@,
                    #[trigger] remotes@[j],
                    now,
                ) by {
                    if j < i {
                        assert(remotes@[j] < remotes@[i as int]);
                        assert(same_link(before, self@, remotes@[j]));
                        assert(same_mirror(before, self@, remotes@[j]));
                    }
                }
                assert forall|j: int| i + 1 <= j < remotes@.len() implies same_link(
                    was,
                    self@,
                    #[trigger] remotes@[j],
                ) && same_mirror(was, self@, remotes@[j]) by {
                    assert(remotes@[i as int] < remotes@[j]);
                    assert(same_link(before, self@, remotes@[j]));
                    assert(same_mirror(before, self@, remotes@[j]));
                }
                assert forall|k: usize| !remotes@.contains(k) implies #[trigger] same_link(
                    was,
                    self@,
                    k,
                ) by {
                    assert(same_link(before, self@, k));
                    assert(same_link(was, before, k));
                }
                assert forall|k: usize| !remotes@.contains(k) implies #[trigger] same_mirror(
                    was,
                    self@,
                    k,
                ) by {
                    assert(same_mirror(before, self@, k));
                    assert(same_mirror(was, before, k));
                }
                if dead {
                    assert(was.session(remotes@[i as int]) matches Some(s) && silent(s, now));
                }
                assert((changed || dead) == exists|j: int|
                    0 <= j < i + 1 && (#[trigger] was.session(remotes@[j]) matches Some(s)
                        && silent(s, now)));
                assert(head_went_silent(before, now) == head_went_silent(was, now)
                    || remote != LOCAL_REMOTE_INDEX);
                if remote == LOCAL_REMOTE_INDEX {
                    assert(remotes@[i as int] == LOCAL_REMOTE_INDEX);
                }
                assert((exists|j: int|
                    0 <= j < i + 1 && #[trigger] remotes@[j] == LOCAL_REMOTE_INDEX) == ((exists|
                    j: int,
                |
                    0 <= j < i && #[trigger] remotes@[j] == LOCAL_REMOTE_INDEX) || remote
                    == LOCAL_REMOTE_INDEX));
            }
            changed = changed || dead;
            i = i + 1;
        }
        proof {
            assert forall|remote: usize| #[trigger] heartbeat(was, self@, remote, now) by {
                if remotes@.contains(remote) {
                    let j = choose|j: int| 0 <= j < remotes@.len() && remotes@[j] == remote;
                    assert(heartbeat(was, self@, remotes@[j], now));
                } else {
                    assert(!was.links.contains_key(remote));
                    assert(same_link(was, self@, remote));
                    assert(same_mirror(was, self@, remote));
                }
            }
            if exists|remote: usize|
                #[trigger] was.session(remote) matches Some(s) && silent(s, now) {
                let remote = choose|remote: usize|
                    #[trigger] was.session(remote) matches Some(s) && silent(s, now);
                assert(was.links.contains_key(remote));
                let j = choose|j: int| 0 <= j < remotes@.len() && remotes@[j] == remote;
                assert(was.session(remotes@[j]) matches Some(s) && silent(s, now));
            }
            if head_went_silent(was, now) {
                assert(was.links.contains_key(LOCAL_REMOTE_INDEX));
                let j = choose|j: int|
                    0 <= j < remotes@.len() && remotes@[j] == LOCAL_REMOTE_INDEX;
                assert(remotes@[j] == LOCAL_REMOTE_INDEX);
            }
        }
        changed
    }
}

/// An announced stop outlives the end of the connection that follows it: a
/// parked link is neither dropped nor retried.
pub proof fn announced_stops_stay_parked(m: LoopModel, remote: usize, reason: Seq<char>, now: u64)
    requires
        m.mirrors.contains_key(remote),
    ensures
        m.stop_announced(remote, reason).dropped(remote, "connection closed"@, now)
            == m.stop_announced(remote, reason),
        !m.stop_announced(remote, reason).is_due(remote, now),
        m.stop_announced(remote, reason).mirrors[remote].streams_sound(),
{
}

/// An unannounced end of a connection keeps the remote on the retry ladder.
pub proof fn lost_links_are_retried(m: LoopModel, remote: usize, why: Seq<char>, now: u64)
    requires
        m.mirrors.contains_key(remote),
        m.links.contains_key(remote),
        !(m.links[remote] is Stopped),
        !(m.links[remote] is Incompatible),
    ensures
        m.dropped(remote, why, now).is_due(remote, later(now, LOST_LINK_RETRY_MS)),
        m.dropped(remote, why, now).mirrors[remote].catalog == m.mirrors[remote].catalog,
        m.dropped(remote, why, now).mirrors[remote].streams_sound(),
{
}

/// An event of a generation that is not current changes nothing.
pub proof fn stale_outcomes_change_nothing(
    m: LoopModel,
    remote: usize,
    generation: u64,
    outcome: EstablishedModel,
    now: u64,
)
    requires
        !m.is_current(remote, generation),
    ensures
        m.established(remote, generation, outcome, now) == m,
{
}

/// After a heartbeat no live session has a silent peer, and a remote that
/// went silent no longer counts as connected.
pub proof fn silent_peers_lose_their_link(was: LoopModel, now: LoopModel, remote: usize, at: u64)
    requires
        heartbeat(was, now, remote, at),
    ensures
        now.session(remote) matches Some(s) ==> !silent(s, at),
        (was.session(remote) matches Some(s) && silent(s, at) && was.mirrors.contains_key(remote))
            ==> now.mirrors.contains_key(remote) && now.mirrors[remote].connection is Offline,
{
}

/// What is in view never decides what is reconnected: a remote that is
/// filtered out is retried like any other.
pub proof fn filtered_remotes_keep_reconnecting(
    was: LoopModel,
    now_shown: LoopModel,
    remote: usize,
    now: u64,
)
    requires
        now_shown == (LoopModel { chrome: now_shown.chrome, ..was }),
    ensures
        now_shown.is_due(remote, now) == was.is_due(remote, now),
{
}

} // verus!
