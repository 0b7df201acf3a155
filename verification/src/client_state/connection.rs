//! The connection lifecycle of one remote, as pure transitions.
use crate::protocol::framed::{HelloRemedy, NegotiatedSession};
use crate::text::texts;
use vstd::prelude::*;

verus! {

/// Connection lifecycle of one remote as the client sees it.
#[derive(Clone, PartialEq, Eq, Debug)]
pub enum ClientConnectionState {
    /// No connection and none in flight.
    Disconnected,
    /// A connect-plus-handshake attempt is in flight.
    Connecting { attempt: u32 },
    /// A live negotiated session.
    Connected { negotiated: NegotiatedSession },
    /// Not connected; retrying. `attempt` counts consecutive failures.
    Offline { attempt: u32, last_error: String },
    /// Reachable and installed, but no server running there. Terminal until
    /// the user says to start one.
    Stopped { message: String },
    /// The version windows do not overlap. Terminal until a side is upgraded.
    Incompatible { remedy: HelloRemedy, message: String },
}

/// The mathematical value of a connection state.
pub enum ConnectionModel {
    Disconnected,
    Connecting { attempt: u32 },
    Connected { protocol: u32, capabilities: Seq<Seq<char>> },
    Offline { attempt: u32, last_error: Seq<char> },
    Stopped { message: Seq<char> },
    Incompatible { remedy: HelloRemedy, message: Seq<char> },
}

impl View for ClientConnectionState {
    type V = ConnectionModel;

    open spec fn view(&self) -> ConnectionModel {
        match *self {
            ClientConnectionState::Disconnected => ConnectionModel::Disconnected,
            ClientConnectionState::Connecting { attempt } => ConnectionModel::Connecting {
                attempt,
            },
            ClientConnectionState::Connected { negotiated } => ConnectionModel::Connected {
                protocol: negotiated.protocol,
                capabilities: texts(negotiated.capabilities@),
            },
            ClientConnectionState::Offline { attempt, last_error } => ConnectionModel::Offline {
                attempt,
                last_error: last_error@,
            },
            ClientConnectionState::Stopped { message } => ConnectionModel::Stopped {
                message: message@,
            },
            ClientConnectionState::Incompatible { remedy, message } =>
                ConnectionModel::Incompatible { remedy, message: message@ },
        }
    }
}

impl ConnectionModel {
    /// Whether the loop may start another attempt.
    pub open spec fn retries(self) -> bool {
        self is Disconnected || self is Offline
    }

    /// The number of the attempt that starts from this state.
    pub open spec fn next_attempt(self) -> u32 {
        let failed = match self {
            ConnectionModel::Offline { attempt, .. } => attempt,
            ConnectionModel::Connecting { attempt } => attempt,
            _ => 0,
        };
        if failed == u32::MAX {
            u32::MAX
        } else {
            (failed + 1) as u32
        }
    }

    /// The failures counted so far, when this state fails.
    pub open spec fn failures(self) -> u32 {
        match self {
            ConnectionModel::Connecting { attempt } => attempt,
            ConnectionModel::Offline { attempt, .. } => attempt,
            _ => 0,
        }
    }

    /// The state once this one has failed.
    pub open spec fn failed(self, error: Seq<char>) -> ConnectionModel {
        ConnectionModel::Offline { attempt: self.failures(), last_error: error }
    }

    /// Whether the live session grants a capability.
    pub open spec fn grants(self, capability: Seq<char>) -> bool {
        self matches ConnectionModel::Connected { capabilities, .. } && capabilities.contains(
            capability,
        )
    }
}

impl ClientConnectionState {
    pub fn new() -> (r: ClientConnectionState)
        ensures
            r@ == ConnectionModel::Disconnected,
    {
        ClientConnectionState::Disconnected
    }

    pub fn is_connected(&self) -> (r: bool)
        ensures
            r == (self@ is Connected),
    {
        matches!(self, ClientConnectionState::Connected { .. })
    }

    /// `Stopped` and `Incompatible` are terminal: retrying changes neither.
    pub fn may_retry(&self) -> (r: bool)
        ensures
            r == self@.retries(),
    {
        matches!(self, ClientConnectionState::Disconnected | ClientConnectionState::Offline { .. })
    }

    /// Whether this remote waits on an explicit start.
    pub fn is_stopped(&self) -> (r: bool)
        ensures
            r == (self@ is Stopped),
    {
        matches!(self, ClientConnectionState::Stopped { .. })
    }

    /// Whether an attempt is in flight.
    pub fn is_connecting(&self) -> (r: bool)
        ensures
            r == (self@ is Connecting),
    {
        matches!(self, ClientConnectionState::Connecting { .. })
    }

    /// A connect attempt started.
    pub fn connect_started(&mut self)
        ensures
            final(self)@ == (ConnectionModel::Connecting { attempt: old(self)@.next_attempt() }),
    {
        let attempt: u32 = match &*self {
            ClientConnectionState::Offline { attempt, last_error: _ } => attempt.saturating_add(1),
            ClientConnectionState::Connecting { attempt } => attempt.saturating_add(1),
            _ => 1,
        };
        *self = ClientConnectionState::Connecting { attempt };
    }

    /// The handshake completed; the session is live.
    pub fn connected(&mut self, negotiated: NegotiatedSession)
        ensures
            final(self)@ == (ConnectionModel::Connected {
                protocol: negotiated.protocol,
                capabilities: texts(negotiated.capabilities@),
            }),
    {
        *self = ClientConnectionState::Connected { negotiated };
    }

    /// A connect attempt or a live session failed.
    pub fn connection_failed(&mut self, error: String)
        ensures
            final(self)@ == old(self)@.failed(error@),
    {
        let attempt: u32 = match &*self {
            ClientConnectionState::Connecting { attempt } => *attempt,
            ClientConnectionState::Offline { attempt, last_error: _ } => *attempt,
            _ => 0,
        };
        *self = ClientConnectionState::Offline { attempt, last_error: error };
    }

    /// The far side has no running server.
    pub fn stopped(&mut self, message: String)
        ensures
            final(self)@ == (ConnectionModel::Stopped { message: message@ }),
    {
        *self = ClientConnectionState::Stopped { message };
    }

    /// The handshake failed because the version windows do not overlap.
    pub fn incompatible(&mut self, remedy: HelloRemedy, message: String)
        ensures
            final(self)@ == (ConnectionModel::Incompatible { remedy, message: message@ }),
    {
        *self = ClientConnectionState::Incompatible { remedy, message };
    }

    /// The negotiated session of the current connection, when live.
    pub fn negotiated(&self) -> (r: Option<&NegotiatedSession>)
        ensures
            match r {
                Some(n) => *self == (ClientConnectionState::Connected { negotiated: *n }),
                None => !(self@ is Connected),
            },
    {
        match self {
            ClientConnectionState::Connected { negotiated } => Some(negotiated),
            _ => None,
        }
    }

    pub fn has_capability(&self, capability: &str) -> (r: bool)
        ensures
            r == self@.grants(capability@),
    {
        match self {
            ClientConnectionState::Connected { negotiated } => negotiated.has_capability(
                capability,
            ),
            _ => false,
        }
    }
}

/// Consecutive failures climb by one each: an attempt that starts offline and
/// fails is counted, until the counter saturates.
pub proof fn failures_escalate(state: ConnectionModel, error: Seq<char>)
    requires
        state is Offline,
        state.failures() < u32::MAX,
    ensures
        (ConnectionModel::Connecting { attempt: state.next_attempt() }).failed(error).failures()
            == state.failures() + 1,
{
}

/// A session that had been live starts the ladder over: whatever came before,
/// its loss counts no failure and the next attempt is the first.
pub proof fn a_live_session_restarts_the_ladder(state: ConnectionModel, error: Seq<char>)
    requires
        state is Connected,
    ensures
        state.failed(error).failures() == 0,
        state.failed(error).next_attempt() == 1,
        state.failed(error).retries(),
{
}

/// A stopped or incompatible remote is never retried.
pub proof fn dead_ends_are_terminal(state: ConnectionModel)
    requires
        state is Stopped || state is Incompatible,
    ensures
        !state.retries(),
{
}

} // verus!
