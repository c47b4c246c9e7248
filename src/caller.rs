//! The caller side: negotiates a pairing with the broker for a known session
//! identifier, opens the data connection, then splices it to one local
//! application connection. A rejection is transient: the caller waits and
//! asks again, with no limit on the number of attempts.
use vstd::prelude::*;
use crate::codec::{
    read_ack, ack_accepts, ack_of, Header, Role, ACTION_OPEN_DATA,
};

verus! {

/// Seconds a caller waits after a rejection or a failure before it asks again.
pub const RETRY_BACKOFF_SECS: u64 = 1;

#[derive(Clone, Copy, Debug, PartialEq, Eq, Structural)]
pub enum CallerState {
    /// About to open a control connection to the broker.
    Connecting,
    /// Pairing request sent; waiting for the broker's acknowledgment.
    AwaitingAck,
    /// Paired; action sent and the data connection being opened.
    OpeningData,
    /// Data connection open; waiting for a local application connection.
    AwaitingLocal,
    /// Data and local connections are spliced.
    Splicing,
}

/// What the driver observed after carrying out the last command.
#[derive(Clone, Copy, Debug, PartialEq, Eq, Structural)]
pub enum CallerEvent {
    BrokerConnected,
    BrokerUnreachable,
    /// The broker's acknowledgment byte.
    Ack(u8),
    /// Reading the acknowledgment failed.
    AckLost,
    DataConnected,
    DataUnreachable,
    LocalAccepted,
    /// Accepting on the local listener failed.
    LocalFailed,
    /// The splice returned, by end of stream or by error.
    SpliceEnded,
}

/// What the driver does next.
#[derive(Clone, Copy, Debug, PartialEq, Eq, Structural)]
pub enum CallerCommand {
    /// Open a control connection to the broker.
    ConnectBroker,
    /// Write this header on the control connection, then read one byte.
    Request { header: Header },
    /// Write this action byte on the control connection, then open a second
    /// connection to the broker.
    OpenData { action: u8 },
    /// Accept one connection on the local listener.
    AcceptLocal,
    /// Splice the data connection with the local connection.
    Splice,
    /// Drop the open connections, wait `RETRY_BACKOFF_SECS`, then open a new
    /// one to the broker.
    RetryAfterBackoff,
}

/// The header of a pairing request from `id` for session `target`.
pub open spec fn request_header(id: u8, target: u8) -> Header {
    Header { connection_id: id, role: Role::Sub, target }
}

/// The transition table of the caller agent.
pub open spec fn caller_next(id: u8, target: u8, s: CallerState, e: CallerEvent) -> (
    CallerState,
    CallerCommand,
) {
    match (s, e) {
        (CallerState::Connecting, CallerEvent::BrokerConnected) =>
            (CallerState::AwaitingAck, CallerCommand::Request { header: request_header(id, target) }),
        (CallerState::AwaitingAck, CallerEvent::Ack(b)) =>
            if ack_accepts(b) {
                (CallerState::OpeningData, CallerCommand::OpenData { action: ACTION_OPEN_DATA })
            } else {
                (CallerState::Connecting, CallerCommand::RetryAfterBackoff)
            },
        (CallerState::OpeningData, CallerEvent::DataConnected) =>
            (CallerState::AwaitingLocal, CallerCommand::AcceptLocal),
        (CallerState::AwaitingLocal, CallerEvent::LocalAccepted) =>
            (CallerState::Splicing, CallerCommand::Splice),
        (CallerState::Splicing, CallerEvent::SpliceEnded) =>
            (CallerState::Connecting, CallerCommand::ConnectBroker),
        _ => (CallerState::Connecting, CallerCommand::RetryAfterBackoff),
    }
}

pub struct Caller {
    /// This caller's own identifier, sent in its header.
    pub id: u8,
    /// The session identifier it asks to be paired with.
    pub target: u8,
    pub state: CallerState,
}

impl Caller {
    /// A caller about to connect; its first command is `ConnectBroker`.
    pub fn new(id: u8, target: u8) -> (r: Caller)
        ensures
            r.id == id,
            r.target == target,
            r.state == CallerState::Connecting,
    {
        Caller { id, target, state: CallerState::Connecting }
    }

    /// Moves to the next state on `e` and says what to do. A rejection, any
    /// failure or an event that does not fit the state leads to a retry after
    /// the backoff; a finished splice starts the next negotiation at once.
    pub fn step(&mut self, e: CallerEvent) -> (r: CallerCommand)
        ensures
            final(self).id == old(self).id,
            final(self).target == old(self).target,
            (final(self).state, r) == caller_next(old(self).id, old(self).target, old(self).state, e),
    {
        let (s, c) = match (self.state, e) {
            (CallerState::Connecting, CallerEvent::BrokerConnected) => (
                CallerState::AwaitingAck,
                CallerCommand::Request {
                    header: Header { connection_id: self.id, role: Role::Sub, target: self.target },
                },
            ),
            (CallerState::AwaitingAck, CallerEvent::Ack(b)) => {
                if read_ack(b) {
                    (CallerState::OpeningData, CallerCommand::OpenData { action: ACTION_OPEN_DATA })
                } else {
                    (CallerState::Connecting, CallerCommand::RetryAfterBackoff)
                }
            },
            (CallerState::OpeningData, CallerEvent::DataConnected) => (
                CallerState::AwaitingLocal,
                CallerCommand::AcceptLocal,
            ),
            (CallerState::AwaitingLocal, CallerEvent::LocalAccepted) => (
                CallerState::Splicing,
                CallerCommand::Splice,
            ),
            (CallerState::Splicing, CallerEvent::SpliceEnded) => (
                CallerState::Connecting,
                CallerCommand::ConnectBroker,
            ),
            _ => (CallerState::Connecting, CallerCommand::RetryAfterBackoff),
        };
        self.state = s;
        c
    }
}

/// A request for `target` made before any backend registers under it is
/// rejected, and the caller backs off and asks again; once a backend has
/// registered, the same request is accepted and the caller goes on to open
/// the data connection.
pub proof fn lemma_reject_then_retry<C>(m: Map<u8, C>, conn: C, id: u8, target: u8)
    requires
        !m.contains_key(target),
    ensures
        caller_next(id, target, CallerState::AwaitingAck, CallerEvent::Ack(ack_of(m.contains_key(target))))
            == (CallerState::Connecting, CallerCommand::RetryAfterBackoff),
        caller_next(id, target, CallerState::Connecting, CallerEvent::BrokerConnected)
            == (CallerState::AwaitingAck, CallerCommand::Request { header: request_header(id, target) }),
        m.insert(target, conn).contains_key(target),
        caller_next(
            id,
            target,
            CallerState::AwaitingAck,
            CallerEvent::Ack(ack_of(m.insert(target, conn).contains_key(target))),
        ) == (CallerState::OpeningData, CallerCommand::OpenData { action: ACTION_OPEN_DATA }),
{
}

} // verus!
