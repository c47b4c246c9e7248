//! The backend side: registers a session with the broker and, once a caller
//! is paired with it, splices the broker connection to the backend service.
//! Each pairing consumes the registration, so the cycle then starts over.
use vstd::prelude::*;
use crate::codec::{read_ack, ack_accepts, Header, Role};

verus! {

#[derive(Clone, Copy, Debug, PartialEq, Eq, Structural)]
pub enum MainState {
    /// About to open a control connection to the broker.
    Connecting,
    /// Header sent; waiting for the broker's acknowledgment.
    AwaitingAck,
    /// Registered and paired; opening the connection to the backend.
    ConnectingBackend,
    /// Broker and backend connections are spliced.
    Splicing,
}

/// What the driver observed after carrying out the last command.
#[derive(Clone, Copy, Debug, PartialEq, Eq, Structural)]
pub enum MainEvent {
    BrokerConnected,
    BrokerUnreachable,
    /// The broker's acknowledgment byte.
    Ack(u8),
    /// Reading the acknowledgment failed.
    AckLost,
    BackendConnected,
    BackendUnreachable,
    /// The splice returned, by end of stream or by error.
    SpliceEnded,
}

/// What the driver does next.
#[derive(Clone, Copy, Debug, PartialEq, Eq, Structural)]
pub enum MainCommand {
    /// Open a control connection to the broker.
    ConnectBroker,
    /// Write this header on the control connection, then read one byte.
    Register { header: Header },
    /// Open a connection to the backend service.
    ConnectBackend,
    /// Splice the control connection with the backend connection.
    Splice,
    /// Drop any open connection, wait, then open a new one to the broker.
    RetryAfterBackoff,
}

/// The header a backend registers with: its own identifier, no target.
pub open spec fn registration_header(id: u8) -> Header {
    Header { connection_id: id, role: Role::Main, target: 0 }
}

/// The transition table of the backend agent.
pub open spec fn main_next(id: u8, s: MainState, e: MainEvent) -> (MainState, MainCommand) {
    match (s, e) {
        (MainState::Connecting, MainEvent::BrokerConnected) =>
            (MainState::AwaitingAck, MainCommand::Register { header: registration_header(id) }),
        (MainState::AwaitingAck, MainEvent::Ack(b)) =>
            if ack_accepts(b) {
                (MainState::ConnectingBackend, MainCommand::ConnectBackend)
            } else {
                (MainState::Connecting, MainCommand::RetryAfterBackoff)
            },
        (MainState::ConnectingBackend, MainEvent::BackendConnected) =>
            (MainState::Splicing, MainCommand::Splice),
        (MainState::Splicing, MainEvent::SpliceEnded) =>
            (MainState::Connecting, MainCommand::ConnectBroker),
        _ => (MainState::Connecting, MainCommand::RetryAfterBackoff),
    }
}

pub struct MainAgent {
    /// The session identifier this backend registers under.
    pub id: u8,
    pub state: MainState,
}

impl MainAgent {
    /// A backend agent about to connect; its first command is `ConnectBroker`.
    pub fn new(id: u8) -> (r: MainAgent)
        ensures
            r.id == id,
            r.state == MainState::Connecting,
    {
        MainAgent { id, state: MainState::Connecting }
    }

    /// Moves to the next state on `e` and says what to do. Any failure, a
    /// rejection or an event that does not fit the state starts the cycle
    /// over after a backoff; a finished splice starts it over at once.
    pub fn step(&mut self, e: MainEvent) -> (r: MainCommand)
        ensures
            final(self).id == old(self).id,
            (final(self).state, r) == main_next(old(self).id, old(self).state, e),
    {
        let (s, c) = match (self.state, e) {
            (MainState::Connecting, MainEvent::BrokerConnected) => (
                MainState::AwaitingAck,
                MainCommand::Register {
                    header: Header { connection_id: self.id, role: Role::Main, target: 0 },
                },
            ),
            (MainState::AwaitingAck, MainEvent::Ack(b)) => {
                if read_ack(b) {
                    (MainState::ConnectingBackend, MainCommand::ConnectBackend)
                } else {
                    (MainState::Connecting, MainCommand::RetryAfterBackoff)
                }
            },
            (MainState::ConnectingBackend, MainEvent::BackendConnected) => (
                MainState::Splicing,
                MainCommand::Splice,
            ),
            (MainState::Splicing, MainEvent::SpliceEnded) => (
                MainState::Connecting,
                MainCommand::ConnectBroker,
            ),
            _ => (MainState::Connecting, MainCommand::RetryAfterBackoff),
        };
        self.state = s;
        c
    }
}

} // verus!
