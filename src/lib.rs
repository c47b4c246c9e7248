//! A three-party TCP rendezvous relay: a broker pairs a registered backend
//! ("main") connection with a caller ("sub") connection and splices them.
//!
//! This crate holds the relay's logic: the handshake codec, the session
//! registry with exactly-once pairing, the broker's per-connection decisions
//! and the state machines of the two agents. The byte I/O itself is left to
//! the program that drives these functions.
pub mod broker;
pub mod caller;
pub mod codec;
pub mod main_agent;
pub mod registry;
