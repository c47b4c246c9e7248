//! The wire format: a fixed three-byte handshake header, one-byte
//! acknowledgments and one-byte action codes.
use vstd::prelude::*;

verus! {

/// Byte of the role field that marks a caller.
pub const ROLE_SUB: u8 = 0;

/// Byte of the role field that marks a backend registration.
pub const ROLE_MAIN: u8 = 1;

/// Acknowledgment byte written on acceptance.
pub const ACK_ACCEPT: u8 = 1;

/// Acknowledgment byte written on rejection.
pub const ACK_REJECT: u8 = 0;

/// Action byte asking the broker to splice a second connection to the match.
pub const ACTION_OPEN_DATA: u8 = 0x12;

/// Who opened a connection to the broker.
#[derive(Clone, Copy, Debug, PartialEq, Eq, Structural)]
pub enum Role {
    /// A caller asking to be paired with a registered backend.
    Sub,
    /// A backend registering itself under its own identifier.
    Main,
}

/// The header sent first on every connection to the broker.
#[derive(Clone, Copy, Debug, PartialEq, Eq, Structural)]
pub struct Header {
    /// Identifies the sender; for a `Main` it is the session identifier.
    pub connection_id: u8,
    pub role: Role,
    /// Session identifier to pair with; meaningful only for a `Sub`.
    pub target: u8,
}

/// A byte on the wire that the protocol does not define.
#[derive(Clone, Copy, Debug, PartialEq, Eq, Structural)]
pub enum ProtocolError {
    /// The role field of a header held this byte.
    UnknownRole(u8),
    /// A paired caller sent this action byte.
    UnknownAction(u8),
}

/// What a paired caller asks the broker to do next.
#[derive(Clone, Copy, Debug, PartialEq, Eq, Structural)]
pub enum Action {
    /// Accept the caller's next connection and splice it to the matched backend.
    OpenData,
}

pub open spec fn role_byte(r: Role) -> u8 {
    match r {
        Role::Sub => ROLE_SUB,
        Role::Main => ROLE_MAIN,
    }
}

/// The three bytes of a header, in wire order.
pub open spec fn header_bytes(h: Header) -> Seq<u8> {
    seq![h.connection_id, role_byte(h.role), h.target]
}

/// Whether a byte names one of the two roles.
pub open spec fn is_role_byte(b: u8) -> bool {
    b == ROLE_SUB || b == ROLE_MAIN
}

/// An acknowledgment byte means acceptance unless it is zero.
pub open spec fn ack_accepts(b: u8) -> bool {
    b != ACK_REJECT
}

pub open spec fn ack_of(accept: bool) -> u8 {
    if accept { ACK_ACCEPT } else { ACK_REJECT }
}

impl Role {
    pub fn to_byte(self) -> (r: u8)
        ensures
            r == role_byte(self),
    {
        match self {
            Role::Sub => ROLE_SUB,
            Role::Main => ROLE_MAIN,
        }
    }

    pub fn from_byte(b: u8) -> (r: Option<Role>)
        ensures
            r is Some <==> is_role_byte(b),
            r matches Some(role) ==> role_byte(role) == b,
    {
        if b == ROLE_SUB {
            Some(Role::Sub)
        } else if b == ROLE_MAIN {
            Some(Role::Main)
        } else {
            None
        }
    }
}

/// Writes a header as its three wire bytes.
pub fn encode(h: &Header) -> (r: [u8; 3])
    ensures
        r@ == header_bytes(*h),
{
    let r: [u8; 3] = [h.connection_id, h.role.to_byte(), h.target];
    assert(r@ =~= header_bytes(*h));
    r
}

/// Reads a header from its three wire bytes; fails only on an unknown role.
pub fn decode(bytes: [u8; 3]) -> (r: Result<Header, ProtocolError>)
    ensures
        r is Ok <==> is_role_byte(bytes@[1]),
        r matches Ok(h) ==> header_bytes(h) == bytes@,
        r matches Err(e) ==> e == ProtocolError::UnknownRole(bytes@[1]),
{
    match Role::from_byte(bytes[1]) {
        Some(role) => {
            let h = Header { connection_id: bytes[0], role, target: bytes[2] };
            assert(header_bytes(h) =~= bytes@);
            Ok(h)
        },
        None => Err(ProtocolError::UnknownRole(bytes[1])),
    }
}

/// The acknowledgment byte for a decision: one to accept, zero to reject.
pub fn ack_byte(accept: bool) -> (r: u8)
    ensures
        r == ack_of(accept),
        ack_accepts(r) == accept,
{
    if accept { ACK_ACCEPT } else { ACK_REJECT }
}

/// Reads an acknowledgment byte. Only zero rejects: every other value is
/// taken as acceptance, not just the one that `ack_byte` writes.
pub fn read_ack(b: u8) -> (r: bool)
    ensures
        r == ack_accepts(b),
{
    b != ACK_REJECT
}

/// The byte that carries an action.
pub fn action_byte(a: Action) -> (r: u8)
    ensures
        r == ACTION_OPEN_DATA,
{
    match a {
        Action::OpenData => ACTION_OPEN_DATA,
    }
}

/// Reads an action byte; any byte but the one defined action is an error.
pub fn parse_action(b: u8) -> (r: Result<Action, ProtocolError>)
    ensures
        r is Ok <==> b == ACTION_OPEN_DATA,
        r matches Err(e) ==> e == ProtocolError::UnknownAction(b),
{
    if b == ACTION_OPEN_DATA {
        Ok(Action::OpenData)
    } else {
        Err(ProtocolError::UnknownAction(b))
    }
}

/// An encoded header carries a valid role byte, and its bytes determine the
/// header: decoding what `encode` wrote gives the header back.
pub proof fn lemma_decode_encode(h: Header)
    ensures
        is_role_byte(header_bytes(h)[1]),
        forall|g: Header| header_bytes(g) == header_bytes(h) ==> g == h,
{
    assert forall|g: Header| header_bytes(g) == header_bytes(h) implies g == h by {
        assert(header_bytes(g)[0] == header_bytes(h)[0]);
        assert(header_bytes(g)[1] == header_bytes(h)[1]);
        assert(header_bytes(g)[2] == header_bytes(h)[2]);
    }
}

} // verus!
