//! The broker's decisions for each accepted connection. The broker reads a
//! header, hands it to `handle_header`, writes the acknowledgment that comes back and
//! then does what the admission says; a paired caller's action byte goes to
//! `on_action`.
use vstd::prelude::*;
use crate::codec::{
    decode, parse_action, ack_byte, is_role_byte, Action, ProtocolError,
    ACK_ACCEPT, ACK_REJECT, ACTION_OPEN_DATA, ROLE_MAIN, ROLE_SUB,
};
use crate::registry::{take_spec, SessionRegistry};

verus! {

/// What the broker does with a connection whose header it has read.
pub enum Admission<C> {
    /// The header was malformed: close the connection.
    Refused { conn: C, error: ProtocolError },
    /// A backend: write `ack` on the connection, then `register` it under `id`.
    Register { id: u8, conn: C, ack: u8 },
    /// A caller whose target is not registered: write `ack`, then close.
    Rejected { conn: C, ack: u8 },
    /// A caller matched with a backend, which has left the registry: write
    /// `ack` on the caller, then read its action byte.
    Paired { sub: C, main: C, ack: u8 },
}

/// What the broker does once a paired caller has sent its action byte.
pub enum Dispatch<C> {
    /// Accept the caller's next connection and splice it to `main`; `sub`,
    /// the caller's control connection, is closed when the splice ends.
    Splice { sub: C, main: C },
    /// An undefined action: close both connections.
    Abort { sub: C, main: C, error: ProtocolError },
}

/// Decides on a freshly accepted connection from its three header bytes.
/// Only a caller whose target is registered changes the registry: the
/// matched backend is removed from it, so no other caller can get it.
pub fn handle_header<C>(reg: &mut SessionRegistry<C>, bytes: [u8; 3], conn: C) -> (r: Admission<C>)
    ensures
        !is_role_byte(bytes@[1]) ==> r == (Admission::Refused {
            conn,
            error: ProtocolError::UnknownRole(bytes@[1]),
        }) && final(reg)@ == old(reg)@,
        bytes@[1] == ROLE_MAIN ==> r == (Admission::Register { id: bytes@[0], conn, ack: ACK_ACCEPT })
            && final(reg)@ == old(reg)@,
        bytes@[1] == ROLE_SUB && old(reg)@.contains_key(bytes@[2]) ==> r == (Admission::Paired {
            sub: conn,
            main: old(reg)@[bytes@[2]],
            ack: ACK_ACCEPT,
        }) && final(reg)@ == old(reg)@.remove(bytes@[2]),
        bytes@[1] == ROLE_SUB && !old(reg)@.contains_key(bytes@[2]) ==> r == (Admission::Rejected {
            conn,
            ack: ACK_REJECT,
        }) && final(reg)@ == old(reg)@,
{
    match decode(bytes) {
        Err(error) => Admission::Refused { conn, error },
        Ok(h) => {
            if h.role.to_byte() == ROLE_MAIN {
                Admission::Register { id: h.connection_id, conn, ack: ack_byte(true) }
            } else {
                match reg.take_for_pairing(h.target) {
                    Some(main) => Admission::Paired { sub: conn, main, ack: ack_byte(true) },
                    None => Admission::Rejected { conn, ack: ack_byte(false) },
                }
            }
        },
    }
}

/// Decides on the action byte that a paired caller sent.
pub fn on_action<C>(sub: C, main: C, b: u8) -> (r: Dispatch<C>)
    ensures
        b == ACTION_OPEN_DATA ==> r == (Dispatch::Splice { sub, main }),
        b != ACTION_OPEN_DATA ==> r == (Dispatch::Abort {
            sub,
            main,
            error: ProtocolError::UnknownAction(b),
        }),
{
    match parse_action(b) {
        Ok(Action::OpenData) => Dispatch::Splice { sub, main },
        Err(error) => Dispatch::Abort { sub, main, error },
    }
}

/// Whether each of a run of caller requests, served one after another in
/// this order, is accepted.
pub open spec fn pairings<C>(m: Map<u8, C>, targets: Seq<u8>) -> Seq<bool>
    decreases targets.len(),
{
    if targets.len() == 0 {
        Seq::empty()
    } else {
        seq![take_spec(m, targets[0]).0 is Some] + pairings(take_spec(m, targets[0]).1, targets.drop_first())
    }
}

/// The registry that a run of caller requests leaves behind.
pub open spec fn after_pairings<C>(m: Map<u8, C>, targets: Seq<u8>) -> Map<u8, C>
    decreases targets.len(),
{
    if targets.len() == 0 {
        m
    } else {
        after_pairings(take_spec(m, targets[0]).1, targets.drop_first())
    }
}

/// A caller request for `id` is accepted exactly when a backend is
/// registered under `id`, and the acknowledgment says so.
pub proof fn lemma_sub_accepted_iff_registered<C>(m: Map<u8, C>, id: u8)
    ensures
        pairings(m, seq![id]) == seq![m.contains_key(id)],
        (take_spec(m, id).0 is Some) == m.contains_key(id),
{
    let one = seq![id];
    assert(one.drop_first() =~= Seq::<u8>::empty());
    assert(pairings(take_spec(m, id).1, one.drop_first()) == Seq::<bool>::empty());
    assert(pairings(m, one) =~= seq![m.contains_key(id)]);
}

/// Requests for one registered identifier, however many race for it, are
/// served one at a time: the first is accepted, every other is rejected, and
/// no entry for the identifier is left.
pub proof fn lemma_exactly_once_pairing<C>(m: Map<u8, C>, id: u8, targets: Seq<u8>)
    requires
        m.contains_key(id),
        targets.len() >= 1,
        forall|i: int| 0 <= i < targets.len() ==> targets[i] == id,
    ensures
        pairings(m, targets).len() == targets.len(),
        pairings(m, targets)[0],
        forall|i: int| 1 <= i < targets.len() ==> !pairings(m, targets)[i],
        !after_pairings(m, targets).contains_key(id),
{
    let rest = targets.drop_first();
    let m1 = m.remove(id);
    lemma_all_rejected(m1, id, rest);
    assert forall|i: int| 1 <= i < targets.len() implies !pairings(m, targets)[i] by {
        assert(pairings(m, targets)[i] == pairings(m1, rest)[i - 1]);
    }
}

/// Requests for an identifier that is not registered are all rejected and
/// leave the registry as it was.
pub proof fn lemma_all_rejected<C>(m: Map<u8, C>, id: u8, targets: Seq<u8>)
    requires
        !m.contains_key(id),
        forall|i: int| 0 <= i < targets.len() ==> targets[i] == id,
    ensures
        pairings(m, targets).len() == targets.len(),
        forall|i: int| 0 <= i < targets.len() ==> !pairings(m, targets)[i],
        after_pairings(m, targets) == m,
    decreases targets.len(),
{
    if targets.len() > 0 {
        let rest = targets.drop_first();
        lemma_all_rejected(m, id, rest);
        assert forall|i: int| 0 <= i < targets.len() implies !pairings(m, targets)[i] by {
            if i > 0 {
                assert(pairings(m, targets)[i] == pairings(m, rest)[i - 1]);
            }
        }
    }
}

} // verus!
