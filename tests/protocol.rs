use rendezvous::broker::{handle_header, on_action, Admission, Dispatch};
use rendezvous::caller::{Caller, CallerCommand, CallerEvent, CallerState};
use rendezvous::codec::{
    ack_byte, action_byte, decode, encode, parse_action, read_ack, Action, Header, ProtocolError,
    Role, ACTION_OPEN_DATA,
};
use rendezvous::main_agent::{MainAgent, MainCommand, MainEvent, MainState};
use rendezvous::registry::SessionRegistry;

#[test]
fn encode_writes_wire_order() {
    let h = Header { connection_id: 0x30, role: Role::Sub, target: 0x31 };
    assert_eq!(encode(&h), [0x30, 0, 0x31]);
    let m = Header { connection_id: 0x31, role: Role::Main, target: 0 };
    assert_eq!(encode(&m), [0x31, 1, 0]);
}

#[test]
fn decode_reads_both_roles() {
    assert_eq!(
        decode([0x30, 0, 0x31]),
        Ok(Header { connection_id: 0x30, role: Role::Sub, target: 0x31 })
    );
    assert_eq!(
        decode([0x31, 1, 7]),
        Ok(Header { connection_id: 0x31, role: Role::Main, target: 7 })
    );
}

#[test]
fn decode_rejects_unknown_role() {
    assert_eq!(decode([1, 2, 3]), Err(ProtocolError::UnknownRole(2)));
    assert_eq!(decode([0, 0xff, 0]), Err(ProtocolError::UnknownRole(0xff)));
}

#[test]
fn decode_inverts_encode() {
    for id in [0u8, 1, 0x31, 255] {
        for role in [Role::Sub, Role::Main] {
            let h = Header { connection_id: id, role, target: id.wrapping_add(3) };
            assert_eq!(decode(encode(&h)), Ok(h));
        }
    }
}

#[test]
fn ack_bytes_and_lenient_reading() {
    assert_eq!(ack_byte(true), 1);
    assert_eq!(ack_byte(false), 0);
    assert!(!read_ack(0));
    assert!(read_ack(1));
    assert!(read_ack(2));
    assert!(read_ack(0xff));
}

#[test]
fn action_byte_and_parsing() {
    assert_eq!(action_byte(Action::OpenData), 0x12);
    assert_eq!(parse_action(0x12), Ok(Action::OpenData));
    assert_eq!(parse_action(0x13), Err(ProtocolError::UnknownAction(0x13)));
    assert_eq!(parse_action(0), Err(ProtocolError::UnknownAction(0)));
}

#[test]
fn registry_register_take_and_evict() {
    let mut reg: SessionRegistry<&str> = SessionRegistry::new();
    assert_eq!(reg.len(), 0);
    assert_eq!(reg.register(5, "first"), None);
    assert!(reg.contains(5));
    assert_eq!(reg.register(5, "second"), Some("first"));
    assert_eq!(reg.len(), 1);
    assert_eq!(reg.take_for_pairing(6), None);
    assert_eq!(reg.take_for_pairing(5), Some("second"));
    assert!(!reg.contains(5));
    assert_eq!(reg.take_for_pairing(5), None);
    assert_eq!(reg.len(), 0);
}

#[test]
fn malformed_header_is_refused() {
    let mut reg: SessionRegistry<u32> = SessionRegistry::new();
    reg.register(9, 100);
    match handle_header(&mut reg, [9, 7, 9], 1) {
        Admission::Refused { conn, error } => {
            assert_eq!(conn, 1);
            assert_eq!(error, ProtocolError::UnknownRole(7));
        }
        _ => panic!("expected a refusal"),
    }
    assert!(reg.contains(9));
}

#[test]
fn main_header_asks_for_registration() {
    let mut reg: SessionRegistry<u32> = SessionRegistry::new();
    match handle_header(&mut reg, [0x31, 1, 0], 42) {
        Admission::Register { id, conn, ack } => {
            assert_eq!((id, conn, ack), (0x31, 42, 1));
        }
        _ => panic!("expected a registration"),
    }
    assert_eq!(reg.len(), 0);
}

#[test]
fn sub_is_accepted_only_when_registered() {
    for id in [0u8, 0x31, 200] {
        let mut reg: SessionRegistry<u32> = SessionRegistry::new();
        match handle_header(&mut reg, [0x30, 0, id], 1) {
            Admission::Rejected { conn, ack } => assert_eq!((conn, ack), (1, 0)),
            _ => panic!("expected a rejection"),
        }
        reg.register(id, 2);
        reg.register(id.wrapping_add(1), 3);
        match handle_header(&mut reg, [0x30, 0, id], 4) {
            Admission::Paired { sub, main, ack } => assert_eq!((sub, main, ack), (4, 2, 1)),
            _ => panic!("expected a pairing"),
        }
        assert!(!reg.contains(id));
        assert!(reg.contains(id.wrapping_add(1)));
    }
}

#[test]
fn racing_subs_pair_exactly_once() {
    let mut reg: SessionRegistry<u32> = SessionRegistry::new();
    reg.register(7, 70);
    let mut accepted = 0;
    let mut rejected = 0;
    for conn in 0..5u32 {
        match handle_header(&mut reg, [conn as u8, 0, 7], conn) {
            Admission::Paired { main, .. } => {
                assert_eq!(main, 70);
                accepted += 1;
            }
            Admission::Rejected { ack, .. } => {
                assert_eq!(ack, 0);
                rejected += 1;
            }
            _ => panic!("unexpected admission"),
        }
    }
    assert_eq!((accepted, rejected), (1, 4));
    assert!(!reg.contains(7));
}

#[test]
fn sub_before_registration_then_after() {
    let mut reg: SessionRegistry<u32> = SessionRegistry::new();
    let mut caller = Caller::new(0x30, 0x31);
    assert_eq!(
        caller.step(CallerEvent::BrokerConnected),
        CallerCommand::Request { header: Header { connection_id: 0x30, role: Role::Sub, target: 0x31 } }
    );
    let ack = match handle_header(&mut reg, [0x30, 0, 0x31], 1) {
        Admission::Rejected { ack, .. } => ack,
        _ => panic!("expected a rejection"),
    };
    assert_eq!(caller.step(CallerEvent::Ack(ack)), CallerCommand::RetryAfterBackoff);
    assert_eq!(caller.state, CallerState::Connecting);

    reg.register(0x31, 2);
    caller.step(CallerEvent::BrokerConnected);
    let ack = match handle_header(&mut reg, [0x30, 0, 0x31], 3) {
        Admission::Paired { ack, .. } => ack,
        _ => panic!("expected a pairing"),
    };
    assert_eq!(caller.step(CallerEvent::Ack(ack)), CallerCommand::OpenData { action: 0x12 });
    assert_eq!(caller.state, CallerState::OpeningData);
}

#[test]
fn concrete_pairing_scenario() {
    let mut reg: SessionRegistry<&str> = SessionRegistry::new();
    let mut backend = MainAgent::new(0x31);
    let header = match backend.step(MainEvent::BrokerConnected) {
        MainCommand::Register { header } => encode(&header),
        _ => panic!("expected a registration"),
    };
    match handle_header(&mut reg, header, "main") {
        Admission::Register { id, conn, ack } => {
            assert_eq!(ack, 1);
            assert_eq!(reg.register(id, conn), None);
            assert_eq!(backend.step(MainEvent::Ack(ack)), MainCommand::ConnectBackend);
        }
        _ => panic!("expected a registration"),
    }
    let (sub, main) = match handle_header(&mut reg, [0x30, 0, 0x31], "sub") {
        Admission::Paired { sub, main, ack } => {
            assert_eq!(ack, 1);
            (sub, main)
        }
        _ => panic!("expected a pairing"),
    };
    match on_action(sub, main, 0x12) {
        Dispatch::Splice { sub, main } => assert_eq!((sub, main), ("sub", "main")),
        _ => panic!("expected a splice"),
    }
    assert!(!reg.contains(0x31));
}

#[test]
fn undefined_action_aborts() {
    match on_action(1u32, 2u32, 0x13) {
        Dispatch::Abort { sub, main, error } => {
            assert_eq!((sub, main), (1, 2));
            assert_eq!(error, ProtocolError::UnknownAction(0x13));
        }
        _ => panic!("expected an abort"),
    }
    assert_eq!(ACTION_OPEN_DATA, 0x12);
}

#[test]
fn main_agent_cycle() {
    let mut a = MainAgent::new(3);
    assert_eq!(
        a.step(MainEvent::BrokerConnected),
        MainCommand::Register { header: Header { connection_id: 3, role: Role::Main, target: 0 } }
    );
    assert_eq!(a.step(MainEvent::Ack(1)), MainCommand::ConnectBackend);
    assert_eq!(a.step(MainEvent::BackendConnected), MainCommand::Splice);
    assert_eq!(a.state, MainState::Splicing);
    assert_eq!(a.step(MainEvent::SpliceEnded), MainCommand::ConnectBroker);
    assert_eq!(a.state, MainState::Connecting);
    assert_eq!(a.id, 3);
}

#[test]
fn main_agent_retries_on_failure() {
    let mut a = MainAgent::new(3);
    assert_eq!(a.step(MainEvent::BrokerUnreachable), MainCommand::RetryAfterBackoff);
    a.step(MainEvent::BrokerConnected);
    assert_eq!(a.step(MainEvent::Ack(0)), MainCommand::RetryAfterBackoff);
    a.step(MainEvent::BrokerConnected);
    assert_eq!(a.step(MainEvent::AckLost), MainCommand::RetryAfterBackoff);
    a.step(MainEvent::BrokerConnected);
    a.step(MainEvent::Ack(5));
    assert_eq!(a.step(MainEvent::BackendUnreachable), MainCommand::RetryAfterBackoff);
    assert_eq!(a.state, MainState::Connecting);
}

#[test]
fn caller_full_cycle() {
    let mut c = Caller::new(0x30, 0x31);
    c.step(CallerEvent::BrokerConnected);
    assert_eq!(c.step(CallerEvent::Ack(1)), CallerCommand::OpenData { action: 0x12 });
    assert_eq!(c.step(CallerEvent::DataConnected), CallerCommand::AcceptLocal);
    assert_eq!(c.step(CallerEvent::LocalAccepted), CallerCommand::Splice);
    assert_eq!(c.state, CallerState::Splicing);
    assert_eq!(c.step(CallerEvent::SpliceEnded), CallerCommand::ConnectBroker);
    assert_eq!(c.state, CallerState::Connecting);
}

#[test]
fn caller_retries_on_failure() {
    let mut c = Caller::new(0x30, 0x31);
    assert_eq!(c.step(CallerEvent::BrokerUnreachable), CallerCommand::RetryAfterBackoff);
    c.step(CallerEvent::BrokerConnected);
    assert_eq!(c.step(CallerEvent::AckLost), CallerCommand::RetryAfterBackoff);
    c.step(CallerEvent::BrokerConnected);
    c.step(CallerEvent::Ack(2));
    assert_eq!(c.step(CallerEvent::DataUnreachable), CallerCommand::RetryAfterBackoff);
    assert_eq!(c.step(CallerEvent::SpliceEnded), CallerCommand::RetryAfterBackoff);
    assert_eq!(c.state, CallerState::Connecting);
}
