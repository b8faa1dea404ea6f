use ssrelay::address::{Address, DecodeError, SockAddr};
use ssrelay::lookup::LookupError;
use ssrelay::relay::{relay_end_log_level, Action, AddressReadError, ConnError, Connection, LogLevel, Phase};

fn sa(last: u8, port: u16) -> SockAddr {
    SockAddr::V4(vec![127, 0, 0, last], port)
}

#[test]
fn ip_target_is_connected_and_relayed() {
    let mut c: Connection<&str> = Connection::new();
    assert_eq!(c.phase(), Phase::ReadingAddress);
    let frame = [1u8, 127, 0, 0, 1, 0x00, 0x50];
    let (addr, _) = Address::read_from(&frame).unwrap();
    match c.address_read(Ok(addr)) {
        Action::CheckOutbound(t) => assert_eq!(t, Address::SocketAddress(sa(1, 80))),
        other => panic!("unexpected {:?}", other),
    }
    match c.outbound_checked(false) {
        Action::Connect(t) => assert_eq!(t, sa(1, 80)),
        other => panic!("unexpected {:?}", other),
    }
    assert!(matches!(c.connected(Ok(())), Action::Relay));
    assert_eq!(c.phase(), Phase::Relaying);
    assert!(matches!(c.relay_ended(), Action::Close(Ok(()))));
    assert_eq!(c.phase(), Phase::Closed);
}

#[test]
fn garbage_frame_is_drained_until_client_closes() {
    let mut c: Connection<&str> = Connection::new();
    let garbage: Vec<u8> = (0..64u32).map(|i| (i * 37 + 11) as u8).collect();
    let r = Address::read_from(&garbage).map(|(a, _)| a).map_err(AddressReadError::Decode);
    assert!(r.is_err());
    assert!(matches!(c.address_read(r), Action::Drain));
    assert_eq!(c.phase(), Phase::Draining);
    match c.client_closed() {
        Action::Close(Err(ConnError::Address(AddressReadError::Decode(e)))) => {
            assert_eq!(e, DecodeError::UnknownAddressType(11))
        }
        other => panic!("unexpected {:?}", other),
    }
}

#[test]
fn wrong_key_connection_is_drained_until_client_closes() {
    let mut c: Connection<&str> = Connection::new();
    assert!(matches!(c.address_read(Err(AddressReadError::Stream("tag mismatch"))), Action::Drain));
    assert_eq!(c.phase(), Phase::Draining);
    assert!(matches!(
        c.client_closed(),
        Action::Close(Err(ConnError::Address(AddressReadError::Stream("tag mismatch"))))
    ));
    assert_eq!(c.phase(), Phase::Closed);
}

#[test]
fn non_utf8_host_name_is_drained() {
    let mut c: Connection<&str> = Connection::new();
    let r = Address::read_from(&[3, 1, 0xff, 0, 80]).map(|(a, _)| a).map_err(AddressReadError::Decode);
    assert!(matches!(c.address_read(r), Action::Drain));
    assert!(matches!(
        c.client_closed(),
        Action::Close(Err(ConnError::Address(AddressReadError::Decode(DecodeError::InvalidHostName))))
    ));
}

#[test]
fn empty_resolution_closes_without_connecting() {
    let mut c: Connection<&str> = Connection::new();
    let target = Address::DomainNameAddress(b"example.invalid".to_vec(), 80);
    assert!(matches!(c.address_read(Ok(target)), Action::CheckOutbound(_)));
    match c.outbound_checked(false) {
        Action::Resolve(name, port) => {
            assert_eq!(name, b"example.invalid".to_vec());
            assert_eq!(port, 80);
        }
        other => panic!("unexpected {:?}", other),
    }
    assert!(matches!(c.resolved(Ok(vec![])), Action::Close(Err(ConnError::NoAddress))));
    assert_eq!(c.phase(), Phase::Closed);
}

#[test]
fn resolve_error_closes_connection() {
    let mut c: Connection<&str> = Connection::new();
    c.address_read(Ok(Address::DomainNameAddress(b"x.test".to_vec(), 443)));
    c.outbound_checked(false);
    assert!(matches!(c.resolved(Err("nxdomain")), Action::Close(Err(ConnError::Resolve("nxdomain")))));
}

#[test]
fn resolved_candidates_are_tried_in_order() {
    let mut c: Connection<&str> = Connection::new();
    c.address_read(Ok(Address::DomainNameAddress(b"host.test".to_vec(), 80)));
    c.outbound_checked(false);
    match c.resolved(Ok(vec![sa(1, 80), sa(2, 80)])) {
        Action::Connect(t) => assert_eq!(t, sa(1, 80)),
        other => panic!("unexpected {:?}", other),
    }
    match c.connected(Err("unreachable")) {
        Action::Connect(t) => assert_eq!(t, sa(2, 80)),
        other => panic!("unexpected {:?}", other),
    }
    assert!(matches!(c.connected(Ok(())), Action::Relay));
}

#[test]
fn all_candidates_failing_reports_last_error() {
    let mut c: Connection<&str> = Connection::new();
    c.address_read(Ok(Address::DomainNameAddress(b"host.test".to_vec(), 80)));
    c.outbound_checked(false);
    c.resolved(Ok(vec![sa(1, 80), sa(2, 80), sa(3, 80)]));
    c.connected(Err("e1"));
    c.connected(Err("e2"));
    assert!(matches!(
        c.connected(Err("e3")),
        Action::Close(Err(ConnError::Connect(LookupError::LastAttempt("e3"))))
    ));
}

#[test]
fn blocked_target_closes_quietly() {
    let mut c: Connection<&str> = Connection::new();
    c.address_read(Ok(Address::SocketAddress(sa(1, 22))));
    assert!(matches!(c.outbound_checked(true), Action::Close(Ok(()))));
    assert_eq!(c.phase(), Phase::Closed);
}

#[test]
fn direct_connect_failure_reports_its_error() {
    let mut c: Connection<&str> = Connection::new();
    c.address_read(Ok(Address::SocketAddress(sa(1, 81))));
    c.outbound_checked(false);
    assert!(matches!(
        c.connected(Err("timed out")),
        Action::Close(Err(ConnError::Connect(LookupError::LastAttempt("timed out"))))
    ));
}

#[test]
fn relay_end_levels() {
    assert_eq!(relay_end_log_level(false, false), LogLevel::Trace);
    assert_eq!(relay_end_log_level(true, true), LogLevel::Trace);
    assert_eq!(relay_end_log_level(true, false), LogLevel::Debug);
}
