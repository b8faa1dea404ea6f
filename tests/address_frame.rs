use ssrelay::address::{Address, DecodeError, SockAddr};

fn v4(a: u8, b: u8, c: u8, d: u8, port: u16) -> Address {
    Address::SocketAddress(SockAddr::V4(vec![a, b, c, d], port))
}

#[test]
fn ipv4_frame_bytes() {
    assert_eq!(v4(127, 0, 0, 1, 80).encode(), vec![1, 127, 0, 0, 1, 0x00, 0x50]);
}

#[test]
fn ipv4_frame_decodes_and_leaves_payload() {
    let mut buf = vec![1u8, 127, 0, 0, 1, 0x00, 0x50];
    buf.extend_from_slice(b"GET / HTTP/1.0\r\n\r\n");
    let (a, n) = Address::read_from(&buf).unwrap();
    assert_eq!(a, v4(127, 0, 0, 1, 80));
    assert_eq!(n, 7);
    assert_eq!(&buf[n..], b"GET / HTTP/1.0\r\n\r\n");
}

#[test]
fn domain_frame_round_trip() {
    let a = Address::DomainNameAddress(b"example.invalid".to_vec(), 80);
    let bytes = a.encode();
    assert_eq!(bytes[0], 3);
    assert_eq!(bytes[1], 15);
    assert_eq!(&bytes[2..17], b"example.invalid");
    assert_eq!(&bytes[17..], &[0, 80]);
    let (b, n) = Address::read_from(&bytes).unwrap();
    assert_eq!(b, a);
    assert_eq!(n, bytes.len());
}

#[test]
fn ipv6_frame_round_trip() {
    let mut octets = vec![0u8; 16];
    octets[15] = 1;
    let a = Address::SocketAddress(SockAddr::V6(octets, 0xABCD));
    let bytes = a.encode();
    assert_eq!(bytes.len(), 19);
    assert_eq!(bytes[0], 4);
    assert_eq!(&bytes[17..], &[0xAB, 0xCD]);
    let (b, n) = Address::read_from(&bytes).unwrap();
    assert_eq!(b, a);
    assert_eq!(n, 19);
}

#[test]
fn longest_domain_round_trip() {
    let a = Address::DomainNameAddress(vec![b'a'; 255], 65535);
    let bytes = a.encode();
    assert_eq!(bytes.len(), 259);
    let (b, n) = Address::read_from(&bytes).unwrap();
    assert_eq!(b, a);
    assert_eq!(n, 259);
}

#[test]
fn unknown_type_is_refused() {
    assert_eq!(Address::read_from(&[2, 1, 2, 3]).unwrap_err(), DecodeError::UnknownAddressType(2));
    assert_eq!(Address::read_from(&[0xff]).unwrap_err(), DecodeError::UnknownAddressType(0xff));
}

#[test]
fn truncated_frames_are_refused() {
    assert_eq!(Address::read_from(&[]).unwrap_err(), DecodeError::Truncated(1));
    assert_eq!(Address::read_from(&[1, 127, 0, 0, 1, 0]).unwrap_err(), DecodeError::Truncated(7));
    assert_eq!(Address::read_from(&[3]).unwrap_err(), DecodeError::Truncated(2));
    assert_eq!(Address::read_from(&[3, 5, b'a', b'b']).unwrap_err(), DecodeError::Truncated(9));
    assert_eq!(Address::read_from(&[4, 0, 0]).unwrap_err(), DecodeError::Truncated(19));
}

#[test]
fn empty_domain_name_decodes() {
    let (a, n) = Address::read_from(&[3, 0, 1, 187]).unwrap();
    assert_eq!(a, Address::DomainNameAddress(vec![], 443));
    assert_eq!(n, 4);
}

#[test]
fn unspecified_like_keeps_family() {
    let v4_target = SockAddr::V4(vec![10, 0, 0, 1], 9000);
    assert_eq!(v4_target.unspecified_like(), SockAddr::V4(vec![0; 4], 0));
    let v6_target = SockAddr::V6(vec![1; 16], 9000);
    assert_eq!(v6_target.unspecified_like(), SockAddr::V6(vec![0; 16], 0));
    assert_eq!(v6_target.port(), 9000);
    assert!(v4_target.is_ipv4());
    assert!(!v6_target.is_ipv4());
}

#[test]
fn non_utf8_host_names_are_refused() {
    assert_eq!(Address::read_from(&[3, 1, 0xff, 0, 80]).unwrap_err(), DecodeError::InvalidHostName);
    // overlong encoding of '/'
    assert_eq!(Address::read_from(&[3, 2, 0xc0, 0xaf, 0, 80]).unwrap_err(), DecodeError::InvalidHostName);
    // encoded surrogate
    assert_eq!(Address::read_from(&[3, 3, 0xed, 0xa0, 0x80, 0, 80]).unwrap_err(), DecodeError::InvalidHostName);
    // cut multi-byte character
    assert_eq!(Address::read_from(&[3, 2, b'a', 0xe2, 0, 80]).unwrap_err(), DecodeError::InvalidHostName);
}

#[test]
fn utf8_host_names_round_trip() {
    let name = "b\u{fc}cher.\u{4f8b}\u{3048}.test".as_bytes().to_vec();
    let a = Address::DomainNameAddress(name.clone(), 443);
    let (b, n) = Address::read_from(&a.encode()).unwrap();
    assert_eq!(b, a);
    assert_eq!(n, name.len() + 4);
    let four = "\u{1F600}".as_bytes().to_vec();
    let (c, _) = Address::read_from(&Address::DomainNameAddress(four.clone(), 1).encode()).unwrap();
    assert_eq!(c, Address::DomainNameAddress(four, 1));
}
