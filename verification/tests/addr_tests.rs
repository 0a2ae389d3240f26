use netstack::addr::{encode_sockaddr, parse_sockaddr, SockAddrV4};
use netstack::errno::Errno;

#[test]
fn sockaddr_encode_layout() {
    let e = SockAddrV4 { addr: 0x7f000001, port: 8080 };
    let b = encode_sockaddr(e);
    assert_eq!(b.len(), 16);
    // AF_INET, little endian.
    assert_eq!(b[0], 2);
    assert_eq!(b[1], 0);
    // Port 8080 = 0x1f90, big endian.
    assert_eq!(b[2], 0x1f);
    assert_eq!(b[3], 0x90);
    // 127.0.0.1, network order.
    assert_eq!(&b[4..8], &[127, 0, 0, 1]);
    assert_eq!(&b[8..16], &[0u8; 8]);
}

#[test]
fn sockaddr_round_trip() {
    let e = SockAddrV4 { addr: 0xc0a80164, port: 65535 };
    let b = encode_sockaddr(e);
    assert_eq!(parse_sockaddr(&b), Ok(e));
}

#[test]
fn sockaddr_parse_rejects_short_buffer() {
    assert_eq!(parse_sockaddr(&[2, 0, 0, 80]), Err(Errno::EINVAL));
}

#[test]
fn sockaddr_parse_rejects_wrong_family() {
    // AF_INET6 (10) is not served.
    let b = [10u8, 0, 0x1f, 0x90, 127, 0, 0, 1];
    assert_eq!(parse_sockaddr(&b), Err(Errno::EAFNOSUPPORT));
}

#[test]
fn sockaddr_parse_wildcard() {
    let b = [2u8, 0, 0, 0, 0, 0, 0, 0];
    let e = parse_sockaddr(&b).unwrap();
    assert_eq!(e.addr, 0);
    assert_eq!(e.port, 0);
}
