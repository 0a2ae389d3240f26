use netstack::addr::{encode_sockaddr, parse_sockaddr, SockAddrV4};
use netstack::syscall::{
    close_fd, sys_accept, sys_bind, sys_connect, sys_getpeername, sys_getsockname,
    sys_getsockopt, sys_listen, sys_recvfrom, sys_sendto, sys_setsockopt, sys_sock_shutdown,
    sys_socket, sys_socketpair, NetStack, AF_INET, SOCK_DGRAM, SOCK_NONBLOCK, SOCK_STREAM,
    SOL_SOCKET, SOL_TCP, SO_KEEPALIVE, SO_RCVBUF, SO_SNDBUF, TCP_CONGESTION, TCP_MAXSEG,
    TCP_NODELAY,
};
use netstack::{MAX_BUFFER_SIZE, SHUT_WR, TCP_MSS};

const LOCALHOST: u32 = 0x7f000001;

fn addr_bytes(addr: u32, port: u16) -> Vec<u8> {
    encode_sockaddr(SockAddrV4 { addr, port })
}

#[test]
fn socket_rejects_unknown_family_and_type() {
    let mut st = NetStack::new(7);
    assert_eq!(sys_socket(&mut st, 5, SOCK_STREAM, 0), -97);
    assert_eq!(sys_socket(&mut st, AF_INET, 9, 0), -22);
}

#[test]
fn syscalls_reject_bad_descriptor() {
    let mut st = NetStack::new(7);
    assert_eq!(sys_bind(&mut st, 3, &addr_bytes(0, 8080)), -88);
    assert_eq!(sys_listen(&mut st, 3, 0), -88);
    let mut out: Vec<u8> = Vec::new();
    assert_eq!(sys_accept(&mut st, 3, &mut out), -88);
    assert_eq!(sys_sock_shutdown(&mut st, 3, SHUT_WR), -88);
    assert_eq!(close_fd(&mut st, 3), -9);
}

#[test]
fn listen_on_udp_is_not_supported() {
    let mut st = NetStack::new(7);
    let fd = sys_socket(&mut st, AF_INET, SOCK_DGRAM, 0);
    assert!(fd >= 0);
    assert_eq!(sys_listen(&mut st, fd as u32, 0), -95);
}

#[test]
fn getpeername_before_connect_is_not_connected() {
    let mut st = NetStack::new(7);
    let fd = sys_socket(&mut st, AF_INET, SOCK_STREAM, 0);
    assert!(fd >= 0);
    let mut out: Vec<u8> = Vec::new();
    assert_eq!(sys_getpeername(&st, fd as u32, &mut out), -107);
}

#[test]
fn listen_without_port_is_address_in_use() {
    let mut st = NetStack::new(7);
    let fd = sys_socket(&mut st, AF_INET, SOCK_STREAM, 0);
    assert!(fd >= 0);
    // Rebind to port 0: the engine refuses to listen on it.
    assert_eq!(sys_bind(&mut st, fd as u32, &addr_bytes(0, 0)), 0);
    assert_eq!(sys_listen(&mut st, fd as u32, 0), -98);
}

#[test]
fn connect_to_closed_port_is_refused() {
    let mut st = NetStack::new(7);
    let fd = sys_socket(&mut st, AF_INET, SOCK_STREAM, 0);
    assert!(fd >= 0);
    // Nothing listens on this port; the engine answers with a reset.
    let r = sys_connect(&mut st, fd as u32, &addr_bytes(LOCALHOST, 9999));
    assert_eq!(r, -111);
}

#[test]
fn connect_twice_reports_already_connected() {
    let mut st = NetStack::new(7);
    let server = sys_socket(&mut st, AF_INET, SOCK_STREAM, 0);
    assert!(server >= 0);
    assert_eq!(sys_bind(&mut st, server as u32, &addr_bytes(0, 8088)), 0);
    assert_eq!(sys_listen(&mut st, server as u32, 0), 0);
    let client = sys_socket(&mut st, AF_INET, SOCK_STREAM, 0);
    assert!(client >= 0);
    assert_eq!(sys_connect(&mut st, client as u32, &addr_bytes(LOCALHOST, 8088)), 0);
    assert_eq!(sys_connect(&mut st, client as u32, &addr_bytes(LOCALHOST, 8088)), -106);
}

#[test]
fn accept_scenario_hands_off_descriptor() {
    // socket -> bind(0.0.0.0:8080) -> listen -> peer connects -> accept
    // returns a fresh descriptor carrying the connection; the original
    // descriptor keeps listening and serves a second peer.
    let mut st = NetStack::new(7);
    let server = sys_socket(&mut st, AF_INET, SOCK_STREAM, 0);
    assert!(server >= 0);
    assert_eq!(sys_bind(&mut st, server as u32, &addr_bytes(0, 8080)), 0);
    assert_eq!(sys_listen(&mut st, server as u32, 0), 0);

    let client = sys_socket(&mut st, AF_INET, SOCK_STREAM, 0);
    assert!(client >= 0);
    assert_eq!(sys_connect(&mut st, client as u32, &addr_bytes(LOCALHOST, 8080)), 0);

    let mut peer = Vec::new();
    let conn = sys_accept(&mut st, server as u32, &mut peer);
    assert!(conn >= 0);
    assert_ne!(conn, server);
    // The reported peer is the client's ephemeral endpoint on localhost.
    let peer_ep = parse_sockaddr(&peer).unwrap();
    assert_eq!(peer_ep.addr, LOCALHOST);
    assert!(peer_ep.port >= 49152);

    // The original descriptor is still bound to 0.0.0.0:8080.
    let mut name = Vec::new();
    assert_eq!(sys_getsockname(&st, server as u32, &mut name), 0);
    let local = parse_sockaddr(&name).unwrap();
    assert_eq!(local.addr, 0);
    assert_eq!(local.port, 8080);

    // The peer's bytes arrive on the accepted descriptor.
    let msg = b"hello over loopback";
    let sent = sys_sendto(&mut st, client as u32, msg, 0, &[]);
    assert_eq!(sent, msg.len() as isize);
    let mut buf = vec![0u8; 64];
    let mut src = Vec::new();
    let got = sys_recvfrom(&mut st, conn as u32, &mut buf, 0, &mut src);
    assert_eq!(got, msg.len() as isize);
    assert_eq!(&buf[..msg.len()], msg);

    // And a second peer can still connect to the original descriptor.
    let client2 = sys_socket(&mut st, AF_INET, SOCK_STREAM, 0);
    assert!(client2 >= 0);
    assert_eq!(sys_connect(&mut st, client2 as u32, &addr_bytes(LOCALHOST, 8080)), 0);
    let mut peer2 = Vec::new();
    let conn2 = sys_accept(&mut st, server as u32, &mut peer2);
    assert!(conn2 >= 0);
    assert_ne!(conn2, server);
    assert_ne!(conn2, conn);
}

#[test]
fn tcp_round_trip_both_directions() {
    let mut st = NetStack::new(11);
    let server = sys_socket(&mut st, AF_INET, SOCK_STREAM, 0);
    assert_eq!(sys_bind(&mut st, server as u32, &addr_bytes(0, 8090)), 0);
    assert_eq!(sys_listen(&mut st, server as u32, 0), 0);
    let client = sys_socket(&mut st, AF_INET, SOCK_STREAM, 0);
    assert_eq!(sys_connect(&mut st, client as u32, &addr_bytes(LOCALHOST, 8090)), 0);
    let mut peer = Vec::new();
    let conn = sys_accept(&mut st, server as u32, &mut peer);
    assert!(conn >= 0);

    let up = b"ping";
    assert_eq!(sys_sendto(&mut st, client as u32, up, 0, &[]), up.len() as isize);
    let mut buf = vec![0u8; 16];
    let mut src = Vec::new();
    assert_eq!(sys_recvfrom(&mut st, conn as u32, &mut buf, 0, &mut src), up.len() as isize);
    assert_eq!(&buf[..up.len()], up);

    let down = b"pong!";
    assert_eq!(sys_sendto(&mut st, conn as u32, down, 0, &[]), down.len() as isize);
    let mut buf2 = vec![0u8; 16];
    assert_eq!(sys_recvfrom(&mut st, client as u32, &mut buf2, 0, &mut src), down.len() as isize);
    assert_eq!(&buf2[..down.len()], down);
}

#[test]
fn udp_sendto_auto_binds_ephemeral_port() {
    // An unbound datagram socket that sends gets an automatic
    // ephemeral bind; getsockname then reports a nonzero port.
    let mut st = NetStack::new(13);
    let receiver = sys_socket(&mut st, AF_INET, SOCK_DGRAM, 0);
    assert_eq!(sys_bind(&mut st, receiver as u32, &addr_bytes(0, 9001)), 0);
    let sender = sys_socket(&mut st, AF_INET, SOCK_DGRAM, 0);

    let mut name = Vec::new();
    assert_eq!(sys_getsockname(&st, sender as u32, &mut name), 0);
    assert_eq!(parse_sockaddr(&name).unwrap().port, 0);

    let msg = b"datagram";
    let sent = sys_sendto(&mut st, sender as u32, msg, 0, &addr_bytes(LOCALHOST, 9001));
    assert_eq!(sent, msg.len() as isize);

    let mut name2 = Vec::new();
    assert_eq!(sys_getsockname(&st, sender as u32, &mut name2), 0);
    let bound = parse_sockaddr(&name2).unwrap();
    assert_ne!(bound.port, 0);

    // The datagram arrives with the sender's endpoint attached.
    let mut buf = vec![0u8; 32];
    let mut src = Vec::new();
    let got = sys_recvfrom(&mut st, receiver as u32, &mut buf, 0, &mut src);
    assert_eq!(got, msg.len() as isize);
    assert_eq!(&buf[..msg.len()], msg);
    let from = parse_sockaddr(&src).unwrap();
    assert_eq!(from.port, bound.port);
}

#[test]
fn shutdown_twice_is_idempotent() {
    let mut st = NetStack::new(17);
    let server = sys_socket(&mut st, AF_INET, SOCK_STREAM, 0);
    assert_eq!(sys_bind(&mut st, server as u32, &addr_bytes(0, 8085)), 0);
    assert_eq!(sys_listen(&mut st, server as u32, 0), 0);
    let client = sys_socket(&mut st, AF_INET, SOCK_STREAM, 0);
    assert_eq!(sys_connect(&mut st, client as u32, &addr_bytes(LOCALHOST, 8085)), 0);
    // The first shutdown closes the transmit half; the second observes
    // the post-close state and succeeds without effect.
    assert_eq!(sys_sock_shutdown(&mut st, client as u32, SHUT_WR), 0);
    assert_eq!(sys_sock_shutdown(&mut st, client as u32, SHUT_WR), 0);
    // Aborting afterwards does not panic either.
    assert_eq!(sys_sock_shutdown(&mut st, client as u32, 2), 0);
}

#[test]
fn nonblocking_recv_returns_eagain() {
    // No datagram is queued and O_NONBLOCK is set: recvfrom reports
    // EAGAIN at once instead of suspending.
    let mut st = NetStack::new(19);
    let fd = sys_socket(&mut st, AF_INET, SOCK_DGRAM | SOCK_NONBLOCK, 0);
    assert!(fd >= 0);
    assert_eq!(sys_bind(&mut st, fd as u32, &addr_bytes(0, 9002)), 0);
    let mut buf = vec![0u8; 16];
    let mut src = Vec::new();
    assert_eq!(sys_recvfrom(&mut st, fd as u32, &mut buf, 0, &mut src), -11);
}

#[test]
fn nonblocking_accept_returns_eagain() {
    let mut st = NetStack::new(19);
    let fd = sys_socket(&mut st, AF_INET, SOCK_STREAM | SOCK_NONBLOCK, 0);
    assert!(fd >= 0);
    assert_eq!(sys_bind(&mut st, fd as u32, &addr_bytes(0, 9003)), 0);
    assert_eq!(sys_listen(&mut st, fd as u32, 0), 0);
    let mut peer = Vec::new();
    assert_eq!(sys_accept(&mut st, fd as u32, &mut peer), -11);
}

#[test]
fn socketpair_round_trip_in_order() {
    // Bytes written on one end of the pair come back byte-identical
    // and in order on the other end, across two writes.
    let mut st = NetStack::new(23);
    let mut sv: Vec<usize> = Vec::new();
    assert_eq!(sys_socketpair(&mut st, 1, SOCK_STREAM, 0, &mut sv), 0);
    assert_eq!(sv.len(), 2);
    let (a, b) = (sv[0] as u32, sv[1] as u32);

    let first = b"first ";
    let second = b"second";
    assert_eq!(sys_sendto(&mut st, a, first, 0, &[]), first.len() as isize);
    assert_eq!(sys_sendto(&mut st, a, second, 0, &[]), second.len() as isize);

    let mut buf = vec![0u8; 12];
    let mut src = Vec::new();
    assert_eq!(sys_recvfrom(&mut st, b, &mut buf, 0, &mut src), 12);
    assert_eq!(&buf, b"first second");

    // And the other direction works independently.
    let reply = b"back";
    assert_eq!(sys_sendto(&mut st, b, reply, 0, &[]), reply.len() as isize);
    let mut buf2 = vec![0u8; 4];
    assert_eq!(sys_recvfrom(&mut st, a, &mut buf2, 0, &mut src), 4);
    assert_eq!(&buf2, b"back");
}

#[test]
fn socketpair_empty_read_would_block() {
    let mut st = NetStack::new(23);
    let mut sv: Vec<usize> = Vec::new();
    assert_eq!(sys_socketpair(&mut st, 1, SOCK_STREAM, 0, &mut sv), 0);
    let mut buf = vec![0u8; 8];
    let mut src = Vec::new();
    assert_eq!(sys_recvfrom(&mut st, sv[0] as u32, &mut buf, 0, &mut src), -11);
}

#[test]
fn getsockopt_maxseg_is_fixed_and_bounded() {
    // The reported maximum segment size is the fixed negotiated value,
    // and it never exceeds the configured buffer size.
    let mut st = NetStack::new(29);
    let fd = sys_socket(&mut st, AF_INET, SOCK_STREAM, 0);
    let mut val = Vec::new();
    assert_eq!(sys_getsockopt(&st, fd as u32, SOL_TCP, TCP_MAXSEG, &mut val), 0);
    let mss = u32::from_le_bytes([val[0], val[1], val[2], val[3]]);
    assert_eq!(mss, TCP_MSS);
    assert_eq!(mss, 32768);
    assert!(mss as usize <= MAX_BUFFER_SIZE);
}

#[test]
fn getsockopt_congestion_is_reno() {
    let st = NetStack::new(29);
    let mut val = Vec::new();
    assert_eq!(sys_getsockopt(&st, 0, SOL_TCP, TCP_CONGESTION, &mut val), 0);
    assert_eq!(&val, b"reno");
}

#[test]
fn buffer_size_options_round_trip() {
    let mut st = NetStack::new(31);
    let fd = sys_socket(&mut st, AF_INET, SOCK_STREAM, 0);
    let mut val = Vec::new();
    assert_eq!(sys_getsockopt(&st, fd as u32, SOL_SOCKET, SO_SNDBUF, &mut val), 0);
    assert_eq!(u32::from_le_bytes([val[0], val[1], val[2], val[3]]), MAX_BUFFER_SIZE as u32);

    let newsize = 4096u32.to_le_bytes();
    assert_eq!(sys_setsockopt(&mut st, fd as u32, SOL_SOCKET, SO_RCVBUF, &newsize), 0);
    let mut val2 = Vec::new();
    assert_eq!(sys_getsockopt(&st, fd as u32, SOL_SOCKET, SO_RCVBUF, &mut val2), 0);
    assert_eq!(u32::from_le_bytes([val2[0], val2[1], val2[2], val2[3]]), 4096);
}

#[test]
fn setsockopt_unknown_option_is_lenient() {
    let mut st = NetStack::new(31);
    let fd = sys_socket(&mut st, AF_INET, SOCK_STREAM, 0);
    // An unrecognized (level, optname) pair is logged-and-ignored in
    // spirit: a silent no-op success.
    assert_eq!(sys_setsockopt(&mut st, fd as u32, SOL_SOCKET, 999, &[1, 0, 0, 0]), 0);
    assert_eq!(sys_setsockopt(&mut st, fd as u32, SOL_TCP, TCP_NODELAY, &[1, 0, 0, 0]), 0);
    assert_eq!(sys_setsockopt(&mut st, fd as u32, SOL_SOCKET, SO_KEEPALIVE, &[1, 0, 0, 0]), 0);
}

#[test]
fn close_releases_descriptor() {
    let mut st = NetStack::new(37);
    let fd = sys_socket(&mut st, AF_INET, SOCK_STREAM, 0);
    assert!(fd >= 0);
    assert_eq!(close_fd(&mut st, fd as u32), 0);
    assert_eq!(close_fd(&mut st, fd as u32), -9);
    // The slot is reused by the next socket.
    let fd2 = sys_socket(&mut st, AF_INET, SOCK_DGRAM, 0);
    assert_eq!(fd2, fd);
}

#[test]
fn tcp_read_after_peer_shutdown_is_end_of_stream() {
    // Once the peer has closed its transmit half, the receiver's next
    // read delivers end of stream (a zero-length successful read),
    // never an error: an orderly peer-initiated close.
    let mut st = NetStack::new(41);
    let server = sys_socket(&mut st, AF_INET, SOCK_STREAM, 0);
    assert_eq!(sys_bind(&mut st, server as u32, &addr_bytes(0, 8095)), 0);
    assert_eq!(sys_listen(&mut st, server as u32, 0), 0);
    let client = sys_socket(&mut st, AF_INET, SOCK_STREAM, 0);
    assert_eq!(sys_connect(&mut st, client as u32, &addr_bytes(LOCALHOST, 8095)), 0);
    let mut peer = Vec::new();
    let conn = sys_accept(&mut st, server as u32, &mut peer);
    assert!(conn >= 0);

    let msg = b"last words";
    assert_eq!(sys_sendto(&mut st, client as u32, msg, 0, &[]), msg.len() as isize);
    let mut buf = vec![0u8; 32];
    let mut src = Vec::new();
    let got = sys_recvfrom(&mut st, conn as u32, &mut buf, 0, &mut src);
    assert_eq!(got, msg.len() as isize);
    assert_eq!(&buf[..msg.len()], msg);

    assert_eq!(sys_sock_shutdown(&mut st, client as u32, SHUT_WR), 0);
    let eof = sys_recvfrom(&mut st, conn as u32, &mut buf, 0, &mut src);
    assert_eq!(eof, 0);
}

#[test]
fn tcp_read_on_unconnected_socket_is_not_connected() {
    let mut st = NetStack::new(43);
    let fd = sys_socket(&mut st, AF_INET, SOCK_STREAM, 0);
    let mut buf = vec![0u8; 8];
    let mut src = Vec::new();
    assert_eq!(sys_recvfrom(&mut st, fd as u32, &mut buf, 0, &mut src), -107);
}

#[test]
fn tcp_send_on_unconnected_socket_is_not_connected() {
    let mut st = NetStack::new(43);
    let fd = sys_socket(&mut st, AF_INET, SOCK_STREAM, 0);
    assert_eq!(sys_sendto(&mut st, fd as u32, b"data", 0, &[]), -107);
}

#[test]
fn udp_sendto_rejects_malformed_destination() {
    let mut st = NetStack::new(47);
    let fd = sys_socket(&mut st, AF_INET, SOCK_DGRAM, 0);
    // Too short for a sockaddr_in header.
    assert_eq!(sys_sendto(&mut st, fd as u32, b"x", 0, &[2, 0, 1]), -22);
    // Wrong address family.
    let bad = [10u8, 0, 0x23, 0x29, 127, 0, 0, 1];
    assert_eq!(sys_sendto(&mut st, fd as u32, b"x", 0, &bad), -97);
}
