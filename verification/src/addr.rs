use vstd::prelude::*;
use crate::errno::Errno;

verus! {

/// An IPv4 socket address: the address as one 32-bit number in network
/// byte order (`0x7f000001` is 127.0.0.1), the port in host order.
///
/// An address of 0 stands for the wildcard 0.0.0.0; a port of 0 means
/// "unbound, pick an ephemeral port".
#[derive(Clone, Copy, Debug, PartialEq, Eq, Structural)]
pub struct SockAddrV4 {
    pub addr: u32,
    pub port: u16,
}

impl SockAddrV4 {
    /// Whether the address names no particular interface.
    pub open spec fn is_wildcard(self) -> bool {
        self.addr == 0
    }

    /// Whether a socket bound to this address counts as bound at all.
    pub open spec fn is_bound(self) -> bool {
        self.port != 0
    }
}

/// Whether the buffer starts with a well-formed `sockaddr_in` header:
/// at least 8 bytes, address family AF_INET (2, little endian).
pub open spec fn sockaddr_well_formed(b: Seq<u8>) -> bool {
    b.len() >= 8 && b[0] == 2 && b[1] == 0
}

/// The port stored in a `sockaddr_in` buffer (big endian at bytes 2..4).
pub open spec fn sockaddr_port(b: Seq<u8>) -> int {
    b[2] * 256 + b[3]
}

/// The address stored in a `sockaddr_in` buffer (big endian at bytes 4..8).
pub open spec fn sockaddr_addr(b: Seq<u8>) -> int {
    b[4] * 0x1000000 + b[5] * 0x10000 + b[6] * 0x100 + b[7]
}

/// The endpoint stored in a well-formed `sockaddr_in` buffer.
pub open spec fn sockaddr_value(b: Seq<u8>) -> SockAddrV4 {
    SockAddrV4 { addr: sockaddr_addr(b) as u32, port: sockaddr_port(b) as u16 }
}

/// Parse a `sockaddr_in` buffer handed in by a caller of `bind`,
/// `connect` or `sendto`.
pub fn parse_sockaddr(buf: &[u8]) -> (r: Result<SockAddrV4, Errno>)
    ensures
        sockaddr_well_formed(buf@) ==> r == Ok::<SockAddrV4, Errno>(sockaddr_value(buf@)),
        buf@.len() < 8 ==> r == Err::<SockAddrV4, Errno>(Errno::EINVAL),
        buf@.len() >= 8 && !sockaddr_well_formed(buf@) ==> r == Err::<SockAddrV4, Errno>(
            Errno::EAFNOSUPPORT,
        ),
{
    if buf.len() < 8 {
        return Err(Errno::EINVAL);
    }
    if !(buf[0] == 2 && buf[1] == 0) {
        return Err(Errno::EAFNOSUPPORT);
    }
    let port: u16 = (buf[2] as u16) * 256 + (buf[3] as u16);
    let addr: u32 = (buf[4] as u32) * 0x1000000 + (buf[5] as u32) * 0x10000 + (buf[6] as u32)
        * 0x100 + (buf[7] as u32);
    Ok(SockAddrV4 { addr, port })
}

/// Whether the 16 bytes of `b` are the `sockaddr_in` encoding of `e`.
pub open spec fn sockaddr_encodes(b: Seq<u8>, e: SockAddrV4) -> bool {
    &&& b.len() == 16
    &&& b[0] == 2
    &&& b[1] == 0
    &&& b[2] == e.port / 256
    &&& b[3] == e.port % 256
    &&& b[4] == e.addr / 0x1000000
    &&& b[5] == (e.addr / 0x10000) % 256
    &&& b[6] == (e.addr / 0x100) % 256
    &&& b[7] == e.addr % 256
    &&& forall|i: int| 8 <= i < 16 ==> b[i] == 0
}

/// Encode an endpoint as the 16-byte `sockaddr_in` layout that
/// `getsockname`, `getpeername` and `accept` report back.
pub fn encode_sockaddr(e: SockAddrV4) -> (v: Vec<u8>)
    ensures
        sockaddr_encodes(v@, e),
        sockaddr_well_formed(v@),
        sockaddr_value(v@) == e,
{
    let mut v: Vec<u8> = Vec::new();
    v.push(2u8);
    v.push(0u8);
    v.push((e.port / 256) as u8);
    v.push((e.port % 256) as u8);
    v.push((e.addr / 0x1000000) as u8);
    v.push(((e.addr / 0x10000) % 256) as u8);
    v.push(((e.addr / 0x100) % 256) as u8);
    v.push((e.addr % 256) as u8);
    let mut i: usize = 0;
    while i < 8
        invariant
            v@.len() == 8 + i,
            i <= 8,
            v@[0] == 2,
            v@[1] == 0,
            v@[2] == e.port / 256,
            v@[3] == e.port % 256,
            v@[4] == e.addr / 0x1000000,
            v@[5] == (e.addr / 0x10000) % 256,
            v@[6] == (e.addr / 0x100) % 256,
            v@[7] == e.addr % 256,
            forall|j: int| 8 <= j < 8 + i ==> v@[j] == 0,
        decreases 8 - i,
    {
        v.push(0u8);
        i = i + 1;
    }
    proof {
        lemma_sockaddr_recompose(e);
    }
    v
}

/// Decoding inverts encoding: the bytes written for an endpoint parse
/// back to the very same endpoint.
pub proof fn lemma_sockaddr_recompose(e: SockAddrV4)
    ensures
        forall|b: Seq<u8>| sockaddr_encodes(b, e) ==> sockaddr_well_formed(b)
            && sockaddr_value(b) == e,
{
    assert forall|b: Seq<u8>| sockaddr_encodes(b, e) implies sockaddr_well_formed(b)
        && sockaddr_value(b) == e by {
        assert(sockaddr_port(b) == (e.port / 256) * 256 + e.port % 256);
        assert((e.port / 256) * 256 + e.port % 256 == e.port) by (nonlinear_arith);
        assert(sockaddr_addr(b) == (e.addr / 0x1000000) * 0x1000000 + ((e.addr / 0x10000) % 256)
            * 0x10000 + ((e.addr / 0x100) % 256) * 0x100 + e.addr % 256);
        assert((e.addr / 0x1000000) * 0x1000000 + ((e.addr / 0x10000) % 256) * 0x10000 + ((e.addr
            / 0x100) % 256) * 0x100 + e.addr % 256 == e.addr) by (nonlinear_arith);
        assert(sockaddr_value(b) == SockAddrV4 {
            addr: sockaddr_addr(b) as u32,
            port: sockaddr_port(b) as u16,
        });
    }
}

} // verus!
