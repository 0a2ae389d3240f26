use vstd::prelude::*;
use crate::addr::SockAddrV4;
use crate::engine::{handle_id, tcp_handles, udp_handles, NetInterface};
use crate::errno::Errno;
use crate::tcp::EngineRefusal;

verus! {

/// An engine-side failure of a UDP send.
#[derive(Clone, Copy, Debug, PartialEq, Eq, Structural)]
pub enum UdpSendFailure {
    /// The destination endpoint cannot be addressed.
    Unaddressable,
    /// The transmit buffer cannot hold the datagram.
    BufferFull,
}

/// An engine-side failure of a UDP receive.
#[derive(Clone, Copy, Debug, PartialEq, Eq, Structural)]
pub enum UdpRecvFailure {
    /// No datagram is queued.
    Exhausted,
    /// The queued datagram does not fit the buffer and was dropped.
    Truncated,
}

// ---------------------------------------------------------------------
// Trusted wrappers around the engine's UDP socket operations.
// ---------------------------------------------------------------------

/// Relies on smoltcp's `udp::Socket::bind`: opens the socket on the
/// endpoint; a zero port is never accepted.
#[verifier::external_body]
fn udp_bind_raw(
    socks: &mut smoltcp::iface::SocketSet<'static>,
    h: smoltcp::iface::SocketHandle,
    addr: Option<u32>,
    port: u16,
) -> (r: Result<(), EngineRefusal>)
    requires
        udp_handles(*old(socks)).contains(handle_id(h)),
    ensures
        tcp_handles(*final(socks)) == tcp_handles(*old(socks)),
        udp_handles(*final(socks)) == udp_handles(*old(socks)),
        r is Ok ==> port != 0,
{
    let ep = smoltcp::wire::IpListenEndpoint {
        addr: match addr {
            Some(a) => Some(
                smoltcp::wire::IpAddress::Ipv4(smoltcp::wire::Ipv4Address::from_bits(a)),
            ),
            None => None,
        },
        port,
    };
    match socks.get_mut::<smoltcp::socket::udp::Socket>(h).bind(ep) {
        Ok(()) => Ok(()),
        Err(smoltcp::socket::udp::BindError::Unaddressable) => Err(EngineRefusal::Unaddressable),
        Err(smoltcp::socket::udp::BindError::InvalidState) => Err(EngineRefusal::InvalidState),
    }
}

/// Relies on smoltcp's `udp::Socket::can_send`: true when the transmit
/// buffer has room for another datagram.
#[verifier::external_body]
fn udp_can_send_raw(
    socks: &smoltcp::iface::SocketSet<'static>,
    h: smoltcp::iface::SocketHandle,
) -> bool
    requires
        udp_handles(*socks).contains(handle_id(h)),
{
    socks.get::<smoltcp::socket::udp::Socket>(h).can_send()
}

/// Relies on smoltcp's `udp::Socket::can_recv`: true when a received
/// datagram is queued.
#[verifier::external_body]
fn udp_can_recv_raw(
    socks: &smoltcp::iface::SocketSet<'static>,
    h: smoltcp::iface::SocketHandle,
) -> bool
    requires
        udp_handles(*socks).contains(handle_id(h)),
{
    socks.get::<smoltcp::socket::udp::Socket>(h).can_recv()
}

/// Relies on smoltcp's `udp::Socket::send_slice`: enqueues the whole
/// datagram towards the given endpoint, or fails without sending.
#[verifier::external_body]
fn udp_send_raw(
    socks: &mut smoltcp::iface::SocketSet<'static>,
    h: smoltcp::iface::SocketHandle,
    data: &[u8],
    raddr: u32,
    rport: u16,
) -> (r: Result<(), UdpSendFailure>)
    requires
        udp_handles(*old(socks)).contains(handle_id(h)),
    ensures
        tcp_handles(*final(socks)) == tcp_handles(*old(socks)),
        udp_handles(*final(socks)) == udp_handles(*old(socks)),
{
    let remote = smoltcp::wire::IpEndpoint {
        addr: smoltcp::wire::IpAddress::Ipv4(smoltcp::wire::Ipv4Address::from_bits(raddr)),
        port: rport,
    };
    match socks.get_mut::<smoltcp::socket::udp::Socket>(h).send_slice(data, remote) {
        Ok(()) => Ok(()),
        Err(smoltcp::socket::udp::SendError::Unaddressable) => Err(UdpSendFailure::Unaddressable),
        Err(smoltcp::socket::udp::SendError::BufferFull) => Err(UdpSendFailure::BufferFull),
    }
}

/// Relies on smoltcp's `udp::Socket::recv_slice`: dequeues one datagram
/// into the front of `buf` and reports the sender (IPv4 only); on
/// failure `buf` is untouched.
#[verifier::external_body]
fn udp_recv_raw(
    socks: &mut smoltcp::iface::SocketSet<'static>,
    h: smoltcp::iface::SocketHandle,
    buf: &mut Vec<u8>,
) -> (r: Result<(usize, Option<(u32, u16)>), UdpRecvFailure>)
    requires
        udp_handles(*old(socks)).contains(handle_id(h)),
    ensures
        tcp_handles(*final(socks)) == tcp_handles(*old(socks)),
        udp_handles(*final(socks)) == udp_handles(*old(socks)),
        final(buf)@.len() == old(buf)@.len(),
        r matches Ok(p) ==> p.0 <= old(buf)@.len() && final(buf)@.skip(p.0 as int) == old(
            buf,
        )@.skip(p.0 as int),
        r is Err ==> final(buf)@ == old(buf)@,
{
    match socks.get_mut::<smoltcp::socket::udp::Socket>(h).recv_slice(buf.as_mut_slice()) {
        Ok((n, meta)) => {
            let peer = match meta.endpoint.addr {
                smoltcp::wire::IpAddress::Ipv4(a) => Some((a.to_bits(), meta.endpoint.port)),
                _ => None,
            };
            Ok((n, peer))
        },
        Err(smoltcp::socket::udp::RecvError::Exhausted) => Err(UdpRecvFailure::Exhausted),
        Err(smoltcp::socket::udp::RecvError::Truncated) => Err(UdpRecvFailure::Truncated),
    }
}

/// Relies on smoltcp's `udp::Socket::close`: unbinds the socket and
/// drops queued datagrams; never fails.
#[verifier::external_body]
fn udp_close_raw(socks: &mut smoltcp::iface::SocketSet<'static>, h: smoltcp::iface::SocketHandle)
    requires
        udp_handles(*old(socks)).contains(handle_id(h)),
    ensures
        tcp_handles(*final(socks)) == tcp_handles(*old(socks)),
        udp_handles(*final(socks)) == udp_handles(*old(socks)),
{
    socks.get_mut::<smoltcp::socket::udp::Socket>(h).close();
}

// ---------------------------------------------------------------------
// The UDP socket capability object.
// ---------------------------------------------------------------------

/// A UDP socket capability: connectionless, with the internally tracked
/// last peer standing in for a connection. A local port of zero means
/// the socket is not yet bound.
#[derive(Clone, Copy, Debug)]
pub struct UdpSocket {
    pub handle: smoltcp::iface::SocketHandle,
    pub local: SockAddrV4,
    pub remote: Option<SockAddrV4>,
    pub recvbuf_size: usize,
    pub sendbuf_size: usize,
}

impl UdpSocket {
    /// The capability is backed by a live UDP socket of the engine.
    pub open spec fn wf(self, eng: NetInterface) -> bool {
        eng.udp_live().contains(handle_id(self.handle))
    }

    /// What stays fixed across operations that only talk to the engine.
    pub open spec fn same_config(self, other: UdpSocket) -> bool {
        &&& self.handle == other.handle
        &&& self.recvbuf_size == other.recvbuf_size
        &&& self.sendbuf_size == other.sendbuf_size
    }

    /// Create a UDP socket registered with the engine, unbound.
    pub fn new(eng: &mut NetInterface) -> (s: UdpSocket)
        ensures
            s.wf(*final(eng)),
            !old(eng).udp_live().contains(handle_id(s.handle)),
            !old(eng).tcp_live().contains(handle_id(s.handle)),
            final(eng).udp_live() == old(eng).udp_live().insert(handle_id(s.handle)),
            final(eng).tcp_live() == old(eng).tcp_live(),
            s.local == (SockAddrV4 { addr: 0, port: 0 }),
            s.remote is None,
            s.recvbuf_size == crate::MAX_BUFFER_SIZE,
            s.sendbuf_size == crate::MAX_BUFFER_SIZE,
    {
        let handle = eng.add_udp_socket();
        eng.poll();
        UdpSocket {
            handle,
            local: SockAddrV4 { addr: 0, port: 0 },
            remote: None,
            recvbuf_size: crate::MAX_BUFFER_SIZE,
            sendbuf_size: crate::MAX_BUFFER_SIZE,
        }
    }

    /// Bind to a local endpoint: asks the engine immediately, and
    /// records the endpoint on success.
    pub fn bind(&mut self, eng: &mut NetInterface, addr: SockAddrV4) -> (r: Result<usize, Errno>)
        requires
            old(self).wf(*old(eng)),
        ensures
            final(eng).tcp_live() == old(eng).tcp_live(),
            final(eng).udp_live() == old(eng).udp_live(),
            old(self).same_config(*final(self)),
            final(self).remote == old(self).remote,
            r is Ok ==> r == Ok::<usize, Errno>(0) && final(self).local == addr && addr.port != 0,
            r is Err ==> r == Err::<usize, Errno>(Errno::EINVAL) && *final(self) == *old(self),
    {
        eng.poll();
        let a: Option<u32> = if addr.addr == 0 {
            None
        } else {
            Some(addr.addr)
        };
        let bound = udp_bind_raw(&mut eng.sockets, self.handle, a, addr.port);
        eng.poll();
        match bound {
            Ok(()) => {
                self.local = addr;
                Ok(0)
            },
            Err(_) => Err(Errno::EINVAL),
        }
    }

    /// Bind to the wildcard address on the given ephemeral port if the
    /// socket is still unbound; a bound socket is left alone.
    pub fn ensure_bound(&mut self, eng: &mut NetInterface, ephemeral_port: u16) -> (r: Result<
        (),
        Errno,
    >)
        requires
            old(self).wf(*old(eng)),
            ephemeral_port != 0,
        ensures
            final(eng).tcp_live() == old(eng).tcp_live(),
            final(eng).udp_live() == old(eng).udp_live(),
            old(self).same_config(*final(self)),
            final(self).remote == old(self).remote,
            old(self).local.port != 0 ==> *final(self) == *old(self) && r is Ok,
            r is Ok ==> final(self).local.port != 0,
            r is Err ==> r == Err::<(), Errno>(Errno::EINVAL) && *final(self) == *old(self),
    {
        if self.local.port != 0 {
            return Ok(());
        }
        match self.bind(eng, SockAddrV4 { addr: 0, port: ephemeral_port }) {
            Ok(_) => Ok(()),
            Err(e) => Err(e),
        }
    }

    /// Record the peer, and self-bind to an engine-chosen ephemeral
    /// endpoint if the socket was still unbound.
    pub fn connect(&mut self, eng: &mut NetInterface, remote: SockAddrV4, ephemeral_port: u16)
        -> (r: Result<usize, Errno>)
        requires
            old(self).wf(*old(eng)),
            ephemeral_port != 0,
        ensures
            final(eng).tcp_live() == old(eng).tcp_live(),
            final(eng).udp_live() == old(eng).udp_live(),
            old(self).same_config(*final(self)),
            final(self).remote == Some(remote),
            old(self).local.port != 0 ==> r is Ok,
            r is Ok ==> r == Ok::<usize, Errno>(0) && final(self).local.port != 0,
            r is Ok && old(self).local.port != 0 ==> final(self).local == old(self).local,
            r is Err ==> r == Err::<usize, Errno>(Errno::EINVAL) && final(self).local == old(
                self,
            ).local,
    {
        self.remote = Some(remote);
        eng.poll();
        let bound = self.ensure_bound(eng, ephemeral_port);
        eng.poll();
        match bound {
            Ok(()) => Ok(0),
            Err(e) => Err(e),
        }
    }

    /// Receive one datagram into the front of `buf`, recording the
    /// sender as the new peer. Non-blocking callers get EAGAIN when
    /// nothing is queued.
    pub fn read(&mut self, eng: &mut NetInterface, buf: &mut Vec<u8>, nonblock: bool, budget: usize)
        -> (r: Result<usize, Errno>)
        requires
            old(self).wf(*old(eng)),
        ensures
            final(eng).tcp_live() == old(eng).tcp_live(),
            final(eng).udp_live() == old(eng).udp_live(),
            old(self).same_config(*final(self)),
            final(self).local == old(self).local,
            final(buf)@.len() == old(buf)@.len(),
            r matches Ok(n) ==> n <= old(buf)@.len() && final(buf)@.skip(n as int) == old(
                buf,
            )@.skip(n as int),
            r is Err ==> (r == Err::<usize, Errno>(Errno::EAGAIN) || r == Err::<usize, Errno>(
                Errno::ENOTCONN,
            )) && final(buf)@ == old(buf)@ && *final(self) == *old(self),
    {
        let mut i: usize = 0;
        while i < budget
            invariant
                self.wf(*eng),
                eng.tcp_live() == old(eng).tcp_live(),
                eng.udp_live() == old(eng).udp_live(),
                buf@ == old(buf)@,
                *self == *old(self),
            decreases budget - i,
        {
            eng.poll();
            if !udp_can_recv_raw(&eng.sockets, self.handle) {
                if nonblock {
                    return Err(Errno::EAGAIN);
                }
            } else {
                let got = udp_recv_raw(&mut eng.sockets, self.handle, buf);
                eng.poll();
                match got {
                    Ok((n, peer)) => {
                        match peer {
                            Some((addr, port)) => {
                                self.remote = Some(SockAddrV4 { addr, port });
                            },
                            None => (),
                        }
                        return Ok(n);
                    },
                    Err(_) => {
                        return Err(Errno::ENOTCONN);
                    },
                }
            }
            eng.poll();
            i = i + 1;
        }
        Err(Errno::EAGAIN)
    }

    /// Send `buf` as one datagram to the recorded peer. Fails with
    /// ENOTCONN when no peer is recorded; a full transmit queue is
    /// retried (or reported as EAGAIN to non-blocking callers).
    pub fn write(&self, eng: &mut NetInterface, buf: &[u8], nonblock: bool, budget: usize) -> (r:
        Result<usize, Errno>)
        requires
            self.wf(*old(eng)),
        ensures
            final(eng).tcp_live() == old(eng).tcp_live(),
            final(eng).udp_live() == old(eng).udp_live(),
            r matches Ok(n) ==> n == buf@.len() && self.remote is Some,
            self.remote is None ==> r == Err::<usize, Errno>(Errno::ENOTCONN),
            r is Err ==> r == Err::<usize, Errno>(Errno::EAGAIN) || r == Err::<usize, Errno>(
                Errno::ENOTCONN,
            ) || r == Err::<usize, Errno>(Errno::ENOBUFS),
    {
        let remote = match self.remote {
            Some(ep) => ep,
            None => {
                return Err(Errno::ENOTCONN);
            },
        };
        let mut i: usize = 0;
        while i < budget
            invariant
                self.wf(*eng),
                eng.tcp_live() == old(eng).tcp_live(),
                eng.udp_live() == old(eng).udp_live(),
                self.remote is Some,
            decreases budget - i,
        {
            eng.poll();
            if !udp_can_send_raw(&eng.sockets, self.handle) {
                if nonblock {
                    return Err(Errno::EAGAIN);
                }
            } else {
                let sent = udp_send_raw(
                    &mut eng.sockets,
                    self.handle,
                    buf,
                    remote.addr,
                    remote.port,
                );
                eng.poll();
                match sent {
                    Ok(()) => {
                        return Ok(buf.len());
                    },
                    Err(UdpSendFailure::Unaddressable) => {
                        return Err(Errno::ENOTCONN);
                    },
                    Err(UdpSendFailure::BufferFull) => {
                        return Err(Errno::ENOBUFS);
                    },
                }
            }
            eng.poll();
            i = i + 1;
        }
        Err(Errno::EAGAIN)
    }

    /// UDP has no half-close: shutdown is a no-op success.
    pub fn shutdown(&self, _how: u32) -> (r: Result<(), Errno>)
        ensures
            r == Ok::<(), Errno>(()),
    {
        Ok(())
    }

    /// Tear the socket down: close it at the engine and deregister the
    /// handle. The capability must not be used afterwards.
    pub fn teardown(&self, eng: &mut NetInterface)
        requires
            self.wf(*old(eng)),
        ensures
            final(eng).tcp_live() == old(eng).tcp_live().remove(handle_id(self.handle)),
            final(eng).udp_live() == old(eng).udp_live().remove(handle_id(self.handle)),
    {
        udp_close_raw(&mut eng.sockets, self.handle);
        eng.remove_socket(self.handle);
        eng.poll();
    }
}

} // verus!
