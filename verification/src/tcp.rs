use vstd::prelude::*;
use crate::addr::SockAddrV4;
use crate::engine::{handle_id, tcp_handles, udp_handles, NetInterface};
use crate::errno::Errno;

verus! {

/// The TCP protocol states, as the engine reports them.
#[derive(Clone, Copy, Debug, PartialEq, Eq, Structural)]
pub enum TcpState {
    Closed,
    Listen,
    SynSent,
    SynReceived,
    Established,
    FinWait1,
    FinWait2,
    CloseWait,
    Closing,
    LastAck,
    TimeWait,
}

/// An engine-side refusal of a bind, listen or connect request.
#[derive(Clone, Copy, Debug, PartialEq, Eq, Structural)]
pub enum EngineRefusal {
    /// The endpoint cannot be used (zero port, unusable address).
    Unaddressable,
    /// The socket is in a state that does not allow the request.
    InvalidState,
}

/// An engine-side failure of a TCP receive.
#[derive(Clone, Copy, Debug, PartialEq, Eq, Structural)]
pub enum TcpRecvFailure {
    /// The peer closed its half of the connection gracefully.
    Finished,
    /// The receive half of the connection is not open.
    InvalidState,
}

// ---------------------------------------------------------------------
// Trusted wrappers around the engine's TCP socket operations. Each holds
// exactly one call into the protocol engine.
// ---------------------------------------------------------------------

/// Relies on smoltcp's `tcp::Socket::state`: reports the current
/// protocol state of the socket.
#[verifier::external_body]
fn tcp_state_raw(
    socks: &smoltcp::iface::SocketSet<'static>,
    h: smoltcp::iface::SocketHandle,
) -> TcpState
    requires
        tcp_handles(*socks).contains(handle_id(h)),
{
    match socks.get::<smoltcp::socket::tcp::Socket>(h).state() {
        smoltcp::socket::tcp::State::Closed => TcpState::Closed,
        smoltcp::socket::tcp::State::Listen => TcpState::Listen,
        smoltcp::socket::tcp::State::SynSent => TcpState::SynSent,
        smoltcp::socket::tcp::State::SynReceived => TcpState::SynReceived,
        smoltcp::socket::tcp::State::Established => TcpState::Established,
        smoltcp::socket::tcp::State::FinWait1 => TcpState::FinWait1,
        smoltcp::socket::tcp::State::FinWait2 => TcpState::FinWait2,
        smoltcp::socket::tcp::State::CloseWait => TcpState::CloseWait,
        smoltcp::socket::tcp::State::Closing => TcpState::Closing,
        smoltcp::socket::tcp::State::LastAck => TcpState::LastAck,
        smoltcp::socket::tcp::State::TimeWait => TcpState::TimeWait,
    }
}

/// Relies on smoltcp's `tcp::Socket::can_send`: true when the transmit
/// half is open and the transmit buffer has room.
#[verifier::external_body]
fn tcp_can_send_raw(
    socks: &smoltcp::iface::SocketSet<'static>,
    h: smoltcp::iface::SocketHandle,
) -> bool
    requires
        tcp_handles(*socks).contains(handle_id(h)),
{
    socks.get::<smoltcp::socket::tcp::Socket>(h).can_send()
}

/// Relies on smoltcp's `tcp::Socket::can_recv`: true when the receive
/// buffer is not empty.
#[verifier::external_body]
fn tcp_can_recv_raw(
    socks: &smoltcp::iface::SocketSet<'static>,
    h: smoltcp::iface::SocketHandle,
) -> bool
    requires
        tcp_handles(*socks).contains(handle_id(h)),
{
    socks.get::<smoltcp::socket::tcp::Socket>(h).can_recv()
}

/// Relies on smoltcp's `tcp::Socket::listen`: moves the socket into the
/// Listen state; a zero port is never accepted.
#[verifier::external_body]
fn tcp_listen_raw(
    socks: &mut smoltcp::iface::SocketSet<'static>,
    h: smoltcp::iface::SocketHandle,
    addr: Option<u32>,
    port: u16,
) -> (r: Result<(), EngineRefusal>)
    requires
        tcp_handles(*old(socks)).contains(handle_id(h)),
    ensures
        tcp_handles(*final(socks)) == tcp_handles(*old(socks)),
        udp_handles(*final(socks)) == udp_handles(*old(socks)),
        r is Ok ==> port != 0,
{
    let ep = smoltcp::wire::IpListenEndpoint {
        addr: match addr {
            Some(a) => Some(smoltcp::wire::IpAddress::Ipv4(smoltcp::wire::Ipv4Address::from_bits(a))),
            None => None,
        },
        port,
    };
    match socks.get_mut::<smoltcp::socket::tcp::Socket>(h).listen(ep) {
        Ok(()) => Ok(()),
        Err(smoltcp::socket::tcp::ListenError::Unaddressable) => Err(EngineRefusal::Unaddressable),
        Err(smoltcp::socket::tcp::ListenError::InvalidState) => Err(EngineRefusal::InvalidState),
    }
}

/// Relies on smoltcp's `tcp::Socket::connect`: issues an active open
/// towards the remote endpoint; zero ports are never accepted.
#[verifier::external_body]
fn tcp_connect_raw(
    iface: &mut smoltcp::iface::Interface,
    socks: &mut smoltcp::iface::SocketSet<'static>,
    h: smoltcp::iface::SocketHandle,
    raddr: u32,
    rport: u16,
    lport: u16,
) -> (r: Result<(), EngineRefusal>)
    requires
        tcp_handles(*old(socks)).contains(handle_id(h)),
    ensures
        tcp_handles(*final(socks)) == tcp_handles(*old(socks)),
        udp_handles(*final(socks)) == udp_handles(*old(socks)),
        r is Ok ==> rport != 0 && lport != 0,
{
    let remote = smoltcp::wire::IpEndpoint {
        addr: smoltcp::wire::IpAddress::Ipv4(smoltcp::wire::Ipv4Address::from_bits(raddr)),
        port: rport,
    };
    let local = smoltcp::wire::IpListenEndpoint { addr: None, port: lport };
    let socket = socks.get_mut::<smoltcp::socket::tcp::Socket>(h);
    match socket.connect(iface.context(), remote, local) {
        Ok(()) => Ok(()),
        Err(smoltcp::socket::tcp::ConnectError::Unaddressable) => Err(
            EngineRefusal::Unaddressable,
        ),
        Err(smoltcp::socket::tcp::ConnectError::InvalidState) => Err(EngineRefusal::InvalidState),
    }
}

/// Relies on smoltcp's `tcp::Socket::close`: closes the transmit half of
/// the connection (or leaves Listen); never fails.
#[verifier::external_body]
fn tcp_close_raw(socks: &mut smoltcp::iface::SocketSet<'static>, h: smoltcp::iface::SocketHandle)
    requires
        tcp_handles(*old(socks)).contains(handle_id(h)),
    ensures
        tcp_handles(*final(socks)) == tcp_handles(*old(socks)),
        udp_handles(*final(socks)) == udp_handles(*old(socks)),
{
    socks.get_mut::<smoltcp::socket::tcp::Socket>(h).close();
}

/// Relies on smoltcp's `tcp::Socket::abort`: aborts the connection,
/// sending a reset if one was active; never fails.
#[verifier::external_body]
fn tcp_abort_raw(socks: &mut smoltcp::iface::SocketSet<'static>, h: smoltcp::iface::SocketHandle)
    requires
        tcp_handles(*old(socks)).contains(handle_id(h)),
    ensures
        tcp_handles(*final(socks)) == tcp_handles(*old(socks)),
        udp_handles(*final(socks)) == udp_handles(*old(socks)),
{
    socks.get_mut::<smoltcp::socket::tcp::Socket>(h).abort();
}

/// Relies on smoltcp's `tcp::Socket::send_slice`: enqueues a prefix of
/// the data, bounded by the free transmit-buffer space; `None` when the
/// transmit half is not open.
#[verifier::external_body]
fn tcp_send_raw(
    socks: &mut smoltcp::iface::SocketSet<'static>,
    h: smoltcp::iface::SocketHandle,
    data: &[u8],
) -> (r: Option<usize>)
    requires
        tcp_handles(*old(socks)).contains(handle_id(h)),
    ensures
        tcp_handles(*final(socks)) == tcp_handles(*old(socks)),
        udp_handles(*final(socks)) == udp_handles(*old(socks)),
        r matches Some(n) ==> n <= data@.len(),
{
    match socks.get_mut::<smoltcp::socket::tcp::Socket>(h).send_slice(data) {
        Ok(n) => Some(n),
        Err(smoltcp::socket::tcp::SendError::InvalidState) => None,
    }
}

/// Relies on smoltcp's `tcp::Socket::recv_slice`: dequeues up to
/// `buf.len()` received bytes into the front of `buf`; bytes past the
/// count and the length of `buf` are untouched, and nothing is written
/// on failure.
#[verifier::external_body]
fn tcp_recv_raw(
    socks: &mut smoltcp::iface::SocketSet<'static>,
    h: smoltcp::iface::SocketHandle,
    buf: &mut Vec<u8>,
) -> (r: Result<usize, TcpRecvFailure>)
    requires
        tcp_handles(*old(socks)).contains(handle_id(h)),
    ensures
        tcp_handles(*final(socks)) == tcp_handles(*old(socks)),
        udp_handles(*final(socks)) == udp_handles(*old(socks)),
        final(buf)@.len() == old(buf)@.len(),
        r matches Ok(n) ==> n <= old(buf)@.len() && final(buf)@.skip(n as int) == old(
            buf,
        )@.skip(n as int),
        r is Err ==> final(buf)@ == old(buf)@,
{
    match socks.get_mut::<smoltcp::socket::tcp::Socket>(h).recv_slice(buf.as_mut_slice()) {
        Ok(n) => Ok(n),
        Err(smoltcp::socket::tcp::RecvError::Finished) => Err(TcpRecvFailure::Finished),
        Err(smoltcp::socket::tcp::RecvError::InvalidState) => Err(TcpRecvFailure::InvalidState),
    }
}

/// Relies on smoltcp's `tcp::Socket::remote_endpoint`: the peer of the
/// current connection, if there is one (IPv4 only).
#[verifier::external_body]
fn tcp_remote_raw(
    socks: &smoltcp::iface::SocketSet<'static>,
    h: smoltcp::iface::SocketHandle,
) -> Option<(u32, u16)>
    requires
        tcp_handles(*socks).contains(handle_id(h)),
{
    match socks.get::<smoltcp::socket::tcp::Socket>(h).remote_endpoint() {
        Some(ep) => match ep.addr {
            smoltcp::wire::IpAddress::Ipv4(a) => Some((a.to_bits(), ep.port)),
            _ => None,
        },
        None => None,
    }
}

/// Relies on smoltcp's `tcp::Socket::set_nagle_enabled`: toggles the
/// Nagle algorithm on the socket.
#[verifier::external_body]
fn tcp_set_nagle_raw(
    socks: &mut smoltcp::iface::SocketSet<'static>,
    h: smoltcp::iface::SocketHandle,
    enabled: bool,
)
    requires
        tcp_handles(*old(socks)).contains(handle_id(h)),
    ensures
        tcp_handles(*final(socks)) == tcp_handles(*old(socks)),
        udp_handles(*final(socks)) == udp_handles(*old(socks)),
{
    socks.get_mut::<smoltcp::socket::tcp::Socket>(h).set_nagle_enabled(enabled);
}

/// Relies on smoltcp's `tcp::Socket::set_keep_alive`: enables keep-alive
/// probes at a one-second interval.
#[verifier::external_body]
fn tcp_keep_alive_raw(
    socks: &mut smoltcp::iface::SocketSet<'static>,
    h: smoltcp::iface::SocketHandle,
)
    requires
        tcp_handles(*old(socks)).contains(handle_id(h)),
    ensures
        tcp_handles(*final(socks)) == tcp_handles(*old(socks)),
        udp_handles(*final(socks)) == udp_handles(*old(socks)),
{
    let socket = socks.get_mut::<smoltcp::socket::tcp::Socket>(h);
    socket.set_keep_alive(Some(smoltcp::time::Duration::from_secs(1)));
}

// ---------------------------------------------------------------------
// The decisions the retry loops take, as pure verified functions of the
// engine's reports.
// ---------------------------------------------------------------------

/// What a receive attempt should do, given the observed protocol state
/// and whether the receive buffer holds data.
#[derive(Clone, Copy, Debug, PartialEq, Eq, Structural)]
pub enum RecvDecision {
    /// Orderly peer-initiated close: deliver end of stream (a
    /// zero-length successful read).
    Eof,
    /// The connection cannot deliver data any more: fail.
    NotConnected,
    /// Nothing to read yet: retry or report EAGAIN.
    WouldBlock,
    /// Data is available: read it.
    Receive,
}

/// The states a receive treats as end-of-stream rather than an error.
pub open spec fn is_eof_state(st: TcpState) -> bool {
    st == TcpState::CloseWait || st == TcpState::TimeWait || st == TcpState::FinWait2
}

/// The decision a receive attempt takes: end-of-stream states deliver a
/// zero-length read; a connection that can neither deliver buffered data
/// nor receive more fails; an empty buffer on a live connection blocks.
pub open spec fn recv_decision_spec(st: TcpState, can_recv: bool) -> RecvDecision {
    if is_eof_state(st) {
        RecvDecision::Eof
    } else if !(st == TcpState::Established || st == TcpState::FinWait1 || can_recv) {
        RecvDecision::NotConnected
    } else if !can_recv {
        RecvDecision::WouldBlock
    } else {
        RecvDecision::Receive
    }
}

/// Executable form of `recv_decision_spec`.
pub fn tcp_recv_decision(st: TcpState, can_recv: bool) -> (d: RecvDecision)
    ensures
        d == recv_decision_spec(st, can_recv),
{
    if st == TcpState::CloseWait || st == TcpState::TimeWait || st == TcpState::FinWait2 {
        RecvDecision::Eof
    } else if !(st == TcpState::Established || st == TcpState::FinWait1 || can_recv) {
        RecvDecision::NotConnected
    } else if !can_recv {
        RecvDecision::WouldBlock
    } else {
        RecvDecision::Receive
    }
}

/// What a send attempt should do, given the observed protocol state and
/// whether the transmit buffer has room.
#[derive(Clone, Copy, Debug, PartialEq, Eq, Structural)]
pub enum SendDecision {
    /// The connection is not in a sendable state: fail immediately.
    NotConnected,
    /// The transmit buffer is full: retry or report EAGAIN.
    WouldBlock,
    /// Room is available: enqueue the data.
    Send,
}

/// The states in which the transmit half of a connection is open.
pub open spec fn is_sendable_state(st: TcpState) -> bool {
    st == TcpState::Established || st == TcpState::CloseWait
}

/// The decision a send attempt takes: a connection whose transmit half
/// is closed fails immediately (never retried); a full buffer blocks.
pub open spec fn send_decision_spec(st: TcpState, can_send: bool) -> SendDecision {
    if !is_sendable_state(st) {
        SendDecision::NotConnected
    } else if !can_send {
        SendDecision::WouldBlock
    } else {
        SendDecision::Send
    }
}

/// Executable form of `send_decision_spec`.
pub fn tcp_send_decision(st: TcpState, can_send: bool) -> (d: SendDecision)
    ensures
        d == send_decision_spec(st, can_send),
{
    if !(st == TcpState::Established || st == TcpState::CloseWait) {
        SendDecision::NotConnected
    } else if !can_send {
        SendDecision::WouldBlock
    } else {
        SendDecision::Send
    }
}

/// Whether a listening socket is ready to hand out a connection: the
/// engine has moved it out of Listen on behalf of an arriving peer.
pub open spec fn accept_ready_spec(st: TcpState) -> bool {
    st == TcpState::SynReceived || st == TcpState::Established
}

// ---------------------------------------------------------------------
// The TCP socket capability object.
// ---------------------------------------------------------------------

/// A TCP socket capability: an engine handle plus the locally recorded
/// endpoints, the last observed protocol state (diagnostic only), and
/// the advisory buffer sizes.
///
/// The handle is never mutated after construction.
#[derive(Clone, Copy, Debug)]
pub struct TcpSocket {
    pub handle: smoltcp::iface::SocketHandle,
    pub local: SockAddrV4,
    pub remote: Option<SockAddrV4>,
    pub last_state: TcpState,
    pub recvbuf_size: usize,
    pub sendbuf_size: usize,
}

impl TcpSocket {
    /// The capability is backed by a live TCP socket of the engine.
    pub open spec fn wf(self, eng: NetInterface) -> bool {
        eng.tcp_live().contains(handle_id(self.handle))
    }

    /// Everything but the engine handle and the cached state: what stays
    /// fixed across operations that only talk to the engine.
    pub open spec fn same_config(self, other: TcpSocket) -> bool {
        &&& self.handle == other.handle
        &&& self.local == other.local
        &&& self.recvbuf_size == other.recvbuf_size
        &&& self.sendbuf_size == other.sendbuf_size
    }

    /// Create a TCP socket registered with the engine, initially bound
    /// to the given (ephemeral) port on the wildcard address.
    pub fn new(eng: &mut NetInterface, local_port: u16) -> (s: TcpSocket)
        ensures
            s.wf(*final(eng)),
            !old(eng).tcp_live().contains(handle_id(s.handle)),
            !old(eng).udp_live().contains(handle_id(s.handle)),
            final(eng).tcp_live() == old(eng).tcp_live().insert(handle_id(s.handle)),
            final(eng).udp_live() == old(eng).udp_live(),
            s.local == (SockAddrV4 { addr: 0, port: local_port }),
            s.remote is None,
            s.last_state == TcpState::Closed,
            s.recvbuf_size == crate::MAX_BUFFER_SIZE,
            s.sendbuf_size == crate::MAX_BUFFER_SIZE,
    {
        let handle = eng.add_tcp_socket();
        eng.poll();
        TcpSocket {
            handle,
            local: SockAddrV4 { addr: 0, port: local_port },
            remote: None,
            last_state: TcpState::Closed,
            recvbuf_size: crate::MAX_BUFFER_SIZE,
            sendbuf_size: crate::MAX_BUFFER_SIZE,
        }
    }

    /// Record the requested local endpoint. For TCP this is purely local
    /// bookkeeping; the engine checks it at listen/connect time.
    pub fn bind(&mut self, addr: SockAddrV4) -> (r: Result<usize, Errno>)
        ensures
            r == Ok::<usize, Errno>(0),
            final(self).local == addr,
            final(self).handle == old(self).handle,
            final(self).remote == old(self).remote,
            final(self).last_state == old(self).last_state,
            final(self).recvbuf_size == old(self).recvbuf_size,
            final(self).sendbuf_size == old(self).sendbuf_size,
    {
        self.local = addr;
        Ok(0)
    }

    /// Ask the engine to move this socket into the Listen state on the
    /// recorded local endpoint.
    pub fn listen(&mut self, eng: &mut NetInterface) -> (r: Result<usize, Errno>)
        requires
            old(self).wf(*old(eng)),
        ensures
            final(eng).tcp_live() == old(eng).tcp_live(),
            final(eng).udp_live() == old(eng).udp_live(),
            old(self).same_config(*final(self)),
            final(self).remote == old(self).remote,
            r is Ok ==> r == Ok::<usize, Errno>(0) && final(self).last_state == TcpState::Listen
                && old(self).local.port != 0,
            r is Err ==> r == Err::<usize, Errno>(Errno::EADDRINUSE) && final(self).last_state
                == old(self).last_state,
    {
        let addr: Option<u32> = if self.local.addr == 0 {
            None
        } else {
            Some(self.local.addr)
        };
        match tcp_listen_raw(&mut eng.sockets, self.handle, addr, self.local.port) {
            Ok(()) => {
                self.last_state = TcpState::Listen;
                Ok(0)
            },
            Err(_) => Err(Errno::EADDRINUSE),
        }
    }

    /// Issue one engine-level connect from the recorded local endpoint.
    fn connect_once(&self, eng: &mut NetInterface, remote: SockAddrV4) -> (r: Result<(), Errno>)
        requires
            self.wf(*old(eng)),
        ensures
            final(eng).tcp_live() == old(eng).tcp_live(),
            final(eng).udp_live() == old(eng).udp_live(),
            r is Err ==> r == Err::<(), Errno>(Errno::EINVAL) || r == Err::<(), Errno>(
                Errno::EISCONN,
            ),
    {
        match tcp_connect_raw(
            &mut eng.iface,
            &mut eng.sockets,
            self.handle,
            remote.addr,
            remote.port,
            self.local.port,
        ) {
            Ok(()) => Ok(()),
            Err(EngineRefusal::Unaddressable) => Err(Errno::EINVAL),
            Err(EngineRefusal::InvalidState) => Err(Errno::EISCONN),
        }
    }

    /// Connect to a peer: issue the engine-level connect, then poll
    /// until the engine reports Established. One spurious Closed state
    /// is tolerated by reissuing the connect exactly once; a second
    /// Closed observation fails the attempt. `budget` bounds the number
    /// of poll/retry cycles a blocking caller is willing to spend.
    pub fn connect(&mut self, eng: &mut NetInterface, remote: SockAddrV4, budget: usize) -> (r:
        Result<usize, Errno>)
        requires
            old(self).wf(*old(eng)),
        ensures
            final(eng).tcp_live() == old(eng).tcp_live(),
            final(eng).udp_live() == old(eng).udp_live(),
            old(self).same_config(*final(self)),
            final(self).remote == Some(remote),
            r is Ok ==> r == Ok::<usize, Errno>(0) && final(self).last_state
                == TcpState::Established,
            r is Err ==> (r == Err::<usize, Errno>(Errno::EINVAL) || r == Err::<usize, Errno>(
                Errno::EISCONN,
            ) || r == Err::<usize, Errno>(Errno::ECONNREFUSED) || r == Err::<usize, Errno>(
                Errno::EAGAIN,
            )) && final(self).last_state == old(self).last_state,
    {
        self.remote = Some(remote);
        match self.connect_once(eng, remote) {
            Ok(()) => (),
            Err(e) => {
                return Err(e);
            },
        }
        let mut reissued: bool = false;
        let mut i: usize = 0;
        while i < budget
            invariant
                self.wf(*eng),
                eng.tcp_live() == old(eng).tcp_live(),
                eng.udp_live() == old(eng).udp_live(),
                *self == (TcpSocket { remote: Some(remote), ..*old(self) }),
            decreases budget - i,
        {
            eng.poll();
            let st = tcp_state_raw(&eng.sockets, self.handle);
            if st == TcpState::Established {
                self.last_state = TcpState::Established;
                return Ok(0);
            }
            if st == TcpState::Closed {
                if reissued {
                    return Err(Errno::ECONNREFUSED);
                }
                reissued = true;
                match self.connect_once(eng, remote) {
                    Ok(()) => (),
                    Err(e) => {
                        return Err(e);
                    },
                }
            }
            i = i + 1;
        }
        Err(Errno::EAGAIN)
    }

    /// Wait until a peer has connected to this listening socket and
    /// return the peer's endpoint. The accepted connection stays on this
    /// very capability; the caller is responsible for the descriptor
    /// hand-off.
    pub fn accept_wait(
        &mut self,
        eng: &mut NetInterface,
        nonblock: bool,
        budget: usize,
    ) -> (r: Result<SockAddrV4, Errno>)
        requires
            old(self).wf(*old(eng)),
        ensures
            final(eng).tcp_live() == old(eng).tcp_live(),
            final(eng).udp_live() == old(eng).udp_live(),
            old(self).same_config(*final(self)),
            r matches Ok(peer) ==> accept_ready_spec(final(self).last_state) && final(self).remote
                == Some(peer),
            r is Err ==> (r == Err::<SockAddrV4, Errno>(Errno::EINVAL) || r == Err::<
                SockAddrV4,
                Errno,
            >(Errno::ENOTCONN) || r == Err::<SockAddrV4, Errno>(Errno::EAGAIN)) && *final(self)
                == *old(self),
    {
        let mut i: usize = 0;
        while i < budget
            invariant
                self.wf(*eng),
                eng.tcp_live() == old(eng).tcp_live(),
                eng.udp_live() == old(eng).udp_live(),
                *self == *old(self),
            decreases budget - i,
        {
            eng.poll();
            let st = tcp_state_raw(&eng.sockets, self.handle);
            if st == TcpState::Closed || st == TcpState::TimeWait {
                // The listening socket is not open at all.
                return Err(Errno::EINVAL);
            }
            if st == TcpState::SynReceived || st == TcpState::Established {
                match tcp_remote_raw(&eng.sockets, self.handle) {
                    Some((addr, port)) => {
                        self.last_state = st;
                        let peer = SockAddrV4 { addr, port };
                        self.remote = Some(peer);
                        return Ok(peer);
                    },
                    None => {
                        return Err(Errno::ENOTCONN);
                    },
                }
            }
            if nonblock {
                return Err(Errno::EAGAIN);
            }
            eng.poll();
            i = i + 1;
        }
        Err(Errno::EAGAIN)
    }

    /// Receive into the front of `buf`: poll-and-retry until data, end
    /// of stream, or a definitive error. Non-blocking callers get
    /// EAGAIN instead of a retry.
    pub fn read(&self, eng: &mut NetInterface, buf: &mut Vec<u8>, nonblock: bool, budget: usize)
        -> (r: Result<usize, Errno>)
        requires
            self.wf(*old(eng)),
        ensures
            final(eng).tcp_live() == old(eng).tcp_live(),
            final(eng).udp_live() == old(eng).udp_live(),
            final(buf)@.len() == old(buf)@.len(),
            r matches Ok(n) ==> n <= old(buf)@.len() && final(buf)@.skip(n as int) == old(
                buf,
            )@.skip(n as int),
            r is Err ==> (r == Err::<usize, Errno>(Errno::EAGAIN) || r == Err::<usize, Errno>(
                Errno::ENOTCONN,
            )) && final(buf)@ == old(buf)@,
    {
        let mut i: usize = 0;
        while i < budget
            invariant
                self.wf(*eng),
                eng.tcp_live() == old(eng).tcp_live(),
                eng.udp_live() == old(eng).udp_live(),
                buf@ == old(buf)@,
            decreases budget - i,
        {
            eng.poll();
            let st = tcp_state_raw(&eng.sockets, self.handle);
            let can_recv = tcp_can_recv_raw(&eng.sockets, self.handle);
            match tcp_recv_decision(st, can_recv) {
                RecvDecision::Eof => {
                    return Ok(0);
                },
                RecvDecision::NotConnected => {
                    return Err(Errno::ENOTCONN);
                },
                RecvDecision::WouldBlock => {
                    if nonblock {
                        return Err(Errno::EAGAIN);
                    }
                },
                RecvDecision::Receive => {
                    let got = tcp_recv_raw(&mut eng.sockets, self.handle, buf);
                    eng.poll();
                    match got {
                        Ok(n) => {
                            return Ok(n);
                        },
                        Err(_) => {
                            return Err(Errno::ENOTCONN);
                        },
                    }
                },
            }
            eng.poll();
            i = i + 1;
        }
        Err(Errno::EAGAIN)
    }

    /// Send a prefix of `buf`: fails immediately when the connection is
    /// not in a sendable state; retries (or reports EAGAIN) while the
    /// transmit buffer is full.
    pub fn write(&self, eng: &mut NetInterface, buf: &[u8], nonblock: bool, budget: usize) -> (r:
        Result<usize, Errno>)
        requires
            self.wf(*old(eng)),
        ensures
            final(eng).tcp_live() == old(eng).tcp_live(),
            final(eng).udp_live() == old(eng).udp_live(),
            r matches Ok(n) ==> n <= buf@.len(),
            r is Err ==> r == Err::<usize, Errno>(Errno::EAGAIN) || r == Err::<usize, Errno>(
                Errno::ENOTCONN,
            ),
    {
        let mut i: usize = 0;
        while i < budget
            invariant
                self.wf(*eng),
                eng.tcp_live() == old(eng).tcp_live(),
                eng.udp_live() == old(eng).udp_live(),
            decreases budget - i,
        {
            eng.poll();
            let st = tcp_state_raw(&eng.sockets, self.handle);
            let can_send = tcp_can_send_raw(&eng.sockets, self.handle);
            match tcp_send_decision(st, can_send) {
                SendDecision::NotConnected => {
                    return Err(Errno::ENOTCONN);
                },
                SendDecision::WouldBlock => {
                    if nonblock {
                        return Err(Errno::EAGAIN);
                    }
                },
                SendDecision::Send => {
                    let sent = tcp_send_raw(&mut eng.sockets, self.handle, buf);
                    eng.poll();
                    match sent {
                        Some(n) => {
                            return Ok(n);
                        },
                        None => {
                            return Err(Errno::ENOTCONN);
                        },
                    }
                },
            }
            eng.poll();
            i = i + 1;
        }
        Err(Errno::EAGAIN)
    }

    /// Shut the connection down: a write-shutdown closes the transmit
    /// half gracefully, any other value aborts the connection. Always
    /// succeeds, and a repeated call has no further effect on the
    /// capability.
    pub fn shutdown(&self, eng: &mut NetInterface, how: u32) -> (r: Result<(), Errno>)
        requires
            self.wf(*old(eng)),
        ensures
            final(eng).tcp_live() == old(eng).tcp_live(),
            final(eng).udp_live() == old(eng).udp_live(),
            r == Ok::<(), Errno>(()),
    {
        if how == crate::SHUT_WR {
            tcp_close_raw(&mut eng.sockets, self.handle);
        } else {
            tcp_abort_raw(&mut eng.sockets, self.handle);
        }
        eng.poll();
        Ok(())
    }

    /// Toggle the Nagle algorithm.
    pub fn set_nagle_enabled(&self, eng: &mut NetInterface, enabled: bool) -> (r: Result<
        usize,
        Errno,
    >)
        requires
            self.wf(*old(eng)),
        ensures
            final(eng).tcp_live() == old(eng).tcp_live(),
            final(eng).udp_live() == old(eng).udp_live(),
            r == Ok::<usize, Errno>(0),
    {
        tcp_set_nagle_raw(&mut eng.sockets, self.handle, enabled);
        Ok(0)
    }

    /// Enable keep-alive probes; a disable request is ignored and the
    /// engine keeps its default.
    pub fn set_keep_alive(&self, eng: &mut NetInterface, enabled: bool) -> (r: Result<
        usize,
        Errno,
    >)
        requires
            self.wf(*old(eng)),
        ensures
            final(eng).tcp_live() == old(eng).tcp_live(),
            final(eng).udp_live() == old(eng).udp_live(),
            r == Ok::<usize, Errno>(0),
    {
        if enabled {
            tcp_keep_alive_raw(&mut eng.sockets, self.handle);
        }
        Ok(0)
    }

    /// Tear the socket down: close it at the engine and deregister the
    /// handle. The capability must not be used afterwards.
    pub fn teardown(&self, eng: &mut NetInterface)
        requires
            self.wf(*old(eng)),
        ensures
            final(eng).tcp_live() == old(eng).tcp_live().remove(handle_id(self.handle)),
            final(eng).udp_live() == old(eng).udp_live().remove(handle_id(self.handle)),
    {
        tcp_close_raw(&mut eng.sockets, self.handle);
        eng.poll();
        eng.remove_socket(self.handle);
        eng.poll();
    }
}

} // verus!
