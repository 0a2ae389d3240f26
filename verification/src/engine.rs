use vstd::prelude::*;

verus! {

// ---------------------------------------------------------------------
// Declarations of the packet-engine types this library carries around.
// Verus sees them as opaque values; every operation on them goes through
// the trusted wrappers below.
// ---------------------------------------------------------------------

#[verifier::external_type_specification]
#[verifier::external_body]
pub struct ExLoopback(smoltcp::phy::Loopback);

#[verifier::external_type_specification]
#[verifier::external_body]
pub struct ExInterface(smoltcp::iface::Interface);

#[verifier::external_type_specification]
#[verifier::external_body]
pub struct ExSocketSet<'a>(smoltcp::iface::SocketSet<'a>);

#[verifier::external_type_specification]
#[verifier::external_body]
pub struct ExSocketHandle(smoltcp::iface::SocketHandle);

// ---------------------------------------------------------------------
// Names for what the engine's socket set holds. The wrappers' contracts
// below are the only facts known about them.
// ---------------------------------------------------------------------

/// The identity of a socket handle (its slot in the engine's socket set).
pub uninterp spec fn handle_id(h: smoltcp::iface::SocketHandle) -> int;

/// The identities of the live TCP sockets in a socket set.
pub uninterp spec fn tcp_handles(s: smoltcp::iface::SocketSet<'static>) -> Set<int>;

/// The identities of the live UDP sockets in a socket set.
pub uninterp spec fn udp_handles(s: smoltcp::iface::SocketSet<'static>) -> Set<int>;

// ---------------------------------------------------------------------
// Engine construction and polling.
// ---------------------------------------------------------------------

/// Relies on smoltcp's `Loopback::new`: a device that feeds every
/// transmitted frame back as received, in order.
#[verifier::external_body]
fn make_loopback_raw() -> smoltcp::phy::Loopback {
    smoltcp::phy::Loopback::new(smoltcp::phy::Medium::Ip)
}

/// Relies on smoltcp's `Interface::new` and `update_ip_addrs`: brings up
/// an IP interface on the device and assigns it 127.0.0.1/8.
#[verifier::external_body]
fn make_iface_raw(device: &mut smoltcp::phy::Loopback) -> smoltcp::iface::Interface {
    let config = smoltcp::iface::Config::new(smoltcp::wire::HardwareAddress::Ip);
    let mut iface = smoltcp::iface::Interface::new(
        config,
        device,
        smoltcp::time::Instant::from_millis(0),
    );
    iface.update_ip_addrs(|addrs| {
        let cidr = smoltcp::wire::IpCidr::new(smoltcp::wire::IpAddress::v4(127, 0, 0, 1), 8);
        addrs.push(cidr).unwrap();
    });
    iface
}

/// Relies on smoltcp's `SocketSet::new`: an empty socket set owns no
/// sockets of either protocol.
#[verifier::external_body]
fn make_socket_set_raw() -> (s: smoltcp::iface::SocketSet<'static>)
    ensures
        tcp_handles(s) == Set::<int>::empty(),
        udp_handles(s) == Set::<int>::empty(),
{
    smoltcp::iface::SocketSet::new(Vec::new())
}

/// Relies on smoltcp's `Interface::poll`: advances timers and moves
/// packets between the device and the sockets; it never adds or removes
/// sockets from the set.
#[verifier::external_body]
fn poll_raw(
    iface: &mut smoltcp::iface::Interface,
    device: &mut smoltcp::phy::Loopback,
    socks: &mut smoltcp::iface::SocketSet<'static>,
    now_ms: u64,
)
    ensures
        tcp_handles(*final(socks)) == tcp_handles(*old(socks)),
        udp_handles(*final(socks)) == udp_handles(*old(socks)),
{
    let now = smoltcp::time::Instant::from_millis(now_ms as i64);
    iface.poll(now, device, socks);
}

/// Relies on smoltcp's `SocketSet::add`: registering a fresh TCP socket
/// (with ring buffers of `cap` bytes each) returns a handle to a slot
/// not previously occupied by any live socket.
#[verifier::external_body]
fn add_tcp_raw(socks: &mut smoltcp::iface::SocketSet<'static>, cap: usize) -> (h:
    smoltcp::iface::SocketHandle)
    ensures
        !tcp_handles(*old(socks)).contains(handle_id(h)),
        !udp_handles(*old(socks)).contains(handle_id(h)),
        tcp_handles(*final(socks)) == tcp_handles(*old(socks)).insert(handle_id(h)),
        udp_handles(*final(socks)) == udp_handles(*old(socks)),
{
    let rx = smoltcp::socket::tcp::SocketBuffer::new(vec![0u8; cap]);
    let tx = smoltcp::socket::tcp::SocketBuffer::new(vec![0u8; cap]);
    socks.add(smoltcp::socket::tcp::Socket::new(rx, tx))
}

/// Relies on smoltcp's `SocketSet::add`: registering a fresh UDP socket
/// (two datagram slots, `cap` payload bytes each way) returns a handle
/// to a slot not previously occupied by any live socket.
#[verifier::external_body]
fn add_udp_raw(socks: &mut smoltcp::iface::SocketSet<'static>, cap: usize) -> (h:
    smoltcp::iface::SocketHandle)
    ensures
        !tcp_handles(*old(socks)).contains(handle_id(h)),
        !udp_handles(*old(socks)).contains(handle_id(h)),
        udp_handles(*final(socks)) == udp_handles(*old(socks)).insert(handle_id(h)),
        tcp_handles(*final(socks)) == tcp_handles(*old(socks)),
{
    let rx = smoltcp::socket::udp::PacketBuffer::new(
        vec![smoltcp::socket::udp::PacketMetadata::EMPTY; 2],
        vec![0u8; cap],
    );
    let tx = smoltcp::socket::udp::PacketBuffer::new(
        vec![smoltcp::socket::udp::PacketMetadata::EMPTY; 2],
        vec![0u8; cap],
    );
    socks.add(smoltcp::socket::udp::Socket::new(rx, tx))
}

/// Relies on smoltcp's `SocketSet::remove`: deregisters the socket and
/// frees its slot.
#[verifier::external_body]
fn remove_raw(socks: &mut smoltcp::iface::SocketSet<'static>, h: smoltcp::iface::SocketHandle)
    requires
        tcp_handles(*old(socks)).contains(handle_id(h)) || udp_handles(*old(socks)).contains(
            handle_id(h),
        ),
    ensures
        tcp_handles(*final(socks)) == tcp_handles(*old(socks)).remove(handle_id(h)),
        udp_handles(*final(socks)) == udp_handles(*old(socks)).remove(handle_id(h)),
{
    socks.remove(h);
}

// ---------------------------------------------------------------------
// The engine adapter: one loopback device, one interface, one socket
// set, and a millisecond clock that advances on every poll.
// ---------------------------------------------------------------------

/// The packet-engine adapter. It owns the process's single network
/// interface and its socket set; every socket operation of the library
/// goes through it.
pub struct NetInterface {
    pub device: smoltcp::phy::Loopback,
    pub iface: smoltcp::iface::Interface,
    pub sockets: smoltcp::iface::SocketSet<'static>,
    pub now_ms: u64,
}

impl NetInterface {
    /// The identities of the live TCP sockets the engine owns.
    pub open spec fn tcp_live(self) -> Set<int> {
        tcp_handles(self.sockets)
    }

    /// The identities of the live UDP sockets the engine owns.
    pub open spec fn udp_live(self) -> Set<int> {
        udp_handles(self.sockets)
    }

    /// Bring up a fresh engine: loopback device, interface at
    /// 127.0.0.1/8, no sockets yet.
    pub fn new() -> (n: NetInterface)
        ensures
            n.tcp_live() == Set::<int>::empty(),
            n.udp_live() == Set::<int>::empty(),
    {
        let mut device = make_loopback_raw();
        let iface = make_iface_raw(&mut device);
        let sockets = make_socket_set_raw();
        NetInterface { device, iface, sockets, now_ms: 0 }
    }

    /// Drive one iteration of packet processing and protocol timers.
    /// The engine's socket states may change arbitrarily; the set of
    /// live sockets does not.
    pub fn poll(&mut self)
        ensures
            final(self).tcp_live() == old(self).tcp_live(),
            final(self).udp_live() == old(self).udp_live(),
    {
        if self.now_ms < u64::MAX {
            self.now_ms = self.now_ms + 1;
        }
        poll_raw(&mut self.iface, &mut self.device, &mut self.sockets, self.now_ms);
    }

    /// Register a new TCP socket and return its (fresh) handle.
    pub fn add_tcp_socket(&mut self) -> (h: smoltcp::iface::SocketHandle)
        ensures
            !old(self).tcp_live().contains(handle_id(h)),
            !old(self).udp_live().contains(handle_id(h)),
            final(self).tcp_live() == old(self).tcp_live().insert(handle_id(h)),
            final(self).udp_live() == old(self).udp_live(),
    {
        add_tcp_raw(&mut self.sockets, crate::MAX_BUFFER_SIZE)
    }

    /// Register a new UDP socket and return its (fresh) handle.
    pub fn add_udp_socket(&mut self) -> (h: smoltcp::iface::SocketHandle)
        ensures
            !old(self).tcp_live().contains(handle_id(h)),
            !old(self).udp_live().contains(handle_id(h)),
            final(self).udp_live() == old(self).udp_live().insert(handle_id(h)),
            final(self).tcp_live() == old(self).tcp_live(),
    {
        add_udp_raw(&mut self.sockets, crate::MAX_BUFFER_SIZE)
    }

    /// Deregister a socket; its handle must be live and may not be used
    /// again afterwards.
    pub fn remove_socket(&mut self, h: smoltcp::iface::SocketHandle)
        requires
            old(self).tcp_live().contains(handle_id(h)) || old(self).udp_live().contains(
                handle_id(h),
            ),
        ensures
            final(self).tcp_live() == old(self).tcp_live().remove(handle_id(h)),
            final(self).udp_live() == old(self).udp_live().remove(handle_id(h)),
    {
        remove_raw(&mut self.sockets, h);
    }
}

} // verus!
