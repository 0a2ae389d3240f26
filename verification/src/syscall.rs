use vstd::prelude::*;
use crate::addr::{encode_sockaddr, parse_sockaddr, sockaddr_value, sockaddr_well_formed};
use crate::engine::NetInterface;
use crate::errno::Errno;
use crate::rng::Lcg;
use crate::table::{distinct_handles, FdEntry, Sock, SockTable};
use crate::tcp::TcpSocket;
use crate::udp::UdpSocket;
use crate::unixsock::{make_unix_socket_pair, PipeSet};

verus! {

/// Address family: IPv4.
pub const AF_INET: u32 = 2;

/// Socket type: byte stream (TCP).
pub const SOCK_STREAM: u32 = 1;

/// Socket type: datagram (UDP).
pub const SOCK_DGRAM: u32 = 2;

/// Type flag: open the descriptor non-blocking.
pub const SOCK_NONBLOCK: u32 = 0x800;

/// Type flag: close the descriptor on exec.
pub const SOCK_CLOEXEC: u32 = 0x80000;

/// Option level: generic socket options.
pub const SOL_SOCKET: u32 = 1;

/// Option level: TCP options.
pub const SOL_TCP: u32 = 6;

/// TCP option: disable the Nagle algorithm.
pub const TCP_NODELAY: u32 = 1;

/// TCP option: maximum segment size (read-only here).
pub const TCP_MAXSEG: u32 = 2;

/// TCP option: congestion-control name (read-only, "reno").
pub const TCP_CONGESTION: u32 = 13;

/// Socket option: transmit buffer size.
pub const SO_SNDBUF: u32 = 7;

/// Socket option: receive buffer size.
pub const SO_RCVBUF: u32 = 8;

/// Socket option: keep-alive probing.
pub const SO_KEEPALIVE: u32 = 9;

/// How many poll/yield cycles a blocking operation spends before it
/// gives up.
///
/// A kernel with a scheduler would retry a blocking call forever,
/// yielding between poll cycles, and EAGAIN would never reach a
/// blocking caller. A verified loop must terminate, so here every
/// blocking operation runs at most this many poll cycles and then
/// reports EAGAIN; a caller standing in for the scheduler treats that
/// one value as "yield and retry", exactly as the suspend-and-rerun
/// primitive would. Non-blocking callers are answered on the first
/// cycle either way.
pub const DEFAULT_POLL_BUDGET: usize = 256;

/// One task's view of the network: the packet-engine adapter, the pipes
/// backing local socket pairs, the descriptor table, and the ephemeral
/// port source.
pub struct NetStack {
    pub eng: NetInterface,
    pub pipes: PipeSet,
    pub table: SockTable,
    pub rng: Lcg,
    pub budget: usize,
}

impl NetStack {
    /// The stack's invariant: the table is bounded, every pipe respects
    /// its capacity, every open descriptor's capability is backed by a
    /// live engine socket or live pipes, and no two descriptors own the
    /// same engine handle.
    pub open spec fn wf(self) -> bool {
        &&& self.table.bounded()
        &&& self.pipes.wf()
        &&& forall|i: int|
            #[trigger] self.table.is_open_fd(i) ==> self.table.entry(i).sock.wf(
                self.eng,
                self.pipes,
            )
        &&& forall|i: int, j: int|
            #[trigger] self.table.is_open_fd(i) && #[trigger] self.table.is_open_fd(j) && i != j
                ==> distinct_handles(self.table.entry(i).sock, self.table.entry(j).sock)
    }

    /// A fresh stack: engine up on the loopback interface, no pipes, no
    /// descriptors.
    pub fn new(seed: u32) -> (st: NetStack)
        ensures
            st.wf(),
            st.table.slots@.len() == 0,
            st.budget == DEFAULT_POLL_BUDGET,
    {
        NetStack {
            eng: NetInterface::new(),
            pipes: PipeSet::new(),
            table: SockTable::new(),
            rng: Lcg::new(seed),
            budget: DEFAULT_POLL_BUDGET,
        }
    }
}

/// A well-formed engine-backed capability's handle is live.
proof fn lemma_wf_sock_id_live(s: Sock, eng: NetInterface, pipes: PipeSet)
    requires
        s.wf(eng, pipes),
    ensures
        s.engine_id() matches Some(y) ==> eng.tcp_live().contains(y) || eng.udp_live().contains(
            y,
        ),
{
}

/// A capability stays well-formed when the engine keeps the same live
/// sockets and no pipe disappears.
proof fn lemma_sock_wf_frame(
    s: Sock,
    pre: NetInterface,
    post: NetInterface,
    pipes_pre: PipeSet,
    pipes_post: PipeSet,
)
    requires
        s.wf(pre, pipes_pre),
        pre.tcp_live().subset_of(post.tcp_live()),
        pre.udp_live().subset_of(post.udp_live()),
        pipes_post.pipes@.len() >= pipes_pre.pipes@.len(),
    ensures
        s.wf(post, pipes_post),
{
}

/// A capability stays well-formed when some other handle is removed
/// from the engine.
proof fn lemma_sock_wf_after_remove(
    s: Sock,
    pre: NetInterface,
    post: NetInterface,
    pipes: PipeSet,
    removed: int,
)
    requires
        s.wf(pre, pipes),
        post.tcp_live() == pre.tcp_live().remove(removed),
        post.udp_live() == pre.udp_live().remove(removed),
        s.engine_id() matches Some(y) ==> y != removed,
    ensures
        s.wf(post, pipes),
{
}

/// A handle that is not live anywhere differs from the handle of every
/// well-formed capability.
proof fn lemma_fresh_id_distinct(fresh_id: int, other: Sock, eng: NetInterface, pipes: PipeSet)
    requires
        other.wf(eng, pipes),
        !eng.tcp_live().contains(fresh_id),
        !eng.udp_live().contains(fresh_id),
    ensures
        other.engine_id() matches Some(y) ==> y != fresh_id,
{
    lemma_wf_sock_id_live(other, eng, pipes);
}

/// Allocate a capability object of the requested family and type and
/// install it at a fresh descriptor. IPv4 stream and datagram sockets
/// are served; a stream socket starts out on a pseudo-random ephemeral
/// port, a datagram socket starts out unbound.
pub fn sys_socket(st: &mut NetStack, domain: u32, socket_type: u32, protocol: u32) -> (r: isize)
    requires
        old(st).wf(),
    ensures
        final(st).wf(),
        domain != AF_INET ==> r == -97 && *final(st) == *old(st),
        domain == AF_INET && (socket_type & 0xff) != SOCK_STREAM && (socket_type & 0xff)
            != SOCK_DGRAM ==> r == -22 && *final(st) == *old(st),
        r >= 0 ==> domain == AF_INET && final(st).table.is_open_fd(r as int) && {
            let e = final(st).table.entry(r as int);
            &&& e.nonblock == ((socket_type & SOCK_NONBLOCK) != 0)
            &&& e.cloexec == ((socket_type & SOCK_CLOEXEC) != 0)
            &&& ((socket_type & 0xff) == SOCK_STREAM ==> e.sock is Tcp && e.sock->Tcp_0.remote
                is None && e.sock->Tcp_0.local.addr == 0 && e.sock->Tcp_0.local.port != 0)
            &&& ((socket_type & 0xff) == SOCK_DGRAM ==> e.sock is Udp && e.sock->Udp_0.local.port
                == 0 && e.sock->Udp_0.remote is None)
        },
        r >= 0 ==> !old(st).table.is_open_fd(r as int) && forall|j: int|
            0 <= j < old(st).table.slots@.len() && j != r ==> final(st).table.slots@[j] == old(
                st,
            ).table.slots@[j],
        r < 0 ==> r == -97 || r == -22 || r == -24,
        r == -24 ==> old(st).table.slots@.len() == crate::table::FD_TABLE_LIMIT,
{
    let _ = protocol;
    if domain != AF_INET {
        return Errno::EAFNOSUPPORT.neg();
    }
    let base = socket_type & 0xff;
    let nonblock = (socket_type & SOCK_NONBLOCK) != 0;
    let cloexec = (socket_type & SOCK_CLOEXEC) != 0;
    if base != SOCK_STREAM && base != SOCK_DGRAM {
        return Errno::EINVAL.neg();
    }
    let sock: Sock = if base == SOCK_STREAM {
        let port = st.rng.ephemeral_port();
        Sock::Tcp(TcpSocket::new(&mut st.eng, port))
    } else {
        Sock::Udp(UdpSocket::new(&mut st.eng))
    };
    proof {
        assert forall|i: int| #[trigger] st.table.is_open_fd(i) implies st.table.entry(i).sock.wf(
            st.eng,
            st.pipes,
        ) by {
            lemma_sock_wf_frame(
                old(st).table.entry(i).sock,
                old(st).eng,
                st.eng,
                old(st).pipes,
                st.pipes,
            );
        }
    }
    let entry = FdEntry { nonblock, cloexec, sock };
    match st.table.insert(entry) {
        Some(fd) => {
            proof {
                let post = *st;
                assert forall|i: int| #[trigger] post.table.is_open_fd(i) implies post.table.entry(
                    i,
                ).sock.wf(post.eng, post.pipes) by {
                    if i != fd as int {
                        assert(old(st).table.is_open_fd(i));
                        lemma_sock_wf_frame(
                            old(st).table.entry(i).sock,
                            old(st).eng,
                            post.eng,
                            old(st).pipes,
                            post.pipes,
                        );
                    }
                }
                assert forall|i: int, j: int|
                    #[trigger] post.table.is_open_fd(i) && #[trigger] post.table.is_open_fd(j) && i
                        != j implies distinct_handles(
                    post.table.entry(i).sock,
                    post.table.entry(j).sock,
                ) by {
                    if i == fd as int {
                        assert(old(st).table.is_open_fd(j));
                        match sock {
                            Sock::Tcp(t) => {
                                lemma_fresh_id_distinct(
                                    crate::engine::handle_id(t.handle),
                                    old(st).table.entry(j).sock,
                                    old(st).eng,
                                    old(st).pipes,
                                );
                            },
                            Sock::Udp(u) => {
                                lemma_fresh_id_distinct(
                                    crate::engine::handle_id(u.handle),
                                    old(st).table.entry(j).sock,
                                    old(st).eng,
                                    old(st).pipes,
                                );
                            },
                            Sock::Unix(_) => (),
                        }
                    } else if j == fd as int {
                        assert(old(st).table.is_open_fd(i));
                        match sock {
                            Sock::Tcp(t) => {
                                lemma_fresh_id_distinct(
                                    crate::engine::handle_id(t.handle),
                                    old(st).table.entry(i).sock,
                                    old(st).eng,
                                    old(st).pipes,
                                );
                            },
                            Sock::Udp(u) => {
                                lemma_fresh_id_distinct(
                                    crate::engine::handle_id(u.handle),
                                    old(st).table.entry(i).sock,
                                    old(st).eng,
                                    old(st).pipes,
                                );
                            },
                            Sock::Unix(_) => (),
                        }
                    } else {
                        assert(old(st).table.is_open_fd(i));
                        assert(old(st).table.is_open_fd(j));
                    }
                }
            }
            fd as isize
        },
        None => {
            match sock {
                Sock::Tcp(t) => t.teardown(&mut st.eng),
                Sock::Udp(u) => u.teardown(&mut st.eng),
                Sock::Unix(_) => (),
            }
            proof {
                let post = *st;
                match sock {
                    Sock::Tcp(_) => {
                        assert(post.eng.tcp_live() =~= old(st).eng.tcp_live());
                        assert(post.eng.udp_live() =~= old(st).eng.udp_live());
                    },
                    Sock::Udp(_) => {
                        assert(post.eng.tcp_live() =~= old(st).eng.tcp_live());
                        assert(post.eng.udp_live() =~= old(st).eng.udp_live());
                    },
                    Sock::Unix(_) => (),
                }
                assert forall|i: int| #[trigger] post.table.is_open_fd(i) implies post.table.entry(
                    i,
                ).sock.wf(post.eng, post.pipes) by {
                    assert(old(st).table.is_open_fd(i));
                    lemma_sock_wf_frame(
                        old(st).table.entry(i).sock,
                        old(st).eng,
                        post.eng,
                        old(st).pipes,
                        post.pipes,
                    );
                }
            }
            Errno::EMFILE.neg()
        },
    }
}

/// Write an updated entry back to its descriptor slot, re-establishing
/// the stack invariant. `pre` is the stack as it stood before the
/// capability operation that produced `e`; the operation may only have
/// grown the engine's live sets and the pipe set, and must have kept
/// the capability's own handle.
fn put_sock(st: &mut NetStack, fd: usize, e: FdEntry, pre: Ghost<NetStack>)
    requires
        pre@.wf(),
        pre@.table == old(st).table,
        pre@.table.is_open_fd(fd as int),
        old(st).pipes.wf(),
        old(st).table.bounded(),
        old(st).pipes.pipes@.len() >= pre@.pipes.pipes@.len(),
        pre@.eng.tcp_live().subset_of(old(st).eng.tcp_live()),
        pre@.eng.udp_live().subset_of(old(st).eng.udp_live()),
        e.sock.wf(old(st).eng, old(st).pipes),
        e.sock.engine_id() == pre@.table.entry(fd as int).sock.engine_id(),
    ensures
        final(st).wf(),
        final(st).table.slots@ == old(st).table.slots@.update(fd as int, Some(e)),
        final(st).table.is_open_fd(fd as int),
        final(st).table.entry(fd as int) == e,
        final(st).eng == old(st).eng,
        final(st).pipes == old(st).pipes,
        final(st).rng == old(st).rng,
        final(st).budget == old(st).budget,
{
    st.table.insert_at(e, fd);
    proof {
        let post = *st;
        assert forall|i: int| #[trigger] post.table.is_open_fd(i) implies post.table.entry(
            i,
        ).sock.wf(post.eng, post.pipes) by {
            if i != fd as int {
                assert(pre@.table.is_open_fd(i));
                lemma_sock_wf_frame(
                    pre@.table.entry(i).sock,
                    pre@.eng,
                    post.eng,
                    pre@.pipes,
                    post.pipes,
                );
            }
        }
        assert forall|i: int, j: int|
            #[trigger] post.table.is_open_fd(i) && #[trigger] post.table.is_open_fd(j) && i
                != j implies distinct_handles(post.table.entry(i).sock, post.table.entry(j).sock) by {
            if i == fd as int {
                assert(pre@.table.is_open_fd(j));
                assert(pre@.table.is_open_fd(fd as int));
            } else if j == fd as int {
                assert(pre@.table.is_open_fd(i));
                assert(pre@.table.is_open_fd(fd as int));
            } else {
                assert(pre@.table.is_open_fd(i));
                assert(pre@.table.is_open_fd(j));
            }
        }
    }
}

/// Re-establish the stack invariant after an operation that only
/// talked to the engine or the pipes: the table did not change, the
/// live sets did not shrink, no pipe disappeared.
proof fn lemma_stack_wf_frame(pre: NetStack, post: NetStack)
    requires
        pre.wf(),
        post.table == pre.table,
        post.pipes.wf(),
        post.table.bounded(),
        post.pipes.pipes@.len() >= pre.pipes.pipes@.len(),
        pre.eng.tcp_live().subset_of(post.eng.tcp_live()),
        pre.eng.udp_live().subset_of(post.eng.udp_live()),
    ensures
        post.wf(),
{
    assert forall|i: int| #[trigger] post.table.is_open_fd(i) implies post.table.entry(i).sock.wf(
        post.eng,
        post.pipes,
    ) by {
        assert(pre.table.is_open_fd(i));
        lemma_sock_wf_frame(pre.table.entry(i).sock, pre.eng, post.eng, pre.pipes, post.pipes);
    }
    assert forall|i: int, j: int|
        #[trigger] post.table.is_open_fd(i) && #[trigger] post.table.is_open_fd(j) && i
            != j implies distinct_handles(post.table.entry(i).sock, post.table.entry(j).sock) by {
        assert(pre.table.is_open_fd(i));
        assert(pre.table.is_open_fd(j));
    }
}

/// Bind a socket to the endpoint encoded in `addr_buf`. For a stream
/// socket this is local bookkeeping checked by the engine at listen or
/// connect time; a datagram socket is bound at the engine immediately.
pub fn sys_bind(st: &mut NetStack, sockfd: u32, addr_buf: &[u8]) -> (r: isize)
    requires
        old(st).wf(),
    ensures
        final(st).wf(),
        !old(st).table.is_open_fd(sockfd as int) ==> r == -88 && *final(st) == *old(st),
        old(st).table.is_open_fd(sockfd as int) && addr_buf@.len() < 8 ==> r == -22,
        old(st).table.is_open_fd(sockfd as int) && addr_buf@.len() >= 8 && !sockaddr_well_formed(
            addr_buf@,
        ) ==> r == -97,
        old(st).table.is_open_fd(sockfd as int) && sockaddr_well_formed(addr_buf@) ==> {
            let e = old(st).table.entry(sockfd as int);
            &&& (e.sock is Tcp ==> r == 0 && final(st).table.is_open_fd(sockfd as int)
                && final(st).table.entry(sockfd as int) == (FdEntry {
                sock: Sock::Tcp(
                    TcpSocket { local: sockaddr_value(addr_buf@), ..e.sock->Tcp_0 },
                ),
                ..e
            }))
            &&& (e.sock is Udp ==> (r == 0 && final(st).table.is_open_fd(sockfd as int)
                && final(st).table.entry(sockfd as int) == (FdEntry {
                sock: Sock::Udp(
                    UdpSocket { local: sockaddr_value(addr_buf@), ..e.sock->Udp_0 },
                ),
                ..e
            })) || (r == -22 && final(st).table.slots@ == old(st).table.slots@))
            &&& (e.sock is Unix ==> r == -95 && *final(st) == *old(st))
        },
        forall|j: int|
            0 <= j < old(st).table.slots@.len() && j != sockfd ==> final(st).table.slots@[j]
                == old(st).table.slots@[j],
{
    let fd = sockfd as usize;
    let e = match st.table.get(fd) {
        Some(e) => e,
        None => {
            return Errno::ENOTSOCK.neg();
        },
    };
    let addr = match parse_sockaddr(addr_buf) {
        Ok(a) => a,
        Err(err) => {
            return err.neg();
        },
    };
    let pre: Ghost<NetStack> = Ghost(*st);
    match e.sock {
        Sock::Tcp(mut t) => {
            match t.bind(addr) {
                Ok(_) => (),
                Err(err) => {
                    return err.neg();
                },
            }
            put_sock(st, fd, FdEntry { sock: Sock::Tcp(t), ..e }, pre);
            0
        },
        Sock::Udp(mut u) => {
            match u.bind(&mut st.eng, addr) {
                Ok(_) => {
                    put_sock(st, fd, FdEntry { sock: Sock::Udp(u), ..e }, pre);
                    0
                },
                Err(err) => {
                    proof {
                        lemma_stack_wf_frame(pre@, *st);
                    }
                    err.neg()
                },
            }
        },
        Sock::Unix(_) => Errno::EOPNOTSUPP.neg(),
    }
}

/// Move a listening-capable socket into the Listen state on its
/// recorded local endpoint. Only stream sockets support this.
pub fn sys_listen(st: &mut NetStack, sockfd: u32, backlog: u32) -> (r: isize)
    requires
        old(st).wf(),
    ensures
        final(st).wf(),
        !old(st).table.is_open_fd(sockfd as int) ==> r == -88 && *final(st) == *old(st),
        old(st).table.is_open_fd(sockfd as int) ==> {
            let e = old(st).table.entry(sockfd as int);
            &&& (e.sock is Tcp ==> (r == 0 && final(st).table.is_open_fd(sockfd as int)
                && final(st).table.entry(sockfd as int) == (FdEntry {
                sock: Sock::Tcp(
                    TcpSocket { last_state: crate::tcp::TcpState::Listen, ..e.sock->Tcp_0 },
                ),
                ..e
            }) && e.sock->Tcp_0.local.port != 0) || r == -98)
            &&& (!(e.sock is Tcp) ==> r == -95 && *final(st) == *old(st))
        },
        forall|j: int|
            0 <= j < old(st).table.slots@.len() && j != sockfd ==> final(st).table.slots@[j]
                == old(st).table.slots@[j],
{
    let _ = backlog;
    let fd = sockfd as usize;
    let e = match st.table.get(fd) {
        Some(e) => e,
        None => {
            return Errno::ENOTSOCK.neg();
        },
    };
    let pre: Ghost<NetStack> = Ghost(*st);
    match e.sock {
        Sock::Tcp(mut t) => {
            match t.listen(&mut st.eng) {
                Ok(_) => {
                    put_sock(st, fd, FdEntry { sock: Sock::Tcp(t), ..e }, pre);
                    0
                },
                Err(err) => {
                    put_sock(st, fd, FdEntry { sock: Sock::Tcp(t), ..e }, pre);
                    err.neg()
                },
            }
        },
        Sock::Udp(_) => Errno::EOPNOTSUPP.neg(),
        Sock::Unix(_) => Errno::EOPNOTSUPP.neg(),
    }
}

/// Connect a socket to the peer encoded in `addr_buf`. A stream socket
/// blocks (within the stack's poll budget) until the engine reports
/// Established; a datagram socket records the peer and self-binds to an
/// ephemeral port if it was unbound.
pub fn sys_connect(st: &mut NetStack, sockfd: u32, addr_buf: &[u8]) -> (r: isize)
    requires
        old(st).wf(),
    ensures
        final(st).wf(),
        !old(st).table.is_open_fd(sockfd as int) ==> r == -88 && *final(st) == *old(st),
        old(st).table.is_open_fd(sockfd as int) && addr_buf@.len() < 8 ==> r == -22,
        old(st).table.is_open_fd(sockfd as int) && addr_buf@.len() >= 8 && !sockaddr_well_formed(
            addr_buf@,
        ) ==> r == -97,
        old(st).table.is_open_fd(sockfd as int) && sockaddr_well_formed(addr_buf@) ==> {
            let e = old(st).table.entry(sockfd as int);
            &&& (e.sock is Tcp ==> (r == 0 ==> final(st).table.is_open_fd(sockfd as int)
                && final(st).table.entry(sockfd as int) == (FdEntry {
                sock: Sock::Tcp(
                    TcpSocket {
                        remote: Some(sockaddr_value(addr_buf@)),
                        last_state: crate::tcp::TcpState::Established,
                        ..e.sock->Tcp_0
                    },
                ),
                ..e
            })) && (r == 0 || r == -22 || r == -106 || r == -111 || r == -11))
            &&& (e.sock is Udp ==> (r == 0 ==> final(st).table.is_open_fd(sockfd as int)
                && final(st).table.entry(
                sockfd as int,
            ).sock->Udp_0.remote == Some(sockaddr_value(addr_buf@)) && final(st).table.entry(
                sockfd as int,
            ).sock->Udp_0.local.port != 0) && (r == 0 || r == -22))
            &&& (e.sock is Unix ==> r == -95 && *final(st) == *old(st))
        },
        forall|j: int|
            0 <= j < old(st).table.slots@.len() && j != sockfd ==> final(st).table.slots@[j]
                == old(st).table.slots@[j],
{
    let fd = sockfd as usize;
    let e = match st.table.get(fd) {
        Some(e) => e,
        None => {
            return Errno::ENOTSOCK.neg();
        },
    };
    let addr = match parse_sockaddr(addr_buf) {
        Ok(a) => a,
        Err(err) => {
            return err.neg();
        },
    };
    let pre: Ghost<NetStack> = Ghost(*st);
    let budget = st.budget;
    match e.sock {
        Sock::Tcp(mut t) => {
            let outcome = t.connect(&mut st.eng, addr, budget);
            put_sock(st, fd, FdEntry { sock: Sock::Tcp(t), ..e }, pre);
            match outcome {
                Ok(_) => 0,
                Err(err) => err.neg(),
            }
        },
        Sock::Udp(mut u) => {
            let port = st.rng.ephemeral_port();
            let outcome = u.connect(&mut st.eng, addr, port);
            put_sock(st, fd, FdEntry { sock: Sock::Udp(u), ..e }, pre);
            match outcome {
                Ok(_) => 0,
                Err(err) => err.neg(),
            }
        },
        Sock::Unix(_) => Errno::EOPNOTSUPP.neg(),
    }
}

/// Accept a connection on a listening stream socket.
///
/// The engine moves the listening socket's own handle towards
/// Established when a peer connects, so POSIX semantics are restored by
/// a hand-off: a brand-new capability, bound to the same local endpoint
/// and put back into Listen, takes over the original descriptor, while
/// the original capability — now carrying the established connection —
/// moves to a freshly allocated descriptor, which is returned. The
/// peer's address is written to `addr_out` as `sockaddr_in` bytes.
pub fn sys_accept(st: &mut NetStack, sockfd: u32, addr_out: &mut Vec<u8>) -> (r: isize)
    requires
        old(st).wf(),
    ensures
        final(st).wf(),
        !old(st).table.is_open_fd(sockfd as int) ==> r == -88 && *final(st) == *old(st),
        old(st).table.is_open_fd(sockfd as int) && !(old(st).table.entry(sockfd as int).sock
            is Tcp) ==> r == -95 && *final(st) == *old(st),
        old(st).table.is_open_fd(sockfd as int) && old(st).table.entry(sockfd as int).sock
            is Tcp ==> {
            let e = old(st).table.entry(sockfd as int);
            let t = e.sock->Tcp_0;
            &&& (r >= 0 ==> {
                let listener = final(st).table.entry(sockfd as int);
                let accepted = final(st).table.entry(r as int);
                &&& r != sockfd
                &&& !old(st).table.is_open_fd(r as int)
                &&& final(st).table.is_open_fd(sockfd as int)
                &&& final(st).table.is_open_fd(r as int)
                // The original descriptor keeps listening on the same
                // endpoint, with a fresh capability and the old flags.
                &&& listener.nonblock == e.nonblock && listener.cloexec == e.cloexec
                &&& listener.sock is Tcp
                &&& listener.sock->Tcp_0.local == t.local
                &&& listener.sock->Tcp_0.last_state == crate::tcp::TcpState::Listen
                &&& listener.sock->Tcp_0.handle != t.handle
                // The returned descriptor carries the very capability
                // that holds the established connection.
                &&& accepted.nonblock == e.nonblock && accepted.cloexec == e.cloexec
                &&& accepted.sock is Tcp
                &&& accepted.sock->Tcp_0.handle == t.handle
                &&& accepted.sock->Tcp_0.local == t.local
                &&& crate::tcp::accept_ready_spec(accepted.sock->Tcp_0.last_state)
                &&& accepted.sock->Tcp_0.remote is Some
                &&& crate::addr::sockaddr_encodes(
                    final(addr_out)@,
                    accepted.sock->Tcp_0.remote->0,
                )
                &&& forall|j: int|
                    0 <= j < old(st).table.slots@.len() && j != sockfd && j != r
                        ==> final(st).table.slots@[j] == old(st).table.slots@[j]
            })
            &&& (r == -24 ==> old(st).table.slots@.len() == crate::table::FD_TABLE_LIMIT)
            &&& (r < 0 ==> (r == -22 || r == -107 || r == -11 || r == -98 || r == -24)
                && final(st).table.is_open_fd(sockfd as int)
                && final(st).table.entry(sockfd as int).sock is Tcp
                && final(st).table.entry(sockfd as int).sock->Tcp_0.handle == t.handle
                && final(st).table.entry(sockfd as int).sock->Tcp_0.local == t.local
                && forall|j: int|
                    0 <= j < old(st).table.slots@.len() && j != sockfd
                        ==> final(st).table.slots@[j] == old(st).table.slots@[j])
        },
{
    let fd = sockfd as usize;
    let e = match st.table.get(fd) {
        Some(e) => e,
        None => {
            return Errno::ENOTSOCK.neg();
        },
    };
    let t = match e.sock {
        Sock::Tcp(t) => t,
        Sock::Udp(_) => {
            return Errno::EOPNOTSUPP.neg();
        },
        Sock::Unix(_) => {
            return Errno::EOPNOTSUPP.neg();
        },
    };
    let pre: Ghost<NetStack> = Ghost(*st);
    let budget = st.budget;
    let mut conn = t;
    let peer = match conn.accept_wait(&mut st.eng, e.nonblock, budget) {
        Ok(p) => p,
        Err(err) => {
            proof {
                lemma_stack_wf_frame(pre@, *st);
            }
            return err.neg();
        },
    };
    // A fresh capability takes over the listening role on the same
    // local endpoint.
    let mut nl = TcpSocket::new(&mut st.eng, t.local.port);
    let _ = nl.bind(t.local);
    match nl.listen(&mut st.eng) {
        Ok(_) => (),
        Err(err) => {
            nl.teardown(&mut st.eng);
            proof {
                assert(st.eng.tcp_live() =~= pre@.eng.tcp_live());
                assert(st.eng.udp_live() =~= pre@.eng.udp_live());
                lemma_stack_wf_frame(pre@, *st);
            }
            return err.neg();
        },
    }
    let mid: Ghost<NetStack> = Ghost(*st);
    proof {
        lemma_stack_wf_frame(pre@, mid@);
    }
    // The swap: the new listener takes the original descriptor, the
    // established connection moves to a fresh one.
    st.table.insert_at(FdEntry { nonblock: e.nonblock, cloexec: e.cloexec, sock: Sock::Tcp(nl) }, fd);
    let handed = FdEntry { nonblock: e.nonblock, cloexec: e.cloexec, sock: Sock::Tcp(conn) };
    let swapped: Ghost<NetStack> = Ghost(*st);
    proof {
        assert forall|i: int| #[trigger] swapped@.table.is_open_fd(i) implies swapped@.table.entry(
            i,
        ).sock.wf(swapped@.eng, swapped@.pipes) by {
            if i != fd as int {
                assert(mid@.table.is_open_fd(i));
            }
        }
        assert forall|i: int, j: int|
            #[trigger] swapped@.table.is_open_fd(i) && #[trigger] swapped@.table.is_open_fd(j) && i
                != j implies distinct_handles(
            swapped@.table.entry(i).sock,
            swapped@.table.entry(j).sock,
        ) by {
            if i == fd as int {
                assert(pre@.table.is_open_fd(j));
                lemma_fresh_id_distinct(
                    crate::engine::handle_id(nl.handle),
                    pre@.table.entry(j).sock,
                    pre@.eng,
                    pre@.pipes,
                );
            } else if j == fd as int {
                assert(pre@.table.is_open_fd(i));
                lemma_fresh_id_distinct(
                    crate::engine::handle_id(nl.handle),
                    pre@.table.entry(i).sock,
                    pre@.eng,
                    pre@.pipes,
                );
            } else {
                assert(pre@.table.is_open_fd(i));
                assert(pre@.table.is_open_fd(j));
            }
        }
        assert(swapped@.table.bounded());
    }
    match st.table.insert(handed) {
        Some(nf) => {
            proof {
                let post = *st;
                assert forall|i: int| #[trigger] post.table.is_open_fd(i) implies post.table.entry(
                    i,
                ).sock.wf(post.eng, post.pipes) by {
                    if i != nf as int {
                        assert(swapped@.table.is_open_fd(i));
                    } else {
                        assert(pre@.table.is_open_fd(fd as int));
                    }
                }
                assert forall|i: int, j: int|
                    #[trigger] post.table.is_open_fd(i) && #[trigger] post.table.is_open_fd(j) && i
                        != j implies distinct_handles(
                    post.table.entry(i).sock,
                    post.table.entry(j).sock,
                ) by {
                    if i == nf as int || j == nf as int {
                        let k = if i == nf as int {
                            j
                        } else {
                            i
                        };
                        assert(swapped@.table.is_open_fd(k));
                        if k == fd as int {
                            assert(pre@.table.is_open_fd(fd as int));
                            lemma_fresh_id_distinct(
                                crate::engine::handle_id(nl.handle),
                                pre@.table.entry(fd as int).sock,
                                pre@.eng,
                                pre@.pipes,
                            );
                        } else {
                            assert(pre@.table.is_open_fd(k));
                            assert(pre@.table.is_open_fd(fd as int));
                        }
                    } else {
                        assert(swapped@.table.is_open_fd(i));
                        assert(swapped@.table.is_open_fd(j));
                    }
                }
            }
            *addr_out = encode_sockaddr(peer);
            nf as isize
        },
        None => {
            // No descriptor left for the hand-off: restore the original
            // descriptor's capability and drop the new listener.
            st.table.insert_at(handed, fd);
            nl.teardown(&mut st.eng);
            proof {
                let post = *st;
                assert(post.eng.tcp_live() =~= pre@.eng.tcp_live());
                assert(post.eng.udp_live() =~= pre@.eng.udp_live());
                assert forall|i: int| #[trigger] post.table.is_open_fd(i) implies post.table.entry(
                    i,
                ).sock.wf(post.eng, post.pipes) by {
                    if i != fd as int {
                        assert(pre@.table.is_open_fd(i));
                        lemma_sock_wf_frame(
                            pre@.table.entry(i).sock,
                            pre@.eng,
                            post.eng,
                            pre@.pipes,
                            post.pipes,
                        );
                    } else {
                        assert(pre@.table.is_open_fd(fd as int));
                        lemma_sock_wf_frame(
                            pre@.table.entry(fd as int).sock,
                            pre@.eng,
                            post.eng,
                            pre@.pipes,
                            post.pipes,
                        );
                    }
                }
                assert forall|i: int, j: int|
                    #[trigger] post.table.is_open_fd(i) && #[trigger] post.table.is_open_fd(j) && i
                        != j implies distinct_handles(
                    post.table.entry(i).sock,
                    post.table.entry(j).sock,
                ) by {
                    assert(pre@.table.is_open_fd(i));
                    assert(pre@.table.is_open_fd(j));
                }
            }
            Errno::EMFILE.neg()
        },
    }
}

/// Report the local endpoint of a socket as `sockaddr_in` bytes.
pub fn sys_getsockname(st: &NetStack, sockfd: u32, out: &mut Vec<u8>) -> (r: isize)
    ensures
        !st.table.is_open_fd(sockfd as int) ==> r == -88 && *final(out) == *old(out),
        st.table.is_open_fd(sockfd as int) ==> {
            let s = st.table.entry(sockfd as int).sock;
            &&& (s is Tcp ==> r == 0 && crate::addr::sockaddr_encodes(
                final(out)@,
                s->Tcp_0.local,
            ))
            &&& (s is Udp ==> r == 0 && crate::addr::sockaddr_encodes(
                final(out)@,
                s->Udp_0.local,
            ))
            &&& (s is Unix ==> r == -95 && *final(out) == *old(out))
        },
{
    let e = match st.table.get(sockfd as usize) {
        Some(e) => e,
        None => {
            return Errno::ENOTSOCK.neg();
        },
    };
    match e.sock {
        Sock::Tcp(t) => {
            *out = encode_sockaddr(t.local);
            0
        },
        Sock::Udp(u) => {
            *out = encode_sockaddr(u.local);
            0
        },
        Sock::Unix(_) => Errno::EOPNOTSUPP.neg(),
    }
}

/// Report the peer endpoint of a connected socket as `sockaddr_in`
/// bytes; ENOTCONN when no peer is recorded.
pub fn sys_getpeername(st: &NetStack, sockfd: u32, out: &mut Vec<u8>) -> (r: isize)
    ensures
        !st.table.is_open_fd(sockfd as int) ==> r == -88 && *final(out) == *old(out),
        st.table.is_open_fd(sockfd as int) ==> {
            let s = st.table.entry(sockfd as int).sock;
            &&& (s is Tcp ==> match s->Tcp_0.remote {
                Some(peer) => r == 0 && crate::addr::sockaddr_encodes(final(out)@, peer),
                None => r == -107 && *final(out) == *old(out),
            })
            &&& (s is Udp ==> match s->Udp_0.remote {
                Some(peer) => r == 0 && crate::addr::sockaddr_encodes(final(out)@, peer),
                None => r == -107 && *final(out) == *old(out),
            })
            &&& (s is Unix ==> r == -95 && *final(out) == *old(out))
        },
{
    let e = match st.table.get(sockfd as usize) {
        Some(e) => e,
        None => {
            return Errno::ENOTSOCK.neg();
        },
    };
    let remote = match e.sock {
        Sock::Tcp(t) => t.remote,
        Sock::Udp(u) => u.remote,
        Sock::Unix(_) => {
            return Errno::EOPNOTSUPP.neg();
        },
    };
    match remote {
        Some(peer) => {
            *out = encode_sockaddr(peer);
            0
        },
        None => Errno::ENOTCONN.neg(),
    }
}

/// The little-endian bytes of a 32-bit option value.
pub open spec fn le32_bytes(v: u32) -> Seq<u8> {
    seq![
        (v % 256) as u8,
        ((v / 0x100) % 256) as u8,
        ((v / 0x10000) % 256) as u8,
        (v / 0x1000000) as u8,
    ]
}

/// The 32-bit value stored little-endian at the front of a buffer.
pub open spec fn le32_value(b: Seq<u8>) -> int {
    b[0] + b[1] * 0x100 + b[2] * 0x10000 + b[3] * 0x1000000
}

/// Encode a 32-bit option value as its little-endian bytes.
fn le32_vec(v: u32) -> (out: Vec<u8>)
    ensures
        out@ == le32_bytes(v),
{
    let mut out: Vec<u8> = Vec::new();
    out.push((v % 256) as u8);
    out.push(((v / 0x100) % 256) as u8);
    out.push(((v / 0x10000) % 256) as u8);
    out.push((v / 0x1000000) as u8);
    proof {
        assert(out@ =~= le32_bytes(v));
    }
    out
}

/// Read a 32-bit option value from the front of a buffer.
fn read_le32(b: &[u8]) -> (v: u32)
    requires
        b@.len() >= 4,
    ensures
        v == le32_value(b@),
{
    (b[0] as u32) + (b[1] as u32) * 0x100 + (b[2] as u32) * 0x10000 + (b[3] as u32) * 0x1000000
}

/// Overwrite one byte of a buffer in place.
fn vec_set_byte(v: &mut Vec<u8>, i: usize, x: u8)
    requires
        i < old(v)@.len(),
    ensures
        final(v)@ == old(v)@.update(i as int, x),
{
    let slot = &mut v[i];
    *slot = x;
}

/// Send bytes through a socket. For a stream socket the destination is
/// ignored; a datagram socket is auto-bound (if needed) and
/// auto-connected to the destination before the send; a local socket
/// appends to its write pipe.
pub fn sys_sendto(
    st: &mut NetStack,
    sockfd: u32,
    buf: &[u8],
    flags: u32,
    dest_addr: &[u8],
) -> (r: isize)
    requires
        old(st).wf(),
        buf@.len() <= 0x7fff_ffff,
    ensures
        final(st).wf(),
        !old(st).table.is_open_fd(sockfd as int) ==> r == -88 && *final(st) == *old(st),
        old(st).table.is_open_fd(sockfd as int) ==> {
            let e = old(st).table.entry(sockfd as int);
            &&& (e.sock is Tcp ==> (r >= 0 ==> r <= buf@.len()) && (r < 0 ==> r == -11 || r
                == -107) && final(st).table.slots@ == old(st).table.slots@)
            &&& (e.sock is Udp ==> {
                &&& (dest_addr@.len() < 8 ==> r == -22)
                &&& (dest_addr@.len() >= 8 && !sockaddr_well_formed(dest_addr@) ==> r == -97)
                &&& (r >= 0 ==> r == buf@.len() && sockaddr_well_formed(dest_addr@)
                    && final(st).table.is_open_fd(sockfd as int)
                    && final(st).table.entry(sockfd as int).sock is Udp && final(st).table.entry(
                    sockfd as int,
                ).sock->Udp_0.remote == Some(sockaddr_value(dest_addr@)) && final(st).table.entry(
                    sockfd as int,
                ).sock->Udp_0.local.port != 0)
                &&& (r < 0 ==> r == -22 || r == -97 || r == -11 || r == -107 || r == -105)
            })
            &&& (e.sock is Unix ==> r >= 0 && r == crate::unixsock::pipe_write_count(
                old(st).pipes.contents(e.sock->Unix_0.write_end as int).len() as int,
                buf@.len() as int,
            ) && final(st).pipes.contents(e.sock->Unix_0.write_end as int)
                == crate::unixsock::pipe_write_spec(
                old(st).pipes.contents(e.sock->Unix_0.write_end as int),
                buf@,
            ) && final(st).table.slots@ == old(st).table.slots@)
        },
{
    let _ = flags;
    let fd = sockfd as usize;
    let e = match st.table.get(fd) {
        Some(e) => e,
        None => {
            return Errno::ENOTSOCK.neg();
        },
    };
    let pre: Ghost<NetStack> = Ghost(*st);
    let budget = st.budget;
    match e.sock {
        Sock::Tcp(t) => {
            proof {
                assert(st.table.is_open_fd(fd as int));
            }
            let outcome = t.write(&mut st.eng, buf, e.nonblock, budget);
            proof {
                lemma_stack_wf_frame(pre@, *st);
            }
            match outcome {
                Ok(n) => n as isize,
                Err(err) => err.neg(),
            }
        },
        Sock::Udp(mut u) => {
            proof {
                assert(st.table.is_open_fd(fd as int));
            }
            let dest = match parse_sockaddr(dest_addr) {
                Ok(a) => a,
                Err(err) => {
                    return err.neg();
                },
            };
            let port = st.rng.ephemeral_port();
            let connected = u.connect(&mut st.eng, dest, port);
            put_sock(st, fd, FdEntry { sock: Sock::Udp(u), ..e }, pre);
            match connected {
                Ok(_) => (),
                Err(err) => {
                    return err.neg();
                },
            }
            let pre2: Ghost<NetStack> = Ghost(*st);
            let outcome = u.write(&mut st.eng, buf, e.nonblock, budget);
            proof {
                lemma_stack_wf_frame(pre2@, *st);
            }
            match outcome {
                Ok(n) => n as isize,
                Err(err) => err.neg(),
            }
        },
        Sock::Unix(x) => {
            proof {
                assert(st.table.is_open_fd(fd as int));
            }
            let outcome = x.write(&mut st.pipes, buf);
            proof {
                lemma_stack_wf_frame(pre@, *st);
            }
            match outcome {
                Ok(n) => n as isize,
                Err(err) => err.neg(),
            }
        },
    }
}

/// Receive bytes from a socket into the front of `buf`. When the
/// socket knows its peer, the peer's address is written to `src_out`
/// as `sockaddr_in` bytes; otherwise `src_out` is left alone.
pub fn sys_recvfrom(
    st: &mut NetStack,
    sockfd: u32,
    buf: &mut Vec<u8>,
    flags: u32,
    src_out: &mut Vec<u8>,
) -> (r: isize)
    requires
        old(st).wf(),
        old(buf)@.len() <= 0x7fff_ffff,
    ensures
        final(st).wf(),
        final(buf)@.len() == old(buf)@.len(),
        !old(st).table.is_open_fd(sockfd as int) ==> r == -88 && *final(st) == *old(st)
            && final(buf)@ == old(buf)@,
        old(st).table.is_open_fd(sockfd as int) ==> {
            let e = old(st).table.entry(sockfd as int);
            &&& (e.sock is Tcp ==> (r >= 0 ==> r <= old(buf)@.len() && final(buf)@.skip(r as int)
                == old(buf)@.skip(r as int)) && (r < 0 ==> (r == -11 || r == -107) && final(buf)@
                == old(buf)@) && final(st).table.slots@ == old(st).table.slots@)
            &&& (e.sock is Tcp ==> (r >= 0 && e.sock->Tcp_0.remote is Some
                ==> crate::addr::sockaddr_encodes(final(src_out)@, e.sock->Tcp_0.remote->0)) && (!(
            r >= 0 && e.sock->Tcp_0.remote is Some) ==> *final(src_out) == *old(src_out)))
            &&& (e.sock is Udp ==> (r >= 0 ==> r <= old(buf)@.len() && final(buf)@.skip(r as int)
                == old(buf)@.skip(r as int) && final(st).table.is_open_fd(sockfd as int)
                && final(st).table.entry(sockfd as int).sock is Udp)
                && (r < 0 ==> (r == -11 || r == -107) && final(buf)@ == old(buf)@))
            &&& (e.sock is Udp ==> (r >= 0 && final(st).table.entry(sockfd as int).sock->Udp_0.remote
                is Some ==> crate::addr::sockaddr_encodes(
                final(src_out)@,
                final(st).table.entry(sockfd as int).sock->Udp_0.remote->0,
            )) && (r < 0 ==> *final(src_out) == *old(src_out)))
            &&& (e.sock is Unix ==> {
                let held = old(st).pipes.contents(e.sock->Unix_0.read_end as int);
                &&& (held.len() == 0 && old(buf)@.len() > 0 ==> r == -11
                    && final(buf)@ == old(buf)@ && final(st).pipes == old(st).pipes)
                &&& (held.len() > 0 || old(buf)@.len() == 0 ==> r >= 0)
                &&& (r >= 0 ==> r == crate::unixsock::pipe_read_count(
                    held,
                    old(buf)@.len() as int,
                ) && final(buf)@ == crate::unixsock::pipe_read_out(held, old(buf)@.len() as int)
                    + old(buf)@.skip(r as int) && final(st).pipes.contents(
                    e.sock->Unix_0.read_end as int,
                ) == crate::unixsock::pipe_read_rest(held, old(buf)@.len() as int))
                &&& final(st).table.slots@ == old(st).table.slots@
                &&& *final(src_out) == *old(src_out)
            })
        },
{
    let _ = flags;
    let fd = sockfd as usize;
    let e = match st.table.get(fd) {
        Some(e) => e,
        None => {
            return Errno::ENOTSOCK.neg();
        },
    };
    let pre: Ghost<NetStack> = Ghost(*st);
    let budget = st.budget;
    match e.sock {
        Sock::Tcp(t) => {
            proof {
                assert(st.table.is_open_fd(fd as int));
            }
            let outcome = t.read(&mut st.eng, buf, e.nonblock, budget);
            proof {
                lemma_stack_wf_frame(pre@, *st);
            }
            match outcome {
                Ok(n) => {
                    match t.remote {
                        Some(peer) => {
                            *src_out = encode_sockaddr(peer);
                        },
                        None => (),
                    }
                    n as isize
                },
                Err(err) => err.neg(),
            }
        },
        Sock::Udp(mut u) => {
            proof {
                assert(st.table.is_open_fd(fd as int));
            }
            let outcome = u.read(&mut st.eng, buf, e.nonblock, budget);
            put_sock(st, fd, FdEntry { sock: Sock::Udp(u), ..e }, pre);
            match outcome {
                Ok(n) => {
                    match u.remote {
                        Some(peer) => {
                            *src_out = encode_sockaddr(peer);
                        },
                        None => (),
                    }
                    n as isize
                },
                Err(err) => err.neg(),
            }
        },
        Sock::Unix(x) => {
            proof {
                assert(st.table.is_open_fd(fd as int));
            }
            let want = buf.len();
            let outcome = x.read(&mut st.pipes, want);
            proof {
                lemma_stack_wf_frame(pre@, *st);
            }
            match outcome {
                Ok(got) => {
                    let n = got.len();
                    let mut j: usize = 0;
                    while j < n
                        invariant
                            j <= n,
                            n <= buf@.len(),
                            got@.len() == n,
                            buf@.len() == old(buf)@.len(),
                            forall|k: int| 0 <= k < j ==> buf@[k] == got@[k],
                            forall|k: int| j <= k < buf@.len() ==> buf@[k] == old(buf)@[k],
                        decreases n - j,
                    {
                        vec_set_byte(buf, j, got[j]);
                        j = j + 1;
                    }
                    proof {
                        assert(buf@ =~= got@ + old(buf)@.skip(n as int));
                    }
                    n as isize
                },
                Err(err) => err.neg(),
            }
        },
    }
}

/// Read a socket option. The fixed maximum segment size and the
/// congestion-control name are answered without touching the socket;
/// buffer sizes are read from the capability; an unrecognized pair is
/// a silent no-op success.
pub fn sys_getsockopt(
    st: &NetStack,
    sockfd: u32,
    level: u32,
    optname: u32,
    optval: &mut Vec<u8>,
) -> (r: isize)
    ensures
        level == SOL_TCP && optname == TCP_MAXSEG ==> r == 0 && final(optval)@ == le32_bytes(
            crate::TCP_MSS,
        ) && crate::TCP_MSS <= crate::MAX_BUFFER_SIZE,
        level == SOL_TCP && optname == TCP_CONGESTION ==> r == 0 && final(optval)@ == seq![
            114u8,
            101u8,
            110u8,
            111u8,
        ],
        level == SOL_SOCKET && (optname == SO_SNDBUF || optname == SO_RCVBUF) ==> {
            &&& (!st.table.is_open_fd(sockfd as int) ==> r == -88 && *final(optval) == *old(optval))
            &&& (st.table.is_open_fd(sockfd as int) ==> {
                let s = st.table.entry(sockfd as int).sock;
                &&& (s is Tcp ==> r == 0 && final(optval)@ == le32_bytes(
                    if optname == SO_SNDBUF {
                        s->Tcp_0.sendbuf_size as u32
                    } else {
                        s->Tcp_0.recvbuf_size as u32
                    },
                ))
                &&& (s is Udp ==> r == 0 && final(optval)@ == le32_bytes(
                    if optname == SO_SNDBUF {
                        s->Udp_0.sendbuf_size as u32
                    } else {
                        s->Udp_0.recvbuf_size as u32
                    },
                ))
                &&& (s is Unix ==> r == -95 && *final(optval) == *old(optval))
            })
        },
        !(level == SOL_TCP && (optname == TCP_MAXSEG || optname == TCP_CONGESTION)) && !(level
            == SOL_SOCKET && (optname == SO_SNDBUF || optname == SO_RCVBUF)) ==> r == 0
            && *final(optval) == *old(optval),
{
    if level == SOL_TCP && optname == TCP_MAXSEG {
        *optval = le32_vec(crate::TCP_MSS);
        return 0;
    }
    if level == SOL_TCP && optname == TCP_CONGESTION {
        let mut name: Vec<u8> = Vec::new();
        name.push(114u8);
        name.push(101u8);
        name.push(110u8);
        name.push(111u8);
        proof {
            assert(name@ =~= seq![114u8, 101u8, 110u8, 111u8]);
        }
        *optval = name;
        return 0;
    }
    if level == SOL_SOCKET && (optname == SO_SNDBUF || optname == SO_RCVBUF) {
        let e = match st.table.get(sockfd as usize) {
            Some(e) => e,
            None => {
                return Errno::ENOTSOCK.neg();
            },
        };
        let size: usize = match e.sock {
            Sock::Tcp(t) => if optname == SO_SNDBUF {
                t.sendbuf_size
            } else {
                t.recvbuf_size
            },
            Sock::Udp(u) => if optname == SO_SNDBUF {
                u.sendbuf_size
            } else {
                u.recvbuf_size
            },
            Sock::Unix(_) => {
                return Errno::EOPNOTSUPP.neg();
            },
        };
        *optval = le32_vec(size as u32);
        return 0;
    }
    // Unrecognized pair: a deliberate leniency, so unsupported options
    // do not break otherwise-working applications.
    0
}

/// Write a socket option. Buffer sizes update the capability's
/// advisory fields; TCP_NODELAY and SO_KEEPALIVE are forwarded to the
/// engine with failures swallowed, as the syscall always reported
/// success for them; an unrecognized pair is a silent no-op success.
pub fn sys_setsockopt(
    st: &mut NetStack,
    sockfd: u32,
    level: u32,
    optname: u32,
    optval: &[u8],
) -> (r: isize)
    requires
        old(st).wf(),
    ensures
        final(st).wf(),
        !old(st).table.is_open_fd(sockfd as int) ==> r == -88 && *final(st) == *old(st),
        old(st).table.is_open_fd(sockfd as int) ==> {
            let e = old(st).table.entry(sockfd as int);
            &&& (level == SOL_SOCKET && (optname == SO_SNDBUF || optname == SO_RCVBUF) ==> {
                &&& (optval@.len() < 4 ==> r == -22 && *final(st) == *old(st))
                &&& (optval@.len() >= 4 ==> {
                    &&& (e.sock is Tcp ==> r == 0 && final(st).table.is_open_fd(sockfd as int)
                        && final(st).table.entry(sockfd as int) == (FdEntry {
                        sock: Sock::Tcp(
                            if optname == SO_SNDBUF {
                                TcpSocket {
                                    sendbuf_size: le32_value(optval@) as usize,
                                    ..e.sock->Tcp_0
                                }
                            } else {
                                TcpSocket {
                                    recvbuf_size: le32_value(optval@) as usize,
                                    ..e.sock->Tcp_0
                                }
                            },
                        ),
                        ..e
                    }))
                    &&& (e.sock is Udp ==> r == 0 && final(st).table.is_open_fd(sockfd as int)
                        && final(st).table.entry(sockfd as int) == (FdEntry {
                        sock: Sock::Udp(
                            if optname == SO_SNDBUF {
                                UdpSocket {
                                    sendbuf_size: le32_value(optval@) as usize,
                                    ..e.sock->Udp_0
                                }
                            } else {
                                UdpSocket {
                                    recvbuf_size: le32_value(optval@) as usize,
                                    ..e.sock->Udp_0
                                }
                            },
                        ),
                        ..e
                    }))
                    &&& (e.sock is Unix ==> r == -95 && *final(st) == *old(st))
                })
            })
            &&& (level == SOL_TCP && optname == TCP_NODELAY ==> (optval@.len() < 4 ==> r == -22)
                && (optval@.len() >= 4 ==> r == 0 && final(st).table.slots@ == old(
                st,
            ).table.slots@))
            &&& (level == SOL_SOCKET && optname == SO_KEEPALIVE ==> (optval@.len() < 4 ==> r
                == -22) && (optval@.len() >= 4 ==> r == 0 && final(st).table.slots@ == old(
                st,
            ).table.slots@))
            &&& (!(level == SOL_SOCKET && (optname == SO_SNDBUF || optname == SO_RCVBUF || optname
                == SO_KEEPALIVE)) && !(level == SOL_TCP && optname == TCP_NODELAY) ==> r == 0
                && *final(st) == *old(st))
        },
        forall|j: int|
            0 <= j < old(st).table.slots@.len() && j != sockfd ==> final(st).table.slots@[j]
                == old(st).table.slots@[j],
{
    let fd = sockfd as usize;
    let e = match st.table.get(fd) {
        Some(e) => e,
        None => {
            return Errno::ENOTSOCK.neg();
        },
    };
    let pre: Ghost<NetStack> = Ghost(*st);
    if level == SOL_SOCKET && (optname == SO_SNDBUF || optname == SO_RCVBUF) {
        if optval.len() < 4 {
            return Errno::EINVAL.neg();
        }
        let size = read_le32(optval) as usize;
        match e.sock {
            Sock::Tcp(t) => {
                let updated = if optname == SO_SNDBUF {
                    TcpSocket { sendbuf_size: size, ..t }
                } else {
                    TcpSocket { recvbuf_size: size, ..t }
                };
                put_sock(st, fd, FdEntry { sock: Sock::Tcp(updated), ..e }, pre);
                0
            },
            Sock::Udp(u) => {
                let updated = if optname == SO_SNDBUF {
                    UdpSocket { sendbuf_size: size, ..u }
                } else {
                    UdpSocket { recvbuf_size: size, ..u }
                };
                put_sock(st, fd, FdEntry { sock: Sock::Udp(updated), ..e }, pre);
                0
            },
            Sock::Unix(_) => Errno::EOPNOTSUPP.neg(),
        }
    } else if level == SOL_TCP && optname == TCP_NODELAY {
        if optval.len() < 4 {
            return Errno::EINVAL.neg();
        }
        let enabled = read_le32(optval);
        match e.sock {
            Sock::Tcp(t) => {
                proof {
                    assert(st.table.is_open_fd(fd as int));
                }
                // TCP_NODELAY disables the Nagle algorithm, so a zero
                // value turns Nagle back on.
                let _ = t.set_nagle_enabled(&mut st.eng, enabled == 0);
                proof {
                    lemma_stack_wf_frame(pre@, *st);
                }
                0
            },
            // Only stream sockets know this option; the error is
            // swallowed and success reported, a deliberate leniency.
            Sock::Udp(_) => 0,
            Sock::Unix(_) => 0,
        }
    } else if level == SOL_SOCKET && optname == SO_KEEPALIVE {
        if optval.len() < 4 {
            return Errno::EINVAL.neg();
        }
        let enabled = read_le32(optval);
        match e.sock {
            Sock::Tcp(t) => {
                proof {
                    assert(st.table.is_open_fd(fd as int));
                }
                let _ = t.set_keep_alive(&mut st.eng, enabled == 1);
                proof {
                    lemma_stack_wf_frame(pre@, *st);
                }
                0
            },
            Sock::Udp(_) => 0,
            Sock::Unix(_) => 0,
        }
    } else {
        // Unrecognized pair: silent no-op success.
        0
    }
}

/// Shut a socket down. For a stream socket, a write-shutdown closes
/// the transmit half and anything else aborts the connection; datagram
/// and local sockets have no half-close and report success without
/// effect. Always returns 0 on an open descriptor, and repeating the
/// call never changes the capability: the capability object is not
/// touched at all.
pub fn sys_sock_shutdown(st: &mut NetStack, sockfd: u32, how: u32) -> (r: isize)
    requires
        old(st).wf(),
    ensures
        final(st).wf(),
        !old(st).table.is_open_fd(sockfd as int) ==> r == -88 && *final(st) == *old(st),
        old(st).table.is_open_fd(sockfd as int) ==> r == 0 && final(st).table.slots@ == old(
            st,
        ).table.slots@,
{
    let fd = sockfd as usize;
    let e = match st.table.get(fd) {
        Some(e) => e,
        None => {
            return Errno::ENOTSOCK.neg();
        },
    };
    let pre: Ghost<NetStack> = Ghost(*st);
    match e.sock {
        Sock::Tcp(t) => {
            proof {
                assert(st.table.is_open_fd(fd as int));
            }
            let _ = t.shutdown(&mut st.eng, how);
            proof {
                lemma_stack_wf_frame(pre@, *st);
            }
            0
        },
        Sock::Udp(u) => {
            let _ = u.shutdown(how);
            0
        },
        Sock::Unix(x) => {
            let _ = x.shutdown(how);
            0
        },
    }
}

/// Build a connected pair of local sockets over two fresh cross-wired
/// pipes and install both at fresh descriptors, reported through `sv`.
pub fn sys_socketpair(
    st: &mut NetStack,
    domain: u32,
    socket_type: u32,
    protocol: u32,
    sv: &mut Vec<usize>,
) -> (r: isize)
    requires
        old(st).wf(),
    ensures
        final(st).wf(),
        r == 0 || r == -24,
        r == 0 ==> {
            let fd1 = final(sv)@[0] as int;
            let fd2 = final(sv)@[1] as int;
            &&& final(sv)@.len() == 2
            &&& fd1 != fd2
            &&& !old(st).table.is_open_fd(fd1) && !old(st).table.is_open_fd(fd2)
            &&& final(st).table.is_open_fd(fd1) && final(st).table.is_open_fd(fd2)
            &&& final(st).table.entry(fd1).sock is Unix
            &&& final(st).table.entry(fd2).sock is Unix
            // Both descriptors start blocking and kept across exec.
            &&& !final(st).table.entry(fd1).nonblock && !final(st).table.entry(fd1).cloexec
            &&& !final(st).table.entry(fd2).nonblock && !final(st).table.entry(fd2).cloexec
            // Cross-wired: what one end writes, the other reads.
            &&& final(st).table.entry(fd1).sock->Unix_0.write_end == final(st).table.entry(
                fd2,
            ).sock->Unix_0.read_end
            &&& final(st).table.entry(fd1).sock->Unix_0.read_end == final(st).table.entry(
                fd2,
            ).sock->Unix_0.write_end
            &&& final(st).table.entry(fd1).sock->Unix_0.read_end != final(st).table.entry(
                fd1,
            ).sock->Unix_0.write_end
            // Both pipes start out empty.
            &&& final(st).pipes.contents(final(st).table.entry(fd1).sock->Unix_0.read_end as int)
                == Seq::<u8>::empty()
            &&& final(st).pipes.contents(final(st).table.entry(fd1).sock->Unix_0.write_end as int)
                == Seq::<u8>::empty()
            &&& forall|j: int|
                0 <= j < old(st).table.slots@.len() && j != fd1 && j != fd2
                    ==> final(st).table.slots@[j] == old(st).table.slots@[j]
        },
        r == -24 ==> old(st).table.slots@.len() + 1 >= crate::table::FD_TABLE_LIMIT && forall|
            j: int,
        |
            0 <= j < old(st).table.slots@.len() ==> final(st).table.slots@[j]
                == old(st).table.slots@[j],
{
    let _ = domain;
    let _ = socket_type;
    let _ = protocol;
    let pre: Ghost<NetStack> = Ghost(*st);
    let (sock1, sock2) = make_unix_socket_pair(&mut st.pipes);
    proof {
        lemma_stack_wf_frame(pre@, *st);
    }
    let mid: Ghost<NetStack> = Ghost(*st);
    let e1 = FdEntry { nonblock: false, cloexec: false, sock: Sock::Unix(sock1) };
    let e2 = FdEntry { nonblock: false, cloexec: false, sock: Sock::Unix(sock2) };
    let fd1 = match st.table.insert(e1) {
        Some(fd) => fd,
        None => {
            return Errno::EMFILE.neg();
        },
    };
    proof {
        let post = *st;
        assert forall|i: int| #[trigger] post.table.is_open_fd(i) implies post.table.entry(
            i,
        ).sock.wf(post.eng, post.pipes) by {
            if i != fd1 as int {
                assert(mid@.table.is_open_fd(i));
            }
        }
        assert forall|i: int, j: int|
            #[trigger] post.table.is_open_fd(i) && #[trigger] post.table.is_open_fd(j) && i
                != j implies distinct_handles(post.table.entry(i).sock, post.table.entry(j).sock) by {
            if i != fd1 as int && j != fd1 as int {
                assert(mid@.table.is_open_fd(i));
                assert(mid@.table.is_open_fd(j));
            }
        }
    }
    let step: Ghost<NetStack> = Ghost(*st);
    let fd2 = match st.table.insert(e2) {
        Some(fd) => fd,
        None => {
            let _ = st.table.take(fd1);
            proof {
                let post = *st;
                assert forall|i: int| #[trigger] post.table.is_open_fd(i) implies post.table.entry(
                    i,
                ).sock.wf(post.eng, post.pipes) by {
                    assert(step@.table.is_open_fd(i));
                }
                assert forall|i: int, j: int|
                    #[trigger] post.table.is_open_fd(i) && #[trigger] post.table.is_open_fd(j) && i
                        != j implies distinct_handles(
                    post.table.entry(i).sock,
                    post.table.entry(j).sock,
                ) by {
                    assert(step@.table.is_open_fd(i));
                    assert(step@.table.is_open_fd(j));
                }
            }
            return Errno::EMFILE.neg();
        },
    };
    proof {
        let post = *st;
        assert forall|i: int| #[trigger] post.table.is_open_fd(i) implies post.table.entry(
            i,
        ).sock.wf(post.eng, post.pipes) by {
            if i != fd2 as int {
                assert(step@.table.is_open_fd(i));
            }
        }
        assert forall|i: int, j: int|
            #[trigger] post.table.is_open_fd(i) && #[trigger] post.table.is_open_fd(j) && i
                != j implies distinct_handles(post.table.entry(i).sock, post.table.entry(j).sock) by {
            if i != fd2 as int && j != fd2 as int {
                assert(step@.table.is_open_fd(i));
                assert(step@.table.is_open_fd(j));
            }
        }
    }
    sv.clear();
    sv.push(fd1);
    sv.push(fd2);
    0
}

/// An automatic ephemeral bind is visible through `getsockname`: once
/// a datagram socket's send has bound it (its recorded port is not
/// zero, as a successful `sys_sendto` ensures), the `sockaddr_in`
/// bytes that `sys_getsockname` reports carry a nonzero port.
pub proof fn lemma_autobind_shows_in_getsockname(st: NetStack, fd: int, out: Seq<u8>)
    requires
        st.table.is_open_fd(fd),
        st.table.entry(fd).sock is Udp,
        st.table.entry(fd).sock->Udp_0.local.port != 0,
        crate::addr::sockaddr_encodes(out, st.table.entry(fd).sock->Udp_0.local),
    ensures
        out[2] != 0 || out[3] != 0,
{
    let p = st.table.entry(fd).sock->Udp_0.local.port;
    assert(out[2] == p / 256 && out[3] == p % 256);
    assert((p / 256) * 256 + p % 256 == p) by (nonlinear_arith);
}

/// Close a descriptor: remove it from the table and release the engine
/// resources its capability owned. The pipes of a local socket stay
/// until the whole stack goes away, since the peer may still use them.
pub fn close_fd(st: &mut NetStack, sockfd: u32) -> (r: isize)
    requires
        old(st).wf(),
    ensures
        final(st).wf(),
        !old(st).table.is_open_fd(sockfd as int) ==> r == -9 && *final(st) == *old(st),
        old(st).table.is_open_fd(sockfd as int) ==> r == 0 && !final(st).table.is_open_fd(
            sockfd as int,
        ) && forall|j: int|
            0 <= j < old(st).table.slots@.len() && j != sockfd ==> final(st).table.slots@[j] == old(
                st,
            ).table.slots@[j],
{
    let fd = sockfd as usize;
    match st.table.take(fd) {
        None => Errno::EBADF.neg(),
        Some(e) => {
            let removed: Ghost<int> = Ghost(
                match e.sock.engine_id() {
                    Some(y) => y,
                    None => 0,
                },
            );
            match e.sock {
                Sock::Tcp(t) => t.teardown(&mut st.eng),
                Sock::Udp(u) => u.teardown(&mut st.eng),
                Sock::Unix(_) => (),
            }
            proof {
                let post = *st;
                assert forall|i: int| #[trigger] post.table.is_open_fd(i) implies post.table.entry(
                    i,
                ).sock.wf(post.eng, post.pipes) by {
                    assert(old(st).table.is_open_fd(i));
                    assert(i != fd as int);
                    if e.sock.engine_id() is Some {
                        lemma_sock_wf_after_remove(
                            old(st).table.entry(i).sock,
                            old(st).eng,
                            post.eng,
                            old(st).pipes,
                            removed@,
                        );
                    }
                }
                assert forall|i: int, j: int|
                    #[trigger] post.table.is_open_fd(i) && #[trigger] post.table.is_open_fd(j) && i
                        != j implies distinct_handles(
                    post.table.entry(i).sock,
                    post.table.entry(j).sock,
                ) by {
                    assert(old(st).table.is_open_fd(i));
                    assert(old(st).table.is_open_fd(j));
                }
            }
            0
        },
    }
}

} // verus!
