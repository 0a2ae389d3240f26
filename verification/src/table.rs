use vstd::prelude::*;
use crate::engine::{handle_id, NetInterface};
use crate::tcp::TcpSocket;
use crate::udp::UdpSocket;
use crate::unixsock::{PipeSet, UnixSocket};

verus! {

/// The closed set of socket families this stack serves.
#[derive(Clone, Copy, Debug)]
pub enum Sock {
    Tcp(TcpSocket),
    Udp(UdpSocket),
    Unix(UnixSocket),
}

impl Sock {
    /// The capability is backed by live engine or pipe resources.
    pub open spec fn wf(self, eng: NetInterface, pipes: PipeSet) -> bool {
        match self {
            Sock::Tcp(t) => t.wf(eng),
            Sock::Udp(u) => u.wf(eng),
            Sock::Unix(x) => x.wf(pipes),
        }
    }

    /// The engine handle this capability owns, if it owns one.
    pub open spec fn engine_id(self) -> Option<int> {
        match self {
            Sock::Tcp(t) => Some(handle_id(t.handle)),
            Sock::Udp(u) => Some(handle_id(u.handle)),
            Sock::Unix(_) => None,
        }
    }
}

/// Two capabilities never own the same engine handle.
pub open spec fn distinct_handles(a: Sock, b: Sock) -> bool {
    match (a.engine_id(), b.engine_id()) {
        (Some(x), Some(y)) => x != y,
        _ => true,
    }
}

/// One open descriptor: the per-descriptor flags and the capability it
/// refers to.
#[derive(Clone, Copy, Debug)]
pub struct FdEntry {
    pub nonblock: bool,
    pub cloexec: bool,
    pub sock: Sock,
}

/// A descriptor table never grows past this many slots.
pub const FD_TABLE_LIMIT: usize = 1024;

/// The per-task descriptor table: descriptor number to entry. The
/// accept hand-off swaps entries here atomically with respect to the
/// other operations of the same task.
#[derive(Debug)]
pub struct SockTable {
    pub slots: Vec<Option<FdEntry>>,
}

impl SockTable {
    /// Whether `fd` names an open descriptor.
    pub open spec fn is_open_fd(self, fd: int) -> bool {
        0 <= fd < self.slots@.len() && self.slots@[fd] is Some
    }

    /// The entry behind an open descriptor.
    pub open spec fn entry(self, fd: int) -> FdEntry
        recommends
            self.is_open_fd(fd),
    {
        self.slots@[fd]->Some_0
    }

    /// The table never outgrows its limit.
    pub open spec fn bounded(self) -> bool {
        self.slots@.len() <= FD_TABLE_LIMIT
    }

    pub fn new() -> (t: SockTable)
        ensures
            t.slots@.len() == 0,
            t.bounded(),
    {
        SockTable { slots: Vec::new() }
    }

    /// Look a descriptor up.
    pub fn get(&self, fd: usize) -> (r: Option<FdEntry>)
        ensures
            self.is_open_fd(fd as int) ==> r == Some(self.entry(fd as int)),
            !self.is_open_fd(fd as int) ==> r is None,
    {
        if fd < self.slots.len() {
            self.slots[fd]
        } else {
            None
        }
    }

    /// Install an entry at the lowest free descriptor; `None` only when
    /// the table is full.
    pub fn insert(&mut self, e: FdEntry) -> (r: Option<usize>)
        requires
            old(self).bounded(),
        ensures
            final(self).bounded(),
            r is None ==> *final(self) == *old(self) && old(self).slots@.len() == FD_TABLE_LIMIT,
            r matches Some(fd) ==> {
                &&& !old(self).is_open_fd(fd as int)
                &&& fd <= old(self).slots@.len()
                &&& final(self).is_open_fd(fd as int)
                &&& final(self).entry(fd as int) == e
                &&& (fd < old(self).slots@.len() ==> final(self).slots@ == old(self).slots@.update(
                    fd as int,
                    Some(e),
                ))
                &&& (fd == old(self).slots@.len() ==> final(self).slots@ == old(self).slots@.push(
                    Some(e),
                ))
                &&& forall|j: int|
                    0 <= j < old(self).slots@.len() && j != fd ==> final(self).slots@[j] == old(
                        self,
                    ).slots@[j]
                &&& forall|j: int| 0 <= j < fd ==> old(self).is_open_fd(j)
            },
    {
        let mut fd: usize = 0;
        while fd < self.slots.len()
            invariant
                fd <= self.slots@.len(),
                *self == *old(self),
                self.bounded(),
                forall|j: int| 0 <= j < fd ==> old(self).is_open_fd(j),
            decreases self.slots@.len() - fd,
        {
            if self.slots[fd].is_none() {
                self.slots[fd] = Some(e);
                return Some(fd);
            }
            fd = fd + 1;
        }
        if self.slots.len() < FD_TABLE_LIMIT {
            self.slots.push(Some(e));
            Some(fd)
        } else {
            None
        }
    }

    /// Replace the entry at an existing slot.
    pub fn insert_at(&mut self, e: FdEntry, fd: usize)
        requires
            fd < old(self).slots@.len(),
        ensures
            final(self).slots@ == old(self).slots@.update(fd as int, Some(e)),
            final(self).is_open_fd(fd as int),
            final(self).entry(fd as int) == e,
            final(self).bounded() == old(self).bounded(),
    {
        self.slots[fd] = Some(e);
    }

    /// Remove and return the entry of a descriptor, freeing the slot.
    pub fn take(&mut self, fd: usize) -> (r: Option<FdEntry>)
        ensures
            old(self).is_open_fd(fd as int) ==> r == Some(old(self).entry(fd as int))
                && final(self).slots@ == old(self).slots@.update(fd as int, None),
            !old(self).is_open_fd(fd as int) ==> r is None && *final(self) == *old(self),
            final(self).slots@.len() == old(self).slots@.len(),
            final(self).bounded() == old(self).bounded(),
    {
        if fd < self.slots.len() {
            let e = self.slots[fd];
            if e.is_some() {
                self.slots[fd] = None;
            }
            e
        } else {
            None
        }
    }
}

} // verus!
