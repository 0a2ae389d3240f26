use vstd::prelude::*;
use crate::errno::Errno;
use crate::PIPE_CAPACITY;

verus! {

/// One direction of a local socket pair: a bounded byte queue. Bytes
/// are appended at the back by the writer and taken from the front by
/// the reader.
#[derive(Debug)]
pub struct Pipe {
    pub data: Vec<u8>,
}

/// How many bytes a write of `incoming` appends to a pipe that already
/// holds `held` bytes: bounded by the free space.
pub open spec fn pipe_write_count(held: int, incoming: int) -> int {
    vstd::math::min(PIPE_CAPACITY - held, incoming)
}

/// The pipe contents after writing `b` into contents `p`.
pub open spec fn pipe_write_spec(p: Seq<u8>, b: Seq<u8>) -> Seq<u8> {
    p + b.take(pipe_write_count(p.len() as int, b.len() as int))
}

/// How many bytes a read of `want` takes from contents `p`.
pub open spec fn pipe_read_count(p: Seq<u8>, want: int) -> int {
    vstd::math::min(want, p.len() as int)
}

/// The bytes a read of `want` returns from contents `p`.
pub open spec fn pipe_read_out(p: Seq<u8>, want: int) -> Seq<u8> {
    p.take(pipe_read_count(p, want))
}

/// The pipe contents left behind by a read of `want` from contents `p`.
pub open spec fn pipe_read_rest(p: Seq<u8>, want: int) -> Seq<u8> {
    p.skip(pipe_read_count(p, want))
}

impl Pipe {
    /// A fresh, empty pipe.
    pub fn new() -> (p: Pipe)
        ensures
            p.data@ == Seq::<u8>::empty(),
    {
        Pipe { data: Vec::new() }
    }

    /// The pipe never holds more than its capacity.
    pub open spec fn wf(self) -> bool {
        self.data@.len() <= PIPE_CAPACITY
    }

    /// Append as much of `buf` as fits; returns how many bytes were
    /// taken.
    pub fn write(&mut self, buf: &[u8]) -> (n: usize)
        requires
            old(self).wf(),
        ensures
            final(self).wf(),
            n == pipe_write_count(old(self).data@.len() as int, buf@.len() as int),
            final(self).data@ == pipe_write_spec(old(self).data@, buf@),
    {
        let mut j: usize = 0;
        while j < buf.len() && self.data.len() < PIPE_CAPACITY
            invariant
                j <= buf@.len(),
                self.data@.len() == old(self).data@.len() + j,
                self.data@.len() <= PIPE_CAPACITY,
                self.data@ == old(self).data@ + buf@.take(j as int),
            decreases buf@.len() - j,
        {
            self.data.push(buf[j]);
            j = j + 1;
        }
        proof {
            assert(self.data@ =~= pipe_write_spec(old(self).data@, buf@));
        }
        j
    }

    /// Take up to `want` bytes from the front, in order.
    pub fn read(&mut self, want: usize) -> (out: Vec<u8>)
        requires
            old(self).wf(),
        ensures
            final(self).wf(),
            out@ == pipe_read_out(old(self).data@, want as int),
            final(self).data@ == pipe_read_rest(old(self).data@, want as int),
    {
        let k: usize = if want < self.data.len() {
            want
        } else {
            self.data.len()
        };
        let mut out: Vec<u8> = Vec::new();
        let mut j: usize = 0;
        while j < k
            invariant
                j <= k,
                k <= self.data@.len(),
                self.data@ == old(self).data@,
                out@ == self.data@.take(j as int),
            decreases k - j,
        {
            out.push(self.data[j]);
            j = j + 1;
        }
        let mut rest: Vec<u8> = Vec::new();
        let mut m: usize = k;
        while m < self.data.len()
            invariant
                k <= m <= self.data@.len(),
                self.data@ == old(self).data@,
                rest@ == self.data@.subrange(k as int, m as int),
            decreases self.data@.len() - m,
        {
            rest.push(self.data[m]);
            m = m + 1;
        }
        self.data = rest;
        proof {
            assert(out@ =~= pipe_read_out(old(self).data@, want as int));
            assert(self.data@ =~= pipe_read_rest(old(self).data@, want as int));
        }
        out
    }
}

/// All the pipes backing the local socket pairs of a task, addressed by
/// index. A `UnixSocket` holds indices into this set.
#[derive(Debug)]
pub struct PipeSet {
    pub pipes: Vec<Pipe>,
}

impl PipeSet {
    /// Every pipe respects its capacity.
    pub open spec fn wf(self) -> bool {
        forall|i: int| 0 <= i < self.pipes@.len() ==> (#[trigger] self.pipes@[i]).wf()
    }

    /// The contents of pipe `i`.
    pub open spec fn contents(self, i: int) -> Seq<u8> {
        self.pipes@[i].data@
    }

    pub fn new() -> (s: PipeSet)
        ensures
            s.wf(),
            s.pipes@.len() == 0,
    {
        PipeSet { pipes: Vec::new() }
    }

    /// Add a fresh empty pipe and return its index.
    pub fn new_pipe(&mut self) -> (id: usize)
        requires
            old(self).wf(),
        ensures
            final(self).wf(),
            id == old(self).pipes@.len(),
            final(self).pipes@.len() == old(self).pipes@.len() + 1,
            final(self).contents(id as int) == Seq::<u8>::empty(),
            forall|i: int| 0 <= i < old(self).pipes@.len() ==> final(self).pipes@[i] == old(
                self,
            ).pipes@[i],
    {
        let id = self.pipes.len();
        self.pipes.push(Pipe::new());
        id
    }

    /// Write into pipe `id`.
    pub fn write_pipe(&mut self, id: usize, buf: &[u8]) -> (n: usize)
        requires
            old(self).wf(),
            id < old(self).pipes@.len(),
        ensures
            final(self).wf(),
            final(self).pipes@.len() == old(self).pipes@.len(),
            n == pipe_write_count(old(self).contents(id as int).len() as int, buf@.len() as int),
            final(self).contents(id as int) == pipe_write_spec(old(self).contents(id as int), buf@),
            forall|i: int| 0 <= i < old(self).pipes@.len() && i != id ==> final(self).pipes@[i]
                == old(self).pipes@[i],
    {
        let p = &mut self.pipes[id];
        p.write(buf)
    }

    /// Read from pipe `id`.
    pub fn read_pipe(&mut self, id: usize, want: usize) -> (out: Vec<u8>)
        requires
            old(self).wf(),
            id < old(self).pipes@.len(),
        ensures
            final(self).wf(),
            final(self).pipes@.len() == old(self).pipes@.len(),
            out@ == pipe_read_out(old(self).contents(id as int), want as int),
            final(self).contents(id as int) == pipe_read_rest(
                old(self).contents(id as int),
                want as int,
            ),
            forall|i: int| 0 <= i < old(self).pipes@.len() && i != id ==> final(self).pipes@[i]
                == old(self).pipes@[i],
    {
        let p = &mut self.pipes[id];
        p.read(want)
    }
}

/// A local (pipe-backed) socket: one pipe it reads from and one it
/// writes to. There is no protocol state machine; readiness is governed
/// entirely by the pipes.
#[derive(Clone, Copy, Debug)]
pub struct UnixSocket {
    pub read_end: usize,
    pub write_end: usize,
}

impl UnixSocket {
    /// Both ends point at live pipes.
    pub open spec fn wf(self, pipes: PipeSet) -> bool {
        self.read_end < pipes.pipes@.len() && self.write_end < pipes.pipes@.len()
    }

    /// A socket over the given pipe indices.
    pub fn new(read_end: usize, write_end: usize) -> (s: UnixSocket)
        ensures
            s.read_end == read_end,
            s.write_end == write_end,
    {
        UnixSocket { read_end, write_end }
    }

    /// Send bytes to the peer: append to the write pipe, bounded by its
    /// free space.
    pub fn write(&self, pipes: &mut PipeSet, buf: &[u8]) -> (r: Result<usize, Errno>)
        requires
            old(pipes).wf(),
            self.wf(*old(pipes)),
        ensures
            final(pipes).wf(),
            self.wf(*final(pipes)),
            final(pipes).pipes@.len() == old(pipes).pipes@.len(),
            r matches Ok(n) ==> n == pipe_write_count(
                old(pipes).contents(self.write_end as int).len() as int,
                buf@.len() as int,
            ) && final(pipes).contents(self.write_end as int) == pipe_write_spec(
                old(pipes).contents(self.write_end as int),
                buf@,
            ),
            r is Ok,
            forall|i: int| 0 <= i < old(pipes).pipes@.len() && i != self.write_end ==> #[trigger] final(pipes).pipes@[i] == old(pipes).pipes@[i],
    {
        let n = pipes.write_pipe(self.write_end, buf);
        Ok(n)
    }

    /// Receive up to `want` bytes from the peer, in order. When the
    /// read pipe is empty (and something was asked for), reports EAGAIN:
    /// only the peer can make data arrive.
    pub fn read(&self, pipes: &mut PipeSet, want: usize) -> (r: Result<Vec<u8>, Errno>)
        requires
            old(pipes).wf(),
            self.wf(*old(pipes)),
        ensures
            final(pipes).wf(),
            self.wf(*final(pipes)),
            final(pipes).pipes@.len() == old(pipes).pipes@.len(),
            old(pipes).contents(self.read_end as int).len() == 0 && want > 0 ==> r == Err::<
                Vec<u8>,
                Errno,
            >(Errno::EAGAIN) && *final(pipes) == *old(pipes),
            old(pipes).contents(self.read_end as int).len() > 0 || want == 0 ==> r is Ok,
            r matches Ok(out) ==> out@ == pipe_read_out(
                old(pipes).contents(self.read_end as int),
                want as int,
            ) && final(pipes).contents(self.read_end as int) == pipe_read_rest(
                old(pipes).contents(self.read_end as int),
                want as int,
            ),
            forall|i: int| 0 <= i < old(pipes).pipes@.len() && i != self.read_end ==> #[trigger] final(pipes).pipes@[i] == old(pipes).pipes@[i],
    {
        if want > 0 && self.pipe_is_empty(pipes) {
            return Err(Errno::EAGAIN);
        }
        let out = pipes.read_pipe(self.read_end, want);
        Ok(out)
    }

    /// Whether the read pipe holds nothing.
    fn pipe_is_empty(&self, pipes: &PipeSet) -> (b: bool)
        requires
            self.wf(*pipes),
        ensures
            b == (pipes.contents(self.read_end as int).len() == 0),
    {
        self.available(pipes) == 0
    }

    /// How many bytes are waiting to be read.
    pub fn available(&self, pipes: &PipeSet) -> (n: usize)
        requires
            self.wf(*pipes),
        ensures
            n == pipes.contents(self.read_end as int).len(),
    {
        pipes.pipes[self.read_end].data.len()
    }

    /// A local socket has no half-close: shutdown is a no-op success.
    pub fn shutdown(&self, _how: u32) -> (r: Result<(), Errno>)
        ensures
            r == Ok::<(), Errno>(()),
    {
        Ok(())
    }
}

/// Build a connected pair of local sockets over two fresh, cross-wired
/// pipes: what one end writes, the other reads, and nothing else.
pub fn make_unix_socket_pair(pipes: &mut PipeSet) -> (pair: (UnixSocket, UnixSocket))
    requires
        old(pipes).wf(),
    ensures
        final(pipes).wf(),
        final(pipes).pipes@.len() == old(pipes).pipes@.len() + 2,
        pair.0.wf(*final(pipes)),
        pair.1.wf(*final(pipes)),
        pair.0.read_end == pair.1.write_end,
        pair.0.write_end == pair.1.read_end,
        pair.0.read_end != pair.0.write_end,
        final(pipes).contents(pair.0.read_end as int) == Seq::<u8>::empty(),
        final(pipes).contents(pair.0.write_end as int) == Seq::<u8>::empty(),
        forall|i: int| 0 <= i < old(pipes).pipes@.len() ==> final(pipes).pipes@[i] == old(
            pipes,
        ).pipes@[i],
{
    let first = pipes.new_pipe();
    let second = pipes.new_pipe();
    let socket1 = UnixSocket::new(first, second);
    let socket2 = UnixSocket::new(second, first);
    (socket1, socket2)
}

// ---------------------------------------------------------------------
// Laws of the pipe model.
// ---------------------------------------------------------------------

/// Round trip: bytes written into an empty pipe (as `send` on one end
/// of a socket pair does) are handed back byte-identical and in order
/// by a read of at least their length on the other end, leaving the
/// pipe empty.
pub proof fn lemma_pipe_round_trip(b: Seq<u8>, want: int)
    requires
        b.len() <= PIPE_CAPACITY,
        want >= b.len(),
    ensures
        pipe_write_spec(Seq::<u8>::empty(), b) == b,
        pipe_read_out(pipe_write_spec(Seq::<u8>::empty(), b), want) == b,
        pipe_read_rest(pipe_write_spec(Seq::<u8>::empty(), b), want) == Seq::<u8>::empty(),
{
    assert(pipe_write_spec(Seq::<u8>::empty(), b) =~= b);
    assert(pipe_read_out(b, want) =~= b);
    assert(pipe_read_rest(b, want) =~= Seq::<u8>::empty());
}

/// Order is kept across writes: two writes that both fit appear back to
/// back, first write first.
pub proof fn lemma_pipe_writes_in_order(p: Seq<u8>, b1: Seq<u8>, b2: Seq<u8>)
    requires
        p.len() + b1.len() + b2.len() <= PIPE_CAPACITY,
    ensures
        pipe_write_spec(pipe_write_spec(p, b1), b2) == p + b1 + b2,
{
    assert(pipe_write_spec(p, b1) =~= p + b1);
    assert(pipe_write_spec(p + b1, b2) =~= p + b1 + b2);
}

/// Reads drain the queue from the front: a read hands out a prefix and
/// leaves the matching suffix, so consecutive reads return consecutive
/// stretches of what was written.
pub proof fn lemma_pipe_read_splits(p: Seq<u8>, want: int)
    requires
        want >= 0,
    ensures
        pipe_read_out(p, want) + pipe_read_rest(p, want) == p,
        pipe_read_out(p, want).len() == vstd::math::min(want, p.len() as int),
{
    assert(pipe_read_out(p, want) + pipe_read_rest(p, want) =~= p);
}

} // verus!
