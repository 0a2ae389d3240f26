use vstd::prelude::*;

verus! {

/// POSIX-style error numbers surfaced at the syscall boundary.
///
/// Every recoverable failure of the socket layer is reported as one of
/// these; the syscall wrappers turn them into negative return values.
#[derive(Clone, Copy, Debug, PartialEq, Eq, Structural)]
pub enum Errno {
    /// Not an open descriptor.
    EBADF,
    /// The descriptor table is full.
    EMFILE,
    /// The operation would block and the descriptor is non-blocking,
    /// or the poll budget of a blocking call ran out.
    EAGAIN,
    /// Malformed argument or invalid socket state.
    EINVAL,
    /// The address family is not IPv4.
    EAFNOSUPPORT,
    /// The operation is not supported on this socket family.
    EOPNOTSUPP,
    /// The engine refused to listen on the requested endpoint.
    EADDRINUSE,
    /// The transmit queue is full.
    ENOBUFS,
    /// A connection attempt on an already-connected socket.
    EISCONN,
    /// The socket is not connected to a peer.
    ENOTCONN,
    /// The peer closed the connection while it was being established.
    ECONNREFUSED,
    /// The descriptor does not refer to a socket.
    ENOTSOCK,
}

impl Errno {
    /// The numeric value of the error, as POSIX names it.
    pub open spec fn code_spec(self) -> int {
        match self {
            Errno::EBADF => 9,
            Errno::EAGAIN => 11,
            Errno::EINVAL => 22,
            Errno::EMFILE => 24,
            Errno::EOPNOTSUPP => 95,
            Errno::EAFNOSUPPORT => 97,
            Errno::EADDRINUSE => 98,
            Errno::ENOBUFS => 105,
            Errno::EISCONN => 106,
            Errno::ENOTCONN => 107,
            Errno::ECONNREFUSED => 111,
            Errno::ENOTSOCK => 88,
        }
    }

    /// The numeric value of the error.
    pub fn code(self) -> (c: isize)
        ensures
            c == self.code_spec(),
    {
        match self {
            Errno::EBADF => 9,
            Errno::EAGAIN => 11,
            Errno::EINVAL => 22,
            Errno::EMFILE => 24,
            Errno::EOPNOTSUPP => 95,
            Errno::EAFNOSUPPORT => 97,
            Errno::EADDRINUSE => 98,
            Errno::ENOBUFS => 105,
            Errno::EISCONN => 106,
            Errno::ENOTCONN => 107,
            Errno::ECONNREFUSED => 111,
            Errno::ENOTSOCK => 88,
        }
    }

    /// The error as a negative syscall return value.
    pub fn neg(self) -> (c: isize)
        ensures
            c == -self.code_spec(),
            c < 0,
    {
        let code: isize = self.code();
        -code
    }
}

} // verus!
