//! A verified POSIX-style socket layer over a polling packet engine.
//!
//! The engine (smoltcp, on a loopback device) owns wire-format
//! processing and protocol timers and is driven by explicit `poll`
//! calls; this library puts blocking socket semantics on top of it:
//! capability objects for TCP, UDP and local (pipe-backed) sockets, a
//! poll/retry loop that stands in for suspending a task until the
//! engine is ready, a per-task descriptor table with the accept-time
//! descriptor hand-off, and the syscall surface that ties them
//! together. The contracts pin down what each operation does to the
//! capability and the table; what only the engine can decide is stated
//! as what holds of every outcome.

use vstd::prelude::*;

pub mod addr;
pub mod engine;
pub mod errno;
pub mod syscall;
pub mod table;
pub mod tcp;
pub mod rng;
pub mod udp;
pub mod unixsock;

verus! {

/// Byte capacity of each socket ring buffer; fixed at construction.
pub const MAX_BUFFER_SIZE: usize = 65536;

/// Capacity in bytes of each pipe backing one direction of a socket pair.
pub const PIPE_CAPACITY: usize = 4096;

/// The fixed TCP maximum segment size reported by `getsockopt`.
pub const TCP_MSS: u32 = 32768;

/// The `how` value of `shutdown` that closes only the transmit half.
pub const SHUT_WR: u32 = 1;

/// The reported maximum segment size never exceeds the ring buffer size.
pub proof fn lemma_mss_within_buffer()
    ensures
        TCP_MSS <= MAX_BUFFER_SIZE,
{
}

} // verus!
