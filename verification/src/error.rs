//! The errors that socket operations report.
use vstd::prelude::*;

verus! {

/// Why a socket operation failed.
#[derive(Debug, Clone, Copy, PartialEq, Eq, Structural)]
pub enum NetError {
    /// An argument is not acceptable in the present state (`EINVAL`).
    InvalidInput,
    /// The socket has no local address, no peer, or no ICMP endpoint (`ENOTCONN`).
    NotConnected,
    /// The remote address cannot be reached (`ECONNREFUSED`).
    ConnectionRefused,
    /// The operation has to wait (`EAGAIN`).
    WouldBlock,
    /// An error that came from the caller's own buffers or addresses, by its error code.
    Os(i32),
}

} // verus!
