//! Sizes of the socket buffers.
use vstd::prelude::*;

verus! {

/// Bytes in a socket's receive buffer.
pub const UDP_RX_BUF_LEN: usize = 65536;

/// Bytes in a socket's transmit buffer.
pub const UDP_TX_BUF_LEN: usize = 65536;

/// Messages that each of the two buffers has slots for.
pub const PACKET_SLOTS: usize = 256;

/// The hop limit of a socket on which none was set.
pub const DEFAULT_TTL: u8 = 64;

} // verus!
