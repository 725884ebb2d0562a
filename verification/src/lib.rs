//! Raw ICMP sockets over smoltcp, and the device-probe and cache-maintenance logic that the
//! network drivers below them rely on.

pub mod addr;
pub mod consts;
pub mod dcache;
pub mod dcache_laws;
pub mod driver_laws;
pub mod drivers;
pub mod error;
pub mod events;
pub mod message;
pub mod raw;
pub mod raw_call_laws;
pub mod raw_laws;
pub mod smol;
pub mod sockets;
