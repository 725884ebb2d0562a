//! Network addresses as plain values.
use vstd::prelude::*;

use crate::error::NetError;

verus! {

/// An IP address, held as the integer that its octets spell in network byte order.
#[derive(Debug, Clone, Copy, PartialEq, Eq, Structural)]
pub enum IpAddress {
    Ipv4(u32),
    Ipv6(u128),
}

impl IpAddress {
    /// Whether this is `0.0.0.0` or `::`.
    pub open spec fn is_unspecified(self) -> bool {
        match self {
            IpAddress::Ipv4(bits) => bits == 0,
            IpAddress::Ipv6(bits) => bits == 0,
        }
    }
}

/// An IP address with a port.
#[derive(Debug, Clone, Copy, PartialEq, Eq, Structural)]
pub struct SocketAddr {
    pub ip: IpAddress,
    pub port: u16,
}

/// A socket address of any family.
#[derive(Debug, Clone, Copy, PartialEq, Eq, Structural)]
pub enum SocketAddrEx {
    Ip(SocketAddr),
    /// An address of another family, with the error that its use as an IP address gives.
    NonIp(NetError),
}

impl SocketAddrEx {
    /// The address as an IP socket address, or the error that it carries.
    pub open spec fn as_ip(self) -> Result<SocketAddr, NetError> {
        match self {
            SocketAddrEx::Ip(addr) => Ok(addr),
            SocketAddrEx::NonIp(error) => Err(error),
        }
    }

    /// Takes the address as an IP socket address.
    pub fn into_ip(self) -> (r: Result<SocketAddr, NetError>)
        ensures
            r == self.as_ip(),
    {
        match self {
            SocketAddrEx::Ip(addr) => Ok(addr),
            SocketAddrEx::NonIp(error) => Err(error),
        }
    }
}

} // verus!
