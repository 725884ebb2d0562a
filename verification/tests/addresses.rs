use axraw::addr::{IpAddress, SocketAddr, SocketAddrEx};
use axraw::error::NetError;

#[test]
fn an_ip_address_is_taken_out() {
    let addr = SocketAddr { ip: IpAddress::Ipv4(0x7f00_0001), port: 7 };
    assert_eq!(SocketAddrEx::Ip(addr).into_ip(), Ok(addr));
}

#[test]
fn another_family_gives_its_error() {
    assert_eq!(SocketAddrEx::NonIp(NetError::Os(97)).into_ip(), Err(NetError::Os(97)));
}
