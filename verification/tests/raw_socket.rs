use axpoll::IoEvents;
use axraw::addr::{IpAddress, SocketAddr, SocketAddrEx};
use axraw::consts::{UDP_RX_BUF_LEN, UDP_TX_BUF_LEN};
use axraw::error::NetError;
use axraw::raw::{
    GetSocketOption, PendingSend, RawSocket, Received, SendRoute, SetSocketOption, Shutdown,
};
use axraw::sockets::new_socket_set;
use smoltcp::iface::{Config, Interface, SocketSet};
use smoltcp::phy::{Loopback, Medium};
use smoltcp::time::Instant;
use smoltcp::wire::{HardwareAddress, IpCidr};

const LOCALHOST: IpAddress = IpAddress::Ipv4(0x7f00_0001);
const OTHER: IpAddress = IpAddress::Ipv4(0x0a00_0002);

fn ip(addr: IpAddress) -> SocketAddrEx {
    SocketAddrEx::Ip(SocketAddr { ip: addr, port: 0 })
}

fn echo_request(ident: u16, seq: u8, data: &[u8]) -> Vec<u8> {
    let mut message = vec![8, 0, 0, 0, (ident >> 8) as u8, ident as u8, 0, seq];
    message.extend_from_slice(data);
    message
}

fn prepare(
    socket: &mut RawSocket,
    sockets: &mut SocketSet<'static>,
    remote: IpAddress,
    message: Vec<u8>,
) -> Result<PendingSend, NetError> {
    let len = message.len();
    socket.send_prepare(sockets, SendRoute::Lookup(remote), Some(LOCALHOST), message, Ok(len))
}

fn loopback() -> (Loopback, Interface) {
    let mut device = Loopback::new(Medium::Ip);
    let mut iface = Interface::new(
        Config::new(HardwareAddress::Ip),
        &mut device,
        Instant::from_millis(0),
    );
    iface.update_ip_addrs(|addrs| {
        addrs
            .push(IpCidr::new(smoltcp::wire::IpAddress::v4(127, 0, 0, 1), 8))
            .unwrap();
    });
    (device, iface)
}

fn run(device: &mut Loopback, iface: &mut Interface, sockets: &mut SocketSet<'static>) {
    for millis in 1..10 {
        iface.poll(Instant::from_millis(millis), device, sockets);
    }
}

#[test]
fn a_new_socket_has_no_addresses_and_no_events() {
    let mut sockets = new_socket_set();
    let mut socket = RawSocket::new(&mut sockets);
    assert_eq!(RawSocket::local_addr(Some(&socket)), Err(NetError::NotConnected));
    assert_eq!(RawSocket::peer_addr(Some(&socket)), Err(NetError::NotConnected));
    assert_eq!(socket.poll(&sockets).bits(), 0);
    assert_eq!(socket.recv_begin(), Err(NetError::NotConnected));
    assert_eq!(socket.send_route(None), Err(NetError::NotConnected));
    assert_eq!(socket.bind(ip(LOCALHOST)), Ok(()));
    assert_eq!(socket.recv_begin(), Ok(()));
}

fn with_icmp_socket<R>(
    sockets: &SocketSet<'static>,
    f: impl Fn(&smoltcp::socket::icmp::Socket<'static>) -> R,
) -> R {
    match sockets.iter().next() {
        Some((_, smoltcp::socket::Socket::Icmp(inner))) => f(inner),
        _ => panic!("the set holds an ICMP socket"),
    }
}

#[test]
fn a_new_socket_has_both_buffers() {
    let mut sockets = new_socket_set();
    RawSocket::new(&mut sockets);
    with_icmp_socket(&sockets, |inner| {
        assert!(!inner.is_open() && !inner.can_recv() && inner.can_send());
        assert_eq!(inner.packet_recv_capacity(), 256);
        assert_eq!(inner.payload_recv_capacity(), UDP_RX_BUF_LEN);
        assert_eq!(inner.packet_send_capacity(), 256);
        assert_eq!(inner.payload_send_capacity(), UDP_TX_BUF_LEN);
        assert_eq!(inner.send_queue(), 0);
    });
}

#[test]
fn messages_are_queued_until_the_bytes_run_out() {
    let mut sockets = new_socket_set();
    let mut socket = RawSocket::new(&mut sockets);
    let half = prepare(&mut socket, &mut sockets, OTHER, vec![8; UDP_TX_BUF_LEN / 2]).unwrap();
    let small = prepare(&mut socket, &mut sockets, OTHER, echo_request(8, 1, b"")).unwrap();
    let empty = prepare(&mut socket, &mut sockets, OTHER, vec![]).unwrap();
    assert_eq!(socket.send_attempt(&mut sockets, &small), Ok(8));
    assert_eq!(socket.send_attempt(&mut sockets, &small), Ok(8));
    assert_eq!(socket.send_attempt(&mut sockets, &half), Ok(UDP_TX_BUF_LEN / 2));
    assert_eq!(socket.send_attempt(&mut sockets, &half), Err(NetError::WouldBlock));
    let rest = vec![8; UDP_TX_BUF_LEN / 2 - 16];
    let rest = prepare(&mut socket, &mut sockets, OTHER, rest).unwrap();
    assert_eq!(socket.send_attempt(&mut sockets, &rest), Ok(UDP_TX_BUF_LEN / 2 - 16));
    assert_eq!(socket.send_attempt(&mut sockets, &small), Err(NetError::WouldBlock));
    assert_eq!(socket.send_attempt(&mut sockets, &empty), Ok(0));
    with_icmp_socket(&sockets, |inner| assert_eq!(inner.send_queue(), UDP_TX_BUF_LEN));
}

#[test]
fn a_message_goes_to_the_beginning_of_the_ring_behind_a_filler() {
    let mut sockets = new_socket_set();
    let (mut device, mut iface) = loopback();
    let mut socket = RawSocket::new(&mut sockets);
    for len in [40000, 20000] {
        let message = echo_request(5, 1, &vec![7; len - 8]);
        let pending = prepare(&mut socket, &mut sockets, LOCALHOST, message).unwrap();
        assert_eq!(socket.send_attempt(&mut sockets, &pending), Ok(len));
    }
    iface.poll_egress(Instant::from_millis(1), &mut device, &mut sockets);
    with_icmp_socket(&sockets, |inner| assert_eq!(inner.send_queue(), 20000));
    // 5536 bytes are free at the end of the ring, and 40000 at its beginning.
    let longer = prepare(&mut socket, &mut sockets, LOCALHOST, vec![8; 40001]).unwrap();
    assert_eq!(socket.send_attempt(&mut sockets, &longer), Err(NetError::WouldBlock));
    with_icmp_socket(&sockets, |inner| assert_eq!(inner.send_queue(), 20000));
    let longest = prepare(&mut socket, &mut sockets, LOCALHOST, vec![8; 40000]).unwrap();
    assert_eq!(socket.send_attempt(&mut sockets, &longest), Ok(40000));
    with_icmp_socket(&sockets, |inner| assert_eq!(inner.send_queue(), UDP_TX_BUF_LEN));
}

#[test]
fn a_filler_that_takes_the_last_slot_stays() {
    let mut sockets = new_socket_set();
    let (mut device, mut iface) = loopback();
    let mut socket = RawSocket::new(&mut sockets);
    let message = echo_request(5, 1, &[7; 29992]);
    let large = prepare(&mut socket, &mut sockets, LOCALHOST, message).unwrap();
    let small = prepare(&mut socket, &mut sockets, LOCALHOST, echo_request(5, 1, b"")).unwrap();
    assert_eq!(socket.send_attempt(&mut sockets, &large), Ok(30000));
    assert_eq!(socket.send_attempt(&mut sockets, &large), Ok(30000));
    for _ in 0..254 {
        assert_eq!(socket.send_attempt(&mut sockets, &small), Ok(8));
    }
    iface.poll_egress(Instant::from_millis(1), &mut device, &mut sockets);
    with_icmp_socket(&sockets, |inner| {
        assert!(inner.can_send());
        assert_eq!(inner.send_queue(), 32032);
    });
    assert_eq!(socket.send_attempt(&mut sockets, &large), Err(NetError::WouldBlock));
    // The filler reaches from byte 62032 to the end of the ring.
    with_icmp_socket(&sockets, |inner| {
        assert!(!inner.can_send());
        assert_eq!(inner.send_queue(), 32032 + 3504);
    });
}

#[test]
fn a_drained_socket_takes_the_longest_message() {
    let mut sockets = new_socket_set();
    let (mut device, mut iface) = loopback();
    let mut socket = RawSocket::new(&mut sockets);
    let small = prepare(&mut socket, &mut sockets, LOCALHOST, echo_request(5, 1, b"")).unwrap();
    let longest = prepare(&mut socket, &mut sockets, LOCALHOST, vec![8; UDP_TX_BUF_LEN]).unwrap();
    assert_eq!(socket.send_attempt(&mut sockets, &small), Ok(8));
    assert_eq!(socket.send_attempt(&mut sockets, &longest), Err(NetError::WouldBlock));
    iface.poll_egress(Instant::from_millis(1), &mut device, &mut sockets);
    assert_eq!(socket.send_attempt(&mut sockets, &longest), Ok(UDP_TX_BUF_LEN));
}

#[test]
fn bind_works_once() {
    let mut sockets = new_socket_set();
    let mut socket = RawSocket::new(&mut sockets);
    let addr = SocketAddrEx::Ip(SocketAddr { ip: LOCALHOST, port: 53 });
    assert_eq!(socket.bind(addr), Ok(()));
    assert_eq!(socket.bind(ip(OTHER)), Err(NetError::InvalidInput));
    assert_eq!(RawSocket::local_addr(Some(&socket)), Ok(ip(LOCALHOST)));
}

#[test]
fn another_family_is_refused_before_anything_else() {
    let mut sockets = new_socket_set();
    let mut socket = RawSocket::new(&mut sockets);
    let addr = SocketAddrEx::NonIp(NetError::Os(97));
    assert_eq!(socket.bind(addr), Err(NetError::Os(97)));
    assert_eq!(socket.connect_begin(addr), Err(NetError::Os(97)));
    assert_eq!(socket.send_route(Some(addr)), Err(NetError::Os(97)));
    assert_eq!(RawSocket::local_addr(Some(&socket)), Err(NetError::NotConnected));
}

#[test]
fn a_held_socket_reports_no_address() {
    let mut sockets = new_socket_set();
    let mut socket = RawSocket::new(&mut sockets);
    socket.bind(ip(LOCALHOST)).unwrap();
    socket.connect_finish(OTHER, LOCALHOST);
    assert_eq!(RawSocket::local_addr(None), Err(NetError::NotConnected));
    assert_eq!(RawSocket::peer_addr(None), Err(NetError::NotConnected));
    assert_eq!(RawSocket::peer_addr(Some(&socket)), Ok(ip(OTHER)));
}

#[test]
fn connecting_settles_the_local_address_and_the_route() {
    let mut sockets = new_socket_set();
    let mut socket = RawSocket::new(&mut sockets);
    let remote = socket.connect_begin(ip(OTHER)).unwrap();
    assert_eq!(remote, OTHER);
    assert_eq!(RawSocket::local_addr(Some(&socket)), Ok(ip(IpAddress::Ipv4(0))));
    socket.connect_finish(remote, LOCALHOST);
    assert_eq!(RawSocket::peer_addr(Some(&socket)), Ok(ip(OTHER)));
    assert_eq!(socket.send_route(None), Ok(SendRoute::Known(OTHER, LOCALHOST)));
    assert_eq!(socket.send_route(Some(ip(LOCALHOST))), Ok(SendRoute::Lookup(LOCALHOST)));
}

#[test]
fn connecting_keeps_a_local_address() {
    let mut sockets = new_socket_set();
    let mut socket = RawSocket::new(&mut sockets);
    socket.bind(ip(LOCALHOST)).unwrap();
    socket.connect_begin(ip(OTHER)).unwrap();
    assert_eq!(RawSocket::local_addr(Some(&socket)), Ok(ip(LOCALHOST)));
}

#[test]
fn a_failed_read_settles_the_local_address_only() {
    let mut sockets = new_socket_set();
    let mut socket = RawSocket::new(&mut sockets);
    let route = SendRoute::Lookup(OTHER);
    let read = Err(NetError::Os(14));
    let failed = socket.send_prepare(&mut sockets, route, Some(LOCALHOST), vec![0; 16], read);
    assert!(matches!(failed, Err(NetError::Os(14))));
    assert_eq!(RawSocket::local_addr(Some(&socket)), Ok(ip(IpAddress::Ipv4(0))));
    assert!(matches!(socket.recv_attempt(&mut sockets), Err(NetError::NotConnected)));
}

#[test]
fn a_message_is_cut_to_what_was_read() {
    let mut sockets = new_socket_set();
    let mut socket = RawSocket::new(&mut sockets);
    let mut buf = echo_request(1, 1, b"abcd");
    buf.extend_from_slice(&[0; 20]);
    let route = SendRoute::Known(OTHER, LOCALHOST);
    let pending = socket.send_prepare(&mut sockets, route, None, buf, Ok(12)).unwrap();
    assert_eq!(socket.send_attempt(&mut sockets, &pending), Ok(12));
}

#[test]
fn a_queued_message_makes_its_route_the_default() {
    let mut sockets = new_socket_set();
    let mut socket = RawSocket::new(&mut sockets);
    let pending = prepare(&mut socket, &mut sockets, OTHER, echo_request(7, 1, b"x")).unwrap();
    assert_eq!(socket.send_route(None), Err(NetError::NotConnected));
    assert_eq!(socket.send_attempt(&mut sockets, &pending), Ok(9));
    assert_eq!(socket.send_route(None), Ok(SendRoute::Known(OTHER, LOCALHOST)));
    assert_eq!(RawSocket::peer_addr(Some(&socket)), Ok(ip(OTHER)));
}

#[test]
fn a_known_route_needs_no_lookup() {
    let mut sockets = new_socket_set();
    let mut socket = RawSocket::new(&mut sockets);
    socket.connect_finish(OTHER, LOCALHOST);
    let route = socket.send_route(None).unwrap();
    let message = echo_request(7, 1, b"x");
    let unused = Some(IpAddress::Ipv4(9));
    let pending = socket.send_prepare(&mut sockets, route, unused, message, Ok(9)).unwrap();
    assert_eq!(socket.send_attempt(&mut sockets, &pending), Ok(9));
    assert_eq!(socket.send_route(None), Ok(SendRoute::Known(OTHER, LOCALHOST)));
}

#[test]
fn a_wildcard_destination_is_refused() {
    let mut sockets = new_socket_set();
    let mut socket = RawSocket::new(&mut sockets);
    for remote in [IpAddress::Ipv4(0), IpAddress::Ipv6(0)] {
        let pending = prepare(&mut socket, &mut sockets, remote, echo_request(7, 1, b"x")).unwrap();
        assert_eq!(
            socket.send_attempt(&mut sockets, &pending),
            Err(NetError::ConnectionRefused)
        );
    }
    assert_eq!(RawSocket::peer_addr(Some(&socket)), Err(NetError::NotConnected));
}

#[test]
fn a_full_transmit_buffer_makes_senders_wait() {
    let mut sockets = new_socket_set();
    let mut socket = RawSocket::new(&mut sockets);
    let pending = prepare(&mut socket, &mut sockets, OTHER, echo_request(7, 1, b"")).unwrap();
    for _ in 0..256 {
        assert!(socket.poll(&sockets).intersects(IoEvents::OUT));
        assert_eq!(socket.send_attempt(&mut sockets, &pending), Ok(8));
    }
    assert_eq!(socket.poll(&sockets).bits(), 0);
    assert_eq!(socket.send_attempt(&mut sockets, &pending), Err(NetError::WouldBlock));
}

#[test]
fn a_message_longer_than_the_buffer_never_fits() {
    let mut sockets = new_socket_set();
    let mut socket = RawSocket::new(&mut sockets);
    let longest = prepare(&mut socket, &mut sockets, OTHER, vec![8; UDP_TX_BUF_LEN]).unwrap();
    let longer = prepare(&mut socket, &mut sockets, OTHER, vec![8; UDP_TX_BUF_LEN + 1]).unwrap();
    assert_eq!(socket.send_attempt(&mut sockets, &longer), Err(NetError::WouldBlock));
    assert_eq!(socket.send_attempt(&mut sockets, &longest), Ok(UDP_TX_BUF_LEN));
    assert_eq!(socket.send_attempt(&mut sockets, &longest), Err(NetError::WouldBlock));
}

#[test]
fn an_echo_reply_comes_back_after_the_request_is_dropped() {
    let mut sockets = new_socket_set();
    let (mut device, mut iface) = loopback();
    let mut socket = RawSocket::new(&mut sockets);
    let request = echo_request(0x1234, 9, b"payload");
    let pending = prepare(&mut socket, &mut sockets, LOCALHOST, request.clone()).unwrap();
    assert!(matches!(socket.recv_attempt(&mut sockets), Err(NetError::WouldBlock)));
    assert_eq!(socket.send_attempt(&mut sockets, &pending), Ok(request.len()));
    assert_eq!(socket.poll(&sockets).bits(), IoEvents::OUT.bits());

    run(&mut device, &mut iface, &mut sockets);

    // The loopback device delivers the request itself first, and then the reply to it.
    assert_eq!(socket.poll(&sockets).bits(), (IoEvents::IN | IoEvents::OUT).bits());
    assert!(matches!(socket.recv_attempt(&mut sockets), Err(NetError::WouldBlock)));
    let received = socket.recv_attempt(&mut sockets).unwrap();
    assert_eq!(received.remote, LOCALHOST);
    assert_eq!(received.payload[..2], [0, 0]);
    assert_eq!(received.payload[4..], request[4..]);
    assert_eq!(socket.poll(&sockets).bits(), IoEvents::OUT.bits());
    assert!(matches!(socket.recv_attempt(&mut sockets), Err(NetError::WouldBlock)));
}

#[test]
fn a_filler_in_the_receive_buffer_is_skipped() {
    let mut sockets = new_socket_set();
    let (mut device, mut iface) = loopback();
    let mut socket = RawSocket::new(&mut sockets);
    let request = echo_request(5, 1, &[7; 992]);
    let pending = prepare(&mut socket, &mut sockets, LOCALHOST, request.clone()).unwrap();
    // Requests and replies in turn: each pair takes 2000 bytes of the receive buffer.
    for _ in 0..32 {
        assert_eq!(socket.send_attempt(&mut sockets, &pending), Ok(1000));
        run(&mut device, &mut iface, &mut sockets);
    }
    for _ in 0..16 {
        assert!(matches!(socket.recv_attempt(&mut sockets), Err(NetError::WouldBlock)));
        assert_eq!(socket.recv_attempt(&mut sockets).unwrap().payload[4..], request[4..]);
    }
    // 64000 of 65536 bytes were taken: the next pair is split by a filler.
    assert_eq!(socket.send_attempt(&mut sockets, &pending), Ok(1000));
    run(&mut device, &mut iface, &mut sockets);
    for _ in 0..17 {
        assert!(matches!(socket.recv_attempt(&mut sockets), Err(NetError::WouldBlock)));
        assert_eq!(socket.recv_attempt(&mut sockets).unwrap().payload[4..], request[4..]);
    }
    assert!(!socket.poll(&sockets).intersects(IoEvents::IN));
}

#[test]
fn the_first_request_decides_the_identifier() {
    let mut sockets = new_socket_set();
    let (mut device, mut iface) = loopback();
    let mut socket = RawSocket::new(&mut sockets);
    let first = prepare(&mut socket, &mut sockets, LOCALHOST, echo_request(5, 1, b"a")).unwrap();
    let second = prepare(&mut socket, &mut sockets, LOCALHOST, echo_request(6, 2, b"b")).unwrap();
    assert_eq!(socket.send_attempt(&mut sockets, &second), Ok(9));
    run(&mut device, &mut iface, &mut sockets);
    // Replies to identifier 6 are not for a socket that is bound to 5.
    assert!(matches!(socket.recv_attempt(&mut sockets), Err(NetError::WouldBlock)));
    assert!(!socket.poll(&sockets).intersects(IoEvents::IN));
    assert_eq!(socket.send_attempt(&mut sockets, &first), Ok(9));
    run(&mut device, &mut iface, &mut sockets);
    assert!(matches!(socket.recv_attempt(&mut sockets), Err(NetError::WouldBlock)));
    assert_eq!(socket.recv_attempt(&mut sockets).unwrap().payload[8..], b"a"[..]);
}

#[test]
fn a_first_message_that_is_no_request_binds_to_zero() {
    let mut sockets = new_socket_set();
    let (mut device, mut iface) = loopback();
    let mut socket = RawSocket::new(&mut sockets);
    prepare(&mut socket, &mut sockets, LOCALHOST, vec![8, 0, 0, 0, 0, 5, 0]).unwrap();
    let zero = prepare(&mut socket, &mut sockets, LOCALHOST, echo_request(0, 1, b"z")).unwrap();
    assert_eq!(socket.send_attempt(&mut sockets, &zero), Ok(9));
    run(&mut device, &mut iface, &mut sockets);
    assert!(matches!(socket.recv_attempt(&mut sockets), Err(NetError::WouldBlock)));
    assert_eq!(socket.recv_attempt(&mut sockets).unwrap().payload[8..], b"z"[..]);
}

#[test]
fn a_socket_that_others_opened_is_refused() {
    let mut sockets = new_socket_set();
    let mut socket = RawSocket::new(&mut sockets);
    for (_, other) in sockets.iter_mut() {
        match other {
            smoltcp::socket::Socket::Icmp(inner) => {
                inner.bind(smoltcp::socket::icmp::Endpoint::Ident(3)).unwrap();
            }
            _ => panic!("the set holds ICMP sockets only"),
        }
    }
    let refused = prepare(&mut socket, &mut sockets, OTHER, echo_request(5, 1, b"a"));
    assert!(matches!(refused, Err(NetError::InvalidInput)));
    let refused = prepare(&mut socket, &mut sockets, OTHER, vec![1, 2, 3]);
    assert!(matches!(refused, Err(NetError::InvalidInput)));
}

#[test]
fn the_receive_size_follows_the_truncate_flag() {
    let received = Received { payload: vec![0; 20], remote: OTHER };
    assert_eq!(RawSocket::recv_finish(&received, Ok(12), false), Ok((12, ip(OTHER))));
    assert_eq!(RawSocket::recv_finish(&received, Ok(12), true), Ok((20, ip(OTHER))));
    assert_eq!(
        RawSocket::recv_finish(&received, Err(NetError::Os(14)), true),
        Err(NetError::Os(14))
    );
}

#[test]
fn options_are_answered_and_set() {
    let mut sockets = new_socket_set();
    let socket = RawSocket::new(&mut sockets);
    let mut option = GetSocketOption::Ttl(0);
    assert_eq!(socket.get_option_inner(&sockets, Ok(false), &mut option), Ok(true));
    assert_eq!(option, GetSocketOption::Ttl(64));
    assert_eq!(
        socket.set_option_inner(&mut sockets, Ok(false), SetSocketOption::Ttl(9)),
        Ok(true)
    );
    assert_eq!(socket.get_option_inner(&sockets, Ok(false), &mut option), Ok(true));
    assert_eq!(option, GetSocketOption::Ttl(9));
    option = GetSocketOption::SendBuffer(0);
    assert_eq!(socket.get_option_inner(&sockets, Ok(false), &mut option), Ok(true));
    assert_eq!(option, GetSocketOption::SendBuffer(UDP_TX_BUF_LEN));
    option = GetSocketOption::ReceiveBuffer(0);
    assert_eq!(socket.get_option_inner(&sockets, Ok(false), &mut option), Ok(true));
    assert_eq!(option, GetSocketOption::ReceiveBuffer(UDP_RX_BUF_LEN));
    option = GetSocketOption::Other;
    assert_eq!(socket.get_option_inner(&sockets, Ok(false), &mut option), Ok(false));
    assert_eq!(
        socket.set_option_inner(&mut sockets, Ok(false), SetSocketOption::Other),
        Ok(false)
    );
}

#[test]
fn general_options_come_first() {
    let mut sockets = new_socket_set();
    let socket = RawSocket::new(&mut sockets);
    let mut option = GetSocketOption::Ttl(1);
    assert_eq!(socket.get_option_inner(&sockets, Ok(true), &mut option), Ok(true));
    assert_eq!(
        socket.get_option_inner(&sockets, Err(NetError::Os(22)), &mut option),
        Err(NetError::Os(22))
    );
    assert_eq!(option, GetSocketOption::Ttl(1));
    let set = SetSocketOption::Ttl(9);
    assert_eq!(socket.set_option_inner(&mut sockets, Ok(true), set), Ok(true));
    assert_eq!(
        socket.set_option_inner(&mut sockets, Err(NetError::Os(22)), set),
        Err(NetError::Os(22))
    );
    socket.get_option_inner(&sockets, Ok(false), &mut option).unwrap();
    assert_eq!(option, GetSocketOption::Ttl(64));
}

#[test]
fn sockets_do_not_touch_each_other() {
    let mut sockets = new_socket_set();
    let mut first = RawSocket::new(&mut sockets);
    let second = RawSocket::new(&mut sockets);
    first.set_option_inner(&mut sockets, Ok(false), SetSocketOption::Ttl(9)).unwrap();
    let pending = prepare(&mut first, &mut sockets, OTHER, echo_request(5, 1, b"a")).unwrap();
    first.send_attempt(&mut sockets, &pending).unwrap();
    let mut option = GetSocketOption::Ttl(0);
    second.get_option_inner(&sockets, Ok(false), &mut option).unwrap();
    assert_eq!(option, GetSocketOption::Ttl(64));
    assert!(matches!(second.recv_attempt(&mut sockets), Err(NetError::NotConnected)));
    assert_eq!(sockets.iter().count(), 2);
    second.release(&mut sockets);
    assert_eq!(sockets.iter().count(), 1);
    first.get_option_inner(&sockets, Ok(false), &mut option).unwrap();
    assert_eq!(option, GetSocketOption::Ttl(9));
}

#[test]
fn an_ipv6_message_is_queued() {
    let mut sockets = new_socket_set();
    let mut socket = RawSocket::new(&mut sockets);
    let pending =
        prepare(&mut socket, &mut sockets, IpAddress::Ipv6(1), echo_request(5, 1, b"a")).unwrap();
    assert_eq!(socket.send_attempt(&mut sockets, &pending), Ok(9));
    assert_eq!(RawSocket::peer_addr(Some(&socket)), Ok(ip(IpAddress::Ipv6(1))));
}

#[test]
fn shutdown_always_succeeds() {
    let mut sockets = new_socket_set();
    let socket = RawSocket::new(&mut sockets);
    assert_eq!(socket.shutdown(Shutdown::Read), Ok(()));
    assert_eq!(socket.shutdown(Shutdown::Write), Ok(()));
    assert_eq!(socket.shutdown(Shutdown::Both), Ok(()));
}
