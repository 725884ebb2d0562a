//! What the calls of a raw socket answer, told in the bytes, addresses and buffers that go in and
//! come out.
//!
//! A law here speaks of every way in which a call can end: of a call with the given arguments that
//! ended with the given result.
use axpoll::IoEvents;
use smoltcp::iface::{SocketHandle, SocketSet};
use vstd::prelude::*;

use crate::addr::{IpAddress, SocketAddr, SocketAddrEx};
use crate::error::NetError;
use crate::events::{event_bits, readiness, wants_wakeup};
use crate::message::{check_echo_reply, echo_request_ident};
use crate::raw::{
    GetSocketOption, PendingSend, RawSocket, Received, SendRoute, SetSocketOption, Shutdown,
};
use crate::smol::{
    smol_endpoint, smol_hop_limit, smol_rx, smol_rx_bytes, smol_rx_slots, smol_tx, smol_tx_at,
    smol_tx_bytes, smol_tx_slots, smol_tx_used, SmolEndpoint, SmolSocket,
};
use crate::sockets::{new_socket_set, smol_sockets, socket_set_grows};

verus! {

/// Whether the two sockets have the same receive buffer, with the same messages in it.
pub open spec fn same_receive_side(a: SmolSocket, b: SmolSocket) -> bool {
    &&& smol_rx(a) == smol_rx(b)
    &&& smol_rx_slots(a) == smol_rx_slots(b)
    &&& smol_rx_bytes(a) == smol_rx_bytes(b)
}

/// Whether the two sockets have the same transmit buffer, with the same messages in it.
pub open spec fn same_transmit_side(a: SmolSocket, b: SmolSocket) -> bool {
    &&& smol_tx(a) == smol_tx(b)
    &&& smol_tx_slots(a) == smol_tx_slots(b)
    &&& smol_tx_bytes(a) == smol_tx_bytes(b)
    &&& smol_tx_used(a) == smol_tx_used(b)
    &&& smol_tx_at(a) == smol_tx_at(b)
}

/// Whether the two sets have the same sockets, but for the one under the handle, and the later one
/// has that one too.
pub open spec fn same_others(
    before: SocketSet<'static>,
    after: SocketSet<'static>,
    handle: SocketHandle,
) -> bool {
    &&& smol_sockets(after).dom().contains(handle)
    &&& forall|other: SocketHandle|
        other != handle ==> {
            &&& #[trigger] smol_sockets(after).dom().contains(other) == smol_sockets(
                before,
            ).dom().contains(other)
            &&& smol_sockets(after)[other] == smol_sockets(before)[other]
        }
    &&& socket_set_grows(after) == socket_set_grows(before)
}

/// A new set holds no socket and takes any number of them.
pub proof fn law_new_socket_set_is_empty(r: SocketSet<'static>)
    requires
        call_ensures(new_socket_set, (), r),
    ensures
        forall|handle: SocketHandle| !(#[trigger] smol_sockets(r).dom().contains(handle)),
        socket_set_grows(r),
{
}

/// A new raw socket remembers nothing. Its ICMP socket, which takes no other socket's place, is
/// closed and without a hop limit; both of its buffers are empty, and each has 256 slots and 64 KiB.
pub proof fn law_new_makes_a_closed_and_empty_socket(
    sockets: &mut SocketSet<'static>,
    r: RawSocket,
)
    requires
        call_ensures(RawSocket::new, (sockets,), r),
    ensures
        r@.local_addr is None,
        r@.peer_addr is None,
        r@.ident is None,
        !r@.bound,
        !smol_sockets(*old(sockets)).dom().contains(r@.handle),
        same_others(*old(sockets), *final(sockets), r@.handle),
        ({
            let socket = smol_sockets(*final(sockets))[r@.handle];
            &&& smol_endpoint(socket) is Unspecified
            &&& smol_hop_limit(socket) is None
            &&& smol_rx(socket).len() == 0
            &&& smol_rx_slots(socket) == 256
            &&& smol_rx_bytes(socket) == 65536
            &&& smol_tx(socket).len() == 0
            &&& smol_tx_slots(socket) == 256
            &&& smol_tx_bytes(socket) == 65536
            &&& smol_tx_used(socket) == 0
            &&& smol_tx_at(socket) == 0
        }),
{
}

/// A socket that is given up leaves the set, and no other socket changes.
pub proof fn law_release_takes_out_one_socket(socket: RawSocket, sockets: &mut SocketSet<'static>)
    requires
        call_ensures(RawSocket::release, (socket, sockets), ()),
    ensures
        !smol_sockets(*final(sockets)).dom().contains(socket@.handle),
        forall|other: SocketHandle|
            other != socket@.handle ==> {
                &&& #[trigger] smol_sockets(*final(sockets)).dom().contains(other) == smol_sockets(
                    *old(sockets),
                ).dom().contains(other)
                &&& smol_sockets(*final(sockets))[other] == smol_sockets(*old(sockets))[other]
            },
        socket_set_grows(*final(sockets)) == socket_set_grows(*old(sockets)),
{
}

/// An IP address is taken as it is; an address of another family gives the error that it carries.
pub proof fn law_into_ip_takes_every_ip_address(
    addr: SocketAddrEx,
    r: Result<SocketAddr, NetError>,
)
    requires
        call_ensures(SocketAddrEx::into_ip, (addr,), r),
    ensures
        addr matches SocketAddrEx::Ip(ip_addr) ==> r == Ok::<SocketAddr, NetError>(ip_addr),
        addr matches SocketAddrEx::NonIp(error) ==> r == Err::<SocketAddr, NetError>(error),
{
}

/// The first `bind` to an IP address succeeds, and the address is then the local one; a second is
/// refused. A refused call changes nothing, and no call changes anything but the local address.
pub proof fn law_bind_settles_the_local_address_once(
    socket: &mut RawSocket,
    addr: SocketAddrEx,
    r: Result<(), NetError>,
)
    requires
        call_ensures(RawSocket::bind, (socket, addr), r),
    ensures
        addr matches SocketAddrEx::NonIp(error) ==> {
            &&& r == Err::<(), NetError>(error)
            &&& final(socket)@.local_addr == old(socket)@.local_addr
        },
        addr is Ip && old(socket)@.local_addr is Some ==> {
            &&& r == Err::<(), NetError>(NetError::InvalidInput)
            &&& final(socket)@.local_addr == old(socket)@.local_addr
        },
        addr is Ip && old(socket)@.local_addr is None ==> {
            &&& r == Ok::<(), NetError>(())
            &&& final(socket)@.local_addr == Some(addr->Ip_0.ip)
        },
        final(socket)@.handle == old(socket)@.handle,
        final(socket)@.peer_addr == old(socket)@.peer_addr,
        final(socket)@.ident == old(socket)@.ident,
        final(socket)@.bound == old(socket)@.bound,
{
}

/// Every IP address can be connected to: its source address is what is to be looked up, and the
/// socket then has a local address, `0.0.0.0` unless it had one. An address of another family is
/// refused with the error that it carries, and nothing changes.
pub proof fn law_connect_begins_for_every_ip_address(
    socket: &mut RawSocket,
    addr: SocketAddrEx,
    r: Result<IpAddress, NetError>,
)
    requires
        call_ensures(RawSocket::connect_begin, (socket, addr), r),
    ensures
        addr matches SocketAddrEx::Ip(ip_addr) ==> {
            &&& r == Ok::<IpAddress, NetError>(ip_addr.ip)
            &&& old(socket)@.local_addr is None ==> final(socket)@.local_addr == Some(
                IpAddress::Ipv4(0),
            )
            &&& old(socket)@.local_addr is Some ==> final(socket)@.local_addr == old(
                socket,
            )@.local_addr
        },
        addr matches SocketAddrEx::NonIp(error) ==> {
            &&& r == Err::<IpAddress, NetError>(error)
            &&& final(socket)@.local_addr == old(socket)@.local_addr
        },
        final(socket)@.handle == old(socket)@.handle,
        final(socket)@.peer_addr == old(socket)@.peer_addr,
        final(socket)@.ident == old(socket)@.ident,
        final(socket)@.bound == old(socket)@.bound,
{
}

/// Once the source address is known, the socket has its peer. Nothing else changes.
pub proof fn law_connect_finishes_with_the_peer(
    socket: &mut RawSocket,
    remote: IpAddress,
    source: IpAddress,
)
    requires
        call_ensures(RawSocket::connect_finish, (socket, remote, source), ()),
    ensures
        final(socket)@.peer_addr == Some((remote, source)),
        final(socket)@.handle == old(socket)@.handle,
        final(socket)@.local_addr == old(socket)@.local_addr,
        final(socket)@.ident == old(socket)@.ident,
        final(socket)@.bound == old(socket)@.bound,
{
}

/// A message with an IP address goes to that address; one without goes to the peer, if there is one.
pub proof fn law_route_is_the_address_or_the_peer(
    socket: &RawSocket,
    to: Option<SocketAddrEx>,
    r: Result<SendRoute, NetError>,
)
    requires
        call_ensures(RawSocket::send_route, (socket, to), r),
    ensures
        to matches Some(SocketAddrEx::Ip(ip_addr)) ==> r == Ok::<SendRoute, NetError>(
            SendRoute::Lookup(ip_addr.ip),
        ),
        to matches Some(SocketAddrEx::NonIp(error)) ==> r == Err::<SendRoute, NetError>(error),
        to is None ==> (socket@.peer_addr matches Some(ends) ==> r == Ok::<SendRoute, NetError>(
            SendRoute::Known(ends.0, ends.1),
        )),
        to is None && socket@.peer_addr is None ==> r == Err::<SendRoute, NetError>(
            NetError::NotConnected,
        ),
{
}

/// A prepared message is the bytes that were read, all of them and no others, in their order, and
/// its route is the one that was asked for. Whatever was read can be prepared, unless somebody else
/// has opened the ICMP socket; a message that could not be read gives the reader's error.
pub proof fn law_prepared_message_is_what_was_read(
    socket: &mut RawSocket,
    sockets: &mut SocketSet<'static>,
    route: SendRoute,
    looked_up: Option<IpAddress>,
    buf: Vec<u8>,
    read: Result<usize, NetError>,
    r: Result<PendingSend, NetError>,
)
    requires
        call_ensures(RawSocket::send_prepare, (socket, sockets, route, looked_up, buf, read), r),
    ensures
        r matches Ok(pending) ==> {
            &&& read matches Ok(len) && {
                &&& len <= buf@.len() ==> pending@.payload.len() == len
                &&& len > buf@.len() ==> pending@.payload.len() == buf@.len()
            }
            &&& forall|i: int|
                0 <= i < pending@.payload.len() ==> #[trigger] pending@.payload[i] == buf@[i]
            &&& route matches SendRoute::Lookup(remote) ==> {
                &&& pending@.remote == remote
                &&& looked_up matches Some(source) ==> pending@.source == source
            }
            &&& route matches SendRoute::Known(remote, source) ==> pending@.remote == remote
                && pending@.source == source
        },
        read is Ok && (old(socket)@.bound || smol_endpoint(
            smol_sockets(*old(sockets))[old(socket)@.handle],
        ) is Unspecified) ==> r is Ok,
        read is Ok && !old(socket)@.bound && !(smol_endpoint(
            smol_sockets(*old(sockets))[old(socket)@.handle],
        ) is Unspecified) ==> (r matches Err(error) && error == NetError::InvalidInput),
        read matches Err(error) ==> (r matches Err(given) && given == error),
{
}

/// The first message binds the ICMP socket: to the identifier in the fifth and sixth byte of an echo
/// request, the higher byte first, or else to zero. Later messages, and messages that could not be
/// read, leave it as it is bound.
pub proof fn law_first_message_binds_to_its_identifier(
    socket: &mut RawSocket,
    sockets: &mut SocketSet<'static>,
    route: SendRoute,
    looked_up: Option<IpAddress>,
    buf: Vec<u8>,
    read: Result<usize, NetError>,
    r: Result<PendingSend, NetError>,
)
    requires
        call_ensures(RawSocket::send_prepare, (socket, sockets, route, looked_up, buf, read), r),
    ensures
        ({
            let endpoint = smol_endpoint(smol_sockets(*old(sockets))[old(socket)@.handle]);
            let after = smol_endpoint(smol_sockets(*final(sockets))[old(socket)@.handle]);
            &&& !old(socket)@.bound && endpoint is Unspecified ==> (read matches Ok(len) ==> {
                let request = len >= 8 && buf@.len() >= 8 && buf@[0] == 8;
                &&& final(socket)@.bound
                &&& request ==> {
                    &&& final(socket)@.ident is Some
                    &&& final(socket)@.ident->0 == buf@[4] * 256 + buf@[5]
                    &&& after == SmolEndpoint::Ident(final(socket)@.ident->0)
                }
                &&& !request ==> {
                    &&& final(socket)@.ident == old(socket)@.ident
                    &&& after == SmolEndpoint::Ident(0)
                }
            })
            &&& old(socket)@.bound || read is Err ==> {
                &&& final(socket)@.bound == old(socket)@.bound
                &&& final(socket)@.ident == old(socket)@.ident
                &&& after == endpoint
            }
            &&& !(endpoint is Unspecified) ==> {
                &&& final(socket)@.bound == old(socket)@.bound
                &&& after == endpoint
            }
            &&& !old(socket)@.bound && !(endpoint is Unspecified) ==> (read matches Ok(len) ==> {
                let request = len >= 8 && buf@.len() >= 8 && buf@[0] == 8;
                &&& request ==> final(socket)@.ident is Some && final(socket)@.ident->0 == buf@[4]
                    * 256 + buf@[5]
                &&& !request ==> final(socket)@.ident == old(socket)@.ident
            })
        }),
{
}

/// Preparing a message gives the socket a local address, `0.0.0.0` unless it had one. The peer, the
/// hop limit, both buffers and all other sockets stay as they are.
pub proof fn law_prepare_settles_the_local_address(
    socket: &mut RawSocket,
    sockets: &mut SocketSet<'static>,
    route: SendRoute,
    looked_up: Option<IpAddress>,
    buf: Vec<u8>,
    read: Result<usize, NetError>,
    r: Result<PendingSend, NetError>,
)
    requires
        call_ensures(RawSocket::send_prepare, (socket, sockets, route, looked_up, buf, read), r),
    ensures
        old(socket)@.local_addr is None ==> final(socket)@.local_addr == Some(IpAddress::Ipv4(0)),
        old(socket)@.local_addr is Some ==> final(socket)@.local_addr == old(socket)@.local_addr,
        final(socket)@.handle == old(socket)@.handle,
        final(socket)@.peer_addr == old(socket)@.peer_addr,
        same_others(*old(sockets), *final(sockets), old(socket)@.handle),
        ({
            let before = smol_sockets(*old(sockets))[old(socket)@.handle];
            let after = smol_sockets(*final(sockets))[old(socket)@.handle];
            &&& smol_hop_limit(after) == smol_hop_limit(before)
            &&& same_receive_side(before, after)
            &&& same_transmit_side(before, after)
        }),
{
}

/// An attempt queues the whole prepared message for its remote address, behind the others, and
/// answers with its length, if the socket is open, the remote address is not `0.0.0.0` or `::`, a
/// slot is free, and the free bytes hold the message in one piece: behind the last message, or, with
/// a filler and its slot in between, at the beginning of the ring. Otherwise no message is queued:
/// a closed socket gives `NotConnected`, an address of all zeros `ConnectionRefused`, and want of
/// room `WouldBlock`.
pub proof fn law_attempt_queues_the_whole_message(
    socket: &mut RawSocket,
    sockets: &mut SocketSet<'static>,
    pending: &PendingSend,
    r: Result<usize, NetError>,
)
    requires
        call_ensures(RawSocket::send_attempt, (socket, sockets, pending), r),
        ({
            let before = smol_sockets(*old(sockets))[old(socket)@.handle];
            smol_tx_used(before) <= smol_tx_bytes(before) && smol_tx_at(before) < smol_tx_bytes(before)
        }),
    ensures
        ({
            let before = smol_sockets(*old(sockets))[old(socket)@.handle];
            let after = smol_sockets(*final(sockets))[old(socket)@.handle];
            let slots = smol_tx_slots(before);
            let taken = smol_tx(before);
            let used = smol_tx_used(before);
            let len = pending@.payload.len();
            let message = Some((pending@.remote, pending@.payload));
            let free = smol_tx_bytes(before) - used;
            let to_end = smol_tx_bytes(before) - if used == 0 {
                0
            } else {
                smol_tx_at(before) as int
            };
            let open = !(smol_endpoint(before) is Unspecified);
            let wildcard = pending@.remote == IpAddress::Ipv4(0) || pending@.remote
                == IpAddress::Ipv6(0);
            let ready = open && taken.len() < slots && !wildcard;
            let behind = len <= free && len <= to_end;
            let around = !behind && to_end < free && len <= free - to_end;
            &&& ready && behind ==> {
                &&& r is Ok
                &&& r->Ok_0 == len
                &&& smol_tx(after) == taken.push(message)
                &&& smol_tx_used(after) == used + len
                &&& smol_tx_at(after) == if len == to_end {
                    0
                } else {
                    smol_tx_bytes(before) - to_end + len
                }
            }
            &&& ready && around && taken.len() + 1 < slots ==> {
                &&& r is Ok
                &&& r->Ok_0 == len
                &&& smol_tx(after) == taken.push(None).push(message)
                &&& smol_tx_used(after) == used + to_end + len
                &&& smol_tx_at(after) == len
            }
            &&& ready && around && taken.len() + 1 >= slots ==> {
                &&& r == Err::<usize, NetError>(NetError::WouldBlock)
                &&& smol_tx(after) == taken.push(None)
                &&& smol_tx_used(after) == used + to_end
                &&& smol_tx_at(after) == 0
            }
            &&& ready && !behind && !around ==> {
                &&& r == Err::<usize, NetError>(NetError::WouldBlock)
                &&& same_transmit_side(before, after)
            }
            &&& !open ==> r == Err::<usize, NetError>(NetError::NotConnected)
            &&& open && taken.len() >= slots ==> r == Err::<usize, NetError>(NetError::WouldBlock)
            &&& open && taken.len() < slots && wildcard ==> r == Err::<usize, NetError>(
                NetError::ConnectionRefused,
            )
            &&& !ready ==> same_transmit_side(before, after)
        }),
{
}

/// An attempt that succeeds makes the message's route that of the socket; one that fails leaves the
/// peer as it was. Nothing else of the socket changes, nor do its receive buffer, its identifier,
/// its hop limit, the sizes of its buffers or other sockets.
pub proof fn law_attempt_records_the_peer(
    socket: &mut RawSocket,
    sockets: &mut SocketSet<'static>,
    pending: &PendingSend,
    r: Result<usize, NetError>,
)
    requires
        call_ensures(RawSocket::send_attempt, (socket, sockets, pending), r),
    ensures
        r is Ok ==> final(socket)@.peer_addr == Some((pending@.remote, pending@.source)),
        r is Err ==> final(socket)@.peer_addr == old(socket)@.peer_addr,
        final(socket)@.handle == old(socket)@.handle,
        final(socket)@.local_addr == old(socket)@.local_addr,
        final(socket)@.ident == old(socket)@.ident,
        final(socket)@.bound == old(socket)@.bound,
        same_others(*old(sockets), *final(sockets), old(socket)@.handle),
        ({
            let before = smol_sockets(*old(sockets))[old(socket)@.handle];
            let after = smol_sockets(*final(sockets))[old(socket)@.handle];
            &&& smol_endpoint(after) == smol_endpoint(before)
            &&& smol_hop_limit(after) == smol_hop_limit(before)
            &&& same_receive_side(before, after)
            &&& smol_tx_slots(after) == smol_tx_slots(before)
            &&& smol_tx_bytes(after) == smol_tx_bytes(before)
        }),
{
}

/// Every byte that was read is sent: a message that was prepared from a buffer and then queued
/// stands last in the transmit buffer, for the remote address of its route, with exactly the bytes
/// that were read, and the answer is how many they are.
pub proof fn law_every_byte_that_was_read_is_queued(
    preparing: &mut RawSocket,
    before: &mut SocketSet<'static>,
    route: SendRoute,
    looked_up: Option<IpAddress>,
    buf: Vec<u8>,
    len: usize,
    pending: PendingSend,
    sending: &mut RawSocket,
    sockets: &mut SocketSet<'static>,
    sent: usize,
)
    requires
        len <= buf@.len(),
        call_ensures(
            RawSocket::send_prepare,
            (preparing, before, route, looked_up, buf, Ok::<usize, NetError>(len)),
            Ok::<PendingSend, NetError>(pending),
        ),
        call_ensures(
            RawSocket::send_attempt,
            (sending, sockets, &pending),
            Ok::<usize, NetError>(sent),
        ),
    ensures
        sent == len,
        ({
            let queue = smol_tx(smol_sockets(*final(sockets))[old(sending)@.handle]);
            &&& queue.len() > 0
            &&& queue.last() matches Some((to, message))
            &&& message.len() == len
            &&& forall|i: int| 0 <= i < len ==> #[trigger] message[i] == buf@[i]
            &&& match route {
                SendRoute::Lookup(remote) => to == remote,
                SendRoute::Known(remote, _) => to == remote,
            }
        }),
{
}

/// A socket can receive exactly if it has a local address.
pub proof fn law_receiving_takes_a_local_address(socket: &RawSocket, r: Result<(), NetError>)
    requires
        call_ensures(RawSocket::recv_begin, (socket,), r),
    ensures
        socket@.local_addr is Some ==> r == Ok::<(), NetError>(()),
        socket@.local_addr is None ==> r == Err::<(), NetError>(NetError::NotConnected),
{
}

/// A receive attempt on an open socket takes the oldest message out of the receive buffer, and a
/// filler in front of it. If the message has at least eight bytes, of which the first two are zero,
/// it is delivered, whole and with its sender; otherwise it is dropped, and the caller waits.
pub proof fn law_oldest_reply_is_delivered_whole(
    socket: &RawSocket,
    sockets: &mut SocketSet<'static>,
    r: Result<Received, NetError>,
    sender: IpAddress,
    message: Seq<u8>,
)
    requires
        call_ensures(RawSocket::recv_attempt, (socket, sockets), r),
        ({
            let before = smol_sockets(*old(sockets))[socket@.handle];
            &&& !(smol_endpoint(before) is Unspecified)
            &&& smol_rx(before).len() > 0
            &&& smol_rx(before)[0] == Some((sender, message)) || {
                &&& smol_rx(before)[0] is None
                &&& smol_rx(before).len() > 1
                &&& smol_rx(before)[1] == Some((sender, message))
            }
        }),
    ensures
        message.len() >= 8 && message[0] == 0 && message[1] == 0 ==> (r matches Ok(received) && {
            &&& received.payload@.len() == message.len()
            &&& forall|i: int|
                0 <= i < message.len() ==> #[trigger] received.payload@[i] == message[i]
            &&& received.remote == sender
        }),
        message.len() < 8 || message[0] != 0 || message[1] != 0 ==> (r matches Err(error) && error
            == NetError::WouldBlock),
        ({
            let before = smol_rx(smol_sockets(*old(sockets))[socket@.handle]);
            let after = smol_rx(smol_sockets(*final(sockets))[socket@.handle]);
            let taken: int = if before[0] is None {
                2
            } else {
                1
            };
            &&& after.len() == before.len() - taken
            &&& forall|i: int| 0 <= i < after.len() ==> #[trigger] after[i] == before[i + taken]
        }),
{
}

/// A receive attempt that finds no message delivers none: on a closed socket it gives
/// `NotConnected`, and on an open one, with nothing or a lone filler in the receive buffer,
/// `WouldBlock`.
pub proof fn law_nothing_is_delivered_without_a_message(
    socket: &RawSocket,
    sockets: &mut SocketSet<'static>,
    r: Result<Received, NetError>,
)
    requires
        call_ensures(RawSocket::recv_attempt, (socket, sockets), r),
    ensures
        ({
            let before = smol_sockets(*old(sockets))[socket@.handle];
            let after = smol_sockets(*final(sockets))[socket@.handle];
            &&& smol_endpoint(before) is Unspecified ==> {
                &&& r matches Err(error)
                &&& error == NetError::NotConnected
                &&& smol_rx(after) == smol_rx(before)
            }
            &&& !(smol_endpoint(before) is Unspecified) && (smol_rx(before).len() == 0 || smol_rx(
                before,
            ).len() == 1 && smol_rx(before)[0] is None) ==> {
                &&& r matches Err(error)
                &&& error == NetError::WouldBlock
                &&& smol_rx(after).len() == 0
            }
        }),
{
}

/// A receive attempt changes nothing but the messages in the receive buffer of its own socket.
pub proof fn law_receiving_changes_the_receive_buffer_only(
    socket: &RawSocket,
    sockets: &mut SocketSet<'static>,
    r: Result<Received, NetError>,
)
    requires
        call_ensures(RawSocket::recv_attempt, (socket, sockets), r),
    ensures
        same_others(*old(sockets), *final(sockets), socket@.handle),
        ({
            let before = smol_sockets(*old(sockets))[socket@.handle];
            let after = smol_sockets(*final(sockets))[socket@.handle];
            &&& smol_endpoint(after) == smol_endpoint(before)
            &&& smol_hop_limit(after) == smol_hop_limit(before)
            &&& smol_rx_slots(after) == smol_rx_slots(before)
            &&& smol_rx_bytes(after) == smol_rx_bytes(before)
            &&& same_transmit_side(before, after)
        }),
{
}

/// A receive call answers with the sender, at port zero, and with as many bytes as were written, or,
/// with `truncate`, as the message has. A failed write gives its error.
pub proof fn law_receive_tells_size_and_sender(
    received: &Received,
    written: Result<usize, NetError>,
    truncate: bool,
    r: Result<(usize, SocketAddrEx), NetError>,
)
    requires
        call_ensures(RawSocket::recv_finish, (received, written, truncate), r),
    ensures
        written matches Err(error) ==> r == Err::<(usize, SocketAddrEx), NetError>(error),
        written matches Ok(len) ==> {
            &&& r is Ok
            &&& truncate ==> r->Ok_0.0 == received.payload@.len()
            &&& !truncate ==> r->Ok_0.0 == len
            &&& r->Ok_0.1 is Ip
            &&& r->Ok_0.1->Ip_0.ip == received.remote
            &&& r->Ok_0.1->Ip_0.port == 0
        },
{
}

/// A message is an echo reply exactly if it has at least eight bytes and the first two are zero,
/// whatever the others are.
pub proof fn law_reply_is_known_by_its_first_two_bytes(message: &Vec<u8>, r: bool)
    requires
        call_ensures(check_echo_reply, (message,), r),
    ensures
        r <==> message@.len() >= 8 && message@[0] == 0 && message@[1] == 0,
{
}

/// Every message of at least eight bytes that begins with an eight is an echo request, and its
/// identifier is the fifth byte times 256 and the sixth.
pub proof fn law_request_carries_its_identifier(message: &Vec<u8>, r: Option<u16>)
    requires
        call_ensures(echo_request_ident, (message,), r),
    ensures
        r is Some <==> message@.len() >= 8 && message@[0] == 8,
        r matches Some(ident) ==> ident == message@[4] * 256 + message@[5],
{
}

/// A socket reports its local address as it is, at port zero. It has none to report while it has
/// none, or while it is held.
pub proof fn law_local_address_is_reported(
    observed: Option<&RawSocket>,
    r: Result<SocketAddrEx, NetError>,
)
    requires
        call_ensures(RawSocket::local_addr, (observed,), r),
    ensures
        observed is None || observed->0@.local_addr is None ==> r == Err::<SocketAddrEx, NetError>(
            NetError::NotConnected,
        ),
        observed matches Some(socket) ==> (socket@.local_addr matches Some(ip) ==> r == Ok::<
            SocketAddrEx,
            NetError,
        >(SocketAddrEx::Ip(SocketAddr { ip, port: 0 }))),
{
}

/// A socket reports the remote address of its peer as it is, at port zero. It has none to report
/// while it has none, or while it is held.
pub proof fn law_peer_address_is_reported(
    observed: Option<&RawSocket>,
    r: Result<SocketAddrEx, NetError>,
)
    requires
        call_ensures(RawSocket::peer_addr, (observed,), r),
    ensures
        observed is None || observed->0@.peer_addr is None ==> r == Err::<SocketAddrEx, NetError>(
            NetError::NotConnected,
        ),
        observed matches Some(socket) ==> (socket@.peer_addr matches Some(ends) ==> r == Ok::<
            SocketAddrEx,
            NetError,
        >(SocketAddrEx::Ip(SocketAddr { ip: ends.0, port: 0 }))),
{
}

/// Shutting a socket down succeeds, whichever half is meant.
pub proof fn law_shutdown_succeeds(socket: &RawSocket, how: Shutdown, r: Result<(), NetError>)
    requires
        call_ensures(RawSocket::shutdown, (socket, how), r),
    ensures
        r is Ok,
{
}

/// The hop limit that is set is the ICMP socket's own, as it was given. Nothing else of the socket
/// changes, nor do other sockets. What the shared options took or refused, or raw sockets do not
/// have, changes nothing.
pub proof fn law_set_hop_limit_is_that_of_the_socket(
    socket: &RawSocket,
    sockets: &mut SocketSet<'static>,
    general: Result<bool, NetError>,
    option: SetSocketOption,
    r: Result<bool, NetError>,
)
    requires
        call_ensures(RawSocket::set_option_inner, (socket, sockets, general, option), r),
    ensures
        ({
            let before = smol_sockets(*old(sockets))[socket@.handle];
            let after = smol_sockets(*final(sockets))[socket@.handle];
            let ours = general == Ok::<bool, NetError>(false);
            &&& ours ==> (option matches SetSocketOption::Ttl(ttl) ==> {
                &&& r == Ok::<bool, NetError>(true)
                &&& smol_hop_limit(after) == Some(ttl)
            })
            &&& ours && option is Other ==> r == Ok::<bool, NetError>(false)
            &&& !ours ==> r == general
            &&& !ours || option is Other ==> smol_hop_limit(after) == smol_hop_limit(before)
            &&& smol_endpoint(after) == smol_endpoint(before)
            &&& same_receive_side(before, after)
            &&& same_transmit_side(before, after)
        }),
        smol_sockets(*old(sockets)).dom().contains(socket@.handle) ==> same_others(
            *old(sockets),
            *final(sockets),
            socket@.handle,
        ),
{
}

/// The hop limit that is read is the ICMP socket's own, or 64 where it has none; each buffer has 64
/// KiB. What the shared options answered or refused, or raw sockets do not have, stays as it is.
pub proof fn law_options_are_those_of_the_socket(
    socket: &RawSocket,
    sockets: &SocketSet<'static>,
    general: Result<bool, NetError>,
    option: &mut GetSocketOption,
    r: Result<bool, NetError>,
)
    requires
        call_ensures(RawSocket::get_option_inner, (socket, sockets, general, option), r),
    ensures
        ({
            let limit = smol_hop_limit(smol_sockets(*sockets)[socket@.handle]);
            let ours = general == Ok::<bool, NetError>(false);
            &&& ours && *old(option) is Ttl ==> {
                &&& r == Ok::<bool, NetError>(true)
                &&& *final(option) is Ttl
                &&& limit is Some ==> (*final(option))->Ttl_0 == limit->0
                &&& limit is None ==> (*final(option))->Ttl_0 == 64
            }
            &&& ours && *old(option) is SendBuffer ==> {
                &&& r == Ok::<bool, NetError>(true)
                &&& *final(option) == GetSocketOption::SendBuffer(65536)
            }
            &&& ours && *old(option) is ReceiveBuffer ==> {
                &&& r == Ok::<bool, NetError>(true)
                &&& *final(option) == GetSocketOption::ReceiveBuffer(65536)
            }
            &&& ours && *old(option) is Other ==> r == Ok::<bool, NetError>(false)
            &&& !ours ==> r == general
            &&& !ours || *old(option) is Other ==> *final(option) == *old(option)
        }),
{
}

/// A socket with a local address is ready for input, which is bit 0, exactly if something is in its
/// receive buffer, and for output, which is bit 2, exactly if a slot of its transmit buffer is free.
/// One without is ready for nothing.
pub proof fn law_poll_tells_what_the_buffers_allow(
    socket: &RawSocket,
    sockets: &SocketSet<'static>,
    r: IoEvents,
)
    requires
        call_ensures(RawSocket::poll, (socket, sockets), r),
    ensures
        socket@.local_addr is None ==> event_bits(r) == 0,
        socket@.local_addr is Some ==> ({
            let own = smol_sockets(*sockets)[socket@.handle];
            event_bits(r) == (if smol_rx(own).len() > 0 {
                1int
            } else {
                0
            }) + (if smol_tx(own).len() < smol_tx_slots(own) {
                4int
            } else {
                0
            })
        }),
{
    assert(1u32 | 4 == 5) by (bit_vector);
}

/// Readiness for input is bit 0, readiness for output is bit 2.
pub proof fn law_readiness_is_two_bits(readable: bool, writable: bool, r: IoEvents)
    requires
        call_ensures(readiness, (readable, writable), r),
    ensures
        event_bits(r) == (if readable {
            1int
        } else {
            0
        }) + (if writable {
            4int
        } else {
            0
        }),
{
    assert(1u32 | 4 == 5) by (bit_vector);
}

/// A socket has to wake whoever waits for input or for output, and nobody else.
pub proof fn law_waits_for_input_or_output_are_woken(events: IoEvents, r: bool)
    requires
        call_ensures(wants_wakeup, (events,), r),
    ensures
        r <==> event_bits(events) & 1 != 0 || event_bits(events) & 4 != 0,
{
    let bits = event_bits(events);
    assert(bits & (1u32 | 4) != 0 <==> bits & 1 != 0 || bits & 4 != 0) by (bit_vector);
}

/// The calls that touch no socket set take every argument.
pub proof fn law_calls_take_every_argument(
    socket: &RawSocket,
    changed: &mut RawSocket,
    addr: SocketAddrEx,
    remote: IpAddress,
    source: IpAddress,
    to: Option<SocketAddrEx>,
    received: &Received,
    written: Result<usize, NetError>,
    flag: bool,
    observed: Option<&RawSocket>,
    how: Shutdown,
    message: &Vec<u8>,
    events: IoEvents,
)
    ensures
        call_requires(RawSocket::bind, (old(changed), addr)),
        call_requires(RawSocket::connect_begin, (old(changed), addr)),
        call_requires(RawSocket::connect_finish, (old(changed), remote, source)),
        call_requires(RawSocket::send_route, (socket, to)),
        call_requires(RawSocket::recv_begin, (socket,)),
        call_requires(RawSocket::recv_finish, (received, written, flag)),
        call_requires(RawSocket::local_addr, (observed,)),
        call_requires(RawSocket::peer_addr, (observed,)),
        call_requires(RawSocket::shutdown, (socket, how)),
        call_requires(SocketAddrEx::into_ip, (addr,)),
        call_requires(echo_request_ident, (message,)),
        call_requires(check_echo_reply, (message,)),
        call_requires(readiness, (flag, flag)),
        call_requires(wants_wakeup, (events,)),
        call_requires(new_socket_set, ()),
{
}

/// The calls that touch a socket set take every message, route, option and state, as long as the
/// set has the socket. A route that asks for a lookup needs its answer, and the one hop limit that
/// cannot be set is zero.
pub proof fn law_calls_take_every_socket_of_the_set(
    socket: &RawSocket,
    changed: &mut RawSocket,
    given_up: RawSocket,
    sockets: &mut SocketSet<'static>,
    seen: &SocketSet<'static>,
    route: SendRoute,
    looked_up: Option<IpAddress>,
    buf: Vec<u8>,
    read: Result<usize, NetError>,
    pending: &PendingSend,
    general: Result<bool, NetError>,
    asked: &mut GetSocketOption,
    option: SetSocketOption,
)
    ensures
        socket_set_grows(*old(sockets)) ==> call_requires(RawSocket::new, (old(sockets),)),
        smol_sockets(*old(sockets)).dom().contains(old(changed)@.handle) && (route is Known
            || looked_up is Some) ==> call_requires(
            RawSocket::send_prepare,
            (old(changed), old(sockets), route, looked_up, buf, read),
        ),
        smol_sockets(*old(sockets)).dom().contains(old(changed)@.handle) ==> call_requires(
            RawSocket::send_attempt,
            (old(changed), old(sockets), pending),
        ),
        smol_sockets(*old(sockets)).dom().contains(socket@.handle) ==> call_requires(
            RawSocket::recv_attempt,
            (socket, old(sockets)),
        ),
        smol_sockets(*old(sockets)).dom().contains(socket@.handle) && (general != Ok::<
            bool,
            NetError,
        >(false) || option != SetSocketOption::Ttl(0)) ==> call_requires(
            RawSocket::set_option_inner,
            (socket, old(sockets), general, option),
        ),
        smol_sockets(*old(sockets)).dom().contains(given_up@.handle) ==> call_requires(
            RawSocket::release,
            (given_up, old(sockets)),
        ),
        smol_sockets(*seen).dom().contains(socket@.handle) ==> call_requires(
            RawSocket::get_option_inner,
            (socket, seen, general, old(asked)),
        ),
        smol_sockets(*seen).dom().contains(socket@.handle) ==> call_requires(
            RawSocket::poll,
            (socket, seen),
        ),
{
}

} // verus!
