//! What holds of raw sockets over several calls.
use smoltcp::iface::{SocketHandle, SocketSet};
use vstd::prelude::*;

use crate::addr::{IpAddress, SocketAddr, SocketAddrEx};
use crate::consts::{DEFAULT_TTL, UDP_TX_BUF_LEN};
use crate::error::NetError;
use crate::events::{readiness_bits, IN_BIT, OUT_BIT};
use crate::message::{is_echo_reply, request_ident};
use crate::raw::{
    attempt_outcome, attempt_state, auto_bound, bind_outcome, bound_ident, connect_begin_outcome,
    connected, consistent, differs_only_at, fresh_socket, get_option_outcome, holds, peer_ip,
    prepare_outcome, read_part, recv_outcome, reported, route_ends, route_outcome,
    set_option_outcome, state_of, GetSocketOption, RawState, SendOrder, SendRoute, SetSocketOption,
};
use crate::smol::{fillers_apart, tx_window, without_filler, Packet, SmolEndpoint, SmolState};
use crate::sockets::smol_sockets;

verus! {

/// A new raw socket and its new ICMP socket agree.
pub proof fn law_new_is_consistent(state: RawState)
    requires
        !state.bound,
        state.ident is None,
    ensures
        consistent(state, fresh_socket()),
{
}

/// Preparing a message keeps a raw socket and its ICMP socket in agreement. Then nothing but the
/// reading of the message can fail, and whatever was read comes out prepared, with the socket
/// bound and a local address settled.
pub proof fn law_prepare_keeps_consistent(
    state: RawState,
    socket: SmolState,
    buf: Seq<u8>,
    read: Result<usize, NetError>,
)
    requires
        consistent(state, socket),
    ensures
        ({
            let outcome = prepare_outcome(state, socket, buf, read);
            &&& consistent(outcome.state, outcome.socket)
            &&& outcome.state.local_addr is Some
            &&& match read {
                Ok(len) => {
                    &&& outcome.payload == Ok::<Seq<u8>, NetError>(read_part(buf, len))
                    &&& outcome.state.bound
                },
                Err(error) => outcome.payload == Err::<Seq<u8>, NetError>(error),
            }
        }),
{
}

/// Queueing a message keeps a raw socket and its ICMP socket in agreement.
pub proof fn law_attempt_keeps_consistent(
    state: RawState,
    socket: SmolState,
    order: SendOrder,
)
    requires
        consistent(state, socket),
    ensures
        consistent(attempt_state(state, socket, order), attempt_outcome(socket, order).0),
{
}

/// Binding, connecting, receiving and setting options keep a raw socket and its ICMP socket in
/// agreement.
pub proof fn law_other_calls_keep_consistent(
    state: RawState,
    socket: SmolState,
    addr: SocketAddrEx,
    remote: IpAddress,
    source: IpAddress,
    general: Result<bool, NetError>,
    option: SetSocketOption,
)
    requires
        consistent(state, socket),
    ensures
        consistent(bind_outcome(state, addr).0, socket),
        consistent(connect_begin_outcome(state, addr).0, socket),
        consistent(connected(state, remote, source), socket),
        consistent(state, SmolState { rx: recv_outcome(socket).0, ..socket }),
        consistent(state, set_option_outcome(socket, general, option).0),
{
}

/// A prepared message never finds its socket closed: as long as the sockets agree, an attempt
/// after a successful preparation is not answered with `NotConnected`.
pub proof fn law_prepared_is_not_refused_as_unconnected(
    state: RawState,
    socket: SmolState,
    buf: Seq<u8>,
    read: Result<usize, NetError>,
    later: SmolState,
    order: SendOrder,
)
    requires
        consistent(state, socket),
        prepare_outcome(state, socket, buf, read).payload is Ok,
        consistent(prepare_outcome(state, socket, buf, read).state, later),
    ensures
        attempt_outcome(later, order).1 != Err::<nat, NetError>(NetError::NotConnected),
{
}

/// The first message decides the identifier: an echo request gives its own, any other message
/// gives zero.
pub proof fn law_first_message_sets_identifier(
    state: RawState,
    socket: SmolState,
    buf: Seq<u8>,
    len: usize,
)
    requires
        consistent(state, socket),
        !state.bound,
    ensures
        ({
            let outcome = prepare_outcome(state, socket, buf, Ok(len));
            let ident = request_ident(read_part(buf, len));
            &&& outcome.state.ident == ident
            &&& outcome.socket.endpoint == SmolEndpoint::Ident(
                match ident {
                    Some(ident) => ident,
                    None => 0,
                },
            )
        }),
{
}

/// No later message changes the identifier.
pub proof fn law_identifier_sticks(
    state: RawState,
    socket: SmolState,
    buf: Seq<u8>,
    read: Result<usize, NetError>,
)
    requires
        state.bound,
    ensures
        ({
            let outcome = prepare_outcome(state, socket, buf, read);
            &&& outcome.state.bound
            &&& bound_ident(outcome.state) == bound_ident(state)
            &&& outcome.socket == socket
        }),
{
}

/// A local address, once there is one, never changes; a second `bind` is refused.
pub proof fn law_local_address_sticks(
    state: RawState,
    socket: SmolState,
    addr: SocketAddrEx,
    remote: IpAddress,
    source: IpAddress,
    buf: Seq<u8>,
    read: Result<usize, NetError>,
    order: SendOrder,
)
    requires
        state.local_addr is Some,
    ensures
        bind_outcome(state, addr).0 == state,
        bind_outcome(state, addr).1 is Err,
        addr is Ip ==> bind_outcome(state, addr).1 == Err::<(), NetError>(NetError::InvalidInput),
        connect_begin_outcome(state, addr).0 == state,
        connected(state, remote, source).local_addr == state.local_addr,
        prepare_outcome(state, socket, buf, read).state.local_addr == state.local_addr,
        attempt_state(state, socket, order).local_addr == state.local_addr,
{
}

/// A socket without a local address can be bound to every IP address, and reports it then, with port
/// zero.
pub proof fn law_bound_address_is_reported(state: RawState, addr: SocketAddrEx)
    requires
        addr is Ip,
        state.local_addr is None,
    ensures
        bind_outcome(state, addr).1 is Ok,
        reported(bind_outcome(state, addr).0.local_addr) == Ok::<SocketAddrEx, NetError>(
            SocketAddrEx::Ip(SocketAddr { ip: addr->Ip_0.ip, port: 0 }),
        ),
{
}

/// A socket can connect to every IP address. It then has a local address, reports the peer with
/// port zero, and sends messages without an address to the peer, from the source address that was
/// looked up for it.
pub proof fn law_connect_routes_to_peer(state: RawState, addr: SocketAddrEx, source: IpAddress)
    requires
        addr is Ip,
    ensures
        ({
            let remote = addr->Ip_0.ip;
            let after = connected(connect_begin_outcome(state, addr).0, remote, source);
            &&& connect_begin_outcome(state, addr).1 == Ok::<IpAddress, NetError>(remote)
            &&& after.local_addr == auto_bound(state).local_addr
            &&& after.local_addr is Some
            &&& reported(peer_ip(after)) == Ok::<SocketAddrEx, NetError>(
                SocketAddrEx::Ip(SocketAddr { ip: remote, port: 0 }),
            )
            &&& route_outcome(after, None) == Ok::<SendRoute, NetError>(
                SendRoute::Known(remote, source),
            )
        }),
{
}

/// A message that was queued makes its route that of later messages without an address. One that
/// was not leaves the peer as it was.
pub proof fn law_send_records_peer(state: RawState, socket: SmolState, order: SendOrder)
    ensures
        attempt_outcome(socket, order).1 is Ok ==> route_outcome(
            attempt_state(state, socket, order),
            None,
        ) == Ok::<SendRoute, NetError>(SendRoute::Known(order.remote, order.source)),
        attempt_outcome(socket, order).1 is Err ==> attempt_state(state, socket, order) == state,
{
}

/// A message with an address goes to that address, from the source address that was looked up; one
/// without goes to the peer, from the source address that is known for it.
pub proof fn law_message_goes_where_it_is_sent(
    state: RawState,
    to: Option<SocketAddrEx>,
    looked_up: Option<IpAddress>,
)
    requires
        route_outcome(state, to) is Ok,
        to is Some ==> looked_up is Some,
    ensures
        ({
            let ends = route_ends(route_outcome(state, to)->Ok_0, looked_up);
            match to {
                Some(addr) => addr matches SocketAddrEx::Ip(ip_addr) && ends == (
                    ip_addr.ip,
                    looked_up->0,
                ),
                None => state.peer_addr == Some(ends),
            }
        }),
{
}

/// The messages among the slots of a buffer, in their order.
pub open spec fn messages(slots: Seq<Option<Packet>>) -> Seq<Packet>
    decreases slots.len(),
{
    if slots.len() == 0 {
        Seq::empty()
    } else {
        match slots[0] {
            Some(packet) => seq![packet] + messages(slots.skip(1)),
            None => messages(slots.skip(1)),
        }
    }
}

/// A slot at the end adds its message, if it holds one, behind the others.
proof fn lemma_messages_of_push(slots: Seq<Option<Packet>>, slot: Option<Packet>)
    ensures
        messages(slots.push(slot)) == match slot {
            Some(packet) => messages(slots).push(packet),
            None => messages(slots),
        },
    decreases slots.len(),
{
    if slots.len() == 0 {
        assert(slots.push(slot).skip(1) =~= Seq::<Option<Packet>>::empty());
        assert(messages(Seq::<Option<Packet>>::empty()) =~= Seq::<Packet>::empty());
        reveal_with_fuel(messages, 2);
        match slot {
            Some(packet) => assert(messages(slots.push(slot)) =~= messages(slots).push(packet)),
            None => {},
        }
    } else {
        assert(slots.push(slot).skip(1) =~= slots.skip(1).push(slot));
        lemma_messages_of_push(slots.skip(1), slot);
        match slot {
            Some(packet) => assert(messages(slots.push(slot)) =~= messages(slots).push(packet)),
            None => {},
        }
    }
}

/// An attempt that succeeds appends exactly its message to those that wait to be transmitted; one
/// that fails adds none and loses none. The receive buffer stays as it is.
pub proof fn law_attempt_queues_exactly_the_message(before: SmolState, order: SendOrder)
    ensures
        ({
            let (after, result) = attempt_outcome(before, order);
            &&& messages(after.tx) == (if result is Ok {
                messages(before.tx).push((order.remote, order.payload))
            } else {
                messages(before.tx)
            })
            &&& after.rx == before.rx
            &&& after.endpoint == before.endpoint
            &&& after.hop_limit == before.hop_limit
        }),
{
    let packet = (order.remote, order.payload);
    lemma_messages_of_push(before.tx, Some(packet));
    lemma_messages_of_push(before.tx, None);
    lemma_messages_of_push(before.tx.push(None), Some(packet));
}

/// The first message of a new socket is queued, whatever its route, if the transmit buffer can
/// hold it and the remote address is not the wildcard.
pub proof fn law_first_message_is_queued(state: RawState, buf: Seq<u8>, len: usize, order: SendOrder)
    requires
        !state.bound,
        state.ident is None,
        order.payload == read_part(buf, len),
        order.payload.len() <= UDP_TX_BUF_LEN,
        !order.remote.is_unspecified(),
    ensures
        prepare_outcome(state, fresh_socket(), buf, Ok(len)).payload == Ok::<Seq<u8>, NetError>(
            order.payload,
        ),
        attempt_outcome(prepare_outcome(state, fresh_socket(), buf, Ok(len)).socket, order).1
            == Ok::<nat, NetError>(order.payload.len()),
{
}

/// Once all that was queued has been transmitted, the next message is queued if the transmit
/// buffer can hold it and the remote address is not the wildcard.
pub proof fn law_drained_socket_takes_message(state: RawState, socket: SmolState, order: SendOrder)
    requires
        consistent(state, socket),
        state.bound,
        socket.tx.len() == 0,
        order.payload.len() <= UDP_TX_BUF_LEN,
        !order.remote.is_unspecified(),
    ensures
        attempt_outcome(socket, order).1 == Ok::<nat, NetError>(order.payload.len()),
{
}

/// A message that is longer than the free bytes of the transmit buffer waits, and changes nothing.
/// So does one that is longer than the whole buffer, whatever is free.
pub proof fn law_message_without_room_waits(state: RawState, socket: SmolState, order: SendOrder)
    requires
        consistent(state, socket),
        state.bound,
        !order.remote.is_unspecified(),
        order.payload.len() > tx_window(socket) || order.payload.len() > UDP_TX_BUF_LEN,
    ensures
        attempt_outcome(socket, order) == (socket, Err::<nat, NetError>(NetError::WouldBlock)),
{
}

/// Whether the transmit buffer has been filled from its beginning on, and nothing been taken out.
pub open spec fn filled_in_order(socket: SmolState) -> bool {
    &&& socket.tx_used <= socket.tx_bytes
    &&& socket.tx_at == if socket.tx_used == socket.tx_bytes {
        0
    } else {
        socket.tx_used
    }
}

/// A new socket's transmit buffer is filled in order, whatever the socket is bound to.
pub proof fn law_new_is_filled_in_order(state: RawState, buf: Seq<u8>, read: Result<usize, NetError>)
    ensures
        filled_in_order(fresh_socket()),
        filled_in_order(prepare_outcome(state, fresh_socket(), buf, read).socket),
{
}

/// As long as nothing has been transmitted, a message is queued exactly if a slot is free and its
/// bytes are; it takes that slot and those bytes and no others.
pub proof fn law_messages_are_queued_until_full(socket: SmolState, order: SendOrder)
    requires
        filled_in_order(socket),
        !(socket.endpoint is Unspecified),
        !order.remote.is_unspecified(),
    ensures
        ({
            let (after, result) = attempt_outcome(socket, order);
            let len = order.payload.len();
            &&& result == if socket.tx.len() < socket.tx_slots && len + socket.tx_used
                <= socket.tx_bytes {
                Ok::<nat, NetError>(len)
            } else {
                Err::<nat, NetError>(NetError::WouldBlock)
            }
            &&& filled_in_order(after)
            &&& result is Ok ==> {
                &&& after.tx == socket.tx.push(Some((order.remote, order.payload)))
                &&& after.tx_used == socket.tx_used + len
            }
            &&& result is Err ==> after == socket
        }),
{
}

/// A receive attempt delivers echo replies and nothing else.
pub proof fn law_only_replies_are_delivered(socket: SmolState)
    requires
        fillers_apart(socket.rx),
    ensures
        recv_outcome(socket).1 matches Ok((remote, message)) ==> {
            &&& is_echo_reply(message)
            &&& socket.rx.contains(Some((remote, message)))
        },
{
    match recv_outcome(socket).1 {
        Ok(packet) => {
            let slots = without_filler(socket.rx);
            if slots != socket.rx {
                assert(slots[0] == socket.rx[1]);
            }
            assert(slots[0] == Some(packet));
        },
        Err(_) => {},
    }
}

/// The socket after a number of receive attempts.
pub open spec fn after_receives(socket: SmolState, attempts: nat) -> SmolState
    decreases attempts,
{
    if attempts == 0 {
        socket
    } else {
        after_receives(
            SmolState { rx: recv_outcome(socket).0, ..socket },
            (attempts - 1) as nat,
        )
    }
}

/// A receive attempt on an open socket takes out exactly the oldest message, if there is one, and
/// delivers it if it is an echo reply.
pub proof fn law_receive_takes_oldest(socket: SmolState)
    requires
        !(socket.endpoint is Unspecified),
        fillers_apart(socket.rx),
    ensures
        ({
            let (rx, result) = recv_outcome(socket);
            let waiting = messages(socket.rx);
            &&& fillers_apart(rx)
            &&& waiting.len() == 0 ==> {
                &&& result == Err::<Packet, NetError>(NetError::WouldBlock)
                &&& messages(rx) == waiting
            }
            &&& waiting.len() > 0 ==> {
                &&& messages(rx) == waiting.skip(1)
                &&& result == if is_echo_reply(waiting[0].1) {
                    Ok::<Packet, NetError>(waiting[0])
                } else {
                    Err::<Packet, NetError>(NetError::WouldBlock)
                }
            }
        }),
{
    let slots = without_filler(socket.rx);
    let (rx, result) = recv_outcome(socket);
    reveal_with_fuel(messages, 3);
    assert(messages(slots) == messages(socket.rx));
    if slots != socket.rx {
        assert forall|i: int| 0 <= i < slots.len() - 1 implies !((#[trigger] slots[i]) is None
            && slots[i + 1] is None) by {
            assert(slots[i] == socket.rx[i + 1]);
            assert(slots[i + 1] == socket.rx[i + 1 + 1]);
        }
        if slots.len() > 0 {
            assert(socket.rx[0] is None);
            assert(slots[0] == socket.rx[1]);
        }
    }
    assert(fillers_apart(slots));
    if slots.len() > 0 {
        assert(slots[0] is Some);
        assert forall|i: int| 0 <= i < rx.len() - 1 implies !((#[trigger] rx[i]) is None && rx[i + 1]
            is None) by {
            assert(rx[i] == slots[i + 1]);
            assert(rx[i + 1] == slots[i + 1 + 1]);
        }
        assert(messages(slots).skip(1) =~= messages(slots.skip(1)));
    }
}

/// A reader that keeps trying gets the first echo reply that waits: as many attempts as there are
/// other messages in front of it drop those, and the next one delivers it.
pub proof fn law_first_reply_is_delivered(socket: SmolState, before: nat)
    requires
        !(socket.endpoint is Unspecified),
        fillers_apart(socket.rx),
        before < messages(socket.rx).len(),
        is_echo_reply(messages(socket.rx)[before as int].1),
        forall|i: int|
            0 <= i < before ==> !is_echo_reply((#[trigger] messages(socket.rx)[i]).1),
    ensures
        recv_outcome(after_receives(socket, before)).1 == Ok::<Packet, NetError>(
            messages(socket.rx)[before as int],
        ),
        forall|attempts: nat|
            attempts < before ==> (#[trigger] recv_outcome(after_receives(socket, attempts))).1
                == Err::<Packet, NetError>(NetError::WouldBlock),
    decreases before,
{
    law_receive_takes_oldest(socket);
    let waiting = messages(socket.rx);
    if before > 0 {
        let next = SmolState { rx: recv_outcome(socket).0, ..socket };
        assert(messages(next.rx) == waiting.skip(1));
        assert forall|i: int| 0 <= i < before - 1 implies !is_echo_reply(
            (#[trigger] messages(next.rx)[i]).1,
        ) by {
            assert(messages(next.rx)[i] == waiting[i + 1]);
        }
        law_first_reply_is_delivered(next, (before - 1) as nat);
        assert forall|attempts: nat| attempts < before implies (#[trigger] recv_outcome(
            after_receives(socket, attempts),
        )).1 == Err::<Packet, NetError>(NetError::WouldBlock) by {
            if attempts > 0 {
                assert(after_receives(socket, attempts) == after_receives(
                    next,
                    (attempts - 1) as nat,
                ));
            } else {
                assert(!is_echo_reply(waiting[0].1));
            }
        }
    }
}

/// A hop limit that was set is that of the ICMP socket, and the one that is read back.
pub proof fn law_ttl_reads_back(socket: SmolState, ttl: u8, room: u8)
    ensures
        set_option_outcome(socket, Ok(false), SetSocketOption::Ttl(ttl)).0.hop_limit == Some(ttl),
        get_option_outcome(
            set_option_outcome(socket, Ok(false), SetSocketOption::Ttl(ttl)).0,
            Ok(false),
            GetSocketOption::Ttl(room),
        ) == (GetSocketOption::Ttl(ttl), Ok::<bool, NetError>(true)),
{
}

/// A new socket has the default hop limit.
pub proof fn law_default_ttl(room: u8)
    ensures
        get_option_outcome(fresh_socket(), Ok(false), GetSocketOption::Ttl(room)) == (
            GetSocketOption::Ttl(DEFAULT_TTL),
            Ok::<bool, NetError>(true),
        ),
{
}

/// The buffer sizes that are reported are those of the socket's buffers.
pub proof fn law_reported_sizes_are_those_of_the_buffers(
    state: RawState,
    socket: SmolState,
    room: usize,
)
    requires
        consistent(state, socket),
    ensures
        get_option_outcome(socket, Ok(false), GetSocketOption::SendBuffer(room)) == (
            GetSocketOption::SendBuffer(socket.tx_bytes as usize),
            Ok::<bool, NetError>(true),
        ),
        get_option_outcome(socket, Ok(false), GetSocketOption::ReceiveBuffer(room)) == (
            GetSocketOption::ReceiveBuffer(socket.rx_bytes as usize),
            Ok::<bool, NetError>(true),
        ),
{
}

/// A socket that is not reported writable makes every attempt to send wait; one that is not
/// reported readable makes every attempt to receive wait.
pub proof fn law_readiness_is_honest(socket: SmolState, order: SendOrder)
    requires
        !(socket.endpoint is Unspecified),
    ensures
        ({
            let bits = readiness_bits(socket.rx.len() > 0, socket.tx.len() < socket.tx_slots);
            &&& bits & OUT_BIT == 0 ==> attempt_outcome(socket, order).1 == Err::<nat, NetError>(
                NetError::WouldBlock,
            )
            &&& bits & IN_BIT == 0 ==> recv_outcome(socket).1 == Err::<Packet, NetError>(
                NetError::WouldBlock,
            )
        }),
{
    assert(4u32 & 4 != 0 && (1u32 | 4) & 4 != 0 && 1u32 & 1 != 0 && (1u32 | 4) & 1 != 0)
        by (bit_vector);
}

/// A call on one socket leaves every other socket of the set as it is, and its own in place.
pub proof fn law_other_sockets_are_untouched(
    before: SocketSet<'static>,
    after: SocketSet<'static>,
    handle: SocketHandle,
    other: SocketHandle,
)
    requires
        differs_only_at(before, after, handle),
        other != handle,
    ensures
        holds(after, handle),
        holds(after, other) == holds(before, other),
        holds(before, other) ==> state_of(after, other) == state_of(before, other),
{
}

/// Once a new socket is released, the set holds what it held before.
pub proof fn law_release_undoes_new(
    before: SocketSet<'static>,
    with_new: SocketSet<'static>,
    after: SocketSet<'static>,
    handle: SocketHandle,
)
    requires
        !holds(before, handle),
        differs_only_at(before, with_new, handle),
        smol_sockets(after) == smol_sockets(with_new).remove(handle),
    ensures
        smol_sockets(after) == smol_sockets(before),
{
    assert(smol_sockets(after) =~= smol_sockets(before));
}

} // verus!
