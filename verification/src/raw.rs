//! Raw sockets for ICMP.
//!
//! An operation that has to wait for the network, or to ask the routing service, stands here as
//! the steps between those waits: each step is a function of the socket and of what the wait
//! brought.
use axpoll::IoEvents;
use smoltcp::iface::{SocketHandle, SocketSet};
use vstd::prelude::*;

use crate::addr::{IpAddress, SocketAddr, SocketAddrEx};
use crate::consts::{DEFAULT_TTL, PACKET_SLOTS, UDP_RX_BUF_LEN, UDP_TX_BUF_LEN};
use crate::error::NetError;
use crate::events::{event_bits, events_empty, readiness, readiness_bits};
use crate::message::{check_echo_reply, echo_request_ident, is_echo_reply, request_ident};
use crate::smol::{
    fillers_apart, send_outcome, smol_bind, smol_can_recv, smol_can_send, smol_get_hop_limit,
    smol_is_open, smol_new, smol_recv, smol_send, smol_set_hop_limit, smol_state, without_filler,
    BindError, Packet, RecvError, SendError, SmolEndpoint, SmolSocket, SmolState,
};
use crate::sockets::{
    smol_sockets, socket_add, socket_mut, socket_ref, socket_remove, socket_set_grows,
};

verus! {

/// A raw socket that provides POSIX-like operations for ICMP.
pub struct RawSocket {
    handle: SocketHandle,
    local_addr: Option<IpAddress>,
    peer_addr: Option<(IpAddress, IpAddress)>,
    ident: Option<u16>,
    bound: bool,
}

/// What a raw socket remembers.
pub struct RawState {
    /// Its ICMP socket in the socket set.
    pub handle: SocketHandle,
    /// The address that it is bound to.
    pub local_addr: Option<IpAddress>,
    /// The address that it talks to, and the source address that is used for it.
    pub peer_addr: Option<(IpAddress, IpAddress)>,
    /// The identifier that was taken from the first echo request.
    pub ident: Option<u16>,
    /// Whether its ICMP socket has been bound to an identifier.
    pub bound: bool,
}

impl View for RawSocket {
    type V = RawState;

    closed spec fn view(&self) -> RawState {
        RawState {
            handle: self.handle,
            local_addr: self.local_addr,
            peer_addr: self.peer_addr,
            ident: self.ident,
            bound: self.bound,
        }
    }
}

/// The state of the ICMP socket under a handle.
pub open spec fn state_of(set: SocketSet<'static>, handle: SocketHandle) -> SmolState {
    smol_state(smol_sockets(set)[handle])
}

/// Whether the set has an ICMP socket under the handle.
pub open spec fn holds(set: SocketSet<'static>, handle: SocketHandle) -> bool {
    smol_sockets(set).dom().contains(handle)
}

/// Whether the two sets agree on everything but the socket under the handle.
pub open spec fn differs_only_at(
    before: SocketSet<'static>,
    after: SocketSet<'static>,
    handle: SocketHandle,
) -> bool {
    &&& smol_sockets(after) =~= smol_sockets(before).insert(handle, smol_sockets(after)[handle])
    &&& socket_set_grows(after) == socket_set_grows(before)
}

/// The state of an ICMP socket as a new raw socket has it: closed, with both buffers empty.
pub open spec fn fresh_socket() -> SmolState {
    SmolState {
        endpoint: SmolEndpoint::Unspecified,
        hop_limit: None,
        rx: Seq::empty(),
        rx_slots: PACKET_SLOTS as nat,
        rx_bytes: UDP_RX_BUF_LEN as nat,
        tx: Seq::empty(),
        tx_slots: PACKET_SLOTS as nat,
        tx_bytes: UDP_TX_BUF_LEN as nat,
        tx_used: 0,
        tx_at: 0,
    }
}

/// Whether what the raw socket remembers agrees with its ICMP socket: the ICMP socket is open
/// exactly once the raw socket is bound, and then under the identifier that was taken from the
/// first echo request, or under zero where there was none. Its buffers are those of a raw socket.
pub open spec fn consistent(state: RawState, socket: SmolState) -> bool {
    &&& if state.bound {
        socket.endpoint == SmolEndpoint::Ident(bound_ident(state))
    } else {
        socket.endpoint is Unspecified && state.ident is None
    }
    &&& sound_buffers(socket)
}

/// Whether the buffers have the sizes that a raw socket gives them, and the transmit buffer stays
/// within its size and has no byte in use without a slot in use.
pub open spec fn sound_buffers(socket: SmolState) -> bool {
    &&& socket.rx_slots == PACKET_SLOTS
    &&& socket.rx_bytes == UDP_RX_BUF_LEN
    &&& socket.tx_slots == PACKET_SLOTS
    &&& socket.tx_bytes == UDP_TX_BUF_LEN
    &&& socket.tx_used <= socket.tx_bytes
    &&& socket.tx_at < socket.tx_bytes
    &&& socket.tx.len() == 0 ==> socket.tx_used == 0
}

/// The identifier that a bound raw socket is bound to.
pub open spec fn bound_ident(state: RawState) -> u16 {
    match state.ident {
        Some(ident) => ident,
        None => 0,
    }
}

/// What `bind` leaves behind and returns.
pub open spec fn bind_outcome(state: RawState, local_addr: SocketAddrEx) -> (
    RawState,
    Result<(), NetError>,
) {
    match local_addr.as_ip() {
        Err(error) => (state, Err(error)),
        Ok(addr) => if state.local_addr is Some {
            (state, Err(NetError::InvalidInput))
        } else {
            (RawState { local_addr: Some(addr.ip), ..state }, Ok(()))
        },
    }
}

/// The state with the wildcard address as the local one, where there was none.
pub open spec fn auto_bound(state: RawState) -> RawState {
    if state.local_addr is None {
        RawState { local_addr: Some(IpAddress::Ipv4(0)), ..state }
    } else {
        state
    }
}

/// What `connect_begin` leaves behind and returns.
pub open spec fn connect_begin_outcome(state: RawState, remote_addr: SocketAddrEx) -> (
    RawState,
    Result<IpAddress, NetError>,
) {
    match remote_addr.as_ip() {
        Err(error) => (state, Err(error)),
        Ok(addr) => (auto_bound(state), Ok(addr.ip)),
    }
}

/// What `connect_finish` leaves behind.
pub open spec fn connected(state: RawState, remote: IpAddress, source: IpAddress) -> RawState {
    RawState { peer_addr: Some((remote, source)), ..state }
}

/// Where a message is to go.
#[derive(Debug, Clone, Copy, PartialEq, Eq, Structural)]
pub enum SendRoute {
    /// To this address; the source address has yet to be looked up.
    Lookup(IpAddress),
    /// To the peer, from the source address that is known for it.
    Known(IpAddress, IpAddress),
}

/// What `send_route` returns.
pub open spec fn route_outcome(state: RawState, to: Option<SocketAddrEx>) -> Result<
    SendRoute,
    NetError,
> {
    match to {
        Some(addr) => match addr.as_ip() {
            Ok(addr) => Ok(SendRoute::Lookup(addr.ip)),
            Err(error) => Err(error),
        },
        None => match state.peer_addr {
            Some((remote, source)) => Ok(SendRoute::Known(remote, source)),
            None => Err(NetError::NotConnected),
        },
    }
}

/// The remote address of a route, and the source address for it: the one that was looked up, or the
/// one that is known.
pub open spec fn route_ends(route: SendRoute, looked_up: Option<IpAddress>) -> (
    IpAddress,
    IpAddress,
)
    recommends
        route is Lookup ==> looked_up is Some,
{
    match route {
        SendRoute::Lookup(remote) => (remote, looked_up->0),
        SendRoute::Known(remote, source) => (remote, source),
    }
}

/// A message that is ready to be queued, with its route.
pub struct PendingSend {
    payload: Vec<u8>,
    remote: IpAddress,
    source: IpAddress,
}

/// A message with its route.
pub struct SendOrder {
    pub payload: Seq<u8>,
    pub remote: IpAddress,
    pub source: IpAddress,
}

impl View for PendingSend {
    type V = SendOrder;

    closed spec fn view(&self) -> SendOrder {
        SendOrder { payload: self.payload@, remote: self.remote, source: self.source }
    }
}

/// What `send_prepare` leaves behind and returns.
pub struct Prepared {
    pub state: RawState,
    pub socket: SmolState,
    pub payload: Result<Seq<u8>, NetError>,
}

/// The bytes that were read into a buffer.
pub open spec fn read_part(buf: Seq<u8>, len: usize) -> Seq<u8> {
    if len < buf.len() {
        buf.take(len as int)
    } else {
        buf
    }
}

/// What `send_prepare` does: it settles the local address, and binds the ICMP socket on the first
/// message, to the identifier of an echo request, or else to zero.
pub open spec fn prepare_outcome(
    state: RawState,
    socket: SmolState,
    buf: Seq<u8>,
    read: Result<usize, NetError>,
) -> Prepared {
    let settled = auto_bound(state);
    match read {
        Err(error) => Prepared { state: settled, socket, payload: Err(error) },
        Ok(len) => {
            let payload = read_part(buf, len);
            if state.bound {
                Prepared { state: settled, socket, payload: Ok(payload) }
            } else {
                let ident = request_ident(payload);
                let named = if ident is Some {
                    RawState { ident, ..settled }
                } else {
                    settled
                };
                if socket.endpoint is Unspecified {
                    Prepared {
                        state: RawState { bound: true, ..named },
                        socket: SmolState {
                            endpoint: SmolEndpoint::Ident(
                                match ident {
                                    Some(ident) => ident,
                                    None => 0,
                                },
                            ),
                            ..socket
                        },
                        payload: Ok(payload),
                    }
                } else {
                    Prepared { state: named, socket, payload: Err(NetError::InvalidInput) }
                }
            }
        },
    }
}

/// What `send_attempt` makes of the ICMP socket, and what it returns.
pub open spec fn attempt_outcome(socket: SmolState, order: SendOrder) -> (
    SmolState,
    Result<nat, NetError>,
) {
    if socket.endpoint is Unspecified {
        (socket, Err(NetError::NotConnected))
    } else if socket.tx.len() >= socket.tx_slots {
        (socket, Err(NetError::WouldBlock))
    } else {
        let (after, result) = send_outcome(socket, (order.remote, order.payload));
        (
            after,
            match result {
                Ok(()) => Ok(order.payload.len()),
                Err(SendError::Unaddressable) => Err(NetError::ConnectionRefused),
                Err(SendError::BufferFull) => Err(NetError::WouldBlock),
            },
        )
    }
}

/// What `send_attempt` makes of the raw socket's state.
pub open spec fn attempt_state(
    state: RawState,
    socket: SmolState,
    order: SendOrder,
) -> RawState {
    if attempt_outcome(socket, order).1 is Ok {
        connected(state, order.remote, order.source)
    } else {
        state
    }
}

/// A message that was taken out of the receive buffer.
#[derive(Debug)]
pub struct Received {
    /// The whole ICMP message.
    pub payload: Vec<u8>,
    /// Where it came from.
    pub remote: IpAddress,
}

/// What `recv_attempt` leaves in the receive buffer, and what it returns.
pub open spec fn recv_outcome(socket: SmolState) -> (Seq<Option<Packet>>, Result<Packet, NetError>) {
    let slots = without_filler(socket.rx);
    if socket.endpoint is Unspecified {
        (socket.rx, Err(NetError::NotConnected))
    } else if slots.len() == 0 {
        (slots, Err(NetError::WouldBlock))
    } else {
        let packet = slots[0]->0;
        (
            slots.skip(1),
            if is_echo_reply(packet.1) {
                Ok(packet)
            } else {
                Err(NetError::WouldBlock)
            },
        )
    }
}

/// An option that can be asked for, with room for its value.
#[derive(Debug, Clone, Copy, PartialEq, Eq, Structural)]
pub enum GetSocketOption {
    /// The hop limit of outgoing messages.
    Ttl(u8),
    /// Bytes in the transmit buffer.
    SendBuffer(usize),
    /// Bytes in the receive buffer.
    ReceiveBuffer(usize),
    /// An option that raw sockets do not have.
    Other,
}

/// An option that can be set.
#[derive(Debug, Clone, Copy, PartialEq, Eq, Structural)]
pub enum SetSocketOption {
    /// The hop limit of outgoing messages.
    Ttl(u8),
    /// An option that raw sockets do not have.
    Other,
}

/// Which half of a socket to shut down.
#[derive(Debug, Clone, Copy, PartialEq, Eq, Structural)]
pub enum Shutdown {
    Read,
    Write,
    Both,
}

/// What `get_option_inner` leaves in the option, and what it returns.
pub open spec fn get_option_outcome(
    socket: SmolState,
    general: Result<bool, NetError>,
    option: GetSocketOption,
) -> (GetSocketOption, Result<bool, NetError>) {
    if general != Ok::<bool, NetError>(false) {
        (option, general)
    } else {
        match option {
            GetSocketOption::Ttl(_) => (
                GetSocketOption::Ttl(
                    match socket.hop_limit {
                        Some(ttl) => ttl,
                        None => DEFAULT_TTL,
                    },
                ),
                Ok(true),
            ),
            GetSocketOption::SendBuffer(_) => (
                GetSocketOption::SendBuffer(UDP_TX_BUF_LEN),
                Ok(true),
            ),
            GetSocketOption::ReceiveBuffer(_) => (
                GetSocketOption::ReceiveBuffer(UDP_RX_BUF_LEN),
                Ok(true),
            ),
            GetSocketOption::Other => (option, Ok(false)),
        }
    }
}

/// What `set_option_inner` makes of the ICMP socket, and what it returns.
pub open spec fn set_option_outcome(
    socket: SmolState,
    general: Result<bool, NetError>,
    option: SetSocketOption,
) -> (SmolState, Result<bool, NetError>) {
    if general != Ok::<bool, NetError>(false) {
        (socket, general)
    } else {
        match option {
            SetSocketOption::Ttl(ttl) => (SmolState { hop_limit: Some(ttl), ..socket }, Ok(true)),
            SetSocketOption::Other => (socket, Ok(false)),
        }
    }
}

/// An address as a socket reports it: with port zero.
pub open spec fn reported(addr: Option<IpAddress>) -> Result<SocketAddrEx, NetError> {
    match addr {
        Some(ip) => Ok(SocketAddrEx::Ip(SocketAddr { ip, port: 0 })),
        None => Err(NetError::NotConnected),
    }
}

/// The address of the peer.
pub open spec fn peer_ip(state: RawState) -> Option<IpAddress> {
    match state.peer_addr {
        Some((remote, _)) => Some(remote),
        None => None,
    }
}

/// Makes the ICMP socket of a raw socket.
pub(crate) fn new_raw_socket() -> (r: SmolSocket)
    ensures
        smol_state(r) == fresh_socket(),
{
    let socket = smol_new(PACKET_SLOTS, UDP_RX_BUF_LEN, UDP_TX_BUF_LEN);
    assert(smol_state(socket).rx =~= Seq::<Option<Packet>>::empty());
    assert(smol_state(socket).tx =~= Seq::<Option<Packet>>::empty());
    socket
}

impl RawSocket {
    /// Creates a raw socket for ICMP, with an ICMP socket of its own in the set.
    pub fn new(sockets: &mut SocketSet<'static>) -> (r: Self)
        requires
            socket_set_grows(*old(sockets)),
        ensures
            !holds(*old(sockets), r@.handle),
            holds(*final(sockets), r@.handle),
            differs_only_at(*old(sockets), *final(sockets), r@.handle),
            state_of(*final(sockets), r@.handle) == fresh_socket(),
            r@ == (RawState {
                handle: r@.handle,
                local_addr: None,
                peer_addr: None,
                ident: None,
                bound: false,
            }),
    {
        let socket = new_raw_socket();
        let handle = socket_add(sockets, socket);
        RawSocket { handle, local_addr: None, peer_addr: None, ident: None, bound: false }
    }

    /// Answers an option query. `general` is what the options that all sockets share made of it.
    pub fn get_option_inner(
        &self,
        sockets: &SocketSet<'static>,
        general: Result<bool, NetError>,
        option: &mut GetSocketOption,
    ) -> (r: Result<bool, NetError>)
        requires
            holds(*sockets, self@.handle),
        ensures
            (*final(option), r) == get_option_outcome(
                state_of(*sockets, self@.handle),
                general,
                *old(option),
            ),
    {
        match general {
            Err(error) => { return Err(error); },
            Ok(true) => { return Ok(true); },
            Ok(false) => {},
        }
        match *option {
            GetSocketOption::Ttl(_) => {
                let ttl: u8 = match smol_get_hop_limit(socket_ref(sockets, self.handle)) {
                    Some(ttl) => ttl,
                    None => DEFAULT_TTL,
                };
                *option = GetSocketOption::Ttl(ttl);
            },
            GetSocketOption::SendBuffer(_) => {
                *option = GetSocketOption::SendBuffer(UDP_TX_BUF_LEN);
            },
            GetSocketOption::ReceiveBuffer(_) => {
                *option = GetSocketOption::ReceiveBuffer(UDP_RX_BUF_LEN);
            },
            GetSocketOption::Other => { return Ok(false); },
        }
        Ok(true)
    }

    /// Sets an option. `general` is what the options that all sockets share made of it. A hop limit
    /// of zero is not one that a socket can have.
    pub fn set_option_inner(
        &self,
        sockets: &mut SocketSet<'static>,
        general: Result<bool, NetError>,
        option: SetSocketOption,
    ) -> (r: Result<bool, NetError>)
        requires
            holds(*old(sockets), self@.handle),
            general == Ok::<bool, NetError>(false) ==> option != SetSocketOption::Ttl(0),
        ensures
            differs_only_at(*old(sockets), *final(sockets), self@.handle),
            (state_of(*final(sockets), self@.handle), r) == set_option_outcome(
                state_of(*old(sockets), self@.handle),
                general,
                option,
            ),
    {
        match general {
            Err(error) => { return Err(error); },
            Ok(true) => { return Ok(true); },
            Ok(false) => {},
        }
        match option {
            SetSocketOption::Ttl(ttl) => {
                smol_set_hop_limit(socket_mut(sockets, self.handle), Some(ttl));
            },
            SetSocketOption::Other => { return Ok(false); },
        }
        Ok(true)
    }

    /// Binds the socket to a local address. It can be bound once.
    pub fn bind(&mut self, local_addr: SocketAddrEx) -> (r: Result<(), NetError>)
        ensures
            (final(self)@, r) == bind_outcome(old(self)@, local_addr),
    {
        let addr = match local_addr.into_ip() {
            Ok(addr) => addr,
            Err(error) => { return Err(error); },
        };
        if self.local_addr.is_some() {
            return Err(NetError::InvalidInput);
        }
        self.local_addr = Some(addr.ip);
        Ok(())
    }

    /// Binds the socket to the wildcard address, unless it is bound already.
    fn bind_if_unbound(&mut self)
        ensures
            final(self)@ == auto_bound(old(self)@),
    {
        if self.local_addr.is_none() {
            let _ = self.bind(SocketAddrEx::Ip(SocketAddr { ip: IpAddress::Ipv4(0), port: 0 }));
        }
    }

    /// Starts to connect the socket: settles its local address, and tells the address whose source
    /// address is to be looked up.
    pub fn connect_begin(&mut self, remote_addr: SocketAddrEx) -> (r: Result<IpAddress, NetError>)
        ensures
            (final(self)@, r) == connect_begin_outcome(old(self)@, remote_addr),
    {
        let addr = match remote_addr.into_ip() {
            Ok(addr) => addr,
            Err(error) => { return Err(error); },
        };
        self.bind_if_unbound();
        Ok(addr.ip)
    }

    /// Connects the socket to the remote address, from the source address that was looked up.
    pub fn connect_finish(&mut self, remote: IpAddress, source: IpAddress)
        ensures
            final(self)@ == connected(old(self)@, remote, source),
    {
        self.peer_addr = Some((remote, source));
    }

    /// Tells where a message to `to`, or else to the peer, is to go.
    pub fn send_route(&self, to: Option<SocketAddrEx>) -> (r: Result<SendRoute, NetError>)
        ensures
            r == route_outcome(self@, to),
    {
        match to {
            Some(addr) => match addr.into_ip() {
                Ok(addr) => Ok(SendRoute::Lookup(addr.ip)),
                Err(error) => Err(error),
            },
            None => match self.peer_addr {
                Some((remote, source)) => Ok(SendRoute::Known(remote, source)),
                None => Err(NetError::NotConnected),
            },
        }
    }

    /// Prepares a message for a route: settles the local address, takes the message as it was read
    /// into `buf`, and binds the ICMP socket if this is the first message. `looked_up` is the source
    /// address that was looked up, where the route asks for that.
    pub fn send_prepare(
        &mut self,
        sockets: &mut SocketSet<'static>,
        route: SendRoute,
        looked_up: Option<IpAddress>,
        buf: Vec<u8>,
        read: Result<usize, NetError>,
    ) -> (r: Result<PendingSend, NetError>)
        requires
            holds(*old(sockets), old(self)@.handle),
            route is Lookup ==> looked_up is Some,
        ensures
            differs_only_at(*old(sockets), *final(sockets), old(self)@.handle),
            ({
                let outcome = prepare_outcome(
                    old(self)@,
                    state_of(*old(sockets), old(self)@.handle),
                    buf@,
                    read,
                );
                &&& final(self)@ == outcome.state
                &&& state_of(*final(sockets), old(self)@.handle) == outcome.socket
                &&& match r {
                    Ok(pending) => {
                        &&& outcome.payload == Ok::<Seq<u8>, NetError>(pending@.payload)
                        &&& (pending@.remote, pending@.source) == route_ends(route, looked_up)
                    },
                    Err(error) => outcome.payload == Err::<Seq<u8>, NetError>(error),
                }
            }),
    {
        self.bind_if_unbound();

        let mut payload = buf;
        match read {
            Ok(len) => payload.truncate(len),
            Err(error) => { return Err(error); },
        }
        assert(payload@ == match read {
            Ok(len) => read_part(buf@, len),
            Err(_) => payload@,
        });

        if !self.bound {
            match echo_request_ident(&payload) {
                Some(ident) => {
                    self.ident = Some(ident);
                    match bind_to_ident(socket_mut(sockets, self.handle), ident) {
                        Ok(()) => {},
                        Err(error) => { return Err(error); },
                    }
                    self.bound = true;
                },
                None => {},
            }
        }
        if !self.bound {
            match bind_to_ident(socket_mut(sockets, self.handle), 0) {
                Ok(()) => {},
                Err(error) => { return Err(error); },
            }
            self.bound = true;
        }
        let (remote, source) = match route {
            SendRoute::Lookup(remote) => (remote, looked_up.unwrap()),
            SendRoute::Known(remote, source) => (remote, source),
        };
        Ok(PendingSend { payload, remote, source })
    }

    /// Tries to queue a prepared message. `WouldBlock` asks for another try once the network has
    /// made progress.
    pub fn send_attempt(&mut self, sockets: &mut SocketSet<'static>, pending: &PendingSend) -> (r:
        Result<usize, NetError>)
        requires
            holds(*old(sockets), old(self)@.handle),
        ensures
            differs_only_at(*old(sockets), *final(sockets), old(self)@.handle),
            ({
                let before = state_of(*old(sockets), old(self)@.handle);
                let (after, result) = attempt_outcome(before, pending@);
                &&& state_of(*final(sockets), old(self)@.handle) == after
                &&& final(self)@ == attempt_state(old(self)@, before, pending@)
                &&& match r {
                    Ok(len) => result == Ok::<nat, NetError>(len as nat),
                    Err(error) => result == Err::<nat, NetError>(error),
                }
            }),
    {
        let socket = socket_mut(sockets, self.handle);
        if !smol_is_open(socket) {
            Err(NetError::NotConnected)
        } else if !smol_can_send(socket) {
            Err(NetError::WouldBlock)
        } else {
            match smol_send(socket, pending.payload.as_slice(), pending.remote) {
                Ok(()) => {
                    self.peer_addr = Some((pending.remote, pending.source));
                    Ok(pending.payload.len())
                },
                Err(SendError::BufferFull) => Err(NetError::WouldBlock),
                Err(SendError::Unaddressable) => Err(NetError::ConnectionRefused),
            }
        }
    }

    /// Checks that the socket has a local address to receive on.
    pub fn recv_begin(&self) -> (r: Result<(), NetError>)
        ensures
            r == (if self@.local_addr is None {
                Err::<(), NetError>(NetError::NotConnected)
            } else {
                Ok::<(), NetError>(())
            }),
    {
        if self.local_addr.is_none() {
            Err(NetError::NotConnected)
        } else {
            Ok(())
        }
    }

    /// Tries to take an echo reply out of the receive buffer. A message that is no echo reply is
    /// dropped. `WouldBlock` asks for another try once the network has made progress. No two fillers
    /// stand side by side in the receive buffer of an open socket, so that the slot behind a filler
    /// holds a message.
    pub fn recv_attempt(&self, sockets: &mut SocketSet<'static>) -> (r: Result<Received, NetError>)
        requires
            holds(*old(sockets), self@.handle),
        ensures
            differs_only_at(*old(sockets), *final(sockets), self@.handle),
            ({
                let before = state_of(*old(sockets), self@.handle);
                let (rx, result) = recv_outcome(before);
                &&& !(before.endpoint is Unspecified) ==> fillers_apart(before.rx)
                &&& state_of(*final(sockets), self@.handle) == SmolState { rx, ..before }
                &&& match r {
                    Ok(received) => result == Ok::<Packet, NetError>(
                        (received.remote, received.payload@),
                    ),
                    Err(error) => result == Err::<Packet, NetError>(error),
                }
            }),
    {
        let socket = socket_mut(sockets, self.handle);
        if !smol_is_open(socket) {
            Err(NetError::NotConnected)
        } else if !smol_can_recv(socket) {
            Err(NetError::WouldBlock)
        } else {
            match smol_recv(socket) {
                Ok((payload, remote)) => {
                    if !check_echo_reply(&payload) {
                        return Err(NetError::WouldBlock);
                    }
                    Ok(Received { payload, remote })
                },
                Err(RecvError::Exhausted) => Err(NetError::WouldBlock),
                Err(RecvError::Truncated) => Err(NetError::WouldBlock),
            }
        }
    }

    /// Tells what a receive call returns, and the sender's address, once the message has been
    /// written to the caller's buffer. With `truncate`, the size is that of the whole message, even
    /// if not all of it was written.
    pub fn recv_finish(received: &Received, written: Result<usize, NetError>, truncate: bool) -> (r:
        Result<(usize, SocketAddrEx), NetError>)
        ensures
            r == (match written {
                Err(error) => Err::<(usize, SocketAddrEx), NetError>(error),
                Ok(len) => Ok(
                    (
                        if truncate {
                            received.payload.len()
                        } else {
                            len
                        },
                        SocketAddrEx::Ip(SocketAddr { ip: received.remote, port: 0 }),
                    ),
                ),
            }),
    {
        match written {
            Err(error) => Err(error),
            Ok(len) => {
                let size: usize = if truncate {
                    received.payload.len()
                } else {
                    len
                };
                Ok((size, SocketAddrEx::Ip(SocketAddr { ip: received.remote, port: 0 })))
            },
        }
    }

    /// The local address. `observed` is the socket, or `None` while another thread holds it.
    pub fn local_addr(observed: Option<&RawSocket>) -> (r: Result<SocketAddrEx, NetError>)
        ensures
            r == (match observed {
                Some(socket) => reported(socket@.local_addr),
                None => Err(NetError::NotConnected),
            }),
    {
        match observed {
            Some(socket) => match socket.local_addr {
                Some(ip) => Ok(SocketAddrEx::Ip(SocketAddr { ip, port: 0 })),
                None => Err(NetError::NotConnected),
            },
            None => Err(NetError::NotConnected),
        }
    }

    /// The peer's address. `observed` is the socket, or `None` while another thread holds it.
    pub fn peer_addr(observed: Option<&RawSocket>) -> (r: Result<SocketAddrEx, NetError>)
        ensures
            r == (match observed {
                Some(socket) => reported(peer_ip(socket@)),
                None => Err(NetError::NotConnected),
            }),
    {
        match observed {
            Some(socket) => match socket.peer_addr {
                Some((ip, _)) => Ok(SocketAddrEx::Ip(SocketAddr { ip, port: 0 })),
                None => Err(NetError::NotConnected),
            },
            None => Err(NetError::NotConnected),
        }
    }

    /// Shuts the socket down. There is nothing to undo: its ICMP socket goes with the socket.
    pub fn shutdown(&self, _how: Shutdown) -> (r: Result<(), NetError>)
        ensures
            r is Ok,
    {
        Ok(())
    }

    /// The events that the socket is ready for. Without a local address there are none.
    pub fn poll(&self, sockets: &SocketSet<'static>) -> (r: IoEvents)
        requires
            holds(*sockets, self@.handle),
        ensures
            event_bits(r) == ({
                let socket = state_of(*sockets, self@.handle);
                if self@.local_addr is None {
                    0
                } else {
                    readiness_bits(socket.rx.len() > 0, socket.tx.len() < socket.tx_slots)
                }
            }),
    {
        if self.local_addr.is_none() {
            return events_empty();
        }
        let socket = socket_ref(sockets, self.handle);
        readiness(smol_can_recv(socket), smol_can_send(socket))
    }

    /// Gives the socket up, and its ICMP socket with it.
    pub fn release(self, sockets: &mut SocketSet<'static>)
        requires
            holds(*old(sockets), self@.handle),
        ensures
            smol_sockets(*final(sockets)) == smol_sockets(*old(sockets)).remove(self@.handle),
            socket_set_grows(*final(sockets)) == socket_set_grows(*old(sockets)),
    {
        socket_remove(sockets, self.handle);
    }
}

/// Binds an ICMP socket to an identifier, with the errors that callers see.
fn bind_to_ident(socket: &mut SmolSocket, ident: u16) -> (r: Result<(), NetError>)
    ensures
        smol_state(*old(socket)).endpoint is Unspecified ==> {
            &&& r is Ok
            &&& smol_state(*final(socket)) == (SmolState {
                endpoint: SmolEndpoint::Ident(ident),
                ..smol_state(*old(socket))
            })
        },
        !(smol_state(*old(socket)).endpoint is Unspecified) ==> {
            &&& r == Err::<(), NetError>(NetError::InvalidInput)
            &&& smol_state(*final(socket)) == smol_state(*old(socket))
        },
{
    match smol_bind(socket, ident) {
        Ok(()) => Ok(()),
        Err(BindError::InvalidState) => Err(NetError::InvalidInput),
        Err(BindError::Unaddressable) => Err(NetError::ConnectionRefused),
    }
}

} // verus!
