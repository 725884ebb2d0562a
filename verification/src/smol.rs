//! smoltcp's ICMP socket, and what its methods do, stated over plain values.
use smoltcp::socket::icmp;
use vstd::prelude::*;

use crate::addr::IpAddress;

verus! {

/// smoltcp's ICMP socket.
#[verifier::external_type_specification]
#[verifier::external_body]
pub struct ExSmolSocket<'a>(icmp::Socket<'a>);

/// An ICMP socket that owns its buffers.
pub type SmolSocket = icmp::Socket<'static>;

/// What an ICMP socket is bound to.
#[derive(Debug, Clone, Copy, PartialEq, Eq, Structural)]
pub enum SmolEndpoint {
    /// Nothing yet: the socket is closed.
    Unspecified,
    /// Echo messages that carry this identifier.
    Ident(u16),
    /// ICMP errors that concern a UDP port.
    Udp,
}

/// An ICMP message as it stands in a packet buffer: the remote address and the bytes.
pub type Packet = (IpAddress, Seq<u8>);

/// What the socket is bound to.
pub uninterp spec fn smol_endpoint(socket: SmolSocket) -> SmolEndpoint;

/// The hop limit that was set on the socket, if any.
pub uninterp spec fn smol_hop_limit(socket: SmolSocket) -> Option<u8>;

/// The slots of the receive buffer that are in use, oldest first. `None` is a filler that the
/// ring buffer put in front of a message that would not fit before its end.
pub uninterp spec fn smol_rx(socket: SmolSocket) -> Seq<Option<Packet>>;

/// The slots of the transmit buffer that are in use, oldest first, with fillers as above.
pub uninterp spec fn smol_tx(socket: SmolSocket) -> Seq<Option<Packet>>;

/// How many slots the receive buffer has.
pub uninterp spec fn smol_rx_slots(socket: SmolSocket) -> nat;

/// How many bytes the receive buffer has.
pub uninterp spec fn smol_rx_bytes(socket: SmolSocket) -> nat;

/// How many slots the transmit buffer has.
pub uninterp spec fn smol_tx_slots(socket: SmolSocket) -> nat;

/// How many bytes the transmit buffer has.
pub uninterp spec fn smol_tx_bytes(socket: SmolSocket) -> nat;

/// How many bytes of the transmit buffer are in use, those of fillers with them.
pub uninterp spec fn smol_tx_used(socket: SmolSocket) -> nat;

/// Where in the transmit buffer the next bytes go.
pub uninterp spec fn smol_tx_at(socket: SmolSocket) -> nat;

/// All that is said of an ICMP socket.
pub struct SmolState {
    pub endpoint: SmolEndpoint,
    pub hop_limit: Option<u8>,
    pub rx: Seq<Option<Packet>>,
    pub rx_slots: nat,
    pub rx_bytes: nat,
    pub tx: Seq<Option<Packet>>,
    pub tx_slots: nat,
    pub tx_bytes: nat,
    pub tx_used: nat,
    pub tx_at: nat,
}

/// The state of a socket.
pub open spec fn smol_state(socket: SmolSocket) -> SmolState {
    SmolState {
        endpoint: smol_endpoint(socket),
        hop_limit: smol_hop_limit(socket),
        rx: smol_rx(socket),
        rx_slots: smol_rx_slots(socket),
        rx_bytes: smol_rx_bytes(socket),
        tx: smol_tx(socket),
        tx_slots: smol_tx_slots(socket),
        tx_bytes: smol_tx_bytes(socket),
        tx_used: smol_tx_used(socket),
        tx_at: smol_tx_at(socket),
    }
}

/// The slots that are left once a filler at the front has been dropped.
pub open spec fn without_filler(slots: Seq<Option<Packet>>) -> Seq<Option<Packet>> {
    if slots.len() > 0 && slots[0] is None {
        slots.skip(1)
    } else {
        slots
    }
}

/// Whether no two fillers stand side by side.
pub open spec fn fillers_apart(slots: Seq<Option<Packet>>) -> bool {
    forall|i: int|
        0 <= i < slots.len() - 1 ==> !((#[trigger] slots[i]) is None && slots[i + 1] is None)
}

/// How many bytes of the transmit buffer are free.
pub open spec fn tx_window(socket: SmolState) -> int {
    socket.tx_bytes - socket.tx_used
}

/// Where the next message starts. A buffer with no byte in use starts over.
pub open spec fn tx_start(socket: SmolState) -> nat {
    if socket.tx_used == 0 {
        0
    } else {
        socket.tx_at
    }
}

/// How many of the free bytes lie in one piece, from where the next message starts.
pub open spec fn tx_contiguous(socket: SmolState) -> int {
    let to_end = socket.tx_bytes - tx_start(socket);
    if tx_window(socket) <= to_end {
        tx_window(socket)
    } else {
        to_end
    }
}

/// Whether a message fits in one piece, either where the last one ended or, with a filler in front
/// of it, at the beginning of the ring.
pub open spec fn tx_fits(socket: SmolState, len: nat) -> bool {
    ||| len <= tx_contiguous(socket)
    ||| len <= tx_window(socket) - tx_contiguous(socket)
}

/// The socket with the rest of the ring filled up, so that the next message starts at its
/// beginning.
pub open spec fn with_filler(socket: SmolState) -> SmolState {
    SmolState {
        tx: socket.tx.push(None),
        tx_used: (socket.tx_used + tx_contiguous(socket)) as nat,
        tx_at: 0,
        ..socket
    }
}

/// The socket with a message behind the others, from where the next one starts.
pub open spec fn with_message(socket: SmolState, packet: Packet) -> SmolState {
    let end = tx_start(socket) + packet.1.len();
    SmolState {
        tx: socket.tx.push(Some(packet)),
        tx_used: socket.tx_used + packet.1.len(),
        tx_at: if end == socket.tx_bytes {
            0
        } else {
            end
        },
        ..socket
    }
}

/// What an attempt to queue a message makes of the socket, and how it ends. A message needs a slot,
/// and one more for the filler in front of it, if there has to be one.
pub open spec fn send_outcome(socket: SmolState, packet: Packet) -> (
    SmolState,
    Result<(), SendError>,
) {
    let len = packet.1.len();
    if packet.0.is_unspecified() {
        (socket, Err(SendError::Unaddressable))
    } else if socket.tx.len() >= socket.tx_slots || !tx_fits(socket, len) {
        (socket, Err(SendError::BufferFull))
    } else if len <= tx_contiguous(socket) {
        (with_message(socket, packet), Ok(()))
    } else if socket.tx.len() + 1 < socket.tx_slots {
        (with_message(with_filler(socket), packet), Ok(()))
    } else {
        (with_filler(socket), Err(SendError::BufferFull))
    }
}

/// Why a socket could not be bound.
#[derive(Debug, Clone, Copy, PartialEq, Eq, Structural)]
pub enum BindError {
    InvalidState,
    Unaddressable,
}

/// Why a message could not be queued.
#[derive(Debug, Clone, Copy, PartialEq, Eq, Structural)]
pub enum SendError {
    Unaddressable,
    BufferFull,
}

/// Why no message could be taken out.
#[derive(Debug, Clone, Copy, PartialEq, Eq, Structural)]
pub enum RecvError {
    Exhausted,
    Truncated,
}

/// `icmp::Socket::new`, over two buffers from `icmp::PacketBuffer::new` with `slots` slots each:
/// a closed socket without a hop limit, whose buffers are empty and have the bytes that are asked
/// for. The bounds keep the allocations within what `vec!` accepts.
#[verifier::external_body]
pub(crate) fn smol_new(slots: usize, rx_bytes: usize, tx_bytes: usize) -> (r: SmolSocket)
    requires
        slots <= 0x1_0000,
        rx_bytes <= 0x1000_0000,
        tx_bytes <= 0x1000_0000,
    ensures
        smol_endpoint(r) is Unspecified,
        smol_hop_limit(r) is None,
        smol_rx(r).len() == 0,
        smol_rx_slots(r) == slots,
        smol_rx_bytes(r) == rx_bytes,
        smol_tx(r).len() == 0,
        smol_tx_slots(r) == slots,
        smol_tx_bytes(r) == tx_bytes,
        smol_tx_used(r) == 0,
        smol_tx_at(r) == 0,
{
    icmp::Socket::new(
        icmp::PacketBuffer::new(vec![icmp::PacketMetadata::EMPTY; slots], vec![0; rx_bytes]),
        icmp::PacketBuffer::new(vec![icmp::PacketMetadata::EMPTY; slots], vec![0; tx_bytes]),
    )
}

/// `icmp::Socket::hop_limit`: the hop limit that was set.
#[verifier::external_body]
pub(crate) fn smol_get_hop_limit(socket: &SmolSocket) -> (r: Option<u8>)
    ensures
        r == smol_hop_limit(*socket),
{
    socket.hop_limit()
}

/// `icmp::Socket::set_hop_limit`: it sets the hop limit and nothing else. It panics on a limit of
/// zero.
#[verifier::external_body]
pub(crate) fn smol_set_hop_limit(socket: &mut SmolSocket, hop_limit: Option<u8>)
    requires
        hop_limit != Some(0u8),
    ensures
        smol_state(*final(socket)) == (SmolState { hop_limit, ..smol_state(*old(socket)) }),
{
    socket.set_hop_limit(hop_limit)
}

/// `icmp::Socket::bind` with an identifier as its endpoint: it binds a closed socket, and refuses
/// an open one with `InvalidState`. An identifier is never unaddressable.
#[verifier::external_body]
pub(crate) fn smol_bind(socket: &mut SmolSocket, ident: u16) -> (r: Result<
    (),
    BindError,
>)
    ensures
        smol_endpoint(*old(socket)) is Unspecified ==> {
            &&& r is Ok
            &&& smol_state(*final(socket)) == (SmolState {
                endpoint: SmolEndpoint::Ident(ident),
                ..smol_state(*old(socket))
            })
        },
        !(smol_endpoint(*old(socket)) is Unspecified) ==> {
            &&& r == Err::<(), BindError>(BindError::InvalidState)
            &&& smol_state(*final(socket)) == smol_state(*old(socket))
        },
{
    match socket.bind(icmp::Endpoint::Ident(ident)) {
        Ok(()) => Ok(()),
        Err(icmp::BindError::InvalidState) => Err(BindError::InvalidState),
        Err(icmp::BindError::Unaddressable) => Err(BindError::Unaddressable),
    }
}

/// `icmp::Socket::is_open`: whether the socket is bound to anything.
#[verifier::external_body]
pub(crate) fn smol_is_open(socket: &SmolSocket) -> (r: bool)
    ensures
        r == !(smol_endpoint(*socket) is Unspecified),
{
    socket.is_open()
}

/// `icmp::Socket::can_send`: whether a slot of the transmit buffer is free.
#[verifier::external_body]
pub(crate) fn smol_can_send(socket: &SmolSocket) -> (r: bool)
    ensures
        r == (smol_tx(*socket).len() < smol_tx_slots(*socket)),
{
    socket.can_send()
}

/// `icmp::Socket::can_recv`: whether a slot of the receive buffer is in use.
#[verifier::external_body]
pub(crate) fn smol_can_recv(socket: &SmolSocket) -> (r: bool)
    ensures
        r == (smol_rx(*socket).len() > 0),
{
    socket.can_recv()
}

/// `icmp::Socket::send_slice`, which is `send` and a copy into the buffer that `send` hands out.
/// An unspecified remote address is refused first. Otherwise the message is queued exactly if a slot
/// of the transmit buffer is free and the free bytes take it in one piece. Where it only fits at the
/// beginning of the ring, a filler is queued in front of it, and stays queued if there is no slot
/// left for the message itself.
#[verifier::external_body]
pub(crate) fn smol_send(socket: &mut SmolSocket, data: &[u8], remote: IpAddress) -> (r:
    Result<(), SendError>)
    ensures
        smol_state(*final(socket)) == send_outcome(smol_state(*old(socket)), (remote, data@)).0,
        r == send_outcome(smol_state(*old(socket)), (remote, data@)).1,
{
    let remote = match remote {
        IpAddress::Ipv4(bits) => smoltcp::wire::IpAddress::Ipv4(bits.into()),
        IpAddress::Ipv6(bits) => smoltcp::wire::IpAddress::Ipv6(bits.into()),
    };
    match socket.send_slice(data, remote) {
        Ok(()) => Ok(()),
        Err(icmp::SendError::Unaddressable) => Err(SendError::Unaddressable),
        Err(icmp::SendError::BufferFull) => Err(SendError::BufferFull),
    }
}

/// `icmp::Socket::recv`: it drops a filler at the front of the receive buffer, and then takes out
/// the oldest message, or reports `Exhausted` if nothing is left. Nothing else of the socket changes.
/// Fillers never stand side by side in a receive buffer: `PacketBuffer::enqueue`, by which the
/// network interface fills it, follows a filler with a message at the beginning of the ring.
#[verifier::external_body]
pub(crate) fn smol_recv(socket: &mut SmolSocket) -> (r: Result<
    (Vec<u8>, IpAddress),
    RecvError,
>)
    ensures
        fillers_apart(smol_rx(*old(socket))),
        match r {
            Ok((data, remote)) => {
                let slots = without_filler(smol_rx(*old(socket)));
                &&& slots.len() > 0
                &&& slots[0] == Some((remote, data@))
                &&& smol_rx(*final(socket)) == slots.skip(1)
            },
            Err(error) => {
                &&& error == RecvError::Exhausted
                &&& without_filler(smol_rx(*old(socket))).len() == 0
                &&& smol_rx(*final(socket)) == without_filler(smol_rx(*old(socket)))
            },
        },
        smol_state(*final(socket)) == (SmolState {
            rx: smol_rx(*final(socket)),
            ..smol_state(*old(socket))
        }),
{
    match socket.recv() {
        Ok((data, smoltcp::wire::IpAddress::Ipv4(bits))) => {
            Ok((data.to_vec(), IpAddress::Ipv4(bits.into())))
        },
        Ok((data, smoltcp::wire::IpAddress::Ipv6(bits))) => {
            Ok((data.to_vec(), IpAddress::Ipv6(bits.into())))
        },
        Err(icmp::RecvError::Exhausted) => Err(RecvError::Exhausted),
        Err(icmp::RecvError::Truncated) => Err(RecvError::Truncated),
    }
}

} // verus!
