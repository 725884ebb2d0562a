//! smoltcp's socket set, as far as its ICMP sockets go.
use smoltcp::iface::{SocketHandle, SocketSet};
use vstd::prelude::*;

use crate::smol::SmolSocket;

verus! {

/// smoltcp's handle to a socket of a set.
#[verifier::external_type_specification]
#[verifier::external_body]
pub struct ExSocketHandle(SocketHandle);

/// smoltcp's set of sockets.
#[verifier::external_type_specification]
#[verifier::external_body]
pub struct ExSocketSet<'a>(SocketSet<'a>);

/// The ICMP sockets of a set, by their handles.
pub uninterp spec fn smol_sockets(set: SocketSet<'static>) -> Map<SocketHandle, SmolSocket>;

/// Whether the set makes room for any number of sockets.
pub uninterp spec fn socket_set_grows(set: SocketSet<'static>) -> bool;

/// `SocketSet::new` over an empty vector: a set without sockets, which grows as they are added.
#[verifier::external_body]
fn socket_set_new() -> (r: SocketSet<'static>)
    ensures
        smol_sockets(r).dom() == Set::<SocketHandle>::empty(),
        socket_set_grows(r),
{
    SocketSet::new(Vec::new())
}

/// `SocketSet::add`, for an ICMP socket: it keeps the socket under a handle that no socket of the
/// set had. It panics when a set that does not grow is full.
#[verifier::external_body]
pub(crate) fn socket_add(set: &mut SocketSet<'static>, socket: SmolSocket) -> (r: SocketHandle)
    requires
        socket_set_grows(*old(set)),
    ensures
        !smol_sockets(*old(set)).dom().contains(r),
        smol_sockets(*final(set)) == smol_sockets(*old(set)).insert(r, socket),
        socket_set_grows(*final(set)),
{
    set.add(socket)
}

/// `SocketSet::get`, for an ICMP socket: the socket under the handle. It panics where there is
/// none, or one of another kind.
#[verifier::external_body]
pub(crate) fn socket_ref<'s>(set: &'s SocketSet<'static>, handle: SocketHandle) -> (r:
    &'s SmolSocket)
    requires
        smol_sockets(*set).dom().contains(handle),
    ensures
        *r == smol_sockets(*set)[handle],
{
    set.get::<SmolSocket>(handle)
}

/// `SocketSet::get_mut`, for an ICMP socket: the socket under the handle, to be changed in place.
/// It panics where there is none, or one of another kind.
#[verifier::external_body]
pub(crate) fn socket_mut<'s>(set: &'s mut SocketSet<'static>, handle: SocketHandle) -> (r:
    &'s mut SmolSocket)
    requires
        smol_sockets(*old(set)).dom().contains(handle),
    ensures
        *r == smol_sockets(*old(set))[handle],
        smol_sockets(*final(set)) == smol_sockets(*old(set)).insert(handle, *final(r)),
        socket_set_grows(*final(set)) == socket_set_grows(*old(set)),
{
    set.get_mut::<SmolSocket>(handle)
}

/// `SocketSet::remove`: it takes the socket under the handle out of the set. It panics where there
/// is none.
#[verifier::external_body]
pub(crate) fn socket_remove(set: &mut SocketSet<'static>, handle: SocketHandle)
    requires
        smol_sockets(*old(set)).dom().contains(handle),
    ensures
        smol_sockets(*final(set)) == smol_sockets(*old(set)).remove(handle),
        socket_set_grows(*final(set)) == socket_set_grows(*old(set)),
{
    set.remove(handle);
}

/// An empty socket set that raw sockets can be added to.
pub fn new_socket_set() -> (r: SocketSet<'static>)
    ensures
        smol_sockets(r).dom() == Set::<SocketHandle>::empty(),
        socket_set_grows(r),
{
    socket_set_new()
}

} // verus!
