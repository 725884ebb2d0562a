//! axpoll's readiness flags, by their bits.
use axpoll::IoEvents;
use vstd::prelude::*;

verus! {

/// axpoll's set of readiness events.
#[verifier::external_type_specification]
#[verifier::external_body]
pub struct ExIoEvents(IoEvents);

/// The bits of an event set.
pub uninterp spec fn event_bits(events: IoEvents) -> u32;

/// The bit of `IoEvents::IN`: the socket can be read from.
pub const IN_BIT: u32 = 1;

/// The bit of `IoEvents::OUT`: the socket can be written to.
pub const OUT_BIT: u32 = 4;

/// `IoEvents::empty`: no event.
#[verifier::external_body]
pub(crate) fn events_empty() -> (r: IoEvents)
    ensures
        event_bits(r) == 0,
{
    IoEvents::empty()
}

/// The constant `IoEvents::IN`, which is `POLLIN`.
#[verifier::external_body]
fn events_in() -> (r: IoEvents)
    ensures
        event_bits(r) == IN_BIT,
{
    IoEvents::IN
}

/// The constant `IoEvents::OUT`, which is `POLLOUT`.
#[verifier::external_body]
fn events_out() -> (r: IoEvents)
    ensures
        event_bits(r) == OUT_BIT,
{
    IoEvents::OUT
}

/// `IoEvents::set`: it sets the bits of `other` where `value` holds, and clears them where it
/// does not.
#[verifier::external_body]
fn events_set(events: &mut IoEvents, other: IoEvents, value: bool)
    ensures
        event_bits(*final(events)) == (if value {
            event_bits(*old(events)) | event_bits(other)
        } else {
            event_bits(*old(events)) & !event_bits(other)
        }),
{
    events.set(other, value)
}

/// `IoEvents::union`: the events of either set.
#[verifier::external_body]
fn events_union(events: IoEvents, other: IoEvents) -> (r: IoEvents)
    ensures
        event_bits(r) == event_bits(events) | event_bits(other),
{
    events.union(other)
}

/// `IoEvents::intersects`: whether the two sets share an event.
#[verifier::external_body]
fn events_intersects(events: IoEvents, other: IoEvents) -> (r: bool)
    ensures
        r == (event_bits(events) & event_bits(other) != 0),
{
    events.intersects(other)
}

/// The bits of the events of a socket that is ready as given.
pub open spec fn readiness_bits(readable: bool, writable: bool) -> u32 {
    match (readable, writable) {
        (false, false) => 0,
        (true, false) => IN_BIT,
        (false, true) => OUT_BIT,
        (true, true) => IN_BIT | OUT_BIT,
    }
}

/// The events of a socket that can be read from, or written to, as given.
pub fn readiness(readable: bool, writable: bool) -> (r: IoEvents)
    ensures
        event_bits(r) == readiness_bits(readable, writable),
{
    let mut events = events_empty();
    events_set(&mut events, events_in(), readable);
    events_set(&mut events, events_out(), writable);
    proof {
        assert(0u32 | 1 == 1 && 0u32 | 4 == 4 && 0u32 & !1u32 == 0 && 0u32 & !4u32 == 0 && 1u32
            & !4u32 == 1) by (bit_vector);
    }
    events
}

/// Whether a wait for these events is one that a socket has to wake: one for input or output.
pub fn wants_wakeup(events: IoEvents) -> (r: bool)
    ensures
        r == (event_bits(events) & (IN_BIT | OUT_BIT) != 0),
{
    events_intersects(events, events_union(events_in(), events_out()))
}

} // verus!
