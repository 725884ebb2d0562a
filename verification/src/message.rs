//! The parts of an ICMP echo message that a raw socket looks at.
use vstd::prelude::*;

verus! {

/// Bytes in the header of an echo message.
pub const ECHO_HEADER_LEN: usize = 8;

/// The type byte of an echo request.
pub const ECHO_REQUEST: u8 = 8;

/// The type byte of an echo reply.
pub const ECHO_REPLY: u8 = 0;

/// The number that two bytes spell in network byte order.
pub open spec fn be16(hi: u8, lo: u8) -> u16 {
    (hi * 256 + lo) as u16
}

/// The identifier of an echo request, or `None` where the message is none.
pub open spec fn request_ident(message: Seq<u8>) -> Option<u16> {
    if message.len() >= ECHO_HEADER_LEN && message[0] == ECHO_REQUEST {
        Some(be16(message[4], message[5]))
    } else {
        None
    }
}

/// Whether the message is an echo reply: a whole header, the reply's type, and code zero.
pub open spec fn is_echo_reply(message: Seq<u8>) -> bool {
    &&& message.len() >= ECHO_HEADER_LEN
    &&& message[0] == ECHO_REPLY
    &&& message[1] == 0
}

/// Reads the identifier of an echo request.
pub fn echo_request_ident(message: &Vec<u8>) -> (r: Option<u16>)
    ensures
        r == request_ident(message@),
{
    if message.len() >= ECHO_HEADER_LEN && message[0] == ECHO_REQUEST {
        Some(message[4] as u16 * 256 + message[5] as u16)
    } else {
        None
    }
}

/// Tells echo replies from other messages.
pub fn check_echo_reply(message: &Vec<u8>) -> (r: bool)
    ensures
        r == is_echo_reply(message@),
{
    message.len() >= ECHO_HEADER_LEN && message[0] == ECHO_REPLY && message[1] == 0
}

} // verus!
