use vstd::prelude::*;

verus! {

/// The error kinds the stack surfaces; callers map each onto the matching
/// host I/O error kind.
#[derive(Clone, Copy, Debug, PartialEq, Eq, Structural)]
pub enum StackError {
    /// A malformed IP frame was handed to the ingress sink.
    InvalidInput,
    /// A UDP send mixed an IPv4 endpoint with an IPv6 endpoint.
    InvalidData,
    /// A write on a connection whose send half is no longer open.
    BrokenPipe,
    /// A protocol queue was closed under the sender.
    ChannelClosed,
    /// The builder was asked for ICMP without TCP, whose engine answers it.
    IcmpRequiresTcp,
}

/// The error a sender sees when a protocol queue has been closed under it.
pub fn channel_closed_err() -> (r: StackError)
    ensures
        r == StackError::ChannelClosed,
{
    StackError::ChannelClosed
}

} // verus!
