use vstd::prelude::*;

verus! {

/// The ways in which moving a message through the transport can fail.
#[derive(Clone, Copy, Debug, PartialEq, Eq, Structural)]
pub enum Error {
    /// A received byte buffer does not decode to a message.
    MalformedMessage,
    /// An outbound message names neither a recipient nor a sender tag.
    NoRouteAvailable,
    /// The mixnet client could not send or reply.
    SendFailure,
    /// The counterpart of the inbound or outbound queue has been dropped.
    QueueClosed,
    /// The mixnet client stopped yielding packets.
    ClientClosed,
}

} // verus!
