use vstd::prelude::*;

use crate::error::Error;
use crate::message::{decode_message, encode_message, Message, MessageView};

verus! {

/// A stable mixnet address, used to initiate contact with a peer.
#[derive(Clone, Debug)]
pub struct Recipient {
    pub bytes: Vec<u8>,
}

impl View for Recipient {
    type V = Seq<u8>;

    open spec fn view(&self) -> Seq<u8> {
        self.bytes@
    }
}

/// An anonymous reply handle, derived from a received packet.
#[derive(Clone, Copy, Debug, PartialEq, Eq, Hash, Structural)]
pub struct SenderTag(pub u128);

/// A message to be written to the mixnet, with the ways to address it.
#[derive(Clone, Debug)]
pub struct OutboundMessage {
    pub message: Message,
    pub recipient: Option<Recipient>,
    pub sender_tag: Option<SenderTag>,
}

/// A message read from the mixnet, with the tag that a reply to it can use.
#[derive(Clone, Debug)]
pub struct InboundMessage {
    pub message: Message,
    pub sender_tag: Option<SenderTag>,
}

/// How a message leaves through the mixnet client.
#[derive(Clone, Debug)]
pub enum Route {
    /// An anonymous reply through a sender tag.
    Reply(SenderTag),
    /// A direct send to a recipient address.
    Direct(Recipient),
}

/// The mathematical value of a `Route`.
pub enum RouteView {
    Reply(SenderTag),
    Direct(Seq<u8>),
}

impl View for Route {
    type V = RouteView;

    open spec fn view(&self) -> RouteView {
        match self {
            Route::Reply(t) => RouteView::Reply(*t),
            Route::Direct(r) => RouteView::Direct(r@),
        }
    }
}

/// The address bytes of an optional recipient.
pub open spec fn recipient_view(r: Option<Recipient>) -> Option<Seq<u8>> {
    match r {
        Some(x) => Some(x@),
        None => None,
    }
}

/// The route a message takes: a sender tag wins over a recipient; with neither
/// there is none.
pub open spec fn route_of(recipient: Option<Seq<u8>>, sender_tag: Option<SenderTag>) -> Option<
    RouteView,
> {
    match (recipient, sender_tag) {
        (_, Some(t)) => Some(RouteView::Reply(t)),
        (Some(r), None) => Some(RouteView::Direct(r)),
        (None, None) => None,
    }
}

/// A message ready for the mixnet client: where to send it and its bytes.
#[derive(Clone, Debug)]
pub struct Dispatch {
    pub route: Route,
    pub payload: Vec<u8>,
}

impl OutboundMessage {
    /// The route of this message by its own addressing fields.
    pub open spec fn spec_route(&self) -> Option<RouteView> {
        route_of(recipient_view(self.recipient), self.sender_tag)
    }

    /// An outbound message; refused with `NoRouteAvailable` when it names
    /// neither a recipient nor a sender tag.
    pub fn new(message: Message, recipient: Option<Recipient>, sender_tag: Option<SenderTag>) -> (r:
        Result<OutboundMessage, Error>)
        ensures
            match r {
                Ok(o) => o.message@ == message@ && recipient_view(o.recipient) == recipient_view(
                    recipient,
                ) && o.sender_tag == sender_tag,
                Err(e) => recipient is None && sender_tag is None && e == Error::NoRouteAvailable,
            },
            r is Ok <==> (recipient is Some || sender_tag is Some),
    {
        if recipient.is_none() && sender_tag.is_none() {
            Err(Error::NoRouteAvailable)
        } else {
            Ok(OutboundMessage { message, recipient, sender_tag })
        }
    }

    /// The route this message takes, or `NoRouteAvailable`.
    pub fn route(&self) -> (r: Result<Route, Error>)
        ensures
            match r {
                Ok(x) => self.spec_route() == Some(x@),
                Err(e) => self.spec_route() is None && e == Error::NoRouteAvailable,
            },
    {
        match (&self.recipient, &self.sender_tag) {
            (_, Some(t)) => Ok(Route::Reply(*t)),
            (Some(rec), None) => Ok(Route::Direct(Recipient { bytes: rec.bytes.clone() })),
            (None, None) => Err(Error::NoRouteAvailable),
        }
    }

    /// The route and the encoded bytes of this message; `NoRouteAvailable`,
    /// with nothing encoded, when it has no route.
    pub fn prepare(&self) -> (r: Result<Dispatch, Error>)
        ensures
            match r {
                Ok(d) => self.spec_route() == Some(d.route@) && d.payload@ == encode_message(
                    self.message@,
                ),
                Err(e) => self.spec_route() is None && e == Error::NoRouteAvailable,
            },
    {
        match self.route() {
            Ok(route) => Ok(Dispatch { route, payload: self.message.to_bytes() }),
            Err(e) => Err(e),
        }
    }
}

/// The inbound message that a received packet carries, with the packet's reply
/// tag; `MalformedMessage` exactly when the packet decodes to no message.
pub fn parse_message_data(data: &[u8], sender_tag: Option<SenderTag>) -> (r: Result<
    InboundMessage,
    Error,
>)
    ensures
        match r {
            Ok(i) => decode_message(data@) == Some(i.message@) && i.sender_tag == sender_tag,
            Err(e) => decode_message(data@) is None && e == Error::MalformedMessage,
        },
{
    match Message::from_bytes(data) {
        Ok(message) => Ok(InboundMessage { message, sender_tag }),
        Err(e) => Err(e),
    }
}

/// A message with both a recipient and a sender tag goes out as a reply
/// through the tag, never directly to the recipient.
pub proof fn lemma_reply_takes_precedence(o: OutboundMessage)
    requires
        o.recipient is Some,
        o.sender_tag is Some,
    ensures
        o.spec_route() == Some(RouteView::Reply(o.sender_tag->Some_0)),
{
}

/// A message with neither a recipient nor a sender tag has no route.
pub proof fn lemma_no_route_without_address(o: OutboundMessage)
    requires
        o.recipient is None,
        o.sender_tag is None,
    ensures
        o.spec_route() is None,
{
}

} // verus!
