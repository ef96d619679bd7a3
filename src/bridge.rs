use vstd::prelude::*;

use crate::error::Error;
use crate::message::{decode_message, encode_message, lemma_round_trip, valid_message, MessageView};
use crate::routing::{
    parse_message_data, recipient_view, Dispatch, InboundMessage, OutboundMessage, RouteView,
    SenderTag,
};

verus! {

/// What the mixnet client or the queues hand the pump.
pub enum PumpEvent {
    /// The mixnet client yielded a packet, with its reply tag if any.
    Received { payload: Vec<u8>, sender_tag: Option<SenderTag> },
    /// The mixnet client yields no more packets.
    ClientEnded,
    /// The outbound queue yielded a message.
    Outbound(OutboundMessage),
    /// Every sender of the outbound queue has been dropped.
    OutboundQueueClosed,
    /// The receiver of the inbound queue, or of the notify channel, has been dropped.
    InboundQueueClosed,
    /// The mixnet client failed to send or reply.
    SendFailed,
}

/// What the pump asks its driver to do next.
#[derive(Debug)]
pub enum PumpAction {
    /// Signal the notify channel if `notify`, then queue the message on the inbound queue.
    Deliver { message: InboundMessage, notify: bool },
    /// Hand the payload to the mixnet client by the route.
    Send(Dispatch),
    /// Report the error for this one message and carry on.
    Discard(Error),
    /// Stop the pump: the transport is dead.
    Stop(Error),
}

/// The mathematical value of a `PumpAction`.
pub enum ActionView {
    Deliver { message: MessageView, sender_tag: Option<SenderTag>, notify: bool },
    Send { route: RouteView, payload: Seq<u8> },
    Discard(Error),
    Stop(Error),
}

impl View for PumpAction {
    type V = ActionView;

    open spec fn view(&self) -> ActionView {
        match self {
            PumpAction::Deliver { message, notify } => ActionView::Deliver {
                message: message.message@,
                sender_tag: message.sender_tag,
                notify: *notify,
            },
            PumpAction::Send(d) => ActionView::Send { route: d.route@, payload: d.payload@ },
            PumpAction::Discard(e) => ActionView::Discard(*e),
            PumpAction::Stop(e) => ActionView::Stop(*e),
        }
    }
}

/// The error that an event makes fatal to the pump, if it is one.
pub open spec fn fatal_error(ev: PumpEvent) -> Option<Error> {
    match ev {
        PumpEvent::ClientEnded => Some(Error::ClientClosed),
        PumpEvent::OutboundQueueClosed => Some(Error::QueueClosed),
        PumpEvent::InboundQueueClosed => Some(Error::QueueClosed),
        _ => None,
    }
}

/// Why a pump in state `stopped` is stopped after `ev`, or `None` if it runs on.
pub open spec fn next_stopped(stopped: Option<Error>, ev: PumpEvent) -> Option<Error> {
    match stopped {
        Some(e) => Some(e),
        None => fatal_error(ev),
    }
}

/// What the pump does on `ev`: a running pump delivers what decodes, sends what
/// has a route, reports a single bad message and goes on, and stops when the
/// client or a queue is gone; a stopped pump stays stopped.
pub open spec fn outcome(notify: bool, stopped: Option<Error>, ev: PumpEvent) -> ActionView {
    match stopped {
        Some(e) => ActionView::Stop(e),
        None => match ev {
            PumpEvent::Received { payload, sender_tag } => match decode_message(payload@) {
                Some(m) => ActionView::Deliver { message: m, sender_tag, notify },
                None => ActionView::Discard(Error::MalformedMessage),
            },
            PumpEvent::Outbound(o) => match o.spec_route() {
                Some(route) => ActionView::Send {
                    route,
                    payload: encode_message(o.message@),
                },
                None => ActionView::Discard(Error::NoRouteAvailable),
            },
            PumpEvent::SendFailed => ActionView::Discard(Error::SendFailure),
            PumpEvent::ClientEnded => ActionView::Stop(Error::ClientClosed),
            PumpEvent::OutboundQueueClosed => ActionView::Stop(Error::QueueClosed),
            PumpEvent::InboundQueueClosed => ActionView::Stop(Error::QueueClosed),
        },
    }
}

/// The decisions of the bridge between the mixnet client and the two queues.
pub struct Pump {
    notify: bool,
    inbound_first: bool,
    stopped: Option<Error>,
}

impl Pump {
    /// Whether each delivery also signals the notify channel.
    pub closed spec fn notifies(&self) -> bool {
        self.notify
    }

    /// Whether the inbound branch is polled first in the next round.
    pub closed spec fn spec_inbound_first(&self) -> bool {
        self.inbound_first
    }

    /// Why the pump stopped, or `None` while it runs.
    pub closed spec fn spec_stopped(&self) -> Option<Error> {
        self.stopped
    }

    /// A running pump; `notify` tells whether a notify channel was supplied.
    pub fn new(notify: bool) -> (r: Pump)
        ensures
            r.notifies() == notify,
            r.spec_stopped() is None,
            r.spec_inbound_first(),
    {
        Pump { notify, inbound_first: true, stopped: None }
    }

    /// Why the pump stopped, or `None` while it runs.
    pub fn stopped(&self) -> (r: Option<Error>)
        ensures
            r == self.spec_stopped(),
    {
        self.stopped
    }

    /// Which branch to poll first in this round: inbound and outbound take
    /// turns, so that neither starves the other.
    pub fn poll_inbound_first(&mut self) -> (r: bool)
        ensures
            r == old(self).spec_inbound_first(),
            final(self).spec_inbound_first() == !r,
            final(self).notifies() == old(self).notifies(),
            final(self).spec_stopped() == old(self).spec_stopped(),
    {
        let r = self.inbound_first;
        self.inbound_first = !r;
        r
    }

    /// Decides what to do on one event.
    pub fn step(&mut self, ev: PumpEvent) -> (r: PumpAction)
        ensures
            r@ == outcome(old(self).notifies(), old(self).spec_stopped(), ev),
            final(self).spec_stopped() == next_stopped(old(self).spec_stopped(), ev),
            final(self).notifies() == old(self).notifies(),
            final(self).spec_inbound_first() == old(self).spec_inbound_first(),
    {
        if let Some(e) = self.stopped {
            return PumpAction::Stop(e);
        }
        match ev {
            PumpEvent::Received { payload, sender_tag } => match parse_message_data(
                payload.as_slice(),
                sender_tag,
            ) {
                Ok(message) => PumpAction::Deliver { message, notify: self.notify },
                Err(e) => PumpAction::Discard(e),
            },
            PumpEvent::Outbound(o) => match o.prepare() {
                Ok(d) => PumpAction::Send(d),
                Err(e) => PumpAction::Discard(e),
            },
            PumpEvent::SendFailed => PumpAction::Discard(Error::SendFailure),
            PumpEvent::ClientEnded => {
                self.stopped = Some(Error::ClientClosed);
                PumpAction::Stop(Error::ClientClosed)
            },
            PumpEvent::OutboundQueueClosed => {
                self.stopped = Some(Error::QueueClosed);
                PumpAction::Stop(Error::QueueClosed)
            },
            PumpEvent::InboundQueueClosed => {
                self.stopped = Some(Error::QueueClosed);
                PumpAction::Stop(Error::QueueClosed)
            },
        }
    }
}

/// An undecodable packet is reported and dropped without stopping the pump,
/// and a valid packet after it is still delivered.
pub proof fn lemma_malformed_packet_keeps_pump_running(
    notify: bool,
    bad: PumpEvent,
    good: PumpEvent,
)
    requires
        bad matches PumpEvent::Received { payload, .. } && decode_message(payload@) is None,
        good matches PumpEvent::Received { payload, .. } && decode_message(payload@) is Some,
    ensures
        outcome(notify, None, bad) == ActionView::Discard(Error::MalformedMessage),
        next_stopped(None, bad) is None,
        outcome(notify, next_stopped(None, bad), good) matches ActionView::Deliver { message, .. }
            && good matches PumpEvent::Received { payload, .. } && decode_message(payload@)
            == Some(message),
{
}

/// A running pump sends a message that carries a sender tag as a reply through
/// that tag, whether or not it also names a recipient.
pub proof fn lemma_pump_prefers_reply(notify: bool, o: OutboundMessage)
    requires
        o.sender_tag is Some,
    ensures
        outcome(notify, None, PumpEvent::Outbound(o)) == (ActionView::Send {
            route: RouteView::Reply(o.sender_tag->Some_0),
            payload: encode_message(o.message@),
        }),
{
}

/// A running pump hands nothing to the mixnet client for a message with
/// neither a recipient nor a sender tag: it reports `NoRouteAvailable` and runs on.
pub proof fn lemma_pump_rejects_unaddressed(notify: bool, o: OutboundMessage)
    requires
        o.recipient is None,
        o.sender_tag is None,
    ensures
        outcome(notify, None, PumpEvent::Outbound(o)) == ActionView::Discard(
            Error::NoRouteAvailable,
        ),
        next_stopped(None, PumpEvent::Outbound(o)) is None,
{
}

/// While the pump runs, every outbound message that has a route is handed to
/// the mixnet client, and the pump runs on.
pub proof fn lemma_pump_dispatches_routable(notify: bool, o: OutboundMessage)
    requires
        o.recipient is Some || o.sender_tag is Some,
    ensures
        outcome(notify, None, PumpEvent::Outbound(o)) matches ActionView::Send { route, payload }
            && o.spec_route() == Some(route) && payload == encode_message(o.message@),
        next_stopped(None, PumpEvent::Outbound(o)) is None,
{
}

/// A valid message sent directly to a recipient comes out, when the packet
/// reaches that recipient's pump, as the same message, once.
pub proof fn lemma_loopback(notify: bool, o: OutboundMessage, received: PumpEvent)
    requires
        o.recipient is Some,
        o.sender_tag is None,
        valid_message(o.message@),
        received matches PumpEvent::Received { payload, .. } && payload@ == encode_message(
            o.message@,
        ),
    ensures
        outcome(notify, None, PumpEvent::Outbound(o)) == (ActionView::Send {
            route: RouteView::Direct(recipient_view(o.recipient)->Some_0),
            payload: encode_message(o.message@),
        }),
        outcome(notify, None, received) == (ActionView::Deliver {
            message: o.message@,
            sender_tag: received->Received_sender_tag,
            notify,
        }),
        next_stopped(None, received) is None,
{
    lemma_round_trip(o.message@);
}

/// Once the pump has stopped it stays stopped, for the same reason, whatever
/// comes next: nothing is delivered or sent after the transport is dead.
pub proof fn lemma_stop_is_final(notify: bool, e: Error, ev: PumpEvent)
    ensures
        outcome(notify, Some(e), ev) == ActionView::Stop(e),
        next_stopped(Some(e), ev) == Some(e),
{
}

} // verus!
