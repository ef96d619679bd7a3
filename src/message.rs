use vstd::bytes::*;
use vstd::prelude::*;
use vstd::slice::{slice_subrange, slice_to_vec};

use crate::error::Error;

verus! {

/// Leading byte of an encoded connection request.
pub const TAG_CONNECTION_REQUEST: u8 = 0;

/// Leading byte of an encoded connection response.
pub const TAG_CONNECTION_RESPONSE: u8 = 1;

/// Leading byte of an encoded transport message.
pub const TAG_TRANSPORT: u8 = 2;

/// Substream message kind bytes.
pub const KIND_OPEN_REQUEST: u8 = 0;

pub const KIND_OPEN_RESPONSE: u8 = 1;

pub const KIND_DATA: u8 = 2;

pub const KIND_CLOSE: u8 = 3;

/// Length of the header of an encoded connection message: tag and connection id.
pub const CONNECTION_HEADER_LEN: usize = 17;

/// Length of the header of an encoded transport message: tag, nonce, connection
/// id, substream id and kind byte.
pub const TRANSPORT_HEADER_LEN: usize = 42;

/// Identifies one logical connection between two mixnet addresses.
#[derive(Clone, Copy, Debug, PartialEq, Eq, Hash, Structural)]
pub struct ConnectionId(pub u128);

/// Identifies one logical byte stream inside a connection.
#[derive(Clone, Copy, Debug, PartialEq, Eq, Hash, Structural)]
pub struct SubstreamId(pub u128);

/// Hands out connection and substream identifiers that are never handed out
/// twice by the same generator.
pub struct IdGenerator {
    next: u128,
}

impl IdGenerator {
    /// The value that the next identifier will carry.
    pub closed spec fn next_value(&self) -> u128 {
        self.next
    }

    pub fn new() -> (r: IdGenerator)
        ensures
            r.next_value() == 0,
    {
        IdGenerator { next: 0 }
    }

    /// Whether the generator can hand out another identifier.
    pub fn has_next(&self) -> (r: bool)
        ensures
            r == (self.next_value() < u128::MAX),
    {
        self.next < u128::MAX
    }

    fn take(&mut self) -> (r: u128)
        requires
            old(self).next_value() < u128::MAX,
        ensures
            r == old(self).next_value(),
            final(self).next_value() == old(self).next_value() + 1,
    {
        let r = self.next;
        self.next = self.next + 1;
        r
    }
}

impl ConnectionId {
    /// A fresh connection id: larger than every id the generator gave before.
    pub fn generate(ids: &mut IdGenerator) -> (r: ConnectionId)
        requires
            old(ids).next_value() < u128::MAX,
        ensures
            r.0 == old(ids).next_value(),
            final(ids).next_value() == old(ids).next_value() + 1,
    {
        ConnectionId(ids.take())
    }
}

impl SubstreamId {
    /// A fresh substream id: larger than every id the generator gave before.
    pub fn generate(ids: &mut IdGenerator) -> (r: SubstreamId)
        requires
            old(ids).next_value() < u128::MAX,
        ensures
            r.0 == old(ids).next_value(),
            final(ids).next_value() == old(ids).next_value() + 1,
    {
        SubstreamId(ids.take())
    }
}

/// What a substream message asks of its substream.
#[derive(Clone, Debug)]
pub enum SubstreamMessageType {
    OpenRequest,
    OpenResponse,
    Data(Vec<u8>),
    Close,
}

/// A message addressed to one substream.
#[derive(Clone, Debug)]
pub struct SubstreamMessage {
    pub substream_id: SubstreamId,
    pub message_type: SubstreamMessageType,
}

/// The identity material of a connection request or response.
#[derive(Clone, Debug)]
pub struct ConnectionMessage {
    pub peer_id: Vec<u8>,
    pub id: ConnectionId,
}

/// A substream message carried on a connection.
#[derive(Clone, Debug)]
pub struct TransportMessage {
    pub nonce: u64,
    pub id: ConnectionId,
    pub message: SubstreamMessage,
}

/// The messages exchanged over the mixnet.
#[derive(Clone, Debug)]
pub enum Message {
    ConnectionRequest(ConnectionMessage),
    ConnectionResponse(ConnectionMessage),
    TransportMessage(TransportMessage),
}

/// The mathematical value of a `SubstreamMessageType`.
pub enum SubstreamTypeView {
    OpenRequest,
    OpenResponse,
    Data(Seq<u8>),
    Close,
}

/// The mathematical value of a `SubstreamMessage`.
pub struct SubstreamMessageView {
    pub substream_id: SubstreamId,
    pub message_type: SubstreamTypeView,
}

/// The mathematical value of a `ConnectionMessage`.
pub struct ConnectionView {
    pub peer_id: Seq<u8>,
    pub id: ConnectionId,
}

/// The mathematical value of a `TransportMessage`.
pub struct TransportView {
    pub nonce: u64,
    pub id: ConnectionId,
    pub message: SubstreamMessageView,
}

/// The mathematical value of a `Message`.
pub enum MessageView {
    ConnectionRequest(ConnectionView),
    ConnectionResponse(ConnectionView),
    TransportMessage(TransportView),
}

impl View for SubstreamMessageType {
    type V = SubstreamTypeView;

    open spec fn view(&self) -> SubstreamTypeView {
        match self {
            SubstreamMessageType::OpenRequest => SubstreamTypeView::OpenRequest,
            SubstreamMessageType::OpenResponse => SubstreamTypeView::OpenResponse,
            SubstreamMessageType::Data(d) => SubstreamTypeView::Data(d@),
            SubstreamMessageType::Close => SubstreamTypeView::Close,
        }
    }
}

impl View for SubstreamMessage {
    type V = SubstreamMessageView;

    open spec fn view(&self) -> SubstreamMessageView {
        SubstreamMessageView { substream_id: self.substream_id, message_type: self.message_type@ }
    }
}

impl View for ConnectionMessage {
    type V = ConnectionView;

    open spec fn view(&self) -> ConnectionView {
        ConnectionView { peer_id: self.peer_id@, id: self.id }
    }
}

impl View for TransportMessage {
    type V = TransportView;

    open spec fn view(&self) -> TransportView {
        TransportView { nonce: self.nonce, id: self.id, message: self.message@ }
    }
}

impl View for Message {
    type V = MessageView;

    open spec fn view(&self) -> MessageView {
        match self {
            Message::ConnectionRequest(c) => MessageView::ConnectionRequest(c@),
            Message::ConnectionResponse(c) => MessageView::ConnectionResponse(c@),
            Message::TransportMessage(t) => MessageView::TransportMessage(t@),
        }
    }
}

/// A message is valid when every data chunk it carries is non-empty.
pub open spec fn valid_message(m: MessageView) -> bool {
    match m {
        MessageView::TransportMessage(t) => match t.message.message_type {
            SubstreamTypeView::Data(d) => d.len() > 0,
            _ => true,
        },
        _ => true,
    }
}

/// The bytes that follow the fixed header of an encoded substream message.
pub open spec fn encode_substream_type(k: SubstreamTypeView) -> Seq<u8> {
    match k {
        SubstreamTypeView::OpenRequest => seq![KIND_OPEN_REQUEST],
        SubstreamTypeView::OpenResponse => seq![KIND_OPEN_RESPONSE],
        SubstreamTypeView::Data(d) => seq![KIND_DATA] + d,
        SubstreamTypeView::Close => seq![KIND_CLOSE],
    }
}

/// Encoding of a connection message after its tag byte.
pub open spec fn encode_connection(c: ConnectionView) -> Seq<u8> {
    spec_u128_to_le_bytes(c.id.0) + c.peer_id
}

/// Encoding of a transport message after its tag byte.
pub open spec fn encode_transport(t: TransportView) -> Seq<u8> {
    spec_u64_to_le_bytes(t.nonce) + spec_u128_to_le_bytes(t.id.0) + spec_u128_to_le_bytes(
        t.message.substream_id.0,
    ) + encode_substream_type(t.message.message_type)
}

/// The wire encoding of a message: a tag byte, then the fields in order, with
/// integers in little-endian and the variable-length part last.
pub open spec fn encode_message(m: MessageView) -> Seq<u8> {
    match m {
        MessageView::ConnectionRequest(c) => seq![TAG_CONNECTION_REQUEST] + encode_connection(c),
        MessageView::ConnectionResponse(c) => seq![TAG_CONNECTION_RESPONSE] + encode_connection(c),
        MessageView::TransportMessage(t) => seq![TAG_TRANSPORT] + encode_transport(t),
    }
}

/// The connection message that `b` encodes, past its tag byte.
pub open spec fn decode_connection(b: Seq<u8>) -> ConnectionView {
    ConnectionView {
        peer_id: b.subrange(CONNECTION_HEADER_LEN as int, b.len() as int),
        id: ConnectionId(spec_u128_from_le_bytes(b.subrange(1, 17))),
    }
}

/// The substream message kind that `b` encodes from its kind byte on, if any.
pub open spec fn decode_substream_type(b: Seq<u8>) -> Option<SubstreamTypeView> {
    let k = b[TRANSPORT_HEADER_LEN - 1];
    let at_end = b.len() == TRANSPORT_HEADER_LEN;
    if k == KIND_OPEN_REQUEST && at_end {
        Some(SubstreamTypeView::OpenRequest)
    } else if k == KIND_OPEN_RESPONSE && at_end {
        Some(SubstreamTypeView::OpenResponse)
    } else if k == KIND_DATA && !at_end {
        Some(SubstreamTypeView::Data(b.subrange(TRANSPORT_HEADER_LEN as int, b.len() as int)))
    } else if k == KIND_CLOSE && at_end {
        Some(SubstreamTypeView::Close)
    } else {
        None
    }
}

/// The message that a byte buffer encodes, or `None` when it is malformed.
pub open spec fn decode_message(b: Seq<u8>) -> Option<MessageView> {
    if b.len() >= CONNECTION_HEADER_LEN && b[0] == TAG_CONNECTION_REQUEST {
        Some(MessageView::ConnectionRequest(decode_connection(b)))
    } else if b.len() >= CONNECTION_HEADER_LEN && b[0] == TAG_CONNECTION_RESPONSE {
        Some(MessageView::ConnectionResponse(decode_connection(b)))
    } else if b.len() >= TRANSPORT_HEADER_LEN && b[0] == TAG_TRANSPORT {
        match decode_substream_type(b) {
            Some(k) => Some(
                MessageView::TransportMessage(
                    TransportView {
                        nonce: spec_u64_from_le_bytes(b.subrange(1, 9)),
                        id: ConnectionId(spec_u128_from_le_bytes(b.subrange(9, 25))),
                        message: SubstreamMessageView {
                            substream_id: SubstreamId(spec_u128_from_le_bytes(b.subrange(25, 41))),
                            message_type: k,
                        },
                    },
                ),
            ),
            None => None,
        }
    } else {
        None
    }
}


impl SubstreamMessage {
    /// A data chunk for a substream; an empty chunk is written as a close instead.
    pub fn new_with_data(substream_id: SubstreamId, data: Vec<u8>) -> (r: SubstreamMessage)
        requires
            data@.len() > 0,
        ensures
            r@ == (SubstreamMessageView {
                substream_id,
                message_type: SubstreamTypeView::Data(data@),
            }),
    {
        SubstreamMessage { substream_id, message_type: SubstreamMessageType::Data(data) }
    }
}

impl SubstreamMessageType {
    /// Appends the kind byte and, for data, the chunk.
    fn write_to(&self, out: &mut Vec<u8>)
        ensures
            final(out)@ == old(out)@ + encode_substream_type(self@),
    {
        match self {
            SubstreamMessageType::OpenRequest => out.push(KIND_OPEN_REQUEST),
            SubstreamMessageType::OpenResponse => out.push(KIND_OPEN_RESPONSE),
            SubstreamMessageType::Data(d) => {
                out.push(KIND_DATA);
                let mut chunk = slice_to_vec(d.as_slice());
                out.append(&mut chunk);
            },
            SubstreamMessageType::Close => out.push(KIND_CLOSE),
        }
        assert(final(out)@ =~= old(out)@ + encode_substream_type(self@));
    }
}

impl ConnectionMessage {
    /// Appends the connection id and the peer identity.
    fn write_to(&self, out: &mut Vec<u8>)
        ensures
            final(out)@ == old(out)@ + encode_connection(self@),
    {
        let mut id = u128_to_le_bytes(self.id.0);
        out.append(&mut id);
        let mut peer = slice_to_vec(self.peer_id.as_slice());
        out.append(&mut peer);
        assert(final(out)@ =~= old(out)@ + encode_connection(self@));
    }
}

impl TransportMessage {
    /// Appends the nonce, the connection id and the substream message.
    fn write_to(&self, out: &mut Vec<u8>)
        ensures
            final(out)@ == old(out)@ + encode_transport(self@),
    {
        let mut nonce = u64_to_le_bytes(self.nonce);
        out.append(&mut nonce);
        let mut id = u128_to_le_bytes(self.id.0);
        out.append(&mut id);
        let mut sid = u128_to_le_bytes(self.message.substream_id.0);
        out.append(&mut sid);
        self.message.message_type.write_to(out);
        assert(final(out)@ =~= old(out)@ + encode_transport(self@));
    }
}

impl Message {
    /// The wire encoding of the message.
    pub fn to_bytes(&self) -> (r: Vec<u8>)
        ensures
            r@ == encode_message(self@),
    {
        let mut out: Vec<u8> = Vec::new();
        match self {
            Message::ConnectionRequest(c) => {
                out.push(TAG_CONNECTION_REQUEST);
                c.write_to(&mut out);
            },
            Message::ConnectionResponse(c) => {
                out.push(TAG_CONNECTION_RESPONSE);
                c.write_to(&mut out);
            },
            Message::TransportMessage(t) => {
                out.push(TAG_TRANSPORT);
                t.write_to(&mut out);
            },
        }
        assert(out@ =~= encode_message(self@));
        out
    }

    /// The message that `b` encodes; `MalformedMessage` exactly when it encodes none.
    pub fn from_bytes(b: &[u8]) -> (r: Result<Message, Error>)
        ensures
            match r {
                Ok(m) => decode_message(b@) == Some(m@),
                Err(e) => decode_message(b@) is None && e == Error::MalformedMessage,
            },
    {
        let n = b.len();
        if n >= CONNECTION_HEADER_LEN && (b[0] == TAG_CONNECTION_REQUEST || b[0]
            == TAG_CONNECTION_RESPONSE) {
            let id = u128_from_le_bytes(slice_subrange(b, 1, 17));
            let peer_id = slice_to_vec(slice_subrange(b, CONNECTION_HEADER_LEN, n));
            let c = ConnectionMessage { peer_id, id: ConnectionId(id) };
            if b[0] == TAG_CONNECTION_REQUEST {
                Ok(Message::ConnectionRequest(c))
            } else {
                Ok(Message::ConnectionResponse(c))
            }
        } else if n >= TRANSPORT_HEADER_LEN && b[0] == TAG_TRANSPORT {
            let k = b[TRANSPORT_HEADER_LEN - 1];
            let at_end = n == TRANSPORT_HEADER_LEN;
            let message_type = if k == KIND_OPEN_REQUEST && at_end {
                SubstreamMessageType::OpenRequest
            } else if k == KIND_OPEN_RESPONSE && at_end {
                SubstreamMessageType::OpenResponse
            } else if k == KIND_DATA && !at_end {
                SubstreamMessageType::Data(slice_to_vec(slice_subrange(b, TRANSPORT_HEADER_LEN, n)))
            } else if k == KIND_CLOSE && at_end {
                SubstreamMessageType::Close
            } else {
                return Err(Error::MalformedMessage);
            };
            let nonce = u64_from_le_bytes(slice_subrange(b, 1, 9));
            let id = u128_from_le_bytes(slice_subrange(b, 9, 25));
            let sid = u128_from_le_bytes(slice_subrange(b, 25, 41));
            Ok(
                Message::TransportMessage(
                    TransportMessage {
                        nonce,
                        id: ConnectionId(id),
                        message: SubstreamMessage { substream_id: SubstreamId(sid), message_type },
                    },
                ),
            )
        } else {
            Err(Error::MalformedMessage)
        }
    }
}

/// The kind of a message, for reporting what goes through the transport.
#[derive(Clone, Copy, Debug, PartialEq, Eq, Structural)]
pub enum MessageKind {
    ConnectionRequest,
    ConnectionResponse,
    OpenRequest,
    OpenResponse,
    Data,
    Close,
}

/// The kind of a message: its variant, and for a transport message the kind
/// of its substream message.
pub open spec fn kind_of(m: MessageView) -> MessageKind {
    match m {
        MessageView::ConnectionRequest(_) => MessageKind::ConnectionRequest,
        MessageView::ConnectionResponse(_) => MessageKind::ConnectionResponse,
        MessageView::TransportMessage(t) => match t.message.message_type {
            SubstreamTypeView::OpenRequest => MessageKind::OpenRequest,
            SubstreamTypeView::OpenResponse => MessageKind::OpenResponse,
            SubstreamTypeView::Data(_) => MessageKind::Data,
            SubstreamTypeView::Close => MessageKind::Close,
        },
    }
}

impl Message {
    /// The kind of this message.
    pub fn kind(&self) -> (r: MessageKind)
        ensures
            r == kind_of(self@),
    {
        match self {
            Message::ConnectionRequest(_) => MessageKind::ConnectionRequest,
            Message::ConnectionResponse(_) => MessageKind::ConnectionResponse,
            Message::TransportMessage(t) => match &t.message.message_type {
                SubstreamMessageType::OpenRequest => MessageKind::OpenRequest,
                SubstreamMessageType::OpenResponse => MessageKind::OpenResponse,
                SubstreamMessageType::Data(_) => MessageKind::Data,
                SubstreamMessageType::Close => MessageKind::Close,
            },
        }
    }
}

/// Decoding an encoded valid message gives that message back.
pub proof fn lemma_round_trip(m: MessageView)
    requires
        valid_message(m),
    ensures
        decode_message(encode_message(m)) == Some(m),
{
    lemma_auto_spec_u64_to_from_le_bytes();
    lemma_auto_spec_u128_to_from_le_bytes();
    let b = encode_message(m);
    match m {
        MessageView::ConnectionRequest(c) => {
            assert(b.subrange(1, 17) =~= spec_u128_to_le_bytes(c.id.0));
            assert(b.subrange(17, b.len() as int) =~= c.peer_id);
            assert(decode_connection(b) == c);
        },
        MessageView::ConnectionResponse(c) => {
            assert(b.subrange(1, 17) =~= spec_u128_to_le_bytes(c.id.0));
            assert(b.subrange(17, b.len() as int) =~= c.peer_id);
            assert(decode_connection(b) == c);
        },
        MessageView::TransportMessage(t) => {
            assert(b.subrange(1, 9) =~= spec_u64_to_le_bytes(t.nonce));
            assert(b.subrange(9, 25) =~= spec_u128_to_le_bytes(t.id.0));
            assert(b.subrange(25, 41) =~= spec_u128_to_le_bytes(t.message.substream_id.0));
            let k = t.message.message_type;
            assert(b.subrange(41, b.len() as int) =~= encode_substream_type(k));
            assert(b[41] == encode_substream_type(k)[0]);
            if let SubstreamTypeView::Data(d) = k {
                assert(b.subrange(42, b.len() as int) =~= d);
            }
            assert(decode_substream_type(b) == Some(k));
        },
    }
}

/// A buffer that decodes is exactly the encoding of what it decodes to, so no
/// two buffers decode to the same message.
pub proof fn lemma_decode_canonical(b: Seq<u8>)
    requires
        decode_message(b) is Some,
    ensures
        valid_message(decode_message(b)->Some_0),
        encode_message(decode_message(b)->Some_0) == b,
{
    lemma_auto_spec_u64_to_from_le_bytes();
    lemma_auto_spec_u128_to_from_le_bytes();
    let m = decode_message(b)->Some_0;
    match m {
        MessageView::ConnectionRequest(c) => {
            assert(spec_u128_to_le_bytes(spec_u128_from_le_bytes(b.subrange(1, 17))) == b.subrange(1, 17));
            assert(encode_message(m) =~= b);
        },
        MessageView::ConnectionResponse(c) => {
            assert(spec_u128_to_le_bytes(spec_u128_from_le_bytes(b.subrange(1, 17))) == b.subrange(1, 17));
            assert(encode_message(m) =~= b);
        },
        MessageView::TransportMessage(t) => {
            assert(spec_u64_to_le_bytes(spec_u64_from_le_bytes(b.subrange(1, 9))) == b.subrange(1, 9));
            assert(spec_u128_to_le_bytes(spec_u128_from_le_bytes(b.subrange(9, 25))) == b.subrange(9, 25));
            assert(spec_u128_to_le_bytes(spec_u128_from_le_bytes(b.subrange(25, 41))) == b.subrange(25, 41));
            assert(encode_substream_type(t.message.message_type) =~= b.subrange(41, b.len() as int));
            assert(encode_message(m) =~= b);
        },
    }
}

} // verus!
