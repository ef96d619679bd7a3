use nym_transport::error::Error;
use nym_transport::message::{
    ConnectionId, ConnectionMessage, IdGenerator, Message, MessageKind, SubstreamId,
    SubstreamMessage, SubstreamMessageType, TransportMessage,
};
use nym_transport::routing::{parse_message_data, OutboundMessage, Recipient, Route, SenderTag};

fn transport(nonce: u64, id: u128, sid: u128, t: SubstreamMessageType) -> Message {
    Message::TransportMessage(TransportMessage {
        nonce,
        id: ConnectionId(id),
        message: SubstreamMessage { substream_id: SubstreamId(sid), message_type: t },
    })
}

fn round_trip(m: &Message) -> Message {
    let bytes = m.to_bytes();
    let back = Message::from_bytes(&bytes).expect("an encoded message decodes");
    assert_eq!(back.to_bytes(), bytes);
    back
}

#[test]
fn round_trip_connection_request() {
    let m = Message::ConnectionRequest(ConnectionMessage {
        peer_id: vec![9, 8, 7],
        id: ConnectionId(0x0102_0304),
    });
    match round_trip(&m) {
        Message::ConnectionRequest(c) => {
            assert_eq!(c.peer_id, vec![9, 8, 7]);
            assert_eq!(c.id, ConnectionId(0x0102_0304));
        }
        other => panic!("unexpected {:?}", other),
    }
}

#[test]
fn round_trip_connection_response_empty_peer() {
    let m = Message::ConnectionResponse(ConnectionMessage { peer_id: vec![], id: ConnectionId(u128::MAX) });
    match round_trip(&m) {
        Message::ConnectionResponse(c) => {
            assert!(c.peer_id.is_empty());
            assert_eq!(c.id, ConnectionId(u128::MAX));
        }
        other => panic!("unexpected {:?}", other),
    }
}

#[test]
fn round_trip_every_substream_kind() {
    let kinds = vec![
        SubstreamMessageType::OpenRequest,
        SubstreamMessageType::OpenResponse,
        SubstreamMessageType::Data(b"hello".to_vec()),
        SubstreamMessageType::Close,
    ];
    for k in kinds {
        let m = transport(u64::MAX, 77, 88, k.clone());
        let back = round_trip(&m);
        assert_eq!(back.kind(), m.kind());
        match back {
            Message::TransportMessage(t) => {
                assert_eq!(t.nonce, u64::MAX);
                assert_eq!(t.id, ConnectionId(77));
                assert_eq!(t.message.substream_id, SubstreamId(88));
                if let (SubstreamMessageType::Data(a), SubstreamMessageType::Data(b)) =
                    (&t.message.message_type, &k)
                {
                    assert_eq!(a, b);
                }
            }
            other => panic!("unexpected {:?}", other),
        }
    }
}

#[test]
fn encoding_layout_is_exact() {
    let m = transport(1, 2, 3, SubstreamMessageType::Data(vec![0xaa, 0xbb]));
    let mut expected = vec![2u8];
    expected.extend_from_slice(&1u64.to_le_bytes());
    expected.extend_from_slice(&2u128.to_le_bytes());
    expected.extend_from_slice(&3u128.to_le_bytes());
    expected.push(2);
    expected.extend_from_slice(&[0xaa, 0xbb]);
    assert_eq!(m.to_bytes(), expected);

    let c = Message::ConnectionRequest(ConnectionMessage { peer_id: vec![5], id: ConnectionId(1) });
    let mut expected = vec![0u8];
    expected.extend_from_slice(&1u128.to_le_bytes());
    expected.push(5);
    assert_eq!(c.to_bytes(), expected);
    assert_eq!(transport(0, 0, 0, SubstreamMessageType::Close).to_bytes().len(), 42);
}

#[test]
fn malformed_buffers_are_rejected() {
    assert_eq!(Message::from_bytes(&[]).unwrap_err(), Error::MalformedMessage);
    assert_eq!(Message::from_bytes(&[7; 50]).unwrap_err(), Error::MalformedMessage);
    assert_eq!(Message::from_bytes(&[0; 16]).unwrap_err(), Error::MalformedMessage);
    let close = transport(1, 2, 3, SubstreamMessageType::Close).to_bytes();
    assert_eq!(Message::from_bytes(&close[..41]).unwrap_err(), Error::MalformedMessage);
    let mut trailing = close.clone();
    trailing.push(0);
    assert_eq!(Message::from_bytes(&trailing).unwrap_err(), Error::MalformedMessage);
    let mut bad_kind = close.clone();
    bad_kind[41] = 4;
    assert_eq!(Message::from_bytes(&bad_kind).unwrap_err(), Error::MalformedMessage);
    let mut empty_data = close;
    empty_data[41] = 2;
    assert_eq!(Message::from_bytes(&empty_data).unwrap_err(), Error::MalformedMessage);
}

#[test]
fn message_kinds() {
    let c = ConnectionMessage { peer_id: vec![], id: ConnectionId(0) };
    assert_eq!(Message::ConnectionRequest(c.clone()).kind(), MessageKind::ConnectionRequest);
    assert_eq!(Message::ConnectionResponse(c).kind(), MessageKind::ConnectionResponse);
    assert_eq!(transport(0, 0, 0, SubstreamMessageType::OpenRequest).kind(), MessageKind::OpenRequest);
    assert_eq!(transport(0, 0, 0, SubstreamMessageType::OpenResponse).kind(), MessageKind::OpenResponse);
    assert_eq!(transport(0, 0, 0, SubstreamMessageType::Data(vec![1])).kind(), MessageKind::Data);
    assert_eq!(transport(0, 0, 0, SubstreamMessageType::Close).kind(), MessageKind::Close);
}

#[test]
fn generated_ids_are_distinct() {
    let mut ids = IdGenerator::new();
    assert!(ids.has_next());
    let c1 = ConnectionId::generate(&mut ids);
    let s1 = SubstreamId::generate(&mut ids);
    let c2 = ConnectionId::generate(&mut ids);
    assert_eq!(c1, ConnectionId(0));
    assert_eq!(s1, SubstreamId(1));
    assert_ne!(c1, c2);
}

#[test]
fn new_with_data_builds_data() {
    let m = SubstreamMessage::new_with_data(SubstreamId(4), b"hello".to_vec());
    assert_eq!(m.substream_id, SubstreamId(4));
    match m.message_type {
        SubstreamMessageType::Data(d) => assert_eq!(d, b"hello".to_vec()),
        other => panic!("unexpected {:?}", other),
    }
}

#[test]
fn sender_tag_takes_precedence() {
    let o = OutboundMessage {
        message: transport(1, 1, 1, SubstreamMessageType::OpenRequest),
        recipient: Some(Recipient { bytes: vec![1, 2, 3] }),
        sender_tag: Some(SenderTag(42)),
    };
    match o.route().unwrap() {
        Route::Reply(t) => assert_eq!(t, SenderTag(42)),
        Route::Direct(_) => panic!("a reply tag must win over the recipient"),
    }
    let d = o.prepare().unwrap();
    assert!(matches!(d.route, Route::Reply(SenderTag(42))));
    assert_eq!(d.payload, o.message.to_bytes());
}

#[test]
fn recipient_used_without_tag() {
    let o = OutboundMessage {
        message: transport(1, 1, 1, SubstreamMessageType::Close),
        recipient: Some(Recipient { bytes: vec![1, 2, 3] }),
        sender_tag: None,
    };
    match o.route().unwrap() {
        Route::Direct(r) => assert_eq!(r.bytes, vec![1, 2, 3]),
        Route::Reply(_) => panic!("no tag was given"),
    }
}

#[test]
fn unaddressed_message_is_rejected() {
    let m = transport(1, 1, 1, SubstreamMessageType::Close);
    assert_eq!(OutboundMessage::new(m.clone(), None, None).unwrap_err(), Error::NoRouteAvailable);
    let o = OutboundMessage { message: m.clone(), recipient: None, sender_tag: None };
    assert_eq!(o.route().unwrap_err(), Error::NoRouteAvailable);
    assert_eq!(o.prepare().unwrap_err(), Error::NoRouteAvailable);
    assert!(OutboundMessage::new(m, None, Some(SenderTag(1))).is_ok());
}

#[test]
fn inbound_parse_keeps_tag() {
    let bytes = transport(3, 4, 5, SubstreamMessageType::Data(b"x".to_vec())).to_bytes();
    let i = parse_message_data(&bytes, Some(SenderTag(9))).unwrap();
    assert_eq!(i.sender_tag, Some(SenderTag(9)));
    assert_eq!(i.message.to_bytes(), bytes);
    assert_eq!(parse_message_data(&[1, 2], None).unwrap_err(), Error::MalformedMessage);
}
