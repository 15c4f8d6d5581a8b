use ephemera::codec::{
    check_frame_length, decode_message, encode_message, read_length_prefixed, read_request,
    read_response, write_length_prefixed, write_request, write_response, CodecError, RbMsgResponse,
    VarintReader, VarintStep, MAX_FRAME_SIZE,
};
use ephemera::dispatcher::{
    handle_incoming_messages, send_protocol_message, start, LoopInput, LoopStep, SwarmAction,
    SwarmEvent,
};
use ephemera::message::{Kind, ProtocolResponse, ReliableBroadcast, ReliableBroadcastMessage};
use ephemera::varint::{read_varint, write_varint, VarintError};

fn message(inner: Option<ReliableBroadcast>) -> ReliableBroadcastMessage {
    ReliableBroadcastMessage { id: "m1".to_string(), node_id: "node".to_string(), timestamp: 258, inner }
}

fn same(a: &ReliableBroadcastMessage, b: &ReliableBroadcastMessage) -> bool {
    a.id == b.id
        && a.node_id == b.node_id
        && a.timestamp == b.timestamp
        && match (&a.inner, &b.inner) {
            (None, None) => true,
            (Some(ReliableBroadcast::PrePrepare { payload: p }), Some(ReliableBroadcast::PrePrepare { payload: q })) => p == q,
            (Some(ReliableBroadcast::Prepare { payload: p }), Some(ReliableBroadcast::Prepare { payload: q })) => p == q,
            (Some(ReliableBroadcast::Commit), Some(ReliableBroadcast::Commit)) => true,
            (Some(ReliableBroadcast::Ack), Some(ReliableBroadcast::Ack)) => true,
            _ => false,
        }
}

#[test]
fn varint_bytes_of_known_numbers() {
    assert_eq!(write_varint(0), vec![0x00]);
    assert_eq!(write_varint(1), vec![0x01]);
    assert_eq!(write_varint(127), vec![0x7f]);
    assert_eq!(write_varint(128), vec![0x80, 0x01]);
    assert_eq!(write_varint(255), vec![0xff, 0x01]);
    assert_eq!(write_varint(300), vec![0xac, 0x02]);
    assert_eq!(write_varint(16_384), vec![0x80, 0x80, 0x01]);
    assert_eq!(write_varint(1_048_576), vec![0x80, 0x80, 0x40]);
    assert_eq!(write_varint(u32::MAX), vec![0xff, 0xff, 0xff, 0xff, 0x0f]);
}

#[test]
fn varint_reads_known_numbers() {
    assert_eq!(read_varint(&[0x00]), Ok((0, 1)));
    assert_eq!(read_varint(&[0x7f, 0xaa]), Ok((127, 1)));
    assert_eq!(read_varint(&[0xac, 0x02, 0x01]), Ok((300, 2)));
    assert_eq!(read_varint(&[0x80, 0x80, 0x40]), Ok((1_048_576, 3)));
    assert_eq!(read_varint(&[0xff, 0xff, 0xff, 0xff, 0x0f]), Ok((u32::MAX, 5)));
}

#[test]
fn varint_round_trip_on_the_edges() {
    for n in [0u32, 1, 127, 128, 16_383, 16_384, 2_097_151, 2_097_152, 268_435_455, 268_435_456, u32::MAX] {
        let bytes = write_varint(n);
        assert_eq!(read_varint(&bytes), Ok((n, bytes.len())));
        let mut more = bytes.clone();
        more.extend_from_slice(&[0xff, 0xff]);
        assert_eq!(read_varint(&more), Ok((n, bytes.len())));
    }
}

#[test]
fn varint_errors() {
    assert_eq!(read_varint(&[]), Err(VarintError::Insufficient));
    assert_eq!(read_varint(&[0x80]), Err(VarintError::Insufficient));
    assert_eq!(read_varint(&[0xff, 0xff, 0xff, 0xff]), Err(VarintError::Insufficient));
    assert_eq!(read_varint(&[0xff, 0xff, 0xff, 0xff, 0xff]), Err(VarintError::Overflow));
    assert_eq!(read_varint(&[0xff, 0xff, 0xff, 0xff, 0x80, 0x01]), Err(VarintError::Overflow));
    assert_eq!(read_varint(&[0x80, 0x00]), Err(VarintError::NotMinimal));
    assert_eq!(read_varint(&[0xff, 0x80, 0x00]), Err(VarintError::NotMinimal));
}

#[test]
fn varint_fifth_byte_keeps_only_its_low_four_bits() {
    assert_eq!(read_varint(&[0x80, 0x80, 0x80, 0x80, 0x10]), Ok((0, 5)));
    assert_eq!(read_varint(&[0x81, 0x80, 0x80, 0x80, 0x7f]), Ok((0xf000_0001, 5)));
}

#[test]
fn frame_is_length_then_body() {
    assert_eq!(write_length_prefixed(&[]), Ok(vec![0]));
    assert_eq!(write_length_prefixed(&[7, 8, 9]), Ok(vec![3, 7, 8, 9]));
    let body = vec![5u8; 300];
    let frame = write_length_prefixed(&body).unwrap();
    assert_eq!(&frame[..2], &[0xac, 0x02]);
    assert_eq!(&frame[2..], body.as_slice());
}

#[test]
fn frame_round_trip() {
    let body = vec![1u8, 2, 3, 4];
    let mut wire = write_length_prefixed(&body).unwrap();
    wire.extend_from_slice(&[9, 9]);
    assert_eq!(read_length_prefixed(&wire, MAX_FRAME_SIZE), Ok((body, 5)));
}

#[test]
fn frame_of_one_mebibyte_is_the_largest() {
    let body = vec![0u8; 1_048_576];
    let frame = write_length_prefixed(&body).unwrap();
    assert_eq!(frame.len(), 1_048_576 + 3);
    assert_eq!(read_length_prefixed(&frame, MAX_FRAME_SIZE).unwrap().1, frame.len());
    let larger = vec![0u8; 1_048_577];
    assert_eq!(write_length_prefixed(&larger), Err(CodecError::TooLarge));
    assert_eq!(read_length_prefixed(&[0x81, 0x80, 0x40], MAX_FRAME_SIZE), Err(CodecError::TooLarge));
    assert_eq!(read_length_prefixed(&[0x80, 0x80, 0x40], MAX_FRAME_SIZE), Err(CodecError::Incomplete));
}

#[test]
fn frame_errors() {
    assert_eq!(read_length_prefixed(&[], 10), Err(CodecError::Incomplete));
    assert_eq!(read_length_prefixed(&[0x80], 10), Err(CodecError::Incomplete));
    assert_eq!(read_length_prefixed(&[3, 1, 2], 10), Err(CodecError::Incomplete));
    assert_eq!(read_length_prefixed(&[11, 1, 2], 10), Err(CodecError::TooLarge));
    assert_eq!(read_length_prefixed(&[10, 0, 0, 0, 0, 0, 0, 0, 0, 0, 0], 10).unwrap().1, 11);
    assert_eq!(read_length_prefixed(&[0x80, 0x00], 10), Err(CodecError::InvalidVarint));
    assert_eq!(read_length_prefixed(&[0xff, 0xff, 0xff, 0xff, 0xff], 10), Err(CodecError::InvalidVarint));
}

#[test]
fn announced_length_is_checked_against_the_limit() {
    assert_eq!(check_frame_length(0, 10), Ok(0));
    assert_eq!(check_frame_length(10, 10), Ok(10));
    assert_eq!(check_frame_length(11, 10), Err(CodecError::TooLarge));
    assert_eq!(check_frame_length(MAX_FRAME_SIZE, MAX_FRAME_SIZE), Ok(1_048_576));
}

#[test]
fn varint_reader_takes_bytes_one_by_one() {
    let mut reader = VarintReader::new();
    assert_eq!(reader.push(0xac), VarintStep::More);
    assert_eq!(reader.push(0x02), VarintStep::Done(300));
    assert_eq!(reader.push(0x05), VarintStep::Done(5));
    assert_eq!(reader.push(0x80), VarintStep::More);
    assert_eq!(reader.push(0x00), VarintStep::Invalid);
    for _ in 0..4 {
        assert_eq!(reader.push(0xff), VarintStep::More);
    }
    assert_eq!(reader.push(0xff), VarintStep::Invalid);
    for _ in 0..4 {
        assert_eq!(reader.push(0xff), VarintStep::More);
    }
    assert_eq!(reader.push(0x0f), VarintStep::Done(u32::MAX));
    assert_eq!(reader.push(0x00), VarintStep::Done(0));
}

#[test]
fn message_layout_is_exact() {
    let m = message(Some(ReliableBroadcast::Prepare { payload: vec![0xaa, 0xbb] }));
    let bytes = encode_message(&m).unwrap();
    assert_eq!(
        bytes,
        vec![2, 2, 1, 0, 0, 0, 0, 0, 0, 2, b'm', b'1', 4, b'n', b'o', b'd', b'e', 2, 0xaa, 0xbb]
    );
    let c = message(Some(ReliableBroadcast::Commit));
    assert_eq!(encode_message(&c).unwrap(), vec![3, 2, 1, 0, 0, 0, 0, 0, 0, 2, b'm', b'1', 4, b'n', b'o', b'd', b'e']);
}

#[test]
fn message_round_trip_for_every_kind() {
    let kinds = vec![
        None,
        Some(ReliableBroadcast::PrePrepare { payload: vec![] }),
        Some(ReliableBroadcast::PrePrepare { payload: vec![1, 2, 3] }),
        Some(ReliableBroadcast::Prepare { payload: vec![0; 1000] }),
        Some(ReliableBroadcast::Commit),
        Some(ReliableBroadcast::Ack),
    ];
    for inner in kinds {
        let m = message(inner);
        let back = decode_message(&encode_message(&m).unwrap()).unwrap();
        assert!(same(&m, &back));
        let mut wire = write_request(&m).unwrap();
        let length = wire.len();
        wire.push(0x55);
        let (read, used) = read_request(&wire).unwrap();
        assert!(same(&m, &read));
        assert_eq!(used, length);
    }
}

#[test]
fn message_round_trip_keeps_text_beyond_ascii() {
    let m = ReliableBroadcastMessage {
        id: "m\u{e9}\u{4e2d}\u{1f600}".to_string(),
        node_id: String::new(),
        timestamp: u64::MAX,
        inner: Some(ReliableBroadcast::Ack),
    };
    let back = decode_message(&encode_message(&m).unwrap()).unwrap();
    assert!(same(&m, &back));
}

#[test]
fn encoding_is_deterministic() {
    let m = message(Some(ReliableBroadcast::PrePrepare { payload: vec![1, 2, 3] }));
    assert_eq!(encode_message(&m).unwrap(), encode_message(&m.clone()).unwrap());
}

#[test]
fn malformed_bodies_are_refused() {
    let good = encode_message(&message(Some(ReliableBroadcast::Prepare { payload: vec![1] }))).unwrap();
    assert!(decode_message(&good).is_ok());
    assert_eq!(decode_message(&[]).unwrap_err(), CodecError::Malformed);
    assert_eq!(decode_message(&good[..8]).unwrap_err(), CodecError::Malformed);
    assert_eq!(decode_message(&good[..good.len() - 1]).unwrap_err(), CodecError::Malformed);
    let mut trailing = good.clone();
    trailing.push(0);
    assert_eq!(decode_message(&trailing).unwrap_err(), CodecError::Malformed);
    let mut tag = good.clone();
    tag[0] = 5;
    assert_eq!(decode_message(&tag).unwrap_err(), CodecError::Malformed);
    let mut no_payload = good.clone();
    no_payload[0] = 3;
    assert_eq!(decode_message(&no_payload).unwrap_err(), CodecError::Malformed);
    let mut text = good.clone();
    text[10] = 0xff;
    assert_eq!(decode_message(&text).unwrap_err(), CodecError::Malformed);
    let commit = encode_message(&message(Some(ReliableBroadcast::Commit))).unwrap();
    let mut wants_payload = commit.clone();
    wants_payload[0] = 1;
    assert_eq!(decode_message(&wants_payload).unwrap_err(), CodecError::Malformed);
}

#[test]
fn message_too_large_for_a_frame() {
    let m = message(Some(ReliableBroadcast::Prepare { payload: vec![0; 1_048_576] }));
    assert_eq!(encode_message(&m).unwrap_err(), CodecError::TooLarge);
    assert_eq!(write_request(&m).unwrap_err(), CodecError::TooLarge);
    let head = encode_message(&message(Some(ReliableBroadcast::Prepare { payload: vec![] }))).unwrap().len();
    let fits = message(Some(ReliableBroadcast::Prepare { payload: vec![0; 1_048_576 - head - 2] }));
    assert_eq!(encode_message(&fits).unwrap().len(), 1_048_576);
    let over = message(Some(ReliableBroadcast::Prepare { payload: vec![0; 1_048_576 - head - 1] }));
    assert_eq!(encode_message(&over).unwrap_err(), CodecError::TooLarge);
}

#[test]
fn request_errors() {
    assert_eq!(read_request(&[]).unwrap_err(), CodecError::Incomplete);
    assert_eq!(read_request(&[2, 1]).unwrap_err(), CodecError::Incomplete);
    assert_eq!(read_request(&[2, 1, 2]).unwrap_err(), CodecError::Malformed);
    assert_eq!(read_request(&[0x81, 0x80, 0x40]).unwrap_err(), CodecError::TooLarge);
    assert_eq!(read_request(&[0x80, 0x00]).unwrap_err(), CodecError::InvalidVarint);
}

#[test]
fn response_round_trip() {
    let response = RbMsgResponse::new("m1".to_string());
    assert_eq!(response.id, "m1");
    let mut wire = write_response(&response).unwrap();
    assert_eq!(wire, vec![2, b'm', b'1']);
    wire.push(7);
    let (back, used) = read_response(&wire).unwrap();
    assert_eq!(back.id, "m1");
    assert_eq!(used, 3);
    assert_eq!(read_response(&[1, 0xff]).unwrap_err(), CodecError::Malformed);
    assert_eq!(read_response(&[2, b'm']).unwrap_err(), CodecError::Incomplete);
}

#[test]
fn published_messages_go_by_topic() {
    let protocol = "consensus".to_string();
    let ephemera = "proposed".to_string();
    let action = handle_incoming_messages(
        SwarmEvent::Gossip { topic: "consensus".to_string(), data: vec![1] },
        &protocol,
        &ephemera,
    );
    assert!(matches!(action, SwarmAction::ProtocolRaw(data) if data == vec![1]));
    let action = handle_incoming_messages(
        SwarmEvent::Gossip { topic: "proposed".to_string(), data: vec![2] },
        &protocol,
        &ephemera,
    );
    assert!(matches!(action, SwarmAction::EphemeraRaw(data) if data == vec![2]));
    let action = handle_incoming_messages(
        SwarmEvent::Gossip { topic: "other".to_string(), data: vec![3] },
        &protocol,
        &ephemera,
    );
    assert!(matches!(action, SwarmAction::Ignore));
    let action = handle_incoming_messages(
        SwarmEvent::Gossip { topic: "same".to_string(), data: vec![4] },
        &"same".to_string(),
        &"same".to_string(),
    );
    assert!(matches!(action, SwarmAction::ProtocolRaw(_)));
}

#[test]
fn requests_go_to_the_engine_and_are_answered_with_their_id() {
    let topic = "t".to_string();
    let action = handle_incoming_messages(
        SwarmEvent::Request { request: message(Some(ReliableBroadcast::Commit)) },
        &topic,
        &topic,
    );
    match action {
        SwarmAction::Protocol { request, response } => {
            assert!(same(&request, &message(Some(ReliableBroadcast::Commit))));
            assert_eq!(response.id, "m1");
        }
        _ => panic!("a request is handed to the engine"),
    }
    for event in [
        SwarmEvent::Response { response: RbMsgResponse::new("m".to_string()) },
        SwarmEvent::OutboundFailure,
        SwarmEvent::InboundFailure,
        SwarmEvent::ResponseSent,
        SwarmEvent::Other,
    ] {
        assert!(matches!(handle_incoming_messages(event, &topic, &topic), SwarmAction::Ignore));
    }
}

#[test]
fn transport_loop_stops_when_a_source_is_closed() {
    assert!(matches!(start(LoopInput::Swarm(Some(SwarmEvent::Other))), LoopStep::Handle(SwarmEvent::Other)));
    assert!(matches!(start(LoopInput::EphemeraMessage(Some(vec![1]))), LoopStep::Publish(m) if m == vec![1]));
    assert!(matches!(start(LoopInput::ProtocolMessage(Some(message(None)))), LoopStep::Send(m) if m.id == "m1"));
    assert!(matches!(start(LoopInput::Swarm(None)), LoopStep::Stop));
    assert!(matches!(start(LoopInput::EphemeraMessage(None)), LoopStep::Stop));
    assert!(matches!(start(LoopInput::ProtocolMessage(None)), LoopStep::Stop));
}

fn response(kind: Kind, peers: &[&str]) -> ProtocolResponse {
    ProtocolResponse {
        kind,
        peers: peers.iter().map(|p| p.to_string()).collect(),
        reply: message(Some(ReliableBroadcast::Commit)),
    }
}

#[test]
fn answers_are_sent_by_their_kind() {
    let frame = write_request(&message(Some(ReliableBroadcast::Commit))).unwrap();
    let source = "src".to_string();
    let out = send_protocol_message(&response(Kind::BROADCAST, &["a", "b", "c"]), &source).unwrap();
    assert_eq!(out.iter().map(|o| o.peer.as_str()).collect::<Vec<_>>(), vec!["a", "b", "c"]);
    assert!(out.iter().all(|o| o.frame == frame));
    let out = send_protocol_message(&response(Kind::REPLY, &["a", "b"]), &source).unwrap();
    assert_eq!(out.len(), 1);
    assert_eq!(out[0].peer, "src");
    assert_eq!(out[0].frame, frame);
    assert!(send_protocol_message(&response(Kind::DROP, &["a"]), &source).unwrap().is_empty());
    assert!(send_protocol_message(&response(Kind::BROADCAST, &[]), &source).unwrap().is_empty());
}

#[test]
fn answers_too_large_for_a_frame_are_not_sent() {
    let mut large = response(Kind::BROADCAST, &["a"]);
    large.reply.inner = Some(ReliableBroadcast::Prepare { payload: vec![0; 1_048_576] });
    assert_eq!(send_protocol_message(&large, &"s".to_string()).unwrap_err(), CodecError::TooLarge);
    large.kind = Kind::REPLY;
    assert_eq!(send_protocol_message(&large, &"s".to_string()).unwrap_err(), CodecError::TooLarge);
    large.kind = Kind::DROP;
    assert!(send_protocol_message(&large, &"s".to_string()).unwrap().is_empty());
}
