use async_tungstenite::tungstenite::Error;

use eventwork_websockets::accept::{AcceptAction, AcceptEvent, AcceptSequenceState};
use eventwork_websockets::framing::{
    classify_header, decode_stream, encode_message, send_step, split_frames, HeaderOutcome,
    RecvEnd, SendStep, StreamEnd, DEFAULT_MAX_MESSAGE_SIZE,
};
use eventwork_websockets::ws::DEFAULT_MAX_FRAME_SIZE;
use eventwork_websockets::{
    BincodeSerializer, ConnectionId, NetworkError, NetworkPacket, NetworkSerializer,
    NetworkSettings, WsError,
};

fn packet(kind: &str, payload: &[u8]) -> NetworkPacket {
    NetworkPacket::new(kind.to_string(), payload.to_vec())
}

#[test]
fn round_trip_packet() {
    let p = packet("ping", b"1234");
    let bytes = BincodeSerializer::serialize(&p).unwrap();
    let q = BincodeSerializer::deserialize(&bytes).unwrap();
    assert_eq!(q.kind, "ping");
    assert_eq!(q.payload, b"1234".to_vec());
}

#[test]
fn round_trip_empty_and_unicode() {
    for (kind, payload) in [("", b"".as_slice()), ("p\u{00e9}ng\u{4e16}", b"\x00\xff\x7f")] {
        let p = packet(kind, payload);
        let bytes = BincodeSerializer::serialize(&p).unwrap();
        let q = BincodeSerializer::deserialize(&bytes).unwrap();
        assert_eq!(q.kind, kind);
        assert_eq!(q.payload, payload.to_vec());
    }
}

#[test]
fn serialize_layout_exact() {
    let p = packet("ab", &[9]);
    let bytes = BincodeSerializer::serialize(&p).unwrap();
    let expected = vec![
        2, 0, 0, 0, 0, 0, 0, 0, b'a', b'b', 1, 0, 0, 0, 0, 0, 0, 0, 9,
    ];
    assert_eq!(bytes, expected);
}

#[test]
fn serialize_matches_bincode() {
    // The same value, encoded by bincode as the (kind, payload) field
    // pair, must be byte-for-byte what the codec produces.
    let p = packet("ping", b"1234");
    let ours = BincodeSerializer::serialize(&p).unwrap();
    let theirs = bincode::serialize(&("ping".to_string(), b"1234".to_vec())).unwrap();
    assert_eq!(ours, theirs);
}

#[test]
fn deserialize_matches_bincode() {
    let theirs = bincode::serialize(&("status".to_string(), vec![7u8, 8, 9])).unwrap();
    let q = BincodeSerializer::deserialize(&theirs).unwrap();
    assert_eq!(q.kind, "status");
    assert_eq!(q.payload, vec![7, 8, 9]);
}

#[test]
fn deserialize_rejects_malformed() {
    // too short for the two length prefixes
    assert!(matches!(
        BincodeSerializer::deserialize(&[1, 2, 3]),
        Err(NetworkError::Serialization)
    ));
    // kind length larger than what is present
    let mut bytes = vec![200, 0, 0, 0, 0, 0, 0, 0];
    bytes.extend_from_slice(&[0; 12]);
    assert!(matches!(
        BincodeSerializer::deserialize(&bytes),
        Err(NetworkError::Serialization)
    ));
    // kind bytes that are not UTF-8
    let mut bad = vec![1, 0, 0, 0, 0, 0, 0, 0, 0xff];
    bad.extend_from_slice(&[0, 0, 0, 0, 0, 0, 0, 0]);
    assert!(matches!(
        BincodeSerializer::deserialize(&bad),
        Err(NetworkError::Serialization)
    ));
    // trailing bytes beyond the declared payload length
    let p = packet("a", b"b");
    let mut long = BincodeSerializer::serialize(&p).unwrap();
    long.push(0);
    assert!(matches!(
        BincodeSerializer::deserialize(&long),
        Err(NetworkError::Serialization)
    ));
}

#[test]
fn encode_message_prefixes_length() {
    let p = packet("k", b"xyz");
    let body = BincodeSerializer::serialize(&p).unwrap();
    let frame = encode_message(&p).unwrap();
    assert_eq!(frame.len(), 8 + body.len());
    let mut len_bytes = [0u8; 8];
    len_bytes.copy_from_slice(&frame[..8]);
    assert_eq!(u64::from_le_bytes(len_bytes), body.len() as u64);
    assert_eq!(&frame[8..], body.as_slice());
}

#[test]
fn framing_idempotence() {
    let packets = vec![
        packet("ping", b"1234"),
        packet("pong", b""),
        packet("status", b"\x01\x02\x03\x04\x05"),
    ];
    let mut stream: Vec<u8> = Vec::new();
    for p in &packets {
        stream.extend_from_slice(&encode_message(p).unwrap());
    }
    let (decoded, end) = decode_stream(&stream, DEFAULT_MAX_MESSAGE_SIZE);
    assert_eq!(end, RecvEnd::CleanDisconnect);
    assert_eq!(decoded.len(), packets.len());
    for (d, p) in decoded.iter().zip(packets.iter()) {
        assert_eq!(d.kind, p.kind);
        assert_eq!(d.payload, p.payload);
    }
}

#[test]
fn oversize_rejection() {
    // a declared length of 17 against a bound of 16: rejected before
    // any body byte is taken
    let mut stream = 17u64.to_le_bytes().to_vec();
    stream.extend_from_slice(&[0u8; 17]);
    let (decoded, end) = decode_stream(&stream, 16);
    assert_eq!(end, RecvEnd::Oversize);
    assert!(decoded.is_empty());
    let (frames, end) = split_frames(&stream, 16);
    assert_eq!(end, StreamEnd::Oversize);
    assert!(frames.is_empty());
}

#[test]
fn truncated_header() {
    // exactly zero bytes: a clean disconnect
    let (decoded, end) = decode_stream(&[], DEFAULT_MAX_MESSAGE_SIZE);
    assert_eq!(end, RecvEnd::CleanDisconnect);
    assert!(decoded.is_empty());
    // one to seven bytes: a fatal framing violation
    for n in 1..8 {
        let bytes = vec![0u8; n];
        let (decoded, end) = decode_stream(&bytes, DEFAULT_MAX_MESSAGE_SIZE);
        assert_eq!(end, RecvEnd::TruncatedHeader);
        assert!(decoded.is_empty());
    }
}

#[test]
fn incomplete_body() {
    let mut stream = 10u64.to_le_bytes().to_vec();
    stream.extend_from_slice(&[0u8; 5]);
    let (decoded, end) = decode_stream(&stream, DEFAULT_MAX_MESSAGE_SIZE);
    assert_eq!(end, RecvEnd::IncompleteBody);
    assert!(decoded.is_empty());
}

#[test]
fn decode_failure_stops_stream() {
    let good = encode_message(&packet("ok", b"1")).unwrap();
    let mut stream = good.clone();
    // a frame whose body is not a packet encoding
    stream.extend_from_slice(&3u64.to_le_bytes());
    stream.extend_from_slice(&[1, 2, 3]);
    stream.extend_from_slice(&good);
    let (decoded, end) = decode_stream(&stream, DEFAULT_MAX_MESSAGE_SIZE);
    assert_eq!(end, RecvEnd::DecodeFailure);
    assert_eq!(decoded.len(), 1);
    assert_eq!(decoded[0].kind, "ok");
}

#[test]
fn classify_header_outcomes() {
    let header = 5u64.to_le_bytes();
    assert_eq!(
        classify_header(0, &header, 100),
        HeaderOutcome::Disconnected
    );
    assert_eq!(
        classify_header(3, &header, 100),
        HeaderOutcome::TruncatedHeader
    );
    assert_eq!(classify_header(8, &header, 100), HeaderOutcome::Body(5));
    assert_eq!(classify_header(8, &header, 4), HeaderOutcome::TooLarge(5));
}

#[test]
fn send_step_decisions() {
    assert!(matches!(send_step(None), SendStep::Finished));
    let p = packet("x", b"y");
    let frame = encode_message(&p).unwrap();
    match send_step(Some(p)) {
        SendStep::Frame(f) => assert_eq!(f, frame),
        _ => panic!("expected a frame"),
    }
}

#[test]
fn accept_sequence_states() {
    let fresh = AcceptSequenceState::new();
    assert!(!fresh.in_flight);
    assert!(fresh.must_start());
    let (pending, action) = fresh.step(AcceptEvent::NotReady);
    assert!(pending.in_flight);
    assert_eq!(action, AcceptAction::Wait);
    assert!(!pending.must_start());
    let (after_ok, action) = pending.step(AcceptEvent::Upgraded);
    assert!(!after_ok.in_flight);
    assert_eq!(action, AcceptAction::YieldSocket);
}

#[test]
fn accept_failure_restarts() {
    // a failed upgrade clears the slot and restarts; the following
    // completed attempt yields its socket
    let s = AcceptSequenceState { in_flight: true };
    let (cleared, action) = s.step(AcceptEvent::Failed);
    assert_eq!(action, AcceptAction::Restart);
    assert!(!cleared.in_flight);
    assert!(cleared.must_start());
    let (done, action) = cleared.step(AcceptEvent::Upgraded);
    assert_eq!(action, AcceptAction::YieldSocket);
    assert!(!done.in_flight);
}

#[test]
fn settings_defaults() {
    let s = NetworkSettings::default();
    assert_eq!(s.max_message_size, Some(64 * 1024 * 1024));
    assert_eq!(s.max_frame_size, Some(DEFAULT_MAX_FRAME_SIZE));
    assert_eq!(s.effective_max_message_size(), 64 * 1024 * 1024);
    let unset = NetworkSettings {
        max_message_size: None,
        max_frame_size: None,
    };
    assert_eq!(
        unset.effective_max_message_size(),
        DEFAULT_MAX_MESSAGE_SIZE
    );
    let small = NetworkSettings {
        max_message_size: Some(16),
        max_frame_size: None,
    };
    assert_eq!(small.effective_max_message_size(), 16);
}

#[test]
fn ws_error_mapping() {
    assert!(matches!(
        NetworkError::from_ws(WsError::ConnectionClosed),
        NetworkError::Io(m) if m == "Connection closed normally"
    ));
    assert!(matches!(
        NetworkError::from_ws(WsError::Utf8),
        NetworkError::Protocol(m) if m == "UTF-8 encoding error"
    ));
    assert!(matches!(
        NetworkError::from_ws(WsError::Io("broken pipe".to_string())),
        NetworkError::Io(m) if m == "broken pipe"
    ));
    assert!(matches!(
        NetworkError::from_ws(WsError::Tls("bad cert".to_string())),
        NetworkError::Connection(m) if m == "bad cert"
    ));
    match NetworkError::from_ws(WsError::Http {
        status: 403,
        body: Some(b"denied".to_vec()),
    }) {
        NetworkError::Http { status, body } => {
            assert_eq!(status, 403);
            assert_eq!(body, Some(b"denied".to_vec()));
        }
        other => panic!("wrong mapping: {:?}", other),
    }
}

#[test]
fn handshake_error_mapping() {
    let e = NetworkError::from_handshake_error(Error::Utf8);
    assert!(matches!(e, NetworkError::Protocol(m) if m == "UTF-8 encoding error"));
    let io = std::io::Error::new(std::io::ErrorKind::BrokenPipe, "pipe broke");
    let e = NetworkError::from_handshake_error(Error::Io(io));
    assert!(matches!(e, NetworkError::Io(m) if m.contains("pipe broke")));
}

#[test]
fn error_messages() {
    assert_eq!(
        NetworkError::Serialization.message(),
        "Failed to serialize"
    );
    assert_eq!(
        NetworkError::Protocol("bad frame".to_string()).message(),
        "Protocol Error: bad frame"
    );
    assert_eq!(
        NetworkError::Listen("address in use".to_string()).message(),
        "An error occurred when trying to start listening for new connections: address in use"
    );
    assert_eq!(
        NetworkError::SendError.message(),
        "Attempted to send data over closed channel"
    );
    assert_eq!(
        NetworkError::Io("broken pipe".to_string()).message(),
        "An error occurred in the connection I/O: broken pipe"
    );
}

#[test]
fn error_messages_carry_context() {
    // the connection id appears in decimal, so distinct ids give
    // distinct messages
    assert_eq!(
        NetworkError::ConnectionNotFound(ConnectionId { id: 42 }).message(),
        "Could not find connection with id: 42"
    );
    assert_eq!(
        NetworkError::ConnectionNotFound(ConnectionId { id: 0 }).message(),
        "Could not find connection with id: 0"
    );
    assert_ne!(
        NetworkError::ConnectionNotFound(ConnectionId { id: 1 }).message(),
        NetworkError::ConnectionNotFound(ConnectionId { id: 2 }).message()
    );
    assert_eq!(
        NetworkError::ChannelClosed(ConnectionId { id: u64::MAX }).message(),
        "Connection closed with id: 18446744073709551615"
    );
    // the HTTP status appears in decimal
    assert_eq!(
        NetworkError::Http {
            status: 403,
            body: Some(b"denied".to_vec()),
        }
        .message(),
        "The WebSocket upgrade was rejected with an HTTP response, status: 403"
    );
    // a variant with an empty stored cause still names its kind
    assert!(!NetworkError::Io(String::new()).message().is_empty());
}
