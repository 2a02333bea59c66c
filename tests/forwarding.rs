use upload_proxy::buffer::{BufferedBody, INITIAL_CAPACITY};
use upload_proxy::relay::{Pull, Relay, RelayStep, TransferMode, UploadEvent, OUT_OF_ORDER, TOO_LARGE};
use upload_proxy::reply::{failure_reply, forward_reply, sink_log_line, sink_reply};

/// Feeds an upload (fields of chunks) to a relay and collects what it emits,
/// checking that it asks for the right read before each event.
fn run(mode: TransferMode, fields: &[Vec<&[u8]>]) -> (Relay, Vec<u8>, RelayStep) {
    let mut relay = Relay::new(mode);
    let mut emitted = Vec::new();
    for field in fields {
        assert_eq!(relay.pull(), Pull::NextField);
        assert!(matches!(relay.on_event(UploadEvent::FieldOpened), RelayStep::Continue));
        for chunk in field {
            assert_eq!(relay.pull(), Pull::NextChunk);
            match relay.on_event(UploadEvent::Chunk(chunk.to_vec())) {
                RelayStep::Emit(c) => {
                    assert_eq!(c, chunk.to_vec());
                    emitted.extend_from_slice(&c);
                }
                RelayStep::Continue => assert_eq!(mode, TransferMode::Buffered),
                other => panic!("unexpected step {:?}", other),
            }
        }
        assert!(matches!(relay.on_event(UploadEvent::FieldEnded), RelayStep::Continue));
    }
    assert_eq!(relay.pull(), Pull::NextField);
    let last = relay.on_event(UploadEvent::FieldsExhausted);
    assert_eq!(relay.pull(), Pull::Nothing);
    (relay, emitted, last)
}

#[test]
fn buffered_fields_are_concatenated() {
    let fields: Vec<Vec<&[u8]>> = vec![vec![b"ab"], vec![b"cd"], vec![b"ef"]];
    let (relay, emitted, last) = run(TransferMode::Buffered, &fields);
    assert!(matches!(last, RelayStep::Send));
    assert!(emitted.is_empty());
    let body = relay.into_body();
    assert_eq!(&body[..], b"abcdef");
}

#[test]
fn streaming_emits_each_chunk_in_order() {
    let fields: Vec<Vec<&[u8]>> = vec![vec![b"ab"], vec![b"cd"], vec![b"ef"]];
    let (_, emitted, last) = run(TransferMode::Streaming, &fields);
    assert!(matches!(last, RelayStep::Finished));
    assert_eq!(emitted, b"abcdef".to_vec());
}

#[test]
fn streaming_and_buffered_forward_the_same_bytes() {
    let fields: Vec<Vec<&[u8]>> = vec![
        vec![b"he", b"llo", b""],
        vec![],
        vec![b" ", b"wor"],
        vec![b"ld\n\x00\xff"],
    ];
    let (buffered, _, _) = run(TransferMode::Buffered, &fields);
    let (_, streamed, _) = run(TransferMode::Streaming, &fields);
    let body = buffered.into_body();
    assert_eq!(&body[..], &streamed[..]);
    assert_eq!(streamed, b"hello world\n\x00\xff".to_vec());
}

#[test]
fn upload_without_fields_forwards_empty_body() {
    let (relay, _, last) = run(TransferMode::Buffered, &[]);
    assert!(matches!(last, RelayStep::Send));
    assert!(relay.into_body().is_empty());
    let (_, streamed, last) = run(TransferMode::Streaming, &[]);
    assert!(matches!(last, RelayStep::Finished));
    assert!(streamed.is_empty());
}

#[test]
fn buffer_grows_past_its_capacity() {
    let mut body = BufferedBody::with_capacity(4);
    body.append(b"0123456789");
    body.append(b"abc");
    assert_eq!(body.len(), 13);
    assert_eq!(&body.freeze()[..], b"0123456789abc");
}

#[test]
fn buffered_body_larger_than_initial_capacity() {
    let half = INITIAL_CAPACITY / 2 + 1;
    let a = vec![b'a'; half];
    let b = vec![b'b'; half];
    let c = vec![b'c'; 3];
    let fields: Vec<Vec<&[u8]>> = vec![vec![&a[..], &b[..]], vec![&c[..]]];
    let (relay, _, last) = run(TransferMode::Buffered, &fields);
    assert!(matches!(last, RelayStep::Send));
    let body = relay.into_body();
    assert_eq!(body.len(), 2 * half + 3);
    assert!(body.len() > INITIAL_CAPACITY);
    assert_eq!(body[0], b'a');
    assert_eq!(body[half], b'b');
    assert_eq!(&body[2 * half..], b"ccc");
}

#[test]
fn read_failure_fails_both_modes() {
    for mode in [TransferMode::Buffered, TransferMode::Streaming] {
        let mut relay = Relay::new(mode);
        assert!(matches!(relay.on_event(UploadEvent::FieldOpened), RelayStep::Continue));
        relay.on_event(UploadEvent::Chunk(b"ab".to_vec()));
        match relay.on_event(UploadEvent::ReadFailed("invalid boundary".to_string())) {
            RelayStep::Fail(d) => assert_eq!(d, "invalid boundary"),
            other => panic!("unexpected step {:?}", other),
        }
        assert_eq!(relay.pull(), Pull::Nothing);
    }
}

#[test]
fn read_failure_before_first_field() {
    let mut relay = Relay::new(TransferMode::Streaming);
    match relay.on_event(UploadEvent::ReadFailed("bad header".to_string())) {
        RelayStep::Fail(d) => assert_eq!(d, "bad header"),
        other => panic!("unexpected step {:?}", other),
    }
}

#[test]
fn events_out_of_order_fail() {
    let mut relay = Relay::new(TransferMode::Buffered);
    match relay.on_event(UploadEvent::Chunk(b"x".to_vec())) {
        RelayStep::Fail(d) => assert_eq!(d, OUT_OF_ORDER),
        other => panic!("unexpected step {:?}", other),
    }
    let mut done = Relay::new(TransferMode::Streaming);
    assert!(matches!(done.on_event(UploadEvent::FieldsExhausted), RelayStep::Finished));
    match done.on_event(UploadEvent::FieldOpened) {
        RelayStep::Fail(d) => assert_eq!(d, OUT_OF_ORDER),
        other => panic!("unexpected step {:?}", other),
    }
    assert!(!TOO_LARGE.is_empty());
}

#[test]
fn failed_read_becomes_server_error() {
    let r = failure_reply("invalid boundary".to_string());
    assert_eq!(r.status, 500);
    assert_eq!(r.body, "invalid boundary");
}

#[test]
fn unreachable_downstream_then_reachable() {
    let failed = forward_reply(Err("error sending request: connection refused".to_string()));
    assert_eq!(failed.status, 500);
    assert_eq!(failed.body, "error sending request: connection refused");
    assert!(!failed.body.is_empty());
    let ok = forward_reply(Ok(()));
    assert_eq!(ok.status, 200);
    assert_eq!(ok.body, "All OK\n");
}

#[test]
fn sink_answers_each_request_alike() {
    for _ in 0..2 {
        let r = sink_reply();
        assert_eq!(r.status, 200);
        assert_eq!(r.body, "");
        assert_eq!(sink_log_line("hello"), "Received request: hello");
    }
    assert_eq!(sink_log_line(""), "Received request: ");
}
