use razor_rpc::dispatch::{api_dispatch_route, split_service_method};
use razor_rpc::proto::{
    decode_resp_head, encode_response, Request, RespPayload, RpcAction, RESP_FLAG_ERR_STRING,
    RESP_FLAG_OK, RESP_HEAD_LEN,
};
use razor_rpc::server::{
    quick_resp, reader_step, ReaderAction, RespItem, ServerConfig, ServerState, WriterAction,
    WriterEvent, WriterState,
};

fn request(action: RpcAction, msg: Vec<u8>) -> Request {
    Request { seq: 5, client_id: 1, format: 0, action, msg, blob: vec![] }
}

#[test]
fn ping_takes_the_fast_path() {
    // Action 0 with an empty message is answered without dispatch.
    let req = request(RpcAction::Num(0), vec![]);
    match reader_step(req) {
        ReaderAction::QuickOk { seq } => assert_eq!(seq, 5),
        ReaderAction::Dispatch { .. } => panic!("pings bypass the dispatcher"),
    }
}

#[test]
fn non_ping_requests_are_dispatched() {
    // Action 0 with a message is not a ping; neither is any other code.
    let with_msg = request(RpcAction::Num(0), vec![1]);
    assert!(matches!(reader_step(with_msg), ReaderAction::Dispatch { .. }));
    let other = request(RpcAction::Num(3), vec![]);
    match reader_step(other) {
        ReaderAction::Dispatch { req } => assert_eq!(req.action, RpcAction::Num(3)),
        ReaderAction::QuickOk { .. } => panic!("only action 0 pings"),
    }
}

#[test]
fn quick_resp_ping_is_bare_success() {
    let item = quick_resp(5, false);
    assert_eq!(item.seq, 5);
    let frame = encode_response(item.seq, &item.payload);
    assert_eq!(frame.len(), RESP_HEAD_LEN);
    let head = decode_resp_head(&frame).unwrap();
    assert_eq!(head.flag, RESP_FLAG_OK);
    assert_eq!(head.msg_len, 0);
    assert_eq!(head.blob_len, 0);
}

#[test]
fn quick_resp_decode_error_carries_text() {
    let item = quick_resp(9, true);
    let frame = encode_response(item.seq, &item.payload);
    let head = decode_resp_head(&frame[0..RESP_HEAD_LEN]).unwrap();
    assert_eq!(head.flag, RESP_FLAG_ERR_STRING);
    assert_eq!(&frame[RESP_HEAD_LEN..], b"decode");
}

#[test]
fn writer_batches_then_closes_and_never_writes_again() {
    let mut w = WriterState::new();
    let item = RespItem { seq: 1, payload: RespPayload::Success { msg: vec![1], blob: vec![] } };
    let expected = encode_response(1, &item.payload);
    match w.step(WriterEvent::Item(item)) {
        WriterAction::Write(bytes) => assert_eq!(bytes, expected),
        _ => panic!("a running writer writes each item"),
    }
    // The queue closes: the writer shuts the connection and is done.
    assert!(matches!(w.step(WriterEvent::QueueClosed), WriterAction::CloseConn));
    // After the close no event produces another write.
    let late = RespItem { seq: 2, payload: RespPayload::Errno(1) };
    assert!(matches!(w.step(WriterEvent::Item(late)), WriterAction::Idle));
    assert!(matches!(w.step(WriterEvent::QueueClosed), WriterAction::Idle));
}

#[test]
fn writer_stops_after_a_write_error() {
    let mut w = WriterState::new();
    w.on_write_error();
    let item = RespItem { seq: 1, payload: RespPayload::Errno(1) };
    assert!(matches!(w.step(WriterEvent::Item(item)), WriterAction::Idle));
}

#[test]
fn server_close_is_idempotent() {
    let mut s = ServerState::new(ServerConfig::default());
    s.add_listener();
    s.add_listener();
    assert!(s.close_begin());
    assert_eq!(s.listeners, 0);
    // The second call is a no-op.
    assert!(!s.close_begin());
    assert_eq!(s.listeners, 0);
    assert!(s.close_started);
}

#[test]
fn close_poll_waits_for_connections_up_to_the_limit() {
    let s = {
        let mut s = ServerState::new(ServerConfig::default());
        s.close_begin();
        s
    };
    // 90 s wait limit by default.
    assert!(!s.close_poll(3, 1000));
    assert!(s.close_poll(0, 1000));
    assert!(!s.close_poll(3, 90000));
    assert!(s.close_poll(3, 90001));
}

#[test]
fn default_server_config() {
    let c = ServerConfig::default();
    assert_eq!(c.read_timeout_ms, 5000);
    assert_eq!(c.write_timeout_ms, 5000);
    assert_eq!(c.idle_timeout_ms, 120000);
    assert_eq!(c.server_close_wait_ms, 90000);
    assert_eq!(c.stream_buf_size, 0);
}

#[test]
fn service_method_split() {
    assert_eq!(
        split_service_method(b"cal.add"),
        Some((b"cal".to_vec(), b"add".to_vec()))
    );
    // The split is at the first dot.
    assert_eq!(
        split_service_method(b"a.b.c"),
        Some((b"a".to_vec(), b"b.c".to_vec()))
    );
    assert_eq!(split_service_method(b"nodot"), None);
    assert_eq!(split_service_method(b""), None);
    assert_eq!(split_service_method(b".m"), Some((b"".to_vec(), b"m".to_vec())));
}

#[test]
fn api_dispatch_routes_only_dotted_string_actions() {
    assert_eq!(api_dispatch_route(&RpcAction::Num(7)), None);
    assert_eq!(api_dispatch_route(&RpcAction::Str(b"echo_repeat".to_vec())), None);
    assert_eq!(
        api_dispatch_route(&RpcAction::Str(b"echo.repeat".to_vec())),
        Some((b"echo".to_vec(), b"repeat".to_vec()))
    );
}
