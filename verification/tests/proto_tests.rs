use razor_rpc::proto::{
    decode_req_head, decode_request, decode_resp_head, encode_req_head, encode_request,
    encode_resp_head, encode_response, ReqHead, Request, RespHead, RespPayload, RpcAction,
    ACTION_PING, ACTION_STR_FLAG, MAX_BLOB_LEN, MAX_MSG_LEN, REQ_HEAD_LEN, RESP_FLAG_ERRNO,
    RESP_FLAG_ERR_STRING, RESP_FLAG_OK, RESP_HEAD_LEN, RPC_MAGIC, RPC_VERSION,
};

fn sample_req_head() -> ReqHead {
    ReqHead {
        magic: RPC_MAGIC,
        seq: 7,
        client_id: 99,
        ver: RPC_VERSION,
        format: 0,
        action: 10,
        msg_len: 11,
        blob_len: 0,
    }
}

#[test]
fn req_head_round_trip() {
    let h = sample_req_head();
    let bytes = encode_req_head(&h);
    assert_eq!(bytes.len(), REQ_HEAD_LEN);
    let back = decode_req_head(&bytes).expect("valid header");
    assert_eq!(back, h);
}

#[test]
fn req_head_layout_is_little_endian() {
    let h = sample_req_head();
    let bytes = encode_req_head(&h);
    assert_eq!(&bytes[0..4], &RPC_MAGIC.to_le_bytes());
    assert_eq!(&bytes[4..12], &7u64.to_le_bytes());
    assert_eq!(&bytes[12..20], &99u64.to_le_bytes());
    assert_eq!(bytes[20], RPC_VERSION);
    assert_eq!(bytes[21], 0);
    assert_eq!(&bytes[22..24], &10u16.to_le_bytes());
    assert_eq!(&bytes[24..28], &11u32.to_le_bytes());
    assert_eq!(&bytes[28..32], &0u32.to_le_bytes());
}

#[test]
fn req_head_bad_magic_is_decode_error() {
    let mut h = sample_req_head();
    h.magic = RPC_MAGIC ^ 1;
    let bytes = encode_req_head(&h);
    assert!(decode_req_head(&bytes).is_err());
}

#[test]
fn req_head_bad_version_is_decode_error() {
    let mut h = sample_req_head();
    h.ver = RPC_VERSION + 1;
    let bytes = encode_req_head(&h);
    assert!(decode_req_head(&bytes).is_err());
}

#[test]
fn req_head_length_over_maximum_is_decode_error() {
    let mut h = sample_req_head();
    h.msg_len = MAX_MSG_LEN + 1;
    let bytes = encode_req_head(&h);
    assert!(decode_req_head(&bytes).is_err());
    let mut h2 = sample_req_head();
    h2.blob_len = MAX_BLOB_LEN + 1;
    let bytes2 = encode_req_head(&h2);
    assert!(decode_req_head(&bytes2).is_err());
}

#[test]
fn req_head_empty_string_action_is_decode_error() {
    let mut h = sample_req_head();
    h.action = ACTION_STR_FLAG;
    let bytes = encode_req_head(&h);
    assert!(decode_req_head(&bytes).is_err());
}

#[test]
fn resp_head_round_trip() {
    let h = RespHead { magic: RPC_MAGIC, seq: 12, flag: RESP_FLAG_OK, msg_len: 5, blob_len: 9 };
    let bytes = encode_resp_head(&h);
    assert_eq!(bytes.len(), RESP_HEAD_LEN);
    let back = decode_resp_head(&bytes).expect("valid header");
    assert_eq!(back, h);
}

#[test]
fn resp_head_unknown_flag_is_decode_error() {
    let h = RespHead { magic: RPC_MAGIC, seq: 12, flag: 3, msg_len: 0, blob_len: 0 };
    let bytes = encode_resp_head(&h);
    assert!(decode_resp_head(&bytes).is_err());
}

#[test]
fn resp_head_errno_flag_carries_errno_in_msg_len() {
    // flag=1 reinterprets msg_len as an errno, so it is not length-checked.
    let h = RespHead {
        magic: RPC_MAGIC,
        seq: 3,
        flag: RESP_FLAG_ERRNO,
        msg_len: 0xFFFF_FFFF,
        blob_len: 0,
    };
    let bytes = encode_resp_head(&h);
    let back = decode_resp_head(&bytes).expect("errno headers are not length-bounded");
    assert_eq!(back.msg_len, 0xFFFF_FFFF);
}

#[test]
fn request_frame_round_trip_numeric_action() {
    let q = Request {
        seq: 4,
        client_id: 2,
        format: 1,
        action: RpcAction::Num(10),
        msg: vec![0x81, 0xA3, b'm', b's', b'g'],
        blob: vec![],
    };
    let frame = encode_request(&q);
    assert_eq!(frame.len(), REQ_HEAD_LEN + 5);
    let back = decode_request(&frame).expect("well-formed frame");
    assert_eq!(back, q);
}

#[test]
fn request_frame_round_trip_string_action_with_blob() {
    let q = Request {
        seq: 8,
        client_id: 1,
        format: 0,
        action: RpcAction::Str(b"cal.add".to_vec()),
        msg: vec![1, 2, 3],
        blob: vec![9, 9, 9, 9],
    };
    let frame = encode_request(&q);
    assert_eq!(frame.len(), REQ_HEAD_LEN + 7 + 3 + 4);
    // The action field carries the string flag plus the length.
    let head = decode_req_head(&frame[0..REQ_HEAD_LEN]).unwrap();
    assert_eq!(head.action, ACTION_STR_FLAG + 7);
    let back = decode_request(&frame).expect("well-formed frame");
    assert_eq!(back, q);
}

#[test]
fn request_frame_truncated_is_decode_error() {
    let q = Request {
        seq: 4,
        client_id: 2,
        format: 0,
        action: RpcAction::Num(10),
        msg: vec![1, 2, 3],
        blob: vec![],
    };
    let frame = encode_request(&q);
    assert!(decode_request(&frame[..frame.len() - 1]).is_err());
    assert!(decode_request(&frame[..10]).is_err());
}

#[test]
fn response_success_frame_layout() {
    let p = RespPayload::Success { msg: vec![1, 2], blob: vec![3, 4, 5] };
    let frame = encode_response(21, &p);
    assert_eq!(frame.len(), RESP_HEAD_LEN + 5);
    let head = decode_resp_head(&frame[0..RESP_HEAD_LEN]).unwrap();
    assert_eq!(head.seq, 21);
    assert_eq!(head.flag, RESP_FLAG_OK);
    assert_eq!(head.msg_len, 2);
    assert_eq!(head.blob_len, 3);
    assert_eq!(&frame[RESP_HEAD_LEN..], &[1, 2, 3, 4, 5]);
}

#[test]
fn response_errno_frame_has_no_body() {
    // A posix failure: flag=1, msg_len holds the errno, nothing follows.
    let p = RespPayload::Errno(1);
    let frame = encode_response(5, &p);
    assert_eq!(frame.len(), RESP_HEAD_LEN);
    let head = decode_resp_head(&frame).unwrap();
    assert_eq!(head.flag, RESP_FLAG_ERRNO);
    assert_eq!(head.msg_len, 1);
    assert_eq!(head.blob_len, 0);
}

#[test]
fn response_error_text_frame_layout() {
    let text = b"divide by zero".to_vec();
    let p = RespPayload::ErrText(text.clone());
    let frame = encode_response(6, &p);
    let head = decode_resp_head(&frame[0..RESP_HEAD_LEN]).unwrap();
    assert_eq!(head.flag, RESP_FLAG_ERR_STRING);
    assert_eq!(head.msg_len, 0);
    assert_eq!(head.blob_len, 14);
    assert_eq!(&frame[RESP_HEAD_LEN..], text.as_slice());
}

#[test]
fn ping_action_is_code_zero() {
    assert_eq!(ACTION_PING, 0);
}
