//! The wire protocol: packet layout, action encoding, framing rules.
//!
//! Every packet begins with a fixed-length little-endian header.  A request
//! header is `magic (u32), seq (u64), client_id (u64), ver (u8), format
//! (u8), action (u16), msg_len (u32), blob_len (u32)`, 32 bytes in all.  A
//! response header is `magic (u32), seq (u64), flag (u8), 3 reserved bytes,
//! msg_len (u32), blob_len (u32)`, 24 bytes in all; when `flag` is 1 the
//! `msg_len` field carries a numeric errno instead of a length.
//!
//! An action is either a small numeric code (`Num`, below
//! [`ACTION_STR_FLAG`]; code 0 is reserved for ping) or a byte string
//! (`Str`) appended right after the header.  A string action of length `L`
//! puts `ACTION_STR_FLAG + L` in the header's action field, so the field
//! both marks the string form and tells the receiver how many action bytes
//! follow.  The request body is the action string (if any), then the
//! encoded message, then the optional blob.  The response body is, on flag
//! 0, the message then the blob; on flag 1, nothing; on flag 2, `blob_len`
//! bytes of UTF-8 error text.

use vstd::prelude::*;
use vstd::bytes::*;
use vstd::slice::{slice_index_get, slice_subrange, slice_to_vec};
use crate::error::RpcError;

verus! {

/// First four bytes of every packet.
pub const RPC_MAGIC: u32 = 0x525A5043;

/// The one protocol version this implementation speaks.
pub const RPC_VERSION: u8 = 1;

/// Size in bytes of an encoded request header.
pub const REQ_HEAD_LEN: usize = 32;

/// Size in bytes of an encoded response header.
pub const RESP_HEAD_LEN: usize = 24;

/// Numeric action reserved for ping.
pub const ACTION_PING: u16 = 0;

/// High bit of the action field: set when a string action follows the
/// header; the low 15 bits then carry the string's byte length.
pub const ACTION_STR_FLAG: u16 = 0x8000;

/// Longest string action that the action field can describe.
pub const MAX_ACTION_STR_LEN: usize = 0x7FFF;

/// Response flag: success, body is message then blob.
pub const RESP_FLAG_OK: u8 = 0;

/// Response flag: failure, the msg_len field carries a numeric errno.
pub const RESP_FLAG_ERRNO: u8 = 1;

/// Response flag: failure, blob_len bytes of UTF-8 error text follow.
pub const RESP_FLAG_ERR_STRING: u8 = 2;

/// Largest message length a header may declare.
pub const MAX_MSG_LEN: u32 = 0x4000000;

/// Largest blob length a header may declare.
pub const MAX_BLOB_LEN: u32 = 0x4000000;

/// A packet's operation tag: a small numeric code, or a byte string
/// appended to the header.
#[derive(Debug, Clone, PartialEq, Eq)]
pub enum RpcAction {
    Num(u16),
    Str(Vec<u8>),
}

impl RpcAction {
    /// Actions the action field can represent: numeric codes below the
    /// string flag, and strings of 1 to [`MAX_ACTION_STR_LEN`] bytes.
    pub open spec fn wf(self) -> bool {
        match self {
            RpcAction::Num(n) => n < ACTION_STR_FLAG,
            RpcAction::Str(s) => 1 <= s@.len() <= MAX_ACTION_STR_LEN,
        }
    }

    /// What the header's action field holds for this action.
    pub open spec fn spec_field(self) -> u16
        recommends
            self.wf(),
    {
        match self {
            RpcAction::Num(n) => n,
            RpcAction::Str(s) => (ACTION_STR_FLAG + s@.len()) as u16,
        }
    }

    /// The action bytes that follow the header: empty for numeric actions.
    pub open spec fn spec_str_bytes(self) -> Seq<u8> {
        match self {
            RpcAction::Num(_) => Seq::empty(),
            RpcAction::Str(s) => s@,
        }
    }

    /// Executable mirror of `spec_field`.
    pub fn field(&self) -> (r: u16)
        requires
            self.wf(),
        ensures
            r == self.spec_field(),
    {
        match self {
            RpcAction::Num(n) => *n,
            RpcAction::Str(s) => ACTION_STR_FLAG + (s.len() as u16),
        }
    }
}

/// How many action-string bytes a request header announces.
pub open spec fn spec_action_str_len(field: u16) -> int {
    if field >= ACTION_STR_FLAG {
        field - ACTION_STR_FLAG
    } else {
        0
    }
}

/// A decoded request header.
#[derive(Debug, Clone, Copy, PartialEq, Eq, Structural)]
pub struct ReqHead {
    pub magic: u32,
    pub seq: u64,
    pub client_id: u64,
    pub ver: u8,
    pub format: u8,
    pub action: u16,
    pub msg_len: u32,
    pub blob_len: u32,
}

impl ReqHead {
    /// Headers this implementation accepts: right magic and version, a
    /// meaningful action field (`ACTION_STR_FLAG` alone would announce an
    /// empty action string), and lengths within the declared maxima.
    pub open spec fn valid(self) -> bool {
        &&& self.magic == RPC_MAGIC
        &&& self.ver == RPC_VERSION
        &&& self.action != ACTION_STR_FLAG
        &&& self.msg_len <= MAX_MSG_LEN
        &&& self.blob_len <= MAX_BLOB_LEN
    }
}

/// The 32 bytes of an encoded request header.
pub open spec fn req_head_bytes(h: ReqHead) -> Seq<u8> {
    spec_u32_to_le_bytes(h.magic) + spec_u64_to_le_bytes(h.seq) + spec_u64_to_le_bytes(h.client_id)
        + seq![h.ver] + seq![h.format] + spec_u16_to_le_bytes(h.action)
        + spec_u32_to_le_bytes(h.msg_len) + spec_u32_to_le_bytes(h.blob_len)
}

/// The request header that 32 bytes spell, field by field.
pub open spec fn req_head_of_bytes(b: Seq<u8>) -> ReqHead
    recommends
        b.len() == REQ_HEAD_LEN,
{
    ReqHead {
        magic: spec_u32_from_le_bytes(b.subrange(0, 4)),
        seq: spec_u64_from_le_bytes(b.subrange(4, 12)),
        client_id: spec_u64_from_le_bytes(b.subrange(12, 20)),
        ver: b[20],
        format: b[21],
        action: spec_u16_from_le_bytes(b.subrange(22, 24)),
        msg_len: spec_u32_from_le_bytes(b.subrange(24, 28)),
        blob_len: spec_u32_from_le_bytes(b.subrange(28, 32)),
    }
}

/// A decoded response header.
#[derive(Debug, Clone, Copy, PartialEq, Eq, Structural)]
pub struct RespHead {
    pub magic: u32,
    pub seq: u64,
    pub flag: u8,
    pub msg_len: u32,
    pub blob_len: u32,
}

impl RespHead {
    /// Headers this implementation accepts: right magic, a known flag, and
    /// lengths within the declared maxima.  When the flag is 1 the msg_len
    /// field is an errno, not a length, so it is not bounded.
    pub open spec fn valid(self) -> bool {
        &&& self.magic == RPC_MAGIC
        &&& self.flag <= RESP_FLAG_ERR_STRING
        &&& (self.flag == RESP_FLAG_ERRNO || self.msg_len <= MAX_MSG_LEN)
        &&& self.blob_len <= MAX_BLOB_LEN
    }

    /// How many body bytes follow this header: message then blob on
    /// success, nothing for an errno, the error text for a string error.
    pub open spec fn spec_body_len(self) -> int {
        if self.flag == RESP_FLAG_OK {
            self.msg_len + self.blob_len
        } else if self.flag == RESP_FLAG_ERR_STRING {
            self.blob_len as int
        } else {
            0
        }
    }

    /// Executable mirror of `spec_body_len`.
    pub fn body_len(&self) -> (r: usize)
        requires
            self.valid(),
        ensures
            r == self.spec_body_len(),
    {
        if self.flag == RESP_FLAG_OK {
            (self.msg_len as usize) + (self.blob_len as usize)
        } else if self.flag == RESP_FLAG_ERR_STRING {
            self.blob_len as usize
        } else {
            0
        }
    }
}

/// The 24 bytes of an encoded response header; the three reserved bytes
/// are written as zero and ignored on decode.
pub open spec fn resp_head_bytes(h: RespHead) -> Seq<u8> {
    spec_u32_to_le_bytes(h.magic) + spec_u64_to_le_bytes(h.seq) + seq![h.flag, 0u8, 0u8, 0u8]
        + spec_u32_to_le_bytes(h.msg_len) + spec_u32_to_le_bytes(h.blob_len)
}

/// The response header that 24 bytes spell, field by field.
pub open spec fn resp_head_of_bytes(b: Seq<u8>) -> RespHead
    recommends
        b.len() == RESP_HEAD_LEN,
{
    RespHead {
        magic: spec_u32_from_le_bytes(b.subrange(0, 4)),
        seq: spec_u64_from_le_bytes(b.subrange(4, 12)),
        flag: b[12],
        msg_len: spec_u32_from_le_bytes(b.subrange(16, 20)),
        blob_len: spec_u32_from_le_bytes(b.subrange(20, 24)),
    }
}

/// Appends all of `src` to `dst`.
pub fn push_bytes(dst: &mut Vec<u8>, src: &[u8])
    ensures
        final(dst)@ == old(dst)@ + src@,
{
    let ghost dst0 = dst@;
    let mut i: usize = 0;
    while i < src.len()
        invariant
            i <= src@.len(),
            dst@ == dst0 + src@.subrange(0, i as int),
        decreases src@.len() - i,
    {
        dst.push(*slice_index_get(src, i));
        assert(dst@ =~= dst0 + src@.subrange(0, i + 1));
        i = i + 1;
    }
    assert(dst@ =~= dst0 + src@);
}

/// Encodes a request header into its 32 wire bytes.
pub fn encode_req_head(h: &ReqHead) -> (r: Vec<u8>)
    ensures
        r@ == req_head_bytes(*h),
        r@.len() == REQ_HEAD_LEN,
{
    let mut r = u32_to_le_bytes(h.magic);
    let mut part = u64_to_le_bytes(h.seq);
    r.append(&mut part);
    let mut part = u64_to_le_bytes(h.client_id);
    r.append(&mut part);
    r.push(h.ver);
    r.push(h.format);
    let mut part = u16_to_le_bytes(h.action);
    r.append(&mut part);
    let mut part = u32_to_le_bytes(h.msg_len);
    r.append(&mut part);
    let mut part = u32_to_le_bytes(h.blob_len);
    r.append(&mut part);
    assert(r@ =~= req_head_bytes(*h));
    r
}

/// Encodes a response header into its 24 wire bytes.
pub fn encode_resp_head(h: &RespHead) -> (r: Vec<u8>)
    ensures
        r@ == resp_head_bytes(*h),
        r@.len() == RESP_HEAD_LEN,
{
    let mut r = u32_to_le_bytes(h.magic);
    let mut part = u64_to_le_bytes(h.seq);
    r.append(&mut part);
    r.push(h.flag);
    r.push(0);
    r.push(0);
    r.push(0);
    let mut part = u32_to_le_bytes(h.msg_len);
    r.append(&mut part);
    let mut part = u32_to_le_bytes(h.blob_len);
    r.append(&mut part);
    assert(r@ =~= resp_head_bytes(*h));
    r
}

/// Decodes a 32-byte request header buffer.  Returns `Decode` exactly when
/// the header is not [`ReqHead::valid`]: wrong magic, unknown version, an
/// action field announcing an empty string, or a length over its maximum.
pub fn decode_req_head(b: &[u8]) -> (r: Result<ReqHead, RpcError>)
    requires
        b@.len() == REQ_HEAD_LEN,
    ensures
        r == if req_head_of_bytes(b@).valid() {
            Ok::<ReqHead, RpcError>(req_head_of_bytes(b@))
        } else {
            Err::<ReqHead, RpcError>(RpcError::Decode)
        },
{
    let h = ReqHead {
        magic: u32_from_le_bytes(slice_subrange(b, 0, 4)),
        seq: u64_from_le_bytes(slice_subrange(b, 4, 12)),
        client_id: u64_from_le_bytes(slice_subrange(b, 12, 20)),
        ver: *slice_index_get(b, 20),
        format: *slice_index_get(b, 21),
        action: u16_from_le_bytes(slice_subrange(b, 22, 24)),
        msg_len: u32_from_le_bytes(slice_subrange(b, 24, 28)),
        blob_len: u32_from_le_bytes(slice_subrange(b, 28, 32)),
    };
    if h.magic == RPC_MAGIC && h.ver == RPC_VERSION && h.action != ACTION_STR_FLAG
        && h.msg_len <= MAX_MSG_LEN && h.blob_len <= MAX_BLOB_LEN {
        Ok(h)
    } else {
        Err(RpcError::Decode)
    }
}

/// Decodes a 24-byte response header buffer.  Returns `Decode` exactly when
/// the header is not [`RespHead::valid`]: wrong magic, a flag outside
/// `{0, 1, 2}`, or a length over its maximum.
pub fn decode_resp_head(b: &[u8]) -> (r: Result<RespHead, RpcError>)
    requires
        b@.len() == RESP_HEAD_LEN,
    ensures
        r == if resp_head_of_bytes(b@).valid() {
            Ok::<RespHead, RpcError>(resp_head_of_bytes(b@))
        } else {
            Err::<RespHead, RpcError>(RpcError::Decode)
        },
{
    let h = RespHead {
        magic: u32_from_le_bytes(slice_subrange(b, 0, 4)),
        seq: u64_from_le_bytes(slice_subrange(b, 4, 12)),
        flag: *slice_index_get(b, 12),
        msg_len: u32_from_le_bytes(slice_subrange(b, 16, 20)),
        blob_len: u32_from_le_bytes(slice_subrange(b, 20, 24)),
    };
    if h.magic == RPC_MAGIC && h.flag <= RESP_FLAG_ERR_STRING
        && (h.flag == RESP_FLAG_ERRNO || h.msg_len <= MAX_MSG_LEN)
        && h.blob_len <= MAX_BLOB_LEN {
        Ok(h)
    } else {
        Err(RpcError::Decode)
    }
}

/// A whole request, as the server hands it to its dispatcher.
#[derive(Debug, Clone, PartialEq, Eq)]
pub struct Request {
    pub seq: u64,
    pub client_id: u64,
    pub format: u8,
    pub action: RpcAction,
    pub msg: Vec<u8>,
    pub blob: Vec<u8>,
}

impl Request {
    /// Requests that fit on the wire: a representable action and body
    /// lengths within the declared maxima.
    pub open spec fn wf(self) -> bool {
        &&& self.action.wf()
        &&& self.msg@.len() <= MAX_MSG_LEN
        &&& self.blob@.len() <= MAX_BLOB_LEN
    }

    /// The header that encoding this request writes.
    pub open spec fn spec_head(self) -> ReqHead {
        ReqHead {
            magic: RPC_MAGIC,
            seq: self.seq,
            client_id: self.client_id,
            ver: RPC_VERSION,
            format: self.format,
            action: self.action.spec_field(),
            msg_len: self.msg@.len() as u32,
            blob_len: self.blob@.len() as u32,
        }
    }
}

/// The complete wire image of a request: header, action string bytes (for
/// string actions), message, blob.
pub open spec fn request_frame_bytes(q: Request) -> Seq<u8> {
    req_head_bytes(q.spec_head()) + q.action.spec_str_bytes() + q.msg@ + q.blob@
}

/// Encodes a request into one frame.
pub fn encode_request(q: &Request) -> (r: Vec<u8>)
    requires
        q.wf(),
    ensures
        r@ == request_frame_bytes(*q),
{
    let head = ReqHead {
        magic: RPC_MAGIC,
        seq: q.seq,
        client_id: q.client_id,
        ver: RPC_VERSION,
        format: q.format,
        action: q.action.field(),
        msg_len: q.msg.len() as u32,
        blob_len: q.blob.len() as u32,
    };
    let mut r = encode_req_head(&head);
    match &q.action {
        RpcAction::Num(_) => {},
        RpcAction::Str(s) => {
            push_bytes(&mut r, s.as_slice());
        },
    }
    push_bytes(&mut r, q.msg.as_slice());
    push_bytes(&mut r, q.blob.as_slice());
    assert(r@ =~= request_frame_bytes(*q));
    r
}

/// A fully formed server reply, before encoding.
///
/// `Success` carries the encoded message and the optional blob; `Errno`
/// carries the numeric errno that rides in the header's msg_len field;
/// `ErrText` carries the UTF-8 error text sent as the body.
#[derive(Debug, Clone, PartialEq, Eq)]
pub enum RespPayload {
    Success { msg: Vec<u8>, blob: Vec<u8> },
    Errno(u32),
    ErrText(Vec<u8>),
}

impl RespPayload {
    /// Replies that fit on the wire.
    pub open spec fn wf(self) -> bool {
        match self {
            RespPayload::Success { msg, blob } => msg@.len() <= MAX_MSG_LEN && blob@.len()
                <= MAX_BLOB_LEN,
            RespPayload::Errno(_) => true,
            RespPayload::ErrText(t) => t@.len() <= MAX_BLOB_LEN,
        }
    }

    /// The header that encoding this reply writes for sequence `seq`.
    pub open spec fn spec_head(self, seq: u64) -> RespHead {
        match self {
            RespPayload::Success { msg, blob } => RespHead {
                magic: RPC_MAGIC,
                seq,
                flag: RESP_FLAG_OK,
                msg_len: msg@.len() as u32,
                blob_len: blob@.len() as u32,
            },
            RespPayload::Errno(e) => RespHead {
                magic: RPC_MAGIC,
                seq,
                flag: RESP_FLAG_ERRNO,
                msg_len: e,
                blob_len: 0,
            },
            RespPayload::ErrText(t) => RespHead {
                magic: RPC_MAGIC,
                seq,
                flag: RESP_FLAG_ERR_STRING,
                msg_len: 0,
                blob_len: t@.len() as u32,
            },
        }
    }

    /// The body bytes that follow the header.
    pub open spec fn spec_body(self) -> Seq<u8> {
        match self {
            RespPayload::Success { msg, blob } => msg@ + blob@,
            RespPayload::Errno(_) => Seq::empty(),
            RespPayload::ErrText(t) => t@,
        }
    }
}

/// The complete wire image of a response for sequence `seq`.
pub open spec fn response_frame_bytes(seq: u64, p: RespPayload) -> Seq<u8> {
    resp_head_bytes(p.spec_head(seq)) + p.spec_body()
}

/// Encodes a response into one frame.
pub fn encode_response(seq: u64, p: &RespPayload) -> (r: Vec<u8>)
    requires
        p.wf(),
    ensures
        r@ == response_frame_bytes(seq, *p),
{
    match p {
        RespPayload::Success { msg, blob } => {
            let head = RespHead {
                magic: RPC_MAGIC,
                seq,
                flag: RESP_FLAG_OK,
                msg_len: msg.len() as u32,
                blob_len: blob.len() as u32,
            };
            let mut r = encode_resp_head(&head);
            push_bytes(&mut r, msg.as_slice());
            push_bytes(&mut r, blob.as_slice());
            assert(r@ =~= response_frame_bytes(seq, *p));
            r
        },
        RespPayload::Errno(e) => {
            let head = RespHead {
                magic: RPC_MAGIC,
                seq,
                flag: RESP_FLAG_ERRNO,
                msg_len: *e,
                blob_len: 0,
            };
            let r = encode_resp_head(&head);
            assert(r@ =~= response_frame_bytes(seq, *p));
            r
        },
        RespPayload::ErrText(t) => {
            let head = RespHead {
                magic: RPC_MAGIC,
                seq,
                flag: RESP_FLAG_ERR_STRING,
                msg_len: 0,
                blob_len: t.len() as u32,
            };
            let mut r = encode_resp_head(&head);
            push_bytes(&mut r, t.as_slice());
            assert(r@ =~= response_frame_bytes(seq, *p));
            r
        },
    }
}

/// The header of a ping request: action 0, no body.
pub open spec fn ping_head(client_id: u64, seq: u64) -> ReqHead {
    ReqHead {
        magic: RPC_MAGIC,
        seq,
        client_id,
        ver: RPC_VERSION,
        format: 0,
        action: ACTION_PING,
        msg_len: 0,
        blob_len: 0,
    }
}

/// The complete wire image of a ping request: a bare header.
pub open spec fn ping_frame_bytes(client_id: u64, seq: u64) -> Seq<u8> {
    req_head_bytes(ping_head(client_id, seq))
}

/// True when `b` is exactly one well-formed request frame: a long enough
/// buffer, a valid header, and a total length that matches what the header
/// announces.
pub open spec fn request_frame_ok(b: Seq<u8>) -> bool {
    &&& b.len() >= REQ_HEAD_LEN
    &&& req_head_of_bytes(b.subrange(0, REQ_HEAD_LEN as int)).valid()
    &&& b.len() == REQ_HEAD_LEN + spec_action_str_len(
        req_head_of_bytes(b.subrange(0, REQ_HEAD_LEN as int)).action,
    ) + req_head_of_bytes(b.subrange(0, REQ_HEAD_LEN as int)).msg_len + req_head_of_bytes(
        b.subrange(0, REQ_HEAD_LEN as int),
    ).blob_len
}

/// True when `q` is the request that the frame `b` spells, segment by
/// segment.
pub open spec fn is_decoded_request(b: Seq<u8>, q: Request) -> bool
    recommends
        request_frame_ok(b),
{
    let h = req_head_of_bytes(b.subrange(0, REQ_HEAD_LEN as int));
    let alen = spec_action_str_len(h.action);
    &&& q.seq == h.seq
    &&& q.client_id == h.client_id
    &&& q.format == h.format
    &&& if h.action >= ACTION_STR_FLAG {
        q.action matches RpcAction::Str(s) && s@ == b.subrange(32, 32 + alen)
    } else {
        q.action == RpcAction::Num(h.action)
    }
    &&& q.msg@ == b.subrange(32 + alen, 32 + alen + h.msg_len)
    &&& q.blob@ == b.subrange(32 + alen + h.msg_len, 32 + alen + h.msg_len + h.blob_len)
}

/// Decodes one complete request frame, the server-side inverse of
/// [`encode_request`].  Returns `Decode` exactly when the buffer is not a
/// single well-formed frame.
pub fn decode_request(b: &[u8]) -> (r: Result<Request, RpcError>)
    ensures
        r is Ok <==> request_frame_ok(b@),
        r matches Ok(q) ==> is_decoded_request(b@, q) && q.wf(),
{
    if b.len() < REQ_HEAD_LEN {
        return Err(RpcError::Decode);
    }
    let head_buf = slice_subrange(b, 0, REQ_HEAD_LEN);
    let h = match decode_req_head(head_buf) {
        Ok(h) => h,
        Err(e) => {
            return Err(e);
        },
    };
    let alen: usize = if h.action >= ACTION_STR_FLAG {
        (h.action - ACTION_STR_FLAG) as usize
    } else {
        0
    };
    let msg_len = h.msg_len as usize;
    let blob_len = h.blob_len as usize;
    if b.len() != REQ_HEAD_LEN + alen + msg_len + blob_len {
        return Err(RpcError::Decode);
    }
    let action = if h.action >= ACTION_STR_FLAG {
        RpcAction::Str(slice_to_vec(slice_subrange(b, REQ_HEAD_LEN, REQ_HEAD_LEN + alen)))
    } else {
        RpcAction::Num(h.action)
    };
    let msg = slice_to_vec(slice_subrange(b, REQ_HEAD_LEN + alen, REQ_HEAD_LEN + alen + msg_len));
    let blob = slice_to_vec(
        slice_subrange(b, REQ_HEAD_LEN + alen + msg_len, REQ_HEAD_LEN + alen + msg_len + blob_len),
    );
    Ok(Request { seq: h.seq, client_id: h.client_id, format: h.format, action, msg, blob })
}

/// Round trip: a frame written by [`encode_request`] is one well-formed
/// frame, and decoding it recovers the request.
pub proof fn lemma_request_frame_round_trip(q: Request)
    requires
        q.wf(),
    ensures
        request_frame_ok(request_frame_bytes(q)),
        is_decoded_request(request_frame_bytes(q), q),
{
    let h = q.spec_head();
    let b = request_frame_bytes(q);
    lemma_req_head_round_trip(h);
    assert(b.subrange(0, REQ_HEAD_LEN as int) =~= req_head_bytes(h));
    let alen = spec_action_str_len(h.action);
    assert(alen == q.action.spec_str_bytes().len());
    assert(b.subrange(32, 32 + alen) =~= q.action.spec_str_bytes());
    assert(b.subrange(32 + alen, 32 + alen + h.msg_len) =~= q.msg@);
    assert(b.subrange(32 + alen + h.msg_len, 32 + alen + h.msg_len + h.blob_len) =~= q.blob@);
}

/// Decoding a request header recovers every field that encoding wrote.
pub proof fn lemma_req_head_round_trip(h: ReqHead)
    ensures
        req_head_bytes(h).len() == REQ_HEAD_LEN,
        req_head_of_bytes(req_head_bytes(h)) == h,
{
    lemma_auto_spec_u16_to_from_le_bytes();
    lemma_auto_spec_u32_to_from_le_bytes();
    lemma_auto_spec_u64_to_from_le_bytes();
    let b = req_head_bytes(h);
    assert(b.subrange(0, 4) =~= spec_u32_to_le_bytes(h.magic));
    assert(b.subrange(4, 12) =~= spec_u64_to_le_bytes(h.seq));
    assert(b.subrange(12, 20) =~= spec_u64_to_le_bytes(h.client_id));
    assert(b.subrange(22, 24) =~= spec_u16_to_le_bytes(h.action));
    assert(b.subrange(24, 28) =~= spec_u32_to_le_bytes(h.msg_len));
    assert(b.subrange(28, 32) =~= spec_u32_to_le_bytes(h.blob_len));
}

/// Round trip: a frame written by [`encode_response`] opens with a valid
/// header that decodes back to what was encoded and announces exactly
/// the body bytes that follow it.
pub proof fn lemma_response_frame_round_trip(seq: u64, p: RespPayload)
    requires
        p.wf(),
    ensures
        resp_head_of_bytes(response_frame_bytes(seq, p).subrange(0, RESP_HEAD_LEN as int))
            == p.spec_head(seq),
        p.spec_head(seq).valid(),
        p.spec_head(seq).spec_body_len() == p.spec_body().len(),
        response_frame_bytes(seq, p).subrange(
            RESP_HEAD_LEN as int,
            response_frame_bytes(seq, p).len() as int,
        ) == p.spec_body(),
{
    let h = p.spec_head(seq);
    let b = response_frame_bytes(seq, p);
    lemma_resp_head_round_trip(h);
    assert(b.subrange(0, RESP_HEAD_LEN as int) =~= resp_head_bytes(h));
    assert(b.subrange(RESP_HEAD_LEN as int, b.len() as int) =~= p.spec_body());
}

/// Decoding a response header recovers every field that encoding wrote.
pub proof fn lemma_resp_head_round_trip(h: RespHead)
    ensures
        resp_head_bytes(h).len() == RESP_HEAD_LEN,
        resp_head_of_bytes(resp_head_bytes(h)) == h,
{
    lemma_auto_spec_u32_to_from_le_bytes();
    lemma_auto_spec_u64_to_from_le_bytes();
    let b = resp_head_bytes(h);
    assert(b.subrange(0, 4) =~= spec_u32_to_le_bytes(h.magic));
    assert(b.subrange(4, 12) =~= spec_u64_to_le_bytes(h.seq));
    assert(b.subrange(16, 20) =~= spec_u32_to_le_bytes(h.msg_len));
    assert(b.subrange(20, 24) =~= spec_u32_to_le_bytes(h.blob_len));
}

} // verus!
