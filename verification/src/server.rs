//! The server-side engines: the per-connection reader and writer, and
//! the server lifecycle with its graceful close.
//!
//! Per connection the server runs one reader and one writer.  The reader
//! parses request frames and answers pings on a fast path without
//! dispatching; everything else goes to the dispatcher, and a dispatcher
//! that fails synchronously earns the request a `Decode` error response.
//! The writer drains completed responses from its queue, batching all it
//! can get before each flush, and exits once the queue closes; from then
//! on it writes nothing more.  Closing the server stops the listeners
//! and the close signal once, then waits for connections to drain up to
//! the configured limit.

use vstd::prelude::*;
use crate::proto::{
    encode_response, response_frame_bytes, Request, RespPayload, RpcAction, ACTION_PING,
};

verus! {

/// General server-side configuration, all durations in milliseconds:
/// socket read and write timeouts, the idle time after which a
/// connection is closed, how long a graceful close waits for
/// connections to drain, and a stream buffer size (`0` keeps the
/// transport's default).
#[derive(Debug, Clone, Copy, PartialEq, Eq, Structural)]
pub struct ServerConfig {
    pub read_timeout_ms: u64,
    pub write_timeout_ms: u64,
    pub idle_timeout_ms: u64,
    pub server_close_wait_ms: u64,
    pub stream_buf_size: usize,
}

impl Default for ServerConfig {
    /// The defaults: 5 s socket timeouts, 120 s idle, 90 s close wait,
    /// the transport's own buffer size.
    fn default() -> (c: ServerConfig)
        ensures
            c == (ServerConfig {
                read_timeout_ms: 5000,
                write_timeout_ms: 5000,
                idle_timeout_ms: 120000,
                server_close_wait_ms: 90000,
                stream_buf_size: 0,
            }),
    {
        ServerConfig {
            read_timeout_ms: 5000,
            write_timeout_ms: 5000,
            idle_timeout_ms: 120000,
            server_close_wait_ms: 90000,
            stream_buf_size: 0,
        }
    }
}

/// What the reader does with one parsed request.
pub enum ReaderAction {
    /// The ping fast path: queue an empty success for this seq, no
    /// dispatch.
    QuickOk { seq: u64 },
    /// Hand the request to the dispatcher.
    Dispatch { req: Request },
}

/// A request is a ping exactly when its action is the numeric code 0
/// and it carries no message.
pub open spec fn is_ping(req: Request) -> bool {
    req.action == RpcAction::Num(ACTION_PING) && req.msg@.len() == 0
}

/// The reader's decision for one request: answer pings on the spot,
/// dispatch everything else.
pub fn reader_step(req: Request) -> (r: ReaderAction)
    ensures
        is_ping(req) ==> (r matches ReaderAction::QuickOk { seq } && seq == req.seq),
        !is_ping(req) ==> (r matches ReaderAction::Dispatch { req: q } && q == req),
{
    let ping = match &req.action {
        RpcAction::Num(n) => *n == ACTION_PING && req.msg.len() == 0,
        RpcAction::Str(_) => false,
    };
    if ping {
        ReaderAction::QuickOk { seq: req.seq }
    } else {
        ReaderAction::Dispatch { req }
    }
}

/// One item in the writer's queue: a ready response for a seq.
#[derive(Debug, Clone, PartialEq, Eq)]
pub struct RespItem {
    pub seq: u64,
    pub payload: RespPayload,
}

/// What the writer queue handed over on one receive.
pub enum WriterEvent {
    /// A completed response to write.
    Item(RespItem),
    /// All senders dropped: the reader is done and every dispatched
    /// handler has finished.
    QueueClosed,
}

/// What the writer must do next.
pub enum WriterAction {
    /// Write these frame bytes to the socket.
    Write(Vec<u8>),
    /// Close the write half and exit; nothing more will be written.
    CloseConn,
    /// Nothing: the writer had already finished.
    Idle,
}

/// The per-connection writer state machine.  Once `done` is set —
/// because the queue closed or a write failed — it stays set, and no
/// event produces another write: after the close has gone through, no
/// new response writes occur.
#[derive(Debug, Clone, Copy, PartialEq, Eq, Structural)]
pub struct WriterState {
    pub done: bool,
}

/// When the writer emits a write: only while it is still running and
/// only for a queued response.
pub open spec fn writer_writes(w: WriterState, ev: WriterEvent) -> bool {
    !w.done && ev is Item
}

/// Once a writer is done — its queue closed or its socket failed — no
/// event makes it write again: after the close has gone through, no new
/// response writes occur.
pub proof fn lemma_no_write_after_done(w: WriterState, ev: WriterEvent)
    requires
        w.done,
    ensures
        !writer_writes(w, ev),
{
}

impl WriterState {
    /// A fresh writer, ready to drain its queue.
    pub fn new() -> (w: WriterState)
        ensures
            !w.done,
    {
        WriterState { done: false }
    }

    /// Feeds the writer one queue event.  A response is encoded and
    /// written only while the writer is running; the closed queue turns
    /// the writer off for good.
    pub fn step(&mut self, ev: WriterEvent) -> (a: WriterAction)
        requires
            ev matches WriterEvent::Item(item) ==> item.payload.wf(),
        ensures
            a is Write <==> writer_writes(*old(self), ev),
            old(self).done ==> final(self).done && !(a is Write),
            old(self).done ==> a is Idle,
            !old(self).done ==> match ev {
                WriterEvent::Item(item) => {
                    &&& !final(self).done
                    &&& a matches WriterAction::Write(b) && b@ == response_frame_bytes(
                        item.seq,
                        item.payload,
                    )
                },
                WriterEvent::QueueClosed => final(self).done && a is CloseConn,
            },
    {
        if self.done {
            return WriterAction::Idle;
        }
        match ev {
            WriterEvent::Item(item) => {
                let frame = encode_response(item.seq, &item.payload);
                WriterAction::Write(frame)
            },
            WriterEvent::QueueClosed => {
                self.done = true;
                WriterAction::CloseConn
            },
        }
    }

    /// A socket error is terminal for the writer.
    pub fn on_write_error(&mut self)
        ensures
            final(self).done,
    {
        self.done = true;
    }
}

/// The server's own state: how many listeners run, and whether the
/// graceful close has been started.
#[derive(Debug, Clone, Copy, PartialEq, Eq, Structural)]
pub struct ServerState {
    pub listeners: u64,
    pub close_started: bool,
    pub config: ServerConfig,
}

impl ServerState {
    /// A fresh server: no listeners yet, not closing.
    pub fn new(config: ServerConfig) -> (s: ServerState)
        ensures
            s == (ServerState { listeners: 0, close_started: false, config }),
    {
        ServerState { listeners: 0, close_started: false, config }
    }

    /// Accounts one more accept loop; only possible before the close.
    pub fn add_listener(&mut self)
        requires
            !old(self).close_started,
            old(self).listeners < u64::MAX,
        ensures
            *final(self) == (ServerState {
                listeners: (old(self).listeners + 1) as u64,
                ..*old(self)
            }),
    {
        self.listeners = self.listeners + 1;
    }

    /// Starts the graceful close: aborts every listener and lets the
    /// close signal go out, but only the first time.  Returns whether
    /// there was anything to do; the second call is a no-op.
    pub fn close_begin(&mut self) -> (started: bool)
        ensures
            final(self).listeners == 0 || old(self).close_started,
            final(self).close_started,
            final(self).config == old(self).config,
            started == !old(self).close_started,
            old(self).close_started ==> *final(self) == *old(self),
    {
        if self.close_started {
            return false;
        }
        self.close_started = true;
        self.listeners = 0;
        true
    }

    /// One poll of the graceful-close wait: done when every connection
    /// has gone, or when the configured wait has elapsed.
    pub fn close_poll(&self, alive_conn: u64, elapsed_ms: u64) -> (done: bool)
        ensures
            done == (alive_conn == 0 || elapsed_ms > self.config.server_close_wait_ms),
    {
        alive_conn == 0 || elapsed_ms > self.config.server_close_wait_ms
    }
}

/// The ASCII bytes of the statically predefined error text that a
/// request refused by its dispatcher earns: "decode".
pub open spec fn decode_err_text() -> Seq<u8> {
    seq![0x64u8, 0x65u8, 0x63u8, 0x6fu8, 0x64u8, 0x65u8]
}

/// The response the reader queues without any dispatch: an empty
/// success for a ping, the `Decode` error text for a request its
/// dispatcher refused.
pub fn quick_resp(seq: u64, decode_err: bool) -> (item: RespItem)
    ensures
        item.seq == seq,
        !decode_err ==> (item.payload matches RespPayload::Success { msg, blob } && msg@.len() == 0
            && blob@.len() == 0),
        decode_err ==> (item.payload matches RespPayload::ErrText(t) && t@ == decode_err_text()),
        item.payload.wf(),
{
    if decode_err {
        let mut t: Vec<u8> = Vec::new();
        t.push(0x64);
        t.push(0x65);
        t.push(0x63);
        t.push(0x6f);
        t.push(0x64);
        t.push(0x65);
        assert(t@ =~= decode_err_text());
        RespItem { seq, payload: RespPayload::ErrText(t) }
    } else {
        RespItem { seq, payload: RespPayload::Success { msg: Vec::new(), blob: Vec::new() } }
    }
}

} // verus!
