//! The client-side connection engine.
//!
//! The engine is the shared state of one client connection: the sequence
//! allocator, the `closed` / `has_err` flags, the pending-task registry,
//! the optional throttler, and the ghost history of what went on the
//! wire.  It decides; the surrounding runtime acts.  Sending a task is a
//! two-step exchange: [`ClientEngine::begin_send`] admits the task,
//! allocates its seq and returns the encoded frame; the runtime writes
//! the frame (each write under the write timeout) and reports back
//! through [`ClientEngine::finish_send`], which registers the task or
//! tears the connection down.  Receiving runs the same way: the runtime
//! reads exactly the bytes each decision asks for and feeds them back in.
//!
//! Every task leaves the engine as an [`Outcome`]: delivered with its one
//! result, or handed with its error to the retry sink when one is
//! configured.

use vstd::prelude::*;
use vstd::seq_lib::group_to_multiset_ensures;
use crate::error::RpcError;
use crate::notifier::{Notifier, TaskEntry};
use crate::proto::{
    ping_frame_bytes, request_frame_bytes, Request, RespHead, RpcAction, ACTION_PING,
    RESP_FLAG_ERRNO, RESP_FLAG_ERR_STRING,
};
use crate::task::{fail_task, spec_fail, ClientTask, Outcome};
use crate::throttler::Throttler;

verus! {

broadcast use group_to_multiset_ensures;

/// Per-connection client configuration: the per-task deadline in seconds
/// (enforced by the once-per-second sweep), the socket timeouts in
/// milliseconds, and the throttler window (`0` disables throttling).
#[derive(Debug, Clone, Copy, PartialEq, Eq, Structural)]
pub struct ClientConfig {
    pub task_timeout: u64,
    pub read_timeout_ms: u64,
    pub write_timeout_ms: u64,
    pub thresholds: u64,
}

/// A frame write the runtime owes the engine an answer about.
#[derive(Debug, Clone, Copy, PartialEq, Eq, Structural)]
pub enum InFlight {
    /// A task frame carrying this seq; it counts in `pending_count`.
    Task(u64),
    /// A ping frame carrying this seq.
    Ping(u64),
}

impl InFlight {
    /// The seq the frame carries.
    pub open spec fn spec_seq(self) -> u64 {
        match self {
            InFlight::Task(s) => s,
            InFlight::Ping(s) => s,
        }
    }
}

/// What the admission gate tells a sender.
#[derive(Debug, Clone, Copy, PartialEq, Eq, Structural)]
pub enum ThrottleDecision {
    /// The connection closed; the caller must abort.
    Abort,
    /// No throttler is configured; there is nothing to wait for.
    Bypass,
    /// In-flight count is below the window; go ahead.
    Admit,
    /// The window is full; poll again after the next completion.
    Wait,
}

/// How [`ClientEngine::begin_send`] answered.
pub enum BeginSend {
    /// Write `frame`, then report through `finish_send`.  `auto_flush`
    /// is set when the frame alone crosses the batching limit, so the
    /// stream must be flushed even if the caller did not ask for it.
    Proceed { frame: Vec<u8>, task: ClientTask, auto_flush: bool },
    /// The connection was already closed: the task failed with `Closed`
    /// and the send reports `err` to its caller.
    Refused { outcome: Outcome, err: RpcError },
}

/// How [`ClientEngine::finish_send`] answered.
pub enum FinishSend {
    /// The task is registered and now awaits its response or the sweep.
    Registered,
    /// The write failed: the connection is torn down, the task failed
    /// with `Comm`, and the send reports `err` to its caller.
    Failed { outcome: Outcome, err: RpcError },
    /// The frame went out but the registry had already stopped, so the
    /// task failed with `Closed` right away.
    RefusedLate { outcome: Outcome },
}

/// What the receive loop must do before it may read a response header.
#[derive(Debug, Clone, Copy, PartialEq, Eq, Structural)]
pub enum RecvGate {
    /// Closed with nothing left to drain (or a genuine error): exit now.
    Exit,
    /// Closed but replies are still owed: read under the read timeout.
    DrainWithTimeout,
    /// Healthy: block on the header and race the close signal.
    BlockOnHeader,
}

/// What to do with a decoded response header.
pub enum RouteAction {
    /// The seq is not registered (it timed out or was never seen): read
    /// and discard exactly `len` body bytes, complete nothing.
    Drain { len: usize },
    /// An errno failure has no body; the task is done at once.
    Done { outcome: Outcome },
    /// A string error: read `len` bytes of UTF-8 error text, then call
    /// [`ClientEngine::complete_err_text`].
    ReadErrText { task: ClientTask, len: usize },
    /// Success: read `msg_len` message bytes, then call
    /// [`ClientEngine::on_body_msg`].
    ReadBody { task: ClientTask, msg_len: usize, blob_len: usize },
}

/// What to do after the message bytes of a success response.
pub enum MsgStep {
    /// The response is fully consumed; the task is done.
    Finished { outcome: Outcome },
    /// The task offered no blob buffer: it failed with `Decode`, and the
    /// blob's `len` bytes must be read and discarded.
    DrainBlob { outcome: Outcome, len: usize },
    /// Read `len` blob bytes, then call [`ClientEngine::on_body_blob`].
    ReadBlob { task: ClientTask, msg: Vec<u8>, len: usize },
    /// The message read failed: connection torn down, task failed with
    /// `Comm`, receive loop must exit with `err`.
    Fail { outcome: Outcome, err: RpcError },
}

/// A write threshold: a frame at least this large is flushed at once.
pub const AUTO_FLUSH_BYTES: usize = 32768;

/// Seqs strictly grow along the sequence.
pub open spec fn strictly_increasing(s: Seq<u64>) -> bool {
    forall|i: int, j: int| 0 <= i < j < s.len() ==> s[i] < s[j]
}

/// Every element is below `bound`.
pub open spec fn all_below(s: Seq<u64>, bound: u64) -> bool {
    forall|i: int| 0 <= i < s.len() ==> s[i] < bound
}

/// What [`ClientEngine::route_response`] must answer for the registered
/// task of a response with header `head`: settled on the spot for an
/// errno, otherwise a request for exactly the body bytes the header
/// announces.
pub open spec fn route_result_matches(
    r: RouteAction,
    task: ClientTask,
    head: RespHead,
    has_retry: bool,
) -> bool {
    if head.flag == RESP_FLAG_ERRNO {
        r matches RouteAction::Done { outcome } && outcome == spec_fail(
            task,
            RpcError::Posix(head.msg_len),
            has_retry,
        )
    } else if head.flag == RESP_FLAG_ERR_STRING {
        r matches RouteAction::ReadErrText { task: t, len } && t == task && len == head.blob_len
    } else {
        r matches RouteAction::ReadBody { task: t, msg_len, blob_len } && t == task && msg_len
            == head.msg_len && blob_len == head.blob_len
    }
}

/// Relies on `str::from_utf8`: it accepts exactly the valid UTF-8 byte
/// strings and decodes them to their character sequence.
#[verifier::external_body]
fn utf8_to_string(b: &[u8]) -> (r: Option<String>)
    ensures
        r is Some <==> vstd::utf8::valid_utf8(b@),
        r matches Some(s) ==> s@ == vstd::utf8::decode_utf8(b@),
{
    match core::str::from_utf8(b) {
        Ok(s) => Some(s.to_string()),
        Err(_) => None,
    }
}

/// The state of one client connection.
pub struct ClientEngine {
    pub server_id: u64,
    pub client_id: u64,
    pub config: ClientConfig,
    /// The next seq to allocate; seqs start at 1 and only grow.
    pub seq: u64,
    /// Set by either side on exit or fatal failure; the source of truth.
    pub closed: bool,
    /// Set on genuine I/O failure, as opposed to orderly close.
    pub has_err: bool,
    /// Tasks admitted but not yet completed: registry entries plus a
    /// task frame currently being written.
    pub pending_count: u64,
    /// The frame the runtime is writing right now, if any.
    pub in_flight: Option<InFlight>,
    /// The pending registry.
    pub notifier: Notifier,
    /// Admission control; `None` when the window is 0.
    pub throttler: Option<Throttler>,
    /// Whether a retry sink is attached.
    pub has_retry: bool,
    /// Clock reading at the last fully received response.
    pub last_resp_ts: u64,
    /// The latest clock reading the engine has seen.
    pub clock: u64,
    /// Every seq fully written to the wire, task frames and pings alike.
    pub wire: Ghost<Seq<u64>>,
    /// The seqs of task frames fully written to the wire.
    pub sent_ok: Ghost<Seq<u64>>,
    /// The seqs of tasks the registry accepted.
    pub reg_ok: Ghost<Seq<u64>>,
    /// The seqs written to the wire but refused by a stopped registry.
    pub lost: Ghost<Seq<u64>>,
}

impl ClientEngine {
    /// The engine's invariant: the registry is well formed and counts
    /// into the throttler; `pending_count` is the registry's size plus a
    /// task frame mid-write; every seq on the wire is below the
    /// allocator and they strictly increase, so no seq repeats; and the
    /// task seqs that reached the wire are exactly the accepted
    /// registrations plus the writes that raced a stopping registry.
    pub open spec fn wf(self) -> bool {
        &&& self.notifier.wf()
        &&& self.notifier.task_timeout == self.config.task_timeout
        &&& self.seq >= 1
        &&& (match self.throttler {
            Some(t) => t.wf() && t.spec_threshold() == self.config.thresholds
                && t.spec_inflight() == self.notifier.entries@.len(),
            None => self.config.thresholds == 0,
        })
        &&& strictly_increasing(self.wire@)
        &&& all_below(self.wire@, self.seq)
        &&& self.pending_count == self.notifier.entries@.len() + (match self.in_flight {
            Some(InFlight::Task(_)) => 1int,
            _ => 0int,
        })
        &&& (match self.in_flight {
            Some(fl) => {
                &&& fl.spec_seq() < self.seq
                &&& all_below(self.wire@, fl.spec_seq())
                &&& forall|i: int|
                    0 <= i < self.notifier.entries@.len() ==> (
                    #[trigger] self.notifier.entries@[i]).seq < fl.spec_seq()
            },
            None => true,
        })
        &&& forall|i: int|
            0 <= i < self.notifier.entries@.len() ==> (#[trigger] self.notifier.entries@[i]).seq
                < self.seq
        &&& forall|i: int|
            0 <= i < self.notifier.entries@.len() ==> (#[trigger] self.notifier.entries@[i]).reg_ts
                <= self.clock
        &&& self.sent_ok@.to_multiset() == self.reg_ok@.to_multiset().add(
            self.lost@.to_multiset(),
        )
    }

    /// A fresh engine for one connection: seqs start at 1, nothing
    /// pending, nothing on the wire, a throttler exactly when the
    /// configured window is positive.
    pub fn new(server_id: u64, client_id: u64, config: ClientConfig, has_retry: bool) -> (e:
        ClientEngine)
        ensures
            e.wf(),
            e.server_id == server_id,
            e.client_id == client_id,
            e.config == config,
            e.seq == 1,
            !e.closed,
            !e.has_err,
            e.pending_count == 0,
            e.in_flight is None,
            e.notifier.entries@ =~= Seq::<TaskEntry>::empty(),
            !e.notifier.stopped,
            e.throttler is Some <==> config.thresholds > 0,
            e.has_retry == has_retry,
            e.last_resp_ts == 0,
            e.wire@ =~= Seq::<u64>::empty(),
            e.sent_ok@ =~= Seq::<u64>::empty(),
            e.reg_ok@ =~= Seq::<u64>::empty(),
            e.lost@ =~= Seq::<u64>::empty(),
    {
        let throttler = if config.thresholds > 0 {
            Some(Throttler::new(config.thresholds))
        } else {
            None
        };
        let e = ClientEngine {
            server_id,
            client_id,
            config,
            seq: 1,
            closed: false,
            has_err: false,
            pending_count: 0,
            in_flight: None,
            notifier: Notifier::new(config.task_timeout),
            throttler,
            has_retry,
            last_resp_ts: 0,
            clock: 0,
            wire: Ghost(Seq::empty()),
            sent_ok: Ghost(Seq::empty()),
            reg_ok: Ghost(Seq::empty()),
            lost: Ghost(Seq::empty()),
        };
        proof {
            assert(e.sent_ok@.to_multiset() =~= e.reg_ok@.to_multiset().add(
                e.lost@.to_multiset(),
            ));
        }
        e
    }

    /// Whether either side has closed the connection.
    pub fn is_closed(&self) -> (r: bool)
        ensures
            r == self.closed,
    {
        self.closed
    }

    /// Clock reading at the last fully received response; 0 before the
    /// first one.
    pub fn get_last_resp_ts(&self) -> (r: u64)
        ensures
            r == self.last_resp_ts,
    {
        self.last_resp_ts
    }

    /// Whether a sender that asks for admission now would have to wait
    /// or nearly so; used to pre-hedge.
    pub fn will_block(&self) -> (r: bool)
        ensures
            r == match self.throttler {
                Some(t) => t.spec_inflight() + 1 >= t.spec_threshold(),
                None => false,
            },
    {
        match &self.throttler {
            Some(t) => t.nearly_full(),
            None => false,
        }
    }

    /// How many admitted tasks have not completed yet.
    pub fn pending_task_count(&self) -> (r: u64)
        ensures
            r == self.pending_count,
    {
        self.pending_count
    }

    /// One admission poll.  The runtime repeats the poll after each
    /// completion while the answer is `Wait`; `Abort` and `Bypass` both
    /// mean "no admission was granted" to the caller.
    pub fn throttle_step(&self) -> (d: ThrottleDecision)
        ensures
            d == (if self.closed {
                ThrottleDecision::Abort
            } else {
                match self.throttler {
                    None => ThrottleDecision::Bypass,
                    Some(t) => if t.spec_inflight() < t.spec_threshold() {
                        ThrottleDecision::Admit
                    } else {
                        ThrottleDecision::Wait
                    },
                }
            }),
    {
        if self.closed {
            return ThrottleDecision::Abort;
        }
        match &self.throttler {
            None => ThrottleDecision::Bypass,
            Some(t) => {
                if t.would_admit() {
                    ThrottleDecision::Admit
                } else {
                    ThrottleDecision::Wait
                }
            },
        }
    }

    /// Marks the connection failed; the receive loop will exit at its
    /// next gate check.
    pub fn set_error(&mut self)
        requires
            old(self).wf(),
        ensures
            final(self).wf(),
            *final(self) == (ClientEngine { has_err: true, ..*old(self) }),
    {
        self.has_err = true;
    }

    /// The sender handle is dropped: stop registrations and close.  The
    /// second call changes nothing.
    pub fn close(&mut self)
        requires
            old(self).wf(),
        ensures
            final(self).wf(),
            *final(self) == (ClientEngine {
                closed: true,
                notifier: (Notifier { stopped: true, ..old(self).notifier }),
                ..*old(self)
            }),
    {
        self.notifier.stop_reg_task();
        self.closed = true;
    }

    /// Admits a task: counts it pending, allocates its seq and encodes
    /// its frame.  On a closed connection the admission is rolled back,
    /// the task fails with `Closed` and the send reports `Comm`.
    pub fn begin_send(&mut self, task: ClientTask) -> (r: BeginSend)
        requires
            old(self).wf(),
            task.wf(),
            task.result is None,
            old(self).in_flight is None,
            old(self).pending_count < u64::MAX,
            old(self).seq < u64::MAX,
        ensures
            final(self).wf(),
            old(self).closed ==> {
                &&& r matches BeginSend::Refused { outcome, err } && outcome == spec_fail(
                    task,
                    RpcError::Closed,
                    old(self).has_retry,
                ) && err == RpcError::Comm
                &&& *final(self) == *old(self)
            },
            !old(self).closed ==> {
                &&& r matches BeginSend::Proceed { frame, task: t, auto_flush } && t == task
                    && frame@ == request_frame_bytes(
                    Request {
                        seq: old(self).seq,
                        client_id: old(self).client_id,
                        format: task.format,
                        action: task.action,
                        msg: task.msg,
                        blob: task.blob,
                    },
                ) && auto_flush == (frame@.len() >= AUTO_FLUSH_BYTES)
                &&& *final(self) == (ClientEngine {
                    seq: (old(self).seq + 1) as u64,
                    pending_count: (old(self).pending_count + 1) as u64,
                    in_flight: Some(InFlight::Task(old(self).seq)),
                    ..*old(self)
                })
            },
    {
        if self.closed {
            let outcome = fail_task(task, RpcError::Closed, self.has_retry);
            return BeginSend::Refused { outcome, err: RpcError::Comm };
        }
        let seq = self.seq;
        self.seq = self.seq + 1;
        self.pending_count = self.pending_count + 1;
        self.in_flight = Some(InFlight::Task(seq));
        let ClientTask { action, format, msg, blob, wants_blob, read_data, result } = task;
        let q = Request { seq, client_id: self.client_id, format, action, msg, blob };
        let frame = crate::proto::encode_request(&q);
        let auto_flush = frame.len() >= AUTO_FLUSH_BYTES;
        let t = ClientTask {
            action: q.action,
            format: q.format,
            msg: q.msg,
            blob: q.blob,
            wants_blob,
            read_data,
            result,
        };
        BeginSend::Proceed { frame, task: t, auto_flush }
    }

    /// Holds between the engine before and after a `finish_send` whose
    /// write failed: the connection is torn down and nothing reached
    /// the wire.
    pub open spec fn send_write_failed(pre: ClientEngine, post: ClientEngine) -> bool {
        &&& post.closed
        &&& post.has_err
        &&& post.notifier.stopped
        &&& post.pending_count == pre.pending_count - 1
        &&& post.notifier.entries@ == pre.notifier.entries@
        &&& post.wire@ == pre.wire@
        &&& post.sent_ok@ == pre.sent_ok@
        &&& post.reg_ok@ == pre.reg_ok@
        &&& post.lost@ == pre.lost@
    }

    /// Holds between the engine before and after a `finish_send` whose
    /// frame went out but whose registration hit a stopped registry:
    /// the seq is on the wire with no registration to match.
    pub open spec fn send_reg_refused(pre: ClientEngine, post: ClientEngine) -> bool {
        let s = pre.in_flight->Some_0.spec_seq();
        &&& post.pending_count == pre.pending_count - 1
        &&& post.notifier.entries@ == pre.notifier.entries@
        &&& post.wire@ == pre.wire@.push(s)
        &&& post.sent_ok@ == pre.sent_ok@.push(s)
        &&& post.reg_ok@ == pre.reg_ok@
        &&& post.lost@ == pre.lost@.push(s)
    }

    /// Holds between the engine before and after a fully successful
    /// `finish_send` that stamped the task at `now`: the seq is on the
    /// wire and the task is registered under it.
    pub open spec fn send_registered(pre: ClientEngine, post: ClientEngine, task: ClientTask, now: u64) -> bool {
        let s = pre.in_flight->Some_0.spec_seq();
        &&& post.pending_count == pre.pending_count
        &&& post.notifier.entries@ == pre.notifier.entries@.push(
            TaskEntry { seq: s, reg_ts: now, task },
        )
        &&& post.notifier.stopped == pre.notifier.stopped
        &&& post.wire@ == pre.wire@.push(s)
        &&& post.sent_ok@ == pre.sent_ok@.push(s)
        &&& post.reg_ok@ == pre.reg_ok@.push(s)
        &&& post.lost@ == pre.lost@
        &&& post.closed == pre.closed
        &&& post.has_err == pre.has_err
    }

    /// Settles the admitted task after the runtime wrote (or failed to
    /// write) its frame.  A failed write tears the connection down.  A
    /// written frame is registered, unless the registry stopped while
    /// the write was in progress, in which case the task fails with
    /// `Closed` and its seq is on the wire with no registration to match
    /// (the one way the wire and the registry can disagree).
    pub fn finish_send(&mut self, task: ClientTask, write_ok: bool, now: u64) -> (r: FinishSend)
        requires
            old(self).wf(),
            task.result is None,
            old(self).in_flight matches Some(InFlight::Task(_)),
            now >= old(self).clock,
        ensures
            final(self).wf(),
            final(self).in_flight is None,
            final(self).clock == now,
            final(self).seq == old(self).seq,
            final(self).has_retry == old(self).has_retry,
            !write_ok ==> {
                &&& r matches FinishSend::Failed { outcome, err } && outcome == spec_fail(
                    task,
                    RpcError::Comm,
                    old(self).has_retry,
                ) && err == RpcError::Comm
                &&& Self::send_write_failed(*old(self), *final(self))
            },
            write_ok && old(self).notifier.stopped ==> {
                &&& r matches FinishSend::RefusedLate { outcome } && outcome == spec_fail(
                    task,
                    RpcError::Closed,
                    old(self).has_retry,
                )
                &&& Self::send_reg_refused(*old(self), *final(self))
            },
            write_ok && !old(self).notifier.stopped ==> {
                &&& r is Registered
                &&& Self::send_registered(*old(self), *final(self), task, now)
            },
    {
        let seq = match self.in_flight {
            Some(InFlight::Task(s)) => s,
            _ => 0,  // unreachable under the precondition
        };
        self.in_flight = None;
        self.clock = now;
        if !write_ok {
            self.pending_count = self.pending_count - 1;
            self.closed = true;
            self.has_err = true;
            self.notifier.stop_reg_task();
            let outcome = fail_task(task, RpcError::Comm, self.has_retry);
            return FinishSend::Failed { outcome, err: RpcError::Comm };
        }
        proof {
            lemma_push_keeps_order(self.wire@, seq, self.seq);
        }
        let ghost wire0 = self.wire@;
        self.wire = Ghost(self.wire@.push(seq));
        self.sent_ok = Ghost(self.sent_ok@.push(seq));
        match self.notifier.reg_task(seq, now, task, self.has_retry) {
            Some(outcome) => {
                self.pending_count = self.pending_count - 1;
                self.lost = Ghost(self.lost@.push(seq));
                proof {
                    assert(self.sent_ok@.to_multiset() =~= self.reg_ok@.to_multiset().add(
                        self.lost@.to_multiset(),
                    ));
                }
                FinishSend::RefusedLate { outcome }
            },
            None => {
                if let Some(t) = &mut self.throttler {
                    t.add_task();
                }
                self.reg_ok = Ghost(self.reg_ok@.push(seq));
                proof {
                    assert(self.sent_ok@.to_multiset() =~= self.reg_ok@.to_multiset().add(
                        self.lost@.to_multiset(),
                    ));
                }
                FinishSend::Registered
            },
        }
    }

    /// Settles a flush the runtime performed for `flush_req`: a failed
    /// flush tears the connection down and reports `Comm`.
    pub fn flush_result(&mut self, flush_ok: bool) -> (r: Result<(), RpcError>)
        requires
            old(self).wf(),
        ensures
            final(self).wf(),
            flush_ok ==> r is Ok && *final(self) == *old(self),
            !flush_ok ==> r == Err::<(), RpcError>(RpcError::Comm) && *final(self) == (ClientEngine {
                closed: true,
                has_err: true,
                notifier: (Notifier { stopped: true, ..old(self).notifier }),
                ..*old(self)
            }),
    {
        if flush_ok {
            Ok(())
        } else {
            self.closed = true;
            self.has_err = true;
            self.notifier.stop_reg_task();
            Err(RpcError::Comm)
        }
    }

    /// Allocates a seq and encodes a ping frame: action 0, no body.  On
    /// a closed connection the ping reports `Closed` without touching
    /// the wire.
    pub fn ping_prepare(&mut self) -> (r: Result<Vec<u8>, RpcError>)
        requires
            old(self).wf(),
            old(self).in_flight is None,
            old(self).seq < u64::MAX,
        ensures
            final(self).wf(),
            old(self).closed ==> r == Err::<Vec<u8>, RpcError>(RpcError::Closed) && *final(self)
                == *old(self),
            !old(self).closed ==> {
                &&& r matches Ok(frame) && frame@ == ping_frame_bytes(
                    old(self).client_id,
                    old(self).seq,
                )
                &&& *final(self) == (ClientEngine {
                    seq: (old(self).seq + 1) as u64,
                    in_flight: Some(InFlight::Ping(old(self).seq)),
                    ..*old(self)
                })
            },
    {
        if self.closed {
            return Err(RpcError::Closed);
        }
        let seq = self.seq;
        self.seq = self.seq + 1;
        self.in_flight = Some(InFlight::Ping(seq));
        let q = Request {
            seq,
            client_id: self.client_id,
            format: 0,
            action: RpcAction::Num(ACTION_PING),
            msg: Vec::new(),
            blob: Vec::new(),
        };
        let frame = crate::proto::encode_request(&q);
        assert(frame@ =~= ping_frame_bytes(self.client_id, seq));
        Ok(frame)
    }

    /// Settles a ping after its write and flush: on success the seq is
    /// on the wire; on failure the connection is closed and the ping
    /// reports `Comm`.
    pub fn ping_finish(&mut self, write_ok: bool) -> (r: Result<(), RpcError>)
        requires
            old(self).wf(),
            old(self).in_flight matches Some(InFlight::Ping(_)),
        ensures
            final(self).wf(),
            final(self).in_flight is None,
            write_ok ==> r is Ok && *final(self) == (ClientEngine {
                in_flight: None,
                wire: Ghost(old(self).wire@.push(old(self).in_flight->Some_0.spec_seq())),
                ..*old(self)
            }),
            !write_ok ==> r == Err::<(), RpcError>(RpcError::Comm) && *final(self) == (ClientEngine {
                in_flight: None,
                closed: true,
                ..*old(self)
            }),
    {
        let seq = match self.in_flight {
            Some(InFlight::Ping(s)) => s,
            _ => 0,  // unreachable under the precondition
        };
        self.in_flight = None;
        if write_ok {
            proof {
                lemma_push_keeps_order(self.wire@, seq, self.seq);
            }
            self.wire = Ghost(self.wire@.push(seq));
            Ok(())
        } else {
            self.closed = true;
            Err(RpcError::Comm)
        }
    }
}

impl ClientEngine {
    /// Whether the receive loop may exit without draining late replies.
    pub fn check_pending_tasks_empty(&self) -> (r: bool)
        ensures
            r == (self.notifier.entries@.len() == 0),
    {
        self.notifier.check_pending_tasks_empty()
    }

    /// What the receive loop must do before reading the next response
    /// header: exit when closed with nothing left to drain (or after a
    /// genuine error), drain under the read timeout when closed with
    /// replies still owed, otherwise block and race the close signal.
    pub fn recv_gate(&self) -> (g: RecvGate)
        ensures
            g == (if self.closed {
                if self.notifier.entries@.len() == 0 || self.has_err {
                    RecvGate::Exit
                } else {
                    RecvGate::DrainWithTimeout
                }
            } else {
                RecvGate::BlockOnHeader
            }),
    {
        if self.closed {
            if self.notifier.check_pending_tasks_empty() || self.has_err {
                RecvGate::Exit
            } else {
                RecvGate::DrainWithTimeout
            }
        } else {
            RecvGate::BlockOnHeader
        }
    }

    /// The close signal fired while the receiver was blocked: record
    /// the close; the receive loop then re-checks before its next read.
    pub fn on_close_signal(&mut self)
        requires
            old(self).wf(),
        ensures
            final(self).wf(),
            *final(self) == (ClientEngine { closed: true, ..*old(self) }),
    {
        self.closed = true;
    }

    /// Stamps the clock after a fully received response.
    pub fn note_resp(&mut self, now: u64)
        requires
            old(self).wf(),
            now >= old(self).clock,
        ensures
            final(self).wf(),
            *final(self) == (ClientEngine { last_resp_ts: now, clock: now, ..*old(self) }),
    {
        self.last_resp_ts = now;
        self.clock = now;
    }

    /// Routes a decoded response header to its task.
    ///
    /// A seq with no registered task (it timed out or was never seen)
    /// asks the caller to drain the body and changes nothing: no task is
    /// completed.  A registered seq leaves the registry; an errno
    /// failure is settled on the spot, the other flags tell the caller
    /// which body bytes to read next.
    pub fn route_response(&mut self, head: RespHead) -> (r: RouteAction)
        requires
            old(self).wf(),
            head.valid(),
        ensures
            final(self).wf(),
            !old(self).notifier.contains_seq(head.seq) ==> {
                &&& r matches RouteAction::Drain { len } && len == head.spec_body_len()
                &&& *final(self) == *old(self)
            },
            old(self).notifier.contains_seq(head.seq) ==> {
                &&& final(self).pending_count == old(self).pending_count - 1
                &&& *final(self) == (ClientEngine {
                    pending_count: final(self).pending_count,
                    notifier: final(self).notifier,
                    throttler: final(self).throttler,
                    ..*old(self)
                })
                &&& final(self).notifier.stopped == old(self).notifier.stopped
                &&& (final(self).throttler is Some <==> old(self).throttler is Some)
                &&& (exists|i: int|
                    {
                        &&& 0 <= i < old(self).notifier.entries@.len()
                        &&& (#[trigger] old(self).notifier.entries@[i]).seq == head.seq
                        &&& final(self).notifier.entries@ == old(self).notifier.entries@.remove(i)
                        &&& route_result_matches(
                            r,
                            old(self).notifier.entries@[i].task,
                            head,
                            old(self).has_retry,
                        )
                    })
            },
    {
        let t = self.notifier.take_task(head.seq);
        match t {
            None => RouteAction::Drain { len: head.body_len() },
            Some(task) => {
                proof {
                    let pre = old(self).notifier.entries@;
                    let post = self.notifier.entries@;
                    let i = choose|i: int|
                        {
                            &&& 0 <= i < pre.len()
                            &&& (#[trigger] pre[i]).seq == head.seq
                            &&& task == pre[i].task
                            &&& task.result is None
                            &&& post == pre.remove(i)
                        };
                    assert(post =~= pre.subrange(0, i) + pre.subrange(i + 1, pre.len() as int));
                    assert forall|k: int| 0 <= k < post.len() implies (#[trigger] post[k]).seq
                        < self.seq && post[k].reg_ts <= self.clock && (self.in_flight matches Some(
                        fl,
                    ) ==> post[k].seq < fl.spec_seq()) by {
                        assert(post[k] == if k < i {
                            pre[k]
                        } else {
                            pre[k + 1]
                        });
                    }
                }
                self.pending_count = self.pending_count - 1;
                if let Some(th) = &mut self.throttler {
                    th.release();
                }
                if head.flag == RESP_FLAG_ERRNO {
                    let outcome = fail_task(task, RpcError::Posix(head.msg_len), self.has_retry);
                    RouteAction::Done { outcome }
                } else if head.flag == RESP_FLAG_ERR_STRING {
                    RouteAction::ReadErrText { task, len: head.blob_len as usize }
                } else {
                    RouteAction::ReadBody {
                        task,
                        msg_len: head.msg_len as usize,
                        blob_len: head.blob_len as usize,
                    }
                }
            },
        }
    }

    /// Settles a string-error response once its text was read (`None`
    /// when the read failed).  Valid UTF-8 fails the task with the
    /// remote's text; invalid text is a `Decode` failure; a failed read
    /// closes the connection and is terminal for the receive loop.
    pub fn complete_err_text(&mut self, task: ClientTask, body: Option<&[u8]>) -> (r: (
        Outcome,
        Option<RpcError>,
    ))
        requires
            old(self).wf(),
            task.result is None,
        ensures
            final(self).wf(),
            r.0.wf(),
            body is None ==> {
                &&& r.0 == spec_fail(task, RpcError::Comm, old(self).has_retry)
                &&& r.1 == Some(RpcError::Comm)
                &&& *final(self) == (ClientEngine { closed: true, ..*old(self) })
            },
            body matches Some(b) ==> {
                &&& r.1 is None
                &&& *final(self) == *old(self)
                &&& (if vstd::utf8::valid_utf8(b@) {
                    exists|s: String|
                        s@ == vstd::utf8::decode_utf8(b@) && r.0 == #[trigger] spec_fail(
                            task,
                            RpcError::Remote(s),
                            old(self).has_retry,
                        )
                } else {
                    r.0 == spec_fail(task, RpcError::Decode, old(self).has_retry)
                })
            },
    {
        match body {
            None => {
                self.closed = true;
                let o = fail_task(task, RpcError::Comm, self.has_retry);
                (o, Some(RpcError::Comm))
            },
            Some(b) => {
                match utf8_to_string(b) {
                    Some(text) => {
                        let o = fail_task(task, RpcError::Remote(text), self.has_retry);
                        (o, None)
                    },
                    None => {
                        let o = fail_task(task, RpcError::Decode, self.has_retry);
                        (o, None)
                    },
                }
            },
        }
    }

    /// Settles a success response once its message bytes were read
    /// (`None` when the read failed).  With no blob announced the task
    /// completes with the message; a blob for a task that offered no
    /// buffer is a `Decode` failure whose bytes must still be drained;
    /// otherwise the caller reads the blob next.
    pub fn on_body_msg(&mut self, task: ClientTask, msg: Option<Vec<u8>>, blob_len: usize) -> (r:
        MsgStep)
        requires
            old(self).wf(),
            task.result is None,
        ensures
            final(self).wf(),
            msg is None ==> {
                &&& r matches MsgStep::Fail { outcome, err } && outcome == spec_fail(
                    task,
                    RpcError::Comm,
                    old(self).has_retry,
                ) && err == RpcError::Comm
                &&& *final(self) == (ClientEngine { closed: true, ..*old(self) })
            },
            msg matches Some(m) ==> {
                &&& *final(self) == *old(self)
                &&& (if blob_len == 0 {
                    r matches MsgStep::Finished { outcome } && outcome == Outcome::Delivered(
                        ClientTask { result: Some(Ok(m)), ..task },
                    )
                } else if !task.wants_blob {
                    r matches MsgStep::DrainBlob { outcome, len } && outcome == Outcome::Delivered(
                        ClientTask { result: Some(Err(RpcError::Decode)), ..task },
                    ) && len == blob_len
                } else {
                    r matches MsgStep::ReadBlob { task: t, msg: m2, len } && t == task && m2 == m
                        && len == blob_len
                })
            },
    {
        match msg {
            None => {
                self.closed = true;
                let outcome = fail_task(task, RpcError::Comm, self.has_retry);
                MsgStep::Fail { outcome, err: RpcError::Comm }
            },
            Some(m) => {
                if blob_len == 0 {
                    let mut t = task;
                    t.set_result(Ok(m));
                    MsgStep::Finished { outcome: Outcome::Delivered(t) }
                } else if !task.wants_blob {
                    let mut t = task;
                    t.set_result(Err(RpcError::Decode));
                    MsgStep::DrainBlob { outcome: Outcome::Delivered(t), len: blob_len }
                } else {
                    MsgStep::ReadBlob { task, msg: m, len: blob_len }
                }
            },
        }
    }

    /// Settles a success response once its blob was read into the
    /// task's buffer (`None` when the read failed, which is terminal
    /// for the receive loop).
    pub fn on_body_blob(&mut self, task: ClientTask, msg: Vec<u8>, blob: Option<Vec<u8>>) -> (r:
        MsgStep)
        requires
            old(self).wf(),
            task.result is None,
            task.wants_blob,
        ensures
            final(self).wf(),
            *final(self) == *old(self),
            blob is None ==> (r matches MsgStep::Fail { outcome, err } && outcome == spec_fail(
                task,
                RpcError::Comm,
                old(self).has_retry,
            ) && err == RpcError::Comm),
            blob matches Some(b) ==> (r matches MsgStep::Finished { outcome } && outcome
                == Outcome::Delivered(
                ClientTask { read_data: Some(b), result: Some(Ok(msg)), ..task },
            )),
    {
        match blob {
            None => {
                let outcome = fail_task(task, RpcError::Comm, self.has_retry);
                MsgStep::Fail { outcome, err: RpcError::Comm }
            },
            Some(b) => {
                let mut t = task;
                t.read_data = Some(b);
                t.set_result(Ok(msg));
                MsgStep::Finished { outcome: Outcome::Delivered(t) }
            },
        }
    }

    /// The once-per-second tick: expire overdue tasks.  The outcomes
    /// partition the old queue exactly as
    /// [`Notifier::adjust_task_queue`] promises: a task expires at this
    /// tick if and only if its age has reached the deadline.
    pub fn on_tick(&mut self, now: u64) -> (out: Vec<Outcome>)
        requires
            old(self).wf(),
            now >= old(self).clock,
        ensures
            final(self).wf(),
            *final(self) == (ClientEngine {
                pending_count: final(self).pending_count,
                notifier: final(self).notifier,
                throttler: final(self).throttler,
                clock: now,
                ..*old(self)
            }),
            final(self).notifier.stopped == old(self).notifier.stopped,
            out@.len() <= old(self).notifier.entries@.len(),
            final(self).notifier.entries@ == old(self).notifier.entries@.skip(out@.len() as int),
            final(self).pending_count == old(self).pending_count - out@.len(),
            forall|i: int|
                0 <= i < out@.len() ==> (#[trigger] old(self).notifier.entries@[i]).reg_ts + old(self).config.task_timeout <= now,
            forall|i: int|
                out@.len() <= i < old(self).notifier.entries@.len() ==> (#[trigger] old(self).notifier.entries@[i]).reg_ts + old(self).config.task_timeout > now,
            forall|i: int|
                0 <= i < out@.len() ==> out@[i] == spec_fail(
                    old(self).notifier.entries@[i].task,
                    RpcError::Timeout,
                    old(self).has_retry,
                ),
    {
        let out = self.notifier.adjust_task_queue(now, self.has_retry);
        let k = out.len();
        proof {
            let pre = old(self).notifier.entries@;
            let post = self.notifier.entries@;
            assert forall|j: int| 0 <= j < post.len() implies (#[trigger] post[j]).seq < self.seq
                && post[j].reg_ts <= now && (self.in_flight matches Some(fl) ==> post[j].seq
                < fl.spec_seq()) by {
                assert(post[j] == pre[j + k]);
            }
        }
        self.pending_count = self.pending_count - (k as u64);
        if let Some(th) = &mut self.throttler {
            th.release_many(k as u64);
        }
        self.clock = now;
        out
    }

    /// Fails every pending task with `Closed` and empties the registry;
    /// the teardown path shared by the receive loop's terminal handling
    /// and the engine's drop.
    pub fn clean_pending(&mut self) -> (out: Vec<Outcome>)
        requires
            old(self).wf(),
        ensures
            final(self).wf(),
            *final(self) == (ClientEngine {
                pending_count: final(self).pending_count,
                notifier: final(self).notifier,
                throttler: final(self).throttler,
                ..*old(self)
            }),
            final(self).notifier.stopped == old(self).notifier.stopped,
            final(self).notifier.entries@.len() == 0,
            out@.len() == old(self).notifier.entries@.len(),
            final(self).pending_count == old(self).pending_count - out@.len(),
            forall|i: int|
                0 <= i < out@.len() ==> out@[i] == spec_fail(
                    old(self).notifier.entries@[i].task,
                    RpcError::Closed,
                    old(self).has_retry,
                ),
    {
        let out = self.notifier.clean_pending_tasks(self.has_retry);
        let k = out.len();
        self.pending_count = self.pending_count - (k as u64);
        if let Some(th) = &mut self.throttler {
            th.release_many(k as u64);
        }
        out
    }

    /// Terminal handling for the receive loop: record the close (and
    /// the error, for a genuine I/O failure), stop registrations, and
    /// fail what is still pending.
    pub fn on_receive_failure(&mut self, io_error: bool) -> (out: Vec<Outcome>)
        requires
            old(self).wf(),
        ensures
            final(self).wf(),
            final(self).closed,
            final(self).notifier.stopped,
            io_error ==> final(self).has_err,
            final(self).notifier.entries@.len() == 0,
            out@.len() == old(self).notifier.entries@.len(),
            forall|i: int|
                0 <= i < out@.len() ==> out@[i] == spec_fail(
                    old(self).notifier.entries@[i].task,
                    RpcError::Closed,
                    old(self).has_retry,
                ),
    {
        self.closed = true;
        if io_error {
            self.has_err = true;
        }
        self.notifier.stop_reg_task();
        self.clean_pending()
    }
}

/// With no frame mid-write, the task count the connection shows is
/// exactly the number of entries in the pending registry.
pub proof fn lemma_pending_count_matches_registry(e: ClientEngine)
    requires
        e.wf(),
        !(e.in_flight matches Some(InFlight::Task(_))),
    ensures
        e.pending_count == e.notifier.entries@.len(),
{
}

/// For any connection, each seq ever observed on the wire — task frames
/// and pings alike — is unique: only one sender writes, and it
/// allocates strictly monotonically.
pub proof fn lemma_wire_seqs_unique(e: ClientEngine)
    requires
        e.wf(),
    ensures
        forall|i: int, j: int| 0 <= i < j < e.wire@.len() ==> e.wire@[i] != e.wire@[j],
{
}

/// Whenever no frame write raced a stopping registry (nothing was
/// `lost`), the task seqs on the wire are exactly the seqs the registry
/// accepted, as multisets.
pub proof fn lemma_wire_matches_registry(e: ClientEngine)
    requires
        e.wf(),
        e.lost@ == Seq::<u64>::empty(),
    ensures
        e.sent_ok@.to_multiset() == e.reg_ok@.to_multiset(),
{
    assert forall|x: u64| e.lost@.to_multiset().count(x) == 0 by {
        if e.lost@.to_multiset().count(x) > 0 {
            assert(e.lost@.contains(x));
        }
    }
    assert(e.sent_ok@.to_multiset() =~= e.reg_ok@.to_multiset());
}

/// Pushing a fresh, larger seq keeps the wire history strictly
/// increasing and below the allocator.
proof fn lemma_push_keeps_order(s: Seq<u64>, v: u64, bound: u64)
    requires
        strictly_increasing(s),
        all_below(s, v),
        v < bound,
    ensures
        strictly_increasing(s.push(v)),
        all_below(s.push(v), bound),
{
    let p = s.push(v);
    assert forall|i: int, j: int| 0 <= i < j < p.len() implies p[i] < p[j] by {
        if j < s.len() {
            assert(p[i] == s[i] && p[j] == s[j]);
        } else {
            assert(p[j] == v && p[i] == s[i]);
        }
    }
    assert forall|i: int| 0 <= i < p.len() implies p[i] < bound by {
        if i < s.len() {
            assert(p[i] == s[i]);
        } else {
            assert(p[i] == v);
        }
    }
}

} // verus!
