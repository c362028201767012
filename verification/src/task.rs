//! Client tasks and their completion discipline.
//!
//! A task is an owned unit of outbound work: the action, the encoded
//! request message, the optional request blob, and a slot for the final
//! result.  A task is pending while its result slot is empty; completing
//! it sets the slot exactly once.  When a retry sink is configured, a
//! failed task is handed to the sink with its error instead of being
//! completed, so the sink may resend it; a task is never both completed
//! successfully and handed to the sink.

use vstd::prelude::*;
use crate::error::RpcError;
use crate::proto::{RpcAction, MAX_MSG_LEN, MAX_BLOB_LEN};

verus! {

/// An owned unit of outbound work.
///
/// `wants_blob` records whether the caller provided an inbound blob
/// buffer; a success response carrying a blob for a task without one is a
/// `Decode` failure for that task.  `read_data` receives the response
/// blob, `result` the final outcome: `Ok` with the response message bytes,
/// or an error.
#[derive(Debug, Clone, PartialEq, Eq)]
pub struct ClientTask {
    pub action: RpcAction,
    pub format: u8,
    pub msg: Vec<u8>,
    pub blob: Vec<u8>,
    pub wants_blob: bool,
    pub read_data: Option<Vec<u8>>,
    pub result: Option<Result<Vec<u8>, RpcError>>,
}

impl ClientTask {
    /// Tasks whose request fits on the wire.
    pub open spec fn wf(self) -> bool {
        &&& self.action.wf()
        &&& self.msg@.len() <= MAX_MSG_LEN
        &&& self.blob@.len() <= MAX_BLOB_LEN
    }

    /// A completion signal has been delivered: the result slot is filled.
    pub open spec fn completed(self) -> bool {
        self.result is Some
    }

    /// A fresh, not yet sent task.
    pub fn new(action: RpcAction, format: u8, msg: Vec<u8>, blob: Vec<u8>, wants_blob: bool) -> (t:
        ClientTask)
        requires
            action.wf(),
            msg@.len() <= MAX_MSG_LEN,
            blob@.len() <= MAX_BLOB_LEN,
        ensures
            t == (ClientTask {
                action,
                format,
                msg,
                blob,
                wants_blob,
                read_data: None,
                result: None,
            }),
    {
        ClientTask { action, format, msg, blob, wants_blob, read_data: None, result: None }
    }

    /// Sets a task's one result.  It demands an empty slot, so no task
    /// can ever be completed twice.
    pub fn set_result(&mut self, r: Result<Vec<u8>, RpcError>)
        requires
            old(self).result is None,
        ensures
            *final(self) == (ClientTask { result: Some(r), ..*old(self) }),
    {
        self.result = Some(r);
    }
}

/// Where a task went when the engine was done with it.
///
/// `Delivered` carries a completed task back to its caller; `Retry` hands
/// a still-uncompleted task and its error to the retry sink, which owns it
/// from then on.
#[derive(Debug, Clone, PartialEq, Eq)]
pub enum Outcome {
    Delivered(ClientTask),
    Retry(ClientTask, RpcError),
}

impl Outcome {
    /// A delivered task carries its one result; a task handed to the
    /// retry sink has none yet, so in particular it was never completed
    /// successfully.
    pub open spec fn wf(self) -> bool {
        match self {
            Outcome::Delivered(t) => t.result is Some,
            Outcome::Retry(t, _) => t.result is None,
        }
    }

    /// The task inside.
    pub open spec fn spec_task(self) -> ClientTask {
        match self {
            Outcome::Delivered(t) => t,
            Outcome::Retry(t, _) => t,
        }
    }

    /// The error this outcome reports, if any.
    pub open spec fn spec_err(self) -> Option<RpcError> {
        match self {
            Outcome::Delivered(t) => match t.result {
                Some(Err(e)) => Some(e),
                _ => None,
            },
            Outcome::Retry(_, e) => Some(e),
        }
    }
}

/// The outcome that failing `task` with `err` produces: handed to the
/// retry sink when one is configured, completed with `Err(err)` otherwise.
pub open spec fn spec_fail(task: ClientTask, err: RpcError, has_retry: bool) -> Outcome {
    if has_retry {
        Outcome::Retry(task, err)
    } else {
        Outcome::Delivered(ClientTask { result: Some(Err(err)), ..task })
    }
}

/// Fails a pending task with `err`.
pub fn fail_task(task: ClientTask, err: RpcError, has_retry: bool) -> (o: Outcome)
    requires
        task.result is None,
    ensures
        o == spec_fail(task, err, has_retry),
        o.wf(),
        o.spec_err() == Some(err),
{
    if has_retry {
        Outcome::Retry(task, err)
    } else {
        let mut t = task;
        t.set_result(Err(err));
        Outcome::Delivered(t)
    }
}

/// No task is both completed successfully and forwarded to the retry
/// sink: a task in a `Retry` outcome has no result at all, let alone a
/// successful one.
pub proof fn lemma_no_successful_retry(o: Outcome)
    requires
        o.wf(),
    ensures
        o matches Outcome::Retry(t, _) ==> !(t.result matches Some(r) && r is Ok),
{
}

} // verus!
