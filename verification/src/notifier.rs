//! The pending-task registry with second-granularity timeout sweeping.
//!
//! The registry maps each in-flight sequence number to its task and
//! remembers when the task was registered.  Entries arrive in send order,
//! so both the sequence numbers and the registration stamps grow along
//! the queue; the once-per-second sweep can therefore walk from the
//! oldest entry and stop at the first one that has not expired.  A
//! stopped registry (the connection is going down) fails every further
//! registration immediately with `Closed`.

use vstd::prelude::*;
use crate::error::RpcError;
use crate::task::{ClientTask, Outcome, fail_task, spec_fail};

verus! {

/// One pending task: its sequence number, the second-granularity clock
/// reading at registration, and the task itself.
#[derive(Debug, Clone, PartialEq, Eq)]
pub struct TaskEntry {
    pub seq: u64,
    pub reg_ts: u64,
    pub task: ClientTask,
}

/// The seq-keyed registry of in-flight tasks.
#[derive(Debug, Clone, PartialEq, Eq)]
pub struct Notifier {
    /// Pending entries, oldest first.
    pub entries: Vec<TaskEntry>,
    /// Once set, every further registration fails with `Closed`.
    pub stopped: bool,
    /// Per-task deadline, in seconds.
    pub task_timeout: u64,
}

impl Notifier {
    /// Entries are strictly ordered by seq and weakly by registration
    /// time, and none of them has been completed.  The seq order makes
    /// every key unique; the time order lets the sweep stop at the first
    /// entry that has not expired.
    pub open spec fn wf(self) -> bool {
        &&& forall|i: int, j: int|
            0 <= i < j < self.entries@.len() ==> self.entries@[i].seq < self.entries@[j].seq
        &&& forall|i: int, j: int|
            0 <= i < j < self.entries@.len() ==> self.entries@[i].reg_ts <= self.entries@[j].reg_ts
        &&& forall|i: int|
            0 <= i < self.entries@.len() ==> (#[trigger] self.entries@[i]).task.result is None
    }

    /// The sequence numbers currently registered, in arrival order.
    pub open spec fn seqs(self) -> Seq<u64> {
        self.entries@.map_values(|e: TaskEntry| e.seq)
    }

    /// Whether `seq` is registered.
    pub open spec fn contains_seq(self, seq: u64) -> bool {
        exists|i: int| 0 <= i < self.entries@.len() && (#[trigger] self.entries@[i]).seq == seq
    }

    /// An empty, running registry sweeping with deadline `task_timeout`
    /// seconds.
    pub fn new(task_timeout: u64) -> (n: Notifier)
        ensures
            n.entries@ =~= Seq::empty(),
            !n.stopped,
            n.task_timeout == task_timeout,
            n.wf(),
    {
        Notifier { entries: Vec::new(), stopped: false, task_timeout }
    }

    /// How many tasks are pending.
    pub fn len(&self) -> (r: usize)
        ensures
            r == self.entries@.len(),
    {
        self.entries.len()
    }

    /// Whether the receive loop may exit without draining late replies.
    pub fn check_pending_tasks_empty(&self) -> (r: bool)
        ensures
            r == (self.entries@.len() == 0),
    {
        self.entries.is_empty()
    }

    /// Latches the registry shut; every later `reg_task` fails at once.
    /// Calling it again changes nothing.
    pub fn stop_reg_task(&mut self)
        ensures
            *final(self) == (Notifier { stopped: true, ..*old(self) }),
    {
        self.stopped = true;
    }

    /// Registers a task under `seq`, stamped `now`; on a stopped registry
    /// the task is failed immediately with `Closed` instead.
    ///
    /// The caller allocates seqs monotonically and stamps with a
    /// monotonic clock, which is what keeps the queue ordered.
    pub fn reg_task(&mut self, seq: u64, now: u64, task: ClientTask, has_retry: bool) -> (r: Option<
        Outcome,
    >)
        requires
            old(self).wf(),
            task.result is None,
            old(self).entries@.len() > 0 ==> old(self).entries@.last().seq < seq,
            old(self).entries@.len() > 0 ==> old(self).entries@.last().reg_ts <= now,
        ensures
            final(self).wf(),
            final(self).stopped == old(self).stopped,
            final(self).task_timeout == old(self).task_timeout,
            old(self).stopped ==> r == Some(spec_fail(task, RpcError::Closed, has_retry))
                && final(self).entries@ == old(self).entries@,
            !old(self).stopped ==> r is None && final(self).entries@ == old(self).entries@.push(
                TaskEntry { seq, reg_ts: now, task },
            ),
    {
        if self.stopped {
            Some(fail_task(task, RpcError::Closed, has_retry))
        } else {
            self.entries.push(TaskEntry { seq, reg_ts: now, task });
            None
        }
    }

    /// Looks the task for `seq` up and removes it: `Some` exactly when
    /// the seq is registered, `None` for a response that timed out or was
    /// never seen, which the caller must drain and skip.
    pub fn take_task(&mut self, seq: u64) -> (r: Option<ClientTask>)
        requires
            old(self).wf(),
        ensures
            final(self).wf(),
            final(self).stopped == old(self).stopped,
            final(self).task_timeout == old(self).task_timeout,
            r is None ==> *final(self) == *old(self) && !old(self).contains_seq(seq),
            r matches Some(t) ==> exists|i: int|
                {
                    &&& 0 <= i < old(self).entries@.len()
                    &&& (#[trigger] old(self).entries@[i]).seq == seq
                    &&& t == old(self).entries@[i].task
                    &&& t.result is None
                    &&& final(self).entries@ == old(self).entries@.remove(i)
                },
            r is Some <==> old(self).contains_seq(seq),
    {
        let ghost self0 = *self;
        let mut i: usize = 0;
        while i < self.entries.len()
            invariant
                *self == self0,
                self0 == *old(self),
                old(self).wf(),
                i <= self.entries@.len(),
                forall|j: int| 0 <= j < i ==> (#[trigger] self.entries@[j]).seq != seq,
            decreases self.entries@.len() - i,
        {
            if self.entries[i].seq == seq {
                let e = self.entries.remove(i);
                proof {
                    let before = old(self).entries@;
                    let after = self.entries@;
                    assert(after =~= before.subrange(0, i as int) + before.subrange(
                        i + 1,
                        before.len() as int,
                    ));
                    assert forall|p: int, q: int| 0 <= p < q < after.len() implies after[p].seq
                        < after[q].seq && after[p].reg_ts <= after[q].reg_ts by {
                        assert(after[p] == if p < i {
                            before[p]
                        } else {
                            before[p + 1]
                        });
                        assert(after[q] == if q < i {
                            before[q]
                        } else {
                            before[q + 1]
                        });
                    }
                    assert forall|p: int| 0 <= p < after.len() implies (
                    #[trigger] after[p]).task.result is None by {
                        assert(after[p] == if p < i {
                            before[p]
                        } else {
                            before[p + 1]
                        });
                    }
                    assert(after =~= before.remove(i as int));
                }
                return Some(e.task);
            }
            i = i + 1;
        }
        None
    }

    /// The once-per-second sweep: removes the entries whose age has
    /// reached the deadline and fails each with `Timeout`, walking from
    /// the oldest entry and stopping at the first that has not expired.
    /// The returned outcomes partition the old queue exactly: everything
    /// expired leaves, everything else stays, in order.
    pub fn adjust_task_queue(&mut self, now: u64, has_retry: bool) -> (out: Vec<Outcome>)
        requires
            old(self).wf(),
        ensures
            final(self).wf(),
            final(self).stopped == old(self).stopped,
            final(self).task_timeout == old(self).task_timeout,
            out@.len() <= old(self).entries@.len(),
            final(self).entries@ == old(self).entries@.skip(out@.len() as int),
            forall|i: int|
                0 <= i < out@.len() ==> (#[trigger] old(self).entries@[i]).reg_ts + old(
                    self,
                ).task_timeout <= now,
            forall|i: int|
                out@.len() <= i < old(self).entries@.len() ==> (#[trigger] old(
                    self,
                ).entries@[i]).reg_ts + old(self).task_timeout > now,
            forall|i: int|
                0 <= i < out@.len() ==> out@[i] == spec_fail(
                    old(self).entries@[i].task,
                    RpcError::Timeout,
                    has_retry,
                ),
    {
        let ghost entries0 = self.entries@;
        let timeout = self.task_timeout;
        let mut out: Vec<Outcome> = Vec::new();
        loop
            invariant
                entries0 == old(self).entries@,
                self.task_timeout == timeout,
                timeout == old(self).task_timeout,
                self.stopped == old(self).stopped,
                out@.len() <= entries0.len(),
                self.entries@ == entries0.skip(out@.len() as int),
                forall|i: int|
                    0 <= i < out@.len() ==> (#[trigger] entries0[i]).reg_ts + timeout <= now,
                forall|i: int|
                    0 <= i < out@.len() ==> out@[i] == spec_fail(
                        entries0[i].task,
                        RpcError::Timeout,
                        has_retry,
                    ),
                forall|i: int, j: int|
                    0 <= i < j < entries0.len() ==> entries0[i].reg_ts <= entries0[j].reg_ts,
                forall|i: int|
                    0 <= i < entries0.len() ==> (#[trigger] entries0[i]).task.result is None,
            ensures
                self.entries@ == entries0.skip(out@.len() as int),
                self.entries@.len() == 0 || self.entries@[0].reg_ts + timeout > now,
            decreases self.entries@.len(),
        {
            if self.entries.is_empty() {
                break ;
            }
            let front_ts = self.entries[0].reg_ts;
            let expired = now >= timeout && front_ts <= now - timeout;
            if !expired {
                break ;
            }
            let e = self.entries.remove(0);
            assert(e == entries0[out@.len() as int]);
            out.push(fail_task(e.task, RpcError::Timeout, has_retry));
            assert(self.entries@ =~= entries0.skip(out@.len() as int));
        }
        proof {
            let k = out@.len() as int;
            let kept = entries0.skip(k);
            assert forall|i: int|
                k <= i < entries0.len() implies (#[trigger] entries0[i]).reg_ts + timeout
                > now by {
                assert(kept[i - k] == entries0[i]);
                assert(kept[0] == entries0[k]);
            }
            assert forall|p: int, q: int| 0 <= p < q < kept.len() implies kept[p].seq < kept[q].seq
                && kept[p].reg_ts <= kept[q].reg_ts by {
                assert(kept[p] == entries0[p + k]);
                assert(kept[q] == entries0[q + k]);
            }
            assert forall|p: int| 0 <= p < kept.len() implies (
            #[trigger] kept[p]).task.result is None by {
                assert(kept[p] == entries0[p + k]);
            }
        }
        out
    }

    /// Fails every remaining entry with `Closed`; called on connection
    /// teardown.  The outcomes list the old queue in order and the
    /// registry comes back empty.
    pub fn clean_pending_tasks(&mut self, has_retry: bool) -> (out: Vec<Outcome>)
        requires
            old(self).wf(),
        ensures
            final(self).wf(),
            final(self).stopped == old(self).stopped,
            final(self).task_timeout == old(self).task_timeout,
            final(self).entries@ =~= Seq::empty(),
            out@.len() == old(self).entries@.len(),
            forall|i: int|
                0 <= i < out@.len() ==> out@[i] == spec_fail(
                    old(self).entries@[i].task,
                    RpcError::Closed,
                    has_retry,
                ),
    {
        let ghost entries0 = self.entries@;
        let mut out: Vec<Outcome> = Vec::new();
        while !self.entries.is_empty()
            invariant
                entries0 == old(self).entries@,
                self.task_timeout == old(self).task_timeout,
                self.stopped == old(self).stopped,
                out@.len() <= entries0.len(),
                self.entries@ == entries0.skip(out@.len() as int),
                forall|i: int|
                    0 <= i < out@.len() ==> out@[i] == spec_fail(
                        entries0[i].task,
                        RpcError::Closed,
                        has_retry,
                    ),
                forall|i: int|
                    0 <= i < entries0.len() ==> (#[trigger] entries0[i]).task.result is None,
            decreases self.entries@.len(),
        {
            let e = self.entries.remove(0);
            assert(e == entries0[out@.len() as int]);
            out.push(fail_task(e.task, RpcError::Closed, has_retry));
            assert(self.entries@ =~= entries0.skip(out@.len() as int));
        }
        out
    }

    /// While a task is pending it has received no completion signal:
    /// the registry only ever holds tasks with an empty result slot, so a
    /// completion it later hands out sets the one and only result.
    pub proof fn lemma_pending_never_completed(self, i: int)
        requires
            self.wf(),
            0 <= i < self.entries@.len(),
        ensures
            !self.entries@[i].task.completed(),
    {
    }
}

} // verus!
