use razor_rpc::error::RpcError;
use razor_rpc::notifier::Notifier;
use razor_rpc::task::{ClientTask, Outcome};
use razor_rpc::proto::RpcAction;
use razor_rpc::throttler::Throttler;

fn task(tag: u16) -> ClientTask {
    ClientTask::new(RpcAction::Num(tag), 0, vec![tag as u8], vec![], false)
}

#[test]
fn reg_and_take_returns_the_task() {
    let mut n = Notifier::new(2);
    assert!(n.reg_task(1, 100, task(1), false).is_none());
    assert!(n.reg_task(2, 100, task(2), false).is_none());
    assert_eq!(n.len(), 2);
    let t = n.take_task(1).expect("seq 1 is registered");
    assert_eq!(t.msg, vec![1]);
    assert_eq!(n.len(), 1);
    assert!(n.take_task(1).is_none());
}

#[test]
fn take_unknown_seq_is_none_and_changes_nothing() {
    let mut n = Notifier::new(2);
    assert!(n.reg_task(5, 100, task(5), false).is_none());
    assert!(n.take_task(4).is_none());
    assert_eq!(n.len(), 1);
}

#[test]
fn stopped_registry_fails_registration_with_closed() {
    let mut n = Notifier::new(2);
    n.stop_reg_task();
    n.stop_reg_task(); // idempotent
    let r = n.reg_task(1, 100, task(1), false).expect("stopped registry refuses");
    match r {
        Outcome::Delivered(t) => assert_eq!(t.result, Some(Err(RpcError::Closed))),
        Outcome::Retry(..) => panic!("no retry sink configured"),
    }
    assert_eq!(n.len(), 0);
}

#[test]
fn stopped_registry_forwards_to_retry_sink_when_configured() {
    let mut n = Notifier::new(2);
    n.stop_reg_task();
    let r = n.reg_task(1, 100, task(1), true).expect("stopped registry refuses");
    match r {
        Outcome::Retry(t, e) => {
            assert_eq!(t.result, None);
            assert_eq!(e, RpcError::Closed);
        }
        Outcome::Delivered(_) => panic!("with a sink the task is forwarded, not completed"),
    }
}

#[test]
fn sweep_expires_only_entries_at_their_deadline() {
    // task_timeout = 2 s; entries registered at 10, 11, 13.
    let mut n = Notifier::new(2);
    assert!(n.reg_task(1, 10, task(1), false).is_none());
    assert!(n.reg_task(2, 11, task(2), false).is_none());
    assert!(n.reg_task(3, 13, task(3), false).is_none());

    // At t=11 nothing has aged 2 s yet.
    let out = n.adjust_task_queue(11, false);
    assert!(out.is_empty());
    assert_eq!(n.len(), 3);

    // At t=12 the first entry (age 2) expires, the others stay.
    let out = n.adjust_task_queue(12, false);
    assert_eq!(out.len(), 1);
    match &out[0] {
        Outcome::Delivered(t) => {
            assert_eq!(t.msg, vec![1]);
            assert_eq!(t.result, Some(Err(RpcError::Timeout)));
        }
        Outcome::Retry(..) => panic!("no retry sink configured"),
    }
    assert_eq!(n.len(), 2);

    // At t=15 both remaining entries have expired.
    let out = n.adjust_task_queue(15, false);
    assert_eq!(out.len(), 2);
    assert_eq!(n.len(), 0);
}

#[test]
fn clean_fails_everything_with_closed_in_order() {
    let mut n = Notifier::new(2);
    for s in 1..=4u64 {
        assert!(n.reg_task(s, 100, task(s as u16), false).is_none());
    }
    let out = n.clean_pending_tasks(false);
    assert_eq!(out.len(), 4);
    for (k, o) in out.iter().enumerate() {
        match o {
            Outcome::Delivered(t) => {
                assert_eq!(t.msg, vec![(k + 1) as u8]);
                assert_eq!(t.result, Some(Err(RpcError::Closed)));
            }
            Outcome::Retry(..) => panic!("no retry sink configured"),
        }
    }
    assert_eq!(n.len(), 0);
}

#[test]
fn throttler_window_admission() {
    let mut t = Throttler::new(2);
    assert!(t.would_admit());
    assert!(!t.nearly_full() || t.inflight_count() + 1 >= 2);
    t.add_task();
    assert!(t.would_admit());
    assert!(t.nearly_full());
    t.add_task();
    assert!(!t.would_admit());
    assert_eq!(t.inflight_count(), 2);
    t.release();
    assert!(t.would_admit());
    t.release_many(1);
    assert_eq!(t.inflight_count(), 0);
}
