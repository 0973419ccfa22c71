use monoio::buf::{IoBufMut, OwnedBuf};
use monoio::slots::SlotTable;
use monoio::task::{Scheduler, TaskState};

#[test]
fn spawned_task_is_queued_once() {
    let mut s = Scheduler::new();
    let id = s.add_task(7);
    assert_eq!(id, 0);
    assert_eq!(s.queue_len(), 1);
    let h = s.header(id);
    assert_eq!(h.state, TaskState::Scheduled);
    assert_eq!(h.refs, 2);
    assert_eq!(h.thread_id, 7);
}

#[test]
fn repeated_wakes_collapse_to_one_queue_entry() {
    let mut s = Scheduler::new();
    let id = s.add_task(0);
    // Waking an already scheduled task leaves the queue as it is.
    s.wake(id);
    s.wake(id);
    assert_eq!(s.queue_len(), 1);
    assert!(s.header(id).wake_pending);
    // A task woken while running is requeued once when its poll ends.
    let popped = s.pop_next().unwrap();
    assert_eq!(popped, id);
    assert_eq!(s.queue_len(), 0);
    assert_eq!(s.header(id).state, TaskState::Running);
    s.wake(id);
    s.wake(id);
    assert_eq!(s.queue_len(), 0);
    s.finish_poll(id, false);
    assert_eq!(s.queue_len(), 1);
    assert_eq!(s.header(id).state, TaskState::Scheduled);
}

#[test]
fn quiet_poll_parks_task_idle_and_wake_reschedules() {
    let mut s = Scheduler::new();
    let id = s.add_task(0);
    let popped = s.pop_next().unwrap();
    assert_eq!(popped, id);
    s.finish_poll(id, false);
    assert_eq!(s.header(id).state, TaskState::Idle);
    assert_eq!(s.header(id).refs, 1);
    s.wake(id);
    assert_eq!(s.header(id).state, TaskState::Scheduled);
    assert_eq!(s.queue_len(), 1);
}

#[test]
fn completion_stores_output_and_drops_queue_reference() {
    let mut s = Scheduler::new();
    let id = s.add_task(0);
    let _ = s.pop_next().unwrap();
    s.clone_waker(id);
    assert_eq!(s.header(id).refs, 3);
    s.finish_poll(id, true);
    let h = s.header(id);
    assert_eq!(h.state, TaskState::Completed);
    assert!(h.output_stored);
    assert_eq!(h.refs, 2);
    s.drop_waker(id);
    s.drop_handle(id);
    assert_eq!(s.header(id).refs, 0);
    // A wake of a finished task is ignored.
    s.wake(id);
    assert_eq!(s.queue_len(), 0);
}

#[test]
fn slot_lifecycle_returns_buffer_with_result() {
    let mut t = SlotTable::new();
    let mut buf = OwnedBuf::with_capacity(4);
    buf.fill_prefix(&[1, 2]);
    let cookie = t.pin_op(buf, 5);
    assert!(t.is_live(cookie));
    let woken = t.complete(cookie, 2);
    assert_eq!(woken, Some(5));
    let (res, buf) = t.take_result(cookie);
    assert_eq!(res.unwrap(), 2);
    assert_eq!(buf.into_inner(), vec![1, 2]);
    assert!(!t.is_live(cookie));
}

#[test]
fn failed_op_returns_error_and_buffer_unchanged() {
    let mut t = SlotTable::new();
    let mut buf = OwnedBuf::with_capacity(4);
    buf.fill_prefix(&[9, 9, 9]);
    let cookie = t.pin_op(buf, 0);
    // The kernel reported "try again": errno 11, negated.
    let _ = t.complete(cookie, -11);
    let (res, buf) = t.take_result(cookie);
    assert_eq!(res.unwrap_err().code, 11);
    assert_eq!(buf.bytes_init(), 3);
    assert_eq!(buf.into_inner(), vec![9, 9, 9]);
}

#[test]
fn orphaned_op_frees_slot_and_buffer_at_completion() {
    let mut t = SlotTable::new();
    let buf = OwnedBuf::with_capacity(8);
    let cookie = t.pin_op(buf, 3);
    // The operation future is dropped while the kernel still owns the
    // buffer: the slot stays live, pinned.
    t.drop_op(cookie);
    assert!(t.is_live(cookie));
    // The completion arrives: slot and buffer go together, nobody is woken.
    let woken = t.complete(cookie, 8);
    assert_eq!(woken, None);
    assert!(!t.is_live(cookie));
    // The slot index is free for reuse.
    let buf = OwnedBuf::with_capacity(1);
    let again = t.pin_op(buf, 4);
    assert_eq!(again, cookie);
}

#[test]
fn drop_after_completion_frees_slot_at_once() {
    let mut t = SlotTable::new();
    let buf = OwnedBuf::with_capacity(8);
    let cookie = t.pin_op(buf, 3);
    let woken = t.complete(cookie, 4);
    assert_eq!(woken, Some(3));
    t.drop_op(cookie);
    assert!(!t.is_live(cookie));
}
