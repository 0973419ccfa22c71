use monoio::readiness::ReadinessDriver;
use monoio::runtime::PollOutcome;
use monoio::task::TaskState;
use monoio::{spawn, Runtime};

#[test]
fn readiness_edge_wakes_reader_and_clears_interest() {
    let mut rt = Runtime::new(1);
    let mut io = ReadinessDriver::new();

    let h = spawn(&mut rt.context);
    // First poll: the task registers read interest and suspends.
    let _ = rt.run_batch(&vec![PollOutcome::Suspend]);
    assert_eq!(rt.context.tasks.header(h.task).state, TaskState::Idle);

    let token = io.register(7);
    io.set_reader(token, h.task);

    // A readable edge: the reader wakes once and the waker slot clears.
    io.on_ready(&mut rt.context.tasks, token, true, false);
    assert_eq!(rt.context.tasks.header(h.task).state, TaskState::Scheduled);
    assert_eq!(rt.context.tasks.queue_len(), 1);

    // A second edge with no waiter wakes nobody.
    io.on_ready(&mut rt.context.tasks, token, true, true);
    assert_eq!(rt.context.tasks.queue_len(), 1);
}

#[test]
fn dropping_before_readiness_removes_interest() {
    let mut io = ReadinessDriver::new();
    let token = io.register(3);
    io.set_reader(token, 0);
    // The operation is dropped before any edge: interest goes, and the
    // token is reused by the next registration.
    io.deregister(token);
    let again = io.register(4);
    assert_eq!(again, token);
}

#[test]
fn reader_and_writer_wake_independently() {
    let mut rt = Runtime::new(1);
    let mut io = ReadinessDriver::new();
    let a = spawn(&mut rt.context);
    let b = spawn(&mut rt.context);
    let _ = rt.run_batch(&vec![PollOutcome::Suspend, PollOutcome::Suspend]);
    assert_eq!(rt.context.tasks.queue_len(), 0);

    let token = io.register(9);
    io.set_reader(token, a.task);
    io.set_writer(token, b.task);

    // Only writable: the writer wakes, the reader stays armed.
    io.on_ready(&mut rt.context.tasks, token, false, true);
    assert_eq!(rt.context.tasks.header(b.task).state, TaskState::Scheduled);
    assert_eq!(rt.context.tasks.header(a.task).state, TaskState::Idle);

    io.on_ready(&mut rt.context.tasks, token, true, false);
    assert_eq!(rt.context.tasks.header(a.task).state, TaskState::Scheduled);
    assert_eq!(rt.context.tasks.queue_len(), 2);
}
