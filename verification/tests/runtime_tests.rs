use monoio::buf::{IoBufMut, OwnedBuf};
use monoio::runtime::{Action, PeerEntry, PollOutcome, RuntimeError};
use monoio::task::TaskState;
use monoio::{spawn, FusionRuntime, ListenerConfig, Registry, Runtime, SocketAddress};

#[test]
fn reentry_is_detected_before_any_mutation() {
    let mut rt = Runtime::new(1);
    // A runtime already active on this thread refuses a nested block_on and
    // touches nothing.
    let r = rt.enter(true);
    assert_eq!(r.unwrap_err(), RuntimeError::AlreadyRunning);
    assert!(!rt.active);
    assert!(!rt.poll_needed);
    assert_eq!(rt.context.tasks.queue_len(), 0);
    // A clean entry succeeds and marks the root for its first poll.
    assert!(rt.enter(false).is_ok());
    assert!(rt.active);
    assert!(rt.should_poll());
    // Entering again on the same runtime is the same misuse.
    let r = rt.enter(false);
    assert_eq!(r.unwrap_err(), RuntimeError::AlreadyRunning);
    rt.leave();
    assert!(!rt.active);
}

#[test]
fn self_waking_task_cannot_starve_a_second_task() {
    let mut rt = Runtime::new(1);
    let greedy = spawn(&mut rt.context);
    let other = spawn(&mut rt.context);
    // The first task reschedules itself on every poll; the second finishes
    // on its first poll. With a queue of two, the batch is capped at five
    // polls and the second task runs well within the cap.
    let outcomes = vec![
        PollOutcome::SuspendWoken,
        PollOutcome::Complete,
        PollOutcome::SuspendWoken,
        PollOutcome::SuspendWoken,
        PollOutcome::SuspendWoken,
        PollOutcome::SuspendWoken,
        PollOutcome::SuspendWoken,
    ];
    let (ran, _) = rt.run_batch(&outcomes);
    assert!(ran <= 5);
    assert_eq!(rt.context.tasks.header(other.task).state, TaskState::Completed);
    assert_eq!(rt.context.tasks.header(greedy.task).state, TaskState::Scheduled);
    // The batch over, the executor hands control onward instead of polling
    // the greedy task forever.
    assert_eq!(rt.next_phase(), Action::Submit);
}

#[test]
fn batch_with_lone_self_waker_ends_at_round_cap() {
    let mut rt = Runtime::new(1);
    let _h = spawn(&mut rt.context);
    let outcomes = vec![
        PollOutcome::SuspendWoken,
        PollOutcome::SuspendWoken,
        PollOutcome::SuspendWoken,
        PollOutcome::SuspendWoken,
        PollOutcome::SuspendWoken,
    ];
    // Queue length one: the cap is three polls.
    let (ran, _) = rt.run_batch(&outcomes);
    assert_eq!(ran, 3);
    assert_eq!(rt.context.tasks.queue_len(), 1);
}

#[test]
fn drained_queue_parks_and_root_poll_comes_first() {
    let mut rt = Runtime::new(1);
    assert!(rt.enter(false).is_ok());
    // The root was marked at entry: it is polled before anything else.
    assert_eq!(rt.next_phase(), Action::PollRoot);
    rt.root_polled();
    // Nothing runnable: park.
    assert_eq!(rt.next_phase(), Action::Park);
    let h = spawn(&mut rt.context);
    assert_eq!(rt.next_phase(), Action::Submit);
    let (ran, _) = rt.run_batch(&vec![PollOutcome::Complete]);
    assert_eq!(ran, 1);
    assert_eq!(rt.context.tasks.header(h.task).state, TaskState::Completed);
    assert_eq!(rt.next_phase(), Action::Park);
}

#[test]
fn completion_dispatch_wakes_owning_task() {
    let mut rt = Runtime::new(1);
    let h = spawn(&mut rt.context);
    // The task starts a read: its first poll pins the buffer and suspends.
    let (ran, _) = rt.run_batch(&vec![PollOutcome::Suspend]);
    assert_eq!(ran, 1);
    assert_eq!(rt.context.tasks.header(h.task).state, TaskState::Idle);
    let buf = OwnedBuf::with_capacity(16);
    let cookie = rt.driver.table.pin_op(buf, h.task);
    // The kernel reports twelve bytes: the slot fills and the task wakes.
    let woken = rt.driver.dispatch_completion(&mut rt.context.tasks, cookie, 12);
    assert_eq!(woken, Some(h.task));
    assert_eq!(rt.context.tasks.header(h.task).state, TaskState::Scheduled);
    assert_eq!(rt.context.tasks.queue_len(), 1);
    let (res, buf) = rt.driver.table.take_result(cookie);
    assert_eq!(res.unwrap(), 12);
    assert_eq!(buf.bytes_total(), 16);
}

#[test]
fn foreign_wake_reaches_parked_runtime() {
    // Runtime X owns a task that waits; a peer context Y wakes it through
    // the registry and unparks X; X's park returns at once and the task is
    // runnable again.
    let mut reg = Registry::new();
    let mut rt_x = Runtime::new(1);
    let mut ctx_y = monoio::Context::new(2);

    reg.register(PeerEntry {
        id: 1,
        unpark: rt_x.driver.unpark_handle(),
        waker_tx: rt_x.driver.waker_sender(),
    });

    let h = spawn(&mut rt_x.context);
    let _ = rt_x.run_batch(&vec![PollOutcome::Suspend]);
    assert_eq!(rt_x.context.tasks.header(h.task).state, TaskState::Idle);

    // Y fires the waker for X's task from its own thread: the wake goes
    // through the waker channel, then X's driver is unparked.
    assert!(ctx_y.send_waker(1, h.task, &reg));
    assert!(ctx_y.unpark_thread(1, &reg));

    // X parks with no deadline: the unpark signal ends the park, the drain
    // schedules the task.
    let signaled = rt_x.driver.park(&mut rt_x.context.tasks, None, 16);
    assert!(signaled);
    assert_eq!(rt_x.context.tasks.header(h.task).state, TaskState::Scheduled);
    assert_eq!(rt_x.context.tasks.queue_len(), 1);

    // A wake routed to a thread nobody registered is dropped.
    assert!(!ctx_y.send_waker(9, h.task, &reg));
    assert!(!ctx_y.unpark_thread(9, &reg));
}

#[test]
fn cross_thread_value_arrives_with_wake() {
    // The value itself crosses on a channel; the wake tells the waiting
    // runtime to look.
    let (tx, rx) = flume::unbounded::<u8>();
    let mut reg = Registry::new();
    let mut rt_x = Runtime::new(1);
    let mut ctx_y = monoio::Context::new(2);
    reg.register(PeerEntry {
        id: 1,
        unpark: rt_x.driver.unpark_handle(),
        waker_tx: rt_x.driver.waker_sender(),
    });
    let h = spawn(&mut rt_x.context);
    let _ = rt_x.run_batch(&vec![PollOutcome::Suspend]);

    tx.send(24).expect("unable to send");
    ctx_y.send_waker(1, h.task, &reg);
    ctx_y.unpark_thread(1, &reg);

    let signaled = rt_x.driver.park(&mut rt_x.context.tasks, None, 16);
    assert!(signaled);
    assert_eq!(rt_x.context.tasks.queue_len(), 1);
    // The woken task reads the value.
    assert_eq!(rx.try_recv().expect("unable to receive"), 24);
}

#[test]
fn park_with_deadline_returns_on_time() {
    let mut rt = Runtime::new(1);
    let started = std::time::Instant::now();
    let signaled = rt.driver.park(&mut rt.context.tasks, Some(200), 16);
    assert!(!signaled);
    let eps = started.elapsed().as_millis() as i64;
    assert!((eps - 200).abs() < 50, "park took {} ms", eps);
}

#[test]
fn unpark_handle_is_cached_after_first_lookup() {
    let mut reg = Registry::new();
    let target = Runtime::new(4);
    let mut ctx = monoio::Context::new(3);
    reg.register(PeerEntry {
        id: 4,
        unpark: target.driver.unpark_handle(),
        waker_tx: target.driver.waker_sender(),
    });
    assert!(ctx.unpark_thread(4, &reg));
    // The second signal goes through the cached handle; both arrive.
    assert!(ctx.unpark_thread(4, &reg));
    let mut sched = monoio::task::Scheduler::new();
    assert!(target.driver.park(&mut sched, Some(1000), 4));
    assert!(target.driver.park(&mut sched, Some(1000), 4));
}

#[test]
fn fusion_runtime_wraps_and_drains() {
    let mut rt = Runtime::new(1);
    let _h = spawn(&mut rt.context);
    let mut fused = FusionRuntime::from(rt);
    let (ran, _) = fused.run_batch(&vec![PollOutcome::Complete]);
    assert_eq!(ran, 1);
    assert!(matches!(fused, FusionRuntime::Uring(_)));
}

#[test]
fn listener_config_defaults_and_builders() {
    let c = ListenerConfig::default();
    assert!(c.reuse_port);
    assert!(c.reuse_addr);
    assert!(!c.ip_transparent);
    assert_eq!(c.bind_address, None);
    assert_eq!(c.backlog, 1024);
    assert_eq!(c.send_buf_size, None);
    assert_eq!(c.recv_buf_size, None);

    let addr = SocketAddress::V4 { addr: 0x7f000001, port: 8080 };
    let c = c
        .reuse_port(false)
        .reuse_addr(false)
        .ip_transparent(true)
        .bind_address(addr)
        .backlog(64)
        .send_buf_size(4096)
        .recv_buf_size(8192);
    assert!(!c.reuse_port);
    assert!(!c.reuse_addr);
    assert!(c.ip_transparent);
    assert_eq!(c.bind_address, Some(addr));
    assert_eq!(c.backlog, 64);
    assert_eq!(c.send_buf_size, Some(4096));
    assert_eq!(c.recv_buf_size, Some(8192));
}

#[test]
fn wake_sent_to_dead_runtime_is_dropped() {
    let rt = Runtime::new(6);
    let handle = rt.driver.unpark_handle();
    let sender = rt.driver.waker_sender();
    // The runtime and its channels go away; the kept endpoints survive.
    drop(rt);
    assert!(!sender.send_wake(0));
    // Unpark signals to the dead runtime are equally silent no-ops.
    handle.unpark();
}

#[test]
fn block_on_rounds_run_until_root_completes() {
    let mut rt = Runtime::new(1);
    assert!(rt.enter(false).is_ok());
    let h = spawn(&mut rt.context);
    // First round: the spawned task completes, the root is polled once and
    // is still pending, and the empty queue parks (the deadline elapses).
    let (done, polls, _) = rt.block_on_round(&vec![PollOutcome::Complete], false, Some(10), 8);
    assert!(!done);
    assert_eq!(polls, 1);
    assert_eq!(rt.context.tasks.header(h.task).state, TaskState::Completed);
    // The root's waker fires; the next round polls it and it finishes.
    rt.set_poll();
    let (done, _, _) = rt.block_on_round(&Vec::new(), true, Some(10), 8);
    assert!(done);
    rt.leave();
    assert!(!rt.active);
}

#[test]
fn fusion_round_dispatches_to_wrapped_runtime() {
    let mut rt = Runtime::new(2);
    assert!(rt.enter(false).is_ok());
    let mut fused = FusionRuntime::from(rt);
    // The root was marked at entry and is ready on its first poll.
    let (done, polls, _) = fused.block_on_round(&Vec::new(), true, Some(10), 8);
    assert!(done);
    assert_eq!(polls, 0);
    assert!(matches!(fused, FusionRuntime::Uring(_)));
}
