//! The completion driver: the slot table of in-flight operations, the
//! inbound cross-thread wake channel, and the park/unpark pair. Parking
//! blocks on the unpark channel; on return the driver drains a bounded batch
//! of foreign wakes into the local run queue, so a wake fired on another
//! thread is observed no later than the next park return.

use vstd::prelude::*;
use crate::channel::{
    channel_pair, clone_sender, recv_blocking, recv_wait_ms, try_recv_msg, RecvWaitOutcome,
    TryRecvOutcome, UnparkHandle, WakerSender,
};
use crate::slots::SlotTable;
use crate::task::{wake_attempt, woken_header, Scheduler};

verus! {

/// The longest single park: one day. A longer deadline parks in slices; a
/// return without progress counts as a permitted spurious wakeup.
pub const MAX_PARK_MS: u64 = 86400000;

/// The completion driver's state: the table that pins buffers for the
/// kernel, plus the two channels a foreign thread uses to reach this one.
pub struct CompletionDriver {
    /// The generated id of the thread this driver serves.
    pub thread_id: usize,
    /// In-flight operations keyed by cookie.
    pub table: SlotTable,
    /// Sending end of the waker channel; handles are clones of it.
    pub wake_tx: flume::Sender<usize>,
    /// Receiving end of the waker channel, drained on park.
    pub wake_rx: flume::Receiver<usize>,
    /// Sending end of the unpark channel; handles are clones of it.
    pub unpark_tx: flume::Sender<u8>,
    /// Receiving end of the unpark channel, waited on while parked.
    pub unpark_rx: flume::Receiver<u8>,
}

impl CompletionDriver {
    /// Well-formedness of the slot table.
    pub open spec fn wf(&self) -> bool {
        self.table.wf()
    }

    /// A driver for thread `thread_id` with no in-flight operations and
    /// fresh wake channels.
    pub fn new(thread_id: usize) -> (d: CompletionDriver)
        ensures
            d.wf(),
            d.thread_id == thread_id,
            d.table.entries() == Seq::<Option<crate::slots::OpSlot>>::empty(),
    {
        let (wake_tx, wake_rx) = channel_pair();
        let (unpark_tx, unpark_rx) = channel_pair();
        CompletionDriver { thread_id, table: SlotTable::new(), wake_tx, wake_rx, unpark_tx, unpark_rx }
    }

    /// A thread-safe handle that rouses this driver while it is parked.
    pub fn unpark_handle(&self) -> (h: UnparkHandle)
        ensures
            h.owner() == self.thread_id,
    {
        UnparkHandle::over(clone_sender(&self.unpark_tx), Ghost(self.thread_id))
    }

    /// The sending end of this thread's waker channel, for foreign wakes.
    pub fn waker_sender(&self) -> (s: WakerSender)
        ensures
            s.owner() == self.thread_id,
    {
        WakerSender::over(clone_sender(&self.wake_tx), Ghost(self.thread_id))
    }

    /// Deliver one reaped completion: store the kernel's result in the slot
    /// and wake the task that owns the operation. An orphaned operation is
    /// freed on the spot, buffer included, and nobody is woken.
    pub fn dispatch_completion(&mut self, sched: &mut Scheduler, cookie: usize, res: i32) -> (woken:
        Option<usize>)
        requires
            old(self).wf(),
            old(sched).wf(),
            old(self).table.live(cookie as int),
            old(self).table.entries()[cookie as int].unwrap().result is None,
        ensures
            final(self).wf(),
            final(sched).wf(),
            final(sched).task_count() == old(sched).task_count(),
            final(self).table.entries().len() == old(self).table.entries().len(),
            forall|c: int|
                0 <= c < old(self).table.entries().len() && c != cookie
                    ==> final(self).table.entries()[c] == old(self).table.entries()[c],
            old(self).table.entries()[cookie as int].unwrap().orphan ==> {
                &&& final(self).table.entries()[cookie as int] is None
                &&& woken is None
                &&& *final(sched) == *old(sched)
            },
            !old(self).table.entries()[cookie as int].unwrap().orphan ==> {
                let t = old(self).table.entries()[cookie as int].unwrap().waker_task;
                &&& final(self).table.entries()[cookie as int] == Some(
                    crate::slots::OpSlot {
                        result: Some(res),
                        ..old(self).table.entries()[cookie as int].unwrap()
                    },
                )
                &&& woken == Some(t)
                &&& wake_attempt(*old(sched), *final(sched), t)
            },
    {
        let woken = self.table.complete(cookie, res);
        match woken {
            Some(t) => {
                if t < sched.num_tasks() {
                    let h = sched.header(t);
                    if h.refs < u64::MAX {
                        sched.wake(t);
                    }
                }
                Some(t)
            },
            None => None,
        }
    }

    /// Park until an unpark signal, or for `timeout_ms` milliseconds when a
    /// deadline is given, then drain up to `max_drain` foreign wakes into the
    /// run queue. Returns whether a signal arrived before the deadline.
    /// Spurious returns are allowed; wakes past the batch bound are seen at
    /// the next park.
    pub fn park(&self, sched: &mut Scheduler, timeout_ms: Option<u64>, max_drain: usize) -> (signaled:
        bool)
        requires
            old(sched).wf(),
        ensures
            final(sched).wf(),
            final(sched).task_count() == old(sched).task_count(),
            old(sched).queue_entries().is_prefix_of(final(sched).queue_entries()),
            forall|k: int|
                0 <= k < old(sched).task_count() ==> woken_header(
                    old(sched).headers()[k],
                    #[trigger] final(sched).headers()[k],
                ),
    {
        let signaled: bool = match timeout_ms {
            None => {
                let got = recv_blocking(&self.unpark_rx);
                got.is_some()
            },
            Some(ms) => {
                let capped = if ms > MAX_PARK_MS {
                    MAX_PARK_MS
                } else {
                    ms
                };
                let got = recv_wait_ms(&self.unpark_rx, capped);
                match got {
                    RecvWaitOutcome::Received(_) => true,
                    RecvWaitOutcome::TimedOut => false,
                    RecvWaitOutcome::Disconnected => false,
                }
            },
        };
        self.drain_foreign_wakes(sched, max_drain);
        signaled
    }

    /// Move up to `max_drain` wakes sent by foreign threads onto the local
    /// run queue. Each received id wakes its task exactly as a local wake
    /// would; ids that name no task, and wakes beyond the batch bound, are
    /// left for later.
    pub fn drain_foreign_wakes(&self, sched: &mut Scheduler, max_drain: usize)
        requires
            old(sched).wf(),
        ensures
            final(sched).wf(),
            final(sched).task_count() == old(sched).task_count(),
            old(sched).queue_entries().is_prefix_of(final(sched).queue_entries()),
            forall|k: int|
                0 <= k < old(sched).task_count() ==> woken_header(
                    old(sched).headers()[k],
                    #[trigger] final(sched).headers()[k],
                ),
    {
        let mut i: usize = 0;
        while i < max_drain
            invariant
                sched.wf(),
                sched.task_count() == old(sched).task_count(),
                old(sched).queue_entries().is_prefix_of(sched.queue_entries()),
                forall|k: int|
                    0 <= k < old(sched).task_count() ==> woken_header(
                        old(sched).headers()[k],
                        #[trigger] sched.headers()[k],
                    ),
            decreases max_drain - i,
        {
            let got = try_recv_msg(&self.wake_rx);
            match got {
                TryRecvOutcome::Received(id) => {
                    if id < sched.num_tasks() {
                        let h = sched.header(id);
                        if h.refs < u64::MAX {
                            sched.wake(id);
                        }
                    }
                },
                TryRecvOutcome::Empty => {
                    break;
                },
                TryRecvOutcome::Disconnected => {
                    break;
                },
            }
            i += 1;
        }
    }
}

} // verus!
