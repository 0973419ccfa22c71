//! The runtime: the per-thread context with its peer-endpoint caches, task
//! spawning, and the executor's scheduling decisions. `block_on` is split
//! into verified steps: the reentrancy guard that fires before any queue
//! mutation, the bounded queue drain that keeps a self-waking task from
//! starving I/O, and the decision that follows a drain (poll the root, park,
//! or submit).

use vstd::prelude::*;
use std::collections::HashMap;
use crate::channel::{new_fx_map, UnparkHandle, WakerSender};
use crate::driver::CompletionDriver;
use crate::task::{Scheduler, TaskHeader, TaskState};

verus! {

broadcast use vstd::std_specs::hash::group_hash_axioms;

/// One registered peer thread: its id and the two endpoints a foreign wake
/// needs.
pub struct PeerEntry {
    /// The peer thread's generated id.
    pub id: usize,
    /// Rouses the peer's parked driver.
    pub unpark: UnparkHandle,
    /// Sends wakes into the peer's waker channel.
    pub waker_tx: WakerSender,
}

/// The shared peer-thread registry: append-only, keyed by thread id. Each
/// runtime registers its endpoints once; contexts cache what they look up.
pub struct Registry {
    peers: Vec<PeerEntry>,
}

impl Registry {
    /// The registered peers, oldest first.
    pub closed spec fn entries(&self) -> Seq<PeerEntry> {
        self.peers@
    }

    /// Whether a peer with thread id `id` is registered.
    pub open spec fn has_peer(&self, id: usize) -> bool {
        exists|i: int| 0 <= i < self.entries().len() && (#[trigger] self.entries()[i]).id == id
    }

    /// Every registered endpoint belongs to the thread it is filed under.
    pub open spec fn wf(&self) -> bool {
        forall|i: int|
            0 <= i < self.entries().len() ==> (#[trigger] self.entries()[i]).unpark.owner()
                == self.entries()[i].id && self.entries()[i].waker_tx.owner() == self.entries()[i].id
    }

    /// An empty registry.
    pub fn new() -> (r: Registry)
        ensures
            r.wf(),
            r.entries() == Seq::<PeerEntry>::empty(),
    {
        Registry { peers: Vec::new() }
    }

    /// Append one peer whose endpoints are its own; nothing already
    /// registered moves.
    pub fn register(&mut self, peer: PeerEntry)
        requires
            old(self).wf(),
            peer.unpark.owner() == peer.id,
            peer.waker_tx.owner() == peer.id,
        ensures
            final(self).wf(),
            final(self).entries() == old(self).entries().push(peer),
    {
        let ghost peer0 = peer;
        self.peers.push(peer);
        proof {
            assert forall|i: int| 0 <= i < self.entries().len() implies (
            #[trigger] self.entries()[i]).unpark.owner() == self.entries()[i].id
                && self.entries()[i].waker_tx.owner() == self.entries()[i].id by {
                if i < old(self).entries().len() {
                    assert(self.entries()[i] == old(self).entries()[i]);
                } else {
                    assert(self.entries()[i] == peer0);
                }
            }
        }
    }

    /// A fresh unpark handle for peer `id`, when it is registered; the
    /// handle is the matching entry's, not some other peer's.
    pub fn find_unpark(&self, id: usize) -> (r: Option<UnparkHandle>)
        ensures
            r is Some <==> self.has_peer(id),
            self.wf() ==> match r {
                Some(h) => h.owner() == id,
                None => true,
            },
    {
        let n = self.peers.len();
        let mut i: usize = 0;
        while i < n
            invariant
                i <= n,
                n == self.entries().len(),
                forall|k: int| 0 <= k < i ==> (#[trigger] self.entries()[k]).id != id,
            decreases n - i,
        {
            if self.peers[i].id == id {
                return Some(self.peers[i].unpark.duplicate());
            }
            i += 1;
        }
        None
    }

    /// A fresh waker sender for peer `id`, when it is registered; the
    /// sender is the matching entry's, not some other peer's.
    pub fn find_waker_sender(&self, id: usize) -> (r: Option<WakerSender>)
        ensures
            r is Some <==> self.has_peer(id),
            self.wf() ==> match r {
                Some(s) => s.owner() == id,
                None => true,
            },
    {
        let n = self.peers.len();
        let mut i: usize = 0;
        while i < n
            invariant
                i <= n,
                n == self.entries().len(),
                forall|k: int| 0 <= k < i ==> (#[trigger] self.entries()[k]).id != id,
            decreases n - i,
        {
            if self.peers[i].id == id {
                return Some(self.peers[i].waker_tx.duplicate());
            }
            i += 1;
        }
        None
    }
}

/// The per-thread singleton established for the duration of `block_on`: the
/// owned task set with its run queue, and caches of peer threads' unpark and
/// waker-send endpoints.
pub struct Context {
    /// This thread's generated id (not the kernel thread id).
    pub thread_id: usize,
    /// Cached unpark handles of peer threads.
    pub unpark_cache: HashMap<usize, UnparkHandle, fxhash::FxBuildHasher>,
    /// Cached waker senders of peer threads.
    pub waker_sender_cache: HashMap<usize, WakerSender, fxhash::FxBuildHasher>,
    /// Owned task set and local run queue.
    pub tasks: Scheduler,
}

impl Context {
    /// Well-formedness: the task set is coherent, the caches' hash builder
    /// fits vstd's model (established when the caches are made), and every
    /// cached endpoint belongs to the thread it is filed under.
    pub open spec fn wf(&self) -> bool {
        &&& self.tasks.wf()
        &&& vstd::std_specs::hash::builds_valid_hashers::<fxhash::FxBuildHasher>()
        &&& forall|k: usize|
            self.unpark_cache@.dom().contains(k) ==> (#[trigger] self.unpark_cache@[k]).owner()
                == k
        &&& forall|k: usize|
            self.waker_sender_cache@.dom().contains(k) ==> (
            #[trigger] self.waker_sender_cache@[k]).owner() == k
    }

    /// A fresh context for thread `thread_id`: empty caches, no tasks.
    pub fn new(thread_id: usize) -> (c: Context)
        ensures
            c.wf(),
            c.thread_id == thread_id,
            c.tasks.task_count() == 0,
            c.tasks.queue_entries() == Seq::<usize>::empty(),
            c.unpark_cache@.dom() == Set::<usize>::empty(),
            c.waker_sender_cache@.dom() == Set::<usize>::empty(),
    {
        let unpark_cache = new_fx_map();
        let waker_sender_cache = new_fx_map();
        proof {
            assert(unpark_cache@.dom() =~= Set::<usize>::empty());
            assert(waker_sender_cache@.dom() =~= Set::<usize>::empty());
        }
        Context { thread_id, unpark_cache, waker_sender_cache, tasks: Scheduler::new() }
    }

    /// Rouse peer thread `id`: through the cached handle when one is there,
    /// else through the registry, caching what was found. Returns whether
    /// the peer was known anywhere; an unknown peer has terminated and the
    /// signal is dropped.
    pub fn unpark_thread(&mut self, id: usize, reg: &Registry) -> (found: bool)
        requires
            old(self).wf(),
            reg.wf(),
        ensures
            final(self).wf(),
            final(self).thread_id == old(self).thread_id,
            final(self).tasks == old(self).tasks,
            final(self).waker_sender_cache@ == old(self).waker_sender_cache@,
            found == (old(self).unpark_cache@.dom().contains(id) || reg.has_peer(id)),
            final(self).unpark_cache@.remove(id) == old(self).unpark_cache@.remove(id),
            old(self).unpark_cache@.dom().contains(id) ==> final(self).unpark_cache@ == old(self).unpark_cache@,
            !old(self).unpark_cache@.dom().contains(id) && reg.has_peer(id) ==> final(self).unpark_cache@.dom() == old(self).unpark_cache@.dom().insert(id),
            !old(self).unpark_cache@.dom().contains(id) && !reg.has_peer(id) ==> final(self).unpark_cache@ == old(self).unpark_cache@,
    {
        let cached = self.unpark_cache.get(&id);
        match cached {
            Some(handle) => {
                handle.unpark();
                true
            },
            None => {
                let looked_up = reg.find_unpark(id);
                match looked_up {
                    Some(handle) => {
                        handle.unpark();
                        self.unpark_cache.insert(id, handle);
                        proof {
                            assert(self.unpark_cache@.dom() =~= old(self).unpark_cache@.dom().insert(id));
                            assert(self.unpark_cache@.remove(id) =~= old(self).unpark_cache@.remove(id));
                        }
                        true
                    },
                    None => false,
                }
            },
        }
    }

    /// Forward a wake of `task` to peer thread `id`: through the cached
    /// sender when one is there, else through the registry, caching what was
    /// found on a miss. Returns whether the peer was known anywhere; a send
    /// to a vanished peer is dropped silently.
    pub fn send_waker(&mut self, id: usize, task: usize, reg: &Registry) -> (found: bool)
        requires
            old(self).wf(),
            reg.wf(),
        ensures
            final(self).wf(),
            final(self).thread_id == old(self).thread_id,
            final(self).tasks == old(self).tasks,
            final(self).unpark_cache@ == old(self).unpark_cache@,
            found == (old(self).waker_sender_cache@.dom().contains(id) || reg.has_peer(id)),
            final(self).waker_sender_cache@.remove(id) == old(self).waker_sender_cache@.remove(id),
            old(self).waker_sender_cache@.dom().contains(id) ==> final(self).waker_sender_cache@
                == old(self).waker_sender_cache@,
            !old(self).waker_sender_cache@.dom().contains(id) && reg.has_peer(id) ==> final(self).waker_sender_cache@.dom() == old(self).waker_sender_cache@.dom().insert(id),
            !old(self).waker_sender_cache@.dom().contains(id) && !reg.has_peer(id) ==> final(self).waker_sender_cache@ == old(self).waker_sender_cache@,
    {
        let cached = self.waker_sender_cache.get(&id);
        match cached {
            Some(sender) => {
                let _ = sender.send_wake(task);
                true
            },
            None => {
                let looked_up = reg.find_waker_sender(id);
                match looked_up {
                    Some(sender) => {
                        let _ = sender.send_wake(task);
                        self.waker_sender_cache.insert(id, sender);
                        proof {
                            assert(self.waker_sender_cache@.dom() =~= old(self).waker_sender_cache@.dom().insert(id));
                            assert(self.waker_sender_cache@.remove(id) =~= old(self).waker_sender_cache@.remove(id));
                        }
                        true
                    },
                    None => false,
                }
            },
        }
    }
}

/// An owned reference to a spawned task; awaiting it reads the output slot
/// once the task completes.
pub struct JoinHandle {
    /// The id of the task this handle joins.
    pub task: usize,
}

/// Spawns a new asynchronous task on the current runtime's queue, returning
/// a handle for it. The task starts scheduled, holding two references: the
/// handle and its queue slot. A spawned task may be dropped unfinished when
/// the runtime shuts down.
pub fn spawn(ctx: &mut Context) -> (h: JoinHandle)
    requires
        old(ctx).wf(),
        old(ctx).tasks.task_count() < usize::MAX,
    ensures
        final(ctx).wf(),
        final(ctx).thread_id == old(ctx).thread_id,
        final(ctx).unpark_cache@ == old(ctx).unpark_cache@,
        final(ctx).waker_sender_cache@ == old(ctx).waker_sender_cache@,
        h.task == old(ctx).tasks.task_count(),
        final(ctx).tasks.task_count() == old(ctx).tasks.task_count() + 1,
        final(ctx).tasks.queue_entries() == old(ctx).tasks.queue_entries().push(h.task),
        final(ctx).tasks.headers()[h.task as int] == (TaskHeader {
            state: TaskState::Scheduled,
            wake_pending: false,
            refs: 2,
            has_handle: true,
            wakers: 0,
            output_stored: false,
            thread_id: old(ctx).thread_id,
        }),
        forall|k: int|
            0 <= k < old(ctx).tasks.task_count() ==> final(ctx).tasks.headers()[k] == old(ctx).tasks.headers()[k],
{
    let tid = ctx.thread_id;
    let id = ctx.tasks.add_task(tid);
    JoinHandle { task: id }
}

/// Misuse surfaced by the runtime itself.
#[derive(Clone, Copy, Debug, PartialEq, Eq, Structural)]
pub enum RuntimeError {
    /// `block_on` was entered while a runtime was already active on this
    /// thread.
    AlreadyRunning,
}

/// What one poll of a task did, as the executor sees it.
#[derive(Clone, Copy, Debug, PartialEq, Eq, Structural)]
pub enum PollOutcome {
    /// The task finished; its output is stored for the joiner.
    Complete,
    /// The task suspended waiting on something else.
    Suspend,
    /// The task suspended but woke itself during the poll.
    SuspendWoken,
}

/// Where the executor goes after a queue drain.
#[derive(Clone, Copy, Debug, PartialEq, Eq, Structural)]
pub enum Action {
    /// The root future's waker fired since its last poll: poll it.
    PollRoot,
    /// Nothing runnable: park on the driver.
    Park,
    /// Still runnable tasks: flush submissions, then drain again.
    Submit,
}

/// The exact effect of one executor step on the task set: the front task is
/// popped, marked running with its pending mark cleared, polled with the
/// given outcome, and settled as `Scheduler::finish_poll` says. A task that
/// woke itself during the poll goes straight to the back of the queue; one
/// whose count is saturated has the self-wake dropped and parks idle.
pub open spec fn poll_step(pre: Scheduler, post: Scheduler, oc: PollOutcome) -> bool {
    &&& pre.queue_entries().len() > 0
    &&& {
        let id = pre.queue_entries()[0];
        let rest = pre.queue_entries().subrange(1, pre.queue_entries().len() as int);
        let h = pre.headers()[id as int];
        &&& post.task_count() == pre.task_count()
        &&& forall|k: int|
            0 <= k < pre.task_count() && k != id ==> post.headers()[k] == pre.headers()[k]
        &&& match oc {
            PollOutcome::Complete => {
                &&& post.queue_entries() == rest
                &&& post.headers()[id as int] == (TaskHeader {
                    state: TaskState::Completed,
                    wake_pending: false,
                    output_stored: true,
                    refs: (h.refs - 1) as u64,
                    ..h
                })
            },
            PollOutcome::Suspend => {
                &&& post.queue_entries() == rest
                &&& post.headers()[id as int] == (TaskHeader {
                    state: TaskState::Idle,
                    wake_pending: false,
                    refs: (h.refs - 1) as u64,
                    ..h
                })
            },
            PollOutcome::SuspendWoken => {
                if h.refs < u64::MAX {
                    &&& post.queue_entries() == rest.push(id)
                    &&& post.headers()[id as int] == (TaskHeader {
                        state: TaskState::Scheduled,
                        wake_pending: false,
                        ..h
                    })
                } else {
                    &&& post.queue_entries() == rest
                    &&& post.headers()[id as int] == (TaskHeader {
                        state: TaskState::Idle,
                        wake_pending: false,
                        refs: (h.refs - 1) as u64,
                        ..h
                    })
                }
            },
        }
    }
}

/// A single-threaded runtime instance: a driver and a context.
pub struct Runtime {
    /// The I/O driver.
    pub driver: CompletionDriver,
    /// The per-thread context.
    pub context: Context,
    /// A `block_on` is active on this runtime.
    pub active: bool,
    /// The root future's waker fired since the root was last polled.
    pub poll_needed: bool,
}

impl Runtime {
    /// Well-formedness of driver and context.
    pub open spec fn wf(&self) -> bool {
        &&& self.driver.wf()
        &&& self.context.wf()
    }

    /// A fresh runtime for thread `thread_id`: inactive, nothing queued,
    /// nothing in flight.
    pub fn new(thread_id: usize) -> (rt: Runtime)
        ensures
            rt.wf(),
            !rt.active,
            !rt.poll_needed,
            rt.context.thread_id == thread_id,
            rt.context.tasks.task_count() == 0,
            rt.context.tasks.queue_entries() == Seq::<usize>::empty(),
    {
        Runtime {
            driver: CompletionDriver::new(thread_id),
            context: Context::new(thread_id),
            active: false,
            poll_needed: false,
        }
    }

    /// Enter `block_on`. Starting a runtime inside a runtime is a
    /// programming error, detected here before anything is touched:
    /// `thread_active` says whether any runtime is already active on this
    /// thread, and on that error nothing in the runtime changes. On success
    /// the runtime is active and the root is marked for its first poll.
    pub fn enter(&mut self, thread_active: bool) -> (r: Result<(), RuntimeError>)
        ensures
            (thread_active || old(self).active) ==> {
                &&& r == Err::<(), RuntimeError>(RuntimeError::AlreadyRunning)
                &&& *final(self) == *old(self)
            },
            !(thread_active || old(self).active) ==> {
                &&& r == Ok::<(), RuntimeError>(())
                &&& *final(self) == (Runtime { active: true, poll_needed: true, ..*old(self) })
            },
    {
        if thread_active || self.active {
            return Err(RuntimeError::AlreadyRunning);
        }
        self.active = true;
        self.poll_needed = true;
        Ok(())
    }

    /// Leave `block_on`: the runtime is inactive again.
    pub fn leave(&mut self)
        ensures
            *final(self) == (Runtime { active: false, ..*old(self) }),
    {
        self.active = false;
    }

    /// The root future's waker fired: mark the root for a poll.
    pub fn set_poll(&mut self)
        ensures
            *final(self) == (Runtime { poll_needed: true, ..*old(self) }),
    {
        self.poll_needed = true;
    }

    /// Whether the root future needs a poll.
    pub fn should_poll(&self) -> (b: bool)
        ensures
            b == self.poll_needed,
    {
        self.poll_needed
    }

    /// The root future was polled; the mark clears until its waker fires
    /// again.
    pub fn root_polled(&mut self)
        ensures
            *final(self) == (Runtime { poll_needed: false, ..*old(self) }),
    {
        self.poll_needed = false;
    }

    /// Drain the run queue for one batch: pop and poll tasks, applying the
    /// caller's poll outcomes in order, for at most `2·N + 1` polls where
    /// `N` is the queue length at batch start. The bound keeps a task that
    /// re-enqueues itself from monopolizing the thread and starving I/O:
    /// every batch ends after boundedly many polls, with the queue drained,
    /// the round cap hit, or the outcomes exhausted. The returned trace
    /// fixes the task set after each poll: step `k` is exactly `poll_step`
    /// with outcome `k`.
    pub fn run_batch(&mut self, outcomes: &Vec<PollOutcome>) -> (r: (usize, Ghost<Seq<Scheduler>>))
        requires
            old(self).wf(),
            old(self).context.tasks.queue_entries().len() <= (usize::MAX - 1) / 2,
        ensures
            final(self).wf(),
            final(self).active == old(self).active,
            final(self).poll_needed == old(self).poll_needed,
            final(self).driver == old(self).driver,
            final(self).context.thread_id == old(self).context.thread_id,
            final(self).context.unpark_cache@ == old(self).context.unpark_cache@,
            final(self).context.waker_sender_cache@ == old(self).context.waker_sender_cache@,
            final(self).context.tasks.task_count() == old(self).context.tasks.task_count(),
            r.0 <= 2 * old(self).context.tasks.queue_entries().len() + 1,
            r.0 <= outcomes@.len(),
            r.0 == 2 * old(self).context.tasks.queue_entries().len() + 1 || final(self).context.tasks.queue_entries().len() == 0 || r.0 == outcomes@.len(),
            old(self).context.tasks.queue_entries().len() > 0 && outcomes@.len() > 0 ==> r.0 > 0,
            r.1@.len() == r.0 + 1,
            r.1@[0] == old(self).context.tasks,
            r.1@[r.0 as int] == final(self).context.tasks,
            forall|k: int| 0 <= k < r.0 ==> #[trigger] poll_step(r.1@[k], r.1@[k + 1], outcomes@[k]),
    {
        let n0 = self.context.tasks.queue_len();
        let mut limit: usize = 2 * n0 + 1;
        if limit > outcomes.len() {
            limit = outcomes.len();
        }
        let mut ran: usize = 0;
        let ghost mut tr = seq![self.context.tasks];
        while ran < limit && !self.context.tasks.queue_is_empty()
            invariant
                self.wf(),
                limit <= 2 * old(self).context.tasks.queue_entries().len() + 1,
                limit <= outcomes@.len(),
                limit == 2 * old(self).context.tasks.queue_entries().len() + 1 || limit
                    == outcomes@.len(),
                ran <= limit,
                self.active == old(self).active,
                self.poll_needed == old(self).poll_needed,
                self.driver == old(self).driver,
                self.context.thread_id == old(self).context.thread_id,
                self.context.unpark_cache@ == old(self).context.unpark_cache@,
                self.context.waker_sender_cache@ == old(self).context.waker_sender_cache@,
                self.context.tasks.task_count() == old(self).context.tasks.task_count(),
                ran == 0 ==> self.context.tasks.queue_entries() == old(self).context.tasks.queue_entries(),
                tr.len() == ran + 1,
                tr[0] == old(self).context.tasks,
                tr[ran as int] == self.context.tasks,
                forall|k: int| 0 <= k < ran ==> #[trigger] poll_step(tr[k], tr[k + 1], outcomes@[k]),
            decreases limit - ran,
        {
            let ghost pre = self.context.tasks;
            let popped = self.context.tasks.pop_next();
            match popped {
                None => {
                },
                Some(id) => {
                    let oc = outcomes[ran];
                    match oc {
                        PollOutcome::Complete => {
                            self.context.tasks.finish_poll(id, true);
                        },
                        PollOutcome::Suspend => {
                            self.context.tasks.finish_poll(id, false);
                        },
                        PollOutcome::SuspendWoken => {
                            let h = self.context.tasks.header(id);
                            if h.refs < u64::MAX {
                                self.context.tasks.wake(id);
                            }
                            self.context.tasks.finish_poll(id, false);
                        },
                    }
                    ran += 1;
                    proof {
                        assert(poll_step(pre, self.context.tasks, outcomes@[ran - 1]));
                        tr = tr.push(self.context.tasks);
                    }
                },
            }
        }
        (ran, Ghost(tr))
    }

    /// One round of `block_on`: drain a batch, poll the root if its waker
    /// fired since its last poll, then park when nothing is runnable.
    /// `root_ready` is what polling the root would report this round;
    /// `timeout_ms` is the timer's next deadline handed to the park. Returns
    /// whether the root completed (which ends `block_on`), how many tasks the
    /// batch polled, and the batch's step trace. A wake that arrives while
    /// parked marks the root for a poll even when it did not target the
    /// root, so the root is polled at least once per park cycle with wakes.
    pub fn block_on_round(
        &mut self,
        outcomes: &Vec<PollOutcome>,
        root_ready: bool,
        timeout_ms: Option<u64>,
        max_drain: usize,
    ) -> (r: (bool, usize, Ghost<Seq<Scheduler>>))
        requires
            old(self).wf(),
            old(self).active,
            old(self).context.tasks.queue_entries().len() <= (usize::MAX - 1) / 2,
        ensures
            final(self).wf(),
            final(self).active,
            r.0 == (old(self).poll_needed && root_ready),
            final(self).context.tasks.task_count() == old(self).context.tasks.task_count(),
            r.1 <= 2 * old(self).context.tasks.queue_entries().len() + 1,
            r.1 <= outcomes@.len(),
            old(self).context.tasks.queue_entries().len() > 0 && outcomes@.len() > 0 ==> r.1 > 0,
            r.2@.len() == r.1 + 1,
            r.2@[0] == old(self).context.tasks,
            forall|k: int| 0 <= k < r.1 ==> #[trigger] poll_step(r.2@[k], r.2@[k + 1], outcomes@[k]),
            ({
                let batch_end = r.2@[r.1 as int];
                &&& (r.1 == 2 * old(self).context.tasks.queue_entries().len() + 1
                    || batch_end.queue_entries().len() == 0 || r.1 == outcomes@.len())
                &&& (r.0 ==> final(self).context.tasks == batch_end && !final(self).poll_needed)
                &&& (!r.0 && batch_end.queue_entries().len() > 0 ==> final(self).context.tasks
                    == batch_end && !final(self).poll_needed)
                &&& (!r.0 && batch_end.queue_entries().len() == 0
                    && final(self).context.tasks.queue_entries().len() > 0 ==> final(self).poll_needed)
                &&& (!r.0 && batch_end.queue_entries().len() == 0 ==> forall|k: int|
                    0 <= k < batch_end.task_count() ==> crate::task::woken_header(
                        batch_end.headers()[k],
                        #[trigger] final(self).context.tasks.headers()[k],
                    ))
            }),
    {
        let (polls, trace) = self.run_batch(outcomes);
        let mut done = false;
        if self.should_poll() {
            self.root_polled();
            if root_ready {
                done = true;
            }
        }
        if !done && self.context.tasks.queue_is_empty() {
            let signaled = self.driver.park(&mut self.context.tasks, timeout_ms, max_drain);
            if signaled || !self.context.tasks.queue_is_empty() {
                self.set_poll();
            }
        }
        (done, polls, trace)
    }

    /// The decision after a drain: poll the root if its waker fired, else
    /// park when nothing is runnable, else flush submissions and drain
    /// again.
    pub fn next_phase(&self) -> (a: Action)
        ensures
            a == (if self.poll_needed {
                Action::PollRoot
            } else if self.context.tasks.queue_entries().len() == 0 {
                Action::Park
            } else {
                Action::Submit
            }),
    {
        if self.poll_needed {
            Action::PollRoot
        } else if self.context.tasks.queue_is_empty() {
            Action::Park
        } else {
            Action::Submit
        }
    }
}

/// A runtime over either concrete driver build: the completion ring where
/// the kernel offers one, or the readiness fallback. Callers that want a
/// single type at the boundary hold this wrapper.
pub enum FusionRuntime {
    /// Completion-ring driver based runtime.
    Uring(Runtime),
    /// Readiness driver based runtime.
    Legacy(Runtime),
}

impl FusionRuntime {
    /// The wrapped runtime.
    pub open spec fn inner(&self) -> Runtime {
        match self {
            FusionRuntime::Uring(r) => *r,
            FusionRuntime::Legacy(r) => *r,
        }
    }

    /// Drain one batch on the wrapped runtime, exactly as
    /// `Runtime::run_batch` does; the variant does not change.
    pub fn run_batch(&mut self, outcomes: &Vec<PollOutcome>) -> (r: (usize, Ghost<Seq<Scheduler>>))
        requires
            old(self).inner().wf(),
            old(self).inner().context.tasks.queue_entries().len() <= (usize::MAX - 1) / 2,
        ensures
            ((*old(self)) is Uring) == ((*final(self)) is Uring),
            final(self).inner().wf(),
            final(self).inner().active == old(self).inner().active,
            final(self).inner().poll_needed == old(self).inner().poll_needed,
            final(self).inner().driver == old(self).inner().driver,
            final(self).inner().context.thread_id == old(self).inner().context.thread_id,
            final(self).inner().context.unpark_cache@ == old(self).inner().context.unpark_cache@,
            final(self).inner().context.waker_sender_cache@ == old(self).inner().context.waker_sender_cache@,
            final(self).inner().context.tasks.task_count() == old(self).inner().context.tasks.task_count(),
            r.0 <= 2 * old(self).inner().context.tasks.queue_entries().len() + 1,
            r.0 <= outcomes@.len(),
            r.0 == 2 * old(self).inner().context.tasks.queue_entries().len() + 1 || final(self).inner().context.tasks.queue_entries().len() == 0 || r.0 == outcomes@.len(),
            old(self).inner().context.tasks.queue_entries().len() > 0 && outcomes@.len() > 0 ==> r.0 > 0,
            r.1@.len() == r.0 + 1,
            r.1@[0] == old(self).inner().context.tasks,
            r.1@[r.0 as int] == final(self).inner().context.tasks,
            forall|k: int| 0 <= k < r.0 ==> #[trigger] poll_step(r.1@[k], r.1@[k + 1], outcomes@[k]),
    {
        match self {
            FusionRuntime::Uring(r) => r.run_batch(outcomes),
            FusionRuntime::Legacy(r) => r.run_batch(outcomes),
        }
    }

    /// One `block_on` round on the wrapped runtime, exactly as
    /// `Runtime::block_on_round` does; the variant does not change.
    pub fn block_on_round(
        &mut self,
        outcomes: &Vec<PollOutcome>,
        root_ready: bool,
        timeout_ms: Option<u64>,
        max_drain: usize,
    ) -> (r: (bool, usize, Ghost<Seq<Scheduler>>))
        requires
            old(self).inner().wf(),
            old(self).inner().active,
            old(self).inner().context.tasks.queue_entries().len() <= (usize::MAX - 1) / 2,
        ensures
            ((*old(self)) is Uring) == ((*final(self)) is Uring),
            final(self).inner().wf(),
            final(self).inner().active,
            r.0 == (old(self).inner().poll_needed && root_ready),
            final(self).inner().context.tasks.task_count() == old(self).inner().context.tasks.task_count(),
            r.1 <= 2 * old(self).inner().context.tasks.queue_entries().len() + 1,
            r.1 <= outcomes@.len(),
            old(self).inner().context.tasks.queue_entries().len() > 0 && outcomes@.len() > 0
                ==> r.1 > 0,
            r.2@.len() == r.1 + 1,
            r.2@[0] == old(self).inner().context.tasks,
            forall|k: int| 0 <= k < r.1 ==> #[trigger] poll_step(r.2@[k], r.2@[k + 1], outcomes@[k]),
            ({
                let batch_end = r.2@[r.1 as int];
                &&& (r.1 == 2 * old(self).inner().context.tasks.queue_entries().len() + 1
                    || batch_end.queue_entries().len() == 0 || r.1 == outcomes@.len())
                &&& (r.0 ==> final(self).inner().context.tasks == batch_end && !final(self).inner().poll_needed)
                &&& (!r.0 && batch_end.queue_entries().len() > 0 ==> final(self).inner().context.tasks == batch_end && !final(self).inner().poll_needed)
                &&& (!r.0 && batch_end.queue_entries().len() == 0
                    && final(self).inner().context.tasks.queue_entries().len() > 0 ==> final(self).inner().poll_needed)
                &&& (!r.0 && batch_end.queue_entries().len() == 0 ==> forall|k: int|
                    0 <= k < batch_end.task_count() ==> crate::task::woken_header(
                        batch_end.headers()[k],
                        #[trigger] final(self).inner().context.tasks.headers()[k],
                    ))
            }),
    {
        match self {
            FusionRuntime::Uring(r) => r.block_on_round(outcomes, root_ready, timeout_ms, max_drain),
            FusionRuntime::Legacy(r) => r.block_on_round(outcomes, root_ready, timeout_ms, max_drain),
        }
    }
}

impl From<Runtime> for FusionRuntime {
    /// A completion-ring runtime wraps as its own fusion variant.
    fn from(r: Runtime) -> (f: Self) {
        FusionRuntime::Uring(r)
    }
}

impl vstd::std_specs::convert::FromSpecImpl<Runtime> for FusionRuntime {
    open spec fn obeys_from_spec() -> bool {
        true
    }

    open spec fn from_spec(r: Runtime) -> Self {
        FusionRuntime::Uring(r)
    }
}

} // verus!
