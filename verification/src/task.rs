//! The task system: a refcounted header per suspended computation, the
//! thread-local FIFO run queue, and the wake rules that put a task back on
//! the queue at most once per wake cycle.

use vstd::prelude::*;

verus! {

broadcast use vstd::seq_lib::group_seq_properties;

/// The lifecycle of a task.
#[derive(Clone, Copy, Debug, PartialEq, Eq, Structural)]
pub enum TaskState {
    /// Suspended; a wake moves it to `Scheduled`.
    Idle,
    /// Standing in the run queue.
    Scheduled,
    /// Being polled by the executor.
    Running,
    /// Finished; the output is stored for the joiner.
    Completed,
    /// Torn down at shutdown before it finished.
    Canceled,
}

/// The control block of one task: its state, the pending-wake mark, the
/// reference count over {join handle, queue or executor slot, outstanding
/// wakers}, and the originating thread for cross-thread wake routing.
#[derive(Clone, Copy, Debug, PartialEq, Eq, Structural)]
pub struct TaskHeader {
    /// Lifecycle state.
    pub state: TaskState,
    /// A wake arrived while the task was scheduled or running; the executor
    /// re-polls after the current poll returns.
    pub wake_pending: bool,
    /// References held: handle, queue or executor slot, wakers.
    pub refs: u64,
    /// Whether the join handle is still live.
    pub has_handle: bool,
    /// Outstanding wakers; each holds one reference.
    pub wakers: u64,
    /// The stored output awaits the joiner.
    pub output_stored: bool,
    /// The thread the task was spawned on; wakes from other threads are
    /// forwarded there.
    pub thread_id: usize,
}

/// One reference per live handle, one per outstanding waker, and one for the
/// queue slot or the executor while the task is scheduled or running.
pub open spec fn owner_refs(t: TaskHeader) -> int {
    (if t.has_handle {
        1int
    } else {
        0int
    }) + t.wakers + (if t.state is Scheduled || t.state is Running {
        1int
    } else {
        0int
    })
}

/// The header's count agrees with its owners.
pub open spec fn header_wf(t: TaskHeader) -> bool {
    t.refs == owner_refs(t)
}

/// The thread-local FIFO of runnable tasks. Only the owning thread touches
/// it; a cross-thread wake funnels through the waker-send channel instead.
pub struct TaskQueue {
    items: Vec<usize>,
}

impl TaskQueue {
    /// The queued task ids, front first.
    pub closed spec fn entries(&self) -> Seq<usize> {
        self.items@
    }

    /// An empty queue.
    pub fn new() -> (q: TaskQueue)
        ensures
            q.entries() == Seq::<usize>::empty(),
    {
        TaskQueue { items: Vec::new() }
    }

    /// Number of queued tasks.
    pub fn len(&self) -> (n: usize)
        ensures
            n == self.entries().len(),
    {
        self.items.len()
    }

    /// Whether nothing is queued.
    pub fn is_empty(&self) -> (b: bool)
        ensures
            b == (self.entries().len() == 0),
    {
        self.items.is_empty()
    }

    /// Append a task at the back.
    pub fn push(&mut self, id: usize)
        ensures
            final(self).entries() == old(self).entries().push(id),
    {
        self.items.push(id);
    }

    /// Take the task at the front, if any.
    pub fn pop(&mut self) -> (r: Option<usize>)
        ensures
            match r {
                Some(id) => {
                    &&& old(self).entries().len() > 0
                    &&& id == old(self).entries()[0]
                    &&& final(self).entries() == old(self).entries().subrange(
                        1,
                        old(self).entries().len() as int,
                    )
                },
                None => {
                    &&& old(self).entries().len() == 0
                    &&& *final(self) == *old(self)
                },
            },
    {
        if self.items.is_empty() {
            None
        } else {
            let id = self.items.remove(0);
            proof {
                assert(self.entries() =~= old(self).entries().subrange(
                    1,
                    old(self).entries().len() as int,
                ));
            }
            Some(id)
        }
    }
}

impl Default for TaskQueue {
    /// An empty queue.
    fn default() -> (q: TaskQueue)
        ensures
            q.entries() == Seq::<usize>::empty(),
    {
        TaskQueue::new()
    }
}

/// The owned task set with its run queue. Task ids are dense indexes into
/// the set; headers stay in place, so ids stay valid for the runtime's life.
pub struct Scheduler {
    tasks: Vec<TaskHeader>,
    queue: TaskQueue,
}

impl Scheduler {
    /// The headers, indexed by task id.
    pub closed spec fn headers(&self) -> Seq<TaskHeader> {
        self.tasks@
    }

    /// How many tasks exist.
    pub open spec fn task_count(&self) -> nat {
        self.headers().len()
    }

    /// The queued ids, front first.
    pub closed spec fn queue_entries(&self) -> Seq<usize> {
        self.queue.entries()
    }

    /// Whether `id` stands in the run queue.
    pub open spec fn in_queue(&self, id: usize) -> bool {
        self.queue_entries().contains(id)
    }

    /// Well-formedness: queued ids are valid and distinct, a task stands in
    /// the queue exactly when it is `Scheduled`, and every header's count
    /// agrees with its owners.
    pub open spec fn wf(&self) -> bool {
        &&& forall|i: int|
            0 <= i < self.queue_entries().len() ==> (#[trigger] self.queue_entries()[i])
                < self.task_count()
        &&& forall|i: int, j: int|
            0 <= i < j < self.queue_entries().len() ==> self.queue_entries()[i]
                != self.queue_entries()[j]
        &&& forall|id: usize|
            id < self.task_count() ==> ((#[trigger] self.headers()[id as int]).state is Scheduled
                <==> self.in_queue(id))
        &&& forall|id: int| 0 <= id < self.task_count() ==> header_wf(#[trigger] self.headers()[id])
    }

    /// An empty task set.
    pub fn new() -> (s: Scheduler)
        ensures
            s.wf(),
            s.task_count() == 0,
            s.queue_entries() == Seq::<usize>::empty(),
    {
        Scheduler { tasks: Vec::new(), queue: TaskQueue::new() }
    }

    /// How many tasks exist, live or settled.
    pub fn num_tasks(&self) -> (n: usize)
        ensures
            n == self.task_count(),
    {
        self.tasks.len()
    }

    /// Number of queued tasks.
    pub fn queue_len(&self) -> (n: usize)
        ensures
            n == self.queue_entries().len(),
    {
        self.queue.len()
    }

    /// Whether the run queue is empty.
    pub fn queue_is_empty(&self) -> (b: bool)
        ensures
            b == (self.queue_entries().len() == 0),
    {
        self.queue.is_empty()
    }

    /// The header of task `id`, for inspection.
    pub fn header(&self, id: usize) -> (t: TaskHeader)
        requires
            id < self.task_count(),
        ensures
            t == self.headers()[id as int],
    {
        self.tasks[id]
    }

    /// Create a task on thread `thread_id` and enqueue it. The new header
    /// starts `Scheduled` with two references: the join handle and the queue
    /// slot.
    pub fn add_task(&mut self, thread_id: usize) -> (id: usize)
        requires
            old(self).wf(),
            old(self).task_count() < usize::MAX,
        ensures
            final(self).wf(),
            id == old(self).task_count(),
            final(self).task_count() == old(self).task_count() + 1,
            final(self).headers()[id as int] == (TaskHeader {
                state: TaskState::Scheduled,
                wake_pending: false,
                refs: 2,
                has_handle: true,
                wakers: 0,
                output_stored: false,
                thread_id,
            }),
            forall|k: int|
                0 <= k < old(self).task_count() ==> final(self).headers()[k] == old(self).headers()[k],
            final(self).queue_entries() == old(self).queue_entries().push(id),
    {
        let id = self.tasks.len();
        self.tasks.push(
            TaskHeader {
                state: TaskState::Scheduled,
                wake_pending: false,
                refs: 2,
                has_handle: true,
                wakers: 0,
                output_stored: false,
                thread_id,
            },
        );
        self.queue.push(id);
        proof {
            assert forall|oid: usize| oid < self.task_count() implies ((
            #[trigger] self.headers()[oid as int]).state is Scheduled <==> self.in_queue(oid)) by {
                if oid < id {
                    assert(old(self).headers()[oid as int] == self.headers()[oid as int]);
                    assert(old(self).in_queue(oid) <==> self.in_queue(oid));
                } else {
                    assert(self.queue_entries()[self.queue_entries().len() - 1] == id);
                    assert(self.in_queue(id));
                }
            }
            assert forall|i: int, j: int|
                0 <= i < j < self.queue_entries().len() implies self.queue_entries()[i]
                != self.queue_entries()[j] by {
                if j == self.queue_entries().len() - 1 {
                    assert(old(self).queue_entries()[i] == self.queue_entries()[i]);
                    assert(old(self).queue_entries()[i] < old(self).task_count());
                }
            }
            assert forall|i: int|
                0 <= i < self.queue_entries().len() implies (#[trigger] self.queue_entries()[i])
                < self.task_count() by {
                if i < self.queue_entries().len() - 1 {
                    assert(old(self).queue_entries()[i] == self.queue_entries()[i]);
                    assert(old(self).queue_entries()[i] < old(self).task_count());
                }
            }
        }
        id
    }

    /// Clone a waker for task `id`: one more outstanding waker, one more
    /// reference.
    pub fn clone_waker(&mut self, id: usize)
        requires
            old(self).wf(),
            id < old(self).task_count(),
            old(self).headers()[id as int].refs < u64::MAX,
        ensures
            final(self).wf(),
            final(self).headers() == old(self).headers().update(
                id as int,
                TaskHeader {
                    refs: (old(self).headers()[id as int].refs + 1) as u64,
                    wakers: (old(self).headers()[id as int].wakers + 1) as u64,
                    ..old(self).headers()[id as int]
                },
            ),
            final(self).queue_entries() == old(self).queue_entries(),
    {
        let t = self.tasks[id];
        self.tasks[id] = TaskHeader { refs: t.refs + 1, wakers: t.wakers + 1, ..t };
        proof {
            assert(self.headers() =~= old(self).headers().update(
                id as int,
                self.headers()[id as int],
            ));
            self.lemma_untouched_queue_coherence(old(self), id);
        }
    }

    /// Drop a waker for task `id` without waking: one reference less.
    pub fn drop_waker(&mut self, id: usize)
        requires
            old(self).wf(),
            id < old(self).task_count(),
            old(self).headers()[id as int].wakers > 0,
        ensures
            final(self).wf(),
            final(self).headers() == old(self).headers().update(
                id as int,
                TaskHeader {
                    refs: (old(self).headers()[id as int].refs - 1) as u64,
                    wakers: (old(self).headers()[id as int].wakers - 1) as u64,
                    ..old(self).headers()[id as int]
                },
            ),
            final(self).queue_entries() == old(self).queue_entries(),
    {
        let t = self.tasks[id];
        self.tasks[id] = TaskHeader { refs: t.refs - 1, wakers: t.wakers - 1, ..t };
        proof {
            assert(self.headers() =~= old(self).headers().update(
                id as int,
                self.headers()[id as int],
            ));
            self.lemma_untouched_queue_coherence(old(self), id);
        }
    }

    /// Wake task `id` on its own thread. An `Idle` task moves to `Scheduled`
    /// and joins the queue once; a task already `Scheduled` or `Running` is
    /// only marked, so the queue does not change; a finished task ignores the
    /// wake.
    pub fn wake(&mut self, id: usize)
        requires
            old(self).wf(),
            id < old(self).task_count(),
            old(self).headers()[id as int].refs < u64::MAX,
        ensures
            final(self).wf(),
            final(self).task_count() == old(self).task_count(),
            forall|k: int|
                0 <= k < old(self).task_count() && k != id ==> final(self).headers()[k] == old(self).headers()[k],
            old(self).headers()[id as int].state is Idle ==> {
                &&& final(self).queue_entries() == old(self).queue_entries().push(id)
                &&& final(self).headers()[id as int] == (TaskHeader {
                    state: TaskState::Scheduled,
                    refs: (old(self).headers()[id as int].refs + 1) as u64,
                    ..old(self).headers()[id as int]
                })
            },
            (old(self).headers()[id as int].state is Scheduled
                || old(self).headers()[id as int].state is Running) ==> {
                &&& final(self).queue_entries() == old(self).queue_entries()
                &&& final(self).headers()[id as int] == (TaskHeader {
                    wake_pending: true,
                    ..old(self).headers()[id as int]
                })
            },
            (old(self).headers()[id as int].state is Completed
                || old(self).headers()[id as int].state is Canceled) ==> *final(self) == *old(self),
            wake_effect(*old(self), *final(self), id),
    {
        let t = self.tasks[id];
        match t.state {
            TaskState::Idle => {
                self.tasks[id] = TaskHeader {
                    state: TaskState::Scheduled,
                    refs: t.refs + 1,
                    ..t
                };
                self.queue.push(id);
                proof {
                    assert(!old(self).in_queue(id));
                    assert forall|oid: usize| oid < self.task_count() implies ((
                    #[trigger] self.headers()[oid as int]).state is Scheduled <==> self.in_queue(
                        oid,
                    )) by {
                        if oid != id {
                            assert(old(self).headers()[oid as int] == self.headers()[oid as int]);
                            assert(old(self).in_queue(oid) <==> self.in_queue(oid));
                        } else {
                            assert(self.queue_entries()[self.queue_entries().len() - 1] == id);
                            assert(self.in_queue(id));
                        }
                    }
                    assert forall|i: int, j: int|
                        0 <= i < j < self.queue_entries().len() implies self.queue_entries()[i]
                        != self.queue_entries()[j] by {
                        if j == self.queue_entries().len() - 1 {
                            assert(old(self).queue_entries()[i] == self.queue_entries()[i]);
                            assert(old(self).in_queue(old(self).queue_entries()[i]));
                        }
                    }
                }
            },
            TaskState::Scheduled => {
                self.tasks[id] = TaskHeader { wake_pending: true, ..t };
                proof {
                    self.lemma_untouched_queue_coherence(old(self), id);
                }
            },
            TaskState::Running => {
                self.tasks[id] = TaskHeader { wake_pending: true, ..t };
                proof {
                    self.lemma_untouched_queue_coherence(old(self), id);
                }
            },
            TaskState::Completed => {
            },
            TaskState::Canceled => {
            },
        }
    }

    /// Take the next runnable task off the queue and mark it `Running` with
    /// its pending-wake mark cleared; the queue's reference passes to the
    /// executor, so the count stands.
    pub fn pop_next(&mut self) -> (r: Option<usize>)
        requires
            old(self).wf(),
        ensures
            final(self).wf(),
            final(self).task_count() == old(self).task_count(),
            match r {
                Some(id) => {
                    &&& old(self).queue_entries().len() > 0
                    &&& id == old(self).queue_entries()[0]
                    &&& id < old(self).task_count()
                    &&& final(self).queue_entries() == old(self).queue_entries().subrange(
                        1,
                        old(self).queue_entries().len() as int,
                    )
                    &&& final(self).headers() == old(self).headers().update(
                        id as int,
                        TaskHeader {
                            state: TaskState::Running,
                            wake_pending: false,
                            ..old(self).headers()[id as int]
                        },
                    )
                },
                None => {
                    &&& old(self).queue_entries().len() == 0
                    &&& *final(self) == *old(self)
                },
            },
    {
        let popped = self.queue.pop();
        match popped {
            None => None,
            Some(id) => {
                proof {
                    assert(old(self).queue_entries()[0] == id);
                    assert(old(self).in_queue(id));
                }
                let t = self.tasks[id];
                self.tasks[id] = TaskHeader {
                    state: TaskState::Running,
                    wake_pending: false,
                    ..t
                };
                proof {
                    let qnew = self.queue_entries();
                    let qold = old(self).queue_entries();
                    assert forall|oid: usize| oid < self.task_count() implies ((
                    #[trigger] self.headers()[oid as int]).state is Scheduled <==> self.in_queue(
                        oid,
                    )) by {
                        if oid == id {
                            assert forall|k: int| 0 <= k < qnew.len() implies qnew[k] != id by {
                                assert(qnew[k] == qold[k + 1]);
                            }
                            assert(!self.in_queue(id));
                        } else {
                            assert(old(self).headers()[oid as int] == self.headers()[oid as int]);
                            if old(self).in_queue(oid) {
                                let k = choose|k: int| 0 <= k < qold.len() && qold[k] == oid;
                                assert(k != 0);
                                assert(qnew[k - 1] == oid);
                                assert(self.in_queue(oid));
                            }
                            if self.in_queue(oid) {
                                let k = choose|k: int| 0 <= k < qnew.len() && qnew[k] == oid;
                                assert(qold[k + 1] == oid);
                                assert(old(self).in_queue(oid));
                            }
                        }
                    }
                    assert(self.headers() =~= old(self).headers().update(
                        id as int,
                        self.headers()[id as int],
                    ));
                }
                Some(id)
            },
        }
    }

    /// Record the outcome of a poll of task `id`. Completion stores the
    /// output and notifies the joiner; otherwise a wake that arrived during
    /// the poll puts the task straight back on the queue, and a quiet task
    /// goes `Idle`. In the two settled cases the executor's reference drops.
    pub fn finish_poll(&mut self, id: usize, completed: bool)
        requires
            old(self).wf(),
            id < old(self).task_count(),
            old(self).headers()[id as int].state is Running,
        ensures
            final(self).wf(),
            final(self).task_count() == old(self).task_count(),
            forall|k: int|
                0 <= k < old(self).task_count() && k != id ==> final(self).headers()[k] == old(self).headers()[k],
            completed ==> {
                &&& final(self).queue_entries() == old(self).queue_entries()
                &&& final(self).headers()[id as int] == (TaskHeader {
                    state: TaskState::Completed,
                    output_stored: true,
                    refs: (old(self).headers()[id as int].refs - 1) as u64,
                    ..old(self).headers()[id as int]
                })
            },
            (!completed && old(self).headers()[id as int].wake_pending) ==> {
                &&& final(self).queue_entries() == old(self).queue_entries().push(id)
                &&& final(self).headers()[id as int] == (TaskHeader {
                    state: TaskState::Scheduled,
                    wake_pending: false,
                    ..old(self).headers()[id as int]
                })
            },
            (!completed && !old(self).headers()[id as int].wake_pending) ==> {
                &&& final(self).queue_entries() == old(self).queue_entries()
                &&& final(self).headers()[id as int] == (TaskHeader {
                    state: TaskState::Idle,
                    refs: (old(self).headers()[id as int].refs - 1) as u64,
                    ..old(self).headers()[id as int]
                })
            },
    {
        proof {
            assert(!old(self).in_queue(id));
            assert(old(self).headers()[id as int].refs >= 1);
        }
        let t = self.tasks[id];
        if completed {
            self.tasks[id] = TaskHeader {
                state: TaskState::Completed,
                output_stored: true,
                refs: t.refs - 1,
                ..t
            };
            proof {
                self.lemma_untouched_queue_coherence(old(self), id);
            }
        } else if t.wake_pending {
            self.tasks[id] = TaskHeader {
                state: TaskState::Scheduled,
                wake_pending: false,
                ..t
            };
            self.queue.push(id);
            proof {
                assert forall|oid: usize| oid < self.task_count() implies ((
                #[trigger] self.headers()[oid as int]).state is Scheduled <==> self.in_queue(
                    oid,
                )) by {
                    if oid != id {
                        assert(old(self).headers()[oid as int] == self.headers()[oid as int]);
                        assert(old(self).in_queue(oid) <==> self.in_queue(oid));
                    } else {
                        assert(self.queue_entries()[self.queue_entries().len() - 1] == id);
                        assert(self.in_queue(id));
                    }
                }
                assert forall|i: int, j: int|
                    0 <= i < j < self.queue_entries().len() implies self.queue_entries()[i]
                    != self.queue_entries()[j] by {
                    if j == self.queue_entries().len() - 1 {
                        assert(old(self).queue_entries()[i] == self.queue_entries()[i]);
                        assert(old(self).in_queue(old(self).queue_entries()[i]));
                    }
                }
            }
        } else {
            self.tasks[id] = TaskHeader { state: TaskState::Idle, refs: t.refs - 1, ..t };
            proof {
                self.lemma_untouched_queue_coherence(old(self), id);
            }
        }
    }

    /// Drop the join handle of task `id`: the task runs on detached, one
    /// reference less.
    pub fn drop_handle(&mut self, id: usize)
        requires
            old(self).wf(),
            id < old(self).task_count(),
            old(self).headers()[id as int].has_handle,
        ensures
            final(self).wf(),
            final(self).headers() == old(self).headers().update(
                id as int,
                TaskHeader {
                    has_handle: false,
                    refs: (old(self).headers()[id as int].refs - 1) as u64,
                    ..old(self).headers()[id as int]
                },
            ),
            final(self).queue_entries() == old(self).queue_entries(),
    {
        let t = self.tasks[id];
        self.tasks[id] = TaskHeader { has_handle: false, refs: t.refs - 1, ..t };
        proof {
            assert(self.headers() =~= old(self).headers().update(
                id as int,
                self.headers()[id as int],
            ));
            self.lemma_untouched_queue_coherence(old(self), id);
        }
    }

    /// Queue coherence carries over when only the header at `id` changed,
    /// the queue did not, and the change kept `id`'s side of the
    /// queue-membership equivalence.
    proof fn lemma_untouched_queue_coherence(&self, prev: &Scheduler, id: usize)
        requires
            prev.wf(),
            id < prev.task_count(),
            self.task_count() == prev.task_count(),
            self.queue_entries() == prev.queue_entries(),
            forall|k: int|
                0 <= k < prev.task_count() && k != id ==> self.headers()[k] == prev.headers()[k],
            (self.headers()[id as int].state is Scheduled) == (prev.headers()[id as int].state
                is Scheduled),
        ensures
            forall|oid: usize|
                oid < self.task_count() ==> ((#[trigger] self.headers()[oid as int]).state
                    is Scheduled <==> self.in_queue(oid)),
    {
        assert forall|oid: usize| oid < self.task_count() implies ((
        #[trigger] self.headers()[oid as int]).state is Scheduled <==> self.in_queue(oid)) by {
            if oid != id {
                assert(self.headers()[oid as int] == prev.headers()[oid as int]);
            }
            assert(prev.in_queue(oid) <==> self.in_queue(oid));
        }
    }
}

/// Whether `id` names a task whose count can still grow, so a wake of it is
/// performed rather than dropped.
pub open spec fn can_wake(s: Scheduler, id: usize) -> bool {
    id < s.task_count() && s.headers()[id as int].refs < u64::MAX
}

/// The exact effect of one wake of `id` on its own thread: an `Idle` task
/// joins the queue once with one more reference, a task already scheduled or
/// running is only marked, and a finished task ignores the wake.
pub open spec fn wake_effect(pre: Scheduler, post: Scheduler, id: usize) -> bool {
    &&& id < pre.task_count()
    &&& post.task_count() == pre.task_count()
    &&& forall|k: int| 0 <= k < pre.task_count() && k != id ==> post.headers()[k] == pre.headers()[k]
    &&& (pre.headers()[id as int].state is Idle ==> {
        &&& post.queue_entries() == pre.queue_entries().push(id)
        &&& post.headers()[id as int] == (TaskHeader {
            state: TaskState::Scheduled,
            refs: (pre.headers()[id as int].refs + 1) as u64,
            ..pre.headers()[id as int]
        })
    })
    &&& ((pre.headers()[id as int].state is Scheduled || pre.headers()[id as int].state is Running)
        ==> {
        &&& post.queue_entries() == pre.queue_entries()
        &&& post.headers()[id as int] == (TaskHeader {
            wake_pending: true,
            ..pre.headers()[id as int]
        })
    })
    &&& ((pre.headers()[id as int].state is Completed || pre.headers()[id as int].state
        is Canceled) ==> post == pre)
}

/// How one header may differ after wakes alone: untouched, marked pending,
/// or moved from idle to scheduled with the queue's reference, possibly
/// marked pending by a later wake.
pub open spec fn woken_header(pre: TaskHeader, post: TaskHeader) -> bool {
    ||| post == pre
    ||| ((pre.state is Scheduled || pre.state is Running) && post == (TaskHeader {
        wake_pending: true,
        ..pre
    }))
    ||| (pre.state is Idle && post == (TaskHeader {
        state: TaskState::Scheduled,
        refs: (pre.refs + 1) as u64,
        ..pre
    }))
    ||| (pre.state is Idle && post == (TaskHeader {
        state: TaskState::Scheduled,
        refs: (pre.refs + 1) as u64,
        wake_pending: true,
        ..pre
    }))
}

/// A wake of `id` performed when its count can grow, and dropped otherwise.
pub open spec fn wake_attempt(pre: Scheduler, post: Scheduler, id: usize) -> bool {
    if can_wake(pre, id) {
        wake_effect(pre, post, id)
    } else {
        post == pre
    }
}

/// A task stands in the run queue at most once per wake cycle: two distinct
/// queue positions never name the same task, because wakes that arrive while
/// it is already scheduled or running only mark it.
pub proof fn lemma_enqueued_at_most_once(s: &Scheduler, i: int, j: int)
    requires
        s.wf(),
        0 <= i < j < s.queue_entries().len(),
    ensures
        s.queue_entries()[i] != s.queue_entries()[j],
{
}

} // verus!
