//! The readiness driver, the fallback engine: per-fd interest records with
//! at most one reader waker and one writer waker each. The socket layer
//! registers a record and keeps its token; on a readiness edge the recorded
//! wakers fire and clear, and the syscall is performed by the waking task.
//! Because the syscall is synchronous, a buffer is only borrowed across it;
//! dropping an operation before readiness merely clears the waker.

use vstd::prelude::*;
use crate::task::{wake_attempt, woken_header, Scheduler};

verus! {

/// One registered file descriptor: its number and the tasks waiting for it
/// to become readable or writable.
#[derive(Clone, Copy, Debug, PartialEq, Eq, Structural)]
pub struct FdInterest {
    /// The file descriptor.
    pub fd: i32,
    /// The task waiting to read, if any.
    pub reader: Option<usize>,
    /// The task waiting to write, if any.
    pub writer: Option<usize>,
}

/// The readiness driver's interest table. A token is an index; a
/// deregistered record is `None` and may be reused.
pub struct ReadinessDriver {
    io: Vec<Option<FdInterest>>,
}

impl ReadinessDriver {
    /// The interest records, indexed by token.
    pub closed spec fn records(&self) -> Seq<Option<FdInterest>> {
        self.io@
    }

    /// Whether `token` names a registered fd.
    pub open spec fn registered(&self, token: int) -> bool {
        0 <= token < self.records().len() && self.records()[token] is Some
    }

    /// An empty interest table.
    pub fn new() -> (d: ReadinessDriver)
        ensures
            d.records() == Seq::<Option<FdInterest>>::empty(),
    {
        ReadinessDriver { io: Vec::new() }
    }

    /// Register interest in `fd` with no waiters yet; the returned token is
    /// the first free index, or a new one past the end.
    #[verifier::loop_isolation(false)]
    pub fn register(&mut self, fd: i32) -> (token: usize)
        requires
            old(self).records().len() < usize::MAX,
        ensures
            token < final(self).records().len(),
            !old(self).registered(token as int),
            final(self).registered(token as int),
            final(self).records()[token as int] == Some(
                FdInterest { fd, reader: None, writer: None },
            ),
            forall|t: int|
                0 <= t < old(self).records().len() && t != token ==> final(self).records()[t]
                    == old(self).records()[t],
            final(self).records().len() == old(self).records().len() || (final(self).records().len()
                == old(self).records().len() + 1 && token == old(self).records().len()),
    {
        let fresh = FdInterest { fd, reader: None, writer: None };
        let n = self.io.len();
        let mut i: usize = 0;
        while i < n
            invariant
                i <= n,
                n == self.records().len(),
                *self == *old(self),
                forall|t: int| 0 <= t < i ==> old(self).records()[t] is Some,
            decreases n - i,
        {
            if self.io[i].is_none() {
                self.io[i] = Some(fresh);
                proof {
                    assert(self.records() =~= old(self).records().update(i as int, Some(fresh)));
                }
                return i;
            }
            i += 1;
        }
        self.io.push(Some(fresh));
        n
    }

    /// Record `task` as the one waiting for `token`'s fd to become readable.
    pub fn set_reader(&mut self, token: usize, task: usize)
        requires
            old(self).registered(token as int),
        ensures
            final(self).records() == old(self).records().update(
                token as int,
                Some(FdInterest { reader: Some(task), ..old(self).records()[token as int].unwrap() }),
            ),
    {
        let rec = self.io[token].unwrap();
        self.io[token] = Some(FdInterest { reader: Some(task), ..rec });
        proof {
            assert(self.records() =~= old(self).records().update(
                token as int,
                self.records()[token as int],
            ));
        }
    }

    /// Record `task` as the one waiting for `token`'s fd to become writable.
    pub fn set_writer(&mut self, token: usize, task: usize)
        requires
            old(self).registered(token as int),
        ensures
            final(self).records() == old(self).records().update(
                token as int,
                Some(FdInterest { writer: Some(task), ..old(self).records()[token as int].unwrap() }),
            ),
    {
        let rec = self.io[token].unwrap();
        self.io[token] = Some(FdInterest { writer: Some(task), ..rec });
        proof {
            assert(self.records() =~= old(self).records().update(
                token as int,
                self.records()[token as int],
            ));
        }
    }

    /// Drop interest before readiness: the record goes, nothing is woken,
    /// and the token is free for reuse.
    pub fn deregister(&mut self, token: usize)
        requires
            old(self).registered(token as int),
        ensures
            final(self).records() == old(self).records().update(token as int, None),
            !final(self).registered(token as int),
    {
        self.io[token] = None;
        proof {
            assert(self.records() =~= old(self).records().update(token as int, None));
        }
    }

    /// A readiness edge on `token`'s fd: the matching wakers fire and clear,
    /// re-arming implicitly for the next edge. Ids that name no live task
    /// are dropped; waking follows the local wake rules, so a task already
    /// scheduled is not enqueued again.
    pub fn on_ready(&mut self, sched: &mut Scheduler, token: usize, readable: bool, writable: bool)
        requires
            old(self).registered(token as int),
            old(sched).wf(),
        ensures
            final(sched).wf(),
            final(sched).task_count() == old(sched).task_count(),
            old(sched).queue_entries().is_prefix_of(final(sched).queue_entries()),
            forall|k: int|
                0 <= k < old(sched).task_count() ==> woken_header(
                    old(sched).headers()[k],
                    #[trigger] final(sched).headers()[k],
                ),
            ({
                let rec = old(self).records()[token as int].unwrap();
                let rd = if readable {
                    rec.reader
                } else {
                    Option::<usize>::None
                };
                let wr = if writable {
                    rec.writer
                } else {
                    Option::<usize>::None
                };
                &&& (rd is None && wr is None ==> *final(sched) == *old(sched))
                &&& (rd is Some && wr is None ==> wake_attempt(
                    *old(sched),
                    *final(sched),
                    rd.unwrap(),
                ))
                &&& (rd is None && wr is Some ==> wake_attempt(
                    *old(sched),
                    *final(sched),
                    wr.unwrap(),
                ))
            }),
            final(self).records() == old(self).records().update(
                token as int,
                Some(FdInterest {
                    reader: if readable {
                        None
                    } else {
                        old(self).records()[token as int].unwrap().reader
                    },
                    writer: if writable {
                        None
                    } else {
                        old(self).records()[token as int].unwrap().writer
                    },
                    ..old(self).records()[token as int].unwrap()
                }),
            ),
    {
        let rec = self.io[token].unwrap();
        let mut reader = rec.reader;
        let mut writer = rec.writer;
        if readable {
            if let Some(id) = reader {
                self.wake_checked(sched, id);
            }
            reader = None;
        }
        if writable {
            if let Some(id) = writer {
                self.wake_checked(sched, id);
            }
            writer = None;
        }
        self.io[token] = Some(FdInterest { fd: rec.fd, reader, writer });
        proof {
            assert(self.records() =~= old(self).records().update(
                token as int,
                self.records()[token as int],
            ));
        }
    }

    /// Wake `id` when it names a task whose count can grow, and drop the
    /// wake otherwise; the queue only grows at the back.
    fn wake_checked(&self, sched: &mut Scheduler, id: usize)
        requires
            old(sched).wf(),
        ensures
            final(sched).wf(),
            final(sched).task_count() == old(sched).task_count(),
            old(sched).queue_entries().is_prefix_of(final(sched).queue_entries()),
            wake_attempt(*old(sched), *final(sched), id),
            forall|k: int|
                0 <= k < old(sched).task_count() ==> woken_header(
                    old(sched).headers()[k],
                    #[trigger] final(sched).headers()[k],
                ),
    {
        if id < sched.num_tasks() {
            let h = sched.header(id);
            if h.refs < u64::MAX {
                sched.wake(id);
            }
        }
    }
}

} // verus!
