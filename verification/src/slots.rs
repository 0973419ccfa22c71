//! The completion driver's slot table: one record per in-flight operation,
//! keyed by a dense cookie. A slot pins the owned buffer for the kernel,
//! remembers the waker to invoke, and holds the result cell. Dropping the
//! operation future before completion orphans the slot: the buffer stays
//! alive until the completion arrives, and then slot and buffer go together.

use vstd::prelude::*;
use crate::buf::OwnedBuf;
use crate::async_read_rent::IoError;

verus! {

/// One in-flight operation: the pinned buffer, the task to wake, the result
/// cell, and the orphan mark set when the operation future was dropped.
pub struct OpSlot {
    /// The buffer the kernel may still write into.
    pub buffer: OwnedBuf,
    /// The task whose waker fires on completion.
    pub waker_task: usize,
    /// The kernel's result, once reaped: byte count when nonnegative, a
    /// negated error number otherwise.
    pub result: Option<i32>,
    /// The operation future is gone; free buffer and slot at completion.
    pub orphan: bool,
}

/// The table of in-flight operations. A cookie is an index; a freed slot is
/// `None` and may be reused by a later operation.
pub struct SlotTable {
    slots: Vec<Option<OpSlot>>,
}

impl SlotTable {
    /// The slots, indexed by cookie.
    pub closed spec fn entries(&self) -> Seq<Option<OpSlot>> {
        self.slots@
    }

    /// Whether `cookie` names an in-flight operation.
    pub open spec fn live(&self, cookie: int) -> bool {
        0 <= cookie < self.entries().len() && self.entries()[cookie] is Some
    }

    /// Every pinned buffer is well formed, and no slot lingers after both
    /// its completion arrived and its future was dropped.
    pub open spec fn wf(&self) -> bool {
        forall|c: int| self.live(c) ==> {
            &&& (#[trigger] self.entries()[c]).unwrap().buffer.wf()
            &&& !(self.entries()[c].unwrap().orphan && self.entries()[c].unwrap().result is Some)
        }
    }

    /// An empty table.
    pub fn new() -> (t: SlotTable)
        ensures
            t.wf(),
            t.entries() == Seq::<Option<OpSlot>>::empty(),
    {
        SlotTable { slots: Vec::new() }
    }

    /// Number of slots, live or free.
    pub fn capacity(&self) -> (n: usize)
        ensures
            n == self.entries().len(),
    {
        self.slots.len()
    }

    /// Whether `cookie` names an in-flight operation.
    pub fn is_live(&self, cookie: usize) -> (b: bool)
        ensures
            b == self.live(cookie as int),
    {
        cookie < self.slots.len() && self.slots[cookie].is_some()
    }

    /// Pin `buffer` into a fresh slot for an operation woken through task
    /// `waker_task`; the returned cookie is the first free index, or a new
    /// one past the end.
    #[verifier::loop_isolation(false)]
    pub fn pin_op(&mut self, buffer: OwnedBuf, waker_task: usize) -> (cookie: usize)
        requires
            old(self).wf(),
            buffer.wf(),
            old(self).entries().len() < usize::MAX,
        ensures
            final(self).wf(),
            cookie < final(self).entries().len(),
            !old(self).live(cookie as int),
            final(self).live(cookie as int),
            final(self).entries()[cookie as int] == Some(
                OpSlot { buffer, waker_task, result: None, orphan: false },
            ),
            forall|c: int|
                0 <= c < old(self).entries().len() && c != cookie ==> final(self).entries()[c]
                    == old(self).entries()[c],
            final(self).entries().len() == old(self).entries().len() || (final(self).entries().len()
                == old(self).entries().len() + 1 && cookie == old(self).entries().len()),
    {
        let ghost buffer0 = buffer;
        let fresh = OpSlot { buffer, waker_task, result: None, orphan: false };
        let ghost fresh0 = fresh;
        proof {
            assert(fresh0 == OpSlot {
                buffer: buffer0,
                waker_task,
                result: None,
                orphan: false,
            });
        }
        let n = self.slots.len();
        let mut i: usize = 0;
        while i < n
            invariant
                i <= n,
                n == self.entries().len(),
                *self == *old(self),
                forall|c: int| 0 <= c < i ==> old(self).entries()[c] is Some,
            decreases n - i,
        {
            if self.slots[i].is_none() {
                self.slots[i] = Some(fresh);
                proof {
                    assert(self.entries() =~= old(self).entries().update(i as int, Some(fresh0)));
                    assert forall|c: int| self.live(c) implies {
                        &&& (#[trigger] self.entries()[c]).unwrap().buffer.wf()
                        &&& !(self.entries()[c].unwrap().orphan && self.entries()[c].unwrap().result
                            is Some)
                    } by {
                        if c != i {
                            assert(self.entries()[c] == old(self).entries()[c]);
                            assert(old(self).live(c));
                        }
                    }
                }
                return i;
            }
            i += 1;
        }
        self.slots.push(Some(fresh));
        proof {
            assert forall|c: int| self.live(c) implies {
                &&& (#[trigger] self.entries()[c]).unwrap().buffer.wf()
                &&& !(self.entries()[c].unwrap().orphan && self.entries()[c].unwrap().result
                    is Some)
            } by {
                if c != n {
                    assert(self.entries()[c] == old(self).entries()[c]);
                    assert(old(self).live(c));
                }
            }
        }
        n
    }

    /// Deliver the kernel's completion for `cookie`. For a live operation
    /// the result is stored and the task to wake is handed back; for an
    /// orphaned one the slot and its buffer are freed on the spot and nobody
    /// is woken.
    pub fn complete(&mut self, cookie: usize, res: i32) -> (wake: Option<usize>)
        requires
            old(self).wf(),
            old(self).live(cookie as int),
            old(self).entries()[cookie as int].unwrap().result is None,
        ensures
            final(self).wf(),
            final(self).entries().len() == old(self).entries().len(),
            forall|c: int|
                0 <= c < old(self).entries().len() && c != cookie ==> final(self).entries()[c]
                    == old(self).entries()[c],
            old(self).entries()[cookie as int].unwrap().orphan ==> {
                &&& final(self).entries()[cookie as int] is None
                &&& wake is None
            },
            !old(self).entries()[cookie as int].unwrap().orphan ==> {
                &&& final(self).entries()[cookie as int] == Some(
                    OpSlot {
                        result: Some(res),
                        ..old(self).entries()[cookie as int].unwrap()
                    },
                )
                &&& wake == Some(old(self).entries()[cookie as int].unwrap().waker_task)
            },
    {
        let slot = self.slots.remove(cookie);
        let s = slot.unwrap();
        if s.orphan {
            self.slots.insert(cookie, None);
            proof {
                assert(self.entries() =~= old(self).entries().update(cookie as int, None));
            }
            None
        } else {
            let waker_task = s.waker_task;
            self.slots.insert(
                cookie,
                Some(OpSlot { result: Some(res), ..s }),
            );
            proof {
                assert(self.entries() =~= old(self).entries().update(
                    cookie as int,
                    self.entries()[cookie as int],
                ));
            }
            Some(waker_task)
        }
    }

    /// The operation future was dropped before its completion was taken. If
    /// the completion already arrived the slot and buffer go now; otherwise
    /// the slot is marked orphan and the buffer stays pinned for the kernel.
    pub fn drop_op(&mut self, cookie: usize)
        requires
            old(self).wf(),
            old(self).live(cookie as int),
            !old(self).entries()[cookie as int].unwrap().orphan,
        ensures
            final(self).wf(),
            final(self).entries().len() == old(self).entries().len(),
            forall|c: int|
                0 <= c < old(self).entries().len() && c != cookie ==> final(self).entries()[c]
                    == old(self).entries()[c],
            old(self).entries()[cookie as int].unwrap().result is Some
                ==> final(self).entries()[cookie as int] is None,
            old(self).entries()[cookie as int].unwrap().result is None
                ==> final(self).entries()[cookie as int] == Some(
                OpSlot { orphan: true, ..old(self).entries()[cookie as int].unwrap() },
            ),
    {
        let slot = self.slots.remove(cookie);
        let s = slot.unwrap();
        if s.result.is_some() {
            self.slots.insert(cookie, None);
            proof {
                assert(self.entries() =~= old(self).entries().update(cookie as int, None));
            }
        } else {
            self.slots.insert(cookie, Some(OpSlot { orphan: true, ..s }));
            proof {
                assert(self.entries() =~= old(self).entries().update(
                    cookie as int,
                    self.entries()[cookie as int],
                ));
            }
        }
    }

    /// Move the result and the pinned buffer out to the caller and free the
    /// slot: the buffer is handed back exactly once, with the completion it
    /// belongs to. A nonnegative kernel result is a byte count; a negative
    /// one comes back as the error, with the buffer unchanged either way.
    pub fn take_result(&mut self, cookie: usize) -> (r: (Result<usize, IoError>, OwnedBuf))
        requires
            old(self).wf(),
            old(self).live(cookie as int),
            !old(self).entries()[cookie as int].unwrap().orphan,
            old(self).entries()[cookie as int].unwrap().result is Some,
            old(self).entries()[cookie as int].unwrap().result.unwrap() > i32::MIN,
        ensures
            final(self).wf(),
            final(self).entries().len() == old(self).entries().len(),
            final(self).entries()[cookie as int] is None,
            forall|c: int|
                0 <= c < old(self).entries().len() && c != cookie ==> final(self).entries()[c]
                    == old(self).entries()[c],
            r.1 == old(self).entries()[cookie as int].unwrap().buffer,
            ({
                let res = old(self).entries()[cookie as int].unwrap().result.unwrap();
                &&& res >= 0 ==> r.0 == Ok::<usize, IoError>(res as usize)
                &&& res < 0 ==> r.0 == Err::<usize, IoError>(IoError { code: (-res) as i32 })
            }),
    {
        let slot = self.slots.remove(cookie);
        self.slots.insert(cookie, None);
        let s = slot.unwrap();
        proof {
            assert(self.entries() =~= old(self).entries().update(cookie as int, None));
        }
        let res = s.result.unwrap();
        if res >= 0 {
            (Ok(res as usize), s.buffer)
        } else {
            (Err(IoError { code: -res }), s.buffer)
        }
    }
}

} // verus!
