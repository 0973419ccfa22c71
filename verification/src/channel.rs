//! The trusted boundary around the cross-thread wake machinery: the
//! lock-free channel (flume) that carries wake signals between threads, and
//! the hasher (fxhash) behind the per-thread endpoint caches. Everything
//! else in the crate is verified against the contracts stated here.

use vstd::prelude::*;
use std::collections::HashMap;
use std::hash::BuildHasherDefault;

verus! {

#[verifier::external_type_specification]
#[verifier::external_body]
#[verifier::reject_recursive_types(T)]
pub struct ExSender<T>(flume::Sender<T>);

#[verifier::external_type_specification]
#[verifier::external_body]
#[verifier::reject_recursive_types(T)]
pub struct ExReceiver<T>(flume::Receiver<T>);

#[verifier::external_type_specification]
#[verifier::external_body]
pub struct ExFxHasher(fxhash::FxHasher);

#[verifier::external_type_specification]
#[verifier::external_body]
#[verifier::reject_recursive_types(H)]
pub struct ExBuildHasherDefault<H>(BuildHasherDefault<H>);

/// What one attempt to take a queued message found.
pub enum TryRecvOutcome<T> {
    /// The next queued message.
    Received(T),
    /// Nothing queued right now.
    Empty,
    /// Nothing queued and every sender is gone.
    Disconnected,
}

/// What one bounded wait for a message found.
pub enum RecvWaitOutcome<T> {
    /// A message arrived within the wait.
    Received(T),
    /// The wait elapsed first.
    TimedOut,
    /// Every sender is gone.
    Disconnected,
}

/// Relies on flume::unbounded: a fresh multi-producer channel pair with no
/// capacity bound.
#[verifier::external_body]
pub(crate) fn channel_pair<T>() -> (r: (flume::Sender<T>, flume::Receiver<T>)) {
    flume::unbounded()
}

/// Relies on flume::Sender::send on an unbounded channel: the message is
/// queued unless every receiver is gone, and then it comes back unchanged.
#[verifier::external_body]
pub(crate) fn send_msg<T>(tx: &flume::Sender<T>, msg: T) -> (r: Result<(), T>)
    ensures
        match r {
            Ok(u) => u == (),
            Err(m) => m == msg,
        },
{
    match tx.send(msg) {
        Ok(()) => Ok(()),
        Err(flume::SendError(m)) => Err(m),
    }
}

/// Relies on flume::Receiver::try_recv: the next queued message without
/// blocking, or the reason there is none.
#[verifier::external_body]
pub(crate) fn try_recv_msg<T>(rx: &flume::Receiver<T>) -> (r: TryRecvOutcome<T>) {
    match rx.try_recv() {
        Ok(m) => TryRecvOutcome::Received(m),
        Err(flume::TryRecvError::Empty) => TryRecvOutcome::Empty,
        Err(flume::TryRecvError::Disconnected) => TryRecvOutcome::Disconnected,
    }
}

/// Relies on flume::Receiver::recv: blocks until a message arrives or every
/// sender is gone.
#[verifier::external_body]
pub(crate) fn recv_blocking<T>(rx: &flume::Receiver<T>) -> (r: Option<T>) {
    match rx.recv() {
        Ok(m) => Some(m),
        Err(flume::RecvError::Disconnected) => None,
    }
}

/// Relies on flume::Receiver::recv_timeout: a message, or a timeout after
/// `ms` milliseconds, or every sender gone. The wait is bounded to a day so
/// the deadline arithmetic behind the call cannot overflow and panic.
#[verifier::external_body]
pub(crate) fn recv_wait_ms<T>(rx: &flume::Receiver<T>, ms: u64) -> (r: RecvWaitOutcome<T>)
    requires
        ms <= 86_400_000,
{
    match rx.recv_timeout(std::time::Duration::from_millis(ms)) {
        Ok(m) => RecvWaitOutcome::Received(m),
        Err(flume::RecvTimeoutError::Timeout) => RecvWaitOutcome::TimedOut,
        Err(flume::RecvTimeoutError::Disconnected) => RecvWaitOutcome::Disconnected,
    }
}

/// Relies on flume::Sender::clone: another sender for the same channel.
#[verifier::external_body]
pub(crate) fn clone_sender<T>(tx: &flume::Sender<T>) -> (r: flume::Sender<T>) {
    tx.clone()
}

/// The map is empty and its hash builder fits vstd's model: any two hashers
/// it builds agree on every write sequence.
pub open spec fn fresh_fx_map<V>(m: HashMap<usize, V, fxhash::FxBuildHasher>) -> bool {
    &&& m@ == Map::<usize, V>::empty()
    &&& vstd::std_specs::hash::builds_valid_hashers::<fxhash::FxBuildHasher>()
}

/// Relies on fxhash::FxHashMap::default, a std HashMap built over FxHasher:
/// a fresh empty map. FxHasher starts from a fixed state and hashes the
/// written bytes alone, so any two hashers it builds agree, which is vstd's
/// validity model for hash builders.
#[verifier::external_body]
pub(crate) fn new_fx_map<V>() -> (m: HashMap<usize, V, fxhash::FxBuildHasher>)
    ensures
        fresh_fx_map(m),
{
    fxhash::FxHashMap::default()
}

/// A thread-safe handle that rouses a parked driver from another thread by
/// signalling its unpark channel. The owner tag records, at the spec level,
/// which thread's driver the channel end belongs to.
pub struct UnparkHandle {
    tx: flume::Sender<u8>,
    owner: Ghost<usize>,
}

impl UnparkHandle {
    /// The thread whose driver this handle rouses.
    pub closed spec fn owner(&self) -> usize {
        self.owner@
    }

    /// A handle over the sending end of the unpark channel of thread
    /// `owner`'s driver.
    pub(crate) fn over(tx: flume::Sender<u8>, owner: Ghost<usize>) -> (h: UnparkHandle)
        ensures
            h.owner() == owner@,
    {
        UnparkHandle { tx, owner }
    }

    /// Rouse the parked driver; a handle whose runtime is gone is a no-op.
    pub fn unpark(&self) {
        let _ = send_msg(&self.tx, 1u8);
    }

    /// Another handle for the same driver.
    pub fn duplicate(&self) -> (h: UnparkHandle)
        ensures
            h.owner() == self.owner(),
    {
        UnparkHandle { tx: clone_sender(&self.tx), owner: Ghost(self.owner@) }
    }
}

/// The sending end of a thread's waker channel: a wake fired on a foreign
/// thread sends the task id here, and the owning thread drains it on park.
/// The owner tag records, at the spec level, whose channel this is.
pub struct WakerSender {
    tx: flume::Sender<usize>,
    owner: Ghost<usize>,
}

impl WakerSender {
    /// The thread whose waker channel this sender feeds.
    pub closed spec fn owner(&self) -> usize {
        self.owner@
    }

    /// A sender over the waker channel of thread `owner`.
    pub(crate) fn over(tx: flume::Sender<usize>, owner: Ghost<usize>) -> (s: WakerSender)
        ensures
            s.owner() == owner@,
    {
        WakerSender { tx, owner }
    }

    /// Forward a wake of `task` to the owning thread. Returns whether the
    /// peer still listens; a vanished peer drops the wake silently.
    pub fn send_wake(&self, task: usize) -> (ok: bool) {
        match send_msg(&self.tx, task) {
            Ok(_) => true,
            Err(_) => false,
        }
    }

    /// Another sender for the same thread.
    pub fn duplicate(&self) -> (s: WakerSender)
        ensures
            s.owner() == self.owner(),
    {
        WakerSender { tx: clone_sender(&self.tx), owner: Ghost(self.owner@) }
    }
}

} // verus!
