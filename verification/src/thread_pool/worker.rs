//! One worker: an OS thread running a run-loop that takes tasks off the
//! shared queue, tracks its busy bit, and records a panicking bit if a task
//! unwinds.

use vstd::prelude::*;
use std::sync::Arc;
use crate::queue::recv_msg;
use crate::thread_pool::state::State;
use crate::thread_pool::state::state_cell::PanicGuard;
use crate::thread_pool::MAX_THREADS;

verus! {

/// A queued unit of work: either a job to run, or the sentinel that asks
/// the receiving worker to terminate.
pub enum Task {
    /// Run the contained job.
    New(Job),
    /// Terminate the receiving worker.
    Break,
}

/// A boxed one-shot callable, opaque to the verifier.
#[verifier::external_body]
pub struct Job {
    inner: Box<dyn FnOnce() + Send + 'static>,
}

impl Job {
    /// Relies on `Box::new` over an unsized callable: boxing `f` moves it
    /// to the heap unchanged, so running the box runs `f` once.
    #[verifier::external_body]
    pub(crate) fn new<F: FnOnce() + Send + 'static>(f: F) -> Job
        requires
            f.requires(()),
    {
        Job { inner: Box::new(f) }
    }

    /// Relies on the `FnOnce` call through `Box`: invokes the boxed
    /// callable exactly once, for its side effects alone.
    #[verifier::external_body]
    pub(crate) fn run(self) {
        (self.inner)()
    }
}

/// One spawned worker. No join handle is retained: the pool quiesces
/// workers through the exit sentinels, never by joining.
pub(crate) struct Worker;

impl Worker {
    /// Spawns the worker's thread; returns as soon as the thread exists,
    /// without waiting for it to reach its run-loop.
    pub(crate) fn new(
        receiver: crossbeam_channel::Receiver<Task>,
        id: usize,
        state: Arc<State>,
    ) -> Worker
        requires
            id < MAX_THREADS,
    {
        let bit_id: u64 = 1u64 << id;
        spawn_detached(id, move || {
            worker_loop(receiver, bit_id, state);
        });
        Worker {}
    }
}

/// Relies on `jod_thread::Builder` (`name`, `spawn`) and
/// `jod_thread::JoinHandle::detach`: runs `f` exactly once, to completion
/// or to panic, on a newly spawned OS thread named after the worker for
/// debuggability; the detached handle is dropped, so the call returns as
/// soon as the thread exists. A host that refuses to spawn a thread panics
/// here, which the pool treats as fatal.
#[verifier::external_body]
fn spawn_detached<F: FnOnce() + Send + 'static>(id: usize, f: F)
    requires
        f.requires(()),
{
    let handle = jod_thread::Builder::new()
        .name(format!("ThreadPool - Worker {id}"))
        .spawn(f)
        .expect("failed to spawn a worker thread");
    let _ = handle.detach();
}

/// The run-loop: block on the queue; on a job, set the busy bit, run it
/// under an armed panic guard, clear the bit; on the exit sentinel, or once
/// the sending endpoint is gone, terminate. A panicking job unwinds this
/// loop: the guard records the panicking bit on the way out, the busy bit
/// stays set, and the worker is not replaced.
fn worker_loop(receiver: crossbeam_channel::Receiver<Task>, bit_id: u64, state: Arc<State>) {
    // The verifier asks every loop for a decreasing measure. This budget
    // outlasts any practical workload — at one task per nanosecond it takes
    // five centuries to spend — so the worker in effect serves until told
    // to exit.
    let mut budget: u64 = u64::MAX;
    while budget > 0
        decreases budget,
    {
        budget = budget - 1;
        let task = recv_msg(&receiver);
        match task {
            Some(Task::New(job)) => {
                state.busy.add(bit_id);
                let mut guard = PanicGuard { armed: true, bit_id, state: state.clone() };
                job.run();
                guard.armed = false;
                state.busy.remove(bit_id);
            },
            Some(Task::Break) => {
                break;
            },
            None => {
                break;
            },
        }
    }
}

} // verus!
