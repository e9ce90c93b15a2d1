//! The pool: owns the worker set, the producing queue endpoint, the
//! declared capacity, and the shared telemetry state.

use vstd::prelude::*;
use std::sync::Arc;
use crate::queue::channel_endpoints;
use crate::queue::clone_receiver;
use crate::queue::send_exit;
use crate::queue::send_job;
use crate::utils::optimal_number_of_threads;
use crate::utils::suggested_threads;
use crate::utils::MINIMAL_NUMBER_OF_THREADS;
use self::state::State;
use self::worker::Job;
use self::worker::Task;
use self::worker::Worker;

pub mod state;
pub mod worker;

verus! {

/// Max number of threads supported: the bit width of one state word.
pub const MAX_THREADS: usize = 64;

/// A fixed-capacity worker pool. Exactly `capacity` workers exist for the
/// pool's whole lifetime; submitted jobs are executed by any one of them.
pub struct ThreadPool {
    _workers: Vec<Worker>,
    sender: crossbeam_channel::Sender<Task>,
    capacity: usize,
    state: Arc<State>,
}

impl ThreadPool {
    /// The declared capacity, as a spec value.
    pub closed spec fn spec_capacity(&self) -> usize {
        self.capacity
    }

    /// How many workers the pool owns, as a spec value. Workers are created
    /// only by the constructor and destroyed only with the pool.
    pub closed spec fn spec_worker_count(&self) -> nat {
        self._workers@.len()
    }

    /// A pool with `capacity = clamp(logical cores - 1)`: at least
    /// `MINIMAL_NUMBER_OF_THREADS`, at most `MAX_THREADS`.
    pub fn new() -> (pool: Self)
        ensures
            MINIMAL_NUMBER_OF_THREADS <= pool.spec_capacity() <= MAX_THREADS,
            pool.spec_worker_count() == pool.spec_capacity(),
            exists|available: int|
                0 <= available && pool.spec_capacity() == #[trigger] suggested_threads(
                    u16::MAX as int,
                    available,
                ),
    {
        Self::with_capacity(optimal_number_of_threads(u16::MAX as usize))
    }

    /// A pool with a caller-chosen capacity, up to `MAX_THREADS`. Spawns
    /// `capacity` workers with ids `0 .. capacity`. The bound on
    /// `capacity` is a verified precondition, not a runtime check: callers
    /// outside the verifier's reach must respect it themselves.
    pub fn with_capacity(capacity: usize) -> (pool: Self)
        requires
            capacity <= MAX_THREADS,
        ensures
            pool.spec_capacity() == capacity,
            pool.spec_worker_count() == capacity,
    {
        let mut workers: Vec<Worker> = Vec::new();
        let (sender, receiver) = channel_endpoints::<Task>();
        let state = Arc::new(State::new());

        let mut id: usize = 0;
        while id < capacity
            invariant
                id <= capacity,
                capacity <= MAX_THREADS,
                workers@.len() == id,
            decreases capacity - id,
        {
            workers.push(Worker::new(clone_receiver(&receiver), id, state.clone()));
            id = id + 1;
        }

        ThreadPool { _workers: workers, sender, capacity, state }
    }

    /// The declared capacity.
    pub fn capacity(&self) -> (c: usize)
        ensures
            c == self.spec_capacity(),
    {
        self.capacity
    }

    /// Enqueues `f` to be executed by some worker. Never blocks: the queue
    /// is unbounded. A failed send — possible only once every worker has
    /// terminated — is a programmer error and fatal, as for the trusted
    /// sender behind this call.
    pub fn execute<F: FnOnce() + Send + 'static>(&self, f: F)
        requires
            f.requires(()),
    {
        send_job(&self.sender, Task::New(Job::new(f)));
    }

    /// The range of worker ids, `0 .. capacity`, yielded in order.
    pub fn iter(&self) -> (r: std::ops::Range<usize>)
        ensures
            r.start == 0,
            r.end == self.spec_capacity(),
    {
        0..self.capacity
    }

    /// Consumes the pool. Does not actually join any thread: dropping the
    /// pool enqueues the exit sentinels and returns at once.
    pub fn join(self) {
    }

    /// The number of worker slots whose task has ever panicked. Never
    /// decreasing: see `bitmap::lemma_set_monotone`.
    pub fn check_panics(&self) -> (n: usize)
        ensures
            n <= MAX_THREADS,
    {
        self.state.panicking.count()
    }

    /// The number of workers currently executing a task, as advisory
    /// telemetry: relaxed reads may lag the true state.
    pub fn check_busy(&self) -> (n: usize)
        ensures
            n <= MAX_THREADS,
    {
        self.state.busy.count()
    }
}

impl Drop for ThreadPool {
    /// Sends exactly `capacity` exit sentinels, one per worker slot, and
    /// returns without waiting on any worker.
    fn drop(&mut self)
        opens_invariants none
        no_unwind
    {
        let mut sent: usize = 0;
        while sent < self.capacity
            decreases self.capacity - sent,
        {
            send_exit(&self.sender, Task::Break);
            sent = sent + 1;
        }
    }
}

impl Default for ThreadPool {
    /// Same pool as `new`.
    fn default() -> (pool: Self)
        ensures
            MINIMAL_NUMBER_OF_THREADS <= pool.spec_capacity() <= MAX_THREADS,
            pool.spec_worker_count() == pool.spec_capacity(),
    {
        Self::new()
    }
}

} // verus!
