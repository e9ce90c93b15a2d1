//! Choice of a worker count from the host's logical core count: one core is
//! left for the submitter, and the result is clamped to the supported range.

use vstd::prelude::*;
use crate::thread_pool::MAX_THREADS;

verus! {

/// Smallest capacity ever suggested: two workers, even on a single core.
pub const MINIMAL_NUMBER_OF_THREADS: usize = 2;

/// The suggested worker count for `capacity` requested slots when
/// `available` cores are free for workers: their minimum, clamped to
/// `[MINIMAL_NUMBER_OF_THREADS, MAX_THREADS]`.
pub open spec fn suggested_threads(capacity: int, available: int) -> int {
    let lim = if capacity <= available {
        capacity
    } else {
        available
    };
    if lim < MINIMAL_NUMBER_OF_THREADS as int {
        MINIMAL_NUMBER_OF_THREADS as int
    } else if lim <= MAX_THREADS as int {
        lim
    } else {
        MAX_THREADS as int
    }
}

/// The clamp itself, on plain values: every pair of requested capacity and
/// free core count yields the suggested count.
pub fn threads_within(capacity: usize, available: usize) -> (n: usize)
    ensures
        n == suggested_threads(capacity as int, available as int),
        MINIMAL_NUMBER_OF_THREADS <= n <= MAX_THREADS,
{
    let lim = if capacity <= available {
        capacity
    } else {
        available
    };
    if lim < MINIMAL_NUMBER_OF_THREADS {
        MINIMAL_NUMBER_OF_THREADS
    } else if lim <= MAX_THREADS {
        lim
    } else {
        MAX_THREADS
    }
}

/// Suggested worker count for up to `capacity` slots on this host: the
/// host's logical core count less one, clamped as `suggested_threads` says.
pub fn optimal_number_of_threads(capacity: usize) -> (n: usize)
    ensures
        MINIMAL_NUMBER_OF_THREADS <= n <= MAX_THREADS,
        exists|available: int|
            0 <= available && n == #[trigger] suggested_threads(capacity as int, available),
{
    let cores = logical_cores();
    let n = threads_within(capacity, cores - 1);
    proof {
        assert(n == suggested_threads(capacity as int, (cores - 1) as int));
    }
    n
}

/// On a host with a single logical core no core is left over for workers,
/// and the suggestion falls back to the minimum.
pub proof fn lemma_single_core_minimum(capacity: int)
    requires
        capacity >= 0,
    ensures
        suggested_threads(capacity, 0) == MINIMAL_NUMBER_OF_THREADS,
{
}

/// Relies on `num_cpus::get`: the host's logical core count, documented to
/// be at least 1.
#[verifier::external_body]
fn logical_cores() -> (n: usize)
    ensures
        1 <= n,
{
    num_cpus::get()
}

} // verus!
