//! A single atomic word read as a bitmap of per-worker flags.

use vstd::prelude::*;
use std::sync::atomic::AtomicU64;
use std::sync::atomic::Ordering;
use std::sync::Arc;
use crate::bitmap::popcount64;
use crate::thread_pool::state::State;
use crate::thread_pool::MAX_THREADS;

verus! {

/// An atomic bitmap of at least `MAX_THREADS` bits, indexed by worker id.
/// All operations use relaxed ordering: the flags are advisory telemetry
/// and take part in no synchronisation.
pub struct StateCell(AtomicU64);

impl StateCell {
    /// A fresh cell with every flag clear.
    pub fn new() -> StateCell {
        StateCell(AtomicU64::new(0))
    }

    /// Atomically OR the mask `bit` into the word, setting its flags.
    /// Setting is idempotent: see `bitmap::lemma_set_idempotent`.
    pub fn add(&self, bit: u64) {
        self.0.fetch_or(bit, Ordering::Relaxed);
    }

    /// Atomically AND the negated mask `bit` into the word, clearing its
    /// flags. Clearing is idempotent: see `bitmap::lemma_clear_idempotent`.
    pub fn remove(&self, bit: u64) {
        self.0.fetch_and(!bit, Ordering::Relaxed);
    }

    /// Population count of the word as currently loaded: the number of
    /// flags set at the moment of the read. Each worker's one-hot mask
    /// contributes at most one (see `bitmap::lemma_one_hot_mask` and
    /// `bitmap::lemma_popcount_disjoint`). Concurrent writers may change
    /// the word at any time, so only the width bound can be promised.
    pub fn count(&self) -> (c: usize)
        ensures
            c <= MAX_THREADS,
    {
        popcount64(self.read_relax()) as usize
    }

    /// Relaxed load of the raw word.
    fn read_relax(&self) -> u64 {
        self.0.load(Ordering::Relaxed)
    }
}

/// Records a panic flag when dropped while still armed. A worker arms one
/// of these around each task; ordinary completion disarms it, so only an
/// unwinding task leaves it armed and marks the worker's panicking bit.
pub(crate) struct PanicGuard {
    pub(crate) armed: bool,
    pub(crate) bit_id: u64,
    pub(crate) state: Arc<State>,
}

impl Drop for PanicGuard {
    /// Records the worker's panicking bit if the guard is still armed:
    /// ordinary completion disarms it first, so only an unwinding task
    /// reaches the recording arm.
    fn drop(&mut self)
        opens_invariants none
        no_unwind
    {
        if self.armed {
            or_mask(&self.state.panicking, self.bit_id);
        }
    }
}

/// Relies on `core::sync::atomic::AtomicU64::fetch_or`: ORs `mask` into
/// the cell's word, with a relaxed ordering; an atomic RMW cannot unwind.
/// It stands beside the verified `StateCell::add` because vstd's atomic
/// specifications carry no `no_unwind`, which `Drop` bodies must have.
#[verifier::external_body]
fn or_mask(cell: &StateCell, mask: u64)
    opens_invariants none
    no_unwind
{
    cell.0.fetch_or(mask, Ordering::Relaxed);
}

} // verus!
