//! The pair of per-worker flag bitmaps shared by the pool and its workers.

use vstd::prelude::*;
use self::state_cell::StateCell;

pub mod state_cell;

verus! {

/// Shared telemetry: one bitmap of workers that have ever panicked, one of
/// workers currently executing a task.
pub struct State {
    /// Bit `i` is set once worker `i` has panicked; it is never cleared.
    pub panicking: StateCell,
    /// Bit `i` is set while worker `i` executes a task.
    pub busy: StateCell,
}

impl State {
    /// Fresh state: no worker busy, no worker panicked.
    pub fn new() -> State {
        State { panicking: StateCell::new(), busy: StateCell::new() }
    }
}

} // verus!
