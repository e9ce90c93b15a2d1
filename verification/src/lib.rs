//! A fixed-capacity worker pool: closures are queued on an unbounded FIFO
//! channel and executed by a bounded set of pre-spawned worker threads.
//! Per-worker busy / panicking flags are packed into atomic bitmaps.

pub mod bitmap;
mod queue;
pub mod thread_pool;
pub mod utils;

pub use thread_pool::ThreadPool;
