//! A fixed-size worker pool: a bounded set of background workers that consume
//! units of work (jobs) from one shared FIFO queue, each running the single
//! job it dequeues to completion.
//!
//! The library models the pool's lifecycle and job-dispatch mechanism as a
//! state machine over plain values: pool construction with a fixed worker
//! count, job submission to the shared queue, a worker's dequeue of the front
//! job, and the job's run to completion. The contracts pin down the dispatch
//! guarantees: every submitted job is delivered to exactly one worker, in
//! FIFO order, and none is duplicated or lost while the queue stays open.
//! An embedding that runs real operating-system threads performs the spawn,
//! send and receive steps and drives this model for every decision.

mod error;
mod pool;
mod worker;

pub use error::PoolCreationError;
pub use error::PoolErrorKind;
pub use error::invalid_size_msg;
pub use error::spawn_failure_prefix;
pub use pool::ThreadPool;
pub use pool::count_matching;
pub use pool::done_count;
pub use pool::holding_count;
pub use pool::running_count;
pub use worker::Worker;
pub use worker::WorkerState;
