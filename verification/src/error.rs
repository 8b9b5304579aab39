//! The error a pool constructor returns when no pool can be built: either the
//! requested size was zero, or the operating system refused to spawn a worker
//! thread. Both carry a human-readable message; the spawn failure also names
//! the worker whose thread could not be started.

use vstd::prelude::*;

verus! {

/// Why pool construction failed.
#[derive(Clone, Copy, Debug, PartialEq, Eq, Structural)]
pub enum PoolErrorKind {
    /// A pool of size zero was requested.
    InvalidSize,
    /// The operating system refused to create the thread for one worker.
    WorkerSpawnFailure,
}

/// The message carried when a pool of size zero is requested.
pub open spec fn invalid_size_msg() -> Seq<char> {
    "Pool size has to be greater than 0"@
}

/// The prefix of the message carried when a worker thread cannot be spawned;
/// the rest of the message is the underlying failure's own description.
pub open spec fn spawn_failure_prefix() -> Seq<char> {
    "Cannot create pool worker: "@
}

/// Why pool construction failed, with a human-readable message.
#[derive(Debug)]
pub struct PoolCreationError {
    /// Which construction step failed.
    pub kind: PoolErrorKind,
    /// A description of the failure.
    pub msg: String,
    /// For a spawn failure, the id of the worker whose thread was refused.
    pub worker_id: Option<usize>,
}

impl PoolCreationError {
    /// The error for a requested pool size of zero.
    pub fn invalid_size() -> (e: PoolCreationError)
        ensures
            e.kind == PoolErrorKind::InvalidSize,
            e.msg@ == invalid_size_msg(),
            e.worker_id is None,
    {
        PoolCreationError {
            kind: PoolErrorKind::InvalidSize,
            msg: String::from_str("Pool size has to be greater than 0"),
            worker_id: None,
        }
    }

    /// The error for a worker whose thread the operating system refused to
    /// create; `detail` is the underlying failure's description.
    pub fn worker_spawn_failure(id: usize, detail: &str) -> (e: PoolCreationError)
        ensures
            e.kind == PoolErrorKind::WorkerSpawnFailure,
            e.msg@ == spawn_failure_prefix() + detail@,
            e.worker_id == Some(id),
    {
        PoolCreationError {
            kind: PoolErrorKind::WorkerSpawnFailure,
            msg: String::from_str("Cannot create pool worker: ").concat(detail),
            worker_id: Some(id),
        }
    }

    /// The descriptive message.
    pub fn message(&self) -> (m: &str)
        ensures
            m@ == self.msg@,
    {
        self.msg.as_str()
    }
}

} // verus!
