//! One pool worker: an id and the state of its execution thread. A worker's
//! thread performs exactly one dequeue-and-execute cycle: it waits for a job
//! on the shared queue, runs it, and then returns, so each worker handles at
//! most one job during its entire lifetime.

use vstd::prelude::*;

verus! {

/// Where a worker's thread stands in its single dequeue-and-execute cycle.
///
/// Jobs are identified by their submission number: the `job` fields below
/// name the position the job had in the submission order, starting at 0.
#[derive(Clone, Copy, Debug, PartialEq, Eq, Structural)]
pub enum WorkerState {
    /// The thread waits for the queue's lock and for a job to arrive.
    Waiting,
    /// The thread has dequeued job `job` and is executing it.
    Running { job: usize },
    /// The thread has returned, after running job `job` to completion.
    Done { job: usize },
}

/// One pool-owned execution thread, identified by a small integer id that is
/// unique within its pool.
#[derive(Clone, Copy, Debug, PartialEq, Eq, Structural)]
pub struct Worker {
    /// The worker's id: its position in the pool's worker list.
    pub id: usize,
    /// Where the worker's thread stands in its consumption cycle.
    pub state: WorkerState,
}

impl Worker {
    /// The job this worker has taken off the queue, if it has taken one.
    pub open spec fn job(self) -> Option<usize> {
        match self.state {
            WorkerState::Waiting => None,
            WorkerState::Running { job } => Some(job),
            WorkerState::Done { job } => Some(job),
        }
    }

    /// Whether the worker's thread has not yet returned. A live worker keeps
    /// the queue's shared consuming end open.
    pub open spec fn alive(self) -> bool {
        !(self.state is Done)
    }

    /// A fresh worker under the given id, waiting for its first (and only)
    /// job. The embedding spawns the thread itself; a refused spawn becomes
    /// a `PoolCreationError::worker_spawn_failure` instead of a worker.
    pub fn new(id: usize) -> (w: Worker)
        ensures
            w.id == id,
            w.state == WorkerState::Waiting,
    {
        Worker { id, state: WorkerState::Waiting }
    }
}

} // verus!
