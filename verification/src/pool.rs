//! The pool itself: a fixed, ordered collection of workers plus the shared
//! FIFO job queue, modeled as a state machine over plain values.
//!
//! Jobs carry no data here: a job is identified by its submission number, the
//! position it had in the submission order (0, 1, 2, ...). The pool tracks,
//! for every moment of its life, which jobs are still pending in the queue,
//! which worker took which job, and how many jobs have run to completion.
//! The embedding that owns the real threads performs one `take_job` when a
//! worker's thread dequeues, and one `finish_job` when the job it ran
//! returns; `execute` records a submission.

use vstd::prelude::*;

use crate::error::PoolCreationError;
use crate::error::PoolErrorKind;
use crate::error::invalid_size_msg;
use crate::worker::Worker;
use crate::worker::WorkerState;

verus! {

/// How many workers of `ws` satisfy `p`.
pub open spec fn count_matching(ws: Seq<Worker>, p: spec_fn(Worker) -> bool) -> int
    decreases ws.len(),
{
    if ws.len() == 0 {
        0
    } else {
        count_matching(ws.drop_last(), p) + if p(ws.last()) {
            1int
        } else {
            0int
        }
    }
}

/// How many of the workers hold a job: have dequeued one, finished or not.
pub open spec fn holding_count(ws: Seq<Worker>) -> int {
    count_matching(ws, |w: Worker| w.job() is Some)
}

/// How many of the workers have run their job to completion.
pub open spec fn done_count(ws: Seq<Worker>) -> int {
    count_matching(ws, |w: Worker| w.state is Done)
}

/// How many of the workers are executing a job right now.
pub open spec fn running_count(ws: Seq<Worker>) -> int {
    count_matching(ws, |w: Worker| w.state is Running)
}

proof fn lemma_count_push(ws: Seq<Worker>, p: spec_fn(Worker) -> bool, w: Worker)
    ensures
        count_matching(ws.push(w), p) == count_matching(ws, p) + if p(w) {
            1int
        } else {
            0int
        },
{
    assert(ws.push(w).drop_last() =~= ws);
}

proof fn lemma_count_update(ws: Seq<Worker>, p: spec_fn(Worker) -> bool, i: int, w: Worker)
    requires
        0 <= i < ws.len(),
    ensures
        count_matching(ws.update(i, w), p) == count_matching(ws, p) - (if p(ws[i]) {
            1int
        } else {
            0int
        }) + (if p(w) {
            1int
        } else {
            0int
        }),
    decreases ws.len(),
{
    if i == ws.len() - 1 {
        assert(ws.update(i, w).drop_last() =~= ws.drop_last());
    } else {
        lemma_count_update(ws.drop_last(), p, i, w);
        assert(ws.update(i, w).drop_last() =~= ws.drop_last().update(i, w));
        assert(ws.update(i, w).last() == ws.last());
    }
}

proof fn lemma_count_bounds(ws: Seq<Worker>, p: spec_fn(Worker) -> bool)
    ensures
        0 <= count_matching(ws, p) <= ws.len(),
    decreases ws.len(),
{
    if ws.len() > 0 {
        lemma_count_bounds(ws.drop_last(), p);
    }
}

/// Where some worker does not satisfy `p`, the count falls short of the length.
proof fn lemma_count_missing(ws: Seq<Worker>, p: spec_fn(Worker) -> bool, i: int)
    requires
        0 <= i < ws.len(),
        !p(ws[i]),
    ensures
        count_matching(ws, p) < ws.len(),
    decreases ws.len(),
{
    lemma_count_bounds(ws.drop_last(), p);
    if i < ws.len() - 1 {
        lemma_count_missing(ws.drop_last(), p, i);
    }
}

proof fn lemma_count_zero(ws: Seq<Worker>, p: spec_fn(Worker) -> bool)
    requires
        forall|i: int| 0 <= i < ws.len() ==> !p(#[trigger] ws[i]),
    ensures
        count_matching(ws, p) == 0,
    decreases ws.len(),
{
    if ws.len() > 0 {
        lemma_count_zero(ws.drop_last(), p);
    }
}

/// A worker holds a job exactly when it is either running it or done with it.
proof fn lemma_holding_split(ws: Seq<Worker>)
    ensures
        holding_count(ws) == done_count(ws) + running_count(ws),
    decreases ws.len(),
{
    if ws.len() > 0 {
        lemma_holding_split(ws.drop_last());
    }
}

/// A fixed-size pool of workers around one shared FIFO job queue.
///
/// `workers` is fixed at construction and ordered by worker id. `pending`
/// holds the submission numbers of the jobs submitted but not yet dequeued,
/// oldest first. `submitted` counts every submission ever made (and is the
/// next job's number); `completed` counts the jobs that have run to
/// completion — it models the externally observable effect of the jobs.
#[derive(Debug)]
pub struct ThreadPool {
    /// The pool's workers, in id order.
    pub workers: Vec<Worker>,
    /// Submitted jobs not yet taken by any worker, in submission order.
    pub pending: Vec<usize>,
    /// How many jobs have ever been submitted.
    pub submitted: usize,
    /// How many jobs have run to completion.
    pub completed: usize,
}

impl ThreadPool {
    /// The number of workers, fixed at construction.
    pub open spec fn size(self) -> nat {
        self.workers@.len()
    }

    /// How many jobs have been taken off the queue so far.
    pub open spec fn taken(self) -> int {
        self.submitted - self.pending@.len()
    }

    /// Whether the queue's consuming end is still open: it is shared by the
    /// worker threads and lives exactly as long as one of them.
    pub open spec fn queue_open(self) -> bool {
        exists|i: int| 0 <= i < self.workers@.len() && (#[trigger] self.workers@[i]).alive()
    }

    /// Whether some worker has taken job `j` off the queue.
    pub open spec fn has_holder(self, j: usize) -> bool {
        exists|i: int|
            0 <= i < self.workers@.len() && (#[trigger] self.workers@[i]).job() == Some(j)
    }

    /// The pool's invariant, established by construction and preserved by
    /// every operation.
    ///
    /// Jobs are numbered by submission order and taken in FIFO order, so the
    /// pending queue is exactly the contiguous range of numbers from
    /// `taken()` to `submitted`. Every job below `taken()` was dequeued by
    /// exactly one worker: holders hold only dequeued jobs, no two workers
    /// hold the same job, and every dequeued job has a holder. The dequeue
    /// and completion counts agree with the workers' states.
    pub open spec fn wf(self) -> bool {
        &&& self.workers@.len() >= 1
        &&& forall|i: int|
            0 <= i < self.workers@.len() ==> (#[trigger] self.workers@[i]).id == i
        &&& self.pending@.len() <= self.submitted
        &&& forall|k: int|
            0 <= k < self.pending@.len() ==> (#[trigger] self.pending@[k]) as int == self.taken()
                + k
        &&& forall|i: int|
            0 <= i < self.workers@.len() ==> ((#[trigger] self.workers@[i]).job() matches Some(j)
                ==> (j as int) < self.taken())
        &&& forall|i1: int, i2: int|
            (0 <= i1 < self.workers@.len() && 0 <= i2 < self.workers@.len() && i1 != i2
                && (#[trigger] self.workers@[i1]).job() is Some
                && (#[trigger] self.workers@[i2]).job() is Some)
                ==> self.workers@[i1].job() != self.workers@[i2].job()
        &&& forall|j: usize| (j as int) < self.taken() ==> #[trigger] self.has_holder(j)
        &&& holding_count(self.workers@) == self.taken()
        &&& done_count(self.workers@) == self.completed
    }

    /// Create a pool of `size` workers around one fresh, empty job queue.
    ///
    /// A size of zero is rejected immediately with an `InvalidSize` error
    /// carrying the message `"Pool size has to be greater than 0"`, and no
    /// worker is created. For any size of at least one, construction
    /// succeeds and yields exactly `size` workers with the unique ids
    /// `0..size`, all waiting, with nothing submitted, pending or completed.
    pub fn build(size: usize) -> (r: Result<ThreadPool, PoolCreationError>)
        ensures
            size == 0 ==> (r matches Err(e) && e.kind == PoolErrorKind::InvalidSize && e.msg@
                == invalid_size_msg() && e.worker_id is None),
            size >= 1 ==> (r matches Ok(p) && p.wf() && p.size() == size && p.submitted == 0
                && p.completed == 0 && p.pending@.len() == 0 && (forall|i: int|
                0 <= i < size ==> (#[trigger] p.workers@[i]).state == WorkerState::Waiting)),
    {
        if size == 0 {
            return Err(PoolCreationError::invalid_size());
        }
        let mut workers: Vec<Worker> = Vec::new();
        let mut id: usize = 0;
        while id < size
            invariant
                id <= size,
                workers@.len() == id,
                forall|i: int|
                    0 <= i < id ==> (#[trigger] workers@[i]).id == i && workers@[i].state
                        == WorkerState::Waiting,
                holding_count(workers@) == 0,
                done_count(workers@) == 0,
            decreases size - id,
        {
            let w = Worker::new(id);
            proof {
                lemma_count_push(workers@, |x: Worker| x.job() is Some, w);
                lemma_count_push(workers@, |x: Worker| x.state is Done, w);
            }
            workers.push(w);
            id = id + 1;
        }
        let pool = ThreadPool { workers, pending: Vec::new(), submitted: 0, completed: 0 };
        Ok(pool)
    }

    /// Create a pool with a single worker, as `build(1)` would.
    pub fn new() -> (p: ThreadPool)
        ensures
            p.wf(),
            p.size() == 1,
            p.submitted == 0,
            p.completed == 0,
            p.pending@.len() == 0,
            p.workers@[0].state == WorkerState::Waiting,
    {
        let r = ThreadPool::build(1);
        r.unwrap()
    }

    /// Submit a job: it is numbered with the submission count and joins the
    /// back of the FIFO queue, where a waiting or later-idle worker will find
    /// it. Submission never waits on worker availability — the queue is
    /// unbounded — but it needs the queue's consuming end to be open, that
    /// is, some worker thread must not have terminated yet.
    ///
    /// Returns the submitted job's number.
    pub fn execute(&mut self) -> (job: usize)
        requires
            old(self).wf(),
            old(self).queue_open(),
            old(self).submitted < usize::MAX,
        ensures
            final(self).wf(),
            final(self).queue_open(),
            job == old(self).submitted,
            final(self).submitted == old(self).submitted + 1,
            final(self).pending@ == old(self).pending@.push(job),
            final(self).workers@ == old(self).workers@,
            final(self).completed == old(self).completed,
    {
        let job: usize = self.submitted;
        self.pending.push(job);
        self.submitted = self.submitted + 1;
        proof {
            assert forall|j: usize|
                (j as int) < self.taken() implies #[trigger] self.has_holder(j) by {
                assert(old(self).has_holder(j));
                let i = choose|i: int|
                    0 <= i < old(self).workers@.len()
                        && (#[trigger] old(self).workers@[i]).job() == Some(j);
                assert(self.workers@[i].job() == Some(j));
            }
        }
        job
    }

    /// Worker `id` acquires the queue's lock and dequeues: it takes the job
    /// at the front of the queue — the oldest pending submission — and moves
    /// from waiting to running it. Jobs therefore leave the queue in FIFO
    /// submission order, each delivered to exactly one worker.
    ///
    /// Returns the taken job's number.
    pub fn take_job(&mut self, id: usize) -> (job: usize)
        requires
            old(self).wf(),
            id < old(self).size(),
            old(self).workers@[id as int].state == WorkerState::Waiting,
            old(self).pending@.len() > 0,
        ensures
            final(self).wf(),
            job == old(self).pending@[0],
            job as int == old(self).taken(),
            final(self).pending@ == old(self).pending@.subrange(
                1,
                old(self).pending@.len() as int,
            ),
            final(self).workers@ == old(self).workers@.update(
                id as int,
                (Worker { id, state: WorkerState::Running { job } }),
            ),
            final(self).submitted == old(self).submitted,
            final(self).completed == old(self).completed,
    {
        let job: usize = self.pending.remove(0);
        let w = Worker { id, state: WorkerState::Running { job } };
        proof {
            lemma_count_update(old(self).workers@, |x: Worker| x.job() is Some, id as int, w);
            lemma_count_update(old(self).workers@, |x: Worker| x.state is Done, id as int, w);
        }
        self.workers[id] = w;
        proof {
            assert(final(self).pending@ =~= old(self).pending@.subrange(
                1,
                old(self).pending@.len() as int,
            ));
            assert forall|j: usize|
                (j as int) < final(self).taken() implies #[trigger] final(self).has_holder(j) by {
                if j as int == old(self).taken() {
                    assert(final(self).workers@[id as int].job() == Some(j));
                } else {
                    assert(old(self).has_holder(j));
                    let i = choose|i: int|
                        0 <= i < old(self).workers@.len()
                            && (#[trigger] old(self).workers@[i]).job() == Some(j);
                    assert(i != id);
                    assert(final(self).workers@[i].job() == Some(j));
                }
            }
        }
        job
    }

    /// The job worker `id` dequeued runs to completion; the worker's thread
    /// then returns, and the count of completed jobs grows by one. The
    /// worker keeps the job's number but will never take another.
    pub fn finish_job(&mut self, id: usize)
        requires
            old(self).wf(),
            id < old(self).size(),
            old(self).workers@[id as int].state matches WorkerState::Running { .. },
        ensures
            final(self).wf(),
            (old(self).workers@[id as int].state matches WorkerState::Running { job }
                ==> final(self).workers@ == old(self).workers@.update(
                id as int,
                (Worker { id, state: WorkerState::Done { job } }),
            )),
            final(self).pending@ == old(self).pending@,
            final(self).submitted == old(self).submitted,
            final(self).completed == old(self).completed + 1,
    {
        // reading the length into a usize establishes that it fits one, and
        // the completion count stays strictly below the length
        let n: usize = self.workers.len();
        let w = self.workers[id];
        if let WorkerState::Running { job } = w.state {
            let d = Worker { id, state: WorkerState::Done { job } };
            proof {
                lemma_count_update(old(self).workers@, |x: Worker| x.job() is Some, id as int, d);
                lemma_count_update(old(self).workers@, |x: Worker| x.state is Done, id as int, d);
                lemma_count_missing(old(self).workers@, |x: Worker| x.state is Done, id as int);
            }
            self.workers[id] = d;
            self.completed = self.completed + 1;
            proof {
                assert forall|j: usize|
                    (j as int) < self.taken() implies #[trigger] self.has_holder(j) by {
                    assert(old(self).has_holder(j));
                    let i = choose|i: int|
                        0 <= i < old(self).workers@.len()
                            && (#[trigger] old(self).workers@[i]).job() == Some(j);
                    assert(self.workers@[i].job() == Some(j));
                }
            }
        }
    }
}

/// Exactly-once dispatch: in a well-formed pool, no two workers hold the
/// same job, every job taken off the queue is held by some worker, a job a
/// worker holds is never still pending, and every job ever submitted is
/// either still pending or held by a worker — no job is duplicated and no
/// job is lost.
pub proof fn lemma_jobs_exactly_once(p: ThreadPool)
    requires
        p.wf(),
    ensures
        forall|i1: int, i2: int|
            (0 <= i1 < p.size() && 0 <= i2 < p.size() && i1 != i2
                && (#[trigger] p.workers@[i1]).job() is Some
                && (#[trigger] p.workers@[i2]).job() is Some)
                ==> p.workers@[i1].job() != p.workers@[i2].job(),
        forall|j: usize| (j as int) < p.taken() ==> #[trigger] p.has_holder(j),
        forall|j: usize|
            p.taken() <= (j as int) && (j as int) < p.submitted ==> #[trigger] p.pending@.contains(j),
        forall|j: usize| #[trigger] p.has_holder(j) ==> !p.pending@.contains(j),
        forall|j: usize|
            (j as int) < p.submitted ==> (p.has_holder(j) || p.pending@.contains(j)),
{
    assert forall|j: usize|
        p.taken() <= (j as int) && (j as int) < p.submitted implies #[trigger] p.pending@.contains(j) by {
        assert(p.pending@[j as int - p.taken()] == j);
    }
    assert forall|j: usize| #[trigger] p.has_holder(j) implies !p.pending@.contains(j) by {
        let i = choose|i: int|
            0 <= i < p.workers@.len() && (#[trigger] p.workers@[i]).job() == Some(j);
        assert((j as int) < p.taken());
        if p.pending@.contains(j) {
            let k = choose|k: int| 0 <= k < p.pending@.len() && p.pending@[k] == j;
            assert(p.pending@[k] as int == p.taken() + k);
        }
    }
}

/// Completed-work accounting: once the queue has drained and no worker is
/// still executing, the count of completed jobs equals the count of
/// submitted jobs — a sink each job writes to once (say, a shared counter
/// every job increments) ends up recording every submission.
pub proof fn lemma_all_submitted_completed(p: ThreadPool)
    requires
        p.wf(),
        p.pending@.len() == 0,
        forall|i: int| 0 <= i < p.size() ==> !((#[trigger] p.workers@[i]).state is Running),
    ensures
        p.completed == p.submitted,
{
    lemma_holding_split(p.workers@);
    lemma_count_zero(p.workers@, |x: Worker| x.state is Running);
}

} // verus!

