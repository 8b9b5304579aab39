use threadpool::ThreadPool;
use threadpool::Worker;
use threadpool::WorkerState;

#[test]
fn build_succeeds_with_unique_ids() {
    let pool = ThreadPool::build(5).unwrap();
    assert_eq!(pool.workers.len(), 5);
    for (i, w) in pool.workers.iter().enumerate() {
        assert_eq!(w.id, i);
        assert_eq!(w.state, WorkerState::Waiting);
    }
    assert_eq!(pool.submitted, 0);
    assert_eq!(pool.completed, 0);
    assert!(pool.pending.is_empty());
}

#[test]
fn build_one_succeeds() {
    let pool = ThreadPool::build(1).unwrap();
    assert_eq!(pool.workers.len(), 1);
    assert_eq!(pool.workers[0].id, 0);
}

#[test]
fn new_has_one_waiting_worker() {
    let pool = ThreadPool::new();
    assert_eq!(pool.workers.len(), 1);
    assert_eq!(pool.workers[0].id, 0);
    assert_eq!(pool.workers[0].state, WorkerState::Waiting);
    assert_eq!(pool.submitted, 0);
}

#[test]
fn worker_new_waits_under_its_id() {
    let w = Worker::new(7);
    assert_eq!(w.id, 7);
    assert_eq!(w.state, WorkerState::Waiting);
}

#[test]
fn execute_numbers_jobs_in_submission_order() {
    let mut pool = ThreadPool::build(2).unwrap();
    assert_eq!(pool.execute(), 0);
    assert_eq!(pool.execute(), 1);
    assert_eq!(pool.execute(), 2);
    assert_eq!(pool.submitted, 3);
    assert_eq!(pool.pending, vec![0, 1, 2]);
}

#[test]
fn jobs_are_dispatched_fifo() {
    let mut pool = ThreadPool::build(2).unwrap();
    pool.execute();
    pool.execute();
    // whichever worker dequeues first gets the oldest job
    assert_eq!(pool.take_job(1), 0);
    assert_eq!(pool.take_job(0), 1);
    assert!(pool.pending.is_empty());
}

#[test]
fn each_job_runs_on_a_distinct_worker() {
    let mut pool = ThreadPool::build(3).unwrap();
    for _ in 0..3 {
        pool.execute();
    }
    let a = pool.take_job(0);
    let b = pool.take_job(1);
    let c = pool.take_job(2);
    assert_eq!((a, b, c), (0, 1, 2));
    assert!(pool.pending.is_empty());
    assert_eq!(pool.workers[0].state, WorkerState::Running { job: 0 });
    assert_eq!(pool.workers[1].state, WorkerState::Running { job: 1 });
    assert_eq!(pool.workers[2].state, WorkerState::Running { job: 2 });
}

#[test]
fn counter_reaches_submission_count() {
    // three jobs, each bumping the completion count once: it ends at 3
    let mut pool = ThreadPool::build(3).unwrap();
    for _ in 0..3 {
        pool.execute();
    }
    for id in 0..3 {
        pool.take_job(id);
        pool.finish_job(id);
    }
    assert_eq!(pool.completed, 3);
    assert_eq!(pool.completed, pool.submitted);
    assert!(pool.pending.is_empty());
}

#[test]
fn submitting_beyond_pool_size_queues_without_waiting() {
    let mut pool = ThreadPool::build(2).unwrap();
    for expected in 0..6 {
        assert_eq!(pool.execute(), expected);
    }
    assert_eq!(pool.submitted, 6);
    assert_eq!(pool.pending, vec![0, 1, 2, 3, 4, 5]);
}

#[test]
fn fourth_job_on_drained_pool_is_never_executed() {
    let mut pool = ThreadPool::build(3).unwrap();
    for _ in 0..3 {
        pool.execute();
    }
    for id in 0..3 {
        pool.take_job(id);
    }
    // the workers are still running, so the queue is open for a 4th job
    let fourth = pool.execute();
    assert_eq!(fourth, 3);
    for id in 0..3 {
        pool.finish_job(id);
    }
    // every worker has consumed its single job: job 3 stays pending forever
    assert_eq!(pool.pending, vec![3]);
    assert_eq!(pool.completed, 3);
    assert_eq!(pool.submitted, 4);
    for w in pool.workers.iter() {
        assert!(!matches!(w.state, WorkerState::Running { job: 3 }));
        assert!(!matches!(w.state, WorkerState::Done { job: 3 }));
    }
}

#[test]
fn finished_worker_keeps_its_job_number() {
    let mut pool = ThreadPool::new();
    pool.execute();
    let job = pool.take_job(0);
    assert_eq!(job, 0);
    pool.finish_job(0);
    assert_eq!(pool.workers[0].state, WorkerState::Done { job: 0 });
    assert_eq!(pool.completed, 1);
}
