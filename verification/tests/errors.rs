use threadpool::PoolCreationError;
use threadpool::PoolErrorKind;
use threadpool::ThreadPool;

#[test]
fn build_zero_fails_with_invalid_size() {
    let err = ThreadPool::build(0).unwrap_err();
    assert_eq!(err.kind, PoolErrorKind::InvalidSize);
    assert_eq!(err.message(), "Pool size has to be greater than 0");
    assert!(err.worker_id.is_none());
}

#[test]
fn invalid_size_message_names_the_constraint() {
    let err = PoolCreationError::invalid_size();
    assert!(err.message().contains("greater than 0"));
    assert_eq!(err.kind, PoolErrorKind::InvalidSize);
}

#[test]
fn spawn_failure_wraps_worker_and_reason() {
    let err = PoolCreationError::worker_spawn_failure(2, "thread limit reached");
    assert_eq!(err.kind, PoolErrorKind::WorkerSpawnFailure);
    assert_eq!(err.message(), "Cannot create pool worker: thread limit reached");
    assert_eq!(err.worker_id, Some(2));
}

#[test]
fn error_kinds_are_distinct() {
    assert_ne!(PoolErrorKind::InvalidSize, PoolErrorKind::WorkerSpawnFailure);
}
