use worker_pool::message::Message;
use worker_pool::worker::{Worker, WorkerState};

#[test]
fn new_worker_is_idle_and_holds_its_thread() {
    let worker: Worker<&str> = Worker::new(3, "handle");
    assert_eq!(worker.id(), 3);
    assert_eq!(worker.state(), WorkerState::Idle);
    assert!(!worker.is_joined());
}

#[test]
fn worker_runs_a_job_and_is_idle_again() {
    let mut worker: Worker<u8> = Worker::new(0, 0);
    worker.on_message(&Message::NewJob(17u32));
    assert_eq!(worker.state(), WorkerState::Running);
    worker.job_done();
    assert_eq!(worker.state(), WorkerState::Idle);
    worker.on_message(&Message::NewJob(18u32));
    assert_eq!(worker.state(), WorkerState::Running);
    assert_eq!(worker.id(), 0);
}

#[test]
fn worker_stops_on_terminate() {
    let mut worker: Worker<u8> = Worker::new(1, 0);
    worker.on_message(&Message::<u32>::Terminate);
    assert_eq!(worker.state(), WorkerState::Stopped);
    assert_eq!(worker.id(), 1);
    assert!(!worker.is_joined());
}

#[test]
fn thread_handle_is_taken_exactly_once() {
    let mut worker: Worker<u64> = Worker::new(2, 4242);
    assert_eq!(worker.take_thread(), Some(4242));
    assert!(worker.is_joined());
    assert_eq!(worker.take_thread(), None);
    assert_eq!(worker.take_thread(), None);
    assert_eq!(worker.state(), WorkerState::Idle);
    assert_eq!(worker.id(), 2);
}
