use worker_pool::message::Message;
use worker_pool::queue::{JobQueue, SendError};

fn job_of(message: Option<Message<u32>>) -> u32 {
    match message {
        Some(Message::NewJob(job)) => job,
        Some(Message::Terminate) => panic!("expected a job, got the order to terminate"),
        None => panic!("expected a job, got nothing"),
    }
}

#[test]
fn new_queue_is_empty() {
    let queue: JobQueue<u32> = JobQueue::new(3);
    assert_eq!(queue.len(), 0);
    assert!(queue.is_empty());
    assert_eq!(queue.receivers(), 3);
}

#[test]
fn messages_leave_in_the_order_they_came() {
    let mut queue: JobQueue<u32> = JobQueue::new(1);
    assert!(queue.send(Message::NewJob(10)).is_ok());
    assert!(queue.send(Message::NewJob(20)).is_ok());
    assert!(queue.send(Message::NewJob(30)).is_ok());
    assert_eq!(queue.len(), 3);
    assert_eq!(job_of(queue.receive()), 10);
    assert_eq!(job_of(queue.receive()), 20);
    assert_eq!(job_of(queue.receive()), 30);
    assert!(queue.is_empty());
}

#[test]
fn each_message_is_received_once() {
    let mut queue: JobQueue<u32> = JobQueue::new(2);
    assert!(queue.send(Message::NewJob(7)).is_ok());
    assert_eq!(job_of(queue.receive()), 7);
    assert!(queue.receive().is_none());
    assert_eq!(queue.len(), 0);
}

#[test]
fn receive_on_an_empty_queue_gives_nothing() {
    let mut queue: JobQueue<u32> = JobQueue::new(1);
    assert!(queue.receive().is_none());
    assert!(queue.receive().is_none());
    assert_eq!(queue.len(), 0);
    assert_eq!(queue.receivers(), 1);
}

#[test]
fn terminate_travels_behind_the_jobs_before_it() {
    let mut queue: JobQueue<u32> = JobQueue::new(1);
    assert!(queue.send(Message::NewJob(1)).is_ok());
    assert!(queue.send(Message::Terminate).is_ok());
    assert!(queue.send(Message::NewJob(2)).is_ok());
    assert_eq!(job_of(queue.receive()), 1);
    assert!(matches!(queue.receive(), Some(Message::Terminate)));
    assert_eq!(job_of(queue.receive()), 2);
}

#[test]
fn send_fails_when_no_receiver_is_left() {
    let mut queue: JobQueue<u32> = JobQueue::new(0);
    match queue.send(Message::NewJob(5)) {
        Err(SendError(Message::NewJob(job))) => assert_eq!(job, 5),
        _ => panic!("the send should have failed and handed the job back"),
    }
    assert_eq!(queue.len(), 0);
    assert!(matches!(
        queue.send(Message::Terminate),
        Err(SendError(Message::Terminate))
    ));
    assert!(queue.is_empty());
}

#[test]
fn send_fails_only_after_the_last_receiver_left() {
    let mut queue: JobQueue<u32> = JobQueue::new(2);
    queue.disconnect();
    assert_eq!(queue.receivers(), 1);
    assert!(queue.send(Message::NewJob(1)).is_ok());
    queue.disconnect();
    assert_eq!(queue.receivers(), 0);
    assert!(queue.send(Message::NewJob(2)).is_err());
    assert_eq!(queue.len(), 1);
    assert_eq!(job_of(queue.receive()), 1);
}

#[test]
fn message_knows_whether_it_is_terminate() {
    assert!(Message::<u32>::Terminate.is_terminate());
    assert!(!Message::NewJob(3u32).is_terminate());
}
