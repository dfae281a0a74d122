use rust_http_server::threadpool::{JobQueue, Message};

fn job_of(m: Option<Message<u32>>) -> Option<u32> {
    match m {
        Some(Message::NewJob(j)) => Some(j),
        _ => None,
    }
}

#[test]
fn more_jobs_than_workers_are_each_handed_out_once_in_order() {
    let mut queue: JobQueue<u32> = JobQueue::new(2);
    for job in 0..7 {
        assert!(queue.submit(job));
    }
    let mut taken = Vec::new();
    while let Some(m) = queue.take() {
        taken.push(job_of(Some(m)).unwrap());
    }
    assert_eq!(taken, vec![0, 1, 2, 3, 4, 5, 6]);
    assert!(queue.take().is_none());
}

#[test]
fn shutdown_sends_one_stop_per_worker_after_the_jobs() {
    let mut queue: JobQueue<u32> = JobQueue::new(3);
    assert!(queue.submit(10));
    assert!(queue.submit(11));
    queue.shutdown();
    assert_eq!(job_of(queue.take()), Some(10));
    assert_eq!(job_of(queue.take()), Some(11));
    for _ in 0..3 {
        assert!(matches!(queue.take(), Some(Message::Terminate)));
    }
    assert!(queue.take().is_none());
}

#[test]
fn no_job_is_taken_after_shutdown() {
    let mut queue: JobQueue<u32> = JobQueue::new(1);
    queue.shutdown();
    assert!(!queue.submit(5));
    queue.shutdown();
    assert!(matches!(queue.take(), Some(Message::Terminate)));
    assert!(queue.take().is_none());
    assert_eq!(queue.workers(), 1);
}
