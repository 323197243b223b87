use spiderfire_runtime::microtasks::{JobError, Microtask, MicrotaskQueue};
use spiderfire_runtime::promise::{future_to_promise, settlement, FutureQueue, PromiseError, Settlement};

/// Drains the queue as a host does, running each job with `run`, which may
/// enqueue more jobs.
fn drain(queue: &mut MicrotaskQueue, run: &mut dyn FnMut(&mut MicrotaskQueue, Microtask) -> Result<(), JobError>) -> Result<(), JobError> {
    if !queue.begin_drain() {
        return Ok(());
    }
    while let Some(job) = queue.next_job() {
        if let Err(e) = run(queue, job) {
            queue.record_failure(e);
        }
    }
    queue.finish_drain()
}

#[test]
fn job_enqueued_during_drain_runs_in_same_drain() {
    let mut queue = MicrotaskQueue::new();
    assert!(queue.enqueue(Microtask::User(1)));
    assert!(!queue.enqueue(Microtask::Promise(2)));
    let mut ran = Vec::new();
    let result = drain(&mut queue, &mut |q, job| {
        ran.push(job);
        if job == Microtask::User(1) {
            q.enqueue(Microtask::User(3));
        }
        Ok(())
    });
    assert_eq!(result, Ok(()));
    assert_eq!(ran, vec![Microtask::User(1), Microtask::Promise(2), Microtask::User(3)]);
    assert!(queue.is_empty());
}

#[test]
fn failures_do_not_stop_drain_and_first_is_reported() {
    let mut queue = MicrotaskQueue::new();
    for i in 0..4u64 {
        queue.enqueue(Microtask::User(i));
    }
    let mut ran = 0;
    let result = drain(&mut queue, &mut |_, job| {
        ran += 1;
        match job {
            Microtask::User(1) => Err(JobError { report: 10 }),
            Microtask::User(2) => Err(JobError { report: 20 }),
            _ => Ok(()),
        }
    });
    assert_eq!(ran, 4);
    assert_eq!(result, Err(JobError { report: 10 }));
}

#[test]
fn nested_drain_is_refused() {
    let mut queue = MicrotaskQueue::new();
    assert!(queue.begin_drain());
    assert!(!queue.begin_drain());
    assert_eq!(queue.finish_drain(), Ok(()));
    assert!(queue.begin_drain());
}

#[test]
fn promise_needs_event_loop() {
    let mut none: Option<FutureQueue> = None;
    assert_eq!(future_to_promise(&mut none, 1, 2), Err(PromiseError::NoEventLoop));
    let mut some = Some(FutureQueue::new());
    assert_eq!(future_to_promise(&mut some, 1, 2), Ok(2));
    assert_eq!(some.as_ref().map(|q| q.len()), Some(1));
    assert_eq!(settlement(Ok(5)), Settlement::Fulfil(5));
    assert_eq!(settlement(Err(6)), Settlement::Reject(6));
}
