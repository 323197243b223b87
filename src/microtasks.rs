use vstd::prelude::*;

use std::collections::VecDeque;

verus! {

/// A deferred callback, by the handle under which the host keeps it.
#[derive(Clone, Copy, Debug, PartialEq, Eq, Structural)]
pub enum Microtask {
    /// A job that the script engine queued for a promise.
    Promise(u64),
    /// A callback that a script queued itself.
    User(u64),
}

/// The failure of a job, as the host reported it.
#[derive(Clone, Copy, Debug, PartialEq, Eq, Structural)]
pub struct JobError {
    pub report: u64,
}

/// A first-in first-out queue of microtasks and its drain.
///
/// The host runs a drain as `begin_drain`, then `next_job` until it gives
/// nothing, running each job (which may `enqueue` more) and reporting each
/// failure to `record_failure`, then `finish_drain`.
#[derive(Debug)]
pub struct MicrotaskQueue {
    queue: VecDeque<Microtask>,
    draining: bool,
    first_error: Option<JobError>,
}

impl View for MicrotaskQueue {
    type V = Seq<Microtask>;

    closed spec fn view(&self) -> Seq<Microtask> {
        self.queue@
    }
}

impl MicrotaskQueue {
    /// Whether a drain is under way.
    pub closed spec fn is_draining(&self) -> bool {
        self.draining
    }

    /// The first failure of the drain under way.
    pub closed spec fn failure(&self) -> Option<JobError> {
        self.first_error
    }

    /// An empty queue, not draining.
    pub fn new() -> (r: MicrotaskQueue)
        ensures
            r@ == Seq::<Microtask>::empty(),
            !r.is_draining(),
            r.failure() is None,
    {
        MicrotaskQueue { queue: VecDeque::new(), draining: false, first_error: None }
    }

    /// Appends a job; says whether the queue was empty, in which case the host
    /// is told that work is pending. May be called while a job runs.
    pub fn enqueue(&mut self, microtask: Microtask) -> (notify: bool)
        ensures
            final(self)@ == old(self)@.push(microtask),
            notify == (old(self)@.len() == 0),
            final(self).is_draining() == old(self).is_draining(),
            final(self).failure() == old(self).failure(),
    {
        let was_empty = self.queue.len() == 0;
        self.queue.push_back(microtask);
        was_empty
    }

    pub fn is_empty(&self) -> (r: bool)
        ensures
            r == (self@.len() == 0),
    {
        self.queue.len() == 0
    }

    /// Starts a drain; refused (`false`, nothing changed) while one is under
    /// way, so that a drain never starts inside another.
    pub fn begin_drain(&mut self) -> (started: bool)
        ensures
            started == !old(self).is_draining(),
            final(self).is_draining(),
            final(self)@ == old(self)@,
            started ==> final(self).failure() is None,
            !started ==> final(self).failure() == old(self).failure(),
    {
        if self.draining {
            return false;
        }
        self.draining = true;
        self.first_error = None;
        true
    }

    /// Takes the job at the head of the queue.
    pub fn next_job(&mut self) -> (r: Option<Microtask>)
        ensures
            old(self)@.len() == 0 ==> r is None && final(self)@ == old(self)@,
            old(self)@.len() > 0 ==> r == Some(old(self)@[0]) && final(self)@ == old(self)@.drop_first(),
            final(self).is_draining() == old(self).is_draining(),
            final(self).failure() == old(self).failure(),
    {
        let r = self.queue.pop_front();
        proof {
            if old(self)@.len() > 0 {
                assert(self@ =~= old(self)@.drop_first());
            }
        }
        r
    }

    /// Notes that a job failed; the drain goes on, and the first failure is
    /// kept for `finish_drain`.
    pub fn record_failure(&mut self, error: JobError)
        ensures
            final(self)@ == old(self)@,
            final(self).is_draining() == old(self).is_draining(),
            final(self).failure() == (match old(self).failure() {
                Some(e) => Some(e),
                None => Some(error),
            }),
    {
        if self.first_error.is_none() {
            self.first_error = Some(error);
        }
    }

    /// Ends the drain; gives its first failure, if any. The host is then told
    /// that the queue is empty.
    pub fn finish_drain(&mut self) -> (r: Result<(), JobError>)
        ensures
            !final(self).is_draining(),
            final(self)@ == old(self)@,
            final(self).failure() is None,
            r == (match old(self).failure() {
                Some(e) => Err::<(), JobError>(e),
                None => Ok::<(), JobError>(()),
            }),
    {
        self.draining = false;
        match self.first_error.take() {
            Some(e) => Err(e),
            None => Ok(()),
        }
    }
}

/// A step of a drain: a job enqueued, or the head taken to run.
pub enum QueueOp {
    Enqueue(Microtask),
    Take,
}

/// The jobs taken and the jobs left after `ops`, from a queue holding `start`.
pub open spec fn run_ops(start: Seq<Microtask>, ops: Seq<QueueOp>) -> (Seq<Microtask>, Seq<Microtask>)
    decreases ops.len(),
{
    if ops.len() == 0 {
        (Seq::empty(), start)
    } else {
        let (taken, left) = run_ops(start, ops.drop_last());
        match ops.last() {
            QueueOp::Enqueue(m) => (taken, left.push(m)),
            QueueOp::Take => if left.len() > 0 {
                (taken.push(left[0]), left.drop_first())
            } else {
                (taken, left)
            },
        }
    }
}

/// The jobs that `ops` enqueue, in order.
pub open spec fn enqueued(ops: Seq<QueueOp>) -> Seq<Microtask>
    decreases ops.len(),
{
    if ops.len() == 0 {
        Seq::empty()
    } else {
        match ops.last() {
            QueueOp::Enqueue(m) => enqueued(ops.drop_last()).push(m),
            QueueOp::Take => enqueued(ops.drop_last()),
        }
    }
}

/// Jobs run in the order they were enqueued, whether they were enqueued
/// before the drain or by jobs running in it; and a drain that ends with an
/// empty queue has run every job enqueued during it.
pub proof fn lemma_drain_fifo(start: Seq<Microtask>, ops: Seq<QueueOp>)
    ensures
        run_ops(start, ops).0 + run_ops(start, ops).1 == start + enqueued(ops),
        run_ops(start, ops).1.len() == 0 ==> run_ops(start, ops).0 == start + enqueued(ops),
    decreases ops.len(),
{
    if ops.len() > 0 {
        lemma_drain_fifo(start, ops.drop_last());
        let (taken, left) = run_ops(start, ops.drop_last());
        match ops.last() {
            QueueOp::Enqueue(m) => {
                assert(taken + left.push(m) =~= (taken + left).push(m));
                assert(start + enqueued(ops.drop_last()).push(m) =~= (start + enqueued(ops.drop_last())).push(m));
            },
            QueueOp::Take => {
                if left.len() > 0 {
                    assert(taken.push(left[0]) + left.drop_first() =~= taken + left);
                }
            },
        }
    } else {
        assert(Seq::<Microtask>::empty() + start =~= start + Seq::<Microtask>::empty());
    }
    if run_ops(start, ops).1.len() == 0 {
        assert(run_ops(start, ops).0 + run_ops(start, ops).1 =~= run_ops(start, ops).0);
    }
}

} // verus!
