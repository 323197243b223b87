use vstd::prelude::*;

verus! {

/// The error of bridging a future when no event loop runs.
#[derive(Clone, Copy, Debug, PartialEq, Eq, Structural)]
pub enum PromiseError {
    NoEventLoop,
}

/// How a spawned computation settles its promise.
#[derive(Clone, Copy, Debug, PartialEq, Eq, Structural)]
pub enum Settlement {
    /// Fulfil with the handle of the value it produced.
    Fulfil(u64),
    /// Reject with the handle of the error it produced.
    Reject(u64),
}

/// The computations spawned on the event loop and not yet settled, each
/// with the promise it settles, by handle.
#[derive(Debug)]
pub struct FutureQueue {
    pending: Vec<(u64, u64)>,
}

impl View for FutureQueue {
    type V = Seq<(u64, u64)>;

    closed spec fn view(&self) -> Seq<(u64, u64)> {
        self.pending@
    }
}

impl FutureQueue {
    pub fn new() -> (r: FutureQueue)
        ensures
            r@ == Seq::<(u64, u64)>::empty(),
    {
        FutureQueue { pending: Vec::new() }
    }

    pub fn len(&self) -> (r: usize)
        ensures
            r == self@.len(),
    {
        self.pending.len()
    }
}

/// Schedules the computation `task`, which settles `promise`, on the event
/// loop; fails, scheduling nothing, where no event loop runs.
pub fn future_to_promise(futures: &mut Option<FutureQueue>, task: u64, promise: u64) -> (r: Result<u64, PromiseError>)
    ensures
        *old(futures) is None ==> r == Err::<u64, PromiseError>(PromiseError::NoEventLoop) && *final(futures) is None,
        *old(futures) is Some ==> r == Ok::<u64, PromiseError>(promise) && *final(futures) is Some
            && (*final(futures))->0@ == (*old(futures))->0@.push((task, promise)),
{
    match futures {
        Some(queue) => {
            queue.pending.push((task, promise));
            Ok(promise)
        },
        None => Err(PromiseError::NoEventLoop),
    }
}

/// What settles the promise of a computation that finished with `result`.
pub fn settlement(result: Result<u64, u64>) -> (r: Settlement)
    ensures
        result matches Ok(v) ==> r == Settlement::Fulfil(v),
        result matches Err(e) ==> r == Settlement::Reject(e),
{
    match result {
        Ok(v) => Settlement::Fulfil(v),
        Err(e) => Settlement::Reject(e),
    }
}

} // verus!
