//! The task spawner: fire-and-forget submission of asynchronous work.

use vstd::prelude::*;

verus! {

/// Submits units of work that nobody waits for.  It holds no state, so it
/// can be copied freely and used from any thread.
#[derive(Clone, Copy, Debug)]
pub struct TaskSpawner;

/// A unit of work marked for detached execution: the scheduler owns it,
/// and whatever it produces is thrown away.
#[derive(Debug)]
pub struct Detached<W> {
    work: W,
}

impl<W> Detached<W> {
    /// The work inside.
    pub closed spec fn work(&self) -> W {
        self.work
    }

    /// Hands the work to the scheduler that runs it.
    pub fn into_work(self) -> (r: W)
        ensures
            r == self.work(),
    {
        self.work
    }
}

impl TaskSpawner {
    /// Accepts one unit of work for detached execution: the very work that
    /// was submitted, once.  Returns at once; nothing is run here.
    pub fn execute<W>(&self, work: W) -> (r: Detached<W>)
        ensures
            r.work() == work,
    {
        Detached { work }
    }

    /// Takes what a detached unit of work produced, a failure included,
    /// and drops it.  Nothing reaches the submitter.
    pub fn discard<T>(&self, output: T) {
        let _ = output;
    }
}

} // verus!
