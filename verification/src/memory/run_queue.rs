//! A cooperative scheduler's queue of detached work, held in memory.

use vstd::prelude::*;
use crate::spawner::{Detached, TaskSpawner};

verus! {

/// The units of work that wait for a worker, oldest first.
#[derive(Debug)]
pub struct RunQueue<W> {
    ready: Vec<W>,
}

impl<W> View for RunQueue<W> {
    type V = Seq<W>;

    closed spec fn view(&self) -> Seq<W> {
        self.ready@
    }
}

impl<W> RunQueue<W> {
    /// A queue with nothing to run.
    pub fn new() -> (r: RunQueue<W>)
        ensures
            r@ == Seq::<W>::empty(),
    {
        RunQueue { ready: Vec::new() }
    }

    /// How many units of work wait.
    pub fn len(&self) -> (r: usize)
        ensures
            r == self@.len(),
    {
        self.ready.len()
    }

    /// Takes ownership of a detached unit of work and queues it behind
    /// what already waits.
    pub fn spawn(&mut self, task: Detached<W>)
        ensures
            final(self)@ == old(self)@.push(task.work()),
    {
        self.ready.push(task.into_work());
    }

    /// Hands the oldest waiting unit of work to a worker, if there is one.
    pub fn next(&mut self) -> (r: Option<W>)
        ensures
            old(self)@.len() == 0 ==> r.is_none() && final(self)@ == old(self)@,
            old(self)@.len() > 0 ==> r == Some(old(self)@[0]) && final(self)@ == old(self)@.skip(1),
    {
        if self.ready.len() == 0 {
            None
        } else {
            let work = self.ready.remove(0);
            Some(work)
        }
    }
}

impl TaskSpawner {
    /// Submits `work` to the queue as a detached task and returns at once:
    /// the work is queued once, behind what already waits, and nothing
    /// else changes.
    pub fn submit<W>(&self, queue: &mut RunQueue<W>, work: W)
        ensures
            final(queue)@ == old(queue)@.push(work),
    {
        let task = self.execute(work);
        queue.spawn(task);
    }
}

} // verus!
