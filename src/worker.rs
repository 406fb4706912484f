//! The decisions of one worker: which request comes next, and what to do
//! with each reply. Sending and timing are left to the caller, which
//! alternates `next_step` and `complete` until told that the quota is done.
use vstd::prelude::*;
use crate::accumulator::StatsAccumulator;
use crate::outcome::{classification_of, outcome_of, Outcome, Reply};

verus! {

/// What a worker does next.
#[derive(Clone, Copy, Debug, PartialEq, Eq, Structural)]
pub enum Step {
    /// Send the request with this number, counting from 1.
    Send(usize),
    /// The quota is done.
    Finished,
}

/// Progress of a worker through its quota of sequential requests.
#[derive(Clone, Copy, Debug, PartialEq, Eq, Structural)]
pub struct Worker {
    pub quota: usize,
    pub completed: usize,
}

impl Worker {
    pub open spec fn wf(&self) -> bool {
        self.completed <= self.quota
    }

    pub open spec fn step_spec(&self) -> Step {
        if self.completed < self.quota {
            Step::Send((self.completed + 1) as usize)
        } else {
            Step::Finished
        }
    }

    /// A worker that has sent nothing of its `quota`.
    pub fn new(quota: usize) -> (r: Worker)
        ensures
            r.quota == quota,
            r.completed == 0,
            r.wf(),
    {
        Worker { quota, completed: 0 }
    }

    pub fn next_step(&self) -> (r: Step)
        requires
            self.wf(),
        ensures
            r == self.step_spec(),
    {
        if self.completed < self.quota {
            Step::Send(self.completed + 1)
        } else {
            Step::Finished
        }
    }

    /// Takes the reply to the request in flight, which took `duration_ns`,
    /// records its outcome into `acc`, and returns that outcome. A failed
    /// request is never retried: the worker moves on to the next one.
    pub fn complete(&mut self, acc: &StatsAccumulator, reply: Reply, duration_ns: u64) -> (r:
        Outcome)
        requires
            old(self).wf(),
            old(self).completed < old(self).quota,
        ensures
            final(self).wf(),
            final(self).quota == old(self).quota,
            final(self).completed == old(self).completed + 1,
            r.duration_ns == duration_ns,
            r.classification == classification_of(reply),
    {
        let o = outcome_of(reply, duration_ns);
        acc.record(&o);
        self.completed = self.completed + 1;
        o
    }
}

} // verus!
