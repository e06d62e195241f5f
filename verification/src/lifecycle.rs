//! The lifecycle of a worker's run, as far as a status report depends on it.

use vstd::prelude::*;

verus! {

/// A state in the lifecycle of a worker's run.
#[derive(Debug)]
pub enum WorkerLifecycle {
    /// The worker is at work.
    Running,
    /// The completion of the run has been claimed.
    Completing,
    /// Any other state, by its name.
    Other(String),
}

impl WorkerLifecycle {
    /// The name of the state.
    pub open spec fn name(self) -> Seq<char> {
        match self {
            WorkerLifecycle::Running => "running"@,
            WorkerLifecycle::Completing => "completing"@,
            WorkerLifecycle::Other(name) => name@,
        }
    }

    /// The name of the state.
    pub fn as_str(&self) -> (name: &str)
        ensures
            name@ == self.name(),
    {
        match self {
            WorkerLifecycle::Running => "running",
            WorkerLifecycle::Completing => "completing",
            WorkerLifecycle::Other(name) => name.as_str(),
        }
    }
}

/// What became of an attempt to move a run from one state to another.
#[derive(Debug)]
pub enum WorkerTransitionResult {
    /// The run was in the expected state and has moved on.
    Applied,
    /// The run was not in the expected state, and has not moved.
    Conflict {
        /// The state that it was in.
        current: WorkerLifecycle,
    },
    /// There is no such run.
    NotFound,
}

} // verus!
