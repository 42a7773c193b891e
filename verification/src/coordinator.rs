use vstd::prelude::*;

use crate::errors::ElectionError;

verus! {

/// How the first of the two tasks (participant or observer) ended.
#[derive(Clone, Copy, Debug, PartialEq, Eq, Structural)]
pub enum TaskResult {
    /// The task finished on its own (the observer's stream ended).
    Finished,
    /// The task failed with a fatal error.
    Failed { error: ElectionError },
}

/// The coordinator's decision once the first task has ended.
#[derive(Clone, Copy, Debug, PartialEq, Eq)]
pub struct CoordinatorReport {
    /// The failure to log, if the task failed.
    pub failure: Option<ElectionError>,
    /// Always true: stop awaiting the other task and end the process cleanly,
    /// whichever way the first one ended (fail-fast, never limp along).
    pub terminate: bool,
}

/// What the coordinator decides for a given first outcome.
pub open spec fn spec_conclude(first: TaskResult) -> CoordinatorReport {
    CoordinatorReport {
        failure: match first {
            TaskResult::Finished => None,
            TaskResult::Failed { error } => Some(error),
        },
        terminate: true,
    }
}

/// Conclude the run: log any failure the first-ended task surfaced, stop
/// awaiting the other task, and terminate either way.
pub fn conclude(first: &TaskResult) -> (r: CoordinatorReport)
    ensures
        r == spec_conclude(*first),
{
    match first {
        TaskResult::Finished => CoordinatorReport { failure: None, terminate: true },
        TaskResult::Failed { error } => CoordinatorReport {
            failure: Some(*error),
            terminate: true,
        },
    }
}

} // verus!
