//! How a run can end: the kinds of fatal error and the exit indication.

use vstd::prelude::*;

verus! {

/// The kinds of fatal error. None of them is recovered from.
#[derive(Clone, Copy, Debug, PartialEq, Eq, Structural)]
pub enum ErrorKind {
    /// The read and write weights do not add up to 100.
    Configuration,
    /// No session could be opened and the retry policy gave up.
    Connection,
    /// A schema statement failed.
    Migration,
    /// A worker could not be scheduled.
    WorkerSpawn,
    /// An operation of a running worker failed.
    WorkerExecution,
}

/// What the process reports when it ends.
#[derive(Clone, Copy, Debug, PartialEq, Eq, Structural)]
pub enum ExitIndication {
    /// Stopped by the interrupt signal.
    CleanStop,
    /// Ended by a fatal error.
    Fatal(ErrorKind),
}

impl ExitIndication {
    /// The exit status: 0 for a clean stop, 1 for every fatal error.
    pub open spec fn code_spec(self) -> int {
        match self {
            ExitIndication::CleanStop => 0,
            ExitIndication::Fatal(_) => 1,
        }
    }

    /// The exit status: 0 for a clean stop, 1 for every fatal error.
    pub fn code(&self) -> (code: i32)
        ensures
            code == self.code_spec(),
            (code == 0) == (*self == ExitIndication::CleanStop),
    {
        match self {
            ExitIndication::CleanStop => 0,
            ExitIndication::Fatal(_) => 1,
        }
    }
}

} // verus!
