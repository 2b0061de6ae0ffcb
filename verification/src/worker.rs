//! A virtual device worker: it runs operations until it is cancelled or one
//! of them fails.

use vstd::prelude::*;
use crate::workload::{Operation, WorkloadRatio};

verus! {

/// Why a worker stopped. A worker never stops because it is done.
#[derive(Clone, Copy, Debug, PartialEq, Eq, Structural)]
pub enum WorkerOutcome {
    /// It was told to stop.
    Cancelled,
    /// One of its operations failed.
    Failed,
}

/// The state of a worker.
#[derive(Clone, Copy, Debug, PartialEq, Eq, Structural)]
pub enum WorkerState {
    Running,
    Terminated(WorkerOutcome),
}

/// What a worker is told.
#[derive(Clone, Copy, Debug, PartialEq, Eq, Structural)]
pub enum WorkerSignal {
    /// It is free to run its next operation: it has just started, or its
    /// last operation succeeded. `draw` is its random draw for this round.
    Proceed { draw: u8 },
    /// Its last operation failed.
    OperationFailed,
    /// It is to stop.
    Cancel,
}

/// What a worker does next.
#[derive(Clone, Copy, Debug, PartialEq, Eq, Structural)]
pub enum WorkerAction {
    /// Run this operation against the shared session.
    Perform(Operation),
    /// Stop and report this outcome.
    Report(WorkerOutcome),
}

/// One step of a worker. A running worker performs the operation that its
/// draw selects, stops as failed when its operation failed, and stops as
/// cancelled when told to. A worker that has stopped stays as it is and
/// performs nothing.
pub open spec fn worker_next(state: WorkerState, signal: WorkerSignal, ratio: WorkloadRatio) -> (
    WorkerState,
    WorkerAction,
) {
    match state {
        WorkerState::Terminated(outcome) => (state, WorkerAction::Report(outcome)),
        WorkerState::Running => match signal {
            WorkerSignal::Proceed { draw } => (
                WorkerState::Running,
                WorkerAction::Perform(ratio.selects(draw)),
            ),
            WorkerSignal::OperationFailed => (
                WorkerState::Terminated(WorkerOutcome::Failed),
                WorkerAction::Report(WorkerOutcome::Failed),
            ),
            WorkerSignal::Cancel => (
                WorkerState::Terminated(WorkerOutcome::Cancelled),
                WorkerAction::Report(WorkerOutcome::Cancelled),
            ),
        },
    }
}

/// One step of a worker: its next state and what it does.
pub fn worker_step(state: WorkerState, signal: WorkerSignal, ratio: &WorkloadRatio) -> (next: (
    WorkerState,
    WorkerAction,
))
    ensures
        next == worker_next(state, signal, *ratio),
{
    match state {
        WorkerState::Terminated(outcome) => (state, WorkerAction::Report(outcome)),
        WorkerState::Running => match signal {
            WorkerSignal::Proceed { draw } => (
                WorkerState::Running,
                WorkerAction::Perform(ratio.select(draw)),
            ),
            WorkerSignal::OperationFailed => (
                WorkerState::Terminated(WorkerOutcome::Failed),
                WorkerAction::Report(WorkerOutcome::Failed),
            ),
            WorkerSignal::Cancel => (
                WorkerState::Terminated(WorkerOutcome::Cancelled),
                WorkerAction::Report(WorkerOutcome::Cancelled),
            ),
        },
    }
}

} // verus!
