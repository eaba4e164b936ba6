//! The cleanup's decisions: which stored workflows to delete, given what
//! Temporal says about them.
use vstd::prelude::*;

verus! {

/// The status of a workflow execution (`temporal.api.enums.v1.WorkflowExecutionStatus`).
#[derive(Debug, Clone, Copy, PartialEq, Eq, Structural)]
pub enum WorkflowExecutionStatus {
    Unspecified,
    Running,
    Completed,
    Failed,
    Canceled,
    Terminated,
    ContinuedAsNew,
    TimedOut,
    Paused,
}

/// What asking Temporal about a stored workflow gave.
#[derive(Debug, Clone, Copy, PartialEq, Eq, Structural)]
pub enum DescribeOutcome {
    /// The workflow's status.
    Status(WorkflowExecutionStatus),
    /// Temporal no longer knows the workflow (gRPC `NotFound`).
    NotFound,
    /// Temporal could not be reached (gRPC `Unavailable`).
    Unavailable,
    /// The request timed out (gRPC `DeadlineExceeded`).
    DeadlineExceeded,
    /// Any other gRPC error.
    OtherError,
}

/// What to do with a stored workflow.
#[derive(Debug, Clone, Copy, PartialEq, Eq, Structural)]
pub enum CleanupAction {
    /// Delete its row.
    Delete,
    /// It is still running: keep it.
    Keep,
    /// Temporal was unavailable: try again on the next tick.
    RetryLater,
    /// An unexpected error: report it and keep the row.
    Report,
}

/// The action for each outcome: delete workflows that are no longer running
/// or that Temporal no longer knows; keep running ones; retry when Temporal
/// is unavailable; report other errors.
pub open spec fn action_for(outcome: DescribeOutcome) -> CleanupAction {
    match outcome {
        DescribeOutcome::Status(s) => if s == WorkflowExecutionStatus::Running {
            CleanupAction::Keep
        } else {
            CleanupAction::Delete
        },
        DescribeOutcome::NotFound => CleanupAction::Delete,
        DescribeOutcome::Unavailable | DescribeOutcome::DeadlineExceeded => CleanupAction::RetryLater,
        DescribeOutcome::OtherError => CleanupAction::Report,
    }
}

/// Decides what to do with a stored workflow.
pub fn cleanup_action(outcome: DescribeOutcome) -> (r: CleanupAction)
    ensures
        r == action_for(outcome),
{
    match outcome {
        DescribeOutcome::Status(s) => {
            if s == WorkflowExecutionStatus::Running {
                CleanupAction::Keep
            } else {
                CleanupAction::Delete
            }
        },
        DescribeOutcome::NotFound => CleanupAction::Delete,
        DescribeOutcome::Unavailable | DescribeOutcome::DeadlineExceeded => CleanupAction::RetryLater,
        DescribeOutcome::OtherError => CleanupAction::Report,
    }
}

/// The number of rows deleted in one cleanup run.
#[derive(Debug, Clone, Copy, PartialEq, Eq, Structural)]
pub struct CleanupTally {
    pub deleted: u64,
}

impl CleanupTally {
    /// Nothing deleted yet.
    pub fn new() -> (r: CleanupTally)
        ensures
            r.deleted == 0,
    {
        CleanupTally { deleted: 0 }
    }

    /// Adds the rows one delete removed.
    pub fn record_deleted(&mut self, rows: usize)
        requires
            old(self).deleted + rows <= u64::MAX,
        ensures
            final(self).deleted == old(self).deleted + rows,
    {
        self.deleted = self.deleted + rows as u64;
    }
}

} // verus!
