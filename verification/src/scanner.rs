//! The scanner's decisions: which workflows need their history fetched, and
//! the per-scan tallies.
use vstd::prelude::*;

verus! {

/// Whether a listed workflow's history has to be fetched: unless the stored
/// history length equals the current one, it has changed (or is new).
pub fn needs_fetch(stored_length: Option<i64>, current_length: i64) -> (r: bool)
    ensures
        r == (stored_length != Some(current_length)),
{
    match stored_length {
        Some(l) => l != current_length,
        None => true,
    }
}

/// What became of one listed workflow in a scan.
#[derive(Debug, Clone, Copy, PartialEq, Eq, Structural)]
pub enum WorkflowOutcome {
    /// Its history length was unchanged.
    Skipped,
    /// Its history has an event without a faithful token.
    Dropped,
    /// It was hashed and written.
    Updated,
}

/// Per-scan totals.
#[derive(Debug, Clone, Copy, PartialEq, Eq, Structural)]
pub struct ScanTally {
    pub listed: u64,
    pub processed: u64,
    pub updated: u64,
    pub skipped: u64,
}

impl ScanTally {
    /// Every processed workflow was written, and no workflow is counted as
    /// both skipped and processed.
    pub open spec fn consistent(&self) -> bool {
        &&& self.processed == self.updated
        &&& self.skipped + self.processed <= self.listed
    }

    /// Nothing listed yet.
    pub fn new() -> (r: ScanTally)
        ensures
            r == (ScanTally { listed: 0, processed: 0, updated: 0, skipped: 0 }),
            r.consistent(),
    {
        ScanTally { listed: 0, processed: 0, updated: 0, skipped: 0 }
    }

    /// Counts one listed workflow and what became of it.
    pub fn record(&mut self, outcome: WorkflowOutcome)
        requires
            old(self).listed < u64::MAX,
            old(self).consistent(),
        ensures
            final(self).consistent(),
            final(self).listed == old(self).listed + 1,
            final(self).skipped == old(self).skipped + if outcome == WorkflowOutcome::Skipped {
                1int
            } else {
                0int
            },
            final(self).processed == old(self).processed + if outcome == WorkflowOutcome::Updated {
                1int
            } else {
                0int
            },
            final(self).updated == final(self).processed,
    {
        self.listed = self.listed + 1;
        match outcome {
            WorkflowOutcome::Skipped => {
                self.skipped = self.skipped + 1;
            },
            WorkflowOutcome::Dropped => {},
            WorkflowOutcome::Updated => {
                self.processed = self.processed + 1;
                self.updated = self.updated + 1;
            },
        }
    }
}

} // verus!
