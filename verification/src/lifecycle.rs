//! Shutdown sequencing: turning the child's fate into this process's
//! exit status.
//!
//! The controlling thread waits for the child, notifies the bridge loop,
//! joins it, and then exits with a status chosen here.

use vstd::prelude::*;

use crate::FATAL_STATUS;
use crate::SIGNALED_STATUS;

verus! {

/// How waiting on the child process ended.
pub enum ChildOutcome {
    /// The child exited with a normal exit code.
    Exited(i32),
    /// The child was terminated by a signal, so no exit code exists.
    Signaled,
    /// Waiting for the child itself failed.
    WaitFailed,
}

/// The exit status owed for each child outcome: the child's own code when
/// it has one, the fixed fallback when it died by signal, and the distinct
/// fatal status when waiting for it failed.
pub open spec fn spec_exit_status(outcome: ChildOutcome) -> i32 {
    match outcome {
        ChildOutcome::Exited(code) => code,
        ChildOutcome::Signaled => SIGNALED_STATUS,
        ChildOutcome::WaitFailed => FATAL_STATUS,
    }
}

/// Selects this process's exit status from the child's outcome: the exit
/// code is mirrored when the child has one, and each fallback status is
/// used exactly for its own failure kind.
pub fn exit_status_for(outcome: &ChildOutcome) -> (r: i32)
    ensures
        r == spec_exit_status(*outcome),
{
    match outcome {
        ChildOutcome::Exited(code) => *code,
        ChildOutcome::Signaled => SIGNALED_STATUS,
        ChildOutcome::WaitFailed => FATAL_STATUS,
    }
}

} // verus!

