//! The estimated progress of a running fetch, and what its exit means.

use crate::command::{ExitView, ProcessExit};
use vstd::prelude::*;

verus! {

/// What each poll that finds the fetch alive adds to the estimate.
pub const PROGRESS_STEP: u64 = 2;

/// The most that is ever estimated while the fetch runs.
pub const PROGRESS_CAP: u64 = 90;

/// The progress of a task whose file is there.
pub const PROGRESS_DONE: u64 = 100;

/// The pause between two polls of the fetch process, in milliseconds.
pub const POLL_INTERVAL_MS: u64 = 300;

/// The exit code that is reported for a process that had none.
pub const NO_EXIT_CODE: i32 = -1;

/// The estimate after one more poll: a step further, but never past the cap.
pub open spec fn advanced(progress: nat) -> nat {
    if progress + PROGRESS_STEP <= PROGRESS_CAP {
        progress + PROGRESS_STEP as nat
    } else if progress <= PROGRESS_CAP {
        PROGRESS_CAP as nat
    } else {
        progress
    }
}

/// The estimate after one more poll that found the fetch alive.
pub fn advance_progress(progress: u64) -> (next: u64)
    ensures
        next == advanced(progress as nat),
        progress <= next,
        progress <= PROGRESS_CAP ==> next <= PROGRESS_CAP,
{
    if progress <= PROGRESS_CAP - PROGRESS_STEP {
        progress + PROGRESS_STEP
    } else if progress <= PROGRESS_CAP {
        PROGRESS_CAP
    } else {
        progress
    }
}

/// The code by which a failed fetch is reported, `None` where it succeeded.
pub open spec fn fetch_failure(exit: ExitView) -> Option<int> {
    if exit.success {
        None
    } else {
        match exit.code {
            Some(code) => Some(code),
            None => Some(NO_EXIT_CODE as int),
        }
    }
}

/// Judges the exit of the fetch process: `None` for success, otherwise the
/// exit code to report.
pub fn fetch_exit_code(exit: &ProcessExit) -> (failure: Option<i32>)
    ensures
        match failure {
            Some(code) => fetch_failure(exit@) == Some(code as int),
            None => fetch_failure(exit@) is None,
        },
{
    if exit.success {
        None
    } else {
        match exit.code {
            Some(code) => Some(code),
            None => Some(NO_EXIT_CODE),
        }
    }
}

} // verus!
