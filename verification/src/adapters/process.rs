//! Decisions of the process supervisor: when to stop a child, and which
//! failures matter.

use vstd::prelude::*;

verus! {

/// Bytes of a child's stdout that are retained.
pub const MAX_CAPTURED_STDOUT_BYTES: usize = 131073;

/// Bytes of a child's stderr that are retained.
pub const MAX_CAPTURED_STDERR_BYTES: usize = 65536;

/// What the supervisor does on one tick.
#[derive(Clone, Copy, Debug, PartialEq, Eq)]
pub enum Supervision {
    /// Kill the process group: the run was cancelled.
    Cancel,
    /// Kill the process group: the timeout elapsed.
    TimeOut,
    /// The child exited by itself.
    Finished,
    /// Sleep and look again.
    Wait,
}

/// Cancellation wins over the timeout, which wins over a child that exited.
pub fn supervise(cancelled: bool, timed_out: bool, exited: bool) -> (s: Supervision)
    ensures
        cancelled ==> s == Supervision::Cancel,
        !cancelled && timed_out ==> s == Supervision::TimeOut,
        !cancelled && !timed_out && exited ==> s == Supervision::Finished,
        !cancelled && !timed_out && !exited ==> s == Supervision::Wait,
{
    if cancelled {
        Supervision::Cancel
    } else if timed_out {
        Supervision::TimeOut
    } else if exited {
        Supervision::Finished
    } else {
        Supervision::Wait
    }
}

/// A failure to write the child's stdin is an error only when the child
/// succeeded and the failure is not a broken pipe (a child may close stdin
/// early).
pub fn stdin_failure_matters(broken_pipe: bool, status_success: bool) -> (b: bool)
    ensures
        b == (!broken_pipe && status_success),
{
    !broken_pipe && status_success
}

} // verus!
