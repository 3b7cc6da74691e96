use vstd::prelude::*;

verus! {

/// How a finished child process ended, as far as the caller cares.
#[derive(Clone, Copy, Debug, PartialEq, Eq, Structural)]
pub enum ProcessOutcome {
    /// The program ran and exited with status zero.
    Success,
    /// The program ran and exited with a status other than zero, or was killed.
    NonZeroExit,
    /// The program could not be started at all.
    LaunchFailed,
}

/// Classifies a child's run: `launched` says whether it could be started,
/// `succeeded` whether it then exited with status zero.
pub fn classify_outcome(launched: bool, succeeded: bool) -> (r: ProcessOutcome)
    ensures
        !launched ==> r == ProcessOutcome::LaunchFailed,
        launched && succeeded ==> r == ProcessOutcome::Success,
        launched && !succeeded ==> r == ProcessOutcome::NonZeroExit,
{
    if !launched {
        ProcessOutcome::LaunchFailed
    } else if succeeded {
        ProcessOutcome::Success
    } else {
        ProcessOutcome::NonZeroExit
    }
}

} // verus!
