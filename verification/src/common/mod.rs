//! Running a program elevated and waiting for it.
use vstd::prelude::*;

verus! {

/// The exit code that Windows reports while a process still runs
/// (`STILL_ACTIVE`).
pub const STILL_ACTIVE: u32 = 259;

/// Where an elevated program stands, by its exit code.
#[derive(Debug, PartialEq, Eq, Structural)]
pub enum ElevatedRun {
    /// Still running: wait and ask again.
    Running,
    /// Ended with exit code 0.
    Succeeded,
    /// Ended with any other code.
    Failed,
}

/// Reads the exit code of the elevated program.
pub fn elevated_run_state(exit_code: u32) -> (s: ElevatedRun)
    ensures
        exit_code == STILL_ACTIVE ==> s == ElevatedRun::Running,
        exit_code == 0 ==> s == ElevatedRun::Succeeded,
        exit_code != STILL_ACTIVE && exit_code != 0 ==> s == ElevatedRun::Failed,
{
    if exit_code == STILL_ACTIVE {
        ElevatedRun::Running
    } else if exit_code == 0 {
        ElevatedRun::Succeeded
    } else {
        ElevatedRun::Failed
    }
}

} // verus!
