//! The supervisor's restart policy.
//!
//! Each worker run ends in one of three ways: a clean exit after a
//! shutdown command, a requested restart, or a fault.  The supervisor
//! respawns the worker in place for the latter two, keeping the
//! channel endpoints, and the process ends cleanly only when both
//! workers have left cleanly.

use vstd::prelude::*;

verus! {

/// How one worker run ended, as the supervisor sees it: a clean exit,
/// a requested restart, or a fault (whose report the supervisor
/// logs).
#[derive(Debug, Clone, Copy, PartialEq, Eq, Structural)]
pub enum WorkerOutcome {
    CleanExit,
    Restart,
    Fault,
}

impl WorkerOutcome {
    /// Whether the supervisor respawns the worker: after anything but
    /// a clean exit.
    pub fn should_respawn(&self) -> (r: bool)
        ensures
            r == (*self != WorkerOutcome::CleanExit),
    {
        match self {
            WorkerOutcome::CleanExit => false,
            WorkerOutcome::Restart => true,
            WorkerOutcome::Fault => true,
        }
    }
}

/// Whether the process ends cleanly: only when both workers have left
/// cleanly.
pub fn process_exits_clean(scanner: WorkerOutcome, client: WorkerOutcome) -> (r: bool)
    ensures
        r == (scanner == WorkerOutcome::CleanExit && client == WorkerOutcome::CleanExit),
{
    !scanner.should_respawn() && !client.should_respawn()
}

} // verus!
