//! The cancellation flag shared between the asynchronous interruption
//! handler and the interactive loop.
//!
//! The process-wide flag starts as "running" and transitions to "stopped"
//! exactly once, from the interruption handler; it never reverts. This
//! module holds the flag's transition logic as a plain value; the shell
//! keeps the actual atomic cell, performs the single store from its signal
//! handler, and hands the current reading into every step of the loop.

use vstd::prelude::*;

verus! {

/// The cancellation flag: `running` is true until the interruption
/// handler observes the quit signal.
pub struct CancelFlag {
    running: bool,
}

/// The transition performed by the interruption handler: whatever the
/// flag held before, afterwards it is "stopped".
pub closed spec fn stop_transition(flag: CancelFlag) -> CancelFlag {
    CancelFlag { running: false }
}

impl CancelFlag {
    pub closed spec fn is_running_spec(&self) -> bool {
        self.running
    }

    /// A fresh flag is in the "running" state.
    pub fn new() -> (r: Self)
        ensures
            r.is_running_spec(),
    {
        CancelFlag { running: true }
    }

    /// The interruption handler's single store: after it, the flag reads
    /// "stopped", whatever it read before.
    pub fn stop(&mut self)
        ensures
            *final(self) == stop_transition(*old(self)),
            !final(self).is_running_spec(),
    {
        self.running = false;
    }

    /// A lock-free read of the flag, usable at any point in the loop.
    pub fn is_running(&self) -> (r: bool)
        ensures
            r == self.is_running_spec(),
    {
        self.running
    }
}

/// Stopping is idempotent: delivering the interruption any number of
/// times leaves the flag "stopped", and a stopped flag never reverts to
/// "running".
pub proof fn lemma_stop_idempotent(flag: CancelFlag)
    ensures
        stop_transition(stop_transition(flag)) == stop_transition(flag),
        !stop_transition(flag).is_running_spec(),
{
}

} // verus!
