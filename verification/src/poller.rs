//! The readiness multiplexer: classification of one bounded readiness
//! poll over the watched descriptors.
//!
//! The blocking poll primitive itself runs in the shell; what comes back
//! from it — a count of ready descriptors, or an error number — is handed
//! here as plain values and classified into the loop's closed set of
//! outcomes. Interruption by a signal is always a recoverable outcome,
//! never a crash: the primitive reports it for any delivered signal, and
//! only the loop can tell an intended shutdown from an unrelated one. Any
//! other failure of the primitive is a platform or programming error the
//! design does not recover from.

use vstd::prelude::*;

verus! {

/// What one bounded readiness poll meant for the loop.
#[derive(Clone, Copy, Debug, PartialEq, Eq, Structural)]
pub enum PollOutcome {
    /// The timeout elapsed with no descriptor ready.
    TimedOut,
    /// The watched descriptor is ready to be read.
    Ready,
    /// The blocking wait was cut short by a delivered signal.
    InterruptedBySignal,
    /// Some descriptor reported an event the loop does not act on.
    Ignore,
}

/// The raw result of the readiness-poll primitive, as plain values:
/// either the number of descriptors with events, or the error number it
/// failed with.
#[derive(Clone, Copy, Debug, PartialEq, Eq, Structural)]
pub enum RawPollResult {
    Completed(u32),
    Failed(i32),
}

/// A readiness-poll failure the loop does not recover from, carrying the
/// primitive's error number.
#[derive(Clone, Copy, Debug, PartialEq, Eq, Structural)]
pub struct PollFailure {
    pub errno: i32,
}

/// The error number with which the poll primitive reports that a signal
/// interrupted the blocking wait (EINTR).
pub const ERRNO_INTERRUPTED: i32 = 4;

/// The bounded timeout of one poll call, in milliseconds: short enough
/// that the cancellation flag is observed periodically even with no I/O
/// activity.
pub const POLL_TIMEOUT_MS: u16 = 100;

/// One descriptor in the readiness set, with the interest flag the loop
/// watches it for.
#[derive(Clone, Copy, Debug, PartialEq, Eq, Structural)]
pub struct WatchedFd {
    pub fd: i32,
    pub wants_read: bool,
}

/// How one raw poll result is classified: a zero count is a timeout; a
/// positive count is readiness when the watched descriptor reported the
/// readable event, and a spurious event to ignore otherwise; the
/// interruption error number is a recoverable interruption; any other
/// error number is an unrecoverable failure.
pub open spec fn classify_spec(raw: RawPollResult, readable: bool) -> Result<
    PollOutcome,
    PollFailure,
> {
    match raw {
        RawPollResult::Completed(n) => if n == 0 {
            Ok(PollOutcome::TimedOut)
        } else if readable {
            Ok(PollOutcome::Ready)
        } else {
            Ok(PollOutcome::Ignore)
        },
        RawPollResult::Failed(e) => if e == ERRNO_INTERRUPTED {
            Ok(PollOutcome::InterruptedBySignal)
        } else {
            Err(PollFailure { errno: e })
        },
    }
}

/// Classifies one raw poll result. `readable` says whether the watched
/// descriptor's returned events include the readable bit; it is only
/// consulted when at least one descriptor reported an event. No input
/// makes this crash: a descriptor with no pending data yields a timeout,
/// pending readable data yields readiness, and an interrupted wait yields
/// the recoverable interruption outcome.
pub fn classify_poll(raw: RawPollResult, readable: bool) -> (r: Result<PollOutcome, PollFailure>)
    ensures
        r == classify_spec(raw, readable),
        raw == RawPollResult::Completed(0u32) ==> r == Ok::<PollOutcome, PollFailure>(
            PollOutcome::TimedOut,
        ),
        (raw matches RawPollResult::Completed(n) && n > 0 && readable) ==> r == Ok::<
            PollOutcome,
            PollFailure,
        >(PollOutcome::Ready),
        raw == RawPollResult::Failed(ERRNO_INTERRUPTED) ==> r == Ok::<PollOutcome, PollFailure>(
            PollOutcome::InterruptedBySignal,
        ),
{
    match raw {
        RawPollResult::Completed(n) => {
            if n == 0 {
                Ok(PollOutcome::TimedOut)
            } else if readable {
                Ok(PollOutcome::Ready)
            } else {
                Ok(PollOutcome::Ignore)
            }
        },
        RawPollResult::Failed(e) => {
            if e == ERRNO_INTERRUPTED {
                Ok(PollOutcome::InterruptedBySignal)
            } else {
                Err(PollFailure { errno: e })
            }
        },
    }
}

/// The readiness set for one loop iteration: exactly the standard-input
/// descriptor, watched for readability. The set is rebuilt fresh on every
/// iteration, so no registration state persists across polls.
pub fn stdin_watch_set(stdin_fd: i32) -> (r: Vec<WatchedFd>)
    ensures
        r@.len() == 1,
        r@[0] == (WatchedFd { fd: stdin_fd, wants_read: true }),
{
    let mut set_out: Vec<WatchedFd> = Vec::new();
    set_out.push(WatchedFd { fd: stdin_fd, wants_read: true });
    set_out
}

} // verus!
