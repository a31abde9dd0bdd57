//! Waiting for runtime processes.
use vstd::prelude::*;

verus! {

/// What a wait does next.
#[derive(Clone, Copy, Debug, PartialEq, Eq, Structural)]
pub enum PollStep {
    /// What was waited for is there.
    Found,
    /// The time is up.
    Expired,
    /// Look again after the interval.
    Sleep,
}

/// Decides a wait after one look: what is found counts even when the time is
/// up.
pub fn poll_step(found: bool, now: u128, deadline: u128) -> (step: PollStep)
    ensures
        step == (if found {
            PollStep::Found
        } else if now >= deadline {
            PollStep::Expired
        } else {
            PollStep::Sleep
        }),
{
    if found {
        PollStep::Found
    } else if now >= deadline {
        PollStep::Expired
    } else {
        PollStep::Sleep
    }
}

/// Whether a process of this number can exist at all.
pub fn can_be_alive(pid: u32) -> (possible: bool)
    ensures
        possible == (pid != 0 && pid != u32::MAX),
{
    pid != 0 && pid != u32::MAX
}

/// How a log is opened for a runtime process.
#[derive(Clone, Copy, Debug, PartialEq, Eq, Structural)]
pub enum LogMode {
    Append,
    TruncateRestricted0600,
}

} // verus!
