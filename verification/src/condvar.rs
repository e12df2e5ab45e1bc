//! Conditional variable: what a timed wait decides after each wake-up.

use vstd::prelude::*;

verus! {

/// What a timed wait does after the system woke it up.
#[derive(Debug, Clone, Copy, PartialEq, Eq, Structural)]
pub enum WaitStep {
    /// The awaited condition holds: the wait ends successfully.
    Ready,
    /// The time ran out and the condition does not hold: the wait fails.
    TimedOut,
    /// Woken up before the deadline (possibly spuriously): check the condition and wait
    /// again.
    WaitAgain,
}

/// The step after a wake-up of a timed wait that did not fail otherwise: when the wake-up
/// came from the deadline, the wait ends, successfully if the condition holds by then;
/// any other wake-up leads back to checking the condition.
pub fn after_timed_wake_up(timed_out: bool, ready: bool) -> (r: WaitStep)
    ensures
        timed_out && ready ==> r == WaitStep::Ready,
        timed_out && !ready ==> r == WaitStep::TimedOut,
        !timed_out ==> r == WaitStep::WaitAgain,
{
    if timed_out {
        if ready {
            WaitStep::Ready
        } else {
            WaitStep::TimedOut
        }
    } else {
        WaitStep::WaitAgain
    }
}

/// The step before (possibly) waiting: a condition that already holds ends the wait
/// successfully.
pub fn before_wait(ready: bool) -> (r: WaitStep)
    ensures
        ready ==> r == WaitStep::Ready,
        !ready ==> r == WaitStep::WaitAgain,
{
    if ready {
        WaitStep::Ready
    } else {
        WaitStep::WaitAgain
    }
}

} // verus!
