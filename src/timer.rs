//! The decisions of the periodic executor's loop. The loop itself, with its thread,
//! its sleeps and its stop channel, runs outside the library and asks these after
//! each run of the action.
use vstd::prelude::*;

verus! {

/// What the loop does after the action returned.
#[derive(Debug, Copy, Clone, PartialEq, Eq, Structural)]
pub enum TimerAction {
    /// A stop was requested: leave the loop.
    Stop,
    /// Sleep this many nanoseconds, then start the next iteration.
    Sleep(u64),
}

/// How long to sleep after an iteration that started `elapsed` nanoseconds ago, so that
/// iterations start one cadence apart; nothing when the iteration overran the cadence.
pub fn sleep_duration(cadence: u64, elapsed: u64) -> (r: u64)
    ensures
        r == if elapsed >= cadence { 0 } else { cadence - elapsed },
        elapsed + r == if elapsed >= cadence { elapsed } else { cadence },
{
    if elapsed >= cadence {
        0
    } else {
        cadence - elapsed
    }
}

/// The step after the action returned: stop if asked to, else sleep out the cadence.
pub fn after_action(stop_requested: bool, cadence: u64, elapsed: u64) -> (r: TimerAction)
    ensures
        stop_requested ==> r == TimerAction::Stop,
        !stop_requested ==> r == TimerAction::Sleep(
            if elapsed >= cadence { 0 } else { (cadence - elapsed) as u64 },
        ),
{
    if stop_requested {
        TimerAction::Stop
    } else {
        TimerAction::Sleep(sleep_duration(cadence, elapsed))
    }
}

} // verus!
