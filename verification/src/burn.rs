//! CPU starvation: how long a core is kept busy.
//!
//! Reading the clock and spinning are left to the caller; the decision when
//! to stop is made here, on elapsed nanoseconds.

use vstd::prelude::*;

verus! {

/// The next step of a burn.
#[derive(Debug, Clone, Copy, PartialEq, Eq, Structural)]
pub enum BurnStep {
    /// The burn is over.
    Done,
    /// Start the clock, and come back with the time that has elapsed on it.
    StartClock,
    /// Spin once, and come back with the time that has elapsed.
    Spin,
}

/// The next step of a burn of `duration` nanoseconds, given the nanoseconds
/// that have elapsed since its clock was started, if it was.
pub open spec fn next_burn_step(duration: u128, elapsed: Option<u128>) -> BurnStep {
    if duration == 0 {
        BurnStep::Done
    } else {
        match elapsed {
            None => BurnStep::StartClock,
            Some(nanos) => if nanos < duration {
                BurnStep::Spin
            } else {
                BurnStep::Done
            },
        }
    }
}

/// Decide the next step of a burn of `duration` nanoseconds. A burn of zero is
/// over before the clock is looked at; any other spins until `duration` has
/// elapsed.
pub fn burn_cpu(duration: u128, elapsed: Option<u128>) -> (step: BurnStep)
    ensures
        step == next_burn_step(duration, elapsed),
{
    if duration == 0 {
        return BurnStep::Done;
    }
    match elapsed {
        None => BurnStep::StartClock,
        Some(nanos) => if nanos < duration {
            BurnStep::Spin
        } else {
            BurnStep::Done
        },
    }
}

/// A burn that was started is over exactly when its duration has elapsed, and
/// on a clock that does not run backwards it stays over.
pub proof fn burns_last_their_duration(duration: u128, elapsed: u128, later: u128)
    requires
        elapsed <= later,
    ensures
        next_burn_step(duration, Some(elapsed)) == BurnStep::Done <==> elapsed >= duration,
        next_burn_step(duration, Some(elapsed)) == BurnStep::Done ==> next_burn_step(
            duration,
            Some(later),
        ) == BurnStep::Done,
{
}

} // verus!
