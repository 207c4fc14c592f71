use crate::errors::ErrorCode;
use vstd::prelude::*;

verus! {

/// Accepted submissions needed before the inactivity timer first arms.
pub const TIMER_START_AFTER: u64 = 10;

/// Seconds the timer runs from each arming or extension.
pub const TIMER_EXTEND_SECONDS: i64 = 3600;

/// What a submission does to the inactivity timer.
#[derive(Clone, Copy, PartialEq, Eq, Structural, Debug)]
pub enum TimerAction {
    /// The timer stays as it is: either the game has not reached the
    /// starting count, or the timer already ran out and stays inert.
    NoChange,
    /// The timer starts running, until `new_deadline`.
    Armed { new_deadline: i64 },
    /// The running timer is pushed out to `new_deadline`.
    Extended { new_deadline: i64 },
}

/// The timer decision for a submission, taken after the submission has been
/// counted: arm when the count has reached the start threshold and no timer
/// runs yet; extend when a timer runs and the submission came in time; do
/// nothing otherwise. Arming and extending set the deadline to
/// `now + TIMER_EXTEND_SECONDS`; if that sum leaves the 64-bit range, the
/// decision is an arithmetic fault instead.
pub open spec fn timer_decision(
    messages_count: u64,
    timer_active: bool,
    deadline: i64,
    now: i64,
) -> Result<TimerAction, ErrorCode> {
    let due = (!timer_active && messages_count >= TIMER_START_AFTER) || (timer_active
        && now <= deadline);
    if due && now + TIMER_EXTEND_SECONDS > i64::MAX {
        Err(ErrorCode::ArithmeticOverflow)
    } else if !timer_active && messages_count >= TIMER_START_AFTER {
        Ok(TimerAction::Armed { new_deadline: (now + TIMER_EXTEND_SECONDS) as i64 })
    } else if timer_active && now <= deadline {
        Ok(TimerAction::Extended { new_deadline: (now + TIMER_EXTEND_SECONDS) as i64 })
    } else {
        Ok(TimerAction::NoChange)
    }
}

/// Decides whether a submission arms the timer, extends it, or leaves it
/// alone. `messages_count` must already include the submission being
/// processed. A timer that is active but past its deadline is left inert:
/// the submission does not resurrect it.
pub fn evaluate_timer(messages_count: u64, timer_active: bool, deadline: i64, now: i64) -> (r:
    Result<TimerAction, ErrorCode>)
    ensures
        r == timer_decision(messages_count, timer_active, deadline, now),
{
    if !timer_active && messages_count >= TIMER_START_AFTER {
        if now > i64::MAX - TIMER_EXTEND_SECONDS {
            Err(ErrorCode::ArithmeticOverflow)
        } else {
            Ok(TimerAction::Armed { new_deadline: now + TIMER_EXTEND_SECONDS })
        }
    } else if timer_active && now <= deadline {
        if now > i64::MAX - TIMER_EXTEND_SECONDS {
            Err(ErrorCode::ArithmeticOverflow)
        } else {
            Ok(TimerAction::Extended { new_deadline: now + TIMER_EXTEND_SECONDS })
        }
    } else {
        Ok(TimerAction::NoChange)
    }
}

} // verus!
