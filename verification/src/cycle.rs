//! One cycle: a single timed interval in one stance, from the notification
//! that opens it to the waiter that ends it.

use vstd::prelude::*;
use vstd::string::*;

use crate::config::Stance;
use crate::notification::Notification;
use crate::signal::TimerSignal;

verus! {

/// How a cycle ended.
#[derive(Debug, Clone, Copy, PartialEq, Eq, Structural)]
pub enum CycleResult {
    /// The time ran out.
    Completed,
    /// The session was told to stop.
    Aborted,
    /// The cycle was told to end early.
    Skipped,
}

/// The three waiters that race while a cycle runs.
#[derive(Debug, Clone, Copy, PartialEq, Eq, Structural)]
pub enum Waiter {
    /// Resolves when the cycle's time has run out.
    Deadline,
    /// Resolves when the signal register reads `Abort`.
    AbortSignal,
    /// Resolves when the signal register reads `Skip`.
    SkipSignal,
}

/// What to run next: the stance to take, for how many minutes, whether this
/// is the first cycle of its session, and for how many seconds to show the
/// notification.
#[derive(Debug, Clone, Copy, PartialEq, Eq, Structural)]
pub struct CycleRequest {
    pub stance: Stance,
    pub duration: u32,
    pub is_initial: bool,
    pub toast_duration: u32,
}

/// The longest a waiter on the signal register may take to see a new value,
/// in milliseconds.
pub const SIGNAL_POLL_MILLIS: u64 = 1;

/// The headline of the notification that opens a cycle.
pub open spec fn prompt_text(stance: Stance, is_initial: bool) -> Seq<char> {
    let request = match stance {
        Stance::Sitting => "Please sit down."@,
        Stance::Standing => "Please stand up."@,
    };
    if is_initial {
        "Session starting. "@ + request
    } else {
        request
    }
}

/// The waiter that a value of the signal register wakes, if any.
pub open spec fn waiter_for(signal: TimerSignal) -> Option<Waiter> {
    match signal {
        TimerSignal::Run => None,
        TimerSignal::Abort => Some(Waiter::AbortSignal),
        TimerSignal::Skip => Some(Waiter::SkipSignal),
    }
}

/// The result of a cycle whose race `winner` has won.
pub open spec fn result_of(winner: Waiter) -> CycleResult {
    match winner {
        Waiter::Deadline => CycleResult::Completed,
        Waiter::AbortSignal => CycleResult::Aborted,
        Waiter::SkipSignal => CycleResult::Skipped,
    }
}

/// Composes the headline of the notification that opens a cycle: what to do,
/// after the words `Session starting.` on the first cycle of a session.
pub fn cycle_prompt(stance: Stance, is_initial: bool) -> (prompt: String)
    ensures
        prompt@ == prompt_text(stance, is_initial),
{
    let request = match stance {
        Stance::Sitting => "Please sit down.",
        Stance::Standing => "Please stand up.",
    };
    if is_initial {
        String::from_str("Session starting. ").concat(request)
    } else {
        String::from_str(request)
    }
}

/// Tells which waiter, if any, a value read from the signal register wakes.
pub fn woken_by(signal: TimerSignal) -> (waiter: Option<Waiter>)
    ensures
        waiter == waiter_for(signal),
{
    match signal {
        TimerSignal::Run => None,
        TimerSignal::Abort => Some(Waiter::AbortSignal),
        TimerSignal::Skip => Some(Waiter::SkipSignal),
    }
}

/// Decides a cycle's result from the waiter that resolved first.
pub fn resolve(winner: Waiter) -> (result: CycleResult)
    ensures
        result == result_of(winner),
{
    match winner {
        Waiter::Deadline => CycleResult::Completed,
        Waiter::AbortSignal => CycleResult::Aborted,
        Waiter::SkipSignal => CycleResult::Skipped,
    }
}

impl CycleRequest {
    /// The seconds the cycle lasts if nothing ends it early.
    pub open spec fn seconds(self) -> int {
        self.duration * 60
    }

    /// The seconds the cycle lasts if nothing ends it early.
    pub fn duration_secs(&self) -> (secs: u64)
        ensures
            secs == self.seconds(),
    {
        let minutes: u64 = self.duration as u64;
        minutes * 60
    }

    /// The one notification that opens the cycle.
    pub fn notification(&self) -> (note: Notification)
        ensures
            note.prompt@ == prompt_text(self.stance, self.is_initial),
            note.next_toast_in == self.duration,
            note.toast_duration == self.toast_duration,
    {
        Notification {
            prompt: cycle_prompt(self.stance, self.is_initial),
            next_toast_in: self.duration,
            toast_duration: self.toast_duration,
        }
    }
}

} // verus!
