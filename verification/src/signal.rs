//! The signal register: the one cell through which a running cycle is told
//! to stop or to end early.

use vstd::prelude::*;

verus! {

/// What the user wants of the running timer.
#[derive(Debug, Clone, Copy, PartialEq, Eq, Structural)]
pub enum TimerSignal {
    /// Nothing: keep going.
    Run,
    /// End the session.
    Abort,
    /// End the current cycle now and go on with the next.
    Skip,
}

/// Holds the pending signal. There is no queue: a write replaces whatever was
/// there. The program around the library guards it against concurrent access.
#[derive(Debug)]
pub struct SignalRegister {
    value: TimerSignal,
}

impl View for SignalRegister {
    type V = TimerSignal;

    closed spec fn view(&self) -> TimerSignal {
        self.value
    }
}

impl SignalRegister {
    /// A register that reads `Run`.
    pub fn new() -> (register: SignalRegister)
        ensures
            register@ == TimerSignal::Run,
    {
        SignalRegister { value: TimerSignal::Run }
    }

    /// Overwrites the register.
    pub fn set(&mut self, signal: TimerSignal)
        ensures
            final(self)@ == signal,
        no_unwind
    {
        self.value = signal;
    }

    /// Reads the register and leaves it as it is.
    pub fn get(&self) -> (signal: TimerSignal)
        ensures
            signal == self@,
    {
        self.value
    }

    /// Puts the register back to `Run`.
    pub fn reset(&mut self)
        ensures
            final(self)@ == TimerSignal::Run,
        no_unwind
    {
        self.set(TimerSignal::Run);
    }
}

} // verus!
