//! Outcome guard: a single-use token handed out when an operation begins.
//! Creating it reports `RapidBlink` (operation in flight); exactly one of the
//! consuming calls then reports the terminal outcome. Consuming `self` makes
//! a second report impossible, and an abandoned guard is resolved to
//! `Failure` so no operation ends without a report.

use vstd::prelude::*;
use crate::led::LedState;
use crate::led::StatusSignal;
use crate::led::set_led_state;

verus! {

/// Report the status of one operation to the indicator: in progress on
/// creation, then exactly one terminal outcome.
pub struct Status;

impl Status {
    /// Begin an operation: reports that it is in flight and returns the
    /// guard that must resolve it.
    pub fn new(signal: &mut StatusSignal) -> (guard: Status)
        ensures
            *final(signal) == old(signal).spec_set(LedState::RapidBlink),
            final(signal).pending() == Some(LedState::RapidBlink),
    {
        set_led_state(signal, LedState::RapidBlink);
        Status
    }

    /// Report the operation's terminal state. Consumes the guard, so it can
    /// run only once.
    pub fn set_result(self, signal: &mut StatusSignal, state: LedState)
        ensures
            *final(signal) == old(signal).spec_set(state),
            final(signal).pending() == Some(state),
    {
        set_led_state(signal, state);
    }

    /// Report success. Can only be called once.
    pub fn success(self, signal: &mut StatusSignal)
        ensures
            *final(signal) == old(signal).spec_set(LedState::Success),
            final(signal).pending() == Some(LedState::Success),
    {
        self.set_result(signal, LedState::Success);
    }

    /// Report failure. Can only be called once.
    pub fn failure(self, signal: &mut StatusSignal)
        ensures
            *final(signal) == old(signal).spec_set(LedState::Failure),
            final(signal).pending() == Some(LedState::Failure),
    {
        self.set_result(signal, LedState::Failure);
    }

    /// Resolve a guard that was dropped without an explicit outcome: an
    /// abandoned operation is reported as a failure, never as a success and
    /// never silently.
    pub fn abandon(self, signal: &mut StatusSignal)
        ensures
            *final(signal) == old(signal).spec_set(LedState::Failure),
            final(signal).pending() == Some(LedState::Failure),
            final(signal).pending() != Some(LedState::Success),
    {
        self.set_result(signal, LedState::Failure);
    }
}

} // verus!
