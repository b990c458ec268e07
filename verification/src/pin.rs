//! Capability contracts for digital pins.
//!
//! A pin is modelled by an electrical level that is either unknown (no level
//! has been driven or sensed yet) or `Low`/`High`. Each capability group is
//! its own trait, so a pin type offers exactly the operations it supports:
//! synchronous reads ([`InputPin`]), writes ([`OutputPin`]), stateful reads of
//! the commanded output ([`StatefulOutputPin`]), and a poll-based level wait
//! ([`WaitPin`]).
//!
//! The contracts describe a deterministic pin: a read reports exactly the
//! modelled level and fails exactly when no level is modelled, and a write
//! always succeeds and sets the modelled level. The error type stays
//! driver-defined; every failure is surfaced to the caller unchanged.

use vstd::prelude::*;

use crate::wait::WaitPoll;

verus! {

/// An electrical level on a digital line.
#[derive(Clone, Copy, PartialEq, Eq, Structural, Debug)]
pub enum State {
    Low,
    High,
}

/// The opposite electrical level.
pub open spec fn flip(s: State) -> State {
    match s {
        State::Low => State::High,
        State::High => State::Low,
    }
}

/// Executable counterpart of [`flip`].
pub fn flip_level(s: State) -> (r: State)
    ensures
        r == flip(s),
{
    match s {
        State::Low => State::High,
        State::High => State::Low,
    }
}

/// The level after a toggle: a known level flips, an unknown level stays
/// unknown (the toggle fails instead of picking an arbitrary level).
pub open spec fn level_after_toggle(l: Option<State>) -> Option<State> {
    match l {
        Some(s) => Some(flip(s)),
        None => None,
    }
}

/// Base capability of every pin: a driver-defined error type and a model of
/// the electrical level, `None` while no level has been driven or sensed.
pub trait DigitalPin: Sized {
    type Error;

    /// The modelled electrical level of the line.
    spec fn level(&self) -> Option<State>;
}

/// A pin whose electrical level can be read.
pub trait InputPin: DigitalPin {
    /// Reports whether the line is high; fails exactly when no level is
    /// modelled.
    fn is_high(&mut self) -> (r: Result<bool, Self::Error>)
        ensures
            final(self).level() == old(self).level(),
            r is Ok <==> old(self).level() is Some,
            r is Ok ==> r->Ok_0 == (old(self).level() == Some(State::High)),
    ;

    /// Reports whether the line is low; the logical negation of
    /// [`InputPin::is_high`], with the same failure on an unknown level.
    fn is_low(&mut self) -> (r: Result<bool, Self::Error>)
        ensures
            final(self).level() == old(self).level(),
            r is Ok <==> old(self).level() is Some,
            r is Ok ==> r->Ok_0 == (old(self).level() == Some(State::Low)),
    ;
}

/// A pin whose electrical level can be driven.
pub trait OutputPin: DigitalPin {
    /// Drives the line low.
    fn set_low(&mut self) -> (r: Result<(), Self::Error>)
        ensures
            r is Ok,
            final(self).level() == Some(State::Low),
    ;

    /// Drives the line high.
    fn set_high(&mut self) -> (r: Result<(), Self::Error>)
        ensures
            r is Ok,
            final(self).level() == Some(State::High),
    ;
}

/// An output pin that can also report the level it was commanded to drive.
pub trait StatefulOutputPin: OutputPin {
    /// Reports whether the commanded output is low; fails exactly when no
    /// level is modelled.
    fn is_set_low(&mut self) -> (r: Result<bool, Self::Error>)
        ensures
            final(self).level() == old(self).level(),
            r is Ok <==> old(self).level() is Some,
            r is Ok ==> r->Ok_0 == (old(self).level() == Some(State::Low)),
    ;

    /// Reports whether the commanded output is high.
    fn is_set_high(&mut self) -> (r: Result<bool, Self::Error>)
        ensures
            final(self).level() == old(self).level(),
            r is Ok <==> old(self).level() is Some,
            r is Ok ==> r->Ok_0 == (old(self).level() == Some(State::High)),
    ;

    /// Flips the commanded output level. On an unknown level the read used to
    /// decide the flip direction fails, and that failure is surfaced
    /// unchanged.
    fn toggle(&mut self) -> (r: Result<(), Self::Error>)
        ensures
            r is Ok <==> old(self).level() is Some,
            final(self).level() == level_after_toggle(old(self).level()),
    {
        if self.is_set_low()? {
            self.set_high()
        } else {
            self.set_low()
        }
    }
}

/// A pin that supports cooperative waiting for a level.
///
/// Waiting is poll-based: an external driver re-polls after it has changed
/// the watched state; the pin itself never schedules anything.
pub trait WaitPin: InputPin {
    /// One poll of "wait until the line is at `target`": ready exactly when
    /// the modelled level equals the target, pending otherwise (also while no
    /// level is modelled — polling never fails).
    fn poll_level(&mut self, target: State) -> (r: WaitPoll)
        ensures
            final(self).level() == old(self).level(),
            r is Ready <==> old(self).level() == Some(target),
    ;
}

} // verus!
