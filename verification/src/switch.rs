//! The polarity-aware switch: a pin plus a fixed polarity, translating
//! logical operations into electrical ones.
//!
//! The whole translation is the table below; every operation delegates to
//! one or two pin primitives and surfaces their result unchanged — the switch
//! has no failure modes of its own and never exposes the raw level.
//!
//! | logical operation  | active-high       | active-low        |
//! |--------------------|-------------------|-------------------|
//! | is active          | level is high     | level is low      |
//! | on                 | drive high        | drive low         |
//! | off                | drive low         | drive high        |
//! | is on              | commanded high    | commanded low     |
//! | is off             | commanded low     | commanded high    |
//! | toggle             | flip the line     | flip the line     |

use vstd::prelude::*;

use crate::pin::{
    flip, level_after_toggle, DigitalPin, InputPin, OutputPin, State, StatefulOutputPin, WaitPin,
};
use crate::wait::{LevelWait, WaitPoll};

verus! {

/// How the electrical level of a line maps to the logical state of the
/// switch wired to it. Fixed for the lifetime of a [`Switch`].
#[derive(Clone, Copy, PartialEq, Eq, Structural, Debug)]
pub enum Polarity {
    /// Logically active (and on) exactly when the line is high.
    ActiveHigh,
    /// Logically active (and on) exactly when the line is low.
    ActiveLow,
}

/// The electrical level at which a switch of polarity `p` is active/on.
pub open spec fn active_level(p: Polarity) -> State {
    match p {
        Polarity::ActiveHigh => State::High,
        Polarity::ActiveLow => State::Low,
    }
}

/// The electrical level at which a switch of polarity `p` is inactive/off.
pub open spec fn inactive_level(p: Polarity) -> State {
    flip(active_level(p))
}

/// Whether a line at level `l` reads as active/on under polarity `p`.
pub open spec fn is_active_level(p: Polarity, l: State) -> bool {
    l == active_level(p)
}

/// The line level after the "on" command under polarity `p`, from any
/// starting level.
pub open spec fn level_after_on(p: Polarity, l: Option<State>) -> Option<State> {
    Some(active_level(p))
}

/// The line level after the "off" command under polarity `p`, from any
/// starting level.
pub open spec fn level_after_off(p: Polarity, l: Option<State>) -> Option<State> {
    Some(inactive_level(p))
}

/// One pin and one fixed polarity. All logical operations are interpreted
/// through the polarity; the raw electrical level is never exposed.
///
/// The switch owns its pin exclusively. Where several independent readers
/// must observe one physical line, the sharing primitive wraps the pin
/// outside this library and arranges all mutual exclusion; the switch
/// performs no locking of its own.
pub struct Switch<T> {
    pin: T,
    active: Polarity,
}

impl<T> Switch<T> {
    /// The polarity chosen at construction.
    pub closed spec fn polarity(&self) -> Polarity {
        self.active
    }

    /// The wrapped pin.
    pub closed spec fn pin(&self) -> T {
        self.pin
    }

    /// Wraps `pin` in a switch of the given polarity. The switch takes
    /// exclusive ownership of the pin.
    pub fn new(pin: T, polarity: Polarity) -> (s: Self)
        ensures
            s.pin() == pin,
            s.polarity() == polarity,
    {
        Switch { pin, active: polarity }
    }

    /// Consumes the switch and hands the pin back.
    pub fn into_pin(self) -> (r: T)
        ensures
            r == self.pin(),
    {
        self.pin
    }
}

impl<T: DigitalPin> Switch<T> {
    /// The modelled level of the wrapped pin.
    pub open spec fn level(&self) -> Option<State> {
        self.pin().level()
    }
}

impl<T: InputPin> Switch<T> {
    /// Whether the switch is logically active: reads the line and translates
    /// through the polarity. The pin's result, error included, is surfaced
    /// unchanged.
    pub fn is_active(&mut self) -> (r: Result<bool, T::Error>)
        ensures
            final(self).level() == old(self).level(),
            final(self).polarity() == old(self).polarity(),
            r is Ok <==> old(self).level() is Some,
            r matches Ok(b) ==> old(self).level() matches Some(l)
                && b == is_active_level(old(self).polarity(), l),
    {
        match self.active {
            Polarity::ActiveHigh => self.pin.is_high(),
            Polarity::ActiveLow => self.pin.is_low(),
        }
    }
}

impl<T: OutputPin> Switch<T> {
    /// Commands the switch on: drives the line to the active level.
    pub fn on(&mut self) -> (r: Result<(), T::Error>)
        ensures
            final(self).polarity() == old(self).polarity(),
            r is Ok,
            final(self).level() == level_after_on(old(self).polarity(), old(self).level()),
    {
        match self.active {
            Polarity::ActiveHigh => self.pin.set_high(),
            Polarity::ActiveLow => self.pin.set_low(),
        }
    }

    /// Commands the switch off: drives the line to the inactive level.
    pub fn off(&mut self) -> (r: Result<(), T::Error>)
        ensures
            final(self).polarity() == old(self).polarity(),
            r is Ok,
            final(self).level() == level_after_off(old(self).polarity(), old(self).level()),
    {
        match self.active {
            Polarity::ActiveHigh => self.pin.set_low(),
            Polarity::ActiveLow => self.pin.set_high(),
        }
    }
}

impl<T: StatefulOutputPin> Switch<T> {
    /// Whether the switch was last commanded on: reads the commanded output
    /// level and translates through the polarity.
    pub fn is_on(&mut self) -> (r: Result<bool, T::Error>)
        ensures
            final(self).level() == old(self).level(),
            final(self).polarity() == old(self).polarity(),
            r is Ok <==> old(self).level() is Some,
            r matches Ok(b) ==> old(self).level() matches Some(l)
                && b == is_active_level(old(self).polarity(), l),
    {
        match self.active {
            Polarity::ActiveHigh => self.pin.is_set_high(),
            Polarity::ActiveLow => self.pin.is_set_low(),
        }
    }

    /// Whether the switch was last commanded off: the negation of
    /// [`Switch::is_on`], with the same failure on an unknown level.
    pub fn is_off(&mut self) -> (r: Result<bool, T::Error>)
        ensures
            final(self).level() == old(self).level(),
            final(self).polarity() == old(self).polarity(),
            r is Ok <==> old(self).level() is Some,
            r matches Ok(b) ==> old(self).level() matches Some(l)
                && b == !is_active_level(old(self).polarity(), l),
    {
        let r = match self.active {
            Polarity::ActiveHigh => self.pin.is_set_low(),
            Polarity::ActiveLow => self.pin.is_set_high(),
        };
        proof {
            assert(self.level() matches Some(s) ==> s is Low || s is High);
        }
        r
    }

    /// Flips the switch: toggling the electrical line toggles the logical
    /// state under either polarity, so this is polarity-independent.
    pub fn toggle(&mut self) -> (r: Result<(), T::Error>)
        ensures
            final(self).polarity() == old(self).polarity(),
            r is Ok <==> old(self).level() is Some,
            final(self).level() == level_after_toggle(old(self).level()),
    {
        self.pin.toggle()
    }
}

impl<T: WaitPin> Switch<T> {
    /// Begins a wait until the switch is logically active: a wait for the
    /// active level of this polarity.
    pub fn wait_for_active(&self) -> (w: LevelWait)
        ensures
            w.target() == active_level(self.polarity()),
    {
        match self.active {
            Polarity::ActiveHigh => LevelWait::new(State::High),
            Polarity::ActiveLow => LevelWait::new(State::Low),
        }
    }

    /// Begins the complementary wait, until the switch is logically
    /// inactive.
    pub fn wait_for_inactive(&self) -> (w: LevelWait)
        ensures
            w.target() == inactive_level(self.polarity()),
    {
        match self.active {
            Polarity::ActiveHigh => LevelWait::new(State::Low),
            Polarity::ActiveLow => LevelWait::new(State::High),
        }
    }

    /// Begins a wait until the level changes: reads the current level
    /// synchronously and waits for its opposite. Defined purely in
    /// electrical terms, so it is polarity-independent; it fails exactly
    /// when the current level is unknown, and the read's error is surfaced
    /// unchanged.
    pub fn wait_for_change(&mut self) -> (r: Result<LevelWait, T::Error>)
        ensures
            final(self).level() == old(self).level(),
            final(self).polarity() == old(self).polarity(),
            r is Ok <==> old(self).level() is Some,
            r matches Ok(w) ==> Some(flip(w.target())) == old(self).level(),
    {
        if self.pin.is_high()? {
            Ok(LevelWait::new(State::Low))
        } else {
            proof {
                assert(self.level() matches Some(s) ==> s is Low || s is High);
            }
            Ok(LevelWait::new(State::High))
        }
    }

    /// Polls a wait begun on this switch: ready exactly when the pin's level
    /// is the wait's target.
    pub fn poll_wait(&mut self, w: &LevelWait) -> (r: WaitPoll)
        ensures
            final(self).level() == old(self).level(),
            final(self).polarity() == old(self).polarity(),
            r is Ready <==> old(self).level() == Some(w.target()),
    {
        w.poll(&mut self.pin)
    }
}

} // verus!
