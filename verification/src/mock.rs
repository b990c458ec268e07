//! A deterministic, in-memory digital pin, used as a test double for the
//! switch layer and testable in isolation.
//!
//! The pin is a three-state machine: it starts with no level at all
//! (deliberately, to catch code paths that read before any write), and moves
//! to `Low` or `High` only through an explicit write or through construction
//! with a level; once set, it never becomes unknown again. Reads fail with a
//! "state not set" error while the level is unknown; waits are poll-based and
//! never fail once begun.

use vstd::prelude::*;

use crate::pin::{DigitalPin, InputPin, OutputPin, State, StatefulOutputPin, WaitPin};
use crate::wait::{EdgeWait, LevelWait, WaitPoll};

verus! {

/// The deterministic mock pin. The backing level is public so that tests can
/// seed and inspect it directly.
pub struct Pin {
    /// The electrical level, `None` until a level is driven or seeded.
    pub state: Option<State>,
}

/// The one locally defined error: a read was attempted while the pin had no
/// level. All pin operations surface it unchanged; none swallows it.
#[derive(Debug)]
pub struct MockError(&'static str);

impl Pin {
    /// A pin with no level set.
    pub fn new() -> (p: Pin)
        ensures
            p.level() is None,
    {
        Pin { state: None }
    }

    /// A pin seeded with `state`, bypassing the unknown level.
    pub fn with_state(state: State) -> (p: Pin)
        ensures
            p.level() == Some(state),
    {
        Pin { state: Some(state) }
    }

    /// Begins a wait until the pin is high; resolves immediately if it
    /// already is.
    pub fn wait_for_high(&self) -> (w: LevelWait)
        ensures
            w.target() == State::High,
    {
        LevelWait::new(State::High)
    }

    /// Begins a wait until the pin is low; resolves immediately if it
    /// already is.
    pub fn wait_for_low(&self) -> (w: LevelWait)
        ensures
            w.target() == State::Low,
    {
        LevelWait::new(State::Low)
    }

    /// Begins a wait for a genuine low-to-high transition: first low is
    /// awaited, then high, so the caller never resolves on an already-high
    /// line.
    pub fn wait_for_rising_edge(&self) -> (w: EdgeWait)
        ensures
            w.first() == State::Low,
            w.phase() is First,
    {
        EdgeWait::rising()
    }

    /// Begins a wait for a genuine high-to-low transition.
    pub fn wait_for_falling_edge(&self) -> (w: EdgeWait)
        ensures
            w.first() == State::High,
            w.phase() is First,
    {
        EdgeWait::falling()
    }

    /// Begins a wait for the next edge in either direction: reads the level
    /// now and waits for a transition away from it and back past it. Fails
    /// exactly when the level is unknown, via the synchronous read; once
    /// begun, polling the returned wait never fails.
    pub fn wait_for_any_edge(&mut self) -> (r: Result<EdgeWait, MockError>)
        ensures
            final(self).level() == old(self).level(),
            r is Ok <==> old(self).level() is Some,
            r matches Ok(w) ==> w.phase() is First && Some(w.first()) == old(self).level(),
    {
        if self.is_high()? {
            Ok(EdgeWait::falling())
        } else {
            Ok(EdgeWait::rising())
        }
    }
}

impl Default for Pin {
    /// Same as [`Pin::new`]: a pin with no level set.
    fn default() -> (p: Self)
        ensures
            p.level() is None,
    {
        Pin::new()
    }
}

impl DigitalPin for Pin {
    type Error = MockError;

    open spec fn level(&self) -> Option<State> {
        self.state
    }
}

impl InputPin for Pin {
    fn is_high(&mut self) -> (r: Result<bool, MockError>) {
        match self.state {
            Some(State::High) => Ok(true),
            Some(State::Low) => Ok(false),
            None => Err(MockError("state not set")),
        }
    }

    fn is_low(&mut self) -> (r: Result<bool, MockError>) {
        let r = self.is_high();
        proof {
            assert(self.level() matches Some(s) ==> s is Low || s is High);
        }
        match r {
            Ok(v) => Ok(!v),
            Err(e) => Err(e),
        }
    }
}

impl OutputPin for Pin {
    fn set_low(&mut self) -> (r: Result<(), MockError>) {
        self.state = Some(State::Low);
        Ok(())
    }

    fn set_high(&mut self) -> (r: Result<(), MockError>) {
        self.state = Some(State::High);
        Ok(())
    }
}

impl StatefulOutputPin for Pin {
    // The mock does not distinguish the requested output from the sensed
    // level: both read the same backing state, so these are the input reads.
    fn is_set_low(&mut self) -> (r: Result<bool, MockError>) {
        self.is_low()
    }

    fn is_set_high(&mut self) -> (r: Result<bool, MockError>) {
        self.is_high()
    }
}

impl WaitPin for Pin {
    fn poll_level(&mut self, target: State) -> (r: WaitPoll) {
        match (self.state, target) {
            (Some(State::High), State::High) => WaitPoll::Ready,
            (Some(State::Low), State::Low) => WaitPoll::Ready,
            _ => WaitPoll::Pending,
        }
    }
}

} // verus!
