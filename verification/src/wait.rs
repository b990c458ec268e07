//! Poll-based wait operations over any [`WaitPin`].
//!
//! Scheduling is single-threaded and cooperative: a wait is a small value
//! that an external driver polls repeatedly, changing the pin's level between
//! polls. A poll is either [`WaitPoll::Ready`] or [`WaitPoll::Pending`];
//! operations that can fail do so when they are constructed, so that a poll
//! itself never fails.

use vstd::prelude::*;

use crate::pin::{flip, flip_level, State, WaitPin};

verus! {

/// The outcome of one poll of a wait operation.
#[derive(Clone, Copy, PartialEq, Eq, Structural, Debug)]
pub enum WaitPoll {
    /// The waited-for condition has not occurred; poll again after the pin
    /// changes.
    Pending,
    /// The waited-for condition holds now.
    Ready,
}

/// Which of the two sequential level waits an edge wait is in.
#[derive(Clone, Copy, PartialEq, Eq, Structural, Debug)]
pub enum EdgePhase {
    /// Still waiting for the starting level of the edge.
    First,
    /// The starting level was observed; waiting for the opposite level.
    Second,
}

/// A wait until the pin is at one target level.
///
/// Resolves on the first poll at which the level is the target; it never
/// fails, and it stays pending while the pin has no level at all.
#[derive(Debug)]
pub struct LevelWait {
    target: State,
}

impl LevelWait {
    /// The level this wait resolves on.
    pub closed spec fn target(&self) -> State {
        self.target
    }

    /// Begins a wait for `target`.
    pub fn new(target: State) -> (w: Self)
        ensures
            w.target() == target,
    {
        LevelWait { target }
    }

    /// Polls the wait against `pin`: ready exactly when the pin's level is
    /// the target.
    pub fn poll<T: WaitPin>(&self, pin: &mut T) -> (r: WaitPoll)
        ensures
            final(pin).level() == old(pin).level(),
            r is Ready <==> old(pin).level() == Some(self.target()),
    {
        pin.poll_level(self.target)
    }
}

/// A wait for a genuine edge: first the starting level, then the opposite
/// level, strictly in that order.
///
/// Composing two sequential level waits guarantees that the caller observes a
/// real transition rather than possibly being at the end level already.
#[derive(Debug)]
pub struct EdgeWait {
    first: State,
    phase: EdgePhase,
}

impl EdgeWait {
    /// The starting level of the edge (the level waited for first).
    pub closed spec fn first(&self) -> State {
        self.first
    }

    /// Which of the two sequential level waits is current.
    pub closed spec fn phase(&self) -> EdgePhase {
        self.phase
    }

    /// Begins a wait for a low-to-high transition.
    pub fn rising() -> (w: Self)
        ensures
            w.first() == State::Low,
            w.phase() is First,
    {
        EdgeWait { first: State::Low, phase: EdgePhase::First }
    }

    /// Begins a wait for a high-to-low transition.
    pub fn falling() -> (w: Self)
        ensures
            w.first() == State::High,
            w.phase() is First,
    {
        EdgeWait { first: State::High, phase: EdgePhase::First }
    }

    /// Polls the wait against `pin`.
    ///
    /// While the starting level has not been observed, the poll is pending;
    /// once it has been, the wait becomes a wait for the opposite level and
    /// is ready exactly when the pin reaches it. The two waits are strictly
    /// sequential, so a single poll can never resolve the whole edge.
    pub fn poll<T: WaitPin>(&mut self, pin: &mut T) -> (r: WaitPoll)
        ensures
            final(pin).level() == old(pin).level(),
            final(self).first() == old(self).first(),
            old(self).phase() is First && old(pin).level() == Some(old(self).first())
                ==> final(self).phase() is Second && r is Pending,
            old(self).phase() is First && old(pin).level() != Some(old(self).first())
                ==> final(self).phase() is First && r is Pending,
            old(self).phase() is Second ==> final(self).phase() is Second
                && (r is Ready <==> old(pin).level() == Some(flip(old(self).first()))),
    {
        if matches!(self.phase, EdgePhase::First) {
            match pin.poll_level(self.first) {
                WaitPoll::Ready => {
                    self.phase = EdgePhase::Second;
                    // The pin is at the starting level, so the second wait,
                    // polled now, cannot be at the opposite level yet.
                    WaitPoll::Pending
                },
                WaitPoll::Pending => WaitPoll::Pending,
            }
        } else {
            pin.poll_level(flip_level(self.first))
        }
    }
}

} // verus!
