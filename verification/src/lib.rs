//! A polarity-abstraction layer for binary digital switches (buttons, relays,
//! LEDs) on top of a generic digital-pin abstraction.
//!
//! A [`Switch`](switch::Switch) wraps one pin together with a fixed
//! [`Polarity`](switch::Polarity) and translates logical operations
//! ("is active", "turn on", "turn off") into electrical pin operations, so
//! that application code never needs to know whether the wired signal is
//! active-high or active-low. The switch adds no state and no failure modes
//! of its own: every result, error included, comes from the pin unchanged.
//!
//! The pin side is described by the capability traits in [`pin`]: synchronous
//! reads and writes, stateful reads of the commanded output, and a poll-based
//! level-wait primitive for cooperative, single-threaded waiting, out of
//! which [`wait`] composes level and edge waits. The deterministic in-memory
//! pin in [`mock`] implements all of them and is the intended test double for
//! the switch layer. The general guarantees of the polarity translation are
//! stated and proved in [`laws`].

pub mod laws;
pub mod mock;
pub mod pin;
pub mod switch;
pub mod wait;

pub use mock::{MockError, Pin};
pub use pin::{flip, DigitalPin, InputPin, OutputPin, State, StatefulOutputPin, WaitPin};
pub use switch::{active_level, inactive_level, is_active_level, Polarity, Switch};
pub use wait::{EdgePhase, EdgeWait, LevelWait, WaitPoll};
