//! The general guarantees of the polarity translation, stated and proved
//! once over the spec-level model that the operation contracts use.

use vstd::prelude::*;

use crate::pin::{flip, level_after_toggle, State};
use crate::switch::{
    active_level, inactive_level, is_active_level, level_after_off, level_after_on, Polarity,
};

verus! {

/// A switch over a pin at level `l` reads active exactly on `High` when
/// active-high, and exactly on `Low` when active-low.
pub proof fn lemma_is_active_translation(l: State)
    ensures
        is_active_level(Polarity::ActiveHigh, l) == (l == State::High),
        is_active_level(Polarity::ActiveLow, l) == (l == State::Low),
{
}

/// After "on" the switch reads on, and after "off" it reads off, regardless
/// of polarity and of the level the line started at: the electrical level
/// differs between the polarities, the logical result does not.
pub proof fn lemma_on_off_read_back(p: Polarity, l: Option<State>)
    ensures
        level_after_on(p, l) == Some(active_level(p)),
        is_active_level(p, active_level(p)),
        level_after_off(p, l) == Some(inactive_level(p)),
        !is_active_level(p, inactive_level(p)),
{
}

/// Idempotence: a second "on" (or "off") leaves the line, and therefore the
/// logical reading, exactly where the first put it.
pub proof fn lemma_on_off_idempotent(p: Polarity, l: Option<State>)
    ensures
        level_after_on(p, level_after_on(p, l)) == level_after_on(p, l),
        level_after_off(p, level_after_off(p, l)) == level_after_off(p, l),
{
}

/// Toggle round-trip: toggling twice returns a line that started at a known
/// level to that level.
pub proof fn lemma_toggle_round_trip(l: State)
    ensures
        level_after_toggle(level_after_toggle(Some(l))) == Some(l),
{
}

/// Toggling flips the logical state under either polarity, which is why the
/// switch's toggle needs no polarity translation.
pub proof fn lemma_toggle_flips_logical_state(p: Polarity, l: State)
    ensures
        is_active_level(p, flip(l)) == !is_active_level(p, l),
{
}

} // verus!
