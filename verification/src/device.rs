//! Power-rail state.  Driving the rail's enable pin is hardware work done
//! outside the crate; what lives here is the state and the toggle decision.

use vstd::prelude::*;

verus! {

/// Whether the peripheral power rail is up.
#[derive(Clone, Copy, PartialEq, Eq, Structural, Debug)]
pub enum State {
    Off,
    On,
}

/// The state a power toggle moves to: an `On` rail is put to sleep, an `Off`
/// rail is woken.  The caller then drives the enable pin to match.
pub fn toggle_target(current: State) -> (r: State)
    ensures
        current == State::On ==> r == State::Off,
        current == State::Off ==> r == State::On,
{
    match current {
        State::On => State::Off,
        State::Off => State::On,
    }
}

/// The enable-pin level that realises a power state: high exactly when the
/// rail is on.
pub fn level_for_state(state: State) -> (r: bool)
    ensures
        r == (state == State::On),
{
    match state {
        State::On => true,
        State::Off => false,
    }
}

} // verus!
