//! The push button's domain: its event word and the debounced toggle.
//!
//! The button worker re-reads the pin level on every wakeup and feeds it to
//! [`ButtonInterface::update_button`]; the toggle flips exactly once per
//! observed transition from "low was seen" to "now high", held by a one-bit
//! latch that only seeing low again re-arms.

use crate::events::EventWord;
use crate::EventSet;
use crate::Events;
use vstd::prelude::*;

verus! {

/// The event kinds of the button domain.
#[derive(Clone, Copy)]
pub enum ButtonEventSet {
    NoEvent,
    ButtonChange,
}

impl EventSet for ButtonEventSet {
    open spec fn idx(&self) -> u32 {
        match self {
            ButtonEventSet::NoEvent => 0,
            ButtonEventSet::ButtonChange => 1,
        }
    }

    fn is_none(&self) -> (r: bool) {
        match self {
            ButtonEventSet::NoEvent => true,
            ButtonEventSet::ButtonChange => false,
        }
    }

    fn to_int(&self) -> (r: u32) {
        match self {
            ButtonEventSet::NoEvent => 0,
            ButtonEventSet::ButtonChange => 1,
        }
    }

    fn to_bit(&self) -> (r: u32) {
        1u32 << self.to_int()
    }
}

/// The button domain's event word.  The edge interrupt's callback sets
/// `ButtonChange`; the button worker consumes it.
pub struct ButtonEvents {
    word: EventWord,
}

impl ButtonEvents {
    /// A word with no event pending.
    pub fn new() -> (r: Self)
        ensures
            r.bits() == 0,
    {
        ButtonEvents { word: EventWord::new() }
    }
}

impl Events<ButtonEventSet> for ButtonEvents {
    closed spec fn bits(&self) -> u32 {
        self.word@
    }

    fn set(&mut self, event: ButtonEventSet) {
        let mask = event.to_bit();
        self.word.set_mask(mask);
    }

    fn is_set(&self, event: ButtonEventSet) -> (r: bool) {
        (self.word.peek() & event.to_bit()) != 0
    }

    fn wait_for_any(&mut self) -> (r: u32) {
        self.word.take()
    }
}

/// The debounced button: the last sampled pin level, the toggle it controls,
/// and the one-bit latch "low has been seen since the last flip".
pub struct ButtonInterface {
    pub button_state: bool,
    pub toggle_state: bool,
    pub has_been_low: bool,
}

/// One debounce step on an already-stored pin level: flip the toggle when the
/// level is high and low has been seen, re-arm the latch when the level is
/// low, and otherwise change nothing.
pub open spec fn toggle_update(s: ButtonInterface) -> ButtonInterface {
    if s.button_state && s.has_been_low {
        ButtonInterface { has_been_low: false, toggle_state: !s.toggle_state, ..s }
    } else if !s.button_state {
        ButtonInterface { has_been_low: true, ..s }
    } else {
        s
    }
}

/// One observation of the pin: store the level, then debounce.
pub open spec fn toggle_step(s: ButtonInterface, level: bool) -> ButtonInterface {
    toggle_update(ButtonInterface { button_state: level, ..s })
}

/// The state after observing each level of `levels` in turn.
pub open spec fn run_toggle(s: ButtonInterface, levels: Seq<bool>) -> ButtonInterface
    decreases levels.len(),
{
    if levels.len() == 0 {
        s
    } else {
        toggle_step(run_toggle(s, levels.drop_last()), levels.last())
    }
}

impl ButtonInterface {
    /// A fresh interface: pin assumed high-idle not yet seen low, toggle off.
    pub fn new() -> (r: Self)
        ensures
            !r.button_state,
            !r.toggle_state,
            !r.has_been_low,
    {
        ButtonInterface { button_state: false, toggle_state: false, has_been_low: false }
    }

    /// Stores a freshly sampled pin level and recomputes the toggle.
    pub fn update_button(&mut self, button_state: bool)
        ensures
            *final(self) == toggle_step(*old(self), button_state),
    {
        self.button_state = button_state;
        self.update_toggle();
    }

    /// Recomputes the toggle from the stored pin level.
    pub fn update_toggle(&mut self)
        ensures
            *final(self) == toggle_update(*old(self)),
    {
        if self.button_state && self.has_been_low {
            self.has_been_low = false;
            self.toggle_state = !self.toggle_state;
        } else if !self.button_state {
            self.has_been_low = true;
        }
    }

    /// The current toggle value.
    pub fn get_toggle_state(&self) -> (r: bool)
        ensures
            r == self.toggle_state,
    {
        self.toggle_state
    }
}

/// A high, low, high sequence of pin levels flips the toggle exactly once,
/// provided no unconsumed low sighting was pending at the start.
pub proof fn lemma_toggle_flips_once_per_release(s: ButtonInterface)
    requires
        !s.has_been_low,
    ensures
        toggle_step(toggle_step(toggle_step(s, true), false), true).toggle_state
            == !s.toggle_state,
{
}

/// High levels alone never flip the toggle: without an intervening low the
/// latch stays unarmed, for any number of repeated high reads.
pub proof fn lemma_toggle_needs_low(s: ButtonInterface, levels: Seq<bool>)
    requires
        !s.has_been_low,
        forall|i: int| 0 <= i < levels.len() ==> levels[i],
    ensures
        run_toggle(s, levels).toggle_state == s.toggle_state,
        !run_toggle(s, levels).has_been_low,
    decreases levels.len(),
{
    if levels.len() > 0 {
        lemma_toggle_needs_low(s, levels.drop_last());
    }
}

} // verus!
