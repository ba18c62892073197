//! The LED strip's domain: its event word and the guarded request container.
//!
//! Producers put the wanted colors into an [`LEDInterface`] and raise
//! `UpdateLed`; the LED worker consumes the event, reads the container and
//! drives the strip with the frame of [`crate::apa102::frame_ops`].  A
//! rejected request leaves both the container and the event word unchanged.

use crate::apa102::LEDState;
use crate::apa102::LedError;
use crate::events::EventWord;
use crate::EventSet;
use crate::Events;
use vstd::pervasive::VecAdditionalExecFns;
use vstd::prelude::*;

verus! {

/// The event kinds of the LED domain.
#[derive(Clone, Copy)]
pub enum LEDEventSet {
    NoEvent,
    UpdateLed,
}

impl EventSet for LEDEventSet {
    open spec fn idx(&self) -> u32 {
        match self {
            LEDEventSet::NoEvent => 0,
            LEDEventSet::UpdateLed => 1,
        }
    }

    fn is_none(&self) -> (r: bool) {
        match self {
            LEDEventSet::NoEvent => true,
            LEDEventSet::UpdateLed => false,
        }
    }

    fn to_int(&self) -> (r: u32) {
        match self {
            LEDEventSet::NoEvent => 0,
            LEDEventSet::UpdateLed => 1,
        }
    }

    fn to_bit(&self) -> (r: u32) {
        1u32 << self.to_int()
    }
}

/// The LED domain's event word.  A successful strip request sets `UpdateLed`;
/// the LED worker consumes it.
pub struct LEDEvents {
    word: EventWord,
}

impl LEDEvents {
    /// A word with no event pending.
    pub fn new() -> (r: Self)
        ensures
            r.bits() == 0,
    {
        LEDEvents { word: EventWord::new() }
    }
}

impl Events<LEDEventSet> for LEDEvents {
    closed spec fn bits(&self) -> u32 {
        self.word@
    }

    fn set(&mut self, event: LEDEventSet) {
        let mask = event.to_bit();
        self.word.set_mask(mask);
    }

    fn is_set(&self, event: LEDEventSet) -> (r: bool) {
        (self.word.peek() & event.to_bit()) != 0
    }

    fn wait_for_any(&mut self) -> (r: u32) {
        self.word.take()
    }
}

/// The guarded request container of the LED worker: the colors the strip is
/// asked to show.  Its length is fixed at initialization and never grows past
/// that; a whole-strip request may shrink it.
pub struct LEDInterface {
    pub leds: Vec<LEDState>,
}

impl LEDInterface {
    /// Takes over the initial strip contents, usually every LED dark.
    pub fn init(leds: Vec<LEDState>) -> (r: Self)
        ensures
            r.leds@ == leds@,
    {
        LEDInterface { leds }
    }

    /// Requests one LED's color.  A position at or past the strip's current
    /// length is rejected and nothing changes; otherwise that LED is
    /// replaced and `UpdateLed` is raised to wake the worker.
    pub fn set_led(&mut self, events: &mut LEDEvents, led: LEDState, position: u8) -> (r: Result<
        (),
        LedError,
    >)
        ensures
            match r {
                Ok(()) => {
                    &&& (position as int) < old(self).leds@.len()
                    &&& final(self).leds@ == old(self).leds@.update(position as int, led)
                    &&& final(events).bits() == old(events).bits() | (
                    1u32 << LEDEventSet::UpdateLed.idx())
                },
                Err(e) => {
                    &&& e == LedError::OutOfRange
                    &&& (position as int) >= old(self).leds@.len()
                    &&& *final(self) == *old(self)
                    &&& final(events).bits() == old(events).bits()
                },
            },
    {
        if (position as usize) >= self.leds.len() {
            return Err(LedError::OutOfRange);
        }
        self.leds.set(position as usize, led);
        events.set(LEDEventSet::UpdateLed);
        Ok(())
    }

    /// Requests colors for the whole strip.  A list longer than the strip's
    /// current length is rejected and nothing changes; otherwise the stored
    /// sequence is replaced entirely — possibly shrinking the strip — and
    /// `UpdateLed` is raised to wake the worker.
    pub fn set_led_vec(&mut self, events: &mut LEDEvents, led: Vec<LEDState>) -> (r: Result<
        (),
        LedError,
    >)
        ensures
            match r {
                Ok(()) => {
                    &&& led@.len() <= old(self).leds@.len()
                    &&& final(self).leds@ == led@
                    &&& final(events).bits() == old(events).bits() | (
                    1u32 << LEDEventSet::UpdateLed.idx())
                },
                Err(e) => {
                    &&& e == LedError::CapacityExceeded
                    &&& led@.len() > old(self).leds@.len()
                    &&& *final(self) == *old(self)
                    &&& final(events).bits() == old(events).bits()
                },
            },
    {
        if self.leds.len() < led.len() {
            return Err(LedError::CapacityExceeded);
        }
        self.leds = led;
        events.set(LEDEventSet::UpdateLed);
        Ok(())
    }

    /// The strip's current length.
    pub fn len(&self) -> (r: usize)
        ensures
            r == self.leds@.len(),
    {
        self.leds.len()
    }
}

} // verus!
