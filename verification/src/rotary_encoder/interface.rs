//! The rotary encoder's domain: its event word and the worker's publication
//! step.
//!
//! Both encoder pins share one edge interrupt callback that raises
//! `PinChanged`; the encoder worker consumes the event, re-samples the pins,
//! runs one decoding step and publishes the fresh state for other threads to
//! read.

use crate::events::EventWord;
use crate::rotary_encoder::EncoderData;
use crate::rotary_encoder::RotaryEncoder;
use crate::rotary_encoder::sample_spec;
use crate::rotary_encoder::update_spec;
use crate::EventSet;
use crate::Events;
use vstd::prelude::*;

verus! {

/// The event kinds of the rotary encoder domain.
#[derive(Clone, Copy)]
pub enum REEventSet {
    NoEvent,
    PinChanged,
}

impl EventSet for REEventSet {
    open spec fn idx(&self) -> u32 {
        match self {
            REEventSet::NoEvent => 0,
            REEventSet::PinChanged => 1,
        }
    }

    fn is_none(&self) -> (r: bool) {
        match self {
            REEventSet::NoEvent => true,
            REEventSet::PinChanged => false,
        }
    }

    fn to_int(&self) -> (r: u32) {
        match self {
            REEventSet::NoEvent => 0,
            REEventSet::PinChanged => 1,
        }
    }

    fn to_bit(&self) -> (r: u32) {
        1u32 << self.to_int()
    }
}

/// The rotary encoder domain's event word.  The pins' edge interrupt sets
/// `PinChanged`; the encoder worker consumes it.
pub struct REEvents {
    word: EventWord,
}

impl REEvents {
    /// A word with no event pending.
    pub fn new() -> (r: Self)
        ensures
            r.bits() == 0,
    {
        REEvents { word: EventWord::new() }
    }
}

impl Events<REEventSet> for REEvents {
    closed spec fn bits(&self) -> u32 {
        self.word@
    }

    fn set(&mut self, event: REEventSet) {
        let mask = event.to_bit();
        self.word.set_mask(mask);
    }

    fn is_set(&self, event: REEventSet) -> (r: bool) {
        (self.word.peek() & event.to_bit()) != 0
    }

    fn wait_for_any(&mut self) -> (r: u32) {
        self.word.take()
    }
}

/// The externally visible position of a published encoder state.
pub fn get_position(data: &EncoderData) -> (r: i8)
    ensures
        r == data.position_ext,
{
    data.position_ext
}

/// One turn of the encoder worker after a wakeup: run a decoding step on the
/// freshly sampled pins and publish the resulting state.
pub fn encoder_worker_step(
    encoder: &mut RotaryEncoder,
    shared: &mut EncoderData,
    pin_a: bool,
    pin_b: bool,
    now_ms: u64,
)
    requires
        old(encoder).wf(),
    ensures
        final(encoder).wf(),
        *final(encoder) == update_spec(*old(encoder), sample_spec(pin_a, pin_b), now_ms),
        *final(shared) == final(encoder).data,
{
    encoder.update(pin_a, pin_b, now_ms);
    shared.set(&encoder.data);
}

} // verus!
