//! Concurrency-and-protocol layer for a handheld gadget's peripherals: an
//! addressable LED strip, a push button, a rotary (quadrature) encoder and a
//! power rail.
//!
//! The crate holds the algorithmic core of the firmware: the lock-free event
//! signalling words that interrupt handlers use to wake worker threads, the
//! shared request/result containers handed between producer and consumer
//! contexts, the quadrature decoding state machine, and the bit-serial framing
//! protocol for the LED strip.  Pin wiring, interrupt subscription, threads
//! and delays live outside the crate; callers hand in plain samples (pin
//! levels, timestamps) and replay the returned line operations onto hardware.

use vstd::prelude::*;

pub mod apa102;
pub mod button_interface;
pub mod device;
pub mod events;
pub mod rotary_encoder;

verus! {

/// One event kind within a peripheral domain.  Each kind owns one bit of the
/// domain's 32-bit event word; `idx` is the position of that bit.
pub trait EventSet: Sized {
    /// Bit position of this event in the domain's event word.
    spec fn idx(&self) -> u32;

    /// True for the domain's "no event" kind, which sits at bit 0.
    fn is_none(&self) -> (r: bool)
        ensures
            r == (self.idx() == 0),
    ;

    /// The bit position as an integer.
    fn to_int(&self) -> (r: u32)
        ensures
            r == self.idx(),
    ;

    /// The event's bit as a one-hot mask.
    fn to_bit(&self) -> (r: u32)
        ensures
            r == (1u32 << self.idx()),
    ;
}

/// A peripheral domain's event word: a level-triggered signal between an
/// interrupt producer and a worker consumer.  Setting a bit that is already
/// set is a no-op in effect; consuming reads the whole word and resets it to
/// zero, so events coalesce rather than queue.
///
/// There is deliberately no wait-for-all operation: no component needs one,
/// and the level-triggered design gives it no meaning.
pub trait Events<ES: EventSet> {
    /// The current contents of the event word.
    spec fn bits(&self) -> u32;

    /// ORs the event's bit into the word.
    fn set(&mut self, event: ES)
        ensures
            final(self).bits() == old(self).bits() | (1u32 << event.idx()),
    ;

    /// Whether the event's bit is currently set.
    fn is_set(&self, event: ES) -> (r: bool)
        ensures
            r == ((self.bits() & (1u32 << event.idx())) != 0),
    ;

    /// Consumes the word once it is non-zero: returns the pre-reset value and
    /// leaves the word zero.  The caller blocks (polls) until the word is
    /// non-zero before consuming, which is what the precondition states.
    fn wait_for_any(&mut self) -> (r: u32)
        requires
            old(self).bits() != 0,
        ensures
            r == old(self).bits(),
            final(self).bits() == 0,
    ;
}

} // verus!
