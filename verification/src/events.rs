//! The shared mechanism behind every peripheral's event word: a 32-bit
//! bitmask that interrupt context sets with a single OR and a worker consumes
//! by reading and resetting the whole word.
//!
//! The word is level-triggered: bits mark "state changed", not counted
//! occurrences.  Any number of `set_mask` calls between two consumptions
//! coalesce into one wakeup carrying the OR of all their bits; the lemmas at
//! the bottom state that exactly.

use vstd::prelude::*;

verus! {

/// A peripheral domain's raw event word.
pub struct EventWord {
    bits: u32,
}

impl View for EventWord {
    type V = u32;

    closed spec fn view(&self) -> u32 {
        self.bits
    }
}

impl EventWord {
    /// An empty word: no event pending.
    pub fn new() -> (r: Self)
        ensures
            r@ == 0,
    {
        EventWord { bits: 0 }
    }

    /// ORs a mask into the word.  Setting bits that are already set changes
    /// nothing, so the operation is idempotent in effect.
    pub fn set_mask(&mut self, mask: u32)
        ensures
            final(self)@ == old(self)@ | mask,
    {
        self.bits = self.bits | mask;
    }

    /// The current contents, left in place.  A worker polls this until it is
    /// non-zero before consuming.
    pub fn peek(&self) -> (r: u32)
        ensures
            r == self@,
    {
        self.bits
    }

    /// Consumes the word: returns the pre-reset value and resets it to zero.
    /// No bit survives past a take.
    pub fn take(&mut self) -> (r: u32)
        ensures
            r == old(self)@,
            final(self)@ == 0,
    {
        let r = self.bits;
        self.bits = 0;
        r
    }
}

/// The OR of a sequence of masks.
pub open spec fn or_all(masks: Seq<u32>) -> u32
    decreases masks.len(),
{
    if masks.len() == 0 {
        0u32
    } else {
        or_all(masks.drop_last()) | masks.last()
    }
}

/// The word that results from ORing each mask of `masks` in turn into `w`,
/// which is what a sequence of `set_mask` calls does.
pub open spec fn apply_sets(w: u32, masks: Seq<u32>) -> u32
    decreases masks.len(),
{
    if masks.len() == 0 {
        w
    } else {
        apply_sets(w, masks.drop_last()) | masks.last()
    }
}

/// Setting a mask that is already set changes nothing: `set_mask` is
/// idempotent in effect, so an interrupt firing twice before the worker wakes
/// looks exactly like one firing.
pub proof fn lemma_set_idempotent(w: u32, mask: u32)
    ensures
        (w | mask) | mask == w | mask,
{
    assert((w | mask) | mask == w | mask) by (bit_vector);
}

/// Any sequence of sets applied to a word leaves the OR of the word and all
/// the masks: the sets coalesce, in any order and with any repetitions.
pub proof fn lemma_sets_accumulate(w: u32, masks: Seq<u32>)
    ensures
        apply_sets(w, masks) == w | or_all(masks),
    decreases masks.len(),
{
    if masks.len() == 0 {
        assert(w | 0 == w) by (bit_vector);
    } else {
        lemma_sets_accumulate(w, masks.drop_last());
        let a = or_all(masks.drop_last());
        let b = masks.last();
        assert((w | a) | b == w | (a | b)) by (bit_vector);
    }
}

/// For any sequence of sets issued into an empty word before one consumption,
/// the consumed value is the bitwise OR of all the set masks.  (That the word
/// is zero immediately after is `take`'s own postcondition.)
pub proof fn lemma_wakeup_carries_or_of_sets(masks: Seq<u32>)
    ensures
        apply_sets(0, masks) == or_all(masks),
{
    lemma_sets_accumulate(0, masks);
    let a = or_all(masks);
    assert(0u32 | a == a) by (bit_vector);
}

} // verus!
