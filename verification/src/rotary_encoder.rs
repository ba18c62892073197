//! The quadrature decoding state machine of the rotary encoder.
//!
//! Two phase-shifted pins give a two-bit sample; the transition from the
//! previous sample to the current one is looked up in a fixed direction table
//! and its delta, in `{-1, 0, +1}`, moves a raw position counter.  The raw
//! counter is projected to the externally visible position by a right shift
//! of two (four-step latch modes) or one (two-step latch mode), one reported
//! click per four or two raw edges.  A raw position that leaves the
//! configured range wraps to the opposite bound rather than saturating, the
//! bound checks and wrap targets written at the exact shift scales the
//! deployed device is tuned to.  Transitions in which both
//! pins appear to change at once are physically impossible for clean
//! quadrature signals and map to a zero delta: skipped samples are silently
//! ignored, which acts as an implicit debounce.

pub mod interface;

use vstd::prelude::*;

verus! {

/// How many raw transitions make one externally reported step.
#[derive(Clone, Copy, PartialEq, Eq, Structural, Debug)]
pub enum LatchMode {
    /// Four steps, latching at raw position 3 only.
    FOUR3,
    /// Four steps, latching at raw position 0 (reverse wiring).
    FOUR0,
    /// Two steps, latching at raw positions 0 and 3.
    TWO3,
}

/// The rotation seen between the previous and the current external position.
#[derive(Clone, Copy, PartialEq, Eq, Structural, Debug)]
pub enum Direction {
    CounterClockwise,
    NoRotation,
    Clockwise,
}

/// The encoder state a worker publishes for other threads to read.
#[derive(Clone, Copy)]
pub struct EncoderData {
    pub mode: LatchMode,
    /// The clamp range of the external position, `(min, max)`.
    pub range: (i8, i8),
    /// The raw edge counter.
    pub position: i8,
    /// The externally visible position: the raw counter, latched.
    pub position_ext: i8,
    /// The external position before the most recent reseeding.
    pub position_ext_prev: i8,
    /// Timestamp of the most recent raw transition, in milliseconds.
    pub position_ext_time: u64,
    /// Timestamp of the raw transition before that, in milliseconds.
    pub position_ext_time_prev: u64,
}

/// The two-bit sample read from the encoder's pins: pin A in bit 0, pin B in
/// bit 1.
pub open spec fn sample_spec(pin_a: bool, pin_b: bool) -> u8 {
    if pin_a && pin_b {
        3u8
    } else if pin_b {
        2u8
    } else if pin_a {
        1u8
    } else {
        0u8
    }
}

/// Combines two sampled pin levels into the two-bit state.
pub fn sample_from_pins(pin_a: bool, pin_b: bool) -> (r: u8)
    ensures
        r == sample_spec(pin_a, pin_b),
        r < 4,
{
    if pin_a && pin_b {
        3
    } else if pin_b {
        2
    } else if pin_a {
        1
    } else {
        0
    }
}

/// The sixteen-entry direction table, written out by transition.  Clean
/// quadrature signals walk the cycle `0, 1, 3, 2` one bit at a time; each
/// step along it counts `+1`, each step against it `-1`.  An unchanged
/// sample, and the two-bits-at-once transitions a clean signal cannot
/// produce, count `0`.
pub open spec fn delta_spec(prev: u8, curr: u8) -> i8 {
    if (prev == 0 && curr == 1) || (prev == 1 && curr == 3) || (prev == 3 && curr == 2) || (prev
        == 2 && curr == 0) {
        1i8
    } else if (prev == 1 && curr == 0) || (prev == 3 && curr == 1) || (prev == 2 && curr == 3) || (
    prev == 0 && curr == 2) {
        -1i8
    } else {
        0i8
    }
}

/// Looks up the direction table.
pub fn direction_delta(prev: u8, curr: u8) -> (r: i8)
    requires
        prev < 4,
        curr < 4,
    ensures
        r == delta_spec(prev, curr),
        -1 <= r <= 1,
{
    if (prev == 0 && curr == 1) || (prev == 1 && curr == 3) || (prev == 3 && curr == 2) || (prev
        == 2 && curr == 0) {
        1
    } else if (prev == 1 && curr == 0) || (prev == 3 && curr == 1) || (prev == 2 && curr == 3) || (
    prev == 0 && curr == 2) {
        -1
    } else {
        0
    }
}

/// An unchanged sample never moves the counter: the table's diagonal is zero
/// for all four states.
pub proof fn lemma_delta_unchanged_sample(state: u8)
    requires
        state < 4,
    ensures
        delta_spec(state, state) == 0,
{
}

/// Walking a transition backwards reverses its direction: the table is
/// antisymmetric.
pub proof fn lemma_delta_antisymmetric(prev: u8, curr: u8)
    requires
        prev < 4,
        curr < 4,
    ensures
        delta_spec(curr, prev) as int == -(delta_spec(prev, curr) as int),
{
}

/// The midpoint of a range, rounding toward zero.
pub open spec fn mid_of(lo: int, hi: int) -> int {
    if lo + hi >= 0 {
        (lo + hi) / 2
    } else {
        -((-(lo + hi)) / 2)
    }
}

impl EncoderData {
    /// Overwrites the published state with a worker's fresh copy.
    pub fn set(&mut self, other: &EncoderData)
        ensures
            *final(self) == *other,
    {
        *self = *other;
    }

    /// Milliseconds between the two most recent raw transitions; zero when
    /// the clock appears to have gone backwards.
    pub fn get_duration(&self) -> (r: u64)
        ensures
            r == duration_spec(*self),
    {
        if self.position_ext_time >= self.position_ext_time_prev {
            self.position_ext_time - self.position_ext_time_prev
        } else {
            0
        }
    }

    /// The externally visible position.
    pub fn get_position(&self) -> (r: i8)
        ensures
            r == self.position_ext,
    {
        self.position_ext
    }

    /// The rotation direction, read off the current and the previous
    /// external position.
    pub fn get_direction(&self) -> (r: Direction)
        ensures
            r == direction_spec(*self),
    {
        if self.position_ext_prev > self.position_ext {
            Direction::Clockwise
        } else if self.position_ext_prev < self.position_ext {
            Direction::CounterClockwise
        } else {
            Direction::NoRotation
        }
    }
}

/// Milliseconds between the two most recent raw transitions, zero when the
/// later stamp is the smaller.
pub open spec fn duration_spec(d: EncoderData) -> u64 {
    if d.position_ext_time >= d.position_ext_time_prev {
        (d.position_ext_time - d.position_ext_time_prev) as u64
    } else {
        0u64
    }
}

/// The direction read off the published state.
pub open spec fn direction_spec(d: EncoderData) -> Direction {
    if d.position_ext_prev > d.position_ext {
        Direction::Clockwise
    } else if d.position_ext_prev < d.position_ext {
        Direction::CounterClockwise
    } else {
        Direction::NoRotation
    }
}

impl Default for EncoderData {
    /// The placeholder a shared container starts with before the worker's
    /// first publication.
    fn default() -> (r: Self)
        ensures
            r.mode == LatchMode::FOUR3,
            r.range.0 == -100 && r.range.1 == 100,
            r.position == 0,
            r.position_ext == 0,
            r.position_ext_prev == 0,
            r.position_ext_time == 0,
            r.position_ext_time_prev == 0,
    {
        EncoderData {
            mode: LatchMode::FOUR3,
            range: (-100, 100),
            position: 0,
            position_ext: 0,
            position_ext_prev: 0,
            position_ext_time: 0,
            position_ext_time_prev: 0,
        }
    }
}

/// The decoding state machine: the last two-bit sample and the state it
/// publishes.
pub struct RotaryEncoder {
    pub prev_state: u8,
    pub data: EncoderData,
}

impl RotaryEncoder {
    /// Well-formedness kept by every step: the sample has two bits, the
    /// clamp bounds are small enough that their shifted wrap targets and
    /// every single-step move stay inside `i8`, and the raw counter itself
    /// has room for one more step.
    pub open spec fn wf(&self) -> bool {
        &&& self.prev_state < 4
        &&& -63 <= self.data.range.0
        &&& self.data.range.0 <= self.data.range.1
        &&& -31 <= self.data.range.1
        &&& self.data.range.1 <= 30
        &&& -127 <= self.data.position
        &&& self.data.position <= 126
    }

    /// A fresh decoder: the raw counter sits at the range's midpoint, the
    /// external position at zero, and the given pin sample is the one to
    /// diff against.
    pub fn new(mode: LatchMode, range: (i8, i8), sample: u8, now_ms: u64) -> (r: Self)
        requires
            sample < 4,
            -63 <= range.0 <= range.1,
            -31 <= range.1 <= 30,
        ensures
            r.wf(),
            r.prev_state == sample,
            r.data.mode == mode,
            r.data.range == range,
            r.data.position == mid_of(range.0 as int, range.1 as int),
            r.data.position_ext == 0,
            r.data.position_ext_prev == 0,
            r.data.position_ext_time == now_ms,
            r.data.position_ext_time_prev == now_ms,
    {
        let sum: i16 = range.0 as i16 + range.1 as i16;
        let mid: i8 = if sum >= 0 {
            ((sum as u16) / 2) as i8
        } else {
            let half: u16 = ((-sum) as u16) / 2;
            -(half as i8)
        };
        RotaryEncoder {
            prev_state: sample,
            data: EncoderData {
                mode,
                range,
                position: mid,
                position_ext: 0,
                position_ext_prev: 0,
                position_ext_time: now_ms,
                position_ext_time_prev: now_ms,
            },
        }
    }

    /// One decoding step from a fresh pin sample at time `now_ms`.
    pub fn update(&mut self, pin_a: bool, pin_b: bool, now_ms: u64)
        requires
            old(self).wf(),
        ensures
            final(self).wf(),
            *final(self) == update_spec(*old(self), sample_spec(pin_a, pin_b), now_ms),
    {
        let curr_state = sample_from_pins(pin_a, pin_b);
        if self.prev_state == curr_state {
            return ;
        }
        let delta = direction_delta(self.prev_state, curr_state);
        self.data.position = self.data.position + delta;
        let ghost p1 = self.data.position;
        let ghost lo = self.data.range.0;
        let ghost hi = self.data.range.1;
        if self.data.range.0 > self.data.position >> 1 {
            self.data.position = self.data.range.1 << 2;
            proof {
                assert(-124 <= (hi << 2) <= 120) by (bit_vector)
                    requires
                        -31 <= hi <= 30,
                ;
            }
        } else if self.data.range.1 < self.data.position >> 2 {
            self.data.position = self.data.range.0 << 1;
            proof {
                assert(-126 <= (lo << 1) <= 60) by (bit_vector)
                    requires
                        -63 <= lo <= 30,
                ;
            }
        } else {
            proof {
                assert(p1 != -128 && p1 != 127) by (bit_vector)
                    requires
                        -63 <= lo,
                        hi <= 30,
                        !(lo > (p1 >> 1)),
                        !(hi < (p1 >> 2)),
                ;
            }
        }
        self.prev_state = curr_state;
        self.data.position_ext_time_prev = self.data.position_ext_time;
        self.data.position_ext_time = now_ms;
        match self.data.mode {
            LatchMode::FOUR0 | LatchMode::FOUR3 => {
                self.data.position_ext = self.data.position >> 2;
            },
            LatchMode::TWO3 => {
                self.data.position_ext = self.data.position >> 1;
            },
        }
    }

    /// Bounds under which a reseeded position keeps the raw counter inside
    /// `i8` once shifted back to raw scale.
    pub open spec fn set_position_ok(mode: LatchMode, new_position: i8) -> bool {
        match mode {
            LatchMode::FOUR3 | LatchMode::FOUR0 => -31 <= new_position <= 30,
            LatchMode::TWO3 => -63 <= new_position <= 62,
        }
    }

    /// Reseeds the external position: the raw counter is rebuilt from the
    /// new position at raw scale, keeping its sub-step bits, and both the
    /// current and the previous external position become the new value.
    pub fn set_position(&mut self, new_position: i8)
        requires
            old(self).wf(),
            Self::set_position_ok(old(self).data.mode, new_position),
        ensures
            final(self).wf(),
            *final(self) == set_position_spec(*old(self), new_position),
    {
        let ghost np = new_position;
        let ghost p0 = self.data.position;
        match self.data.mode {
            LatchMode::FOUR0 | LatchMode::FOUR3 => {
                self.data.position = (new_position << 2) | (self.data.position & 0x03);
                proof {
                    assert(-124 <= ((np << 2) | (p0 & 0x03)) <= 123) by (bit_vector)
                        requires
                            -31 <= np <= 30,
                    ;
                }
            },
            LatchMode::TWO3 => {
                self.data.position = (new_position << 1) | (self.data.position & 0x01);
                proof {
                    assert(-126 <= ((np << 1) | (p0 & 0x01)) <= 125) by (bit_vector)
                        requires
                            -63 <= np <= 62,
                    ;
                }
            },
        }
        self.data.position_ext = new_position;
        self.data.position_ext_prev = new_position;
    }
}

/// The decoding step as a function on states: unchanged samples do nothing;
/// any other sample moves the raw counter by the table's delta, wraps it to
/// the opposite bound when it leaves the range, stamps the time, and latches
/// the external position.
pub open spec fn update_spec(s: RotaryEncoder, curr: u8, now_ms: u64) -> RotaryEncoder {
    if s.prev_state == curr {
        s
    } else {
        let p1 = (s.data.position + delta_spec(s.prev_state, curr)) as i8;
        let p2 = if s.data.range.0 > p1 >> 1 {
            s.data.range.1 << 2
        } else if s.data.range.1 < p1 >> 2 {
            s.data.range.0 << 1
        } else {
            p1
        };
        let ext = match s.data.mode {
            LatchMode::FOUR0 | LatchMode::FOUR3 => p2 >> 2,
            LatchMode::TWO3 => p2 >> 1,
        };
        RotaryEncoder {
            prev_state: curr,
            data: EncoderData {
                position: p2,
                position_ext: ext,
                position_ext_time_prev: s.data.position_ext_time,
                position_ext_time: now_ms,
                ..s.data
            },
        }
    }
}

/// The reseeding step as a function on states.
pub open spec fn set_position_spec(s: RotaryEncoder, new_position: i8) -> RotaryEncoder {
    let p = match s.data.mode {
        LatchMode::FOUR3 | LatchMode::FOUR0 => (new_position << 2) | (s.data.position & 0x03),
        LatchMode::TWO3 => (new_position << 1) | (s.data.position & 0x01),
    };
    RotaryEncoder {
        prev_state: s.prev_state,
        data: EncoderData {
            position: p,
            position_ext: new_position,
            position_ext_prev: new_position,
            ..s.data
        },
    }
}

/// A step whose `+1` delta pushes the raw counter past the configured
/// maximum wraps it to the minimum bound, at raw scale; under the two-step
/// latch mode the external position lands exactly on the configured minimum.
pub proof fn lemma_wrap_past_max(s: RotaryEncoder, curr: u8, now_ms: u64)
    requires
        s.wf(),
        curr < 4,
        curr != s.prev_state,
        delta_spec(s.prev_state, curr) == 1,
        s.data.range.1 < ((s.data.position + 1) as i8) >> 2,
        !(s.data.range.0 > ((s.data.position + 1) as i8) >> 1),
    ensures
        update_spec(s, curr, now_ms).data.position == s.data.range.0 << 1,
        s.data.mode == LatchMode::TWO3 ==> update_spec(s, curr, now_ms).data.position_ext
            == s.data.range.0,
{
    let lo = s.data.range.0;
    assert(((lo << 1) >> 1) == lo) by (bit_vector)
        requires
            -63 <= lo <= 30,
    ;
}

} // verus!
