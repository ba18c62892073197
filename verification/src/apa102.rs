//! The bit-serial framing protocol of the addressable LED strip.
//!
//! A strip update is one clocked frame: a start frame of four zero bytes, one
//! four-byte frame per LED (a header byte carrying `0b111` in its top three
//! bits OR'd with the five-bit brightness, then blue, green and red), and an
//! end frame of `ceil(n / 16)` bytes whose value is `1`, needed so the clock
//! pulses propagate to the far end of longer chains.  Bits leave a byte least
//! significant first; each bit is put on the data line and then the clock
//! line is toggled high and back low.  The byte and bit order is fixed by the
//! hardware and is not configurable.

pub mod interface;

use vstd::prelude::*;

verus! {

/// A five-bit global brightness value, at most 31.
#[derive(Clone, Copy, PartialEq, Eq, Structural, Debug)]
pub struct Brightness(u8);

/// Why an LED request was rejected.
#[derive(Clone, Copy, PartialEq, Eq, Structural, Debug)]
pub enum LedError {
    /// The addressed position lies at or past the strip's current length.
    OutOfRange,
    /// The requested list holds more colors than the strip's current length.
    CapacityExceeded,
    /// A brightness value above 31 was requested.
    InvalidBrightness,
}

/// One LED's requested color: brightness plus the three channels.
#[derive(Clone, Copy, PartialEq, Eq, Structural, Debug)]
pub struct LEDState {
    pub brightness: Brightness,
    pub red: u8,
    pub green: u8,
    pub blue: u8,
}

impl View for Brightness {
    type V = u8;

    closed spec fn view(&self) -> u8 {
        self.0
    }
}

impl Brightness {
    /// A brightness value is well formed when it fits in five bits.
    pub open spec fn wf(&self) -> bool {
        self@ <= 31
    }

    /// Validates a requested brightness: anything above 31 is rejected.
    pub fn new(val: u8) -> (r: Result<Self, LedError>)
        ensures
            match r {
                Ok(b) => val <= 31 && b@ == val,
                Err(e) => val > 31 && e == LedError::InvalidBrightness,
            },
    {
        if val > 31 {
            return Err(LedError::InvalidBrightness);
        }
        Ok(Brightness(val))
    }

    /// The raw five-bit value.
    pub fn value(&self) -> (r: u8)
        ensures
            r == self@,
    {
        self.0
    }

    /// The dimmest setting: the LED is dark.
    pub fn off() -> (r: Self)
        ensures
            r@ == 0,
    {
        Brightness(0)
    }

    /// The brightest setting.
    pub fn max_value() -> (r: Self)
        ensures
            r@ == 31,
    {
        Brightness(31)
    }
}

/// The four-byte frame of one LED: header, then blue, green, red — not RGB
/// order.
pub open spec fn led_frame_spec(led: LEDState) -> Seq<u8> {
    seq![0xE0u8 | led.brightness@, led.blue, led.green, led.red]
}

/// The per-LED frames of a whole strip, in strip order.
pub open spec fn leds_bytes(s: Seq<LEDState>) -> Seq<u8>
    decreases s.len(),
{
    if s.len() == 0 {
        Seq::empty()
    } else {
        leds_bytes(s.drop_last()) + led_frame_spec(s.last())
    }
}

/// The start frame: four bytes of all zero bits.
pub open spec fn start_frame_spec() -> Seq<u8> {
    seq![0u8, 0u8, 0u8, 0u8]
}

/// How many end-frame bytes a strip of `n` LEDs needs: `ceil(n / 16)`, one
/// clock-carrying byte per started group of sixteen LEDs.
pub open spec fn end_frame_len(n: int) -> int {
    if n % 16 == 0 {
        n / 16
    } else {
        n / 16 + 1
    }
}

/// The end frame of a strip of `n` LEDs.
pub open spec fn end_frame_spec(n: int) -> Seq<u8> {
    Seq::new(end_frame_len(n) as nat, |i: int| 1u8)
}

/// The complete byte frame that updates a strip.
pub open spec fn frame_spec(s: Seq<LEDState>) -> Seq<u8> {
    start_frame_spec() + leds_bytes(s) + end_frame_spec(s.len() as int)
}

/// Encodes one LED's four-byte frame.
pub fn encode_led_frame(led: &LEDState) -> (r: Vec<u8>)
    ensures
        r@ == led_frame_spec(*led),
{
    let mut out: Vec<u8> = Vec::new();
    out.push(0xE0u8 | led.brightness.value());
    out.push(led.blue);
    out.push(led.green);
    out.push(led.red);
    proof {
        assert(out@ =~= led_frame_spec(*led));
    }
    out
}

/// Encodes the complete byte frame for a strip: start frame, one frame per
/// LED in order, end frame.
pub fn encode_frame(leds: &Vec<LEDState>) -> (r: Vec<u8>)
    ensures
        r@ == frame_spec(leds@),
{
    let n = leds.len();
    let mut out: Vec<u8> = Vec::new();
    out.push(0u8);
    out.push(0u8);
    out.push(0u8);
    out.push(0u8);
    proof {
        assert(out@ =~= start_frame_spec());
        assert(leds@.take(0) =~= Seq::<LEDState>::empty());
    }
    for i in 0..n
        invariant
            n == leds@.len(),
            out@ == start_frame_spec() + leds_bytes(leds@.take(i as int)),
    {
        let led = leds[i];
        out.push(0xE0u8 | led.brightness.value());
        out.push(led.blue);
        out.push(led.green);
        out.push(led.red);
        proof {
            let taken = leds@.take(i + 1);
            assert(taken.drop_last() =~= leds@.take(i as int));
            assert(taken.last() == leds@[i as int]);
            assert(out@ =~= start_frame_spec() + leds_bytes(taken));
        }
    }
    proof {
        assert(leds@.take(n as int) =~= leds@);
    }
    let end_count = if n % 16 == 0 {
        n / 16
    } else {
        n / 16 + 1
    };
    proof {
        assert(end_count == end_frame_len(n as int));
    }
    for k in 0..end_count
        invariant
            end_count == end_frame_len(leds@.len() as int),
            out@ == start_frame_spec() + leds_bytes(leds@) + Seq::new(k as nat, |i: int| 1u8),
    {
        out.push(1u8);
        proof {
            assert(out@ =~= start_frame_spec() + leds_bytes(leds@)
                + Seq::new((k + 1) as nat, |i: int| 1u8));
        }
    }
    proof {
        assert(Seq::new(end_count as nat, |i: int| 1u8) =~= end_frame_spec(leds@.len() as int));
        assert(out@ =~= frame_spec(leds@));
    }
    out
}

/// One operation on the strip's two output lines.
#[derive(Clone, Copy, PartialEq, Eq, Structural, Debug)]
pub enum LineOp {
    /// Drive the data line to the given level.
    SetData(bool),
    /// Invert the clock line.  Two toggles make one clock pulse.
    ToggleClock,
}

/// Bit `j` of a byte, counting from the least significant end.
pub open spec fn bit_at(b: u8, j: u8) -> bool {
    (b >> j) & 1u8 == 1u8
}

/// The line operations that transmit the lowest `j` bits of a byte: for each
/// bit, least significant first, drive the data line and pulse the clock.
pub open spec fn byte_ops_upto(b: u8, j: int) -> Seq<LineOp>
    decreases j,
{
    if j <= 0 {
        Seq::empty()
    } else {
        byte_ops_upto(b, j - 1)
            + seq![
            LineOp::SetData(bit_at(b, (j - 1) as u8)),
            LineOp::ToggleClock,
            LineOp::ToggleClock,
        ]
    }
}

/// The line operations that transmit one whole byte.
pub open spec fn byte_ops_spec(b: u8) -> Seq<LineOp> {
    byte_ops_upto(b, 8)
}

/// The line operations that transmit a byte sequence in order.
pub open spec fn stream_ops(bytes: Seq<u8>) -> Seq<LineOp>
    decreases bytes.len(),
{
    if bytes.len() == 0 {
        Seq::empty()
    } else {
        stream_ops(bytes.drop_last()) + byte_ops_spec(bytes.last())
    }
}

/// The line operations that send one byte, least significant bit first.
pub fn byte_ops(b: u8) -> (r: Vec<LineOp>)
    ensures
        r@ == byte_ops_spec(b),
{
    let mut out: Vec<LineOp> = Vec::new();
    proof {
        assert(out@ =~= byte_ops_upto(b, 0));
    }
    for j in 0..8usize
        invariant
            out@ == byte_ops_upto(b, j as int),
    {
        let bit = ((b >> (j as u8)) & 1u8) == 1u8;
        out.push(LineOp::SetData(bit));
        out.push(LineOp::ToggleClock);
        out.push(LineOp::ToggleClock);
        proof {
            assert(out@ =~= byte_ops_upto(b, j + 1));
        }
    }
    out
}

/// The full operation sequence that updates a strip: the frame bytes of
/// [`encode_frame`], each transmitted bit-serially.  A driver replays these
/// onto the data and clock pins in order.
pub fn frame_ops(leds: &Vec<LEDState>) -> (r: Vec<LineOp>)
    ensures
        r@ == stream_ops(frame_spec(leds@)),
{
    let bytes = encode_frame(leds);
    let mut out: Vec<LineOp> = Vec::new();
    proof {
        assert(bytes@.take(0) =~= Seq::<u8>::empty());
    }
    for i in 0..bytes.len()
        invariant
            bytes@ == frame_spec(leds@),
            out@ == stream_ops(bytes@.take(i as int)),
    {
        let mut ops = byte_ops(bytes[i]);
        out.append(&mut ops);
        proof {
            let taken = bytes@.take(i + 1);
            assert(taken.drop_last() =~= bytes@.take(i as int));
            assert(taken.last() == bytes@[i as int]);
            assert(out@ =~= stream_ops(taken));
        }
    }
    proof {
        assert(bytes@.take(bytes@.len() as int) =~= bytes@);
    }
    out
}

/// The strip as it leaves initialization: every LED dark.
pub fn initial_strip(num_led: usize) -> (r: Vec<LEDState>)
    ensures
        r@.len() == num_led,
        forall|i: int|
            0 <= i < num_led ==> (#[trigger] r@[i]).brightness@ == 0 && r@[i].red == 0
                && r@[i].green == 0 && r@[i].blue == 0,
{
    let off = LEDState { brightness: Brightness::off(), red: 0, green: 0, blue: 0 };
    let mut out: Vec<LEDState> = Vec::new();
    for k in 0..num_led
        invariant
            off.brightness@ == 0 && off.red == 0 && off.green == 0 && off.blue == 0,
            out@.len() == k,
            forall|i: int|
                0 <= i < k ==> (#[trigger] out@[i]).brightness@ == 0 && out@[i].red == 0
                    && out@[i].green == 0 && out@[i].blue == 0,
    {
        out.push(off);
    }
    out
}

/// Where the demo ring's colored arc ends: the encoder position clamped to
/// the strip's seven LEDs.
pub open spec fn ring_split(val: i8) -> int {
    if val < 0 {
        0
    } else if val > 7 {
        7
    } else {
        val as int
    }
}

/// The demo ring pattern: seven LEDs at full brightness, the first `val`
/// (clamped to the ring) in one color pair and the rest in the other, both
/// pairs picked by the button's toggle.
pub fn led_circle_thingy(val: i8, state: bool) -> (r: Vec<LEDState>)
    ensures
        r@.len() == 7,
        forall|i: int|
            0 <= i < ring_split(val) ==> (#[trigger] r@[i]).brightness@ == 31
                && r@[i].blue == (if state { 100u8 } else { 0u8 })
                && r@[i].red == (if state { 0u8 } else { 50u8 })
                && r@[i].green == (if state { 0u8 } else { 50u8 }),
        forall|i: int|
            ring_split(val) <= i < 7 ==> (#[trigger] r@[i]).brightness@ == 31
                && r@[i].blue == 0u8
                && r@[i].red == (if state { 100u8 } else { 0u8 })
                && r@[i].green == (if state { 0u8 } else { 100u8 }),
{
    let clamped: i8 = if val < 0 {
        0
    } else if val > 7 {
        7
    } else {
        val
    };
    let arc = LEDState {
        brightness: Brightness::max_value(),
        blue: if state { 100 } else { 0 },
        red: if state { 0 } else { 50 },
        green: if state { 0 } else { 50 },
    };
    let rest = LEDState {
        brightness: Brightness::max_value(),
        blue: 0,
        red: if state { 100 } else { 0 },
        green: if state { 0 } else { 100 },
    };
    let mut out: Vec<LEDState> = Vec::new();
    let split = clamped as usize;
    for k in 0..split
        invariant
            split == ring_split(val),
            out@.len() == k,
            forall|i: int| 0 <= i < k ==> (#[trigger] out@[i]) == arc,
    {
        out.push(arc);
    }
    for k in split..7usize
        invariant
            split == ring_split(val),
            out@.len() == k,
            forall|i: int| 0 <= i < split ==> (#[trigger] out@[i]) == arc,
            forall|i: int| split <= i < k ==> (#[trigger] out@[i]) == rest,
    {
        out.push(rest);
    }
    out
}

} // verus!
