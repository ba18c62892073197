use jazagotchi::apa102::interface::LEDEventSet;
use jazagotchi::apa102::interface::LEDEvents;
use jazagotchi::apa102::interface::LEDInterface;
use jazagotchi::apa102::byte_ops;
use jazagotchi::apa102::encode_frame;
use jazagotchi::apa102::encode_led_frame;
use jazagotchi::apa102::frame_ops;
use jazagotchi::apa102::initial_strip;
use jazagotchi::apa102::led_circle_thingy;
use jazagotchi::apa102::Brightness;
use jazagotchi::apa102::LEDState;
use jazagotchi::apa102::LedError;
use jazagotchi::apa102::LineOp;
use jazagotchi::Events;

fn color(brightness: u8, red: u8, green: u8, blue: u8) -> LEDState {
    LEDState { brightness: Brightness::new(brightness).unwrap(), red, green, blue }
}

#[test]
fn brightness_validation() {
    assert_eq!(Brightness::new(0).unwrap().value(), 0);
    assert_eq!(Brightness::new(31).unwrap().value(), 31);
    assert_eq!(Brightness::new(32), Err(LedError::InvalidBrightness));
    assert_eq!(Brightness::new(255), Err(LedError::InvalidBrightness));
    assert_eq!(Brightness::off().value(), 0);
    assert_eq!(Brightness::max_value().value(), 31);
}

#[test]
fn led_frame_is_header_blue_green_red() {
    let frame = encode_led_frame(&color(31, 10, 20, 30));
    assert_eq!(frame, vec![0xFF, 30, 20, 10]);
    let dim = encode_led_frame(&color(1, 2, 3, 4));
    assert_eq!(dim, vec![0xE1, 4, 3, 2]);
}

#[test]
fn frame_round_trip_single_led() {
    let strip = vec![color(31, 10, 20, 30)];
    let bytes = encode_frame(&strip);
    assert_eq!(bytes, vec![0, 0, 0, 0, 0xFF, 30, 20, 10, 0x01]);
}

#[test]
fn frame_end_length_grows_per_started_group_of_sixteen() {
    let empty: Vec<LEDState> = vec![];
    assert_eq!(encode_frame(&empty), vec![0, 0, 0, 0]);
    let sixteen = vec![color(0, 0, 0, 0); 16];
    let bytes = encode_frame(&sixteen);
    assert_eq!(bytes.len(), 4 + 16 * 4 + 1);
    assert_eq!(bytes[bytes.len() - 1], 0x01);
    let seventeen = vec![color(0, 0, 0, 0); 17];
    let bytes = encode_frame(&seventeen);
    assert_eq!(bytes.len(), 4 + 17 * 4 + 2);
    assert_eq!(bytes[bytes.len() - 2], 0x01);
    assert_eq!(bytes[bytes.len() - 1], 0x01);
}

#[test]
fn byte_ops_sends_bits_lsb_first() {
    let ops = byte_ops(0b0000_0001);
    assert_eq!(ops.len(), 24);
    assert_eq!(ops[0], LineOp::SetData(true));
    assert_eq!(ops[1], LineOp::ToggleClock);
    assert_eq!(ops[2], LineOp::ToggleClock);
    assert_eq!(ops[3], LineOp::SetData(false));
    let ops = byte_ops(0b1000_0000);
    assert_eq!(ops[0], LineOp::SetData(false));
    assert_eq!(ops[21], LineOp::SetData(true));
}

#[test]
fn frame_ops_covers_every_frame_byte() {
    let strip = vec![color(31, 10, 20, 30)];
    let ops = frame_ops(&strip);
    assert_eq!(ops.len(), 9 * 24);
    // First start-frame byte is all zeros.
    assert_eq!(ops[0], LineOp::SetData(false));
    // The header byte 0xFF starts at the fifth byte and is all ones.
    assert_eq!(ops[4 * 24], LineOp::SetData(true));
    assert_eq!(ops[4 * 24 + 21], LineOp::SetData(true));
}

#[test]
fn set_led_out_of_range_changes_nothing() {
    let mut iface = LEDInterface::init(initial_strip(4));
    let mut events = LEDEvents::new();
    let result = iface.set_led(&mut events, color(1, 2, 3, 4), 4);
    assert_eq!(result, Err(LedError::OutOfRange));
    assert_eq!(iface.len(), 4);
    for i in 0..4 {
        assert_eq!(iface.leds[i], color(0, 0, 0, 0));
    }
    assert!(!events.is_set(LEDEventSet::UpdateLed));
}

#[test]
fn set_led_in_range_updates_and_wakes() {
    let mut iface = LEDInterface::init(initial_strip(4));
    let mut events = LEDEvents::new();
    let result = iface.set_led(&mut events, color(1, 2, 3, 4), 2);
    assert_eq!(result, Ok(()));
    assert_eq!(iface.leds[2], color(1, 2, 3, 4));
    assert_eq!(iface.leds[1], color(0, 0, 0, 0));
    assert_eq!(iface.len(), 4);
    assert!(events.is_set(LEDEventSet::UpdateLed));
}

#[test]
fn set_led_vec_too_long_changes_nothing() {
    let mut iface = LEDInterface::init(initial_strip(4));
    let mut events = LEDEvents::new();
    let result = iface.set_led_vec(&mut events, vec![color(1, 2, 3, 4); 5]);
    assert_eq!(result, Err(LedError::CapacityExceeded));
    assert_eq!(iface.len(), 4);
    for i in 0..4 {
        assert_eq!(iface.leds[i], color(0, 0, 0, 0));
    }
    assert!(!events.is_set(LEDEventSet::UpdateLed));
}

#[test]
fn set_led_vec_may_shrink_the_strip() {
    let mut iface = LEDInterface::init(initial_strip(4));
    let mut events = LEDEvents::new();
    let result = iface.set_led_vec(&mut events, vec![color(1, 2, 3, 4); 2]);
    assert_eq!(result, Ok(()));
    assert_eq!(iface.len(), 2);
    assert!(events.is_set(LEDEventSet::UpdateLed));
    // The strip now ends at the shrunk length, so a formerly valid position
    // is rejected.
    let result = iface.set_led(&mut events, color(0, 0, 0, 0), 3);
    assert_eq!(result, Err(LedError::OutOfRange));
}

#[test]
fn initial_strip_is_dark() {
    let strip = initial_strip(7);
    assert_eq!(strip.len(), 7);
    for led in &strip {
        assert_eq!(*led, color(0, 0, 0, 0));
    }
}

#[test]
fn ring_pattern_splits_at_clamped_position() {
    let ring = led_circle_thingy(3, true);
    assert_eq!(ring.len(), 7);
    for i in 0..3 {
        assert_eq!(ring[i], color(31, 0, 0, 100));
    }
    for i in 3..7 {
        assert_eq!(ring[i], color(31, 100, 0, 0));
    }
    let ring = led_circle_thingy(-5, false);
    for i in 0..7 {
        assert_eq!(ring[i], color(31, 0, 100, 0));
    }
    let ring = led_circle_thingy(9, false);
    for i in 0..7 {
        assert_eq!(ring[i], color(31, 50, 50, 0));
    }
}
