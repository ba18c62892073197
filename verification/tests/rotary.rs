use jazagotchi::rotary_encoder::interface::encoder_worker_step;
use jazagotchi::rotary_encoder::interface::get_position;
use jazagotchi::rotary_encoder::direction_delta;
use jazagotchi::rotary_encoder::sample_from_pins;
use jazagotchi::rotary_encoder::Direction;
use jazagotchi::rotary_encoder::EncoderData;
use jazagotchi::rotary_encoder::LatchMode;
use jazagotchi::rotary_encoder::RotaryEncoder;

#[test]
fn pin_samples_pack_a_low_b_high() {
    assert_eq!(sample_from_pins(false, false), 0);
    assert_eq!(sample_from_pins(true, false), 1);
    assert_eq!(sample_from_pins(false, true), 2);
    assert_eq!(sample_from_pins(true, true), 3);
}

#[test]
fn direction_table_diagonal_is_zero() {
    for state in 0..4 {
        assert_eq!(direction_delta(state, state), 0);
    }
}

#[test]
fn direction_table_entries() {
    // Forward along the quadrature cycle 0, 1, 3, 2.
    assert_eq!(direction_delta(0, 1), 1);
    assert_eq!(direction_delta(1, 3), 1);
    assert_eq!(direction_delta(3, 2), 1);
    assert_eq!(direction_delta(2, 0), 1);
    // Backwards along it.
    assert_eq!(direction_delta(1, 0), -1);
    assert_eq!(direction_delta(3, 1), -1);
    assert_eq!(direction_delta(2, 3), -1);
    assert_eq!(direction_delta(0, 2), -1);
    // Both bits changing at once is ignored.
    assert_eq!(direction_delta(0, 3), 0);
    assert_eq!(direction_delta(3, 0), 0);
    assert_eq!(direction_delta(1, 2), 0);
    assert_eq!(direction_delta(2, 1), 0);
}

#[test]
fn direction_table_is_antisymmetric() {
    for prev in 0..4 {
        for curr in 0..4 {
            assert_eq!(
                direction_delta(curr, prev) as i16,
                -(direction_delta(prev, curr) as i16)
            );
        }
    }
}

#[test]
fn two_step_latch_reports_one_click_per_two_edges() {
    let mut enc = RotaryEncoder::new(LatchMode::TWO3, (0, 20), 0, 0);
    assert_eq!(enc.data.position, 10);
    // One forward edge: raw 11, external 5.
    enc.update(true, false, 1);
    assert_eq!(enc.data.position, 11);
    assert_eq!(enc.data.position_ext, 5);
    // A second forward edge latches the next click.
    enc.update(true, true, 2);
    assert_eq!(enc.data.position, 12);
    assert_eq!(enc.data.position_ext, 6);
}

#[test]
fn unchanged_sample_is_a_no_op() {
    let mut enc = RotaryEncoder::new(LatchMode::TWO3, (0, 20), 1, 7);
    let before_pos = enc.data.position;
    enc.update(true, false, 99);
    assert_eq!(enc.data.position, before_pos);
    // Even the timestamps stay: nothing happened.
    assert_eq!(enc.data.position_ext_time, 7);
}

#[test]
fn raw_position_past_max_wraps_to_min() {
    let mut enc = RotaryEncoder::new(LatchMode::TWO3, (0, 1), 0, 0);
    assert_eq!(enc.data.position, 0);
    // Seven forward edges move the raw counter to 7.
    let samples = [
        (true, false),
        (true, true),
        (false, true),
        (false, false),
        (true, false),
        (true, true),
        (false, true),
    ];
    let mut now = 1;
    for (a, b) in samples {
        enc.update(a, b, now);
        now += 1;
    }
    assert_eq!(enc.data.position, 7);
    // The eighth edge would reach raw 8, whose latched value lies past the
    // configured maximum, so the counter wraps to the minimum bound.
    enc.update(false, false, now);
    assert_eq!(enc.data.position, 0);
    assert_eq!(enc.data.position_ext, 0);
    assert_eq!(get_position(&enc.data), 0);
}

#[test]
fn set_position_reseeds_keeping_substep_bits() {
    let mut enc = RotaryEncoder::new(LatchMode::FOUR3, (0, 30), 0, 0);
    assert_eq!(enc.data.position, 15);
    enc.set_position(5);
    // 5 shifted to raw scale, keeping the two low bits of raw 15.
    assert_eq!(enc.data.position, (5 << 2) | 0b11);
    assert_eq!(enc.data.position_ext, 5);
    assert_eq!(enc.data.position_ext_prev, 5);
    assert_eq!(enc.data.get_direction(), Direction::NoRotation);
}

#[test]
fn direction_compares_against_previous_external_position() {
    let mut data = EncoderData::default();
    data.position_ext_prev = 1;
    data.position_ext = 0;
    assert_eq!(data.get_direction(), Direction::Clockwise);
    data.position_ext = 2;
    assert_eq!(data.get_direction(), Direction::CounterClockwise);
    data.position_ext = 1;
    assert_eq!(data.get_direction(), Direction::NoRotation);
}

#[test]
fn duration_is_zero_when_clock_went_backwards() {
    let mut data = EncoderData::default();
    data.position_ext_time_prev = 10;
    data.position_ext_time = 35;
    assert_eq!(data.get_duration(), 25);
    data.position_ext_time = 5;
    assert_eq!(data.get_duration(), 0);
}

#[test]
fn default_data_is_the_placeholder() {
    let data = EncoderData::default();
    assert_eq!(data.range, (-100, 100));
    assert_eq!(data.position, 0);
    assert_eq!(data.position_ext, 0);
    assert_eq!(data.get_duration(), 0);
}

#[test]
fn worker_step_publishes_fresh_state() {
    let mut enc = RotaryEncoder::new(LatchMode::TWO3, (0, 20), 0, 0);
    let mut shared = EncoderData::default();
    encoder_worker_step(&mut enc, &mut shared, true, false, 42);
    assert_eq!(shared.position, 11);
    assert_eq!(shared.position_ext, 5);
    assert_eq!(shared.position_ext_time, 42);
    assert_eq!(get_position(&shared), 5);
}

#[test]
fn midpoint_rounds_toward_zero() {
    let enc = RotaryEncoder::new(LatchMode::TWO3, (-7, 0), 0, 0);
    assert_eq!(enc.data.position, -3);
    let enc = RotaryEncoder::new(LatchMode::TWO3, (-6, -3), 0, 0);
    assert_eq!(enc.data.position, -4);
    let enc = RotaryEncoder::new(LatchMode::TWO3, (3, 6), 0, 0);
    assert_eq!(enc.data.position, 4);
}
