use jazagotchi::device::level_for_state;
use jazagotchi::device::toggle_target;
use jazagotchi::device::State;

#[test]
fn toggle_swaps_the_power_state() {
    assert_eq!(toggle_target(State::Off), State::On);
    assert_eq!(toggle_target(State::On), State::Off);
    assert_eq!(toggle_target(toggle_target(State::On)), State::On);
}

#[test]
fn enable_pin_is_high_exactly_when_on() {
    assert!(level_for_state(State::On));
    assert!(!level_for_state(State::Off));
}
