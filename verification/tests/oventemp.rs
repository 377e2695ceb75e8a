use oven_temp_rs::oventemp::OvenTemp;
use oven_temp_rs::oventemp::OvenTempState;
use oven_temp_rs::oventemp::TEMP_HYSTERESIS;
use oven_temp_rs::oventemp::TEMP_OFF_THRESHOLD;
use oven_temp_rs::oventemp::TEMP_ON_THRESHOLD;

#[test]
fn testy_test() {}

#[test]
fn starts_at_temp() {
    let tracker = OvenTemp::new();
    assert!(tracker.state == OvenTempState::AtTemp);
}

#[test]
fn off_to_heating_up_just_above_band() {
    // Phase Off, reading one hundredth of a degree above the on
    // threshold plus hysteresis: the transition must fire.
    let mut tracker = OvenTemp::new();
    tracker.state = OvenTempState::Off;
    let temp: i32 = TEMP_ON_THRESHOLD + TEMP_HYSTERESIS + 1;
    assert!(tracker.check_transition(temp) == Some(OvenTempState::HeatingUp));
    assert!(tracker.state == OvenTempState::HeatingUp);
}

#[test]
fn heating_up_to_off_just_below_band() {
    let mut tracker = OvenTemp::new();
    tracker.state = OvenTempState::HeatingUp;
    let temp: i32 = TEMP_ON_THRESHOLD - TEMP_HYSTERESIS - 1;
    assert!(tracker.check_transition(temp) == Some(OvenTempState::Off));
    assert!(tracker.state == OvenTempState::Off);
}

#[test]
fn heating_up_to_at_temp() {
    let mut tracker = OvenTemp::new();
    tracker.state = OvenTempState::HeatingUp;
    let temp: i32 = TEMP_OFF_THRESHOLD + TEMP_HYSTERESIS;
    assert!(tracker.check_transition(temp) == Some(OvenTempState::AtTemp));
}

#[test]
fn at_temp_to_cooling_down() {
    let mut tracker = OvenTemp::new();
    let temp: i32 = TEMP_OFF_THRESHOLD - TEMP_HYSTERESIS;
    assert!(tracker.check_transition(temp) == Some(OvenTempState::CoolingDown));
    assert!(tracker.state == OvenTempState::CoolingDown);
}

#[test]
fn cooling_down_to_off() {
    let mut tracker = OvenTemp::new();
    tracker.state = OvenTempState::CoolingDown;
    let temp: i32 = TEMP_ON_THRESHOLD - TEMP_HYSTERESIS;
    assert!(tracker.check_transition(temp) == Some(OvenTempState::Off));
}

#[test]
fn cooling_down_back_to_at_temp() {
    let mut tracker = OvenTemp::new();
    tracker.state = OvenTempState::CoolingDown;
    let temp: i32 = TEMP_OFF_THRESHOLD + TEMP_HYSTERESIS;
    assert!(tracker.check_transition(temp) == Some(OvenTempState::AtTemp));
}

#[test]
fn no_rule_is_an_idempotent_noop() {
    // Inside the hysteresis band no rule matches: the phase must stay put,
    // however many times the same reading arrives.
    let mut tracker = OvenTemp::new();
    tracker.state = OvenTempState::HeatingUp;
    let temp: i32 = TEMP_ON_THRESHOLD;
    for _ in 0..3 {
        assert!(tracker.check_transition(temp) == None);
        assert!(tracker.state == OvenTempState::HeatingUp);
    }
}

#[test]
fn off_stays_off_below_band() {
    let mut tracker = OvenTemp::new();
    tracker.state = OvenTempState::Off;
    assert!(tracker.check_transition(TEMP_ON_THRESHOLD + TEMP_HYSTERESIS - 1) == None);
    assert!(tracker.state == OvenTempState::Off);
}
