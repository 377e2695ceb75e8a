use oven_temp_rs::controller::adc_to_battery_millivolts;
use oven_temp_rs::controller::adc_to_temp_centi_f;
use oven_temp_rs::controller::battery_is_low;
use oven_temp_rs::controller::blink_index;
use oven_temp_rs::controller::distress_pattern;
use oven_temp_rs::controller::run;
use oven_temp_rs::controller::should_blink;
use oven_temp_rs::controller::standby_on_transition;
use oven_temp_rs::controller::write_heartbeat_frame;
use oven_temp_rs::controller::write_low_batt_frame;
use oven_temp_rs::formatter::display_temp;
use oven_temp_rs::ht16k33::HT16K33;
use oven_temp_rs::oventemp::OvenTempState;

fn word_at(payload: &[u8], position: usize) -> u16 {
    (payload[2 * position + 1] as u16) | ((payload[2 * position + 2] as u16) << 8)
}

#[test]
fn battery_adc_conversion() {
    // Full scale reads the whole reference rail; the external divider
    // halves the battery voltage, so the estimate doubles the reading.
    assert_eq!(adc_to_battery_millivolts(4095), 6600);
    assert_eq!(adc_to_battery_millivolts(0), 0);
    assert_eq!(adc_to_battery_millivolts(2047), 3298);
}

#[test]
fn thermocouple_adc_conversion() {
    // 1250 mV at the amplifier output is zero Celsius: 32.00 Fahrenheit.
    assert_eq!(adc_to_temp_centi_f(1552), 3200);
    // Half scale: 1649 mV, so (1649 - 1250) * 36 + 3200 hundredths.
    assert_eq!(adc_to_temp_centi_f(2047), 17564);
    // Ground reads deeply negative, far below the displayable range.
    assert_eq!(adc_to_temp_centi_f(0), -41800);
}

#[test]
fn low_battery_threshold_is_inclusive() {
    assert!(battery_is_low(3700));
    assert!(battery_is_low(0));
    assert!(!battery_is_low(3701));
}

#[test]
fn blink_position_by_battery_bracket() {
    assert_eq!(blink_index(100), 3);
    assert_eq!(blink_index(75), 3);
    assert_eq!(blink_index(74), 2);
    assert_eq!(blink_index(50), 2);
    assert_eq!(blink_index(49), 1);
    assert_eq!(blink_index(25), 1);
    assert_eq!(blink_index(24), 0);
    assert_eq!(blink_index(0), 0);
}

#[test]
fn heartbeat_only_while_resting_every_fifth_iteration() {
    assert!(should_blink(OvenTempState::Off, 4));
    assert!(should_blink(OvenTempState::CoolingDown, 9));
    assert!(!should_blink(OvenTempState::Off, 5));
    assert!(!should_blink(OvenTempState::AtTemp, 4));
    assert!(!should_blink(OvenTempState::HeatingUp, 9));
}

#[test]
fn standby_follows_the_new_phase() {
    assert!(standby_on_transition(OvenTempState::Off));
    assert!(standby_on_transition(OvenTempState::CoolingDown));
    assert!(!standby_on_transition(OvenTempState::HeatingUp));
    assert!(!standby_on_transition(OvenTempState::AtTemp));
}

#[test]
fn run_rests_while_off_or_cooling() {
    let mut display = HT16K33::new(0x70);
    display.write_digit_value(0, 7, false);
    let before: Vec<u8> = display.serialize();
    let (rendered, delay) = run(OvenTempState::Off, 25000, &mut display);
    assert!(!rendered);
    assert_eq!(delay, 1000);
    assert_eq!(display.serialize(), before);
    let (rendered, delay) = run(OvenTempState::CoolingDown, 25000, &mut display);
    assert!(!rendered);
    assert_eq!(delay, 1000);
    assert_eq!(display.serialize(), before);
}

#[test]
fn run_renders_while_heating_or_at_temp() {
    let mut display = HT16K33::new(0x70);
    let (rendered, delay) = run(OvenTempState::AtTemp, 34550, &mut display);
    assert!(rendered);
    assert_eq!(delay, 1000);
    let mut expected = HT16K33::new(0x70);
    display_temp(34550, &mut expected);
    assert_eq!(display.serialize(), expected.serialize());
    let (rendered, _) = run(OvenTempState::HeatingUp, 15000, &mut display);
    assert!(rendered);
}

#[test]
fn low_batt_message_frames() {
    let mut display = HT16K33::new(0x70);
    write_low_batt_frame(&mut display, false);
    let first: Vec<u8> = display.serialize();
    assert_eq!(word_at(&first, 0), 0x0038); // L
    assert_eq!(word_at(&first, 1), 0x003F); // O
    assert_eq!(word_at(&first, 2), 0x2836); // W
    assert_eq!(word_at(&first, 3), 0);
    write_low_batt_frame(&mut display, true);
    let second: Vec<u8> = display.serialize();
    assert_eq!(word_at(&second, 0), 0x128F); // B
    assert_eq!(word_at(&second, 1), 0x00F7); // A
    assert_eq!(word_at(&second, 2), 0x1201); // T
    assert_eq!(word_at(&second, 3), 0x1201); // T
}

#[test]
fn heartbeat_frame_lights_one_point() {
    let mut display = HT16K33::new(0x70);
    display.write_digit_value(0, 4, false);
    write_heartbeat_frame(&mut display, 2);
    let payload: Vec<u8> = display.serialize();
    for position in 0..8 {
        if position == 2 {
            assert_eq!(word_at(&payload, position), 0x4000);
        } else {
            assert_eq!(word_at(&payload, position), 0);
        }
    }
}

#[test]
fn distress_cadence() {
    let pattern: Vec<u32> = distress_pattern();
    assert_eq!(pattern.len(), 18);
    for i in 0..6 {
        assert_eq!(pattern[i], 250);
    }
    for i in 6..12 {
        assert_eq!(pattern[i], 500);
    }
    for i in 12..17 {
        assert_eq!(pattern[i], 250);
    }
    assert_eq!(pattern[17], 1000);
}
