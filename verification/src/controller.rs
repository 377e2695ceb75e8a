//! Per-iteration decisions of the monitor's run loop.
//!
//! Each iteration reads the battery and the thermocouple, dispatches on the
//! oven phase to either render the temperature or rest, reacts to phase
//! transitions by blanking or waking the display, and periodically blinks a
//! single dot as a low-power heartbeat.  The sampling, bus transactions and
//! delays are the surrounding program's; everything it needs to decide and
//! render is computed here, over plain integers.

use vstd::prelude::*;

use crate::formatter::{display_temp, spec_format};
use crate::ht16k33::{spec_blank_buffer, spec_glyph, HT16K33, DISPLAY_BUFFER_SIZE};
use crate::oventemp::OvenTempState;

verus! {

/// Full-scale reading of the 12-bit ADC.
pub const ADC_FULLSCALE: u32 = 4095;

/// The ADC reference, in millivolts: half the supply with a digital gain of
/// one half, so effectively the 3.3 V rail.
pub const ADC_REF_MILLIVOLTS: u32 = 3300;

/// The threshold for showing a low-battery indication, in millivolts.
/// Readings are not trustworthy much below this voltage due to drop-out.
pub const LOW_BATTERY_MILLIVOLTS: u32 = 3700;

/// Rest interval while the oven is off, in milliseconds.
pub const DELAY_OFF_MS: u32 = 1000;

/// Rest interval while the oven is cooling down, in milliseconds.
pub const DELAY_COOLDOWN_MS: u32 = 1000;

/// Interval between renders while the temperature is displayed, in
/// milliseconds.
pub const DELAY_RUNNING_MS: u32 = 1000;

/// Number of iterations between heartbeat blinks while not displaying.
pub const SECS_BETWEEN_BLINK: u32 = 5;

/// The battery voltage of a raw ADC sample, in millivolts: the sample scaled
/// to the reference rail, doubled because external hardware divides the
/// battery voltage by two before the pin.
pub fn adc_to_battery_millivolts(raw: u16) -> (mv: u32)
    requires
        raw <= ADC_FULLSCALE,
    ensures
        mv == 2 * ((raw * ADC_REF_MILLIVOLTS) / ADC_FULLSCALE as int),
{
    2 * ((raw as u32 * ADC_REF_MILLIVOLTS) / ADC_FULLSCALE)
}

/// The temperature of a raw thermocouple-amplifier ADC sample, in hundredths
/// of a degree Fahrenheit.
pub open spec fn spec_adc_to_temp_centi_f(raw: int) -> int {
    ((raw * ADC_REF_MILLIVOLTS) / ADC_FULLSCALE as int - 1250) * 36 + 3200
}

/// Converts a raw thermocouple-amplifier ADC sample to hundredths of a
/// degree Fahrenheit.  The amplifier puts out 1.25 V at zero degrees Celsius
/// and 5 mV per degree, so in fixed point the Celsius reading is
/// `(mv - 1250) * 20` hundredths; the Fahrenheit conversion scales by 9/5
/// and shifts by 32 degrees, giving `(mv - 1250) * 36 + 3200` exactly.
pub fn adc_to_temp_centi_f(raw: u16) -> (t: i32)
    requires
        raw <= ADC_FULLSCALE,
    ensures
        t == spec_adc_to_temp_centi_f(raw as int),
{
    let mv: i32 = ((raw as u32 * ADC_REF_MILLIVOLTS) / ADC_FULLSCALE) as i32;
    (mv - 1250) * 36 + 3200
}

/// Whether the battery voltage calls for the low-battery branch: inform the
/// user and rest instead of reading the thermocouple, whose readings are not
/// accurate at this supply level.
pub fn battery_is_low(battery_millivolts: u32) -> (r: bool)
    ensures
        r == (battery_millivolts <= LOW_BATTERY_MILLIVOLTS),
{
    battery_millivolts <= LOW_BATTERY_MILLIVOLTS
}

/// The digit position whose dot the heartbeat blinks, by battery bracket:
/// the fuller the battery, the later the position.
pub open spec fn spec_blink_index(battery_percentage: int) -> u8 {
    if battery_percentage >= 75 {
        3u8
    } else if battery_percentage >= 50 {
        2u8
    } else if battery_percentage >= 25 {
        1u8
    } else {
        0u8
    }
}

/// Selects the heartbeat dot position for the given battery percentage.
pub fn blink_index(battery_percentage: usize) -> (r: u8)
    ensures
        r == spec_blink_index(battery_percentage as int),
        r < 4,
{
    if battery_percentage >= 75 {
        3
    } else if battery_percentage >= 50 {
        2
    } else if battery_percentage >= 25 {
        1
    } else {
        0
    }
}

/// Whether this iteration blinks the heartbeat dot: only while the display
/// rests (oven off or cooling down), every `SECS_BETWEEN_BLINK`-th
/// iteration.
pub fn should_blink(state: OvenTempState, iteration: u32) -> (r: bool)
    ensures
        r == ((state is Off || state is CoolingDown) && iteration % SECS_BETWEEN_BLINK
            == SECS_BETWEEN_BLINK - 1),
{
    (state == OvenTempState::Off || state == OvenTempState::CoolingDown) && iteration
        % SECS_BETWEEN_BLINK == SECS_BETWEEN_BLINK - 1
}

/// Whether a transition into the given phase puts the display into standby
/// (and blanks it first); entering any other phase wakes the display.
pub fn standby_on_transition(new_state: OvenTempState) -> (r: bool)
    ensures
        r == (new_state is Off || new_state is CoolingDown),
{
    new_state == OvenTempState::Off || new_state == OvenTempState::CoolingDown
}

/// Runs the phase-dependent render-or-rest decision of one iteration.
/// While the oven is off or cooling down the display is left untouched and
/// the long rest interval is returned; otherwise the temperature, in
/// hundredths of a degree Fahrenheit, is rendered into the buffer, which the
/// caller must then transfer, and the running interval is returned.  The
/// flag says whether the buffer was rendered anew.
pub fn run(state: OvenTempState, temp_centi_f: i32, display: &mut HT16K33) -> (r: (bool, u32))
    requires
        old(display).wf(),
    ensures
        final(display).wf(),
        final(display).spec_addr() == old(display).spec_addr(),
        state is Off ==> !r.0 && r.1 == DELAY_OFF_MS && final(display)@ == old(display)@,
        state is CoolingDown ==> !r.0 && r.1 == DELAY_COOLDOWN_MS && final(display)@ == old(
            display)@,
        !(state is Off || state is CoolingDown) ==> r.0 && r.1 == DELAY_RUNNING_MS && final(
            display)@ == spec_format(temp_centi_f as int),
{
    match state {
        OvenTempState::Off => (false, DELAY_OFF_MS),
        OvenTempState::CoolingDown => (false, DELAY_COOLDOWN_MS),
        _ => {
            display_temp(temp_centi_f, display);
            (true, DELAY_RUNNING_MS)
        },
    }
}

/// The buffer contents of the two frames of the low-battery message, shown
/// one after the other: "LOW", then "BATT".
pub open spec fn spec_low_batt_frame(second: bool) -> Seq<u16> {
    if second {
        spec_blank_buffer().update(0, spec_glyph('B' as u32 as int, false)).update(
            1,
            spec_glyph('A' as u32 as int, false),
        ).update(2, spec_glyph('T' as u32 as int, false)).update(
            3,
            spec_glyph('T' as u32 as int, false),
        )
    } else {
        spec_blank_buffer().update(0, spec_glyph('L' as u32 as int, false)).update(
            1,
            spec_glyph('O' as u32 as int, false),
        ).update(2, spec_glyph('W' as u32 as int, false))
    }
}

/// Renders one frame of the low-battery message into the display buffer:
/// the first frame reads "LOW", the second "BATT".
pub fn write_low_batt_frame(display: &mut HT16K33, second: bool)
    requires
        old(display).wf(),
    ensures
        final(display).wf(),
        final(display)@ == spec_low_batt_frame(second),
        final(display).spec_addr() == old(display).spec_addr(),
{
    display.clear();
    if second {
        display.write_digit_ascii(0, 'B', false);
        display.write_digit_ascii(1, 'A', false);
        display.write_digit_ascii(2, 'T', false);
        display.write_digit_ascii(3, 'T', false);
    } else {
        display.write_digit_ascii(0, 'L', false);
        display.write_digit_ascii(1, 'O', false);
        display.write_digit_ascii(2, 'W', false);
    }
}

/// The buffer contents of the heartbeat frame: a single lit decimal point at
/// the given position, everything else blank.
pub open spec fn spec_heartbeat_frame(index: int) -> Seq<u16> {
    spec_blank_buffer().update(index, spec_glyph(' ' as u32 as int, true))
}

/// Renders the heartbeat frame: blanks the buffer and lights only the
/// decimal point at the given position.
pub fn write_heartbeat_frame(display: &mut HT16K33, index: u8)
    requires
        old(display).wf(),
        index < DISPLAY_BUFFER_SIZE,
    ensures
        final(display).wf(),
        final(display)@ == spec_heartbeat_frame(index as int),
        final(display).spec_addr() == old(display).spec_addr(),
{
    display.clear();
    display.write_digit_ascii(index, ' ', true);
}

/// The distress cadence blinked on the indicator LED after a transport
/// failure: alternating on/off durations in milliseconds, starting with the
/// LED on — three short, three long, three short, then a long rest.  The
/// program repeats it without returning to the run loop.
pub open spec fn spec_distress_pattern() -> Seq<u32> {
    seq![
        250u32, 250, 250, 250, 250, 250, 500, 500, 500, 500, 500, 500, 250, 250, 250, 250, 250,
        1000,
    ]
}

/// Builds the distress cadence for the indicator LED.
pub fn distress_pattern() -> (r: Vec<u32>)
    ensures
        r@ == spec_distress_pattern(),
{
    let mut pattern: Vec<u32> = Vec::new();
    let mut i: usize = 0;
    while i < 6
        invariant
            i <= 6,
            pattern@.len() == i,
            forall|j: int| 0 <= j < i ==> pattern@[j] == 250u32,
        decreases 6 - i,
    {
        pattern.push(250);
        i = i + 1;
    }
    let mut k: usize = 0;
    while k < 6
        invariant
            k <= 6,
            pattern@.len() == 6 + k,
            forall|j: int| 0 <= j < 6 ==> pattern@[j] == 250u32,
            forall|j: int| 6 <= j < 6 + k ==> pattern@[j] == 500u32,
        decreases 6 - k,
    {
        pattern.push(500);
        k = k + 1;
    }
    let mut m: usize = 0;
    while m < 5
        invariant
            m <= 5,
            pattern@.len() == 12 + m,
            forall|j: int| 0 <= j < 6 ==> pattern@[j] == 250u32,
            forall|j: int| 6 <= j < 12 ==> pattern@[j] == 500u32,
            forall|j: int| 12 <= j < 12 + m ==> pattern@[j] == 250u32,
        decreases 5 - m,
    {
        pattern.push(250);
        m = m + 1;
    }
    pattern.push(1000);
    proof {
        assert(pattern@ =~= spec_distress_pattern());
    }
    pattern
}

} // verus!
