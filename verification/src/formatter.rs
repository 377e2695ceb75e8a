//! Renders a temperature into the alphanumeric display buffer.
//!
//! Temperatures are fixed-point integers in hundredths of a degree
//! Fahrenheit.  Four display positions are available; the layout depends on
//! the magnitude, and a reading outside the plausible range renders an error
//! message instead, since it generally means a disconnected thermocouple.
//! Digits are extracted by truncating decimal decomposition at each place
//! value: no rounding, no carry between places.

use vstd::prelude::*;

use crate::ht16k33::{spec_blank_buffer, spec_glyph, HT16K33};

verus! {

/// Lower bound of the displayable range, inclusive, in hundredths of a
/// degree Fahrenheit.
pub const TEMP_DISPLAY_LOWER: i32 = 1000;

/// Boundary between the two-integer-digit and three-integer-digit layouts,
/// in hundredths of a degree Fahrenheit.
pub const TEMP_DISPLAY_MID: i32 = 10000;

/// Upper bound of the displayable range, exclusive, in hundredths of a
/// degree Fahrenheit.  The bound is a deployment choice, not a property of
/// the layouts: the three-digit layout itself carries any value below a
/// thousand degrees.
pub const TEMP_DISPLAY_UPPER: i32 = 60000;

/// The buffer contents that rendering the given temperature produces on a
/// cleared display.
///
/// In `[TEMP_DISPLAY_LOWER, TEMP_DISPLAY_MID)` the layout is "XX.YY": tens,
/// ones with the decimal point, tenths, hundredths.  In
/// `[TEMP_DISPLAY_MID, TEMP_DISPLAY_UPPER)` it is "XXX.Y": hundreds, tens,
/// ones with the decimal point, tenths.  Outside the range the literal glyph
/// sequence `E R R !` is shown.
pub open spec fn spec_format(t: int) -> Seq<u16> {
    if TEMP_DISPLAY_LOWER <= t < TEMP_DISPLAY_MID {
        spec_blank_buffer().update(0, spec_glyph(t / 1000 + 0x30, false)).update(
            1,
            spec_glyph((t / 100) % 10 + 0x30, true),
        ).update(2, spec_glyph((t / 10) % 10 + 0x30, false)).update(
            3,
            spec_glyph(t % 10 + 0x30, false),
        )
    } else if TEMP_DISPLAY_MID <= t < TEMP_DISPLAY_UPPER {
        spec_blank_buffer().update(0, spec_glyph(t / 10000 + 0x30, false)).update(
            1,
            spec_glyph((t / 1000) % 10 + 0x30, false),
        ).update(2, spec_glyph((t / 100) % 10 + 0x30, true)).update(
            3,
            spec_glyph((t / 10) % 10 + 0x30, false),
        )
    } else {
        spec_blank_buffer().update(0, spec_glyph('E' as u32 as int, false)).update(
            1,
            spec_glyph('R' as u32 as int, false),
        ).update(2, spec_glyph('R' as u32 as int, false)).update(
            3,
            spec_glyph('!' as u32 as int, false),
        )
    }
}

/// Clears the display buffer and renders the given temperature into it, in
/// hundredths of a degree Fahrenheit, exactly as `spec_format` lays it out.
/// Sending the buffer on the bus is the caller's transaction.
pub fn display_temp(temp_centi_f: i32, display: &mut HT16K33)
    requires
        old(display).wf(),
    ensures
        final(display).wf(),
        final(display)@ == spec_format(temp_centi_f as int),
        final(display).spec_addr() == old(display).spec_addr(),
{
    display.clear();
    if TEMP_DISPLAY_LOWER <= temp_centi_f && temp_centi_f < TEMP_DISPLAY_MID {
        let tens_place: u8 = (temp_centi_f / 1000) as u8;
        let ones_place: u8 = ((temp_centi_f / 100) % 10) as u8;
        let tenths_place: u8 = ((temp_centi_f / 10) % 10) as u8;
        let hundredths_place: u8 = (temp_centi_f % 10) as u8;
        display.write_digit_value(0, tens_place, false);
        display.write_digit_value(1, ones_place, true);
        display.write_digit_value(2, tenths_place, false);
        display.write_digit_value(3, hundredths_place, false);
    } else if TEMP_DISPLAY_MID <= temp_centi_f && temp_centi_f < TEMP_DISPLAY_UPPER {
        let hundreds_place: u8 = (temp_centi_f / 10000) as u8;
        let tens_place: u8 = ((temp_centi_f / 1000) % 10) as u8;
        let ones_place: u8 = ((temp_centi_f / 100) % 10) as u8;
        let tenths_place: u8 = ((temp_centi_f / 10) % 10) as u8;
        display.write_digit_value(0, hundreds_place, false);
        display.write_digit_value(1, tens_place, false);
        display.write_digit_value(2, ones_place, true);
        display.write_digit_value(3, tenths_place, false);
    } else {
        display.write_digit_ascii(0, 'E', false);
        display.write_digit_ascii(1, 'R', false);
        display.write_digit_ascii(2, 'R', false);
        display.write_digit_ascii(3, '!', false);
    }
}

} // verus!
