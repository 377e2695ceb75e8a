use oven_temp_rs::ht16k33::blink_rate_command;
use oven_temp_rs::ht16k33::brightness_command;
use oven_temp_rs::ht16k33::oscillator_on_command;
use oven_temp_rs::ht16k33::standby_command;
use oven_temp_rs::ht16k33::HT16K33;

fn word_at(payload: &[u8], position: usize) -> u16 {
    (payload[2 * position + 1] as u16) | ((payload[2 * position + 2] as u16) << 8)
}

#[test]
fn serialized_payload_is_always_17_bytes() {
    let mut display = HT16K33::new(0x70);
    assert_eq!(display.serialize().len(), 17);
    display.write_digit_value(0, 8, true);
    assert_eq!(display.serialize().len(), 17);
    display.clear();
    assert_eq!(display.serialize().len(), 17);
}

#[test]
fn fresh_buffer_serializes_to_zeroes_after_tag() {
    let display = HT16K33::new(0x70);
    let payload: Vec<u8> = display.serialize();
    assert_eq!(payload[0], 0);
    for i in 1..17 {
        assert_eq!(payload[i], 0);
    }
}

#[test]
fn digit_words_little_endian_in_position_order() {
    let mut display = HT16K33::new(0x70);
    // '8' lights the eight outer segments and the two horizontal bars.
    display.write_digit_value(0, 8, false);
    // '5' with the decimal point sets bit 14 on top of the glyph.
    display.write_digit_value(1, 5, true);
    let payload: Vec<u8> = display.serialize();
    assert_eq!(payload[0], 0);
    assert_eq!(payload[1], 0xFF);
    assert_eq!(payload[2], 0x00);
    assert_eq!(word_at(&payload, 1), 0x2069 | 0x4000);
    for position in 2..8 {
        assert_eq!(word_at(&payload, position), 0);
    }
}

#[test]
fn ascii_glyphs_match_the_font() {
    let mut display = HT16K33::new(0x70);
    display.write_digit_ascii(0, 'E', false);
    display.write_digit_ascii(1, 'R', false);
    display.write_digit_ascii(2, '!', false);
    display.write_digit_ascii(3, ' ', true);
    let payload: Vec<u8> = display.serialize();
    assert_eq!(word_at(&payload, 0), 0x00F9);
    assert_eq!(word_at(&payload, 1), 0x20F3);
    assert_eq!(word_at(&payload, 2), 0x0006);
    // A blank glyph with the point: only the point bit is lit.
    assert_eq!(word_at(&payload, 3), 0x4000);
}

#[test]
fn clear_blanks_every_position() {
    let mut display = HT16K33::new(0x70);
    for position in 0..8 {
        display.write_digit_value(position, 9, true);
    }
    display.clear();
    let payload: Vec<u8> = display.serialize();
    for i in 1..17 {
        assert_eq!(payload[i], 0);
    }
}

#[test]
fn address_is_kept() {
    let mut display = HT16K33::new(0x70);
    display.write_digit_value(3, 1, false);
    display.clear();
    assert_eq!(display.addr(), 0x70);
}

#[test]
fn command_opcodes() {
    assert_eq!(oscillator_on_command(), 0x21);
    assert_eq!(standby_command(true), 0x20);
    assert_eq!(standby_command(false), 0x21);
    assert_eq!(brightness_command(15), 0xEF);
    assert_eq!(brightness_command(1), 0xE1);
    // Levels above the chip's range are clamped, not sent raw.
    assert_eq!(brightness_command(200), 0xEF);
    assert_eq!(blink_rate_command(0), 0x81);
    assert_eq!(blink_rate_command(2), 0x85);
    assert_eq!(blink_rate_command(3), 0x87);
    // Rates above the chip's range are clamped, not sent raw.
    assert_eq!(blink_rate_command(9), 0x87);
}
