//! In-memory buffer and wire encoding for an 8-position 16-segment
//! alphanumeric display driver.
//!
//! The buffer holds one segment word per digit position.  Writing characters
//! and digits, clearing, and serializing to the wire payload are verified
//! here; the single-byte configuration opcodes (oscillator, blink rate,
//! brightness, standby) are computed here and handed to the bus by the
//! surrounding program.

use vstd::prelude::*;

use crate::font::{font_word, spec_font_word, ALPHA_POINT_MASK};

verus! {

/// Number of digit positions of the display.
pub const DISPLAY_BUFFER_SIZE: usize = 8;

/// Opcode base for the blink-rate command.
pub const HT16K33_BLINK_CMD: u8 = 0x80;

/// Display-on bit of the blink-rate command.
pub const HT16K33_BLINK_DISPLAYON: u8 = 0x01;

/// Blink rate that turns blinking off.
pub const HT16K33_BLINK_OFF: u8 = 0;

/// Opcode base for the brightness command.
pub const HT16K33_CMD_BRIGHTNESS: u8 = 0xE0;

/// Opcode base for the system-setup command; its lowest bit enables the
/// oscillator, so the base value alone puts the chip into standby.
pub const HT16K33_CMD_SYSTEM_SETUP: u8 = 0x20;

/// Driver state for one alphanumeric display: its bus address and the
/// segment word of each digit position.
pub struct HT16K33 {
    i2c_addr: u8,
    display_buffer: Vec<u16>,
}

/// The segment word written for character code `code` with the given
/// decimal-point flag: the font glyph, with the point bit ORed in when the
/// flag is set.
pub open spec fn spec_glyph(code: int, point: bool) -> u16 {
    if point {
        spec_font_word(code) | ALPHA_POINT_MASK
    } else {
        spec_font_word(code)
    }
}

/// A buffer with every segment word zero: all positions blank.
pub open spec fn spec_blank_buffer() -> Seq<u16> {
    Seq::new(DISPLAY_BUFFER_SIZE as nat, |i: int| 0u16)
}

/// The wire payload of a buffer: one framing byte of value 0, then the eight
/// segment words in position order, each low byte first.
pub open spec fn spec_serialize(words: Seq<u16>) -> Seq<u8> {
    Seq::new(
        (1 + 2 * DISPLAY_BUFFER_SIZE) as nat,
        |i: int|
            if i == 0 {
                0u8
            } else if i % 2 == 1 {
                (words[(i - 1) / 2] & 0xFF) as u8
            } else {
                (words[(i - 2) / 2] >> 8) as u8
            },
    )
}

impl View for HT16K33 {
    type V = Seq<u16>;

    closed spec fn view(&self) -> Seq<u16> {
        self.display_buffer@
    }
}

impl HT16K33 {
    /// The display's address on the bus.
    pub closed spec fn spec_addr(&self) -> u8 {
        self.i2c_addr
    }

    /// The display's address on the bus, as handed to the constructor.
    pub fn addr(&self) -> (r: u8)
        ensures
            r == self.spec_addr(),
    {
        self.i2c_addr
    }

    /// The buffer always holds exactly one segment word per digit position.
    pub open spec fn wf(&self) -> bool {
        self@.len() == DISPLAY_BUFFER_SIZE
    }

    /// Creates a driver for the display at the given bus address, with every
    /// position blank.  The oscillator, blink and brightness opcodes still
    /// have to be sent on the bus to light the display.
    pub fn new(i2c_addr: u8) -> (r: Self)
        ensures
            r.wf(),
            r@ == spec_blank_buffer(),
            r.spec_addr() == i2c_addr,
    {
        let display_buffer: Vec<u16> = vec![0u16; DISPLAY_BUFFER_SIZE];
        let r = HT16K33 { i2c_addr, display_buffer };
        proof {
            assert(r@ =~= spec_blank_buffer());
        }
        r
    }

    /// Blanks every digit position.
    pub fn clear(&mut self)
        requires
            old(self).wf(),
        ensures
            final(self).wf(),
            final(self)@ == spec_blank_buffer(),
            final(self).spec_addr() == old(self).spec_addr(),
    {
        let mut i: usize = 0;
        while i < DISPLAY_BUFFER_SIZE
            invariant
                self.wf(),
                i <= DISPLAY_BUFFER_SIZE,
                self.spec_addr() == old(self).spec_addr(),
                forall|j: int| 0 <= j < i ==> self@[j] == 0u16,
            decreases DISPLAY_BUFFER_SIZE - i,
        {
            self.display_buffer[i] = 0;
            i = i + 1;
        }
        proof {
            assert(self@ =~= spec_blank_buffer());
        }
    }

    /// Writes the decimal digit `number` at position `n`, with the decimal
    /// point lit when `point` is set.  Position and digit bounds are
    /// preconditions: an out-of-range argument is a programming error, not a
    /// runtime condition.
    pub fn write_digit_value(&mut self, n: u8, number: u8, point: bool)
        requires
            old(self).wf(),
            n < DISPLAY_BUFFER_SIZE,
            number <= 9,
        ensures
            final(self).wf(),
            final(self)@ == old(self)@.update(n as int, spec_glyph(number + 0x30, point)),
            final(self).spec_addr() == old(self).spec_addr(),
    {
        let mut word = font_word(number + 0x30);
        if point {
            word = word | ALPHA_POINT_MASK;
        }
        self.display_buffer[n as usize] = word;
    }

    /// Writes the glyph of the character code at position `n`, with the
    /// decimal point lit when `point` is set.  Only character codes below
    /// 128 have a glyph in the font.
    pub fn write_digit_ascii(&mut self, n: u8, character: char, point: bool)
        requires
            old(self).wf(),
            n < DISPLAY_BUFFER_SIZE,
            (character as u32) < 128,
        ensures
            final(self).wf(),
            final(self)@ == old(self)@.update(
                n as int,
                spec_glyph(character as u32 as int, point),
            ),
            final(self).spec_addr() == old(self).spec_addr(),
    {
        let code: u32 = character as u32;
        let mut word = font_word(code as u8);
        if point {
            word = word | ALPHA_POINT_MASK;
        }
        self.display_buffer[n as usize] = word;
    }

    /// Builds the wire payload of the buffer: always exactly 17 bytes, a
    /// framing byte of value 0 followed by the eight segment words in
    /// position order, low byte then high byte.  Sending the payload to the
    /// display's data address is the caller's transaction.
    pub fn serialize(&self) -> (r: Vec<u8>)
        requires
            self.wf(),
        ensures
            r@.len() == 1 + 2 * DISPLAY_BUFFER_SIZE,
            r@ == spec_serialize(self@),
    {
        let mut data: Vec<u8> = Vec::new();
        data.push(0);
        let mut i: usize = 0;
        while i < DISPLAY_BUFFER_SIZE
            invariant
                self.wf(),
                i <= DISPLAY_BUFFER_SIZE,
                data@.len() == 1 + 2 * i,
                data@[0] == 0u8,
                forall|j: int|
                    0 <= j < i ==> data@[2 * j + 1] == (self@[j] & 0xFF) as u8 && data@[2 * j + 2]
                        == (self@[j] >> 8) as u8,
            decreases DISPLAY_BUFFER_SIZE - i,
        {
            let word = self.display_buffer[i];
            data.push((word & 0xFF) as u8);
            data.push((word >> 8) as u8);
            i = i + 1;
        }
        proof {
            assert forall|k: int| 0 <= k < 17 implies data@[k] == spec_serialize(self@)[k] by {
                if k > 0 {
                    if k % 2 == 1 {
                        let j = (k - 1) / 2;
                        assert(k == 2 * j + 1);
                        assert(data@[2 * j + 1] == (self@[j] & 0xFF) as u8);
                    } else {
                        let j = (k - 2) / 2;
                        assert(k == 2 * j + 2);
                        assert(data@[2 * j + 2] == (self@[j] >> 8) as u8);
                    }
                }
            }
            assert(data@ =~= spec_serialize(self@));
        }
        data
    }
}

/// The opcode that turns the chip's oscillator on, leaving standby.
pub fn oscillator_on_command() -> (r: u8)
    ensures
        r == HT16K33_CMD_SYSTEM_SETUP | 0x01,
{
    HT16K33_CMD_SYSTEM_SETUP | 0x01
}

/// The opcode that toggles the chip's low-power standby mode: system setup
/// with the oscillator stopped when `standby` is set, started otherwise.
pub fn standby_command(standby: bool) -> (r: u8)
    ensures
        r == if standby {
            HT16K33_CMD_SYSTEM_SETUP
        } else {
            (HT16K33_CMD_SYSTEM_SETUP | 0x01)
        },
{
    if standby {
        HT16K33_CMD_SYSTEM_SETUP
    } else {
        HT16K33_CMD_SYSTEM_SETUP | 0x01
    }
}

/// The brightness opcode for dimming level `b`, clamped to the chip's
/// 0 to 15 range.
pub fn brightness_command(b: u8) -> (r: u8)
    ensures
        r == HT16K33_CMD_BRIGHTNESS | (if b > 15 {
            15u8
        } else {
            b
        }),
{
    let level: u8 = if b > 15 {
        15
    } else {
        b
    };
    HT16K33_CMD_BRIGHTNESS | level
}

/// The blink-rate opcode for rate `b`, clamped to the chip's 0 to 3 range.
pub fn blink_rate_command(b: u8) -> (r: u8)
    ensures
        r == HT16K33_BLINK_CMD | HT16K33_BLINK_DISPLAYON | ((if b > 3 {
            3u8
        } else {
            b
        }) << 1u8),
{
    let rate: u8 = if b > 3 {
        3
    } else {
        b
    };
    HT16K33_BLINK_CMD | HT16K33_BLINK_DISPLAYON | (rate << 1u8)
}

} // verus!
