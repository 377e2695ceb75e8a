//! Bit-packed monochrome framebuffer for a small pixel display.
//!
//! The backing buffer is sized for the largest supported panel and always
//! transferred whole; byte 0 is a fixed protocol tag, and the remaining
//! bytes hold the pixels column by column in pages of 8 vertical pixels.
//! Pixel writes are bounds-checked against the configured, not the maximum,
//! geometry.  Building the per-chip command sequences is verified here; the
//! bus transactions that carry them belong to the surrounding program.

use vstd::prelude::*;

verus! {

/// Width of the largest supported panel, in pixels.
pub const MAX_WIDTH: usize = 128;

/// Height of the largest supported panel, in pixels.
pub const MAX_HEIGHT: usize = 64;

/// Size of the backing buffer: one page byte per 8 rows over the full
/// maximum geometry, plus the leading protocol tag byte.
pub const BUFFER_LEN: usize = 1 + (MAX_HEIGHT / 8) * MAX_WIDTH;

/// The protocol tag that leads every transfer of the data buffer.
pub const DATA_TAG: u8 = 0x40;

#[derive(Debug, PartialEq, Eq)]
pub enum SSD1306Errors {
    DimensionsInvalid,
    GenericError,
    I2CWriteFailure,
    I2CReadFailure,
}

pub enum Colors {
    /// Draw 'off' pixels.
    BLACK,
    /// Draw 'on' pixels.
    WHITE,
    /// Invert pixels.
    INVERSE,
}

/// A requested panel geometry, in pixels.
pub struct DisplayDimensions {
    pub width: usize,
    pub height: usize,
}

/// The three supported panel geometries; every other pair is rejected at
/// construction.
pub open spec fn spec_dimensions_valid(width: int, height: int) -> bool {
    ||| (width == 128 && height == 32)
    ||| (width == 128 && height == 64)
    ||| (width == 96 && height == 16)
}

/// Index of the byte holding pixel `(x, y)` on a panel of the given width:
/// one past the tag byte, column-major within pages of 8 rows.
pub open spec fn spec_pixel_index(x: int, y: int, width: int) -> int {
    1 + x + (y / 8) * width
}

/// The single-bit mask of pixel row `y` within its page byte.
pub open spec fn spec_pixel_mask(y: int) -> u8 {
    1u8 << ((y % 8) as u8)
}

/// The page byte after drawing on row `y` in the given color: the bit is
/// set by `WHITE`, cleared by `BLACK` and flipped by `INVERSE`.
pub open spec fn spec_pixel_byte(b: u8, y: int, color: Colors) -> u8 {
    match color {
        Colors::WHITE => b | spec_pixel_mask(y),
        Colors::BLACK => b & !spec_pixel_mask(y),
        Colors::INVERSE => b ^ spec_pixel_mask(y),
    }
}

/// On a supported geometry, every in-bounds pixel addresses a byte strictly
/// inside the buffer, never the tag byte.
pub proof fn lemma_pixel_index_in_range(x: int, y: int, width: int, height: int)
    requires
        spec_dimensions_valid(width, height),
        0 <= x < width,
        0 <= y < height,
    ensures
        1 <= spec_pixel_index(x, y, width) < BUFFER_LEN,
{
    let q = y / 8;
    assert(0 <= q <= 7);
    assert(0 <= q * width <= 896) by (nonlinear_arith)
        requires
            0 <= q <= 7,
            0 <= width <= 128,
    ;
}

/// The whole buffer after drawing pixel `(x, y)` in the given color.
pub open spec fn spec_draw_pixel(buf: Seq<u8>, x: int, y: int, width: int, color: Colors) -> Seq<
    u8,
> {
    buf.update(
        spec_pixel_index(x, y, width),
        spec_pixel_byte(buf[spec_pixel_index(x, y, width)], y, color),
    )
}

/// Framebuffer for one panel: the backing buffer sized for the maximum
/// geometry, and the configured geometry that bounds pixel writes.
pub struct SSD1306 {
    display_buffer: Vec<u8>,
    width: usize,
    height: usize,
}

impl View for SSD1306 {
    type V = Seq<u8>;

    closed spec fn view(&self) -> Seq<u8> {
        self.display_buffer@
    }
}

impl SSD1306 {
    /// The configured panel width, in pixels.
    pub closed spec fn spec_width(&self) -> usize {
        self.width
    }

    /// The configured panel height, in pixels.
    pub closed spec fn spec_height(&self) -> usize {
        self.height
    }

    /// The configured geometry is one of the supported pairs, the buffer has
    /// its fixed full-panel size, and the tag byte is in place.
    pub open spec fn wf(&self) -> bool {
        &&& spec_dimensions_valid(self.spec_width() as int, self.spec_height() as int)
        &&& self@.len() == BUFFER_LEN
        &&& self@[0] == DATA_TAG
    }

    /// The configured panel width, in pixels.
    pub fn width(&self) -> (r: usize)
        ensures
            r == self.spec_width(),
    {
        self.width
    }

    /// The configured panel height, in pixels.
    pub fn height(&self) -> (r: usize)
        ensures
            r == self.spec_height(),
    {
        self.height
    }

    /// Whether the requested geometry is one of the supported pairs.
    pub fn dimensions_valid(dim: &DisplayDimensions) -> (r: bool)
        ensures
            r == spec_dimensions_valid(dim.width as int, dim.height as int),
    {
        (dim.width == 128 && dim.height == 32) || (dim.width == 128 && dim.height == 64) || (
        dim.width == 96 && dim.height == 16)
    }

    /// Creates a framebuffer for the requested geometry.  Construction
    /// succeeds exactly for the three supported geometries and otherwise
    /// fails with a dimension error, allocating nothing.  A fresh buffer
    /// carries the tag byte followed by every pixel bit set.
    pub fn new(dimensions: &DisplayDimensions) -> (r: Result<SSD1306, SSD1306Errors>)
        ensures
            r is Ok <==> spec_dimensions_valid(dimensions.width as int, dimensions.height as int),
            r matches Ok(s) ==> {
                &&& s.wf()
                &&& s.spec_width() == dimensions.width
                &&& s.spec_height() == dimensions.height
                &&& forall|i: int| 1 <= i < BUFFER_LEN ==> s@[i] == 0xFFu8
            },
            r matches Err(e) ==> e is DimensionsInvalid,
    {
        if dimensions.width > MAX_WIDTH || dimensions.height > MAX_HEIGHT {
            Err(SSD1306Errors::DimensionsInvalid)
        } else if !SSD1306::dimensions_valid(dimensions) {
            Err(SSD1306Errors::DimensionsInvalid)
        } else {
            let mut display_buffer: Vec<u8> = vec![0xFFu8; BUFFER_LEN];
            display_buffer[0] = DATA_TAG;
            let s = SSD1306 { display_buffer, width: dimensions.width, height: dimensions.height };
            Ok(s)
        }
    }

    /// Draws one pixel.  Coordinates are checked against the configured
    /// geometry: in bounds, the addressed page byte is updated per the color
    /// and nothing else changes; out of bounds, the call fails with a
    /// dimension error and the buffer is untouched.
    pub fn draw_pixel(&mut self, x: usize, y: usize, color: Colors) -> (r: Result<
        (),
        SSD1306Errors,
    >)
        requires
            old(self).wf(),
        ensures
            final(self).wf(),
            final(self).spec_width() == old(self).spec_width(),
            final(self).spec_height() == old(self).spec_height(),
            x < old(self).spec_width() && y < old(self).spec_height() ==> {
                &&& r is Ok
                &&& final(self)@ == spec_draw_pixel(
                    old(self)@,
                    x as int,
                    y as int,
                    old(self).spec_width() as int,
                    color,
                )
            },
            !(x < old(self).spec_width() && y < old(self).spec_height()) ==> {
                &&& r matches Err(e) && e is DimensionsInvalid
                &&& final(self)@ == old(self)@
            },
    {
        if x < self.width && y < self.height {
            proof {
                lemma_pixel_index_in_range(
                    x as int,
                    y as int,
                    self.spec_width() as int,
                    self.spec_height() as int,
                );
            }
            let index: usize = 1 + x + (y / 8) * self.width;
            let shift: u8 = (y % 8) as u8;
            let mask: u8 = 1u8 << shift;
            proof {
                assert(index == spec_pixel_index(x as int, y as int, self.spec_width() as int));
                assert(mask == spec_pixel_mask(y as int));
            }
            let b = self.display_buffer[index];
            let updated: u8 = match color {
                Colors::WHITE => b | mask,
                Colors::BLACK => b & !mask,
                Colors::INVERSE => b ^ mask,
            };
            self.display_buffer[index] = updated;
            Ok(())
        } else {
            Err(SSD1306Errors::DimensionsInvalid)
        }
    }

    /// Copies out the full backing buffer for transfer: always the fixed
    /// full-panel size, tag byte first, regardless of the configured
    /// geometry.
    pub fn serialize(&self) -> (r: Vec<u8>)
        requires
            self.wf(),
        ensures
            r@.len() == BUFFER_LEN,
            r@ == self@,
    {
        let mut data: Vec<u8> = Vec::new();
        let mut i: usize = 0;
        while i < BUFFER_LEN
            invariant
                self.wf(),
                i <= BUFFER_LEN,
                data@.len() == i,
                forall|j: int| 0 <= j < i ==> data@[j] == self@[j],
            decreases BUFFER_LEN - i,
        {
            data.push(self.display_buffer[i]);
            i = i + 1;
        }
        proof {
            assert(data@ =~= self@);
        }
        data
    }

    /// The per-chip initialization command sequence for the configured
    /// geometry: clock, multiplex ratio, charge pump, addressing mode, COM
    /// configuration and contrast, then precharge, VCOM level and display-on.
    /// The caller sends these on the bus, prefixed per transaction with the
    /// chip's command control byte.
    pub fn init_commands(&self) -> (r: Vec<u8>)
        requires
            self.wf(),
        ensures
            r@ == spec_init_commands(self.spec_width() as int, self.spec_height() as int),
    {
        let mut cmds: Vec<u8> = Vec::new();
        cmds.push(0xAE);  // display off
        cmds.push(0xD5);  // set display clock divide
        cmds.push(0x80);
        cmds.push(0xA8);  // set multiplex ratio
        cmds.push((self.height - 1) as u8);
        cmds.push(0xD3);  // set display offset
        cmds.push(0x00);
        cmds.push(0x40);  // set start line 0
        cmds.push(0x8D);  // charge pump
        cmds.push(0x14);  // generate display voltage from the 3.3V rail
        cmds.push(0x20);  // memory addressing mode
        cmds.push(0x00);
        cmds.push(0xA1);  // segment remap
        cmds.push(0xC8);  // COM scan decrement
        cmds.push(0xDA);  // set COM pins
        if self.width == 128 && self.height == 64 {
            cmds.push(0x12);
            cmds.push(0x81);  // set contrast
            cmds.push(0xCF);
        } else if self.width == 128 && self.height == 32 {
            cmds.push(0x02);
            cmds.push(0x81);  // set contrast
            cmds.push(0x8F);
        } else {
            cmds.push(0x02);
            cmds.push(0x81);  // set contrast
            cmds.push(0xAF);
        }
        cmds.push(0xD9);  // set precharge
        cmds.push(0xF1);
        cmds.push(0xDB);  // set VCOM detect
        cmds.push(0x40);
        cmds.push(0xA4);  // resume display from RAM
        cmds.push(0xA6);  // normal (non-inverted) display
        cmds.push(0x2E);  // deactivate scroll
        cmds.push(0xAF);  // display on
        proof {
            let w = self.spec_width() as int;
            let h = self.spec_height() as int;
            if w == 128 && h == 64 {
                assert(cmds@ =~= spec_init_commands(w, h));
            } else if w == 128 && h == 32 {
                assert(cmds@ =~= spec_init_commands(w, h));
            } else {
                assert(cmds@ =~= spec_init_commands(w, h));
            }
        }
        cmds
    }

    /// The command sequence sent before each frame transfer: full page range,
    /// then the column range of the configured width.
    pub fn display_commands(&self) -> (r: Vec<u8>)
        requires
            self.wf(),
        ensures
            r@ == spec_display_commands(self.spec_width() as int),
    {
        let mut cmds: Vec<u8> = Vec::new();
        cmds.push(0x22);  // page address range
        cmds.push(0x00);
        cmds.push(0xFF);
        cmds.push(0x21);  // column address range
        cmds.push(0x00);
        cmds.push((self.width - 1) as u8);
        proof {
            assert(cmds@ =~= spec_display_commands(self.spec_width() as int));
        }
        cmds
    }

    /// The two-command sequence setting the contrast: dimmed to the minimum,
    /// or restored to the bright level used with the internal charge pump.
    pub fn dim_commands(&self, dim: bool) -> (r: Vec<u8>)
        ensures
            r@ == spec_dim_commands(dim),
    {
        let mut cmds: Vec<u8> = Vec::new();
        cmds.push(0x81);  // set contrast
        if dim {
            cmds.push(0x00);
        } else {
            cmds.push(0xCF);
        }
        proof {
            if dim {
                assert(cmds@ =~= spec_dim_commands(dim));
            } else {
                assert(cmds@ =~= spec_dim_commands(dim));
            }
        }
        cmds
    }
}

/// The initialization command sequence for each supported geometry.
pub open spec fn spec_init_commands(width: int, height: int) -> Seq<u8> {
    if width == 128 && height == 64 {
        seq![
            0xAEu8, 0xD5, 0x80, 0xA8, 63, 0xD3, 0x00, 0x40, 0x8D, 0x14, 0x20, 0x00, 0xA1, 0xC8,
            0xDA, 0x12, 0x81, 0xCF, 0xD9, 0xF1, 0xDB, 0x40, 0xA4, 0xA6, 0x2E, 0xAF,
        ]
    } else if width == 128 && height == 32 {
        seq![
            0xAEu8, 0xD5, 0x80, 0xA8, 31, 0xD3, 0x00, 0x40, 0x8D, 0x14, 0x20, 0x00, 0xA1, 0xC8,
            0xDA, 0x02, 0x81, 0x8F, 0xD9, 0xF1, 0xDB, 0x40, 0xA4, 0xA6, 0x2E, 0xAF,
        ]
    } else {
        seq![
            0xAEu8, 0xD5, 0x80, 0xA8, 15, 0xD3, 0x00, 0x40, 0x8D, 0x14, 0x20, 0x00, 0xA1, 0xC8,
            0xDA, 0x02, 0x81, 0xAF, 0xD9, 0xF1, 0xDB, 0x40, 0xA4, 0xA6, 0x2E, 0xAF,
        ]
    }
}

/// The per-frame addressing command sequence for the configured width.
pub open spec fn spec_display_commands(width: int) -> Seq<u8> {
    seq![0x22u8, 0x00, 0xFF, 0x21, 0x00, (width - 1) as u8]
}

/// The contrast command sequence for dimming or restoring the display.
pub open spec fn spec_dim_commands(dim: bool) -> Seq<u8> {
    if dim {
        seq![0x81u8, 0x00u8]
    } else {
        seq![0x81u8, 0xCFu8]
    }
}

/// Law: after drawing a white pixel, the serialized buffer shows the bit at
/// byte `1 + x + (y/8)*width`, bit `y % 8`, set.
pub proof fn lemma_draw_white_sets_bit(buf: Seq<u8>, x: int, y: int, width: int, height: int)
    requires
        spec_dimensions_valid(width, height),
        buf.len() == BUFFER_LEN,
        0 <= x < width,
        0 <= y < height,
    ensures
        (spec_draw_pixel(buf, x, y, width, Colors::WHITE)[spec_pixel_index(x, y, width)] >> ((y % 8)
            as u8)) & 1 == 1,
{
    lemma_pixel_index_in_range(x, y, width, height);
    let b = buf[spec_pixel_index(x, y, width)];
    let sh = (y % 8) as u8;
    assert(((b | (1u8 << sh)) >> sh) & 1 == 1) by (bit_vector)
        requires
            sh < 8,
    ;
}

/// Law: drawing the same pixel in the inverting color twice in a row
/// restores the buffer exactly.
pub proof fn lemma_invert_twice_restores(buf: Seq<u8>, x: int, y: int, width: int, height: int)
    requires
        spec_dimensions_valid(width, height),
        buf.len() == BUFFER_LEN,
        0 <= x < width,
        0 <= y < height,
    ensures
        spec_draw_pixel(
            spec_draw_pixel(buf, x, y, width, Colors::INVERSE),
            x,
            y,
            width,
            Colors::INVERSE,
        ) == buf,
{
    lemma_pixel_index_in_range(x, y, width, height);
    let idx = spec_pixel_index(x, y, width);
    let b = buf[idx];
    let sh = (y % 8) as u8;
    assert((b ^ (1u8 << sh)) ^ (1u8 << sh) == b) by (bit_vector);
    let once = spec_draw_pixel(buf, x, y, width, Colors::INVERSE);
    assert(once[idx] == b ^ spec_pixel_mask(y));
    assert(spec_draw_pixel(once, x, y, width, Colors::INVERSE) =~= buf);
}

} // verus!
