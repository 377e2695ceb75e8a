use oven_temp_rs::ssd1306::Colors;
use oven_temp_rs::ssd1306::DisplayDimensions;
use oven_temp_rs::ssd1306::SSD1306Errors;
use oven_temp_rs::ssd1306::SSD1306;

fn panel(width: usize, height: usize) -> SSD1306 {
    match SSD1306::new(&DisplayDimensions { width, height }) {
        Ok(fb) => fb,
        Err(_) => panic!("supported geometry was rejected"),
    }
}

#[test]
fn construction_accepts_only_the_three_geometries() {
    assert!(SSD1306::new(&DisplayDimensions { width: 128, height: 32 }).is_ok());
    assert!(SSD1306::new(&DisplayDimensions { width: 128, height: 64 }).is_ok());
    assert!(SSD1306::new(&DisplayDimensions { width: 96, height: 16 }).is_ok());
    let rejected = SSD1306::new(&DisplayDimensions { width: 64, height: 64 });
    assert!(matches!(rejected, Err(SSD1306Errors::DimensionsInvalid)));
    let oversized = SSD1306::new(&DisplayDimensions { width: 256, height: 64 });
    assert!(matches!(oversized, Err(SSD1306Errors::DimensionsInvalid)));
}

#[test]
fn serialized_buffer_has_the_fixed_full_panel_size() {
    // The wire protocol always transfers the full physical buffer: the tag
    // byte plus 64/8 pages of 128 columns, whatever geometry is configured.
    assert_eq!(panel(128, 64).serialize().len(), 1025);
    assert_eq!(panel(128, 32).serialize().len(), 1025);
    assert_eq!(panel(96, 16).serialize().len(), 1025);
}

#[test]
fn fresh_buffer_is_tag_then_all_ones() {
    let fb = panel(128, 64);
    let bytes: Vec<u8> = fb.serialize();
    assert_eq!(bytes[0], 0x40);
    for i in 1..1025 {
        assert_eq!(bytes[i], 0xFF);
    }
}

#[test]
fn white_pixel_reads_back_at_the_addressed_bit() {
    let mut fb = panel(128, 64);
    let x: usize = 5;
    let y: usize = 11;
    assert!(fb.draw_pixel(x, y, Colors::BLACK).is_ok());
    assert!(fb.draw_pixel(x, y, Colors::WHITE).is_ok());
    let bytes: Vec<u8> = fb.serialize();
    let index: usize = 1 + x + (y / 8) * 128;
    assert_eq!((bytes[index] >> (y & 7)) & 1, 1);
}

#[test]
fn black_pixel_clears_only_the_addressed_bit() {
    let mut fb = panel(96, 16);
    let x: usize = 95;
    let y: usize = 15;
    assert!(fb.draw_pixel(x, y, Colors::BLACK).is_ok());
    let bytes: Vec<u8> = fb.serialize();
    let index: usize = 1 + x + (y / 8) * 96;
    assert_eq!((bytes[index] >> (y & 7)) & 1, 0);
    assert_eq!(bytes[index], 0xFF & !(1 << (y & 7)));
    // Every other byte is untouched.
    for i in 1..1025 {
        if i != index {
            assert_eq!(bytes[i], 0xFF);
        }
    }
}

#[test]
fn inverting_twice_restores_the_buffer() {
    let mut fb = panel(128, 32);
    assert!(fb.draw_pixel(17, 9, Colors::BLACK).is_ok());
    let before: Vec<u8> = fb.serialize();
    assert!(fb.draw_pixel(17, 9, Colors::INVERSE).is_ok());
    let flipped: Vec<u8> = fb.serialize();
    assert!(flipped != before);
    assert!(fb.draw_pixel(17, 9, Colors::INVERSE).is_ok());
    let after: Vec<u8> = fb.serialize();
    assert_eq!(before, after);
}

#[test]
fn out_of_bounds_pixels_are_rejected_without_change() {
    // Bounds follow the configured geometry, not the maximum one.
    let mut fb = panel(128, 32);
    let before: Vec<u8> = fb.serialize();
    assert!(matches!(fb.draw_pixel(0, 32, Colors::WHITE), Err(SSD1306Errors::DimensionsInvalid)));
    assert!(matches!(fb.draw_pixel(128, 0, Colors::WHITE), Err(SSD1306Errors::DimensionsInvalid)));
    let after: Vec<u8> = fb.serialize();
    assert_eq!(before, after);
}

#[test]
fn dimension_check_matches_the_supported_list() {
    assert!(SSD1306::dimensions_valid(&DisplayDimensions { width: 128, height: 32 }));
    assert!(SSD1306::dimensions_valid(&DisplayDimensions { width: 128, height: 64 }));
    assert!(SSD1306::dimensions_valid(&DisplayDimensions { width: 96, height: 16 }));
    assert!(!SSD1306::dimensions_valid(&DisplayDimensions { width: 64, height: 64 }));
    assert!(!SSD1306::dimensions_valid(&DisplayDimensions { width: 128, height: 16 }));
}

#[test]
fn init_commands_follow_the_geometry() {
    let cmds64: Vec<u8> = panel(128, 64).init_commands();
    assert_eq!(cmds64.len(), 26);
    assert_eq!(cmds64[0], 0xAE);
    assert_eq!(cmds64[4], 63);
    assert_eq!(cmds64[15], 0x12);
    assert_eq!(cmds64[17], 0xCF);
    assert_eq!(cmds64[25], 0xAF);
    let cmds32: Vec<u8> = panel(128, 32).init_commands();
    assert_eq!(cmds32[4], 31);
    assert_eq!(cmds32[15], 0x02);
    assert_eq!(cmds32[17], 0x8F);
    let cmds16: Vec<u8> = panel(96, 16).init_commands();
    assert_eq!(cmds16[4], 15);
    assert_eq!(cmds16[15], 0x02);
    assert_eq!(cmds16[17], 0xAF);
}

#[test]
fn frame_and_dim_commands() {
    let fb = panel(128, 64);
    assert_eq!(fb.display_commands(), vec![0x22, 0x00, 0xFF, 0x21, 0x00, 127]);
    assert_eq!(panel(96, 16).display_commands(), vec![0x22, 0x00, 0xFF, 0x21, 0x00, 95]);
    assert_eq!(fb.dim_commands(true), vec![0x81, 0x00]);
    assert_eq!(fb.dim_commands(false), vec![0x81, 0xCF]);
}
