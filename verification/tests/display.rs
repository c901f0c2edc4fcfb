use eighty_eighty::display::{Display, ALPHA, BLANK, GREEN, RASTER_LEN, RED, WHITE};
use eighty_eighty::memory::Memory;

fn cell(y: usize, col: usize, shift: usize) -> usize {
    224 * (255 - (8 * col + shift)) + y
}

#[test]
fn new_display_is_blank() {
    let d = Display::new();
    assert_eq!(d.raster.len(), RASTER_LEN);
    assert!(d.raster.iter().all(|p| *p == BLANK));
    assert!(!d.vblank);
}

#[test]
fn clear_bits_are_dark() {
    let mut d = Display::new();
    let m = Memory::new();
    d.draw_pixel(&m);
    assert_eq!(d.raster[cell(0, 0, 0)], ALPHA);
    assert_eq!(d.raster[cell(100, 10, 3)], ALPHA);
    assert_eq!(d.raster[224 * 256], BLANK);
}

#[test]
fn set_bits_take_the_colour_of_their_band() {
    let mut d = Display::new();
    let mut m = Memory::new();
    // scan line 0, byte 0, bit 0: bottom left corner, white
    m.memory[0x2400] = 0x01;
    // scan line 30, byte 0, bit 0: inside the lives band, green
    m.memory[0x2400 + 32 * 30] = 0x01;
    // scan line 5, byte 4, bit 0: the bases band (x = 32), green
    m.memory[0x2400 + 32 * 5 + 4] = 0x01;
    // scan line 5, byte 26, bit 0: the saucer band (x = 208), red
    m.memory[0x2400 + 32 * 5 + 26] = 0x01;
    // scan line 5, byte 12, bit 7: x = 103, white
    m.memory[0x2400 + 32 * 5 + 12] = 0x80;
    d.draw_pixel(&m);
    assert_eq!(d.raster[cell(0, 0, 0)], WHITE);
    assert_eq!(d.raster[cell(30, 0, 0)], GREEN);
    assert_eq!(d.raster[cell(5, 4, 0)], GREEN);
    assert_eq!(d.raster[cell(5, 26, 0)], RED);
    assert_eq!(d.raster[cell(5, 12, 7)], WHITE);
    assert_eq!(d.raster[cell(5, 12, 6)], ALPHA);
}
