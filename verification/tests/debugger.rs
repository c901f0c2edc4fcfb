use eighty_eighty::cpu::Registers;
use eighty_eighty::debugger::{DebugFont, DebugType, Debugger, FONT_DATA_LEN, FONT_HEADER_LEN};

/// A font file whose pixel number k has the value k.
fn counting_font_file() -> Vec<u8> {
    let mut file = vec![0xEEu8; FONT_HEADER_LEN];
    for k in 0..FONT_DATA_LEN / 3 {
        file.push((k % 256) as u8);
        file.push((k / 256) as u8);
        file.push(0);
    }
    file.extend_from_slice(&[0xFF, 0xFF]);
    file
}

fn debugger() -> Debugger {
    Debugger::new(DebugFont::new(&counting_font_file()))
}

/// Pixel (col, row) of the letter in sheet cell `s`.
fn glyph(s: usize, row: usize, col: usize) -> u32 {
    ((32 * (s % 32) + col) + 256 * (255 - (32 * (s / 32) + row))) as u32
}

#[test]
fn font_skips_the_header_and_stops_at_the_sheet() {
    let font = DebugFont::new(&counting_font_file());
    assert_eq!(font.bitmap.len(), FONT_DATA_LEN);
    assert_eq!(&font.bitmap[0..6], &[0, 0, 0, 1, 0, 0]);
}

#[test]
fn new_debugger_is_black() {
    let d = debugger();
    assert_eq!(d.fb.len(), 65536);
    assert!(d.fb.iter().all(|p| *p == 0));
    assert_eq!(d.buffer.len(), 65536);
    assert_eq!(d.memory_page.len(), 65536);
}

#[test]
fn create_fb_reads_little_endian_triples() {
    let font = DebugFont { bitmap: vec![0x01, 0x02, 0x03, 0xFF, 0x00, 0x80] };
    let d = Debugger::new(font);
    assert_eq!(d.create_fb(), vec![0x030201, 0x8000FF]);
}

#[test]
fn render_fb_turns_the_sheet_upright() {
    let mut d = debugger();
    d.render_fb();
    assert_eq!(d.fb[0], 256 * 255);
    assert_eq!(d.fb[256 * 255 + 7], 7);
    assert_eq!(d.fb[256 * 10 + 20], 256 * 245 + 20);
}

#[test]
fn draw_sprite_copies_one_letter() {
    let mut d = debugger();
    d.draw_sprite(10, 20, 'A');
    // 'A' lives in cell 129
    assert_eq!(d.fb[10 + 256 * 20], glyph(129, 0, 0));
    assert_eq!(d.fb[10 + 31 + 256 * (20 + 31)], glyph(129, 31, 31));
    assert_eq!(d.fb[10 + 5 + 256 * (20 + 7)], glyph(129, 7, 5));
    assert_eq!(d.fb[9 + 256 * 20], 0);
    assert_eq!(d.fb[10 + 32 + 256 * 20], 0);
    assert_eq!(d.fb[10 + 256 * 52], 0);
}

#[test]
fn letters_of_the_second_row_of_the_table() {
    let mut d = debugger();
    d.draw_sprite(0, 0, '(');
    // '(' lives in cell 40
    assert_eq!(d.fb[0], glyph(40, 0, 0));
    assert_eq!(d.fb[31 + 256 * 31], glyph(40, 31, 31));
}

#[test]
fn unknown_characters_show_the_space() {
    let mut d = debugger();
    d.draw_sprite(0, 0, 'a');
    assert_eq!(d.fb[0], glyph(0, 0, 0));
}

#[test]
fn draw_text_draws_capitals_ten_pixels_apart() {
    let mut d = debugger();
    assert!(d.draw_text("hi", 0, 0));
    // 'H' is cell 160, 'I' cell 161 and overwrites from column 10 on
    assert_eq!(d.fb[0], glyph(160, 0, 0));
    assert_eq!(d.fb[9], glyph(160, 0, 9));
    assert_eq!(d.fb[10], glyph(161, 0, 0));
    assert_eq!(d.fb[41 + 256 * 3], glyph(161, 3, 31));
}

#[test]
fn draw_text_uses_unicode_capitals() {
    let mut d = debugger();
    assert!(d.draw_text("ß", 0, 0));
    let mut e = debugger();
    e.draw_chars(&['S', 'S'], 0, 0);
    assert!(d.fb == e.fb);
}

#[test]
fn draw_text_refuses_text_that_does_not_fit() {
    let mut d = debugger();
    assert!(!d.draw_text("OK", 0, 250));
    assert!(d.fb.iter().all(|p| *p == 0));
    assert!(d.draw_text("", 0, 250));
}

#[test]
fn draw_num_writes_four_hex_digits() {
    let mut d = debugger();
    d.draw_num(0x3F, 130, 20);
    let mut e = debugger();
    e.draw_chars(&['0', '0', '3', 'F'], 130, 20);
    assert!(d.fb == e.fb);
}

#[test]
fn draw_bool_spells_the_value() {
    let mut d = debugger();
    d.draw_bool(false, 130, 80);
    let mut e = debugger();
    e.draw_chars(&['F', 'A', 'L', 'S', 'E'], 130, 80);
    assert!(d.fb == e.fb);
}

#[test]
fn register_labels() {
    let mut d = debugger();
    d.draw_register_text();
    let mut e = debugger();
    e.draw_chars(&['O', 'P', 'C', 'O', 'D', 'E', ':'], 10, 20);
    e.draw_chars(&['R', 'E', 'G', 'I', 'S', 'T', 'E', 'R', ' ', 'A', ':'], 10, 40);
    e.draw_chars(&['P', 'C', ':'], 10, 60);
    e.draw_chars(&['C', 'A', 'R', 'R', 'Y', ':'], 10, 80);
    assert!(d.fb == e.fb);
}

#[test]
fn register_values() {
    let mut registers = Registers::new();
    registers.opcode = 0xC3;
    registers.reg_a = 0x7A;
    registers.pc = 0x1234;
    registers.carry = true;
    let mut d = debugger();
    d.render_reg_values(&registers);
    let mut e = debugger();
    e.draw_chars(&['0', '0', 'C', '3'], 130, 20);
    e.draw_chars(&['0', '0', '7', 'A'], 130, 40);
    e.draw_chars(&['0', '0', '3', '4'], 130, 60);
    e.draw_chars(&['T', 'R', 'U', 'E'], 130, 80);
    assert!(d.fb == e.fb);
}

#[test]
fn debug_values_are_copyable() {
    let v = DebugType::U16(0x1234);
    let w = v;
    assert!(matches!(w, DebugType::U16(0x1234)));
    assert!(matches!(DebugType::Bool(true), DebugType::Bool(true)));
    assert!(matches!(DebugType::U8(3), DebugType::U8(3)));
}
