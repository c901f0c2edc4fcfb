use eighty_eighty::gfx::{Display, Rgb, Square};

#[test]
fn new_canvas() {
    let d = Display::new();
    assert_eq!(d.pixels.len(), 128 * 64);
    assert!(d.pixels.iter().all(|p| !*p));
    assert_eq!(d.memory.len(), 65536);
    assert!(d.draw_flag);
}

#[test]
fn set_bit_is_light_and_clear_bit_dark() {
    let mut d = Display::new();
    // point (3, 10): byte 0x2400 + 3 * 8 + 54 / 8, bit 54 % 8 = 6
    d.memory[0x2400 + 24 + 6] = 0x40;
    d.draw_flag = false;
    let lit = d.render(3, 10);
    assert_eq!(lit, Square { x: 54, y: 3, side: 10, color: Rgb { r: 251, g: 241, b: 199 } });
    assert!(d.draw_flag);
    let dark = d.render(3, 11);
    assert_eq!(dark, Square { x: 53, y: 3, side: 10, color: Rgb { r: 69, g: 133, b: 149 } });
}
