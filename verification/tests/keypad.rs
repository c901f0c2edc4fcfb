use eighty_eighty::cpu::Registers;
use eighty_eighty::keypad::{Key, Keypad};

#[test]
fn keypad_wiring() {
    let k = Keypad::new();
    assert_eq!(k.credit, 0x01);
    assert_eq!(k.p2_start, 0x02);
    assert_eq!(k.p1_start, 0x04);
    assert_eq!(k.p1_fire, 0x10);
    assert_eq!(k.p1_left, 0x20);
    assert_eq!(k.p1_right, 0x40);
    assert_eq!(k.coin_info, 0x80);
}

#[test]
fn pressed_keys_set_their_bits() {
    let k = Keypad::new();
    let mut reg = Registers::new();
    let quit = k.key_down(&mut reg, &[Key::C, Key::Left, Key::Key2, Key::Other]);
    assert!(!quit);
    assert_eq!(reg.port_1_in, 0x08 | 0x01 | 0x20);
    assert_eq!(reg.port_2_in, 0x02);
}

#[test]
fn escape_stops_the_scan_and_asks_to_quit() {
    let k = Keypad::new();
    let mut reg = Registers::new();
    let quit = k.key_down(&mut reg, &[Key::Space, Key::Escape, Key::Right]);
    assert!(quit);
    assert_eq!(reg.port_1_in, 0x08 | 0x10);
}

#[test]
fn released_keys_clear_their_bits() {
    let k = Keypad::new();
    let mut reg = Registers::new();
    k.key_down(&mut reg, &[Key::Enter, Key::Right, Key::Key3]);
    assert_eq!(reg.port_1_in, 0x08 | 0x04 | 0x40);
    assert_eq!(reg.port_2_in, 0x80);
    k.key_up(&mut reg, &[Key::Right, Key::Key3]);
    assert_eq!(reg.port_1_in, 0x08 | 0x04);
    assert_eq!(reg.port_2_in, 0x00);
}

#[test]
fn reset_ports_clears_every_button() {
    let k = Keypad::new();
    let mut reg = Registers::new();
    k.key_down(&mut reg, &[Key::Enter, Key::C, Key::Space, Key::Left, Key::Right, Key::Key2, Key::Key3]);
    k.reset_ports(&mut reg);
    assert_eq!(reg.port_1_in, 0x08);
    assert_eq!(reg.port_2_in, 0x00);
}

#[test]
fn keys_leave_other_registers_alone() {
    let k = Keypad::new();
    let mut reg = Registers::new();
    reg.reg_a = 0x55;
    k.key_down(&mut reg, &[Key::C]);
    assert_eq!(reg.reg_a, 0x55);
    assert_eq!(reg.port_0_in, 0x0E);
}

#[test]
fn key_value_is_the_keypad_itself() {
    let k = Keypad::new();
    let v = k.key_value();
    assert_eq!(v.p1_fire, k.p1_fire);
    assert_eq!(v.coin_info, k.coin_info);
}
