use eighty_eighty::memory::{high_byte, low_byte, make_word, Memory};

#[test]
fn new_memory_is_zeroed_64k() {
    let m = Memory::new();
    assert_eq!(m.memory.len(), 0x10000);
    assert!(m.memory.iter().all(|b| *b == 0));
}

#[test]
fn reads_of_bytes_and_words() {
    let mut m = Memory::new();
    m.load_bin(&[0xC3, 0x34, 0x12, 0x99]);
    assert_eq!(m.read_byte(0), 0xC3);
    assert_eq!(m.read(3), 0x0099);
    assert_eq!(m.read_imm(0), 0x1234);
    assert_eq!(m.read_word(1), 0x1234);
    assert_eq!(m.read_high(0), 0x12);
    assert_eq!(m.read_low(0), 0x34);
}

#[test]
fn load_bin_keeps_the_rest() {
    let mut m = Memory::new();
    m.memory[10] = 7;
    m.load_bin(&[1, 2, 3]);
    assert_eq!(&m.memory[0..4], &[1, 2, 3, 0]);
    assert_eq!(m.memory[10], 7);
}

#[test]
fn load_tests_places_programs_at_0100() {
    let mut m = Memory::new();
    m.load_tests(&[0xAA, 0xBB]);
    assert_eq!(m.memory[0x00FF], 0);
    assert_eq!(m.memory[0x0100], 0xAA);
    assert_eq!(m.memory[0x0101], 0xBB);
    assert_eq!(m.memory[0x0102], 0);
}

#[test]
fn word_helpers() {
    assert_eq!(make_word(0xAB, 0xCD), 0xABCD);
    assert_eq!(high_byte(0xABCD), 0xAB);
    assert_eq!(low_byte(0xABCD), 0xCD);
}
