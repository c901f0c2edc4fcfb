use eighty_eighty::opcode::Opcode;

#[test]
fn mnemonics_of_common_opcodes() {
    assert_eq!(Opcode::print(0x00), "NOP       ");
    assert_eq!(Opcode::print(0x3E), "MVI A     ");
    assert_eq!(Opcode::print(0x76), "HLT       ");
    assert_eq!(Opcode::print(0xC3), "JMP       ");
    assert_eq!(Opcode::print(0xCD), "CALL      ");
    assert_eq!(Opcode::print(0xFF), "RST 7     ");
}

#[test]
fn every_mnemonic_is_ten_characters() {
    for op in 0..=255u8 {
        assert_eq!(Opcode::print(op).len(), 10, "opcode {:02X}", op);
    }
}

#[test]
fn dcr_c_shows_the_table_text() {
    // The trace table names 0Dh "DCR D", as it always has.
    assert_eq!(Opcode::print(0x0D), "DCR D     ");
    assert_eq!(Opcode::print(0x15), "DCR D     ");
}
