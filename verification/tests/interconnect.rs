use eighty_eighty::interconnect::Interconnect;

#[test]
fn new_board() {
    let i = Interconnect::new();
    assert_eq!(i.frame_count, 0);
    assert_eq!(i.cpu.registers.pc, 0);
    assert_eq!(i.keypad.p1_start, 0x04);
}

#[test]
fn a_frame_runs_past_16666_cycles() {
    // JMP 0000h forever: 10 cycles each
    let mut i = Interconnect::new();
    i.cpu.memory.load_bin(&[0xC3, 0x00, 0x00]);
    let frames = i.execute_cpu();
    assert_eq!(frames, 1);
    assert_eq!(i.frame_count, 1);
    // 1667 jumps make 16670 cycles; the timer then took 16667 off
    assert_eq!(i.cpu.registers.cycles, 3);
    assert_eq!(i.cpu.registers.interrupt_addr, 0x08);
    assert_eq!(i.cpu.registers.pc, 0);
}

#[test]
fn a_frame_ends_early_on_hlt() {
    // NOP; HLT
    let mut i = Interconnect::new();
    i.cpu.memory.load_bin(&[0x00, 0x76]);
    i.execute_cpu();
    assert!(i.cpu.registers.halted);
    assert_eq!(i.cpu.registers.pc, 1);
    assert_eq!(i.cpu.registers.cycles, 11);
}

#[test]
fn run_tests_steps_once() {
    let mut i = Interconnect::new();
    i.cpu.memory.load_bin(&[0x3E, 0x42]);
    i.run_tests();
    assert_eq!(i.cpu.registers.reg_a, 0x42);
    assert_eq!(i.cpu.registers.pc, 2);
}
