use eighty_eighty::cpu::ExecutionContext;

fn machine_at(pc: u16, sp: u16) -> ExecutionContext {
    let mut cpu = ExecutionContext::new();
    cpu.registers.pc = pc;
    cpu.registers.sp = sp;
    cpu
}

#[test]
fn timer_below_half_frame_does_nothing() {
    let mut cpu = machine_at(0x1234, 0x2400);
    cpu.registers.interrupt = true;
    cpu.registers.cycles = 16666;
    cpu.try_interrupt();
    assert_eq!(cpu.registers.cycles, 16666);
    assert_eq!(cpu.registers.interrupt_addr, 0x10);
    assert_eq!(cpu.registers.pc, 0x1234);
    assert!(cpu.registers.interrupt);
}

#[test]
fn timer_at_exactly_half_frame_waits() {
    let mut cpu = machine_at(0x1234, 0x2400);
    cpu.registers.interrupt = true;
    cpu.registers.cycles = 16667;
    cpu.try_interrupt();
    assert_eq!(cpu.registers.cycles, 16667);
    assert_eq!(cpu.registers.pc, 0x1234);
}

#[test]
fn interrupt_is_taken_on_the_way_to_vector_08() {
    let mut cpu = machine_at(0x1234, 0x2400);
    cpu.registers.interrupt = true;
    cpu.registers.cycles = 16670;
    cpu.try_interrupt();
    assert_eq!(cpu.registers.cycles, 3);
    assert_eq!(cpu.registers.interrupt_addr, 0x08);
    assert_eq!(cpu.registers.pc, 0x08);
    assert_eq!(cpu.registers.prev_pc, 0x1234);
    assert_eq!(cpu.registers.sp, 0x23FE);
    assert_eq!(cpu.memory.memory[0x23FF], 0x12);
    assert_eq!(cpu.memory.memory[0x23FE], 0x34);
    assert!(!cpu.registers.interrupt);
}

#[test]
fn disabled_interrupts_only_flip_the_vector() {
    let mut cpu = machine_at(0x1234, 0x2400);
    cpu.registers.cycles = 16670;
    cpu.try_interrupt();
    assert_eq!(cpu.registers.cycles, 3);
    assert_eq!(cpu.registers.interrupt_addr, 0x08);
    assert_eq!(cpu.registers.pc, 0x1234);
    assert_eq!(cpu.registers.sp, 0x2400);
}

#[test]
fn interrupt_is_taken_on_the_way_back_to_vector_10() {
    let mut cpu = machine_at(0x1234, 0x2400);
    cpu.registers.interrupt = true;
    cpu.registers.interrupt_addr = 0x08;
    cpu.registers.cycles = 20000;
    cpu.try_interrupt();
    assert_eq!(cpu.registers.cycles, 3333);
    assert_eq!(cpu.registers.interrupt_addr, 0x10);
    assert_eq!(cpu.registers.pc, 0x10);
    assert_eq!(cpu.registers.sp, 0x23FE);
    assert_eq!(cpu.memory.memory[0x23FF], 0x12);
    assert_eq!(cpu.memory.memory[0x23FE], 0x34);
    assert!(!cpu.registers.interrupt);
}

#[test]
fn vector_08_flips_back_quietly_when_disabled() {
    let mut cpu = machine_at(0x1234, 0x2400);
    cpu.registers.interrupt_addr = 0x08;
    cpu.registers.cycles = 20000;
    cpu.try_interrupt();
    assert_eq!(cpu.registers.cycles, 3333);
    assert_eq!(cpu.registers.interrupt_addr, 0x10);
    assert_eq!(cpu.registers.pc, 0x1234);
    assert_eq!(cpu.registers.sp, 0x2400);
}

#[test]
fn interrupt_handler_returns_to_the_interrupted_instruction() {
    // The handler at 08h is a lone RET; the program was about to run 1234h.
    let mut cpu = machine_at(0x1234, 0x2400);
    cpu.memory.memory[0x08] = 0xC9;
    cpu.registers.interrupt = true;
    cpu.registers.cycles = 16670;
    cpu.try_interrupt();
    assert_eq!(cpu.registers.pc, 0x08);
    cpu.execute_instruction();
    assert_eq!(cpu.registers.pc, 0x1234);
    assert_eq!(cpu.registers.sp, 0x2400);
}

#[test]
fn step_checks_the_timer_after_each_instruction() {
    // EI at 0; the timer is about to fire.
    let mut cpu = ExecutionContext::new();
    cpu.memory.load_bin(&[0xFB]);
    cpu.registers.sp = 0x2400;
    cpu.registers.cycles = 16667;
    cpu.step(1);
    assert_eq!(cpu.registers.pc, 0x08);
    assert_eq!(cpu.registers.cycles, 4);
    assert_eq!(cpu.memory.memory[0x23FF], 0x00);
    assert_eq!(cpu.memory.memory[0x23FE], 0x01);
}
