use eighty_eighty::cpu::{ExecutionContext, Registers};

fn expected(r: &Registers) -> String {
    format!(
        "   {} Opcode:{:04X} PC:{:04X} Cycles:{} A:{:02X} BC:{:02X}{:02X} DE:{:02X}{:02X} HL:{:02X}{:02X} SP:{:04X} S:{} Z:{} P:{} C:{} AC:{} Interrupt:{}",
        r.current_instruction, r.opcode, r.prev_pc, r.cycles, r.reg_a, r.reg_b, r.reg_c, r.reg_d,
        r.reg_e, r.reg_h, r.reg_l, r.sp, r.sign, r.zero, r.parity, r.carry, r.half_carry,
        r.interrupt
    )
}

#[test]
fn trace_line_of_a_fresh_register_file() {
    let r = Registers::new();
    assert_eq!(
        r.trace_line(),
        "    Opcode:0000 PC:0000 Cycles:0 A:00 BC:0000 DE:0000 HL:0000 SP:0000 S:false Z:false P:false C:false AC:false Interrupt:false"
    );
}

#[test]
fn trace_line_after_an_instruction() {
    let mut cpu = ExecutionContext::new();
    cpu.memory.load_bin(&[0x31, 0x00, 0x24, 0x3E, 0x8F]);
    cpu.registers.reg_b = 1;
    cpu.registers.reg_c = 2;
    cpu.registers.reg_d = 0xAB;
    cpu.registers.reg_e = 0xCD;
    cpu.registers.reg_h = 0x12;
    cpu.registers.reg_l = 0x34;
    cpu.registers.sign = true;
    cpu.registers.interrupt = true;
    cpu.registers.cycles = 123_456;
    cpu.execute_instruction();
    cpu.execute_instruction();
    let line = cpu.registers.trace_line();
    assert_eq!(line, expected(&cpu.registers));
    assert_eq!(
        line,
        "   MVI A      Opcode:003E PC:0003 Cycles:123473 A:8F BC:0102 DE:ABCD HL:1234 SP:2400 S:true Z:false P:false C:false AC:false Interrupt:true"
    );
}
