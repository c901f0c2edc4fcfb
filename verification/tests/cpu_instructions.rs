use eighty_eighty::cpu::ExecutionContext;

fn machine(program: &[u8]) -> ExecutionContext {
    let mut cpu = ExecutionContext::new();
    cpu.memory.load_bin(program);
    cpu
}

fn run(cpu: &mut ExecutionContext, n: usize) {
    for _ in 0..n {
        cpu.execute_instruction();
    }
}

#[test]
fn nop_moves_on_one_byte() {
    let mut cpu = machine(&[0x00]);
    cpu.nop();
    assert_eq!(cpu.registers.pc, 1);
    assert_eq!(cpu.registers.cycles, 4);
}

#[test]
fn execute_records_opcode_and_mnemonic() {
    let mut cpu = machine(&[0x00, 0x3E, 0x07]);
    run(&mut cpu, 2);
    assert_eq!(cpu.registers.opcode, 0x3E);
    assert_eq!(cpu.registers.current_instruction, "MVI A     ");
    assert_eq!(cpu.registers.prev_pc, 1);
    assert_eq!(cpu.registers.pc, 3);
    assert_eq!(cpu.registers.reg_a, 7);
    assert_eq!(cpu.registers.cycles, 11);
}

#[test]
fn mvi_and_mov_copy_bytes() {
    // MVI B,42h; MOV C,B
    let mut cpu = machine(&[0x06, 0x42, 0x48]);
    run(&mut cpu, 2);
    assert_eq!(cpu.registers.reg_b, 0x42);
    assert_eq!(cpu.registers.reg_c, 0x42);
    assert_eq!(cpu.registers.pc, 3);
    assert_eq!(cpu.registers.cycles, 12);
}

#[test]
fn lxi_loads_pairs_low_byte_first() {
    // LXI B,1234h; LXI SP,2400h
    let mut cpu = machine(&[0x01, 0x34, 0x12, 0x31, 0x00, 0x24]);
    run(&mut cpu, 2);
    assert_eq!(cpu.registers.reg_b, 0x12);
    assert_eq!(cpu.registers.reg_c, 0x34);
    assert_eq!(cpu.registers.sp, 0x2400);
    assert_eq!(cpu.registers.pc, 6);
    assert_eq!(cpu.registers.cycles, 20);
}

#[test]
fn add_wraps_and_sets_every_flag() {
    // MVI A,3Ah; MVI B,C6h; ADD B
    let mut cpu = machine(&[0x3E, 0x3A, 0x06, 0xC6, 0x80]);
    run(&mut cpu, 3);
    assert_eq!(cpu.registers.reg_a, 0x00);
    assert!(cpu.registers.carry);
    assert!(cpu.registers.zero);
    assert!(cpu.registers.half_carry);
    assert!(cpu.registers.parity);
    assert!(!cpu.registers.sign);
    assert_eq!(cpu.registers.cycles, 18);
}

#[test]
fn aci_adds_the_carry() {
    // STC; MVI A,1; ACI 1
    let mut cpu = machine(&[0x37, 0x3E, 0x01, 0xCE, 0x01]);
    run(&mut cpu, 3);
    assert_eq!(cpu.registers.reg_a, 3);
    assert!(!cpu.registers.carry);
}

#[test]
fn sui_borrows() {
    // MVI A,5; SUI 7
    let mut cpu = machine(&[0x3E, 0x05, 0xD6, 0x07]);
    run(&mut cpu, 2);
    assert_eq!(cpu.registers.reg_a, 0xFE);
    assert!(cpu.registers.carry);
    assert!(cpu.registers.sign);
    assert!(!cpu.registers.zero);
    assert!(!cpu.registers.parity);
    assert!(!cpu.registers.half_carry);
}

#[test]
fn sbi_takes_the_borrow_too() {
    // STC; MVI A,10h; SBI 1
    let mut cpu = machine(&[0x37, 0x3E, 0x10, 0xDE, 0x01]);
    run(&mut cpu, 3);
    assert_eq!(cpu.registers.reg_a, 0x0E);
    assert!(!cpu.registers.carry);
    assert!(!cpu.registers.half_carry);
}

#[test]
fn sub_and_sbb_registers() {
    // MVI A,20h; MVI C,1; SUB C; STC; SBB C
    let mut cpu = machine(&[0x3E, 0x20, 0x0E, 0x01, 0x91, 0x37, 0x99]);
    run(&mut cpu, 3);
    assert_eq!(cpu.registers.reg_a, 0x1F);
    assert!(!cpu.registers.carry);
    run(&mut cpu, 2);
    assert_eq!(cpu.registers.reg_a, 0x1D);
}

#[test]
fn ani_masks_and_sets_aux_carry_from_bit_3() {
    // MVI A,F0h; ANI 3Ch
    let mut cpu = machine(&[0x3E, 0xF0, 0xE6, 0x3C]);
    run(&mut cpu, 2);
    assert_eq!(cpu.registers.reg_a, 0x30);
    assert!(!cpu.registers.carry);
    assert!(cpu.registers.half_carry);
    assert!(cpu.registers.parity);
}

#[test]
fn xri_and_ori() {
    // MVI A,FFh; XRI 0Fh
    let mut cpu = machine(&[0x3E, 0xFF, 0xEE, 0x0F]);
    run(&mut cpu, 2);
    assert_eq!(cpu.registers.reg_a, 0xF0);
    assert!(cpu.registers.sign);
    assert!(cpu.registers.parity);
    assert!(!cpu.registers.carry);
    // MVI A,1; ORI 80h
    let mut cpu = machine(&[0x3E, 0x01, 0xF6, 0x80]);
    run(&mut cpu, 2);
    assert_eq!(cpu.registers.reg_a, 0x81);
    assert!(cpu.registers.sign);
    assert!(cpu.registers.parity);
    // ORI takes 4 cycles
    assert_eq!(cpu.registers.cycles, 11);
}

#[test]
fn ana_xra_ora_registers() {
    // MVI A,0Fh; MVI D,3Ch; ANA D; XRA D; ORA D
    let mut cpu = machine(&[0x3E, 0x0F, 0x16, 0x3C, 0xA2, 0xAA, 0xB2]);
    run(&mut cpu, 3);
    assert_eq!(cpu.registers.reg_a, 0x0C);
    run(&mut cpu, 1);
    assert_eq!(cpu.registers.reg_a, 0x30);
    run(&mut cpu, 1);
    assert_eq!(cpu.registers.reg_a, 0x3C);
}

#[test]
fn cpi_compares_without_changing_a() {
    // MVI A,5; CPI 5; CPI 6
    let mut cpu = machine(&[0x3E, 0x05, 0xFE, 0x05, 0xFE, 0x06]);
    run(&mut cpu, 2);
    assert_eq!(cpu.registers.reg_a, 5);
    assert!(cpu.registers.zero);
    assert!(!cpu.registers.carry);
    run(&mut cpu, 1);
    assert_eq!(cpu.registers.reg_a, 5);
    assert!(!cpu.registers.zero);
    assert!(cpu.registers.carry);
}

#[test]
fn cmp_register() {
    // MVI A,9; MVI E,4; CMP E
    let mut cpu = machine(&[0x3E, 0x09, 0x1E, 0x04, 0xBB]);
    run(&mut cpu, 3);
    assert_eq!(cpu.registers.reg_a, 9);
    assert!(!cpu.registers.carry);
    assert!(!cpu.registers.zero);
}

#[test]
fn inr_and_dcr_wrap_and_keep_carry() {
    // STC; MVI B,FFh; INR B; MVI C,0; DCR C
    let mut cpu = machine(&[0x37, 0x06, 0xFF, 0x04, 0x0E, 0x00, 0x0D]);
    run(&mut cpu, 3);
    assert_eq!(cpu.registers.reg_b, 0);
    assert!(cpu.registers.zero);
    assert!(cpu.registers.half_carry);
    assert!(cpu.registers.carry);
    run(&mut cpu, 2);
    assert_eq!(cpu.registers.reg_c, 0xFF);
    assert!(cpu.registers.sign);
    assert!(!cpu.registers.half_carry);
    assert!(cpu.registers.carry);
}

#[test]
fn inx_and_dcx_wrap_the_pair() {
    // LXI B,FFFFh; INX B; DCX B
    let mut cpu = machine(&[0x01, 0xFF, 0xFF, 0x03, 0x0B]);
    run(&mut cpu, 2);
    assert_eq!(cpu.registers.reg_b, 0);
    assert_eq!(cpu.registers.reg_c, 0);
    run(&mut cpu, 1);
    assert_eq!(cpu.registers.reg_b, 0xFF);
    assert_eq!(cpu.registers.reg_c, 0xFF);
    assert_eq!(cpu.registers.cycles, 20);
}

#[test]
fn inx_sp_and_dcx_sp() {
    // INX SP; DCX SP; DCX SP
    let mut cpu = machine(&[0x33, 0x3B, 0x3B]);
    run(&mut cpu, 1);
    assert_eq!(cpu.registers.sp, 1);
    run(&mut cpu, 2);
    assert_eq!(cpu.registers.sp, 0xFFFF);
}

#[test]
fn dad_adds_into_hl_with_carry() {
    // LXI H,FFFFh; LXI D,2; DAD D
    let mut cpu = machine(&[0x21, 0xFF, 0xFF, 0x11, 0x02, 0x00, 0x19]);
    run(&mut cpu, 3);
    assert_eq!(cpu.registers.reg_h, 0x00);
    assert_eq!(cpu.registers.reg_l, 0x01);
    assert!(cpu.registers.carry);
    assert_eq!(cpu.registers.cycles, 30);
}

#[test]
fn dad_h_doubles_hl() {
    // LXI H,1234h; DAD H
    let mut cpu = machine(&[0x21, 0x34, 0x12, 0x29]);
    run(&mut cpu, 2);
    assert_eq!(cpu.registers.reg_h, 0x24);
    assert_eq!(cpu.registers.reg_l, 0x68);
    assert!(!cpu.registers.carry);
}

#[test]
fn rotates() {
    // MVI A,85h; RLC
    let mut cpu = machine(&[0x3E, 0x85, 0x07]);
    run(&mut cpu, 2);
    assert_eq!(cpu.registers.reg_a, 0x0B);
    assert!(cpu.registers.carry);
    // MVI A,1; RRC
    let mut cpu = machine(&[0x3E, 0x01, 0x0F]);
    run(&mut cpu, 2);
    assert_eq!(cpu.registers.reg_a, 0x80);
    assert!(cpu.registers.carry);
    // MVI A,80h; RAL
    let mut cpu = machine(&[0x3E, 0x80, 0x17]);
    run(&mut cpu, 2);
    assert_eq!(cpu.registers.reg_a, 0x00);
    assert!(cpu.registers.carry);
    // MVI A,1; STC; RAR
    let mut cpu = machine(&[0x3E, 0x01, 0x37, 0x1F]);
    run(&mut cpu, 3);
    assert_eq!(cpu.registers.reg_a, 0x80);
    assert!(cpu.registers.carry);
}

#[test]
fn stax_and_ldax_go_through_the_pair() {
    // LXI B,2000h; MVI A,77h; STAX B; MVI A,0; LDAX B
    let mut cpu = machine(&[0x01, 0x00, 0x20, 0x3E, 0x77, 0x02, 0x3E, 0x00, 0x0A]);
    run(&mut cpu, 3);
    assert_eq!(cpu.memory.memory[0x2000], 0x77);
    run(&mut cpu, 2);
    assert_eq!(cpu.registers.reg_a, 0x77);
}

#[test]
fn sta_and_lda_use_the_operand_address() {
    // MVI A,5Ah; STA 3000h; MVI A,0; LDA 3000h
    let mut cpu = machine(&[0x3E, 0x5A, 0x32, 0x00, 0x30, 0x3E, 0x00, 0x3A, 0x00, 0x30]);
    run(&mut cpu, 2);
    assert_eq!(cpu.memory.memory[0x3000], 0x5A);
    assert_eq!(cpu.registers.cycles, 20);
    run(&mut cpu, 2);
    assert_eq!(cpu.registers.reg_a, 0x5A);
}

#[test]
fn shld_and_lhld_store_l_then_h() {
    // LXI H,BEEFh; SHLD 2100h; LXI H,0; LHLD 2100h
    let mut cpu = machine(&[
        0x21, 0xEF, 0xBE, 0x22, 0x00, 0x21, 0x21, 0x00, 0x00, 0x2A, 0x00, 0x21,
    ]);
    run(&mut cpu, 2);
    assert_eq!(cpu.memory.memory[0x2100], 0xEF);
    assert_eq!(cpu.memory.memory[0x2101], 0xBE);
    run(&mut cpu, 2);
    assert_eq!(cpu.registers.reg_h, 0xBE);
    assert_eq!(cpu.registers.reg_l, 0xEF);
    assert_eq!(cpu.registers.cycles, 52);
}

#[test]
fn daa_corrects_a_decimal_sum() {
    // MVI A,19h; ADI 28h; DAA
    let mut cpu = machine(&[0x3E, 0x19, 0xC6, 0x28, 0x27]);
    run(&mut cpu, 2);
    assert_eq!(cpu.registers.reg_a, 0x41);
    assert!(cpu.registers.half_carry);
    run(&mut cpu, 1);
    assert_eq!(cpu.registers.reg_a, 0x47);
    assert!(!cpu.registers.carry);
}

#[test]
fn daa_carries_past_99() {
    // MVI A,99h; ADI 01h; DAA
    let mut cpu = machine(&[0x3E, 0x99, 0xC6, 0x01, 0x27]);
    run(&mut cpu, 3);
    assert_eq!(cpu.registers.reg_a, 0x00);
    assert!(cpu.registers.carry);
    assert!(cpu.registers.zero);
}

#[test]
fn cma_stc_cmc() {
    // MVI A,51h; CMA; STC; CMC
    let mut cpu = machine(&[0x3E, 0x51, 0x2F, 0x37, 0x3F]);
    run(&mut cpu, 2);
    assert_eq!(cpu.registers.reg_a, 0xAE);
    run(&mut cpu, 1);
    assert!(cpu.registers.carry);
    run(&mut cpu, 1);
    assert!(!cpu.registers.carry);
}

#[test]
fn jmp_and_conditional_jumps() {
    // JMP 0005h; (two filler bytes); MVI A,9
    let mut cpu = machine(&[0xC3, 0x05, 0x00, 0x00, 0x00, 0x3E, 0x09]);
    run(&mut cpu, 2);
    assert_eq!(cpu.registers.reg_a, 9);
    assert_eq!(cpu.registers.pc, 7);
    // JZ 0010h is not taken (zero clear), JNZ 0010h is.
    let mut cpu = machine(&[0xCA, 0x10, 0x00, 0xC2, 0x10, 0x00]);
    run(&mut cpu, 1);
    assert_eq!(cpu.registers.pc, 3);
    run(&mut cpu, 1);
    assert_eq!(cpu.registers.pc, 0x10);
    assert_eq!(cpu.registers.cycles, 20);
}

#[test]
fn carry_parity_and_sign_jumps() {
    // STC; JC 0008h
    let mut cpu = machine(&[0x37, 0xDA, 0x08, 0x00]);
    run(&mut cpu, 2);
    assert_eq!(cpu.registers.pc, 8);
    // JNC 0008h not taken after STC
    let mut cpu = machine(&[0x37, 0xD2, 0x08, 0x00]);
    run(&mut cpu, 2);
    assert_eq!(cpu.registers.pc, 4);
    // MVI A,80h; ORA A; JM 0010h (sign set); JP is not taken
    let mut cpu = machine(&[0x3E, 0x80, 0xB7, 0xF2, 0x20, 0x00, 0xFA, 0x10, 0x00]);
    run(&mut cpu, 4);
    assert_eq!(cpu.registers.pc, 0x10);
    // MVI A,3; ORA A; JPE 0010h (two bits: even); JPO not taken
    let mut cpu = machine(&[0x3E, 0x03, 0xB7, 0xE2, 0x20, 0x00, 0xEA, 0x10, 0x00]);
    run(&mut cpu, 4);
    assert_eq!(cpu.registers.pc, 0x10);
}

#[test]
fn call_and_ret() {
    // LXI SP,2400h; CALL 0010h; ... at 0010h: RET
    let mut program = vec![0u8; 0x11];
    program[0] = 0x31;
    program[1] = 0x00;
    program[2] = 0x24;
    program[3] = 0xCD;
    program[4] = 0x10;
    program[5] = 0x00;
    program[0x10] = 0xC9;
    let mut cpu = machine(&program);
    run(&mut cpu, 2);
    assert_eq!(cpu.registers.pc, 0x10);
    assert_eq!(cpu.registers.sp, 0x23FE);
    assert_eq!(cpu.memory.memory[0x23FF], 0x00);
    assert_eq!(cpu.memory.memory[0x23FE], 0x06);
    run(&mut cpu, 1);
    assert_eq!(cpu.registers.pc, 6);
    assert_eq!(cpu.registers.sp, 0x2400);
    assert_eq!(cpu.registers.cycles, 37);
}

#[test]
fn conditional_call_and_return_cycles() {
    // LXI SP,2400h; CZ 0010h (not taken); CNZ 0010h (taken); at 10h: RNZ (taken)
    let mut program = vec![0u8; 0x11];
    program[0] = 0x31;
    program[2] = 0x24;
    program[3] = 0xCC;
    program[4] = 0x10;
    program[6] = 0xC4;
    program[7] = 0x10;
    program[0x10] = 0xC0;
    let mut cpu = machine(&program);
    run(&mut cpu, 2);
    assert_eq!(cpu.registers.pc, 6);
    assert_eq!(cpu.registers.cycles, 21);
    run(&mut cpu, 1);
    assert_eq!(cpu.registers.pc, 0x10);
    assert_eq!(cpu.registers.cycles, 38);
    run(&mut cpu, 1);
    assert_eq!(cpu.registers.pc, 9);
    assert_eq!(cpu.registers.cycles, 59);
}

#[test]
fn return_not_taken_costs_five() {
    // RZ with zero clear
    let mut cpu = machine(&[0xC8]);
    run(&mut cpu, 1);
    assert_eq!(cpu.registers.pc, 1);
    assert_eq!(cpu.registers.cycles, 5);
}

#[test]
fn rst_pushes_the_next_address() {
    // LXI SP,2400h; RST 1
    let mut cpu = machine(&[0x31, 0x00, 0x24, 0xCF]);
    run(&mut cpu, 2);
    assert_eq!(cpu.registers.pc, 8);
    assert_eq!(cpu.registers.sp, 0x23FE);
    assert_eq!(cpu.memory.memory[0x23FE], 0x04);
    assert_eq!(cpu.memory.memory[0x23FF], 0x00);
    assert_eq!(cpu.registers.cycles, 21);
}

#[test]
fn rst_called_directly() {
    let mut cpu = machine(&[0x31, 0x00, 0x24]);
    run(&mut cpu, 1);
    cpu.rst(7);
    assert_eq!(cpu.registers.pc, 0x38);
    assert_eq!(cpu.memory.memory[0x23FE], 0x04);
}

#[test]
fn push_and_pop_pairs() {
    // LXI SP,2400h; LXI B,1234h; PUSH B; POP D
    let mut cpu = machine(&[0x31, 0x00, 0x24, 0x01, 0x34, 0x12, 0xC5, 0xD1]);
    run(&mut cpu, 3);
    assert_eq!(cpu.memory.memory[0x23FF], 0x12);
    assert_eq!(cpu.memory.memory[0x23FE], 0x34);
    assert_eq!(cpu.registers.sp, 0x23FE);
    run(&mut cpu, 1);
    assert_eq!(cpu.registers.reg_d, 0x12);
    assert_eq!(cpu.registers.reg_e, 0x34);
    assert_eq!(cpu.registers.sp, 0x2400);
}

#[test]
fn push_psw_packs_the_flags() {
    // LXI SP,2400h; MVI A,0; ORA A; PUSH PSW
    let mut cpu = machine(&[0x31, 0x00, 0x24, 0x3E, 0x00, 0xB7, 0xF5]);
    run(&mut cpu, 4);
    assert_eq!(cpu.memory.memory[0x23FF], 0x00);
    assert_eq!(cpu.memory.memory[0x23FE], 0x46);
}

#[test]
fn pop_psw_unpacks_the_flags() {
    // LXI SP,2000h; POP PSW, with D7h (S Z AC P CY) and 42h on the stack
    let mut cpu = machine(&[0x31, 0x00, 0x20, 0xF1]);
    cpu.memory.memory[0x2000] = 0xD7;
    cpu.memory.memory[0x2001] = 0x42;
    run(&mut cpu, 2);
    assert_eq!(cpu.registers.reg_a, 0x42);
    assert!(cpu.registers.sign);
    assert!(cpu.registers.zero);
    assert!(cpu.registers.half_carry);
    assert!(cpu.registers.parity);
    assert!(cpu.registers.carry);
    assert_eq!(cpu.registers.sp, 0x2002);
}

#[test]
fn push_below_zero_wraps() {
    // LXI B,ABCDh; PUSH B with SP = 0
    let mut cpu = machine(&[0x01, 0xCD, 0xAB, 0xC5]);
    run(&mut cpu, 2);
    assert_eq!(cpu.registers.sp, 0xFFFE);
    assert_eq!(cpu.memory.memory[0xFFFF], 0xAB);
    assert_eq!(cpu.memory.memory[0xFFFE], 0xCD);
}

#[test]
fn xchg_swaps_hl_and_de() {
    // LXI H,1111h; LXI D,2222h; XCHG
    let mut cpu = machine(&[0x21, 0x11, 0x11, 0x11, 0x22, 0x22, 0xEB]);
    run(&mut cpu, 3);
    assert_eq!(cpu.registers.reg_h, 0x22);
    assert_eq!(cpu.registers.reg_l, 0x22);
    assert_eq!(cpu.registers.reg_d, 0x11);
    assert_eq!(cpu.registers.reg_e, 0x11);
}

#[test]
fn xthl_swaps_hl_with_the_stack_top() {
    // LXI SP,2400h; LXI H,ABCDh; PUSH H; LXI H,1234h; XTHL
    let mut cpu = machine(&[
        0x31, 0x00, 0x24, 0x21, 0xCD, 0xAB, 0xE5, 0x21, 0x34, 0x12, 0xE3,
    ]);
    run(&mut cpu, 5);
    assert_eq!(cpu.registers.reg_h, 0xAB);
    assert_eq!(cpu.registers.reg_l, 0xCD);
    assert_eq!(cpu.memory.memory[0x23FE], 0x34);
    assert_eq!(cpu.memory.memory[0x23FF], 0x12);
    assert_eq!(cpu.registers.sp, 0x23FE);
}

#[test]
fn sphl_and_pchl() {
    // LXI H,3000h; SPHL; LXI H,0100h; PCHL
    let mut cpu = machine(&[0x21, 0x00, 0x30, 0xF9, 0x21, 0x00, 0x01, 0xE9]);
    run(&mut cpu, 2);
    assert_eq!(cpu.registers.sp, 0x3000);
    run(&mut cpu, 2);
    assert_eq!(cpu.registers.pc, 0x0100);
}

#[test]
fn ei_and_di() {
    let mut cpu = machine(&[0xFB, 0xF3]);
    run(&mut cpu, 1);
    assert!(cpu.registers.interrupt);
    run(&mut cpu, 1);
    assert!(!cpu.registers.interrupt);
}

#[test]
fn memory_operand_m() {
    // LXI H,2000h; MVI M,33h; MOV A,M; INR M; ADD M
    let mut cpu = machine(&[0x21, 0x00, 0x20, 0x36, 0x33, 0x7E, 0x34, 0x86]);
    run(&mut cpu, 2);
    assert_eq!(cpu.memory.memory[0x2000], 0x33);
    assert_eq!(cpu.registers.cycles, 20);
    run(&mut cpu, 1);
    assert_eq!(cpu.registers.reg_a, 0x33);
    assert_eq!(cpu.registers.cycles, 27);
    run(&mut cpu, 1);
    assert_eq!(cpu.memory.memory[0x2000], 0x34);
    assert_eq!(cpu.registers.cycles, 37);
    run(&mut cpu, 1);
    assert_eq!(cpu.registers.reg_a, 0x67);
    assert_eq!(cpu.registers.cycles, 41);
}

#[test]
fn input_ports() {
    // IN 0; IN 1; IN 2
    let mut cpu = machine(&[0xDB, 0x00, 0xDB, 0x01, 0xDB, 0x02]);
    run(&mut cpu, 1);
    assert_eq!(cpu.registers.reg_a, 0x0E);
    cpu.registers.port_1_in = 0x09;
    run(&mut cpu, 1);
    assert_eq!(cpu.registers.reg_a, 0x09);
    assert_eq!(cpu.registers.port_1_in, 0x08);
    run(&mut cpu, 1);
    assert_eq!(cpu.registers.reg_a, 0x00);
    assert_eq!(cpu.registers.cycles, 30);
}

#[test]
fn output_ports() {
    // MVI A,0Dh; OUT 2; OUT 3; OUT 5; OUT 6
    let mut cpu = machine(&[0x3E, 0x0D, 0xD3, 0x02, 0xD3, 0x03, 0xD3, 0x05, 0xD3, 0x06]);
    run(&mut cpu, 5);
    assert_eq!(cpu.registers.port_2_out, 0x05);
    assert_eq!(cpu.registers.port_3_out, 0x0D);
    assert_eq!(cpu.registers.port_5_out, 0x0D);
    assert_eq!(cpu.registers.port_6_out, 0x0D);
}

#[test]
fn shift_register_reads_the_shifted_latch() {
    // MVI A,ABh; OUT 4; MVI A,CDh; OUT 4; MVI A,3; OUT 2; IN 3
    let mut cpu = machine(&[
        0x3E, 0xAB, 0xD3, 0x04, 0x3E, 0xCD, 0xD3, 0x04, 0x3E, 0x03, 0xD3, 0x02, 0xDB, 0x03,
    ]);
    run(&mut cpu, 4);
    assert_eq!(cpu.registers.port_4_out_high, 0xCD);
    assert_eq!(cpu.registers.port_4_out_low, 0xAB);
    run(&mut cpu, 3);
    assert_eq!(cpu.registers.reg_a, 0x6D);
}

#[test]
fn shift_register_without_offset_reads_the_top_byte() {
    // MVI A,12h; OUT 4; MVI A,34h; OUT 4; IN 3
    let mut cpu = machine(&[0x3E, 0x12, 0xD3, 0x04, 0x3E, 0x34, 0xD3, 0x04, 0xDB, 0x03]);
    run(&mut cpu, 5);
    assert_eq!(cpu.registers.reg_a, 0x34);
}

#[test]
fn hlt_stops_in_place() {
    let mut cpu = machine(&[0x76]);
    run(&mut cpu, 1);
    assert!(cpu.registers.halted);
    assert_eq!(cpu.registers.pc, 0);
    assert_eq!(cpu.registers.cycles, 7);
}

#[test]
fn undocumented_opcodes_alias_documented_ones() {
    // 08h is NOP, CBh is JMP
    let mut cpu = machine(&[0x08, 0xCB, 0x10, 0x00]);
    run(&mut cpu, 1);
    assert_eq!(cpu.registers.pc, 1);
    run(&mut cpu, 1);
    assert_eq!(cpu.registers.pc, 0x10);
    // LXI SP,2400h; DDh is CALL; at 10h D9h is RET
    let mut program = vec![0u8; 0x11];
    program[0] = 0x31;
    program[2] = 0x24;
    program[3] = 0xDD;
    program[4] = 0x10;
    program[0x10] = 0xD9;
    let mut cpu = machine(&program);
    run(&mut cpu, 3);
    assert_eq!(cpu.registers.pc, 6);
    assert_eq!(cpu.registers.sp, 0x2400);
}

#[test]
fn step_runs_several_instructions() {
    // MVI A,1; INR A; INR A
    let mut cpu = machine(&[0x3E, 0x01, 0x3C, 0x3C]);
    cpu.step(3);
    assert_eq!(cpu.registers.reg_a, 3);
    assert_eq!(cpu.registers.pc, 4);
    assert_eq!(cpu.registers.cycles, 17);
}

#[test]
fn reset_clears_registers_and_flags() {
    let mut cpu = machine(&[0x3E, 0xFF, 0x37]);
    run(&mut cpu, 2);
    cpu.reset();
    assert_eq!(cpu.registers.reg_a, 0);
    assert!(!cpu.registers.carry);
    assert_eq!(cpu.registers.pc, 4);
    assert_eq!(cpu.registers.prev_pc, 3);
}

#[test]
fn cycles_of_memory_operands() {
    // LXI H,2000h (10); then each with M
    for (op, cycles) in [
        (0x86u8, 4usize),
        (0x8E, 7),
        (0x96, 8),
        (0x9E, 8),
        (0xA6, 4),
        (0xAE, 7),
        (0xB6, 7),
        (0xBE, 8),
        (0x34, 10),
        (0x35, 6),
    ] {
        let mut cpu = machine(&[0x21, 0x00, 0x20, op]);
        run(&mut cpu, 2);
        assert_eq!(cpu.registers.cycles, 10 + cycles, "opcode {:02X}", op);
    }
}

#[test]
fn cycles_of_conditional_returns() {
    // Each condition once taken and once not: (opcode, flag set makes it taken?)
    for (op, taken_cycles, skip_cycles) in [
        (0xC0u8, 21usize, 5usize),
        (0xC8, 21, 5),
        (0xD0, 10, 0),
        (0xD8, 21, 5),
        (0xE0, 10, 0),
        (0xE8, 10, 0),
        (0xF0, 21, 5),
        (0xF8, 21, 5),
    ] {
        for flags in [false, true] {
            let mut cpu = machine(&[op]);
            cpu.registers.sp = 0x3000;
            cpu.registers.zero = flags;
            cpu.registers.carry = flags;
            cpu.registers.parity = flags;
            cpu.registers.sign = flags;
            run(&mut cpu, 1);
            // odd opcode rows (Z, C, PE, M) return on a set flag
            let taken = ((op >> 3) & 1 == 1) == flags;
            if taken {
                assert_eq!(cpu.registers.cycles, taken_cycles, "opcode {:02X}", op);
                assert_eq!(cpu.registers.sp, 0x3002);
            } else {
                assert_eq!(cpu.registers.cycles, skip_cycles, "opcode {:02X}", op);
                assert_eq!(cpu.registers.pc, 1);
            }
        }
    }
}

#[test]
fn pop_psw_takes_eleven_cycles() {
    let mut cpu = machine(&[0xF1]);
    cpu.registers.sp = 0x3000;
    run(&mut cpu, 1);
    assert_eq!(cpu.registers.cycles, 11);
}
