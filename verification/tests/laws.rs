use eighty_eighty::cpu::ExecutionContext;
use eighty_eighty::display::Display;
use eighty_eighty::keypad::{Key, Keypad};
use eighty_eighty::cpu::Registers;
use eighty_eighty::memory::Memory;

fn machine(program: &[u8]) -> ExecutionContext {
    let mut cpu = ExecutionContext::new();
    cpu.memory.load_bin(program);
    cpu
}

fn run(cpu: &mut ExecutionContext, n: usize) {
    for _ in 0..n {
        cpu.execute_instruction();
    }
}

#[test]
fn push_then_pop_restores_each_pair() {
    for (push, pop) in [(0xC5u8, 0xC1u8), (0xD5, 0xD1), (0xE5, 0xE1)] {
        let mut cpu = machine(&[push, pop]);
        cpu.registers.sp = 0x3000;
        cpu.registers.reg_b = 0x12;
        cpu.registers.reg_c = 0x34;
        cpu.registers.reg_d = 0x56;
        cpu.registers.reg_e = 0x78;
        cpu.registers.reg_h = 0x9A;
        cpu.registers.reg_l = 0xBC;
        run(&mut cpu, 1);
        cpu.registers.reg_b = 0;
        cpu.registers.reg_c = 0;
        cpu.registers.reg_d = 0;
        cpu.registers.reg_e = 0;
        cpu.registers.reg_h = 0;
        cpu.registers.reg_l = 0;
        run(&mut cpu, 1);
        let pair = match push {
            0xC5 => (cpu.registers.reg_b, cpu.registers.reg_c),
            0xD5 => (cpu.registers.reg_d, cpu.registers.reg_e),
            _ => (cpu.registers.reg_h, cpu.registers.reg_l),
        };
        let expected = match push {
            0xC5 => (0x12, 0x34),
            0xD5 => (0x56, 0x78),
            _ => (0x9A, 0xBC),
        };
        assert_eq!(pair, expected);
        assert_eq!(cpu.registers.sp, 0x3000);
    }
}

#[test]
fn push_psw_then_pop_psw_restores_a_and_flags() {
    let mut cpu = machine(&[0xF5, 0xF1]);
    cpu.registers.sp = 0x3000;
    cpu.registers.reg_a = 0xA5;
    cpu.registers.sign = true;
    cpu.registers.zero = false;
    cpu.registers.half_carry = true;
    cpu.registers.parity = false;
    cpu.registers.carry = true;
    run(&mut cpu, 1);
    cpu.registers.reg_a = 0;
    cpu.registers.sign = false;
    cpu.registers.zero = true;
    cpu.registers.half_carry = false;
    cpu.registers.parity = true;
    cpu.registers.carry = false;
    run(&mut cpu, 1);
    assert_eq!(cpu.registers.reg_a, 0xA5);
    assert!(cpu.registers.sign);
    assert!(!cpu.registers.zero);
    assert!(cpu.registers.half_carry);
    assert!(!cpu.registers.parity);
    assert!(cpu.registers.carry);
    assert_eq!(cpu.registers.sp, 0x3000);
}

#[test]
fn call_then_ret_comes_back_after_the_call() {
    let mut program = vec![0u8; 0x201];
    program[0x100] = 0xCD;
    program[0x101] = 0x00;
    program[0x102] = 0x02;
    program[0x200] = 0xC9;
    let mut cpu = machine(&program);
    cpu.registers.pc = 0x100;
    cpu.registers.sp = 0x0001;
    run(&mut cpu, 1);
    assert_eq!(cpu.registers.pc, 0x200);
    run(&mut cpu, 1);
    assert_eq!(cpu.registers.pc, 0x103);
    assert_eq!(cpu.registers.sp, 0x0001);
}

#[test]
fn rst_then_ret_comes_back_after_the_rst() {
    let mut program = vec![0u8; 0x101];
    program[0x28] = 0xC9;
    program[0x100] = 0xEF; // RST 5
    let mut cpu = machine(&program);
    cpu.registers.pc = 0x100;
    cpu.registers.sp = 0x2400;
    run(&mut cpu, 1);
    assert_eq!(cpu.registers.pc, 0x28);
    run(&mut cpu, 1);
    assert_eq!(cpu.registers.pc, 0x101);
    assert_eq!(cpu.registers.sp, 0x2400);
}

#[test]
fn xchg_twice_and_cma_twice_change_nothing() {
    let mut cpu = machine(&[0xEB, 0xEB, 0x2F, 0x2F]);
    cpu.registers.reg_h = 1;
    cpu.registers.reg_l = 2;
    cpu.registers.reg_d = 3;
    cpu.registers.reg_e = 4;
    cpu.registers.reg_a = 0x5C;
    run(&mut cpu, 2);
    assert_eq!((cpu.registers.reg_h, cpu.registers.reg_l), (1, 2));
    assert_eq!((cpu.registers.reg_d, cpu.registers.reg_e), (3, 4));
    run(&mut cpu, 1);
    assert_eq!(cpu.registers.reg_a, 0xA3);
    run(&mut cpu, 1);
    assert_eq!(cpu.registers.reg_a, 0x5C);
}

#[test]
fn rotations_undo_each_other() {
    for a in [0x00u8, 0x01, 0x80, 0xA5, 0xFF] {
        for carry in [false, true] {
            let mut cpu = machine(&[0x07, 0x0F, 0x17, 0x1F]);
            cpu.registers.reg_a = a;
            cpu.registers.carry = carry;
            run(&mut cpu, 2);
            assert_eq!(cpu.registers.reg_a, a);
            cpu.registers.carry = carry;
            run(&mut cpu, 2);
            assert_eq!(cpu.registers.reg_a, a);
            assert_eq!(cpu.registers.carry, carry);
        }
    }
}

#[test]
fn inx_then_dcx_restores_the_pair() {
    let mut cpu = machine(&[0x23, 0x2B, 0x33, 0x3B]);
    cpu.registers.reg_h = 0x12;
    cpu.registers.reg_l = 0xFF;
    cpu.registers.sp = 0xFFFF;
    run(&mut cpu, 1);
    assert_eq!((cpu.registers.reg_h, cpu.registers.reg_l), (0x13, 0x00));
    run(&mut cpu, 1);
    assert_eq!((cpu.registers.reg_h, cpu.registers.reg_l), (0x12, 0xFF));
    run(&mut cpu, 2);
    assert_eq!(cpu.registers.sp, 0xFFFF);
}

#[test]
fn stored_values_read_back() {
    // SHLD 4000h; LXI H,0; LHLD 4000h; STA 4100h; MVI A,0; LDA 4100h
    let mut cpu = machine(&[
        0x22, 0x00, 0x40, 0x21, 0x00, 0x00, 0x2A, 0x00, 0x40, 0x32, 0x00, 0x41, 0x3E, 0x00, 0x3A,
        0x00, 0x41,
    ]);
    cpu.registers.reg_h = 0xDE;
    cpu.registers.reg_l = 0xAD;
    cpu.registers.reg_a = 0x99;
    run(&mut cpu, 3);
    assert_eq!((cpu.registers.reg_h, cpu.registers.reg_l), (0xDE, 0xAD));
    run(&mut cpu, 3);
    assert_eq!(cpu.registers.reg_a, 0x99);
}

#[test]
fn xra_a_clears_and_cmp_keeps_a() {
    let mut cpu = machine(&[0xAF, 0x3E, 0x42, 0xB8, 0xB9, 0xBE, 0xBF]);
    cpu.registers.reg_a = 0x77;
    cpu.registers.carry = true;
    run(&mut cpu, 1);
    assert_eq!(cpu.registers.reg_a, 0);
    assert!(cpu.registers.zero && cpu.registers.parity);
    assert!(!cpu.registers.sign && !cpu.registers.carry);
    run(&mut cpu, 5);
    assert_eq!(cpu.registers.reg_a, 0x42);
}

#[test]
fn decimal_addition_with_daa() {
    for (a, b, sum, carry) in [
        (0x58u8, 0x67u8, 0x25u8, true),
        (0x12, 0x34, 0x46, false),
        (0x99, 0x99, 0x98, true),
        (0x50, 0x50, 0x00, true),
        (0x09, 0x01, 0x10, false),
    ] {
        let mut cpu = machine(&[0x80, 0x27]);
        cpu.registers.reg_a = a;
        cpu.registers.reg_b = b;
        run(&mut cpu, 2);
        assert_eq!(cpu.registers.reg_a, sum, "{:02X} + {:02X}", a, b);
        assert_eq!(cpu.registers.carry, carry, "{:02X} + {:02X}", a, b);
    }
}

#[test]
fn shift_register_after_one_write() {
    // OUT 4; IN 3 with offset 2 and the latch's old top 0xF0
    let mut cpu = machine(&[0xD3, 0x04, 0xDB, 0x03]);
    cpu.registers.reg_a = 0x81;
    cpu.registers.port_4_out_high = 0xF0;
    cpu.registers.port_2_out = 2;
    run(&mut cpu, 2);
    // latch 0x81F0 >> 6 = 0x207, low eight bits 0x07
    assert_eq!(cpu.registers.reg_a, 0x07);
}

#[test]
fn hlt_halts() {
    let mut cpu = machine(&[0x00, 0x76]);
    run(&mut cpu, 3);
    assert!(cpu.registers.halted);
    assert_eq!(cpu.registers.pc, 1);
}

#[test]
fn disabled_timer_leaves_the_program_alone() {
    let mut cpu = ExecutionContext::new();
    cpu.registers.pc = 0x4321;
    cpu.registers.sp = 0x2000;
    cpu.registers.cycles = 40000;
    cpu.try_interrupt();
    assert_eq!(cpu.registers.pc, 0x4321);
    assert_eq!(cpu.registers.sp, 0x2000);
    assert!(cpu.memory.memory.iter().all(|b| *b == 0));
}

#[test]
fn clearing_the_ports_undoes_all_presses() {
    let k = Keypad::new();
    let mut pressed = Registers::new();
    let mut untouched = Registers::new();
    k.key_down(&mut pressed, &[Key::Enter, Key::Left, Key::Key3, Key::C, Key::Key2]);
    k.reset_ports(&mut pressed);
    k.reset_ports(&mut untouched);
    assert_eq!(pressed.port_1_in, untouched.port_1_in);
    assert_eq!(pressed.port_2_in, untouched.port_2_in);
}

#[test]
fn picture_depends_only_on_video_memory() {
    let mut m1 = Memory::new();
    let mut m2 = Memory::new();
    for a in 0x2400..0x4000 {
        m1.memory[a] = (a % 251) as u8;
        m2.memory[a] = (a % 251) as u8;
    }
    m1.memory[0x1000] = 0xFF;
    m2.memory[0x5000] = 0xFF;
    let mut d1 = Display::new();
    let mut d2 = Display::new();
    d1.draw_pixel(&m1);
    d2.draw_pixel(&m2);
    assert!(d1.raster == d2.raster);
}

#[test]
fn release_after_press_is_release_alone() {
    let k = Keypad::new();
    for key in [Key::Enter, Key::C, Key::Space, Key::Key2, Key::Key3, Key::Left, Key::Right] {
        let mut pressed = Registers::new();
        pressed.port_1_in = 0x5A;
        pressed.port_2_in = 0xA5;
        let mut untouched = Registers::new();
        untouched.port_1_in = 0x5A;
        untouched.port_2_in = 0xA5;
        k.key_down(&mut pressed, &[key]);
        k.key_up(&mut pressed, &[key]);
        k.key_up(&mut untouched, &[key]);
        assert_eq!(pressed.port_1_in, untouched.port_1_in);
        assert_eq!(pressed.port_2_in, untouched.port_2_in);
    }
}

#[test]
fn inr_then_dcr_restores_each_operand() {
    for n in 0..8u8 {
        let mut cpu = machine(&[0x04 + 8 * n, 0x05 + 8 * n]);
        cpu.registers.reg_a = 0x80;
        cpu.registers.reg_b = 0xFF;
        cpu.registers.reg_c = 0x00;
        cpu.registers.reg_d = 0x0F;
        cpu.registers.reg_e = 0x7F;
        cpu.registers.reg_h = 0x20;
        cpu.registers.reg_l = 0x00;
        cpu.memory.memory[0x2000] = 0x33;
        cpu.registers.carry = true;
        let values = [0xFFu8, 0x00, 0x0F, 0x7F, 0x20, 0x00, 0x33, 0x80];
        let code_order = |c: &ExecutionContext, n: u8| match n {
            0 => c.registers.reg_b,
            1 => c.registers.reg_c,
            2 => c.registers.reg_d,
            3 => c.registers.reg_e,
            4 => c.registers.reg_h,
            5 => c.registers.reg_l,
            6 => c.memory.memory[0x2000],
            _ => c.registers.reg_a,
        };
        let v = values[n as usize];
        run(&mut cpu, 2);
        assert_eq!(code_order(&cpu, n), v, "operand {}", n);
        assert_eq!(cpu.registers.zero, v == 0);
        assert_eq!(cpu.registers.sign, v >= 0x80);
        assert_eq!(cpu.registers.parity, v.count_ones() % 2 == 0);
        assert!(cpu.registers.carry);
        assert_eq!(cpu.registers.pc, 2);
    }
}

#[test]
fn store_and_load_through_m() {
    // LXI H,2345h; MOV M,E; MOV A,M
    let mut cpu = machine(&[0x21, 0x45, 0x23, 0x73, 0x7E]);
    cpu.registers.reg_e = 0x9C;
    run(&mut cpu, 1);
    let cycles = cpu.registers.cycles;
    run(&mut cpu, 2);
    assert_eq!(cpu.memory.memory[0x2345], 0x9C);
    assert_eq!(cpu.registers.reg_a, 0x9C);
    assert_eq!(cpu.registers.cycles, cycles + 14);
}

#[test]
fn two_writes_fill_the_latch() {
    // OUT 4 (A = 11h); MVI A,22h; OUT 4
    let mut cpu = machine(&[0xD3, 0x04, 0x3E, 0x22, 0xD3, 0x04]);
    cpu.registers.reg_a = 0x11;
    run(&mut cpu, 3);
    assert_eq!(cpu.registers.port_4_out_high, 0x22);
    assert_eq!(cpu.registers.port_4_out_low, 0x11);
}

#[test]
fn pushed_bytes_and_cycles_of_the_round_trips() {
    // LXI SP,2400h; LXI B,BEEFh; PUSH B; POP B
    let mut cpu = machine(&[0x31, 0x00, 0x24, 0x01, 0xEF, 0xBE, 0xC5, 0xC1]);
    run(&mut cpu, 2);
    let cycles = cpu.registers.cycles;
    run(&mut cpu, 1);
    assert_eq!(cpu.memory.memory[0x23FF], 0xBE);
    assert_eq!(cpu.memory.memory[0x23FE], 0xEF);
    run(&mut cpu, 1);
    assert_eq!(cpu.registers.cycles, cycles + 21);
    assert_eq!(cpu.registers.sp, 0x2400);
}

#[test]
fn interrupt_then_ret_resumes_the_program() {
    for vector in [0x10u8, 0x08] {
        let mut program = vec![0u8; 0x11];
        program[0x08] = 0xC9;
        program[0x10] = 0xC9;
        let mut cpu = machine(&program);
        cpu.registers.pc = 0x0ABC;
        cpu.registers.sp = 0x3000;
        cpu.registers.interrupt = true;
        cpu.registers.interrupt_addr = vector;
        cpu.registers.cycles = 17000;
        cpu.try_interrupt();
        assert_eq!(cpu.registers.pc, if vector == 0x10 { 0x08 } else { 0x10 });
        run(&mut cpu, 1);
        assert_eq!(cpu.registers.pc, 0x0ABC);
        assert_eq!(cpu.registers.sp, 0x3000);
    }
}

#[test]
fn cycles_of_the_round_trips() {
    // PUSH PSW; POP PSW
    let mut cpu = machine(&[0xF5, 0xF1]);
    cpu.registers.sp = 0x3000;
    run(&mut cpu, 2);
    assert_eq!(cpu.registers.cycles, 22);
    // INR B; DCR B and INR M; DCR M
    let mut cpu = machine(&[0x04, 0x05, 0x34, 0x35]);
    cpu.registers.reg_h = 0x20;
    cpu.memory.memory[0x2000] = 0x41;
    run(&mut cpu, 2);
    assert_eq!(cpu.registers.cycles, 10);
    run(&mut cpu, 2);
    assert_eq!(cpu.registers.cycles, 26);
    assert_eq!(cpu.memory.memory[0x2000], 0x41);
    // OUT 4; MVI A,n; OUT 4
    let mut cpu = machine(&[0xD3, 0x04, 0x3E, 0x05, 0xD3, 0x04]);
    run(&mut cpu, 3);
    assert_eq!(cpu.registers.cycles, 27);
}
