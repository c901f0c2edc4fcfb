//! The 8080 as a state machine over mathematical values: what each instruction
//! does to the registers, the flags, the I/O latches and memory.
use vstd::prelude::*;
use crate::memory::{word, MEMORY_SIZE};
use crate::opcode::{mnemonic, Register, RegisterPair};

verus! {

/// Cycles in half a video frame (2 MHz clock, 60 Hz display).
pub const HALF_FRAME_CYCLES: usize = 16_667;

/// The whole machine as plain values.
pub struct CpuState {
    pub opcode: u8,
    pub current_instruction: Seq<char>,
    pub breakpoint: bool,
    pub debug: bool,
    pub pc: u16,
    pub prev_pc: u16,
    pub sp: u16,
    pub reg_a: u8,
    pub reg_b: u8,
    pub reg_c: u8,
    pub reg_d: u8,
    pub reg_e: u8,
    pub reg_h: u8,
    pub reg_l: u8,
    pub reg_m: u8,
    pub sign: bool,
    pub zero: bool,
    pub parity: bool,
    pub carry: bool,
    pub half_carry: bool,
    pub cycles: int,
    pub interrupt: bool,
    pub interrupt_addr: u8,
    pub halted: bool,
    pub port_0_in: u8,
    pub port_1_in: u8,
    pub port_2_in: u8,
    pub port_3_in: u8,
    pub port_2_out: u8,
    pub port_3_out: u8,
    pub port_4_out_high: u8,
    pub port_4_out_low: u8,
    pub port_5_out: u8,
    pub port_6_out: u8,
    pub mem: Seq<u8>,
}

// ---------------------------------------------------------------- arithmetic

pub open spec fn wrap8(x: int) -> u8 {
    (x % 256) as u8
}

pub open spec fn wrap16(x: int) -> u16 {
    (x % 0x1_0000) as u16
}

pub open spec fn flag(b: bool) -> int {
    if b {
        1
    } else {
        0
    }
}

/// Number of one bits in `v`.
pub open spec fn bit_count(v: u8) -> int {
    v % 2 + (v / 2) % 2 + (v / 4) % 2 + (v / 8) % 2 + (v / 16) % 2 + (v / 32) % 2 + (v / 64) % 2
        + (v / 128) % 2
}

/// The parity flag is set when the number of one bits is even.
pub open spec fn even_parity(v: u8) -> bool {
    bit_count(v) % 2 == 0
}

// ---------------------------------------------------------------- state access

pub open spec fn read8(s: CpuState, addr: u16) -> u8 {
    s.mem[addr as int]
}

pub open spec fn write8(s: CpuState, addr: u16, v: u8) -> CpuState {
    CpuState { mem: s.mem.update(addr as int, v), ..s }
}

pub open spec fn hl(s: CpuState) -> u16 {
    word(s.reg_h, s.reg_l)
}

pub open spec fn pair_value(s: CpuState, rp: RegisterPair) -> u16 {
    match rp {
        RegisterPair::BC => word(s.reg_b, s.reg_c),
        RegisterPair::DE => word(s.reg_d, s.reg_e),
        RegisterPair::HL => word(s.reg_h, s.reg_l),
        RegisterPair::SP => s.sp,
    }
}

pub open spec fn with_pair(s: CpuState, rp: RegisterPair, w: u16) -> CpuState {
    let high = (w / 256) as u8;
    let low = (w % 256) as u8;
    match rp {
        RegisterPair::BC => CpuState { reg_b: high, reg_c: low, ..s },
        RegisterPair::DE => CpuState { reg_d: high, reg_e: low, ..s },
        RegisterPair::HL => CpuState { reg_h: high, reg_l: low, ..s },
        RegisterPair::SP => CpuState { sp: w, ..s },
    }
}

/// The operand `r`: a register, or for `M` the byte that `HL` points at.
pub open spec fn reg_value(s: CpuState, r: Register) -> u8 {
    match r {
        Register::A => s.reg_a,
        Register::B => s.reg_b,
        Register::C => s.reg_c,
        Register::D => s.reg_d,
        Register::E => s.reg_e,
        Register::H => s.reg_h,
        Register::L => s.reg_l,
        Register::M => read8(s, hl(s)),
    }
}

pub open spec fn with_reg(s: CpuState, r: Register, v: u8) -> CpuState {
    match r {
        Register::A => CpuState { reg_a: v, ..s },
        Register::B => CpuState { reg_b: v, ..s },
        Register::C => CpuState { reg_c: v, ..s },
        Register::D => CpuState { reg_d: v, ..s },
        Register::E => CpuState { reg_e: v, ..s },
        Register::H => CpuState { reg_h: v, ..s },
        Register::L => CpuState { reg_l: v, ..s },
        Register::M => write8(s, hl(s), v),
    }
}

/// The register named by a three-bit field of an opcode.
pub open spec fn reg_code(n: int) -> Register {
    if n == 0 {
        Register::B
    } else if n == 1 {
        Register::C
    } else if n == 2 {
        Register::D
    } else if n == 3 {
        Register::E
    } else if n == 4 {
        Register::H
    } else if n == 5 {
        Register::L
    } else if n == 6 {
        Register::M
    } else {
        Register::A
    }
}

/// Cycles of an instruction whose operand is `r`.
pub open spec fn cost(r: Register, reg_cycles: int, mem_cycles: int) -> int {
    if r == Register::M {
        mem_cycles
    } else {
        reg_cycles
    }
}

/// Byte operand following the opcode.
pub open spec fn imm8(s: CpuState) -> u8 {
    read8(s, wrap16(s.pc + 1))
}

/// Word operand following the opcode, low byte first.
pub open spec fn imm16(s: CpuState) -> u16 {
    word(read8(s, wrap16(s.pc + 2)), read8(s, wrap16(s.pc + 1)))
}

/// Moves past an instruction of `len` bytes taking `cycles` cycles.
pub open spec fn advance(s: CpuState, len: int, cycles: int) -> CpuState {
    CpuState { prev_pc: s.pc, pc: wrap16(s.pc + len), cycles: s.cycles + cycles, ..s }
}

/// Transfers control to `target` taking `cycles` cycles.
pub open spec fn jump(s: CpuState, target: u16, cycles: int) -> CpuState {
    CpuState { prev_pc: s.pc, pc: target, cycles: s.cycles + cycles, ..s }
}

pub open spec fn add_cycles(s: CpuState, cycles: int) -> CpuState {
    CpuState { cycles: s.cycles + cycles, ..s }
}

pub open spec fn with_sp(s: CpuState, sp: u16) -> CpuState {
    CpuState { sp: sp, ..s }
}

/// Sign, zero and parity flags of a result.
pub open spec fn with_szp(s: CpuState, r: u8) -> CpuState {
    CpuState { sign: r >= 0x80, zero: r == 0, parity: even_parity(r), ..s }
}

// ---------------------------------------------------------------- stack

pub open spec fn push_bytes(s: CpuState, high: u8, low: u8) -> CpuState {
    let s1 = write8(s, wrap16(s.sp - 1), high);
    let s2 = write8(s1, wrap16(s.sp - 2), low);
    CpuState { sp: wrap16(s.sp - 2), ..s2 }
}

pub open spec fn push_word(s: CpuState, w: u16) -> CpuState {
    push_bytes(s, (w / 256) as u8, (w % 256) as u8)
}

/// The word on top of the stack.
pub open spec fn stack_top(s: CpuState) -> u16 {
    word(read8(s, wrap16(s.sp + 1)), read8(s, s.sp))
}

pub open spec fn drop_word(s: CpuState) -> CpuState {
    CpuState { sp: wrap16(s.sp + 2), ..s }
}

/// The flag byte that PUSH PSW stores: S Z 0 AC 0 P 1 CY.
pub open spec fn psw_byte(s: CpuState) -> u8 {
    (128 * flag(s.sign) + 64 * flag(s.zero) + 16 * flag(s.half_carry) + 4 * flag(s.parity) + 2
        + flag(s.carry)) as u8
}

pub open spec fn with_psw_flags(s: CpuState, f: u8) -> CpuState {
    CpuState {
        sign: (f / 128) % 2 == 1,
        zero: (f / 64) % 2 == 1,
        half_carry: (f / 16) % 2 == 1,
        parity: (f / 4) % 2 == 1,
        carry: f % 2 == 1,
        ..s
    }
}

// ---------------------------------------------------------------- ALU

pub open spec fn alu_add(s: CpuState, v: u8, carry_in: bool) -> CpuState {
    let sum = s.reg_a + v + flag(carry_in);
    with_szp(
        CpuState {
            reg_a: wrap8(sum),
            carry: sum > 0xFF,
            half_carry: s.reg_a % 16 + v % 16 + flag(carry_in) > 0xF,
            ..s
        },
        wrap8(sum),
    )
}

pub open spec fn alu_sub(s: CpuState, v: u8, borrow_in: bool) -> CpuState {
    let diff = s.reg_a - v - flag(borrow_in);
    with_szp(
        CpuState {
            reg_a: wrap8(diff),
            carry: diff < 0,
            half_carry: s.reg_a % 16 - v % 16 - flag(borrow_in) >= 0,
            ..s
        },
        wrap8(diff),
    )
}

/// CMP sets the flags of A - v and leaves A alone.
pub open spec fn alu_cmp(s: CpuState, v: u8) -> CpuState {
    CpuState { reg_a: s.reg_a, ..alu_sub(s, v, false) }
}

pub open spec fn alu_and(s: CpuState, v: u8) -> CpuState {
    let r = s.reg_a & v;
    with_szp(
        CpuState { reg_a: r, carry: false, half_carry: (s.reg_a | v) & 0x08 != 0, ..s },
        r,
    )
}

pub open spec fn alu_xor(s: CpuState, v: u8) -> CpuState {
    let r = s.reg_a ^ v;
    with_szp(CpuState { reg_a: r, carry: false, half_carry: false, ..s }, r)
}

pub open spec fn alu_or(s: CpuState, v: u8) -> CpuState {
    let r = s.reg_a | v;
    with_szp(CpuState { reg_a: r, carry: false, half_carry: false, ..s }, r)
}

/// The eight accumulator operations in opcode order:
/// ADD, ADC, SUB, SBB, ANA, XRA, ORA, CMP.
pub open spec fn alu(s: CpuState, kind: int, v: u8) -> CpuState {
    if kind == 0 {
        alu_add(s, v, false)
    } else if kind == 1 {
        alu_add(s, v, s.carry)
    } else if kind == 2 {
        alu_sub(s, v, false)
    } else if kind == 3 {
        alu_sub(s, v, s.carry)
    } else if kind == 4 {
        alu_and(s, v)
    } else if kind == 5 {
        alu_xor(s, v)
    } else if kind == 6 {
        alu_or(s, v)
    } else {
        alu_cmp(s, v)
    }
}

/// The eight branch conditions in opcode order: NZ, Z, NC, C, PO, PE, P, M.
pub open spec fn condition(s: CpuState, cc: int) -> bool {
    if cc == 0 {
        !s.zero
    } else if cc == 1 {
        s.zero
    } else if cc == 2 {
        !s.carry
    } else if cc == 3 {
        s.carry
    } else if cc == 4 {
        !s.parity
    } else if cc == 5 {
        s.parity
    } else if cc == 6 {
        !s.sign
    } else {
        s.sign
    }
}

// ---------------------------------------------------------------- instructions

#[verifier::opaque]
pub open spec fn op_nop(s: CpuState) -> CpuState {
    advance(s, 1, 4)
}

#[verifier::opaque]
pub open spec fn op_lxi(s: CpuState, rp: RegisterPair) -> CpuState {
    advance(with_pair(s, rp, imm16(s)), 3, 10)
}

#[verifier::opaque]
pub open spec fn op_stax(s: CpuState, rp: RegisterPair) -> CpuState {
    advance(write8(s, pair_value(s, rp), s.reg_a), 1, 7)
}

#[verifier::opaque]
pub open spec fn op_ldax(s: CpuState, rp: RegisterPair) -> CpuState {
    advance(CpuState { reg_a: read8(s, pair_value(s, rp)), ..s }, 1, 7)
}

#[verifier::opaque]
pub open spec fn op_inx(s: CpuState, rp: RegisterPair) -> CpuState {
    advance(with_pair(s, rp, wrap16(pair_value(s, rp) + 1)), 1, 5)
}

#[verifier::opaque]
pub open spec fn op_dcx(s: CpuState, rp: RegisterPair) -> CpuState {
    advance(with_pair(s, rp, wrap16(pair_value(s, rp) - 1)), 1, 5)
}

#[verifier::opaque]
pub open spec fn op_dad(s: CpuState, rp: RegisterPair) -> CpuState {
    let sum = hl(s) + pair_value(s, rp);
    advance(CpuState { carry: sum > 0xFFFF, ..with_pair(s, RegisterPair::HL, wrap16(sum)) }, 1, 10)
}

#[verifier::opaque]
pub open spec fn op_inr(s: CpuState, r: Register) -> CpuState {
    let v = wrap8(reg_value(s, r) + 1);
    advance(with_szp(CpuState { half_carry: v % 16 == 0, ..with_reg(s, r, v) }, v), 1, cost(r, 5, 10))
}

#[verifier::opaque]
pub open spec fn op_dcr(s: CpuState, r: Register) -> CpuState {
    let v = wrap8(reg_value(s, r) - 1);
    advance(with_szp(CpuState { half_carry: v % 16 != 15, ..with_reg(s, r, v) }, v), 1, cost(r, 5, 6))
}

#[verifier::opaque]
pub open spec fn op_mvi(s: CpuState, r: Register) -> CpuState {
    advance(with_reg(s, r, imm8(s)), 2, cost(r, 7, 10))
}

#[verifier::opaque]
pub open spec fn op_rlc(s: CpuState) -> CpuState {
    let a = s.reg_a;
    advance(CpuState { reg_a: ((a * 2) % 256 + a / 128) as u8, carry: a >= 128, ..s }, 1, 4)
}

#[verifier::opaque]
pub open spec fn op_rrc(s: CpuState) -> CpuState {
    let a = s.reg_a;
    advance(CpuState { reg_a: (a / 2 + (a % 2) * 128) as u8, carry: a % 2 == 1, ..s }, 1, 4)
}

#[verifier::opaque]
pub open spec fn op_ral(s: CpuState) -> CpuState {
    let a = s.reg_a;
    advance(CpuState { reg_a: ((a * 2) % 256 + flag(s.carry)) as u8, carry: a >= 128, ..s }, 1, 4)
}

#[verifier::opaque]
pub open spec fn op_rar(s: CpuState) -> CpuState {
    let a = s.reg_a;
    advance(CpuState { reg_a: (a / 2 + flag(s.carry) * 128) as u8, carry: a % 2 == 1, ..s }, 1, 4)
}

#[verifier::opaque]
pub open spec fn op_shld(s: CpuState) -> CpuState {
    let addr = imm16(s);
    advance(write8(write8(s, addr, s.reg_l), wrap16(addr + 1), s.reg_h), 3, 16)
}

#[verifier::opaque]
pub open spec fn op_lhld(s: CpuState) -> CpuState {
    let addr = imm16(s);
    advance(CpuState { reg_l: read8(s, addr), reg_h: read8(s, wrap16(addr + 1)), ..s }, 3, 16)
}

/// Decimal adjust: corrects A after adding two packed BCD numbers.
#[verifier::opaque]
pub open spec fn op_daa(s: CpuState) -> CpuState {
    let low = s.reg_a % 16;
    let high = s.reg_a / 16;
    let low_fix: int = if s.half_carry || low > 9 {
        6
    } else {
        0
    };
    let carry_out = s.carry || high > 9 || (high >= 9 && low > 9);
    let adjust = low_fix + if carry_out {
        0x60int
    } else {
        0
    };
    let r = wrap8(s.reg_a + adjust);
    advance(
        with_szp(CpuState { reg_a: r, carry: carry_out, half_carry: low + low_fix > 0xF, ..s }, r),
        1,
        4,
    )
}

#[verifier::opaque]
pub open spec fn op_cma(s: CpuState) -> CpuState {
    advance(CpuState { reg_a: (255 - s.reg_a) as u8, ..s }, 1, 4)
}

#[verifier::opaque]
pub open spec fn op_sta(s: CpuState) -> CpuState {
    advance(write8(s, imm16(s), s.reg_a), 3, 13)
}

#[verifier::opaque]
pub open spec fn op_lda(s: CpuState) -> CpuState {
    advance(CpuState { reg_a: read8(s, imm16(s)), ..s }, 3, 13)
}

#[verifier::opaque]
pub open spec fn op_stc(s: CpuState) -> CpuState {
    advance(CpuState { carry: true, ..s }, 1, 4)
}

#[verifier::opaque]
pub open spec fn op_cmc(s: CpuState) -> CpuState {
    advance(CpuState { carry: !s.carry, ..s }, 1, 4)
}

#[verifier::opaque]
pub open spec fn op_mov(s: CpuState, dst: Register, src: Register) -> CpuState {
    let cycles: int = if dst == Register::M || src == Register::M {
        7
    } else {
        5
    };
    advance(with_reg(s, dst, reg_value(s, src)), 1, cycles)
}

/// HLT stops the processor where it stands.
#[verifier::opaque]
pub open spec fn op_hlt(s: CpuState) -> CpuState {
    CpuState { cycles: s.cycles + 7, halted: true, ..s }
}

/// Cycles of an accumulator operation on M, in opcode order: ADD and ANA
/// take 4, ADC, XRA and ORA 7, SUB, SBB and CMP 8.
pub open spec fn alu_mem_cycles(kind: int) -> int {
    if kind == 0 || kind == 4 {
        4
    } else if kind == 1 || kind == 5 || kind == 6 {
        7
    } else {
        8
    }
}

#[verifier::opaque]
pub open spec fn op_alu_reg(s: CpuState, kind: int, r: Register) -> CpuState {
    advance(alu(s, kind, reg_value(s, r)), 1, cost(r, 4, alu_mem_cycles(kind)))
}

/// Cycles of an accumulator operation on an immediate byte: 7, but 4 for ORI.
pub open spec fn alu_imm_cycles(kind: int) -> int {
    if kind == 6 {
        4
    } else {
        7
    }
}

#[verifier::opaque]
pub open spec fn op_alu_imm(s: CpuState, kind: int) -> CpuState {
    advance(alu(s, kind, imm8(s)), 2, alu_imm_cycles(kind))
}

#[verifier::opaque]
pub open spec fn op_jump_if(s: CpuState, taken: bool) -> CpuState {
    if taken {
        jump(s, imm16(s), 10)
    } else {
        advance(s, 3, 10)
    }
}

#[verifier::opaque]
pub open spec fn op_call_if(s: CpuState, taken: bool) -> CpuState {
    if taken {
        jump(push_word(s, wrap16(s.pc + 3)), imm16(s), 17)
    } else {
        advance(s, 3, 11)
    }
}

#[verifier::opaque]
pub open spec fn op_ret(s: CpuState) -> CpuState {
    jump(drop_word(s), stack_top(s), 10)
}

/// Cycles of a conditional return when it returns: 21 for RNZ, RZ, RC, RP
/// and RM, 10 for RNC, RPO and RPE.
pub open spec fn ret_taken_cycles(cc: int) -> int {
    if cc == 2 || cc == 4 || cc == 5 {
        10
    } else {
        21
    }
}

/// Cycles of a conditional return when it falls through: 5 for RNZ, RZ, RC,
/// RP and RM; RNC, RPO and RPE take none.
pub open spec fn ret_skip_cycles(cc: int) -> int {
    if cc == 2 || cc == 4 || cc == 5 {
        0
    } else {
        5
    }
}

/// A return taken (to the word on top of the stack) or not, with the
/// cycles of each outcome.
pub open spec fn ret_or_skip(s: CpuState, taken: bool, taken_cycles: int, skip_cycles: int) -> CpuState {
    if taken {
        jump(drop_word(s), stack_top(s), taken_cycles)
    } else {
        advance(s, 1, skip_cycles)
    }
}

/// The conditional return with condition `cc`.
#[verifier::opaque]
pub open spec fn op_ret_if(s: CpuState, cc: int) -> CpuState {
    ret_or_skip(s, condition(s, cc), ret_taken_cycles(cc), ret_skip_cycles(cc))
}

#[verifier::opaque]
pub open spec fn op_rst(s: CpuState, n: u8) -> CpuState {
    jump(push_word(s, wrap16(s.pc + 1)), (8 * (n % 8)) as u16, 11)
}

#[verifier::opaque]
pub open spec fn op_push(s: CpuState, r: Register) -> CpuState {
    let pushed = match r {
        Register::B => push_bytes(s, s.reg_b, s.reg_c),
        Register::D => push_bytes(s, s.reg_d, s.reg_e),
        Register::H => push_bytes(s, s.reg_h, s.reg_l),
        _ => s,
    };
    advance(pushed, 1, 11)
}

#[verifier::opaque]
pub open spec fn op_push_psw(s: CpuState) -> CpuState {
    advance(push_bytes(s, s.reg_a, psw_byte(s)), 1, 11)
}

#[verifier::opaque]
pub open spec fn op_pop(s: CpuState, rp: RegisterPair) -> CpuState {
    let loaded = match rp {
        RegisterPair::SP => s,
        _ => with_pair(s, rp, stack_top(s)),
    };
    advance(drop_word(loaded), 1, 10)
}

#[verifier::opaque]
pub open spec fn op_pop_psw(s: CpuState) -> CpuState {
    let f = read8(s, s.sp);
    let a = read8(s, wrap16(s.sp + 1));
    advance(drop_word(CpuState { reg_a: a, ..with_psw_flags(s, f) }), 1, 11)
}

#[verifier::opaque]
pub open spec fn op_xchg(s: CpuState) -> CpuState {
    advance(CpuState { reg_h: s.reg_d, reg_l: s.reg_e, reg_d: s.reg_h, reg_e: s.reg_l, ..s }, 1, 5)
}

#[verifier::opaque]
pub open spec fn op_xthl(s: CpuState) -> CpuState {
    let top = wrap16(s.sp + 1);
    let swapped = write8(write8(s, s.sp, s.reg_l), top, s.reg_h);
    advance(CpuState { reg_l: read8(s, s.sp), reg_h: read8(s, top), ..swapped }, 1, 18)
}

#[verifier::opaque]
pub open spec fn op_sphl(s: CpuState) -> CpuState {
    advance(CpuState { sp: hl(s), ..s }, 1, 5)
}

#[verifier::opaque]
pub open spec fn op_pchl(s: CpuState) -> CpuState {
    jump(s, hl(s), 5)
}

#[verifier::opaque]
pub open spec fn op_ei(s: CpuState) -> CpuState {
    advance(CpuState { interrupt: true, ..s }, 1, 4)
}

#[verifier::opaque]
pub open spec fn op_di(s: CpuState) -> CpuState {
    advance(CpuState { interrupt: false, ..s }, 1, 4)
}

/// What the shift register shows on input port 3: the eight bits of the
/// 16-bit latch that start `port_2_out` bits below its top.
pub open spec fn shift_register_value(s: CpuState) -> u8 {
    let w = word(s.port_4_out_high, s.port_4_out_low);
    ((w >> (8 - (s.port_2_out & 7)) as u16) & 0xFF) as u8
}

#[verifier::opaque]
pub open spec fn op_in(s: CpuState) -> CpuState {
    let port = imm8(s);
    let read = if port == 0 {
        CpuState { reg_a: s.port_0_in, ..s }
    } else if port == 1 {
        CpuState { reg_a: s.port_1_in, port_1_in: s.port_1_in & 0xFE, ..s }
    } else if port == 2 {
        CpuState { reg_a: s.port_2_in, ..s }
    } else if port == 3 {
        CpuState { reg_a: shift_register_value(s), ..s }
    } else {
        CpuState { reg_a: 0, ..s }
    };
    advance(read, 2, 10)
}

#[verifier::opaque]
pub open spec fn op_out(s: CpuState) -> CpuState {
    let port = imm8(s);
    let written = if port == 2 {
        CpuState { port_2_out: s.reg_a & 7, ..s }
    } else if port == 3 {
        CpuState { port_3_out: s.reg_a, ..s }
    } else if port == 4 {
        CpuState { port_4_out_low: s.port_4_out_high, port_4_out_high: s.reg_a, ..s }
    } else if port == 5 {
        CpuState { port_5_out: s.reg_a, ..s }
    } else if port == 6 {
        CpuState { port_6_out: s.reg_a, ..s }
    } else {
        s
    };
    advance(written, 2, 10)
}

/// What the opcode `op` does to `s` (the opcode register and the mnemonic aside).
#[verifier::opaque]
pub open spec fn execute(s: CpuState, op: u8) -> CpuState {
    if 0x40 <= op <= 0x7F {
        if op == 0x76 {
            op_hlt(s)
        } else {
            op_mov(s, reg_code(((op / 8) % 8) as int), reg_code((op % 8) as int))
        }
    } else if 0x80 <= op <= 0xBF {
        op_alu_reg(s, ((op / 8) % 8) as int, reg_code((op % 8) as int))
    } else {
        match op {
            0x00 | 0x08 | 0x10 | 0x18 | 0x20 | 0x28 | 0x30 | 0x38 => op_nop(s),
            0x01 => op_lxi(s, RegisterPair::BC),
            0x02 => op_stax(s, RegisterPair::BC),
            0x03 => op_inx(s, RegisterPair::BC),
            0x04 => op_inr(s, Register::B),
            0x05 => op_dcr(s, Register::B),
            0x06 => op_mvi(s, Register::B),
            0x07 => op_rlc(s),
            0x09 => op_dad(s, RegisterPair::BC),
            0x0A => op_ldax(s, RegisterPair::BC),
            0x0B => op_dcx(s, RegisterPair::BC),
            0x0C => op_inr(s, Register::C),
            0x0D => op_dcr(s, Register::C),
            0x0E => op_mvi(s, Register::C),
            0x0F => op_rrc(s),
            0x11 => op_lxi(s, RegisterPair::DE),
            0x12 => op_stax(s, RegisterPair::DE),
            0x13 => op_inx(s, RegisterPair::DE),
            0x14 => op_inr(s, Register::D),
            0x15 => op_dcr(s, Register::D),
            0x16 => op_mvi(s, Register::D),
            0x17 => op_ral(s),
            0x19 => op_dad(s, RegisterPair::DE),
            0x1A => op_ldax(s, RegisterPair::DE),
            0x1B => op_dcx(s, RegisterPair::DE),
            0x1C => op_inr(s, Register::E),
            0x1D => op_dcr(s, Register::E),
            0x1E => op_mvi(s, Register::E),
            0x1F => op_rar(s),
            0x21 => op_lxi(s, RegisterPair::HL),
            0x22 => op_shld(s),
            0x23 => op_inx(s, RegisterPair::HL),
            0x24 => op_inr(s, Register::H),
            0x25 => op_dcr(s, Register::H),
            0x26 => op_mvi(s, Register::H),
            0x27 => op_daa(s),
            0x29 => op_dad(s, RegisterPair::HL),
            0x2A => op_lhld(s),
            0x2B => op_dcx(s, RegisterPair::HL),
            0x2C => op_inr(s, Register::L),
            0x2D => op_dcr(s, Register::L),
            0x2E => op_mvi(s, Register::L),
            0x2F => op_cma(s),
            0x31 => op_lxi(s, RegisterPair::SP),
            0x32 => op_sta(s),
            0x33 => op_inx(s, RegisterPair::SP),
            0x34 => op_inr(s, Register::M),
            0x35 => op_dcr(s, Register::M),
            0x36 => op_mvi(s, Register::M),
            0x37 => op_stc(s),
            0x39 => op_dad(s, RegisterPair::SP),
            0x3A => op_lda(s),
            0x3B => op_dcx(s, RegisterPair::SP),
            0x3C => op_inr(s, Register::A),
            0x3D => op_dcr(s, Register::A),
            0x3E => op_mvi(s, Register::A),
            0x3F => op_cmc(s),
            0xC1 => op_pop(s, RegisterPair::BC),
            0xD1 => op_pop(s, RegisterPair::DE),
            0xE1 => op_pop(s, RegisterPair::HL),
            0xF1 => op_pop_psw(s),
            0xC5 => op_push(s, Register::B),
            0xD5 => op_push(s, Register::D),
            0xE5 => op_push(s, Register::H),
            0xF5 => op_push_psw(s),
            0xC3 | 0xCB => op_jump_if(s, true),
            0xC9 | 0xD9 => op_ret(s),
            0xCD | 0xDD | 0xED | 0xFD => op_call_if(s, true),
            0xD3 => op_out(s),
            0xDB => op_in(s),
            0xE3 => op_xthl(s),
            0xE9 => op_pchl(s),
            0xEB => op_xchg(s),
            0xF3 => op_di(s),
            0xF9 => op_sphl(s),
            0xFB => op_ei(s),
            _ => {
                // The remaining opcodes 0xC0..=0xFF follow the pattern 11 ccc kkk.
                let cc: int = ((op / 8) % 8) as int;
                let k: int = (op % 8) as int;
                if k == 0 {
                    op_ret_if(s, cc)
                } else if k == 2 {
                    op_jump_if(s, condition(s, cc))
                } else if k == 4 {
                    op_call_if(s, condition(s, cc))
                } else if k == 6 {
                    op_alu_imm(s, cc)
                } else {
                    op_rst(s, cc as u8)
                }
            },
        }
    }
}

/// One fetch-decode-execute cycle: the opcode at PC is executed and recorded.
pub open spec fn step(s: CpuState) -> CpuState {
    let op = read8(s, s.pc);
    CpuState { opcode: op, current_instruction: mnemonic(op), ..execute(s, op) }
}

// ---------------------------------------------------------------- interrupts

/// Interrupt entry: like a call, pushes PC (the instruction that was about to
/// run) and jumps to the interrupt vector.
pub open spec fn interrupt_entry(s: CpuState) -> CpuState {
    if s.interrupt {
        let pushed = push_word(s, s.pc);
        CpuState { prev_pc: s.pc, pc: s.interrupt_addr as u16, ..pushed }
    } else {
        s
    }
}

/// The timer after the vector moves on to `next` with a half frame of
/// cycles taken off the count: an enabled interrupt is taken to `next` and
/// leaves interrupts disabled.
pub open spec fn timer_fire(s: CpuState, next: u8) -> CpuState {
    let s1 = CpuState { cycles: s.cycles - HALF_FRAME_CYCLES, interrupt_addr: next, ..s };
    if s.interrupt {
        CpuState { interrupt: false, ..interrupt_entry(s1) }
    } else {
        s1
    }
}

/// The half-frame timer: once more than a half frame of cycles has run, it is
/// taken off the count and the vector flips between 0x10 (the end of the
/// screen) and 0x08 (its middle); each time an enabled interrupt is taken to
/// the new vector.
pub open spec fn interrupt_tick(s: CpuState) -> CpuState {
    if s.cycles <= HALF_FRAME_CYCLES {
        s
    } else if s.interrupt_addr == 0x10 {
        timer_fire(s, 0x08)
    } else if s.interrupt_addr == 0x08 {
        timer_fire(s, 0x10)
    } else {
        s
    }
}

/// `n` instructions, each followed by a look at the interrupt timer.
pub open spec fn run(s: CpuState, n: nat) -> CpuState
    decreases n,
{
    if n == 0 {
        s
    } else {
        run(interrupt_tick(step(s)), (n - 1) as nat)
    }
}

proof fn lemma_alu_keeps_cycles(s: CpuState, kind: int, v: u8)
    ensures
        alu(s, kind, v).cycles == s.cycles,
{
}

proof fn lemma_execute_cycles_low(s: CpuState, op: u8)
    requires
        op < 0x40,
    ensures
        s.cycles <= execute(s, op).cycles <= s.cycles + 21,
{
    reveal(execute);
    reveal(op_nop);
    reveal(op_lxi);
    reveal(op_stax);
    reveal(op_inx);
    reveal(op_inr);
    reveal(op_dcr);
    reveal(op_mvi);
    reveal(op_rlc);
    reveal(op_dad);
    reveal(op_ldax);
    reveal(op_dcx);
    reveal(op_rrc);
    reveal(op_ral);
    reveal(op_rar);
    reveal(op_shld);
    reveal(op_daa);
    reveal(op_lhld);
    reveal(op_cma);
    reveal(op_sta);
    reveal(op_stc);
    reveal(op_lda);
    reveal(op_cmc);
}

#[verifier::rlimit(50)]
proof fn lemma_execute_cycles_c(s: CpuState, op: u8)
    requires
        0xC0 <= op < 0xE0,
    ensures
        s.cycles <= execute(s, op).cycles <= s.cycles + 21,
{
    reveal(execute);
    reveal(op_alu_imm);
    reveal(op_call_if);
    reveal(op_di);
    reveal(op_ei);
    reveal(op_in);
    reveal(op_jump_if);
    reveal(op_out);
    reveal(op_pchl);
    reveal(op_pop);
    reveal(op_pop_psw);
    reveal(op_push);
    reveal(op_push_psw);
    reveal(op_ret);
    reveal(op_ret_if);
    reveal(op_rst);
    reveal(op_sphl);
    reveal(op_xchg);
    reveal(op_xthl);
    lemma_alu_keeps_cycles(s, ((op / 8) % 8) as int, imm8(s));
}

#[verifier::rlimit(50)]
proof fn lemma_execute_cycles_e(s: CpuState, op: u8)
    requires
        0xE0 <= op,
    ensures
        s.cycles <= execute(s, op).cycles <= s.cycles + 21,
{
    reveal(execute);
    reveal(op_alu_imm);
    reveal(op_call_if);
    reveal(op_di);
    reveal(op_ei);
    reveal(op_in);
    reveal(op_jump_if);
    reveal(op_out);
    reveal(op_pchl);
    reveal(op_pop);
    reveal(op_pop_psw);
    reveal(op_push);
    reveal(op_push_psw);
    reveal(op_ret);
    reveal(op_ret_if);
    reveal(op_rst);
    reveal(op_sphl);
    reveal(op_xchg);
    reveal(op_xthl);
    lemma_alu_keeps_cycles(s, ((op / 8) % 8) as int, imm8(s));
}

proof fn lemma_execute_cycles(s: CpuState, op: u8)
    ensures
        s.cycles <= execute(s, op).cycles <= s.cycles + 21,
{
    reveal(execute);
    if op < 0x40 {
        lemma_execute_cycles_low(s, op);
    } else if op < 0x80 {
        reveal(op_mov);
        reveal(op_hlt);
    } else if op < 0xC0 {
        reveal(op_alu_reg);
        lemma_alu_keeps_cycles(s, ((op / 8) % 8) as int, reg_value(s, reg_code((op % 8) as int)));
    } else if op < 0xE0 {
        lemma_execute_cycles_c(s, op);
    } else {
        lemma_execute_cycles_e(s, op);
    }
}

/// The timer never adds cycles.
pub proof fn lemma_tick_cycles(s: CpuState)
    ensures
        interrupt_tick(s).cycles <= s.cycles,
{
}

/// `run` can also be unrolled at its end.
pub proof fn lemma_run_last(s: CpuState, n: nat)
    ensures
        run(s, n + 1) == interrupt_tick(step(run(s, n))),
    decreases n,
{
    let t = interrupt_tick(step(s));
    assert(run(s, n + 1) == run(t, n));
    if n > 0 {
        lemma_run_last(t, (n - 1) as nat);
        assert(run(s, n) == run(t, (n - 1) as nat));
    } else {
        assert(run(t, 0) == t);
    }
}

/// Every instruction takes at most 21 cycles.
pub proof fn lemma_step_cycles(s: CpuState)
    ensures
        s.cycles <= step(s).cycles <= s.cycles + 21,
{
    lemma_execute_cycles(s, read8(s, s.pc));
}

/// What `reset` leaves: registers and flags cleared, PC moved on by one.
pub open spec fn reset_state(s: CpuState) -> CpuState {
    advance(
        CpuState {
            reg_a: 0,
            reg_b: 0,
            reg_c: 0,
            reg_d: 0,
            reg_e: 0,
            reg_h: 0,
            reg_l: 0,
            sign: false,
            zero: false,
            parity: false,
            carry: false,
            half_carry: false,
            ..s
        },
        1,
        0,
    )
}

/// Most instructions one frame runs. Only a program that is nothing but
/// conditional returns that fall through at no cost (RNC, RPO, RPE) would
/// reach it; without it such a frame would never end.
pub const FRAME_STEP_LIMIT: u64 = 0x1_0000_0000;

/// Instructions run until more than 16666 cycles have passed since the
/// frame began (`spent` so far), the processor halts, or `steps_left` more
/// instructions have run.
pub open spec fn run_frame(s: CpuState, spent: int, steps_left: nat) -> CpuState
    decreases steps_left,
{
    if spent > 16666 || s.halted || steps_left == 0 {
        s
    } else {
        let t = step(s);
        run_frame(interrupt_tick(t), spent + (t.cycles - s.cycles), (steps_left - 1) as nat)
    }
}

} // verus!
