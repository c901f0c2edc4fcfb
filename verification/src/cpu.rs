//! The 8080 processor: registers, flags and the instruction interpreter.
//!
//! The 8080 has seven 8-bit registers (A, B, C, D, E, H and L). A is the
//! accumulator; B/C, D/E and H/L also act as 16-bit register pairs. The
//! pseudo-register M is the byte that HL points at. There is a 16-bit stack
//! pointer and a 16-bit program counter.
use vstd::prelude::*;
use crate::memory::{high_byte, low_byte, make_word, word, Memory, MEMORY_SIZE};
use crate::model::{
    add_cycles, advance, alu, alu_add, alu_and, alu_cmp, alu_or, alu_sub, alu_xor, bit_count,
    condition, drop_word, even_parity, execute, flag, hl, imm16, imm8, interrupt_entry,
    interrupt_tick, jump, lemma_run_last, lemma_step_cycles, op_alu_imm, op_alu_reg, op_call_if,
    op_cma, op_cmc, op_daa, op_dad, op_dcr, op_dcx, op_di, op_ei, op_hlt, op_in, op_inr, op_inx,
    op_jump_if, op_lda, op_ldax, op_lhld, op_lxi, op_mov, op_mvi, op_nop, op_out, op_pchl, op_pop,
    op_pop_psw, op_push, op_push_psw, op_ral, op_rar, op_ret, op_ret_if, ret_or_skip, op_rlc, op_rrc, op_rst,
    op_shld, op_sphl, op_sta, op_stax, op_stc, op_xchg, op_xthl, pair_value, psw_byte, push_bytes,
    push_word, read8, reg_code, reg_value, reset_state, run, shift_register_value, stack_top, step,
    with_pair, with_reg, with_sp, with_szp, wrap16, wrap8, write8, CpuState, HALF_FRAME_CYCLES,
};
use crate::opcode::{mnemonic, Opcode, Register, RegisterPair};
use crate::text::{bool_text, dec_text, hex_text, push_bool, push_dec, push_hex};

verus! {

pub struct Registers {
    pub opcode: u8,
    pub current_instruction: String,
    pub breakpoint: bool,
    pub debug: bool,
    pub pc: u16,
    pub prev_pc: u16,
    pub sp: u16,
    // 8-bit registers
    pub reg_a: u8,
    pub reg_b: u8,
    pub reg_c: u8,
    pub reg_d: u8,
    pub reg_e: u8,
    pub reg_h: u8,
    pub reg_l: u8,
    pub reg_m: u8,
    // Status flags
    pub sign: bool,
    pub zero: bool,
    pub parity: bool,
    pub carry: bool,
    pub half_carry: bool,
    pub cycles: usize,
    pub interrupt: bool,
    pub interrupt_addr: u8,
    /// Set by HLT.
    pub halted: bool,
    // Input ports
    pub port_0_in: u8,
    pub port_1_in: u8,
    pub port_2_in: u8,
    pub port_3_in: u8,
    // Output ports: shift amount, sound, shift data (high, low), sound, watchdog
    pub port_2_out: u8,
    pub port_3_out: u8,
    pub port_4_out_high: u8,
    pub port_4_out_low: u8,
    pub port_5_out: u8,
    pub port_6_out: u8,
}

/// The register file as one line of the debug trace: the instruction, the
/// opcode, where it was, the cycle count, the registers and the flags.
pub open spec fn trace_text(r: Registers) -> Seq<char> {
    "   "@ + r.current_instruction@ + " Opcode:"@ + hex_text(r.opcode as int, 4) + " PC:"@
        + hex_text(r.prev_pc as int, 4) + " Cycles:"@ + dec_text(r.cycles as nat) + " A:"@
        + hex_text(r.reg_a as int, 2) + " BC:"@ + hex_text(r.reg_b as int, 2) + hex_text(
        r.reg_c as int,
        2,
    ) + " DE:"@ + hex_text(r.reg_d as int, 2) + hex_text(r.reg_e as int, 2) + " HL:"@ + hex_text(
        r.reg_h as int,
        2,
    ) + hex_text(r.reg_l as int, 2) + " SP:"@ + hex_text(r.sp as int, 4) + " S:"@ + bool_text(
        r.sign,
    ) + " Z:"@ + bool_text(r.zero) + " P:"@ + bool_text(r.parity) + " C:"@ + bool_text(r.carry)
        + " AC:"@ + bool_text(r.half_carry) + " Interrupt:"@ + bool_text(r.interrupt)
}

impl Registers {
    /// The register file as the board powers on: everything zero except the
    /// input ports of the cabinet and the first interrupt vector.
    pub open spec fn power_on(&self) -> bool {
        &&& self.opcode == 0
        &&& self.current_instruction@ == Seq::<char>::empty()
        &&& !self.debug
        &&& !self.breakpoint
        &&& self.pc == 0
        &&& self.prev_pc == 0
        &&& self.sp == 0
        &&& self.reg_a == 0 && self.reg_b == 0 && self.reg_c == 0 && self.reg_d == 0
        &&& self.reg_e == 0 && self.reg_h == 0 && self.reg_l == 0 && self.reg_m == 0
        &&& !self.sign && !self.zero && !self.parity && !self.carry && !self.half_carry
        &&& self.cycles == 0
        &&& !self.interrupt
        &&& self.interrupt_addr == 0x10
        &&& !self.halted
        &&& self.port_0_in == 0x0E
        &&& self.port_1_in == 0x08
        &&& self.port_2_in == 0 && self.port_3_in == 0
        &&& self.port_2_out == 0 && self.port_3_out == 0 && self.port_4_out_high == 0
        &&& self.port_4_out_low == 0 && self.port_5_out == 0 && self.port_6_out == 0
    }

    /// The power-on register file.
    pub fn new() -> (r: Registers)
        ensures
            r.power_on(),
    {
        Registers {
            opcode: 0,
            current_instruction: String::new(),
            debug: false,
            breakpoint: false,
            pc: 0,
            prev_pc: 0,
            sp: 0,
            reg_a: 0,
            reg_b: 0,
            reg_c: 0,
            reg_d: 0,
            reg_e: 0,
            reg_h: 0,
            reg_l: 0,
            reg_m: 0,
            sign: false,
            zero: false,
            parity: false,
            carry: false,
            half_carry: false,
            cycles: 0,
            interrupt: false,
            interrupt_addr: 0x10,
            halted: false,
            port_0_in: 0x0E,
            port_1_in: 0x08,
            port_2_in: 0x00,
            port_3_in: 0,
            port_2_out: 0,
            port_3_out: 0,
            port_4_out_high: 0,
            port_4_out_low: 0,
            port_5_out: 0,
            port_6_out: 0,
        }
    }

    /// The register file as one line of the debug trace.
    pub fn trace_line(&self) -> (line: String)
        ensures
            line@ == trace_text(*self),
    {
        let mut out = String::new();
        out.append("   ");
        out.append(self.current_instruction.as_str());
        out.append(" Opcode:");
        push_hex(&mut out, self.opcode as u32, 4);
        out.append(" PC:");
        push_hex(&mut out, self.prev_pc as u32, 4);
        out.append(" Cycles:");
        push_dec(&mut out, self.cycles);
        out.append(" A:");
        push_hex(&mut out, self.reg_a as u32, 2);
        out.append(" BC:");
        push_hex(&mut out, self.reg_b as u32, 2);
        push_hex(&mut out, self.reg_c as u32, 2);
        out.append(" DE:");
        push_hex(&mut out, self.reg_d as u32, 2);
        push_hex(&mut out, self.reg_e as u32, 2);
        out.append(" HL:");
        push_hex(&mut out, self.reg_h as u32, 2);
        push_hex(&mut out, self.reg_l as u32, 2);
        out.append(" SP:");
        push_hex(&mut out, self.sp as u32, 4);
        out.append(" S:");
        push_bool(&mut out, self.sign);
        out.append(" Z:");
        push_bool(&mut out, self.zero);
        out.append(" P:");
        push_bool(&mut out, self.parity);
        out.append(" C:");
        push_bool(&mut out, self.carry);
        out.append(" AC:");
        push_bool(&mut out, self.half_carry);
        out.append(" Interrupt:");
        push_bool(&mut out, self.interrupt);
        out
    }
}

/// The processor: its registers and the memory it runs on.
pub struct ExecutionContext {
    pub registers: Registers,
    pub memory: Memory,
}

impl View for ExecutionContext {
    type V = CpuState;

    open spec fn view(&self) -> CpuState {
        let r = self.registers;
        CpuState {
            opcode: r.opcode,
            current_instruction: r.current_instruction@,
            breakpoint: r.breakpoint,
            debug: r.debug,
            pc: r.pc,
            prev_pc: r.prev_pc,
            sp: r.sp,
            reg_a: r.reg_a,
            reg_b: r.reg_b,
            reg_c: r.reg_c,
            reg_d: r.reg_d,
            reg_e: r.reg_e,
            reg_h: r.reg_h,
            reg_l: r.reg_l,
            reg_m: r.reg_m,
            sign: r.sign,
            zero: r.zero,
            parity: r.parity,
            carry: r.carry,
            half_carry: r.half_carry,
            cycles: r.cycles as int,
            interrupt: r.interrupt,
            interrupt_addr: r.interrupt_addr,
            halted: r.halted,
            port_0_in: r.port_0_in,
            port_1_in: r.port_1_in,
            port_2_in: r.port_2_in,
            port_3_in: r.port_3_in,
            port_2_out: r.port_2_out,
            port_3_out: r.port_3_out,
            port_4_out_high: r.port_4_out_high,
            port_4_out_low: r.port_4_out_low,
            port_5_out: r.port_5_out,
            port_6_out: r.port_6_out,
            mem: self.memory.memory@,
        }
    }
}

/// Most cycles one instruction takes.
pub const MAX_INSTRUCTION_CYCLES: usize = 21;

impl ExecutionContext {
    /// Memory covers the whole address space.
    pub open spec fn wf(&self) -> bool {
        self.memory.wf()
    }

    /// The cycle counter can take one more instruction.
    pub open spec fn has_cycle_room(&self) -> bool {
        self.registers.cycles + MAX_INSTRUCTION_CYCLES <= usize::MAX
    }

    pub open spec fn ready(&self) -> bool {
        self.wf() && self.has_cycle_room()
    }

    /// A powered-on processor with zeroed memory.
    pub fn new() -> (ctx: ExecutionContext)
        ensures
            ctx.ready(),
            ctx.registers.power_on(),
            ctx@.mem =~= Seq::new(MEMORY_SIZE as nat, |i: int| 0u8),
    {
        ExecutionContext { registers: Registers::new(), memory: Memory::new() }
    }

    fn set_sp(&mut self, value: u16)
        ensures
            final(self)@ == with_sp(old(self)@, value),
            final(self).memory == old(self).memory,
    {
        self.registers.sp = value;
    }

    fn read_mem(&self, addr: u16) -> (b: u8)
        requires
            self.wf(),
        ensures
            b == read8(self@, addr),
    {
        self.memory.memory[addr as usize]
    }

    fn write_mem(&mut self, addr: u16, value: u8)
        requires
            old(self).wf(),
        ensures
            final(self).wf(),
            final(self)@ == write8(old(self)@, addr, value),
    {
        self.memory.memory.set(addr as usize, value);
    }

    fn hl(&self) -> (w: u16)
        ensures
            w == hl(self@),
    {
        make_word(self.registers.reg_h, self.registers.reg_l)
    }

    fn read_pair(&self, rp: RegisterPair) -> (w: u16)
        ensures
            w == pair_value(self@, rp),
    {
        match rp {
            RegisterPair::BC => make_word(self.registers.reg_b, self.registers.reg_c),
            RegisterPair::DE => make_word(self.registers.reg_d, self.registers.reg_e),
            RegisterPair::HL => make_word(self.registers.reg_h, self.registers.reg_l),
            RegisterPair::SP => self.registers.sp,
        }
    }

    fn write_pair(&mut self, rp: RegisterPair, w: u16)
        ensures
            final(self)@ == with_pair(old(self)@, rp, w),
            final(self).memory == old(self).memory,
    {
        let high = high_byte(w);
        let low = low_byte(w);
        match rp {
            RegisterPair::BC => {
                self.registers.reg_b = high;
                self.registers.reg_c = low;
            },
            RegisterPair::DE => {
                self.registers.reg_d = high;
                self.registers.reg_e = low;
            },
            RegisterPair::HL => {
                self.registers.reg_h = high;
                self.registers.reg_l = low;
            },
            RegisterPair::SP => self.registers.sp = w,
        }
    }

    /// The operand `reg`; for `M`, the byte that HL points at.
    fn read_reg(&self, reg: Register) -> (v: u8)
        requires
            self.wf(),
        ensures
            v == reg_value(self@, reg),
    {
        match reg {
            Register::A => self.registers.reg_a,
            Register::B => self.registers.reg_b,
            Register::C => self.registers.reg_c,
            Register::D => self.registers.reg_d,
            Register::E => self.registers.reg_e,
            Register::H => self.registers.reg_h,
            Register::L => self.registers.reg_l,
            Register::M => self.read_mem(self.hl()),
        }
    }

    fn write_reg(&mut self, reg: Register, value: u8)
        requires
            old(self).wf(),
        ensures
            final(self).wf(),
            final(self)@ == with_reg(old(self)@, reg, value),
    {
        match reg {
            Register::A => self.registers.reg_a = value,
            Register::B => self.registers.reg_b = value,
            Register::C => self.registers.reg_c = value,
            Register::D => self.registers.reg_d = value,
            Register::E => self.registers.reg_e = value,
            Register::H => self.registers.reg_h = value,
            Register::L => self.registers.reg_l = value,
            Register::M => {
                let addr = self.hl();
                self.write_mem(addr, value);
            },
        }
    }

    fn imm8(&self) -> (b: u8)
        requires
            self.wf(),
        ensures
            b == imm8(self@),
    {
        self.read_mem(self.registers.pc.wrapping_add(1))
    }

    fn imm16(&self) -> (w: u16)
        requires
            self.wf(),
        ensures
            w == imm16(self@),
    {
        let low = self.read_mem(self.registers.pc.wrapping_add(1));
        let high = self.read_mem(self.registers.pc.wrapping_add(2));
        make_word(high, low)
    }

    fn adv_pc(&mut self, t: u16)
        ensures
            final(self)@ == advance(old(self)@, t as int, 0),
            final(self).memory == old(self).memory,
    {
        self.registers.prev_pc = self.registers.pc;
        self.registers.pc = self.registers.pc.wrapping_add(t);
    }

    fn adv_cycles(&mut self, t: usize)
        requires
            old(self).registers.cycles + t <= usize::MAX,
        ensures
            final(self)@ == add_cycles(old(self)@, t as int),
            final(self).memory == old(self).memory,
    {
        self.registers.cycles = self.registers.cycles + t;
    }

    /// Moves past an instruction of `len` bytes taking `cycles` cycles.
    fn finish(&mut self, len: u16, cycles: usize)
        requires
            old(self).registers.cycles + cycles <= usize::MAX,
        ensures
            final(self)@ == advance(old(self)@, len as int, cycles as int),
            final(self).memory == old(self).memory,
    {
        self.adv_cycles(cycles);
        self.adv_pc(len);
    }

    /// Transfers control to `target` taking `cycles` cycles.
    fn jump_to(&mut self, target: u16, cycles: usize)
        requires
            old(self).registers.cycles + cycles <= usize::MAX,
        ensures
            final(self)@ == jump(old(self)@, target, cycles as int),
            final(self).memory == old(self).memory,
    {
        self.adv_cycles(cycles);
        self.registers.prev_pc = self.registers.pc;
        self.registers.pc = target;
    }

    /// Whether `value` has an even number of one bits.
    fn parity(&self, value: u8) -> (even: bool)
        ensures
            even == even_parity(value),
    {
        // Fold the byte onto its lowest bit: each step XORs the upper half of
        // what is left onto the lower half, which keeps the parity.
        let v4 = value ^ (value >> 4);
        let v2 = v4 ^ (v4 >> 2);
        let v1 = v2 ^ (v2 >> 1);
        assert((v1 & 1 == 0) == (bit_count(value) % 2 == 0)) by (bit_vector)
            requires
                v4 == value ^ (value >> 4),
                v2 == v4 ^ (v4 >> 2),
                v1 == v2 ^ (v2 >> 1),
        ;
        v1 & 1 == 0
    }

    fn set_half_carry(&mut self, ac: bool)
        ensures
            final(self)@ == (CpuState { half_carry: ac, ..old(self)@ }),
            final(self).memory == old(self).memory,
    {
        self.registers.half_carry = ac;
    }

    fn set_szp(&mut self, r: u8)
        ensures
            final(self)@ == with_szp(old(self)@, r),
            final(self).memory == old(self).memory,
    {
        self.registers.sign = r >= 0x80;
        self.registers.zero = r == 0;
        self.registers.parity = self.parity(r);
    }

    fn half_carry_add(&self, value: u8, carry_in: bool) -> (ac: bool)
        ensures
            ac == (self@.reg_a % 16 + value % 16 + flag(carry_in) > 0xF),
    {
        let c: u8 = if carry_in {
            1
        } else {
            0
        };
        self.registers.reg_a % 16 + value % 16 + c > 0xF
    }

    fn half_carry_sub(&self, value: u8, borrow_in: bool) -> (ac: bool)
        ensures
            ac == (self@.reg_a % 16 - value % 16 - flag(borrow_in) >= 0),
    {
        let b: u8 = if borrow_in {
            1
        } else {
            0
        };
        self.registers.reg_a % 16 >= value % 16 + b
    }

    /// A <- A + value (+ carry).
    fn add_to_a(&mut self, value: u8, carry_in: bool)
        ensures
            final(self)@ == alu_add(old(self)@, value, carry_in),
            final(self).memory == old(self).memory,
    {
        let a = self.registers.reg_a;
        let c: u16 = if carry_in {
            1
        } else {
            0
        };
        let sum: u16 = a as u16 + value as u16 + c;
        let r = (sum % 256) as u8;
        let ac = self.half_carry_add(value, carry_in);
        self.registers.reg_a = r;
        self.registers.carry = sum > 0xFF;
        self.registers.half_carry = ac;
        self.set_szp(r);
    }

    /// A <- A - value (- borrow).
    fn sub_from_a(&mut self, value: u8, borrow_in: bool)
        ensures
            final(self)@ == alu_sub(old(self)@, value, borrow_in),
            final(self).memory == old(self).memory,
    {
        let a = self.registers.reg_a;
        let b: u16 = if borrow_in {
            1
        } else {
            0
        };
        let shifted: u16 = a as u16 + 256 - value as u16 - b;
        let r = (shifted % 256) as u8;
        assert(r == wrap8(a - value - b)) by {
            vstd::arithmetic::div_mod::lemma_mod_add_multiples_vanish(a - value - b, 256);
        }
        let ac = self.half_carry_sub(value, borrow_in);
        self.registers.reg_a = r;
        self.registers.carry = value as u16 + b > a as u16;
        self.registers.half_carry = ac;
        self.set_szp(r);
    }

    /// Flags of A - value; A is kept.
    fn compare_with_a(&mut self, value: u8)
        ensures
            final(self)@ == alu_cmp(old(self)@, value),
            final(self).memory == old(self).memory,
    {
        let a = self.registers.reg_a;
        self.sub_from_a(value, false);
        self.registers.reg_a = a;
    }

    fn and_with_a(&mut self, value: u8)
        ensures
            final(self)@ == alu_and(old(self)@, value),
            final(self).memory == old(self).memory,
    {
        let a = self.registers.reg_a;
        let r = a & value;
        self.registers.half_carry = (a | value) & 0x08 != 0;
        self.registers.reg_a = r;
        self.registers.carry = false;
        self.set_szp(r);
    }

    fn xor_with_a(&mut self, value: u8)
        ensures
            final(self)@ == alu_xor(old(self)@, value),
            final(self).memory == old(self).memory,
    {
        let r = self.registers.reg_a ^ value;
        self.registers.reg_a = r;
        self.registers.half_carry = false;
        self.registers.carry = false;
        self.set_szp(r);
    }

    fn or_with_a(&mut self, value: u8)
        ensures
            final(self)@ == alu_or(old(self)@, value),
            final(self).memory == old(self).memory,
    {
        let r = self.registers.reg_a | value;
        self.registers.reg_a = r;
        self.registers.half_carry = false;
        self.registers.carry = false;
        self.set_szp(r);
    }

    /// The accumulator operation `kind` (ADD ADC SUB SBB ANA XRA ORA CMP) on `value`.
    fn alu_op(&mut self, kind: u8, value: u8)
        requires
            kind < 8,
        ensures
            final(self)@ == alu(old(self)@, kind as int, value),
            final(self).memory == old(self).memory,
    {
        let carry = self.registers.carry;
        match kind {
            0 => self.add_to_a(value, false),
            1 => self.add_to_a(value, carry),
            2 => self.sub_from_a(value, false),
            3 => self.sub_from_a(value, carry),
            4 => self.and_with_a(value),
            5 => self.xor_with_a(value),
            6 => self.or_with_a(value),
            _ => self.compare_with_a(value),
        }
    }

    /// An accumulator operation on a register (4 cycles) or on M.
    fn alu_reg(&mut self, kind: u8, reg: Register)
        requires
            old(self).ready(),
            kind < 8,
        ensures
            final(self).wf(),
            final(self)@ == op_alu_reg(old(self)@, kind as int, reg),
    {
        proof {
            reveal(op_alu_reg);
        }
        let value = self.read_reg(reg);
        self.alu_op(kind, value);
        let cycles: usize = match reg {
            Register::M => {
                if kind == 0 || kind == 4 {
                    4
                } else if kind == 1 || kind == 5 || kind == 6 {
                    7
                } else {
                    8
                }
            },
            _ => 4,
        };
        self.finish(1, cycles);
    }

    /// An accumulator operation on the byte after the opcode.
    fn alu_imm(&mut self, kind: u8)
        requires
            old(self).ready(),
            kind < 8,
        ensures
            final(self).wf(),
            final(self)@ == op_alu_imm(old(self)@, kind as int),
    {
        proof {
            reveal(op_alu_imm);
        }
        let value = self.imm8();
        self.alu_op(kind, value);
        let cycles: usize = if kind == 6 {
            4
        } else {
            7
        };
        self.finish(2, cycles);
    }

    // ADD, ADC, SUB, SBB, ANA, XRA, ORA and CMP with a register or memory.

    fn add(&mut self, reg: Register)
        requires
            old(self).ready(),
        ensures
            final(self).wf(),
            final(self)@ == op_alu_reg(old(self)@, 0, reg),
    {
        proof {
            reveal(op_alu_reg);
        }
        self.alu_reg(0, reg);
    }

    fn adc(&mut self, reg: Register)
        requires
            old(self).ready(),
        ensures
            final(self).wf(),
            final(self)@ == op_alu_reg(old(self)@, 1, reg),
    {
        proof {
            reveal(op_alu_reg);
        }
        self.alu_reg(1, reg);
    }

    fn sub(&mut self, reg: Register)
        requires
            old(self).ready(),
        ensures
            final(self).wf(),
            final(self)@ == op_alu_reg(old(self)@, 2, reg),
    {
        proof {
            reveal(op_alu_reg);
        }
        self.alu_reg(2, reg);
    }

    /// Subtract register or memory from the accumulator with borrow.
    fn sbb(&mut self, reg: Register)
        requires
            old(self).ready(),
        ensures
            final(self).wf(),
            final(self)@ == op_alu_reg(old(self)@, 3, reg),
    {
        proof {
            reveal(op_alu_reg);
        }
        self.alu_reg(3, reg);
    }

    fn ana(&mut self, reg: Register)
        requires
            old(self).ready(),
        ensures
            final(self).wf(),
            final(self)@ == op_alu_reg(old(self)@, 4, reg),
    {
        proof {
            reveal(op_alu_reg);
        }
        self.alu_reg(4, reg);
    }

    /// Exclusive-or with the accumulator (XRA A clears it).
    fn xra(&mut self, reg: Register)
        requires
            old(self).ready(),
        ensures
            final(self).wf(),
            final(self)@ == op_alu_reg(old(self)@, 5, reg),
    {
        proof {
            reveal(op_alu_reg);
        }
        self.alu_reg(5, reg);
    }

    fn ora(&mut self, reg: Register)
        requires
            old(self).ready(),
        ensures
            final(self).wf(),
            final(self)@ == op_alu_reg(old(self)@, 6, reg),
    {
        proof {
            reveal(op_alu_reg);
        }
        self.alu_reg(6, reg);
    }

    /// Compare register or memory with the accumulator.
    fn cmp(&mut self, reg: Register)
        requires
            old(self).ready(),
        ensures
            final(self).wf(),
            final(self)@ == op_alu_reg(old(self)@, 7, reg),
    {
        proof {
            reveal(op_alu_reg);
        }
        self.alu_reg(7, reg);
    }

    // The same operations with an immediate byte: ADI ACI SUI SBI ANI XRI ORI CPI.

    fn adi(&mut self)
        requires
            old(self).ready(),
        ensures
            final(self).wf(),
            final(self)@ == op_alu_imm(old(self)@, 0),
    {
        proof {
            reveal(op_alu_imm);
        }
        self.alu_imm(0);
    }

    fn aci(&mut self)
        requires
            old(self).ready(),
        ensures
            final(self).wf(),
            final(self)@ == op_alu_imm(old(self)@, 1),
    {
        proof {
            reveal(op_alu_imm);
        }
        self.alu_imm(1);
    }

    fn sui(&mut self)
        requires
            old(self).ready(),
        ensures
            final(self).wf(),
            final(self)@ == op_alu_imm(old(self)@, 2),
    {
        proof {
            reveal(op_alu_imm);
        }
        self.alu_imm(2);
    }

    fn sbi(&mut self)
        requires
            old(self).ready(),
        ensures
            final(self).wf(),
            final(self)@ == op_alu_imm(old(self)@, 3),
    {
        proof {
            reveal(op_alu_imm);
        }
        self.alu_imm(3);
    }

    fn ani(&mut self)
        requires
            old(self).ready(),
        ensures
            final(self).wf(),
            final(self)@ == op_alu_imm(old(self)@, 4),
    {
        proof {
            reveal(op_alu_imm);
        }
        self.alu_imm(4);
    }

    fn xri(&mut self)
        requires
            old(self).ready(),
        ensures
            final(self).wf(),
            final(self)@ == op_alu_imm(old(self)@, 5),
    {
        proof {
            reveal(op_alu_imm);
        }
        self.alu_imm(5);
    }

    fn ori(&mut self)
        requires
            old(self).ready(),
        ensures
            final(self).wf(),
            final(self)@ == op_alu_imm(old(self)@, 6),
    {
        proof {
            reveal(op_alu_imm);
        }
        self.alu_imm(6);
    }

    fn cpi(&mut self)
        requires
            old(self).ready(),
        ensures
            final(self).wf(),
            final(self)@ == op_alu_imm(old(self)@, 7),
    {
        proof {
            reveal(op_alu_imm);
        }
        self.alu_imm(7);
    }

    pub fn nop(&mut self)
        requires
            old(self).registers.cycles + 4 <= usize::MAX,
        ensures
            final(self)@ == op_nop(old(self)@),
            final(self).memory == old(self).memory,
    {
        proof {
            reveal(op_nop);
        }
        self.finish(1, 4);
    }

    /// Load register pair immediate, e.g. LXI H, 2000H.
    fn lxi(&mut self, reg: RegisterPair)
        requires
            old(self).ready(),
        ensures
            final(self).wf(),
            final(self)@ == op_lxi(old(self)@, reg),
    {
        proof {
            reveal(op_lxi);
        }
        let value = self.imm16();
        self.write_pair(reg, value);
        self.finish(3, 10);
    }

    /// Store the accumulator at the address in BC or DE.
    fn stax(&mut self, reg: RegisterPair)
        requires
            old(self).ready(),
            reg == RegisterPair::BC || reg == RegisterPair::DE,
        ensures
            final(self).wf(),
            final(self)@ == op_stax(old(self)@, reg),
    {
        proof {
            reveal(op_stax);
        }
        let addr = self.read_pair(reg);
        let a = self.registers.reg_a;
        self.write_mem(addr, a);
        self.finish(1, 7);
    }

    /// Load the accumulator from the address in BC or DE; neither the pair nor
    /// memory changes.
    fn ldax(&mut self, reg: RegisterPair)
        requires
            old(self).ready(),
            reg == RegisterPair::BC || reg == RegisterPair::DE,
        ensures
            final(self).wf(),
            final(self)@ == op_ldax(old(self)@, reg),
    {
        proof {
            reveal(op_ldax);
        }
        let addr = self.read_pair(reg);
        self.registers.reg_a = self.read_mem(addr);
        self.finish(1, 7);
    }

    fn inx(&mut self, reg: RegisterPair)
        requires
            old(self).ready(),
        ensures
            final(self).wf(),
            final(self)@ == op_inx(old(self)@, reg),
    {
        proof {
            reveal(op_inx);
        }
        let value = self.read_pair(reg).wrapping_add(1);
        self.write_pair(reg, value);
        self.finish(1, 5);
    }

    fn dcx(&mut self, reg: RegisterPair)
        requires
            old(self).ready(),
        ensures
            final(self).wf(),
            final(self)@ == op_dcx(old(self)@, reg),
    {
        proof {
            reveal(op_dcx);
        }
        let value = self.read_pair(reg).wrapping_sub(1);
        self.write_pair(reg, value);
        self.finish(1, 5);
    }

    /// Double add: HL <- HL + pair; only the carry flag changes.
    fn dad(&mut self, reg: RegisterPair)
        requires
            old(self).ready(),
        ensures
            final(self).wf(),
            final(self)@ == op_dad(old(self)@, reg),
    {
        proof {
            reveal(op_dad);
        }
        let hl = self.hl();
        let value = self.read_pair(reg);
        let sum: u32 = hl as u32 + value as u32;
        self.write_pair(RegisterPair::HL, (sum % 0x1_0000) as u16);
        self.registers.carry = sum > 0xFFFF;
        self.finish(1, 10);
    }

    /// Increment register or memory; the carry flag is kept.
    #[verifier::rlimit(30)]
    fn inr(&mut self, reg: Register)
        requires
            old(self).ready(),
        ensures
            final(self).wf(),
            final(self)@ == op_inr(old(self)@, reg),
    {
        proof {
            reveal(op_inr);
        }
        let ghost s0 = self@;
        let current = self.read_reg(reg);
        let value = current.wrapping_add(1);
        assert(value == wrap8(current + 1));
        self.write_reg(reg, value);
        self.set_half_carry(value % 16 == 0);
        self.set_szp(value);
        assert(self@ == with_szp(CpuState { half_carry: value % 16 == 0, ..with_reg(s0, reg, value) }, value));
        let cycles: usize = match reg {
            Register::M => 10,
            _ => 5,
        };
        self.finish(1, cycles);
    }

    /// Decrement register or memory; the carry flag is kept.
    #[verifier::rlimit(30)]
    fn dcr(&mut self, reg: Register)
        requires
            old(self).ready(),
        ensures
            final(self).wf(),
            final(self)@ == op_dcr(old(self)@, reg),
    {
        proof {
            reveal(op_dcr);
        }
        let ghost s0 = self@;
        let current = self.read_reg(reg);
        let value = current.wrapping_sub(1);
        assert(value == wrap8(current - 1));
        self.write_reg(reg, value);
        self.set_half_carry(value % 16 != 15);
        self.set_szp(value);
        assert(self@ == with_szp(CpuState { half_carry: value % 16 != 15, ..with_reg(s0, reg, value) }, value));
        let cycles: usize = match reg {
            Register::M => 6,
            _ => 5,
        };
        self.finish(1, cycles);
    }

    /// Move immediate data into a register or memory.
    fn mvi(&mut self, reg: Register)
        requires
            old(self).ready(),
        ensures
            final(self).wf(),
            final(self)@ == op_mvi(old(self)@, reg),
    {
        proof {
            reveal(op_mvi);
        }
        let value = self.imm8();
        self.write_reg(reg, value);
        let cycles: usize = match reg {
            Register::M => 10,
            _ => 7,
        };
        self.finish(2, cycles);
    }

    /// Rotate the accumulator left; bit 7 goes to bit 0 and to the carry.
    fn rlc(&mut self)
        requires
            old(self).ready(),
        ensures
            final(self).wf(),
            final(self)@ == op_rlc(old(self)@),
    {
        proof {
            reveal(op_rlc);
        }
        let a = self.registers.reg_a;
        self.registers.reg_a = ((a as u16 * 2) % 256 + a as u16 / 128) as u8;
        self.registers.carry = a >= 128;
        self.finish(1, 4);
    }

    /// Rotate the accumulator right; bit 0 goes to bit 7 and to the carry.
    fn rrc(&mut self)
        requires
            old(self).ready(),
        ensures
            final(self).wf(),
            final(self)@ == op_rrc(old(self)@),
    {
        proof {
            reveal(op_rrc);
        }
        let a = self.registers.reg_a;
        self.registers.reg_a = (a / 2 + (a % 2) * 128) as u8;
        self.registers.carry = a % 2 == 1;
        self.finish(1, 4);
    }

    /// Rotate the accumulator left through the carry.
    fn ral(&mut self)
        requires
            old(self).ready(),
        ensures
            final(self).wf(),
            final(self)@ == op_ral(old(self)@),
    {
        proof {
            reveal(op_ral);
        }
        let a = self.registers.reg_a;
        let c: u16 = if self.registers.carry {
            1
        } else {
            0
        };
        self.registers.reg_a = ((a as u16 * 2) % 256 + c) as u8;
        self.registers.carry = a >= 128;
        self.finish(1, 4);
    }

    /// Rotate the accumulator right through the carry.
    fn rar(&mut self)
        requires
            old(self).ready(),
        ensures
            final(self).wf(),
            final(self)@ == op_rar(old(self)@),
    {
        proof {
            reveal(op_rar);
        }
        let a = self.registers.reg_a;
        let c: u8 = if self.registers.carry {
            1
        } else {
            0
        };
        self.registers.reg_a = a / 2 + c * 128;
        self.registers.carry = a % 2 == 1;
        self.finish(1, 4);
    }

    /// Store L at the operand address and H at the next one.
    fn shld(&mut self)
        requires
            old(self).ready(),
        ensures
            final(self).wf(),
            final(self)@ == op_shld(old(self)@),
    {
        proof {
            reveal(op_shld);
        }
        let addr = self.imm16();
        let l = self.registers.reg_l;
        let h = self.registers.reg_h;
        self.write_mem(addr, l);
        self.write_mem(addr.wrapping_add(1), h);
        self.finish(3, 16);
    }

    /// Load L from the operand address and H from the next one.
    fn lhld(&mut self)
        requires
            old(self).ready(),
        ensures
            final(self).wf(),
            final(self)@ == op_lhld(old(self)@),
    {
        proof {
            reveal(op_lhld);
        }
        let addr = self.imm16();
        self.registers.reg_l = self.read_mem(addr);
        self.registers.reg_h = self.read_mem(addr.wrapping_add(1));
        self.finish(3, 16);
    }

    /// Decimal adjust accumulator.
    fn daa(&mut self)
        requires
            old(self).ready(),
        ensures
            final(self).wf(),
            final(self)@ == op_daa(old(self)@),
    {
        proof {
            reveal(op_daa);
        }
        let a = self.registers.reg_a;
        let low = a % 16;
        let high = a / 16;
        let low_fix: u8 = if self.registers.half_carry || low > 9 {
            6
        } else {
            0
        };
        let carry_out = self.registers.carry || high > 9 || (high >= 9 && low > 9);
        let high_fix: u16 = if carry_out {
            0x60
        } else {
            0
        };
        let r = ((a as u16 + low_fix as u16 + high_fix) % 256) as u8;
        self.registers.reg_a = r;
        self.registers.carry = carry_out;
        self.registers.half_carry = low + low_fix > 0xF;
        self.set_szp(r);
        self.finish(1, 4);
    }

    /// Complement the accumulator.
    fn cma(&mut self)
        requires
            old(self).ready(),
        ensures
            final(self).wf(),
            final(self)@ == op_cma(old(self)@),
    {
        proof {
            reveal(op_cma);
        }
        self.registers.reg_a = 255 - self.registers.reg_a;
        self.finish(1, 4);
    }

    /// Store the accumulator direct.
    fn sta(&mut self)
        requires
            old(self).ready(),
        ensures
            final(self).wf(),
            final(self)@ == op_sta(old(self)@),
    {
        proof {
            reveal(op_sta);
        }
        let addr = self.imm16();
        let a = self.registers.reg_a;
        self.write_mem(addr, a);
        self.finish(3, 13);
    }

    /// Load the accumulator direct.
    fn lda(&mut self)
        requires
            old(self).ready(),
        ensures
            final(self).wf(),
            final(self)@ == op_lda(old(self)@),
    {
        proof {
            reveal(op_lda);
        }
        let addr = self.imm16();
        self.registers.reg_a = self.read_mem(addr);
        self.finish(3, 13);
    }

    /// Set carry.
    fn stc(&mut self)
        requires
            old(self).ready(),
        ensures
            final(self).wf(),
            final(self)@ == op_stc(old(self)@),
    {
        proof {
            reveal(op_stc);
        }
        self.registers.carry = true;
        self.finish(1, 4);
    }

    /// Complement carry.
    fn cmc(&mut self)
        requires
            old(self).ready(),
        ensures
            final(self).wf(),
            final(self)@ == op_cmc(old(self)@),
    {
        proof {
            reveal(op_cmc);
        }
        self.registers.carry = !self.registers.carry;
        self.finish(1, 4);
    }

    fn mov(&mut self, dst: Register, src: Register)
        requires
            old(self).ready(),
        ensures
            final(self).wf(),
            final(self)@ == op_mov(old(self)@, dst, src),
    {
        proof {
            reveal(op_mov);
        }
        let value = self.read_reg(src);
        self.write_reg(dst, value);
        let cycles: usize = match (dst, src) {
            (Register::M, _) => 7,
            (_, Register::M) => 7,
            _ => 5,
        };
        self.finish(1, cycles);
    }

    /// Halt: the processor stops at this instruction.
    fn hlt(&mut self)
        requires
            old(self).ready(),
        ensures
            final(self).wf(),
            final(self)@ == op_hlt(old(self)@),
    {
        proof {
            reveal(op_hlt);
        }
        self.adv_cycles(7);
        self.registers.halted = true;
    }

    fn jump_if(&mut self, taken: bool)
        requires
            old(self).ready(),
        ensures
            final(self).wf(),
            final(self)@ == op_jump_if(old(self)@, taken),
    {
        proof {
            reveal(op_jump_if);
        }
        if taken {
            let target = self.imm16();
            self.jump_to(target, 10);
        } else {
            self.finish(3, 10);
        }
    }

    fn jmp(&mut self)
        requires
            old(self).ready(),
        ensures
            final(self).wf(),
            final(self)@ == op_jump_if(old(self)@, true),
    {
        proof {
            reveal(op_jump_if);
        }
        self.jump_if(true);
    }

    /// Jump if not zero.
    fn jnz(&mut self)
        requires
            old(self).ready(),
        ensures
            final(self).wf(),
            final(self)@ == op_jump_if(old(self)@, condition(old(self)@, 0)),
    {
        proof {
            reveal(op_jump_if);
        }
        let taken = !self.registers.zero;
        self.jump_if(taken);
    }

    /// Jump if zero.
    fn jz(&mut self)
        requires
            old(self).ready(),
        ensures
            final(self).wf(),
            final(self)@ == op_jump_if(old(self)@, condition(old(self)@, 1)),
    {
        proof {
            reveal(op_jump_if);
        }
        let taken = self.registers.zero;
        self.jump_if(taken);
    }

    /// Jump if no carry.
    fn jnc(&mut self)
        requires
            old(self).ready(),
        ensures
            final(self).wf(),
            final(self)@ == op_jump_if(old(self)@, condition(old(self)@, 2)),
    {
        proof {
            reveal(op_jump_if);
        }
        let taken = !self.registers.carry;
        self.jump_if(taken);
    }

    /// Jump if carry.
    fn jc(&mut self)
        requires
            old(self).ready(),
        ensures
            final(self).wf(),
            final(self)@ == op_jump_if(old(self)@, condition(old(self)@, 3)),
    {
        proof {
            reveal(op_jump_if);
        }
        let taken = self.registers.carry;
        self.jump_if(taken);
    }

    /// Jump if parity odd.
    fn jpo(&mut self)
        requires
            old(self).ready(),
        ensures
            final(self).wf(),
            final(self)@ == op_jump_if(old(self)@, condition(old(self)@, 4)),
    {
        proof {
            reveal(op_jump_if);
        }
        let taken = !self.registers.parity;
        self.jump_if(taken);
    }

    /// Jump if parity even.
    fn jpe(&mut self)
        requires
            old(self).ready(),
        ensures
            final(self).wf(),
            final(self)@ == op_jump_if(old(self)@, condition(old(self)@, 5)),
    {
        proof {
            reveal(op_jump_if);
        }
        let taken = self.registers.parity;
        self.jump_if(taken);
    }

    /// Jump if plus.
    fn jp(&mut self)
        requires
            old(self).ready(),
        ensures
            final(self).wf(),
            final(self)@ == op_jump_if(old(self)@, condition(old(self)@, 6)),
    {
        proof {
            reveal(op_jump_if);
        }
        let taken = !self.registers.sign;
        self.jump_if(taken);
    }

    /// Jump if minus.
    fn jm(&mut self)
        requires
            old(self).ready(),
        ensures
            final(self).wf(),
            final(self)@ == op_jump_if(old(self)@, condition(old(self)@, 7)),
    {
        proof {
            reveal(op_jump_if);
        }
        let taken = self.registers.sign;
        self.jump_if(taken);
    }

    fn push_bytes(&mut self, high: u8, low: u8)
        requires
            old(self).wf(),
        ensures
            final(self).wf(),
            final(self)@ == push_bytes(old(self)@, high, low),
    {
        let sp = self.registers.sp;
        self.write_mem(sp.wrapping_sub(1), high);
        self.write_mem(sp.wrapping_sub(2), low);
        self.registers.sp = sp.wrapping_sub(2);
    }

    fn push_word(&mut self, w: u16)
        requires
            old(self).wf(),
        ensures
            final(self).wf(),
            final(self)@ == push_word(old(self)@, w),
    {
        self.push_bytes(high_byte(w), low_byte(w));
    }

    fn stack_top(&self) -> (w: u16)
        requires
            self.wf(),
        ensures
            w == stack_top(self@),
    {
        let sp = self.registers.sp;
        make_word(self.read_mem(sp.wrapping_add(1)), self.read_mem(sp))
    }

    /// CALL pushes the address of the next instruction, then jumps.
    fn call_if(&mut self, taken: bool)
        requires
            old(self).ready(),
        ensures
            final(self).wf(),
            final(self)@ == op_call_if(old(self)@, taken),
    {
        proof {
            reveal(op_call_if);
        }
        if taken {
            let target = self.imm16();
            let ret = self.registers.pc.wrapping_add(3);
            self.push_word(ret);
            self.jump_to(target, 17);
        } else {
            self.finish(3, 11);
        }
    }

    fn call(&mut self)
        requires
            old(self).ready(),
        ensures
            final(self).wf(),
            final(self)@ == op_call_if(old(self)@, true),
    {
        proof {
            reveal(op_call_if);
        }
        self.call_if(true);
    }

    /// Call if not zero.
    fn cnz(&mut self)
        requires
            old(self).ready(),
        ensures
            final(self).wf(),
            final(self)@ == op_call_if(old(self)@, condition(old(self)@, 0)),
    {
        proof {
            reveal(op_call_if);
        }
        let taken = !self.registers.zero;
        self.call_if(taken);
    }

    /// Call if zero.
    fn cz(&mut self)
        requires
            old(self).ready(),
        ensures
            final(self).wf(),
            final(self)@ == op_call_if(old(self)@, condition(old(self)@, 1)),
    {
        proof {
            reveal(op_call_if);
        }
        let taken = self.registers.zero;
        self.call_if(taken);
    }

    /// Call if no carry.
    fn cnc(&mut self)
        requires
            old(self).ready(),
        ensures
            final(self).wf(),
            final(self)@ == op_call_if(old(self)@, condition(old(self)@, 2)),
    {
        proof {
            reveal(op_call_if);
        }
        let taken = !self.registers.carry;
        self.call_if(taken);
    }

    /// Call if carry.
    fn cc(&mut self)
        requires
            old(self).ready(),
        ensures
            final(self).wf(),
            final(self)@ == op_call_if(old(self)@, condition(old(self)@, 3)),
    {
        proof {
            reveal(op_call_if);
        }
        let taken = self.registers.carry;
        self.call_if(taken);
    }

    /// Call if parity odd.
    fn cpo(&mut self)
        requires
            old(self).ready(),
        ensures
            final(self).wf(),
            final(self)@ == op_call_if(old(self)@, condition(old(self)@, 4)),
    {
        proof {
            reveal(op_call_if);
        }
        let taken = !self.registers.parity;
        self.call_if(taken);
    }

    /// Call if parity even.
    fn cpe(&mut self)
        requires
            old(self).ready(),
        ensures
            final(self).wf(),
            final(self)@ == op_call_if(old(self)@, condition(old(self)@, 5)),
    {
        proof {
            reveal(op_call_if);
        }
        let taken = self.registers.parity;
        self.call_if(taken);
    }

    /// Call if plus.
    fn cp(&mut self)
        requires
            old(self).ready(),
        ensures
            final(self).wf(),
            final(self)@ == op_call_if(old(self)@, condition(old(self)@, 6)),
    {
        proof {
            reveal(op_call_if);
        }
        let taken = !self.registers.sign;
        self.call_if(taken);
    }

    /// Call if minus.
    fn cm(&mut self)
        requires
            old(self).ready(),
        ensures
            final(self).wf(),
            final(self)@ == op_call_if(old(self)@, condition(old(self)@, 7)),
    {
        proof {
            reveal(op_call_if);
        }
        let taken = self.registers.sign;
        self.call_if(taken);
    }

    fn ret(&mut self)
        requires
            old(self).ready(),
        ensures
            final(self).wf(),
            final(self)@ == op_ret(old(self)@),
    {
        proof {
            reveal(op_ret);
        }
        let target = self.stack_top();
        self.registers.sp = self.registers.sp.wrapping_add(2);
        self.jump_to(target, 10);
    }

    fn ret_if(&mut self, taken: bool, taken_cycles: usize, skip_cycles: usize)
        requires
            old(self).ready(),
            taken_cycles <= MAX_INSTRUCTION_CYCLES,
            skip_cycles <= MAX_INSTRUCTION_CYCLES,
        ensures
            final(self).wf(),
            final(self)@ == ret_or_skip(
                old(self)@,
                taken,
                taken_cycles as int,
                skip_cycles as int,
            ),
    {
        if taken {
            let target = self.stack_top();
            self.registers.sp = self.registers.sp.wrapping_add(2);
            self.jump_to(target, taken_cycles);
        } else {
            self.finish(1, skip_cycles);
        }
    }

    /// Return if not zero.
    fn rnz(&mut self)
        requires
            old(self).ready(),
        ensures
            final(self).wf(),
            final(self)@ == op_ret_if(old(self)@, 0),
    {
        proof {
            reveal(op_ret_if);
        }
        let taken = !self.registers.zero;
        self.ret_if(taken, 21, 5);
    }

    /// Return if zero.
    fn rz(&mut self)
        requires
            old(self).ready(),
        ensures
            final(self).wf(),
            final(self)@ == op_ret_if(old(self)@, 1),
    {
        proof {
            reveal(op_ret_if);
        }
        let taken = self.registers.zero;
        self.ret_if(taken, 21, 5);
    }

    /// Return if no carry.
    fn rnc(&mut self)
        requires
            old(self).ready(),
        ensures
            final(self).wf(),
            final(self)@ == op_ret_if(old(self)@, 2),
    {
        proof {
            reveal(op_ret_if);
        }
        let taken = !self.registers.carry;
        self.ret_if(taken, 10, 0);
    }

    /// Return if carry.
    fn rc(&mut self)
        requires
            old(self).ready(),
        ensures
            final(self).wf(),
            final(self)@ == op_ret_if(old(self)@, 3),
    {
        proof {
            reveal(op_ret_if);
        }
        let taken = self.registers.carry;
        self.ret_if(taken, 21, 5);
    }

    /// Return if parity odd.
    fn rpo(&mut self)
        requires
            old(self).ready(),
        ensures
            final(self).wf(),
            final(self)@ == op_ret_if(old(self)@, 4),
    {
        proof {
            reveal(op_ret_if);
        }
        let taken = !self.registers.parity;
        self.ret_if(taken, 10, 0);
    }

    /// Return if parity even.
    fn rpe(&mut self)
        requires
            old(self).ready(),
        ensures
            final(self).wf(),
            final(self)@ == op_ret_if(old(self)@, 5),
    {
        proof {
            reveal(op_ret_if);
        }
        let taken = self.registers.parity;
        self.ret_if(taken, 10, 0);
    }

    /// Return if plus.
    fn rp(&mut self)
        requires
            old(self).ready(),
        ensures
            final(self).wf(),
            final(self)@ == op_ret_if(old(self)@, 6),
    {
        proof {
            reveal(op_ret_if);
        }
        let taken = !self.registers.sign;
        self.ret_if(taken, 21, 5);
    }

    /// Return if minus.
    fn rm(&mut self)
        requires
            old(self).ready(),
        ensures
            final(self).wf(),
            final(self)@ == op_ret_if(old(self)@, 7),
    {
        proof {
            reveal(op_ret_if);
        }
        let taken = self.registers.sign;
        self.ret_if(taken, 21, 5);
    }

    /// RST n: a one-byte call to address 8 * n.
    pub fn rst(&mut self, value: u8)
        requires
            old(self).wf(),
            old(self).registers.cycles + 11 <= usize::MAX,
        ensures
            final(self).wf(),
            final(self)@ == op_rst(old(self)@, value),
    {
        proof {
            reveal(op_rst);
        }
        let ret = self.registers.pc.wrapping_add(1);
        self.push_word(ret);
        let target = ((value % 8) * 8) as u16;
        self.jump_to(target, 11);
    }

    /// Push B/C, D/E or H/L; other registers push nothing.
    fn push(&mut self, reg: Register)
        requires
            old(self).ready(),
        ensures
            final(self).wf(),
            final(self)@ == op_push(old(self)@, reg),
    {
        proof {
            reveal(op_push);
        }
        match reg {
            Register::B => {
                let (h, l) = (self.registers.reg_b, self.registers.reg_c);
                self.push_bytes(h, l);
            },
            Register::D => {
                let (h, l) = (self.registers.reg_d, self.registers.reg_e);
                self.push_bytes(h, l);
            },
            Register::H => {
                let (h, l) = (self.registers.reg_h, self.registers.reg_l);
                self.push_bytes(h, l);
            },
            _ => {},
        }
        self.finish(1, 11);
    }

    /// The flag byte S Z 0 AC 0 P 1 CY.
    fn psw(&self) -> (f: u8)
        ensures
            f == psw_byte(self@),
    {
        let r = &self.registers;
        let s: u8 = if r.sign {
            0x80
        } else {
            0
        };
        let z: u8 = if r.zero {
            0x40
        } else {
            0
        };
        let ac: u8 = if r.half_carry {
            0x10
        } else {
            0
        };
        let p: u8 = if r.parity {
            0x04
        } else {
            0
        };
        let c: u8 = if r.carry {
            0x01
        } else {
            0
        };
        s + z + ac + p + 0x02 + c
    }

    fn push_psw(&mut self)
        requires
            old(self).ready(),
        ensures
            final(self).wf(),
            final(self)@ == op_push_psw(old(self)@),
    {
        proof {
            reveal(op_push_psw);
        }
        let f = self.psw();
        let a = self.registers.reg_a;
        self.push_bytes(a, f);
        self.finish(1, 11);
    }

    /// Pop a register pair; popping SP only drops the word.
    fn pop(&mut self, reg: RegisterPair)
        requires
            old(self).ready(),
        ensures
            final(self).wf(),
            final(self)@ == op_pop(old(self)@, reg),
    {
        proof {
            reveal(op_pop);
        }
        match reg {
            RegisterPair::SP => {},
            _ => {
                let w = self.stack_top();
                self.write_pair(reg, w);
            },
        }
        self.registers.sp = self.registers.sp.wrapping_add(2);
        self.finish(1, 10);
    }

    fn pop_psw(&mut self)
        requires
            old(self).ready(),
        ensures
            final(self).wf(),
            final(self)@ == op_pop_psw(old(self)@),
    {
        proof {
            reveal(op_pop_psw);
        }
        let sp = self.registers.sp;
        let f = self.read_mem(sp);
        let a = self.read_mem(sp.wrapping_add(1));
        self.registers.sign = (f / 128) % 2 == 1;
        self.registers.zero = (f / 64) % 2 == 1;
        self.registers.half_carry = (f / 16) % 2 == 1;
        self.registers.parity = (f / 4) % 2 == 1;
        self.registers.carry = f % 2 == 1;
        self.registers.reg_a = a;
        self.registers.sp = sp.wrapping_add(2);
        self.finish(1, 11);
    }

    /// Exchange HL with DE.
    fn xchg(&mut self)
        requires
            old(self).ready(),
        ensures
            final(self).wf(),
            final(self)@ == op_xchg(old(self)@),
    {
        proof {
            reveal(op_xchg);
        }
        let h = self.registers.reg_h;
        let l = self.registers.reg_l;
        self.registers.reg_h = self.registers.reg_d;
        self.registers.reg_l = self.registers.reg_e;
        self.registers.reg_d = h;
        self.registers.reg_e = l;
        self.finish(1, 5);
    }

    /// Exchange HL with the word on top of the stack.
    fn xthl(&mut self)
        requires
            old(self).ready(),
        ensures
            final(self).wf(),
            final(self)@ == op_xthl(old(self)@),
    {
        proof {
            reveal(op_xthl);
        }
        let sp = self.registers.sp;
        let top = sp.wrapping_add(1);
        let new_l = self.read_mem(sp);
        let new_h = self.read_mem(top);
        let old_l = self.registers.reg_l;
        let old_h = self.registers.reg_h;
        self.write_mem(sp, old_l);
        self.write_mem(top, old_h);
        self.registers.reg_l = new_l;
        self.registers.reg_h = new_h;
        self.finish(1, 18);
    }

    fn sphl(&mut self)
        requires
            old(self).ready(),
        ensures
            final(self).wf(),
            final(self)@ == op_sphl(old(self)@),
    {
        proof {
            reveal(op_sphl);
        }
        let hl = self.hl();
        self.set_sp(hl);
        self.finish(1, 5);
    }

    /// Jump to the address in HL.
    fn pchl(&mut self)
        requires
            old(self).ready(),
        ensures
            final(self).wf(),
            final(self)@ == op_pchl(old(self)@),
    {
        proof {
            reveal(op_pchl);
        }
        let hl = self.hl();
        self.jump_to(hl, 5);
    }

    fn ei(&mut self)
        requires
            old(self).ready(),
        ensures
            final(self).wf(),
            final(self)@ == op_ei(old(self)@),
    {
        proof {
            reveal(op_ei);
        }
        self.registers.interrupt = true;
        self.finish(1, 4);
    }

    fn di(&mut self)
        requires
            old(self).ready(),
        ensures
            final(self).wf(),
            final(self)@ == op_di(old(self)@),
    {
        proof {
            reveal(op_di);
        }
        self.registers.interrupt = false;
        self.finish(1, 4);
    }

    fn shift_register(&self) -> (v: u8)
        ensures
            v == shift_register_value(self@),
    {
        let w = make_word(self.registers.port_4_out_high, self.registers.port_4_out_low);
        let latch = self.registers.port_2_out;
        let offset = latch & 7;
        assert(offset <= 7) by (bit_vector)
            requires
                offset == latch & 7,
        ;
        let shifted = w >> (8 - offset as u16);
        let v = shifted & 0xFF;
        assert(v < 256) by (bit_vector)
            requires
                v == shifted & 0xFF,
        ;
        v as u8
    }

    /// IN: reads an input port of the cabinet into the accumulator.
    fn input(&mut self)
        requires
            old(self).ready(),
        ensures
            final(self).wf(),
            final(self)@ == op_in(old(self)@),
    {
        proof {
            reveal(op_in);
        }
        let port = self.imm8();
        let value: u8 = if port == 0 {
            self.registers.port_0_in
        } else if port == 1 {
            let v = self.registers.port_1_in;
            self.registers.port_1_in = v & 0xFE;
            v
        } else if port == 2 {
            self.registers.port_2_in
        } else if port == 3 {
            self.shift_register()
        } else {
            0
        };
        self.registers.reg_a = value;
        self.finish(2, 10);
    }

    /// OUT: writes the accumulator to an output port of the cabinet.
    fn output(&mut self)
        requires
            old(self).ready(),
        ensures
            final(self).wf(),
            final(self)@ == op_out(old(self)@),
    {
        proof {
            reveal(op_out);
        }
        let port = self.imm8();
        let a = self.registers.reg_a;
        if port == 2 {
            self.registers.port_2_out = a & 7;
        } else if port == 3 {
            self.registers.port_3_out = a;
        } else if port == 4 {
            self.registers.port_4_out_low = self.registers.port_4_out_high;
            self.registers.port_4_out_high = a;
        } else if port == 5 {
            self.registers.port_5_out = a;
        } else if port == 6 {
            self.registers.port_6_out = a;
        }
        self.finish(2, 10);
    }

    fn dispatch_low(&mut self, opcode: u8)
        requires
            old(self).ready(),
            opcode < 0x40,
        ensures
            final(self).wf(),
            final(self)@ == execute(old(self)@, opcode),
    {
        proof {
            reveal(execute);
        }
        match opcode {
            0x00 => self.nop(),
            0x01 => self.lxi(RegisterPair::BC),
            0x02 => self.stax(RegisterPair::BC),
            0x03 => self.inx(RegisterPair::BC),
            0x04 => self.inr(Register::B),
            0x05 => self.dcr(Register::B),
            0x06 => self.mvi(Register::B),
            0x07 => self.rlc(),
            0x08 => self.nop(),
            0x09 => self.dad(RegisterPair::BC),
            0x0A => self.ldax(RegisterPair::BC),
            0x0B => self.dcx(RegisterPair::BC),
            0x0C => self.inr(Register::C),
            0x0D => self.dcr(Register::C),
            0x0E => self.mvi(Register::C),
            0x0F => self.rrc(),
            0x10 => self.nop(),
            0x11 => self.lxi(RegisterPair::DE),
            0x12 => self.stax(RegisterPair::DE),
            0x13 => self.inx(RegisterPair::DE),
            0x14 => self.inr(Register::D),
            0x15 => self.dcr(Register::D),
            0x16 => self.mvi(Register::D),
            0x17 => self.ral(),
            0x18 => self.nop(),
            0x19 => self.dad(RegisterPair::DE),
            0x1A => self.ldax(RegisterPair::DE),
            0x1B => self.dcx(RegisterPair::DE),
            0x1C => self.inr(Register::E),
            0x1D => self.dcr(Register::E),
            0x1E => self.mvi(Register::E),
            0x1F => self.rar(),
            0x20 => self.nop(),
            0x21 => self.lxi(RegisterPair::HL),
            0x22 => self.shld(),
            0x23 => self.inx(RegisterPair::HL),
            0x24 => self.inr(Register::H),
            0x25 => self.dcr(Register::H),
            0x26 => self.mvi(Register::H),
            0x27 => self.daa(),
            0x28 => self.nop(),
            0x29 => self.dad(RegisterPair::HL),
            0x2A => self.lhld(),
            0x2B => self.dcx(RegisterPair::HL),
            0x2C => self.inr(Register::L),
            0x2D => self.dcr(Register::L),
            0x2E => self.mvi(Register::L),
            0x2F => self.cma(),
            0x30 => self.nop(),
            0x31 => self.lxi(RegisterPair::SP),
            0x32 => self.sta(),
            0x33 => self.inx(RegisterPair::SP),
            0x34 => self.inr(Register::M),
            0x35 => self.dcr(Register::M),
            0x36 => self.mvi(Register::M),
            0x37 => self.stc(),
            0x38 => self.nop(),
            0x39 => self.dad(RegisterPair::SP),
            0x3A => self.lda(),
            0x3B => self.dcx(RegisterPair::SP),
            0x3C => self.inr(Register::A),
            0x3D => self.dcr(Register::A),
            0x3E => self.mvi(Register::A),
            0x3F => self.cmc(),
            _ => {},
        }
    }

    /// The register named by a three-bit field of an opcode.
    fn decode_register(code: u8) -> (reg: Register)
        requires
            code < 8,
        ensures
            reg == reg_code(code as int),
    {
        match code {
            0 => Register::B,
            1 => Register::C,
            2 => Register::D,
            3 => Register::E,
            4 => Register::H,
            5 => Register::L,
            6 => Register::M,
            _ => Register::A,
        }
    }

    /// Opcodes 01 ddd sss: MOV ddd, sss; 0x76 (where both are M) is HLT.
    fn dispatch_mov(&mut self, opcode: u8)
        requires
            old(self).ready(),
            0x40 <= opcode < 0x80,
        ensures
            final(self).wf(),
            final(self)@ == execute(old(self)@, opcode),
    {
        proof {
            reveal(execute);
        }
        if opcode == 0x76 {
            self.hlt();
        } else {
            let dst = Self::decode_register((opcode / 8) % 8);
            let src = Self::decode_register(opcode % 8);
            self.mov(dst, src);
        }
    }

    /// Opcodes 10 kkk sss: the accumulator operation kkk on register sss.
    fn dispatch_alu(&mut self, opcode: u8)
        requires
            old(self).ready(),
            0x80 <= opcode < 0xC0,
        ensures
            final(self).wf(),
            final(self)@ == execute(old(self)@, opcode),
    {
        proof {
            reveal(execute);
        }
        let reg = Self::decode_register(opcode % 8);
        match (opcode / 8) % 8 {
            0 => self.add(reg),
            1 => self.adc(reg),
            2 => self.sub(reg),
            3 => self.sbb(reg),
            4 => self.ana(reg),
            5 => self.xra(reg),
            6 => self.ora(reg),
            _ => self.cmp(reg),
        }
    }

    fn dispatch_high(&mut self, opcode: u8)
        requires
            old(self).ready(),
            0xC0 <= opcode < 0x100,
        ensures
            final(self).wf(),
            final(self)@ == execute(old(self)@, opcode),
    {
        proof {
            reveal(execute);
        }
        match opcode {
            0xC0 => self.rnz(),
            0xC1 => self.pop(RegisterPair::BC),
            0xC2 => self.jnz(),
            0xC3 => self.jmp(),
            0xC4 => self.cnz(),
            0xC5 => self.push(Register::B),
            0xC6 => self.adi(),
            0xC7 => self.rst(0),
            0xC8 => self.rz(),
            0xC9 => self.ret(),
            0xCA => self.jz(),
            0xCB => self.jmp(),
            0xCC => self.cz(),
            0xCD => self.call(),
            0xCE => self.aci(),
            0xCF => self.rst(1),
            0xD0 => self.rnc(),
            0xD1 => self.pop(RegisterPair::DE),
            0xD2 => self.jnc(),
            0xD3 => self.output(),
            0xD4 => self.cnc(),
            0xD5 => self.push(Register::D),
            0xD6 => self.sui(),
            0xD7 => self.rst(2),
            0xD8 => self.rc(),
            0xD9 => self.ret(),
            0xDA => self.jc(),
            0xDB => self.input(),
            0xDC => self.cc(),
            0xDD => self.call(),
            0xDE => self.sbi(),
            0xDF => self.rst(3),
            0xE0 => self.rpo(),
            0xE1 => self.pop(RegisterPair::HL),
            0xE2 => self.jpo(),
            0xE3 => self.xthl(),
            0xE4 => self.cpo(),
            0xE5 => self.push(Register::H),
            0xE6 => self.ani(),
            0xE7 => self.rst(4),
            0xE8 => self.rpe(),
            0xE9 => self.pchl(),
            0xEA => self.jpe(),
            0xEB => self.xchg(),
            0xEC => self.cpe(),
            0xED => self.call(),
            0xEE => self.xri(),
            0xEF => self.rst(5),
            0xF0 => self.rp(),
            0xF1 => self.pop_psw(),
            0xF2 => self.jp(),
            0xF3 => self.di(),
            0xF4 => self.cp(),
            0xF5 => self.push_psw(),
            0xF6 => self.ori(),
            0xF7 => self.rst(6),
            0xF8 => self.rm(),
            0xF9 => self.sphl(),
            0xFA => self.jm(),
            0xFB => self.ei(),
            0xFC => self.cm(),
            0xFD => self.call(),
            0xFE => self.cpi(),
            0xFF => self.rst(7),
            _ => {},
        }
    }

    /// Executes the instruction whose opcode is `opcode`.
    fn dispatch(&mut self, opcode: u8)
        requires
            old(self).ready(),
        ensures
            final(self).wf(),
            final(self)@ == execute(old(self)@, opcode),
    {
        if opcode < 0x40 {
            self.dispatch_low(opcode);
        } else if opcode < 0x80 {
            self.dispatch_mov(opcode);
        } else if opcode < 0xC0 {
            self.dispatch_alu(opcode);
        } else {
            self.dispatch_high(opcode);
        }
    }

    /// Fetches the opcode at PC, executes it, and records it with its mnemonic.
    pub fn execute_instruction(&mut self)
        requires
            old(self).ready(),
        ensures
            final(self).wf(),
            final(self)@ == step(old(self)@),
    {
        let opcode = self.read_mem(self.registers.pc);
        self.dispatch(opcode);
        self.registers.opcode = opcode;
        self.registers.current_instruction = Opcode::print(opcode).to_owned();
    }

    /// Interrupt entry: pushes PC, like a call, and jumps to the pending
    /// interrupt vector.
    fn emulate_interrupt(&mut self)
        requires
            old(self).wf(),
        ensures
            final(self).wf(),
            final(self)@ == interrupt_entry(old(self)@),
    {
        if self.registers.interrupt {
            let ret = self.registers.pc;
            self.push_word(ret);
            self.registers.prev_pc = ret;
            self.registers.pc = self.registers.interrupt_addr as u16;
        }
    }

    /// The half-frame timer: after more than 16667 cycles they are taken off
    /// the count and the vector flips between 0x10 and 0x08; an enabled
    /// interrupt is taken to the new vector.
    pub fn try_interrupt(&mut self)
        requires
            old(self).wf(),
        ensures
            final(self).wf(),
            final(self)@ == interrupt_tick(old(self)@),
    {
        if self.registers.cycles <= HALF_FRAME_CYCLES {
            return;
        }
        let next: u8 = if self.registers.interrupt_addr == 0x10 {
            0x08
        } else if self.registers.interrupt_addr == 0x08 {
            0x10
        } else {
            return;
        };
        self.registers.cycles = self.registers.cycles - HALF_FRAME_CYCLES;
        self.registers.interrupt_addr = next;
        if self.registers.interrupt {
            self.emulate_interrupt();
            self.registers.interrupt = false;
        }
    }

    /// Runs `times` instructions, checking the interrupt timer after each.
    pub fn step(&mut self, times: u8)
        requires
            old(self).wf(),
            old(self).registers.cycles + MAX_INSTRUCTION_CYCLES * times <= usize::MAX,
        ensures
            final(self).wf(),
            final(self)@ == run(old(self)@, times as nat),
    {
        let ghost start = self@;
        let mut i: u8 = 0;
        while i < times
            invariant
                self.wf(),
                i <= times,
                self@ == run(start, i as nat),
                self.registers.cycles + MAX_INSTRUCTION_CYCLES * (times - i) <= usize::MAX,
            decreases times - i,
        {
            let ghost before = self@;
            proof {
                lemma_step_cycles(before);
                lemma_run_last(start, i as nat);
            }
            self.execute_instruction();
            self.try_interrupt();
            i = i + 1;
        }
    }

    /// Clears the registers and flags and moves PC on by one.
    pub fn reset(&mut self)
        ensures
            final(self)@ == reset_state(old(self)@),
            final(self).memory == old(self).memory,
    {
        self.registers.reg_a = 0;
        self.registers.reg_b = 0;
        self.registers.reg_c = 0;
        self.registers.reg_d = 0;
        self.registers.reg_e = 0;
        self.registers.reg_h = 0;
        self.registers.reg_l = 0;
        self.registers.sign = false;
        self.registers.zero = false;
        self.registers.parity = false;
        self.registers.carry = false;
        self.registers.half_carry = false;
        self.adv_pc(1);
    }
}

} // verus!
