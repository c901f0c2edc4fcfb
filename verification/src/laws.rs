//! Properties that tie several instructions, or several calls, together.
//!
//! Each is stated over `step`, the state that `execute_instruction` leaves,
//! or over the other spec functions that the library's contracts use.
use vstd::prelude::*;
use crate::display::{vram_pixel, VRAM_START};
use crate::keypad::{cleared_port_1, cleared_port_2, keys_down, press, release, Key, Keypad};
use crate::memory::{word, MEMORY_SIZE};
use crate::model::{
    even_parity, execute, hl, imm16, imm8, interrupt_tick, op_alu_reg, op_call_if, op_cma, op_daa,
    op_dcr, op_dcx, op_hlt, op_in, op_inr, op_inx, op_lda, op_lhld, op_mov, op_mvi, op_out, op_pop,
    op_pop_psw, op_push, op_push_psw, op_ral, op_rar, op_ret, op_rlc, op_rrc, op_rst, op_shld,
    op_sta, op_xchg, pair_value, psw_byte, read8, reg_code, reg_value, step, wrap16, wrap8,
    CpuState, HALF_FRAME_CYCLES,
};
use crate::opcode::{Register, RegisterPair};

verus! {

/// The two-bit field that names a register pair in an opcode.
pub open spec fn pair_code(rp: RegisterPair) -> int {
    match rp {
        RegisterPair::BC => 0,
        RegisterPair::DE => 1,
        RegisterPair::HL => 2,
        RegisterPair::SP => 3,
    }
}

/// The instruction at PC is `op`.
pub open spec fn at_pc(s: CpuState, op: int) -> bool {
    read8(s, s.pc) == op
}

/// PUSH of a register pair stores it just below the stack pointer, high byte
/// on top; POP of the same pair then leaves the pair and the stack pointer as
/// they were, 21 cycles and two bytes of program later.
pub proof fn law_push_pop(s: CpuState, rp: RegisterPair)
    requires
        s.mem.len() == MEMORY_SIZE,
        rp != RegisterPair::SP,
        at_pc(s, 0xC5 + 16 * pair_code(rp)),
        at_pc(step(s), 0xC1 + 16 * pair_code(rp)),
    ensures
        read8(step(s), wrap16(s.sp - 1)) == pair_value(s, rp) / 256,
        read8(step(s), wrap16(s.sp - 2)) == pair_value(s, rp) % 256,
        pair_value(step(step(s)), rp) == pair_value(s, rp),
        step(step(s)).sp == s.sp,
        step(step(s)).pc == wrap16(step(s).pc + 1),
        step(step(s)).cycles == s.cycles + 21,
{
    let t = step(s);
    reveal(execute);
    reveal(op_push);
    reveal(op_pop);
    let sp1 = wrap16(s.sp - 1);
    let sp2 = wrap16(s.sp - 2);
    assert(wrap16(sp2 + 1) == sp1);
    assert(wrap16(sp2 + 2) == s.sp);
    assert(sp1 != sp2);
    let w = pair_value(s, rp);
    assert(word((w / 256) as u8, (w % 256) as u8) == w);
}

/// CALL stores the address of the next instruction just below the stack
/// pointer, high byte on top; a RET at the called address comes back to it
/// with the stack pointer as it was, 27 cycles later.
pub proof fn law_call_ret(s: CpuState)
    requires
        s.mem.len() == MEMORY_SIZE,
        at_pc(s, 0xCD),
        at_pc(step(s), 0xC9),
    ensures
        step(s).pc == imm16(s),
        read8(step(s), wrap16(s.sp - 1)) == wrap16(s.pc + 3) / 256,
        read8(step(s), wrap16(s.sp - 2)) == wrap16(s.pc + 3) % 256,
        step(step(s)).pc == wrap16(s.pc + 3),
        step(step(s)).sp == s.sp,
        step(step(s)).cycles == s.cycles + 27,
{
    reveal(execute);
    reveal(op_call_if);
    reveal(op_ret);
    let sp1 = wrap16(s.sp - 1);
    let sp2 = wrap16(s.sp - 2);
    assert(wrap16(sp2 + 1) == sp1);
    assert(wrap16(sp2 + 2) == s.sp);
    assert(sp1 != sp2);
    let w = wrap16(s.pc + 3);
    assert(word((w / 256) as u8, (w % 256) as u8) == w);
}

/// RST n jumps to address 8n, and a RET there comes back to the
/// instruction after the RST with the stack pointer as it was.
pub proof fn law_rst_ret(s: CpuState, n: u8)
    requires
        s.mem.len() == MEMORY_SIZE,
        n < 8,
        at_pc(s, 0xC7 + 8 * n),
        at_pc(step(s), 0xC9),
    ensures
        step(s).pc == 8 * n,
        step(step(s)).pc == wrap16(s.pc + 1),
        step(step(s)).sp == s.sp,
{
    reveal(execute);
    reveal(op_rst);
    reveal(op_ret);
    let sp1 = wrap16(s.sp - 1);
    let sp2 = wrap16(s.sp - 2);
    assert(wrap16(sp2 + 1) == sp1);
    assert(wrap16(sp2 + 2) == s.sp);
    assert(sp1 != sp2);
    let w = wrap16(s.pc + 1);
    assert(word((w / 256) as u8, (w % 256) as u8) == w);
}

/// XCHG twice leaves HL and DE as they were.
pub proof fn law_xchg_twice(s: CpuState)
    requires
        at_pc(s, 0xEB),
        at_pc(step(s), 0xEB),
    ensures
        step(step(s)).reg_h == s.reg_h,
        step(step(s)).reg_l == s.reg_l,
        step(step(s)).reg_d == s.reg_d,
        step(step(s)).reg_e == s.reg_e,
{
    reveal(execute);
    reveal(op_xchg);
}

/// CMA twice leaves the accumulator as it was.
pub proof fn law_cma_twice(s: CpuState)
    requires
        at_pc(s, 0x2F),
        at_pc(step(s), 0x2F),
    ensures
        step(step(s)).reg_a == s.reg_a,
{
    reveal(execute);
    reveal(op_cma);
}

/// RLC followed by RRC leaves the accumulator as it was.
pub proof fn law_rlc_rrc(s: CpuState)
    requires
        at_pc(s, 0x07),
        at_pc(step(s), 0x0F),
    ensures
        step(step(s)).reg_a == s.reg_a,
{
    reveal(execute);
    reveal(op_rlc);
    reveal(op_rrc);
}

/// RAL followed by RAR leaves the accumulator and the carry as they were:
/// the two rotate the nine bits of carry and accumulator one way and back.
pub proof fn law_ral_rar(s: CpuState)
    requires
        at_pc(s, 0x17),
        at_pc(step(s), 0x1F),
    ensures
        step(step(s)).reg_a == s.reg_a,
        step(step(s)).carry == s.carry,
{
    reveal(execute);
    reveal(op_ral);
    reveal(op_rar);
}

/// INX followed by DCX of the same pair leaves the pair as it was.
pub proof fn law_inx_dcx(s: CpuState, rp: RegisterPair)
    requires
        at_pc(s, 0x03 + 16 * pair_code(rp)),
        at_pc(step(s), 0x0B + 16 * pair_code(rp)),
    ensures
        pair_value(step(step(s)), rp) == pair_value(s, rp),
{
    reveal(execute);
    reveal(op_inx);
    reveal(op_dcx);
    let v = pair_value(s, rp);
    let w = wrap16(v + 1);
    assert(wrap16(w - 1) == v);
    assert(word((w / 256) as u8, (w % 256) as u8) == w);
    assert(word((v / 256) as u8, (v % 256) as u8) == v);
    match rp {
        RegisterPair::BC => assert(at_pc(s, 0x03)),
        RegisterPair::DE => assert(at_pc(s, 0x13)),
        RegisterPair::HL => assert(at_pc(s, 0x23)),
        RegisterPair::SP => assert(at_pc(s, 0x33)),
    }
}

/// LHLD from the address that SHLD stored HL to reads HL back.
pub proof fn law_shld_lhld(s: CpuState)
    requires
        s.mem.len() == MEMORY_SIZE,
        at_pc(s, 0x22),
        at_pc(step(s), 0x2A),
        imm16(step(s)) == imm16(s),
    ensures
        step(step(s)).reg_h == s.reg_h,
        step(step(s)).reg_l == s.reg_l,
{
    reveal(execute);
    reveal(op_shld);
    reveal(op_lhld);
    let a = imm16(s);
    assert(wrap16(a + 1) != a);
}

/// LDA from the address that STA stored A to reads A back.
pub proof fn law_sta_lda(s: CpuState)
    requires
        s.mem.len() == MEMORY_SIZE,
        at_pc(s, 0x32),
        at_pc(step(s), 0x3A),
        imm16(step(s)) == imm16(s),
    ensures
        step(step(s)).reg_a == s.reg_a,
{
    reveal(execute);
    reveal(op_sta);
    reveal(op_lda);
}

/// XRA A clears the accumulator and the carry and sets zero and even parity.
pub proof fn law_xra_a_clears(s: CpuState)
    requires
        at_pc(s, 0xAF),
    ensures
        step(s).reg_a == 0,
        step(s).zero,
        step(s).parity,
        !step(s).sign,
        !step(s).carry,
{
    reveal(execute);
    reveal(op_alu_reg);
    assert(s.reg_a ^ s.reg_a == 0) by (bit_vector);
    assert(even_parity(0));
}

/// CMP sets the flags and leaves the accumulator alone, whatever the
/// operand.
pub proof fn law_compare_keeps_a(s: CpuState, src: u8)
    requires
        0xB8 <= src <= 0xBF,
        at_pc(s, src as int),
    ensures
        step(s).reg_a == s.reg_a,
{
    reveal(execute);
    reveal(op_alu_reg);
}

/// PUSH PSW stores the accumulator and the flag byte (S Z 0 AC 0 P 1 CY)
/// just below the stack pointer; POP PSW then leaves the accumulator, the
/// five flags and the stack pointer as they were, 22 cycles later.
pub proof fn law_push_pop_psw(s: CpuState)
    requires
        s.mem.len() == MEMORY_SIZE,
        at_pc(s, 0xF5),
        at_pc(step(s), 0xF1),
    ensures
        read8(step(s), wrap16(s.sp - 1)) == s.reg_a,
        read8(step(s), wrap16(s.sp - 2)) == psw_byte(s),
        step(step(s)).reg_a == s.reg_a,
        step(step(s)).sign == s.sign,
        step(step(s)).zero == s.zero,
        step(step(s)).half_carry == s.half_carry,
        step(step(s)).parity == s.parity,
        step(step(s)).carry == s.carry,
        step(step(s)).sp == s.sp,
        step(step(s)).cycles == s.cycles + 22,
{
    reveal(execute);
    reveal(op_push_psw);
    reveal(op_pop_psw);
    let sp1 = wrap16(s.sp - 1);
    let sp2 = wrap16(s.sp - 2);
    assert(wrap16(sp2 + 1) == sp1);
    assert(wrap16(sp2 + 2) == s.sp);
    assert(sp1 != sp2);
}

/// The shift register: after OUT 4 writes the accumulator into the top of
/// the 16-bit latch (its old top moving to the bottom), IN 3 reads the eight
/// bits of the latch that start `8 - offset` bits from its bottom, the offset
/// being what OUT 2 last wrote.
pub proof fn law_shift_register(s: CpuState)
    requires
        at_pc(s, 0xD3),
        imm8(s) == 4,
        at_pc(step(s), 0xDB),
        imm8(step(s)) == 3,
    ensures
        step(step(s)).reg_a == ((word(s.reg_a, s.port_4_out_high) >> (8 - (s.port_2_out & 7)) as u16)
            & 0xFF) as u8,
{
    reveal(execute);
    reveal(op_out);
    reveal(op_in);
}

/// With interrupts disabled the timer never moves the program: PC, the stack
/// pointer and memory stay as they are. When it does take an interrupt, it
/// leaves interrupts disabled.
pub proof fn law_timer_respects_disable(s: CpuState)
    ensures
        !s.interrupt ==> interrupt_tick(s).pc == s.pc && interrupt_tick(s).sp == s.sp
            && interrupt_tick(s).mem == s.mem,
        interrupt_tick(s).pc != s.pc ==> !interrupt_tick(s).interrupt,
{
}

/// Taking a key back out of the ports undoes pressing it.
proof fn lemma_reset_undoes_press(k: Keypad, p1: u8, p2: u8, key: Key)
    ensures
        cleared_port_1(k, press(k, p1, p2, key).0) == cleared_port_1(k, p1),
        cleared_port_2(k, press(k, p1, p2, key).1) == cleared_port_2(k, p2),
{
    let (c, l, r, f, st) = (k.credit, k.p1_left, k.p1_right, k.p1_fire, k.p1_start);
    let (s2, ci) = (k.p2_start, k.coin_info);
    assert(forall|x: u8, b: u8|
        #![trigger x | b]
        (b == c || b == l || b == r || b == f || b == st) ==> (x | b) & !c & !l & !r & !f & !st
            == x & !c & !l & !r & !f & !st) by (bit_vector);
    assert(forall|x: u8, b: u8|
        #![trigger x | b]
        (b == s2 || b == ci) ==> (x | b) & !s2 & !ci == x & !s2 & !ci) by (bit_vector);
}

/// Clearing the ports, as is done every few frames, undoes every key press
/// since the last clearing: what the ports hold afterwards does not depend on
/// the keys.
pub proof fn law_reset_undoes_keys(k: Keypad, p1: u8, p2: u8, keys: Seq<Key>)
    ensures
        cleared_port_1(k, keys_down(k, p1, p2, keys).0) == cleared_port_1(k, p1),
        cleared_port_2(k, keys_down(k, p1, p2, keys).1) == cleared_port_2(k, p2),
    decreases keys.len(),
{
    if keys.len() > 0 && keys[0] != Key::Escape {
        let (q1, q2) = press(k, p1, p2, keys[0]);
        lemma_reset_undoes_press(k, p1, p2, keys[0]);
        law_reset_undoes_keys(k, q1, q2, keys.drop_first());
    }
}

/// Releasing a key right after pressing it leaves the ports as releasing it
/// alone would: a press leaves no trace once the key is up.
pub proof fn law_release_undoes_press(k: Keypad, p1: u8, p2: u8, key: Key)
    ensures
        ({
            let (q1, q2) = press(k, p1, p2, key);
            release(k, q1, q2, key) == release(k, p1, p2, key)
        }),
{
    assert(forall|x: u8, b: u8| #[trigger] ((x | b) & !b) == x & !b) by (bit_vector);
}

/// The picture depends on video memory alone: two memories that agree on
/// 0x2400..0x4000 give the same picture.
pub proof fn law_picture_from_vram(m1: Seq<u8>, m2: Seq<u8>, y: int, col: int, shift: int)
    requires
        forall|a: int| VRAM_START <= a < 0x4000 ==> m1[a] == m2[a],
        0 <= y < 224,
        0 <= col < 32,
        0 <= shift < 8,
    ensures
        vram_pixel(m1, y, col, shift) == vram_pixel(m2, y, col, shift),
{
    assert(VRAM_START + 32 * y + col < 0x4000);
}

/// HLT stops the processor where it stands: PC stays on the HLT.
pub proof fn law_hlt_halts(s: CpuState)
    requires
        at_pc(s, 0x76),
    ensures
        step(s).halted,
        step(s).pc == s.pc,
{
    reveal(execute);
    reveal(op_hlt);
}

/// A byte of two decimal digits, one in each half.
pub open spec fn is_bcd(v: u8) -> bool {
    v % 16 <= 9 && v / 16 <= 9
}

/// The number that a two-digit decimal byte stands for.
pub open spec fn bcd_value(v: u8) -> int {
    10 * (v / 16) + v % 16
}

proof fn lemma_bcd_add_adjust(
    a: u16,
    b: u16,
    r: u16,
    half: bool,
    carry_in: bool,
    carry_out: bool,
    low_fix: u16,
    high_fix: u16,
    res: u16,
)
    by (bit_vector)
    requires
        a % 16 <= 9,
        a / 16 <= 9,
        b % 16 <= 9,
        b / 16 <= 9,
        r == ((a + b) % 256) as u16,
        carry_in == ((a + b) as u16 > 255u16),
        half == ((a % 16 + b % 16) as u16 > 15u16),
        carry_out == (carry_in || r / 16 > 9 || (r / 16 >= 9 && r % 16 > 9)),
        low_fix == if half || r % 16 > 9 {
            6u16
        } else {
            0u16
        },
        high_fix == if carry_out {
            0x60u16
        } else {
            0u16
        },
        res == ((r + low_fix + high_fix) % 256) as u16,
    ensures
        res % 16 <= 9,
        res / 16 <= 9,
        (10 * (res / 16) + res % 16) as u16 == ((10 * (a / 16) + a % 16 + 10 * (b / 16) + b % 16)
            % 100) as u16,
        carry_out == ((10 * (a / 16) + a % 16 + 10 * (b / 16) + b % 16) as u16 >= 100u16),
{
}

proof fn lemma_add_b(s: CpuState)
    requires
        at_pc(s, 0x80),
    ensures
        step(s).reg_a == (s.reg_a + s.reg_b) % 256,
        step(s).carry == (s.reg_a + s.reg_b > 255),
        step(s).half_carry == (s.reg_a % 16 + s.reg_b % 16 > 15),
{
    reveal(execute);
    reveal(op_alu_reg);
}

proof fn lemma_daa_step(t: CpuState)
    requires
        at_pc(t, 0x27),
    ensures
        ({
            let low = t.reg_a % 16;
            let high = t.reg_a / 16;
            let low_fix: int = if t.half_carry || low > 9 {
                6
            } else {
                0
            };
            let carry_out = t.carry || high > 9 || (high >= 9 && low > 9);
            let high_fix: int = if carry_out {
                0x60
            } else {
                0
            };
            &&& step(t).reg_a == (t.reg_a + low_fix + high_fix) % 256
            &&& step(t).carry == carry_out
            &&& step(t).zero == (step(t).reg_a == 0)
            &&& step(t).sign == (step(t).reg_a >= 128)
            &&& step(t).parity == even_parity(step(t).reg_a)
        }),
{
    reveal(execute);
    reveal(op_daa);
}

/// ADD of two decimal bytes followed by DAA leaves in A the decimal digits of
/// the sum below 100, the carry set when the sum reaches 100, zero set when
/// those digits are 00, and sign and parity those of the adjusted A.
pub proof fn law_add_daa(s: CpuState)
    requires
        at_pc(s, 0x80),
        at_pc(step(s), 0x27),
        is_bcd(s.reg_a),
        is_bcd(s.reg_b),
    ensures
        is_bcd(step(step(s)).reg_a),
        bcd_value(step(step(s)).reg_a) == (bcd_value(s.reg_a) + bcd_value(s.reg_b)) % 100,
        step(step(s)).carry == (bcd_value(s.reg_a) + bcd_value(s.reg_b) >= 100),
        step(step(s)).zero == ((bcd_value(s.reg_a) + bcd_value(s.reg_b)) % 100 == 0),
        step(step(s)).sign == (step(step(s)).reg_a >= 128),
        step(step(s)).parity == even_parity(step(step(s)).reg_a),
{
    let t = step(s);
    let u = step(t);
    lemma_add_b(s);
    lemma_daa_step(t);
    lemma_bcd_add_adjust(
        s.reg_a as u16,
        s.reg_b as u16,
        t.reg_a as u16,
        t.half_carry,
        t.carry,
        u.carry,
        if t.half_carry || t.reg_a % 16 > 9 {
            6u16
        } else {
            0u16
        },
        if u.carry {
            0x60u16
        } else {
            0u16
        },
        u.reg_a as u16,
    );
}

proof fn lemma_decode_inr_dcr(s: CpuState, n: u8)
    requires
        n < 8,
    ensures
        execute(s, (0x04 + 8 * n) as u8) == op_inr(s, reg_code(n as int)),
        execute(s, (0x05 + 8 * n) as u8) == op_dcr(s, reg_code(n as int)),
{
    reveal(execute);
    if n == 0 {
    } else if n == 1 {
    } else if n == 2 {
    } else if n == 3 {
    } else if n == 4 {
    } else if n == 5 {
    } else if n == 6 {
    } else {
    }
}

/// What INR then DCR of operand `r` do, whatever is recorded as the opcode
/// in between.
proof fn lemma_inr_dcr_model(s: CpuState, r: Register, op: u8, text: Seq<char>)
    requires
        s.mem.len() == MEMORY_SIZE,
    ensures
        ({
            let t = CpuState { opcode: op, current_instruction: text, ..op_inr(s, r) };
            let u = op_dcr(t, r);
            &&& reg_value(u, r) == reg_value(s, r)
            &&& u.zero == (reg_value(s, r) == 0)
            &&& u.sign == (reg_value(s, r) >= 0x80)
            &&& u.parity == even_parity(reg_value(s, r))
            &&& u.carry == s.carry
            &&& u.pc == wrap16(t.pc + 1)
            &&& u.mem == s.mem
            &&& u.cycles == s.cycles + if r == Register::M {
                16int
            } else {
                10int
            }
        }),
{
    reveal(op_inr);
    reveal(op_dcr);
    let v = reg_value(s, r);
    let v1 = wrap8(v + 1);
    assert(wrap8(v1 - 1) == v);
    if r == Register::M {
        let a = hl(s) as int;
        assert(s.mem.update(a, v1).update(a, v) =~= s.mem);
    }
    match r {
        Register::A => {},
        Register::B => {},
        Register::C => {},
        Register::D => {},
        Register::E => {},
        Register::H => {},
        Register::L => {},
        Register::M => {},
    }
}

/// INR followed by DCR of the same operand leaves it as it was, with the
/// sign, zero and parity flags of its value, the carry and memory untouched,
/// in 10 cycles (16 for M).
pub proof fn law_inr_dcr(s: CpuState, n: u8)
    requires
        s.mem.len() == MEMORY_SIZE,
        n < 8,
        at_pc(s, 0x04 + 8 * n),
        at_pc(step(s), 0x05 + 8 * n),
    ensures
        reg_value(step(step(s)), reg_code(n as int)) == reg_value(s, reg_code(n as int)),
        step(step(s)).zero == (reg_value(s, reg_code(n as int)) == 0),
        step(step(s)).sign == (reg_value(s, reg_code(n as int)) >= 0x80),
        step(step(s)).parity == even_parity(reg_value(s, reg_code(n as int))),
        step(step(s)).carry == s.carry,
        step(step(s)).pc == wrap16(step(s).pc + 1),
        step(step(s)).mem == s.mem,
        step(step(s)).cycles == s.cycles + if n == 6 {
            16int
        } else {
            10int
        },
{
    let t = step(s);
    let r = reg_code(n as int);
    lemma_decode_inr_dcr(s, n);
    lemma_decode_inr_dcr(t, n);
    lemma_inr_dcr_model(s, r, t.opcode, t.current_instruction);
}

proof fn lemma_decode_mov(s: CpuState, src: u8, dst: u8)
    requires
        src < 8 && src != 6,
        dst < 8 && dst != 6,
    ensures
        execute(s, (0x70 + src) as u8) == op_mov(s, Register::M, reg_code(src as int)),
        execute(s, (0x46 + 8 * dst) as u8) == op_mov(s, reg_code(dst as int), Register::M),
{
    reveal(execute);
    assert(((0x70 + src) as u8) / 8 % 8 == 6);
    assert(((0x70 + src) as u8) % 8 == src);
    assert(((0x46 + 8 * dst) as u8) / 8 % 8 == dst);
    assert(((0x46 + 8 * dst) as u8) % 8 == 6);
}

/// MOV M,r stores register r at the address in HL, and MOV r2,M loads it
/// back into register r2, in 14 cycles.
pub proof fn law_store_load_through_m(s: CpuState, src: u8, dst: u8)
    requires
        s.mem.len() == MEMORY_SIZE,
        src < 8 && src != 6,
        dst < 8 && dst != 6,
        at_pc(s, 0x70 + src),
        at_pc(step(s), 0x46 + 8 * dst),
    ensures
        read8(step(step(s)), hl(s)) == reg_value(s, reg_code(src as int)),
        reg_value(step(step(s)), reg_code(dst as int)) == reg_value(s, reg_code(src as int)),
        step(step(s)).pc == wrap16(step(s).pc + 1),
        step(step(s)).cycles == s.cycles + 14,
{
    let t = step(s);
    lemma_decode_mov(s, src, dst);
    lemma_decode_mov(t, src, dst);
    reveal(op_mov);
}

/// Two writes to port 4 fill the shift register's 16-bit latch: the second
/// byte written is its top and the first its bottom. (Here the accumulator
/// is loaded with MVI between the two OUT 4.)
pub proof fn law_two_writes_fill_the_latch(s: CpuState)
    requires
        at_pc(s, 0xD3),
        imm8(s) == 4,
        at_pc(step(s), 0x3E),
        at_pc(step(step(s)), 0xD3),
        imm8(step(step(s))) == 4,
    ensures
        step(step(step(s))).port_4_out_high == imm8(step(s)),
        step(step(step(s))).port_4_out_low == s.reg_a,
        step(step(step(s))).mem == s.mem,
        step(step(step(s))).cycles == s.cycles + 27,
{
    reveal(execute);
    reveal(op_out);
    reveal(op_mvi);
}

/// An interrupt pushes the address of the instruction it cut in front of,
/// so a RET at the interrupt vector comes back to that instruction with the
/// stack pointer as it was.
pub proof fn law_interrupt_ret(s: CpuState)
    requires
        s.mem.len() == MEMORY_SIZE,
        s.interrupt,
        s.cycles > HALF_FRAME_CYCLES,
        s.interrupt_addr == 0x08 || s.interrupt_addr == 0x10,
        at_pc(interrupt_tick(s), 0xC9),
    ensures
        interrupt_tick(s).pc == (if s.interrupt_addr == 0x10 {
            0x08int
        } else {
            0x10int
        }),
        !interrupt_tick(s).interrupt,
        step(interrupt_tick(s)).pc == s.pc,
        step(interrupt_tick(s)).sp == s.sp,
{
    reveal(execute);
    reveal(op_ret);
    let sp1 = wrap16(s.sp - 1);
    let sp2 = wrap16(s.sp - 2);
    assert(wrap16(sp2 + 1) == sp1);
    assert(wrap16(sp2 + 2) == s.sp);
    assert(sp1 != sp2);
    let w = s.pc;
    assert(word((w / 256) as u8, (w % 256) as u8) == w);
}

} // verus!
