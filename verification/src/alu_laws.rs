//! What the arithmetic and logic instructions compute, stated as arithmetic
//! on the accumulator and the operand, over `step` (what
//! `execute_instruction` does).
use vstd::prelude::*;
use crate::memory::MEMORY_SIZE;
use crate::laws::pair_code;
use crate::model::{
    alu, even_parity, execute, hl, imm8, op_alu_imm, op_alu_reg, op_cma, op_cmc, op_dad, op_dcr,
    op_inr, op_ral, op_rar, op_rlc, op_rrc, op_stc, pair_value, read8, reg_code, reg_value, step,
    wrap16, CpuState,
};
use crate::opcode::RegisterPair;

verus! {

/// Opcode `op` is accumulator operation number `kind` (ADD, ADC, SUB, SBB,
/// ANA, XRA, ORA, CMP): with a register or M (0x80..0xBF) or with the byte
/// after the opcode (ADI, ACI, SUI, SBI, ANI, XRI, ORI, CPI).
pub open spec fn is_alu_op(op: u8, kind: int) -> bool {
    (0x80 <= op < 0xC0 && (op / 8) % 8 == kind) || op == 0xC6 + 8 * kind
}

/// The operand of the accumulator instruction at PC: the register (or M)
/// named by its low three bits, or the byte after the opcode.
pub open spec fn alu_operand(s: CpuState) -> u8 {
    let op = read8(s, s.pc);
    if op < 0xC0 {
        reg_value(s, reg_code((op % 8) as int))
    } else {
        imm8(s)
    }
}

/// Length of the accumulator instruction at PC.
pub open spec fn alu_len(s: CpuState) -> int {
    if read8(s, s.pc) < 0xC0 {
        1
    } else {
        2
    }
}

/// Sign, zero and parity flags of `t` are those of the byte `r`.
pub open spec fn flags_of(t: CpuState, r: int) -> bool {
    &&& t.zero == (r == 0)
    &&& t.sign == (r >= 128)
    &&& t.parity == even_parity(r as u8)
}

proof fn lemma_decode_alu(s: CpuState, kind: int)
    requires
        0 <= kind < 8,
        is_alu_op(read8(s, s.pc), kind),
    ensures
        ({
            let t = step(s);
            let a = alu(s, kind, alu_operand(s));
            &&& t.reg_a == a.reg_a
            &&& t.carry == a.carry
            &&& t.half_carry == a.half_carry
            &&& t.zero == a.zero
            &&& t.sign == a.sign
            &&& t.parity == a.parity
            &&& t.pc == wrap16(s.pc + alu_len(s))
            &&& t.mem == s.mem
            &&& t.reg_b == s.reg_b && t.reg_c == s.reg_c && t.reg_d == s.reg_d
            &&& t.reg_e == s.reg_e && t.reg_h == s.reg_h && t.reg_l == s.reg_l
            &&& t.sp == s.sp
        }),
{
    let op = read8(s, s.pc);
    reveal(execute);
    reveal(op_alu_reg);
    reveal(op_alu_imm);
    if op < 0xC0 {
    } else if kind == 0 {
        assert(op == 0xC6);
    } else if kind == 1 {
        assert(op == 0xCE);
    } else if kind == 2 {
        assert(op == 0xD6);
    } else if kind == 3 {
        assert(op == 0xDE);
    } else if kind == 4 {
        assert(op == 0xE6);
    } else if kind == 5 {
        assert(op == 0xEE);
    } else if kind == 6 {
        assert(op == 0xF6);
    } else {
        assert(op == 0xFE);
    }
}

/// ADD and ADI: A becomes A + v modulo 256; carry is set when the sum passes
/// 255 and the auxiliary carry when the low digits' sum passes 15.
pub proof fn law_add(s: CpuState)
    requires
        is_alu_op(read8(s, s.pc), 0),
    ensures
        ({
            let (a, v, t) = (s.reg_a as int, alu_operand(s) as int, step(s));
            &&& t.reg_a == (a + v) % 256
            &&& t.carry == (a + v > 255)
            &&& t.half_carry == (a % 16 + v % 16 > 15)
            &&& flags_of(t, (a + v) % 256)
        }),
{
    lemma_decode_alu(s, 0);
}

/// ADC and ACI: as ADD, with the incoming carry added as well.
pub proof fn law_adc(s: CpuState)
    requires
        is_alu_op(read8(s, s.pc), 1),
    ensures
        ({
            let (a, v, t) = (s.reg_a as int, alu_operand(s) as int, step(s));
            let c: int = if s.carry {
                1
            } else {
                0
            };
            &&& t.reg_a == (a + v + c) % 256
            &&& t.carry == (a + v + c > 255)
            &&& t.half_carry == (a % 16 + v % 16 + c > 15)
            &&& flags_of(t, (a + v + c) % 256)
        }),
{
    lemma_decode_alu(s, 1);
}

/// SUB and SUI: A becomes A - v modulo 256; carry is set when v is larger
/// than A (a borrow), the auxiliary carry when A's low digit is not smaller
/// than v's.
pub proof fn law_sub(s: CpuState)
    requires
        is_alu_op(read8(s, s.pc), 2),
    ensures
        ({
            let (a, v, t) = (s.reg_a as int, alu_operand(s) as int, step(s));
            &&& t.reg_a == (a - v + 256) % 256
            &&& t.carry == (a < v)
            &&& t.half_carry == (a % 16 >= v % 16)
            &&& flags_of(t, (a - v + 256) % 256)
        }),
{
    lemma_decode_alu(s, 2);
}

/// SBB and SBI: as SUB, with the incoming carry subtracted as a borrow.
pub proof fn law_sbb(s: CpuState)
    requires
        is_alu_op(read8(s, s.pc), 3),
    ensures
        ({
            let (a, v, t) = (s.reg_a as int, alu_operand(s) as int, step(s));
            let c: int = if s.carry {
                1
            } else {
                0
            };
            &&& t.reg_a == (a - v - c + 512) % 256
            &&& t.carry == (a < v + c)
            &&& t.half_carry == (a % 16 >= v % 16 + c)
            &&& flags_of(t, (a - v - c + 512) % 256)
        }),
{
    lemma_decode_alu(s, 3);
    let c: int = if s.carry {
        1
    } else {
        0
    };
    let d = s.reg_a - alu_operand(s) - c;
    vstd::arithmetic::div_mod::lemma_mod_add_multiples_vanish(d, 256);
    vstd::arithmetic::div_mod::lemma_mod_add_multiples_vanish(256 + d, 256);
    assert((d + 512) % 256 == d % 256);
}

/// ANA and ANI: A becomes A AND v; carry is cleared, and the auxiliary
/// carry is bit 3 of A OR v.
pub proof fn law_ana(s: CpuState)
    requires
        is_alu_op(read8(s, s.pc), 4),
    ensures
        ({
            let (a, v, t) = (s.reg_a, alu_operand(s), step(s));
            &&& t.reg_a == a & v
            &&& !t.carry
            &&& t.half_carry == ((a | v) & 8 == 8)
            &&& flags_of(t, (a & v) as int)
        }),
{
    lemma_decode_alu(s, 4);
    let (a, v) = (s.reg_a, alu_operand(s));
    assert(((a | v) & 0x08 != 0) == ((a | v) & 8 == 8)) by (bit_vector);
}

/// XRA and XRI: A becomes A XOR v; both carries are cleared.
pub proof fn law_xra(s: CpuState)
    requires
        is_alu_op(read8(s, s.pc), 5),
    ensures
        ({
            let (a, v, t) = (s.reg_a, alu_operand(s), step(s));
            &&& t.reg_a == a ^ v
            &&& !t.carry
            &&& !t.half_carry
            &&& flags_of(t, (a ^ v) as int)
        }),
{
    lemma_decode_alu(s, 5);
}

/// ORA and ORI: A becomes A OR v; both carries are cleared.
pub proof fn law_ora(s: CpuState)
    requires
        is_alu_op(read8(s, s.pc), 6),
    ensures
        ({
            let (a, v, t) = (s.reg_a, alu_operand(s), step(s));
            &&& t.reg_a == a | v
            &&& !t.carry
            &&& !t.half_carry
            &&& flags_of(t, (a | v) as int)
        }),
{
    lemma_decode_alu(s, 6);
}

/// CMP and CPI compare A with v and keep A: zero is set exactly when they
/// are equal and carry exactly when A is smaller, whatever the carry was;
/// sign and parity are those of A - v.
pub proof fn law_compare(s: CpuState)
    requires
        is_alu_op(read8(s, s.pc), 7),
    ensures
        ({
            let (a, v, t) = (s.reg_a as int, alu_operand(s) as int, step(s));
            &&& t.reg_a == a
            &&& t.zero == (a == v)
            &&& t.carry == (a < v)
            &&& t.sign == ((a - v + 256) % 256 >= 128)
            &&& t.parity == even_parity(((a - v + 256) % 256) as u8)
        }),
{
    lemma_decode_alu(s, 7);
    let d = s.reg_a - alu_operand(s);
    vstd::arithmetic::div_mod::lemma_mod_add_multiples_vanish(d, 256);
    assert((d + 256) % 256 == d % 256);
}

/// Every accumulator instruction moves PC past itself and its operand, and
/// leaves memory, the other registers and the stack pointer alone.
pub proof fn law_alu_leaves_the_rest(s: CpuState, kind: int)
    requires
        0 <= kind < 8,
        is_alu_op(read8(s, s.pc), kind),
    ensures
        step(s).pc == wrap16(s.pc + alu_len(s)),
        step(s).mem == s.mem,
        step(s).reg_b == s.reg_b && step(s).reg_c == s.reg_c,
        step(s).reg_d == s.reg_d && step(s).reg_e == s.reg_e,
        step(s).reg_h == s.reg_h && step(s).reg_l == s.reg_l,
        step(s).sp == s.sp,
{
    lemma_decode_alu(s, kind);
}

/// The parity flag's rule: zero has even parity, and flipping any one bit
/// flips the parity.
pub proof fn law_parity(v: u8, i: u8)
    requires
        i < 8,
    ensures
        even_parity(0),
        even_parity(v ^ (1u8 << i)) == !even_parity(v),
{
    let w = v ^ (1u8 << i);
    assert(((w % 2 + (w / 2) % 2 + (w / 4) % 2 + (w / 8) % 2 + (w / 16) % 2 + (w / 32) % 2 + (w
        / 64) % 2 + (w / 128) % 2) % 2 == 0) != ((v % 2 + (v / 2) % 2 + (v / 4) % 2 + (v / 8) % 2
        + (v / 16) % 2 + (v / 32) % 2 + (v / 64) % 2 + (v / 128) % 2) % 2 == 0)) by (bit_vector)
        requires
            i < 8,
            w == v ^ (1u8 << i),
    ;
}

proof fn lemma_decode_inr_dcr_at(s: CpuState, n: u8)
    requires
        n < 8,
    ensures
        read8(s, s.pc) == 0x04 + 8 * n ==> step(s).mem == op_inr(s, reg_code(n as int)).mem
            && step(s).reg_a == op_inr(s, reg_code(n as int)).reg_a
            && step(s).reg_b == op_inr(s, reg_code(n as int)).reg_b
            && step(s).reg_c == op_inr(s, reg_code(n as int)).reg_c
            && step(s).reg_d == op_inr(s, reg_code(n as int)).reg_d
            && step(s).reg_e == op_inr(s, reg_code(n as int)).reg_e
            && step(s).reg_h == op_inr(s, reg_code(n as int)).reg_h
            && step(s).reg_l == op_inr(s, reg_code(n as int)).reg_l
            && step(s).carry == op_inr(s, reg_code(n as int)).carry
            && step(s).half_carry == op_inr(s, reg_code(n as int)).half_carry
            && step(s).zero == op_inr(s, reg_code(n as int)).zero
            && step(s).sign == op_inr(s, reg_code(n as int)).sign
            && step(s).parity == op_inr(s, reg_code(n as int)).parity
            && step(s).pc == op_inr(s, reg_code(n as int)).pc,
        read8(s, s.pc) == 0x05 + 8 * n ==> step(s).mem == op_dcr(s, reg_code(n as int)).mem
            && step(s).reg_a == op_dcr(s, reg_code(n as int)).reg_a
            && step(s).reg_b == op_dcr(s, reg_code(n as int)).reg_b
            && step(s).reg_c == op_dcr(s, reg_code(n as int)).reg_c
            && step(s).reg_d == op_dcr(s, reg_code(n as int)).reg_d
            && step(s).reg_e == op_dcr(s, reg_code(n as int)).reg_e
            && step(s).reg_h == op_dcr(s, reg_code(n as int)).reg_h
            && step(s).reg_l == op_dcr(s, reg_code(n as int)).reg_l
            && step(s).carry == op_dcr(s, reg_code(n as int)).carry
            && step(s).half_carry == op_dcr(s, reg_code(n as int)).half_carry
            && step(s).zero == op_dcr(s, reg_code(n as int)).zero
            && step(s).sign == op_dcr(s, reg_code(n as int)).sign
            && step(s).parity == op_dcr(s, reg_code(n as int)).parity
            && step(s).pc == op_dcr(s, reg_code(n as int)).pc,
{
    reveal(execute);
    if n == 0 {
    } else if n == 1 {
    } else if n == 2 {
    } else if n == 3 {
    } else if n == 4 {
    } else if n == 5 {
    } else if n == 6 {
    } else {
    }
}

/// INR adds one to its operand (a register or M) modulo 256, keeps the
/// carry, and sets the auxiliary carry when the low digit was 15.
pub proof fn law_inr(s: CpuState, n: u8)
    requires
        s.mem.len() == MEMORY_SIZE,
        n < 8,
        read8(s, s.pc) == 0x04 + 8 * n,
    ensures
        ({
            let (r, v, t) = (reg_code(n as int), reg_value(s, reg_code(n as int)) as int, step(s));
            &&& reg_value(t, r) == (v + 1) % 256
            &&& t.carry == s.carry
            &&& t.half_carry == (v % 16 == 15)
            &&& flags_of(t, (v + 1) % 256)
            &&& t.pc == wrap16(s.pc + 1)
        }),
{
    lemma_decode_inr_dcr_at(s, n);
    reveal(op_inr);
}

/// DCR takes one from its operand (a register or M) modulo 256, keeps the
/// carry, and sets the auxiliary carry unless the low digit was 0.
pub proof fn law_dcr(s: CpuState, n: u8)
    requires
        s.mem.len() == MEMORY_SIZE,
        n < 8,
        read8(s, s.pc) == 0x05 + 8 * n,
    ensures
        ({
            let (r, v, t) = (reg_code(n as int), reg_value(s, reg_code(n as int)) as int, step(s));
            &&& reg_value(t, r) == (v + 255) % 256
            &&& t.carry == s.carry
            &&& t.half_carry == (v % 16 != 0)
            &&& flags_of(t, (v + 255) % 256)
            &&& t.pc == wrap16(s.pc + 1)
        }),
{
    lemma_decode_inr_dcr_at(s, n);
    reveal(op_dcr);
    let v = reg_value(s, reg_code(n as int)) as int;
    vstd::arithmetic::div_mod::lemma_mod_add_multiples_vanish(v - 1, 256);
}

/// DAD adds a register pair to HL modulo 65536; carry is set when the sum
/// passes 0xFFFF, and no other flag changes.
pub proof fn law_dad(s: CpuState, rp: RegisterPair)
    requires
        read8(s, s.pc) == 0x09 + 16 * pair_code(rp),
    ensures
        ({
            let (sum, t) = (hl(s) + pair_value(s, rp), step(s));
            &&& hl(t) == sum % 65536
            &&& t.carry == (sum > 0xFFFF)
            &&& t.zero == s.zero && t.sign == s.sign && t.parity == s.parity
            &&& t.half_carry == s.half_carry
            &&& t.pc == wrap16(s.pc + 1)
        }),
{
    reveal(execute);
    reveal(op_dad);
    let w = (hl(s) + pair_value(s, rp)) % 65536;
    assert(((w / 256) as u8) * 256 + ((w % 256) as u8) == w);
    match rp {
        RegisterPair::BC => assert(read8(s, s.pc) == 0x09),
        RegisterPair::DE => assert(read8(s, s.pc) == 0x19),
        RegisterPair::HL => assert(read8(s, s.pc) == 0x29),
        RegisterPair::SP => assert(read8(s, s.pc) == 0x39),
    }
}

/// The rotates, as bit operations on A: RLC and RRC turn A one place left
/// or right with the bit that falls out going round and into the carry; RAL
/// and RAR turn the nine bits of carry and A. No other flag changes.
pub proof fn law_rotates(s: CpuState)
    requires
        read8(s, s.pc) == 0x07 || read8(s, s.pc) == 0x0F || read8(s, s.pc) == 0x17 || read8(
            s,
            s.pc,
        ) == 0x1F,
    ensures
        ({
            let (a, op, t) = (s.reg_a, read8(s, s.pc), step(s));
            let c: u8 = if s.carry {
                1
            } else {
                0
            };
            &&& op == 0x07 ==> t.reg_a == (a << 1u8) | (a >> 7u8) && t.carry == (a & 0x80 != 0)
            &&& op == 0x0F ==> t.reg_a == (a >> 1u8) | (a << 7u8) && t.carry == (a & 1 != 0)
            &&& op == 0x17 ==> t.reg_a == (a << 1u8) | c && t.carry == (a & 0x80 != 0)
            &&& op == 0x1F ==> t.reg_a == (a >> 1u8) | (c << 7u8) && t.carry == (a & 1 != 0)
            &&& t.zero == s.zero && t.sign == s.sign && t.parity == s.parity
            &&& t.half_carry == s.half_carry
            &&& t.pc == wrap16(s.pc + 1)
        }),
{
    reveal(execute);
    reveal(op_rlc);
    reveal(op_rrc);
    reveal(op_ral);
    reveal(op_rar);
    let a = s.reg_a;
    assert((a << 1u8) | (a >> 7u8) == ((a * 2) % 256 + a / 128) as u8 && (a & 0x80 != 0) == (a
        >= 128)) by (bit_vector);
    assert((a >> 1u8) | (a << 7u8) == (a / 2 + (a % 2) * 128) as u8 && (a & 1 != 0) == (a % 2
        == 1)) by (bit_vector);
    assert((a << 1u8) | 1u8 == ((a * 2) % 256 + 1) as u8 && (a << 1u8) | 0u8 == ((a * 2) % 256)
        as u8) by (bit_vector);
    assert((a >> 1u8) | (1u8 << 7u8) == (a / 2 + 128) as u8 && (a >> 1u8) | (0u8 << 7u8) == (a
        / 2) as u8) by (bit_vector);
}

/// CMA turns every bit of A over; STC sets the carry and CMC turns it over.
/// No other flag changes.
pub proof fn law_complements(s: CpuState)
    requires
        read8(s, s.pc) == 0x2F || read8(s, s.pc) == 0x37 || read8(s, s.pc) == 0x3F,
    ensures
        ({
            let (op, t) = (read8(s, s.pc), step(s));
            &&& op == 0x2F ==> t.reg_a == !s.reg_a && t.carry == s.carry
            &&& op == 0x37 ==> t.carry && t.reg_a == s.reg_a
            &&& op == 0x3F ==> t.carry == !s.carry && t.reg_a == s.reg_a
            &&& t.zero == s.zero && t.sign == s.sign && t.parity == s.parity
            &&& t.half_carry == s.half_carry
        }),
{
    reveal(execute);
    reveal(op_cma);
    reveal(op_stc);
    reveal(op_cmc);
    let a = s.reg_a;
    assert(!a == (255 - a) as u8) by (bit_vector);
}

} // verus!
