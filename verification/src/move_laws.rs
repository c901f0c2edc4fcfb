//! What the data moves do, over `step` (what `execute_instruction` does):
//! MOV, MVI and LXI put exactly their source where their destination names.
use vstd::prelude::*;
use crate::laws::pair_code;
use crate::memory::MEMORY_SIZE;
use crate::model::{
    execute, imm16, imm8, op_lxi, op_mov, op_mvi, pair_value, read8, reg_code, reg_value, step,
    wrap16, CpuState,
};
use crate::opcode::RegisterPair;

verus! {

/// MOV (0x40..0x7F but 0x76): the destination named by bits 3..5 gets the
/// value of the source named by bits 0..2 (M is the byte at HL); no flag
/// changes and PC moves on by one.
pub proof fn law_mov(s: CpuState)
    requires
        s.mem.len() == MEMORY_SIZE,
        0x40 <= read8(s, s.pc) < 0x80,
        read8(s, s.pc) != 0x76,
    ensures
        ({
            let (op, t) = (read8(s, s.pc), step(s));
            let (dst, src) = (reg_code(((op / 8) % 8) as int), reg_code((op % 8) as int));
            &&& reg_value(t, dst) == reg_value(s, src)
            &&& t.zero == s.zero && t.sign == s.sign && t.parity == s.parity
            &&& t.carry == s.carry && t.half_carry == s.half_carry
            &&& t.pc == wrap16(s.pc + 1)
            &&& t.sp == s.sp
        }),
{
    reveal(execute);
    reveal(op_mov);
}

/// MVI (0x06 + 8n): the register (or M) named by n gets the byte after the
/// opcode; no flag changes and PC moves on by two.
pub proof fn law_mvi(s: CpuState, n: u8)
    requires
        s.mem.len() == MEMORY_SIZE,
        n < 8,
        read8(s, s.pc) == 0x06 + 8 * n,
    ensures
        ({
            let t = step(s);
            &&& reg_value(t, reg_code(n as int)) == imm8(s)
            &&& t.zero == s.zero && t.sign == s.sign && t.parity == s.parity
            &&& t.carry == s.carry && t.half_carry == s.half_carry
            &&& t.pc == wrap16(s.pc + 2)
        }),
{
    reveal(execute);
    reveal(op_mvi);
    if n == 0 {
    } else if n == 1 {
    } else if n == 2 {
    } else if n == 3 {
    } else if n == 4 {
    } else if n == 5 {
    } else if n == 6 {
    } else {
    }
}

/// LXI (0x01 + 16k): the pair named by k gets the two bytes after the opcode,
/// low byte first; no flag changes and PC moves on by three.
pub proof fn law_lxi(s: CpuState, rp: RegisterPair)
    requires
        read8(s, s.pc) == 0x01 + 16 * pair_code(rp),
    ensures
        ({
            let t = step(s);
            &&& pair_value(t, rp) == read8(s, wrap16(s.pc + 2)) * 256 + read8(s, wrap16(s.pc + 1))
            &&& t.zero == s.zero && t.carry == s.carry
            &&& t.pc == wrap16(s.pc + 3)
        }),
{
    reveal(execute);
    reveal(op_lxi);
    let w = imm16(s);
    assert(((w / 256) as u8) * 256 + ((w % 256) as u8) == w);
    match rp {
        RegisterPair::BC => assert(read8(s, s.pc) == 0x01),
        RegisterPair::DE => assert(read8(s, s.pc) == 0x11),
        RegisterPair::HL => assert(read8(s, s.pc) == 0x21),
        RegisterPair::SP => assert(read8(s, s.pc) == 0x31),
    }
}

} // verus!
