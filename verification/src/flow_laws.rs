//! Where control goes: jumps, calls, returns and restarts, each with the
//! flag that decides it written out, over `step` (what
//! `execute_instruction` does).
use vstd::prelude::*;
use crate::memory::MEMORY_SIZE;
use crate::model::{
    execute, hl, imm16, op_call_if, op_jump_if, op_pchl, op_ret, op_ret_if, op_rst, read8, step,
    wrap16, CpuState,
};

verus! {

/// `t` went to the operand address with the stack untouched.
pub open spec fn jumped(s: CpuState, t: CpuState) -> bool {
    &&& t.pc == imm16(s)
    &&& t.sp == s.sp
    &&& t.mem == s.mem
}

/// `t` went on past an instruction of `len` bytes with the stack untouched.
pub open spec fn fell_through(s: CpuState, t: CpuState, len: int) -> bool {
    &&& t.pc == wrap16(s.pc + len)
    &&& t.sp == s.sp
    &&& t.mem == s.mem
}

/// `t` went to `target` with `ret` stored below the stack pointer, high byte
/// on top.
pub open spec fn called(s: CpuState, t: CpuState, target: int, ret: int) -> bool {
    &&& t.pc == target
    &&& t.sp == wrap16(s.sp - 2)
    &&& read8(t, wrap16(s.sp - 1)) == ret / 256
    &&& read8(t, wrap16(s.sp - 2)) == ret % 256
}

/// `t` went to the address on top of the stack (low byte first) and dropped
/// it.
pub open spec fn returned(s: CpuState, t: CpuState) -> bool {
    &&& t.pc == read8(s, wrap16(s.sp + 1)) * 256 + read8(s, s.sp)
    &&& t.sp == wrap16(s.sp + 2)
    &&& t.mem == s.mem
}

/// The conditional jumps: JNZ, JZ, JNC, JC, JPO, JPE, JP and JM go to the
/// operand address exactly when zero is clear, zero set, carry clear, carry
/// set, parity odd, parity even, sign clear and sign set; otherwise they go
/// on past their three bytes.
pub proof fn law_conditional_jumps(s: CpuState)
    ensures
        ({
            let (op, t) = (read8(s, s.pc), step(s));
            &&& op == 0xC2 ==> if !s.zero { jumped(s, t) } else { fell_through(s, t, 3) }
            &&& op == 0xCA ==> if s.zero { jumped(s, t) } else { fell_through(s, t, 3) }
            &&& op == 0xD2 ==> if !s.carry { jumped(s, t) } else { fell_through(s, t, 3) }
            &&& op == 0xDA ==> if s.carry { jumped(s, t) } else { fell_through(s, t, 3) }
            &&& op == 0xE2 ==> if !s.parity { jumped(s, t) } else { fell_through(s, t, 3) }
            &&& op == 0xEA ==> if s.parity { jumped(s, t) } else { fell_through(s, t, 3) }
            &&& op == 0xF2 ==> if !s.sign { jumped(s, t) } else { fell_through(s, t, 3) }
            &&& op == 0xFA ==> if s.sign { jumped(s, t) } else { fell_through(s, t, 3) }
            &&& op == 0xC3 ==> jumped(s, t)
        }),
{
    reveal(execute);
    reveal(op_jump_if);
}

/// The conditional calls: CNZ, CZ, CNC, CC, CPO, CPE, CP and CM call the
/// operand address, storing the address after their three bytes, exactly
/// under the same flags as the jumps; otherwise they go on. CALL always
/// calls.
pub proof fn law_conditional_calls(s: CpuState)
    requires
        s.mem.len() == MEMORY_SIZE,
    ensures
        ({
            let (op, t, ret) = (read8(s, s.pc), step(s), wrap16(s.pc + 3) as int);
            let call = called(s, t, imm16(s) as int, ret);
            let skip = fell_through(s, t, 3);
            &&& op == 0xC4 ==> if !s.zero { call } else { skip }
            &&& op == 0xCC ==> if s.zero { call } else { skip }
            &&& op == 0xD4 ==> if !s.carry { call } else { skip }
            &&& op == 0xDC ==> if s.carry { call } else { skip }
            &&& op == 0xE4 ==> if !s.parity { call } else { skip }
            &&& op == 0xEC ==> if s.parity { call } else { skip }
            &&& op == 0xF4 ==> if !s.sign { call } else { skip }
            &&& op == 0xFC ==> if s.sign { call } else { skip }
            &&& op == 0xCD ==> call
        }),
{
    reveal(execute);
    reveal(op_call_if);
    let sp1 = wrap16(s.sp - 1);
    let sp2 = wrap16(s.sp - 2);
    assert(sp1 != sp2);
}

/// The conditional returns: RNZ, RZ, RNC, RC, RPO, RPE, RP and RM return
/// exactly under the same flags as the jumps; otherwise they go on past
/// their one byte. RET always returns.
pub proof fn law_conditional_returns(s: CpuState)
    ensures
        ({
            let (op, t) = (read8(s, s.pc), step(s));
            let back = returned(s, t);
            let skip = fell_through(s, t, 1);
            &&& op == 0xC0 ==> if !s.zero { back } else { skip }
            &&& op == 0xC8 ==> if s.zero { back } else { skip }
            &&& op == 0xD0 ==> if !s.carry { back } else { skip }
            &&& op == 0xD8 ==> if s.carry { back } else { skip }
            &&& op == 0xE0 ==> if !s.parity { back } else { skip }
            &&& op == 0xE8 ==> if s.parity { back } else { skip }
            &&& op == 0xF0 ==> if !s.sign { back } else { skip }
            &&& op == 0xF8 ==> if s.sign { back } else { skip }
            &&& op == 0xC9 ==> back
        }),
{
    reveal(execute);
    reveal(op_ret_if);
    reveal(op_ret);
}

/// RST n (opcode 0xC7 + 8n) calls address 8n, storing the address of the
/// next instruction; PCHL jumps to the address in HL.
pub proof fn law_restarts_and_pchl(s: CpuState, n: u8)
    requires
        s.mem.len() == MEMORY_SIZE,
        n < 8,
    ensures
        read8(s, s.pc) == 0xC7 + 8 * n ==> called(s, step(s), 8 * n, wrap16(s.pc + 1) as int),
        read8(s, s.pc) == 0xE9 ==> step(s).pc == hl(s) && step(s).sp == s.sp,
{
    reveal(execute);
    reveal(op_rst);
    reveal(op_pchl);
    let sp1 = wrap16(s.sp - 1);
    let sp2 = wrap16(s.sp - 2);
    assert(sp1 != sp2);
    if read8(s, s.pc) == 0xC7 + 8 * n {
        if n == 0 {
        } else if n == 1 {
        } else if n == 2 {
        } else if n == 3 {
        } else if n == 4 {
        } else if n == 5 {
        } else if n == 6 {
        } else {
        }
    }
}

} // verus!
