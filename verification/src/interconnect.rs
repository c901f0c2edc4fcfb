//! The board: processor, controls and screen, driven one frame at a time.
use vstd::prelude::*;
use crate::cpu::{ExecutionContext, MAX_INSTRUCTION_CYCLES};
use crate::display::{Display, BLANK, RASTER_LEN};
use crate::keypad::Keypad;
use crate::memory::MEMORY_SIZE;
use crate::model::{
    interrupt_tick, lemma_step_cycles, lemma_tick_cycles, run, run_frame, step, CpuState, FRAME_STEP_LIMIT,
    HALF_FRAME_CYCLES,
};

verus! {

pub struct Interconnect {
    pub cpu: ExecutionContext,
    pub keypad: Keypad,
    pub display: Display,
    pub frame_count: u32,
}

impl Interconnect {
    pub open spec fn wf(&self) -> bool {
        self.cpu.wf() && self.display.wf()
    }

    /// Room in the cycle counter for a whole frame.
    pub open spec fn has_frame_room(&self) -> bool {
        self.cpu.registers.cycles + HALF_FRAME_CYCLES + 2 * MAX_INSTRUCTION_CYCLES <= usize::MAX
    }

    pub fn new() -> (i: Interconnect)
        ensures
            i.wf(),
            i.cpu.registers.power_on(),
            i.cpu@.mem =~= Seq::new(MEMORY_SIZE as nat, |k: int| 0u8),
            i.keypad == Keypad::new_spec(),
            forall|k: int| 0 <= k < RASTER_LEN ==> i.display.raster@[k] == BLANK,
            !i.display.vblank,
            i.frame_count == 0,
    {
        Interconnect {
            cpu: ExecutionContext::new(),
            keypad: Keypad::new(),
            display: Display::new(),
            frame_count: 0,
        }
    }

    /// Runs instructions until more than 16666 cycles have passed (one frame)
    /// or the processor halts, checking the interrupt timer after each (and
    /// in any case stops after `FRAME_STEP_LIMIT` instructions).
    /// Returns the number of frames run so far.
    pub fn execute_cpu(&mut self) -> (frames: u32)
        requires
            old(self).wf(),
            old(self).has_frame_room(),
            old(self).frame_count < u32::MAX,
        ensures
            final(self).wf(),
            final(self).cpu@ == run_frame(old(self).cpu@, 0, FRAME_STEP_LIMIT as nat),
            final(self).frame_count == old(self).frame_count + 1,
            frames == final(self).frame_count,
            final(self).keypad == old(self).keypad,
            final(self).display == old(self).display,
    {
        let ghost start = self.cpu@;
        let mut spent: usize = 0;
        let mut steps_left: u64 = FRAME_STEP_LIMIT;
        while spent <= 16666 && !self.cpu.registers.halted && steps_left > 0
            invariant
                self.wf(),
                spent <= 16666 + MAX_INSTRUCTION_CYCLES,
                self.cpu.registers.cycles <= start.cycles + spent,
                start.cycles + HALF_FRAME_CYCLES + 2 * MAX_INSTRUCTION_CYCLES <= usize::MAX,
                run_frame(self.cpu@, spent as int, steps_left as nat) == run_frame(
                    start,
                    0,
                    FRAME_STEP_LIMIT as nat,
                ),
                self.keypad == old(self).keypad,
                self.display == old(self).display,
                self.frame_count == old(self).frame_count,
            decreases steps_left,
        {
            let before = self.cpu.registers.cycles;
            proof {
                lemma_step_cycles(self.cpu@);
                lemma_tick_cycles(step(self.cpu@));
            }
            self.cpu.execute_instruction();
            spent = spent + (self.cpu.registers.cycles - before);
            self.cpu.try_interrupt();
            steps_left = steps_left - 1;
        }
        self.frame_count = self.frame_count + 1;
        self.frame_count
    }

    /// Steps a single instruction.
    pub fn run_tests(&mut self)
        requires
            old(self).wf(),
            old(self).cpu.registers.cycles + MAX_INSTRUCTION_CYCLES <= usize::MAX,
        ensures
            final(self).wf(),
            final(self).cpu@ == run(old(self).cpu@, 1),
            final(self).keypad == old(self).keypad,
            final(self).display == old(self).display,
            final(self).frame_count == old(self).frame_count,
    {
        self.cpu.step(1);
    }
}

} // verus!
