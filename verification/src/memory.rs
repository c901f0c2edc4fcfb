//! The 64 KiB address space of the 8080.
use vstd::prelude::*;

verus! {

/// Number of addressable bytes.
pub const MEMORY_SIZE: usize = 0x1_0000;

/// Where the CP/M test programs are placed.
pub const TEST_ORIGIN: usize = 0x0100;

/// The little-endian 16-bit value made of `high` and `low`.
pub open spec fn word(high: u8, low: u8) -> u16 {
    (high * 256 + low) as u16
}

/// Joins two bytes into a 16-bit word, high byte first.
pub fn make_word(high: u8, low: u8) -> (w: u16)
    ensures
        w == word(high, low),
        w as int == high * 256 + low,
{
    let w = (high as u16) << 8 | (low as u16);
    assert(w == high * 256 + low) by (bit_vector)
        requires
            w == (high as u16) << 8 | (low as u16),
    ;
    w
}

/// High byte of a 16-bit word.
pub fn high_byte(w: u16) -> (b: u8)
    ensures
        b == w / 256,
{
    let h = w >> 8;
    assert(h == w / 256 && h < 256) by (bit_vector)
        requires
            h == w >> 8,
    ;
    h as u8
}

/// Low byte of a 16-bit word.
pub fn low_byte(w: u16) -> (b: u8)
    ensures
        b == w % 256,
{
    let b = (w & 0xFF) as u8;
    assert((w & 0xFF) == w % 256) by (bit_vector);
    b
}

pub struct Memory {
    pub memory: Vec<u8>,
}

impl Memory {
    /// The whole address space is present.
    pub open spec fn wf(&self) -> bool {
        self.memory@.len() == MEMORY_SIZE
    }

    /// A zeroed 64 KiB address space.
    pub fn new() -> (m: Memory)
        ensures
            m.wf(),
            forall|i: int| 0 <= i < MEMORY_SIZE ==> m.memory@[i] == 0,
    {
        let mut memory: Vec<u8> = Vec::new();
        while memory.len() < MEMORY_SIZE
            invariant
                memory@.len() <= MEMORY_SIZE,
                forall|i: int| 0 <= i < memory@.len() ==> memory@[i] == 0,
            decreases MEMORY_SIZE - memory@.len(),
        {
            memory.push(0);
        }
        Memory { memory }
    }

    /// The byte at `addr`.
    pub fn read_byte(&self, addr: u16) -> (b: u8)
        requires
            self.wf(),
        ensures
            b == self.memory@[addr as int],
    {
        self.memory[addr as usize]
    }

    /// The 16-bit operand that follows the opcode at `addr`: low byte at `addr + 1`,
    /// high byte at `addr + 2`.
    pub fn read_imm(&self, addr: u16) -> (w: u16)
        requires
            self.wf(),
            addr + 2 < MEMORY_SIZE,
        ensures
            w == word(self.memory@[addr + 2], self.memory@[addr + 1]),
    {
        make_word(self.memory[addr as usize + 2], self.memory[addr as usize + 1])
    }

    /// The little-endian word stored at `addr` and `addr + 1`.
    pub fn read_word(&self, addr: u16) -> (w: u16)
        requires
            self.wf(),
            addr + 1 < MEMORY_SIZE,
        ensures
            w == word(self.memory@[addr + 1], self.memory@[addr as int]),
    {
        make_word(self.memory[addr as usize + 1], self.memory[addr as usize])
    }

    /// High byte of the operand that follows the opcode at `addr`.
    pub fn read_high(&self, addr: u16) -> (b: u8)
        requires
            self.wf(),
            addr + 2 < MEMORY_SIZE,
        ensures
            b == self.memory@[addr + 2],
    {
        self.memory[addr as usize + 2]
    }

    /// Low byte of the operand that follows the opcode at `addr`.
    pub fn read_low(&self, addr: u16) -> (b: u8)
        requires
            self.wf(),
            addr + 1 < MEMORY_SIZE,
        ensures
            b == self.memory@[addr + 1],
    {
        self.memory[addr as usize + 1]
    }

    /// The byte at `addr`, widened to 16 bits.
    pub fn read(&self, addr: u16) -> (w: u16)
        requires
            self.wf(),
        ensures
            w == self.memory@[addr as int],
    {
        self.memory[addr as usize] as u16
    }

    /// Copies a program image to the start of memory.
    pub fn load_bin(&mut self, image: &[u8])
        requires
            old(self).wf(),
            image@.len() <= MEMORY_SIZE,
        ensures
            final(self).wf(),
            final(self).memory@ == image@ + old(self).memory@.skip(image@.len() as int),
    {
        self.copy_to(0, image);
    }

    /// Copies a test program to `0x0100`, where CP/M programs start.
    pub fn load_tests(&mut self, image: &[u8])
        requires
            old(self).wf(),
            TEST_ORIGIN + image@.len() <= MEMORY_SIZE,
        ensures
            final(self).wf(),
            final(self).memory@ == old(self).memory@.take(TEST_ORIGIN as int) + image@
                + old(self).memory@.skip(TEST_ORIGIN + image@.len()),
    {
        self.copy_to(TEST_ORIGIN, image);
    }

    fn copy_to(&mut self, origin: usize, image: &[u8])
        requires
            old(self).wf(),
            origin + image@.len() <= MEMORY_SIZE,
        ensures
            final(self).wf(),
            final(self).memory@ == old(self).memory@.take(origin as int) + image@
                + old(self).memory@.skip(origin + image@.len()),
    {
        let n = image.len();
        let mut i: usize = 0;
        while i < n
            invariant
                n == image@.len(),
                origin + n <= MEMORY_SIZE,
                i <= n,
                self.memory@.len() == MEMORY_SIZE,
                forall|k: int| 0 <= k < origin ==> self.memory@[k] == old(self).memory@[k],
                forall|k: int| 0 <= k < i ==> self.memory@[origin + k] == image@[k],
                forall|k: int|
                    origin + i <= k < MEMORY_SIZE ==> self.memory@[k] == old(self).memory@[k],
            decreases n - i,
        {
            self.memory.set(origin + i, image[i]);
            i = i + 1;
        }
        assert(self.memory@ =~= old(self).memory@.take(origin as int) + image@
            + old(self).memory@.skip(origin + image@.len()));
    }
}

} // verus!
