//! The screen: video memory turned into a rotated, colour-tinted raster.
use vstd::prelude::*;
use crate::memory::{Memory, MEMORY_SIZE};

verus! {

/// Width and height of the picture, after the monitor's 90 degree turn.
pub const WIDTH: u32 = 224;
pub const HEIGHT: u32 = 256;

/// Video memory spans 0x2400..0x4000: 224 columns of 32 bytes.
pub const VRAM_START: usize = 0x2400;

/// Number of raster cells: the picture twice over.
pub const RASTER_LEN: usize = 224 * 256 * 2;

/// Colour of an untouched cell.
pub const BLANK: u32 = 0x00FF_FFFF;

pub const ALPHA: u32 = 0xFF00_0000;
pub const GREEN: u32 = 0xFF00_FF00;
pub const RED: u32 = 0xFF00_00FF;
pub const WHITE: u32 = 0xFFFF_FFFF;

/// Colour of bit `shift` of a video byte that lands on column `x` of scan
/// line `y` (before the turn): dark when clear, green in the band of the
/// bases and the lives, red in the band of the saucer, white elsewhere.
pub open spec fn pixel_color(byte: u8, shift: u8, x: int, y: int) -> u32 {
    if (byte >> shift) & 1 == 0 {
        ALPHA
    } else if x <= 63 && (x >= 15 || (x <= 15 && y >= 20 && y <= 120)) {
        GREEN
    } else if x >= 200 && x <= 220 {
        RED
    } else {
        WHITE
    }
}

/// Raster cell of bit `shift` of byte `col` of scan line `y`: the picture is
/// turned a quarter counter-clockwise.
pub open spec fn raster_index(y: int, col: int, shift: int) -> int {
    WIDTH * (255 - (8 * col + shift)) + y
}

/// The colour that video memory gives that cell.
pub open spec fn vram_pixel(mem: Seq<u8>, y: int, col: int, shift: int) -> u32 {
    pixel_color(mem[VRAM_START + 32 * y + col], shift as u8, 8 * col + shift, y)
}

proof fn lemma_raster_index_distinct(y1: int, c1: int, s1: int, y2: int, c2: int, s2: int)
    requires
        0 <= y1 < 224 && 0 <= c1 < 32 && 0 <= s1 < 8,
        0 <= y2 < 224 && 0 <= c2 < 32 && 0 <= s2 < 8,
        y1 != y2 || c1 != c2 || s1 != s2,
    ensures
        raster_index(y1, c1, s1) != raster_index(y2, c2, s2),
{
}

proof fn lemma_raster_index_range(y: int, c: int, s: int)
    requires
        0 <= y < 224 && 0 <= c < 32 && 0 <= s < 8,
    ensures
        0 <= raster_index(y, c, s) < WIDTH * HEIGHT,
{
}

pub struct Display {
    pub raster: Vec<u32>,
    pub vblank: bool,
}

impl Display {
    pub open spec fn wf(&self) -> bool {
        self.raster@.len() == RASTER_LEN
    }

    /// A blank raster.
    pub fn new() -> (d: Display)
        ensures
            d.wf(),
            forall|i: int| 0 <= i < RASTER_LEN ==> d.raster@[i] == BLANK,
            !d.vblank,
    {
        let mut raster: Vec<u32> = Vec::new();
        while raster.len() < RASTER_LEN
            invariant
                raster@.len() <= RASTER_LEN,
                forall|i: int| 0 <= i < raster@.len() ==> raster@[i] == BLANK,
            decreases RASTER_LEN - raster@.len(),
        {
            raster.push(BLANK);
        }
        Display { raster, vblank: false }
    }

    /// Paints every bit of video memory into the raster.
    pub fn draw_pixel(&mut self, memory: &Memory)
        requires
            old(self).wf(),
            memory.wf(),
        ensures
            final(self).wf(),
            final(self).vblank == old(self).vblank,
            forall|y: int, col: int, shift: int|
                0 <= y < 224 && 0 <= col < 32 && 0 <= shift < 8
                    ==> #[trigger] final(self).raster@[raster_index(y, col, shift)] == vram_pixel(
                    memory.memory@,
                    y,
                    col,
                    shift,
                ),
            forall|k: int|
                WIDTH * HEIGHT <= k < RASTER_LEN ==> final(self).raster@[k] == old(
                    self,
                ).raster@[k],
    {
        let mut y: usize = 0;
        while y < 224
            invariant
                y <= 224,
                self.raster@.len() == RASTER_LEN,
                memory.wf(),
                self.vblank == old(self).vblank,
                forall|yy: int, c: int, s: int|
                    0 <= yy < y && 0 <= c < 32 && 0 <= s < 8
                        ==> #[trigger] self.raster@[raster_index(yy, c, s)] == vram_pixel(
                        memory.memory@,
                        yy,
                        c,
                        s,
                    ),
                forall|k: int|
                    WIDTH * HEIGHT <= k < RASTER_LEN ==> self.raster@[k] == old(self).raster@[k],
            decreases 224 - y,
        {
            let mut col: usize = 0;
            while col < 32
                invariant
                    y < 224,
                    col <= 32,
                    self.raster@.len() == RASTER_LEN,
                    memory.wf(),
                    self.vblank == old(self).vblank,
                    forall|yy: int, c: int, s: int|
                        ((0 <= yy < y && 0 <= c < 32) || (yy == y && 0 <= c < col)) && 0 <= s < 8
                            ==> #[trigger] self.raster@[raster_index(yy, c, s)] == vram_pixel(
                            memory.memory@,
                            yy,
                            c,
                            s,
                        ),
                    forall|k: int|
                        WIDTH * HEIGHT <= k < RASTER_LEN ==> self.raster@[k] == old(
                            self,
                        ).raster@[k],
                decreases 32 - col,
            {
                let byte = memory.memory[VRAM_START + 32 * y + col];
                let mut shift: u8 = 0;
                while shift < 8
                    invariant
                        y < 224,
                        col < 32,
                        shift <= 8,
                        byte == memory.memory@[VRAM_START + 32 * y + col],
                        self.raster@.len() == RASTER_LEN,
                        memory.wf(),
                        self.vblank == old(self).vblank,
                        forall|yy: int, c: int, s: int|
                            ((0 <= yy < y && 0 <= c < 32) || (yy == y && 0 <= c < col) || (yy == y
                                && c == col && s < shift)) && 0 <= s < 8
                                ==> #[trigger] self.raster@[raster_index(yy, c, s)] == vram_pixel(
                                memory.memory@,
                                yy,
                                c,
                                s,
                            ),
                        forall|k: int|
                            WIDTH * HEIGHT <= k < RASTER_LEN ==> self.raster@[k] == old(
                                self,
                            ).raster@[k],
                    decreases 8 - shift,
                {
                    let x = 8 * col + shift as usize;
                    let pixel = if (byte >> shift) & 1 == 0 {
                        ALPHA
                    } else if x <= 63 && (x >= 15 || (x <= 15 && y >= 20 && y <= 120)) {
                        GREEN
                    } else if x >= 200 && x <= 220 {
                        RED
                    } else {
                        WHITE
                    };
                    let index = (WIDTH as usize) * (255 - x) + y;
                    proof {
                        lemma_raster_index_range(y as int, col as int, shift as int);
                        assert forall|yy: int, c: int, s: int|
                            0 <= yy < 224 && 0 <= c < 32 && 0 <= s < 8 && (yy != y || c != col
                                || s != shift) implies raster_index(yy, c, s) != index by {
                            lemma_raster_index_distinct(
                                yy,
                                c,
                                s,
                                y as int,
                                col as int,
                                shift as int,
                            );
                        }
                    }
                    self.raster.set(index, pixel);
                    shift = shift + 1;
                }
                col = col + 1;
            }
            y = y + 1;
        }
    }
}

} // verus!
