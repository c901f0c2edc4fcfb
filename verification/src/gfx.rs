//! A second way to show video memory: one coloured square for each bit, for
//! a canvas that the caller paints.
use vstd::prelude::*;

verus! {

pub const WIDTH: usize = 128;
pub const HEIGHT: usize = 64;

/// Side of the square that shows one bit.
pub const SQUARE: u32 = 10;

/// Where video memory starts.
pub const VRAM_START: usize = 0x2400;

#[derive(Debug, Copy, Clone, PartialEq, Eq, Structural)]
pub struct Rgb {
    pub r: u8,
    pub g: u8,
    pub b: u8,
}

/// A filled square to paint on the canvas.
#[derive(Debug, Copy, Clone, PartialEq, Eq, Structural)]
pub struct Square {
    pub x: i32,
    pub y: i32,
    pub side: u32,
    pub color: Rgb,
}

/// Colour of a set bit.
pub open spec fn foreground() -> Rgb {
    Rgb { r: 251, g: 241, b: 199 }
}

/// Colour of a clear bit.
pub open spec fn background() -> Rgb {
    Rgb { r: 69, g: 133, b: 149 }
}

/// Address of the byte that holds the bit shown at `(x, y)`: the picture is
/// turned a quarter, so column `x` of the canvas is row `x` of memory and
/// row `y` counts from the bottom.
pub open spec fn render_addr(x: int, y: int) -> int {
    VRAM_START + x * (HEIGHT as int / 8) + (HEIGHT - y) / 8
}

/// Bit of that byte.
pub open spec fn render_bit(y: int) -> int {
    (HEIGHT - y) % 8
}

/// Whether `(x, y)` can be rendered: the row is on the canvas and the byte
/// inside memory.
pub open spec fn can_render(memory_len: int, x: int, y: int) -> bool {
    0 <= y <= HEIGHT && 0 <= x && render_addr(x, y) < memory_len && x <= i32::MAX
}

/// The square that shows point `(x, y)`.
pub open spec fn square_at(memory: Seq<u8>, x: int, y: int) -> Square {
    let byte = memory[render_addr(x, y)];
    Square {
        x: (HEIGHT - y) as i32,
        y: x as i32,
        side: SQUARE,
        color: if (byte >> (render_bit(y) as u8)) & 1 == 1 {
            foreground()
        } else {
            background()
        },
    }
}

pub struct Display {
    /// The canvas, row by row.
    pub pixels: Vec<bool>,
    pub memory: Vec<u8>,
    pub draw_flag: bool,
}

impl Display {
    /// A clear canvas over zeroed memory, waiting to be drawn.
    pub fn new() -> (d: Display)
        ensures
            d.pixels@ == Seq::new((WIDTH * HEIGHT) as nat, |i: int| false),
            d.memory@ == Seq::new(65536, |i: int| 0u8),
            d.draw_flag,
    {
        let mut pixels: Vec<bool> = Vec::new();
        while pixels.len() < WIDTH * HEIGHT
            invariant
                pixels@.len() <= WIDTH * HEIGHT,
                forall|i: int| 0 <= i < pixels@.len() ==> !pixels@[i],
            decreases WIDTH * HEIGHT - pixels@.len(),
        {
            pixels.push(false);
        }
        let mut memory: Vec<u8> = Vec::new();
        while memory.len() < 65536
            invariant
                memory@.len() <= 65536,
                forall|i: int| 0 <= i < memory@.len() ==> memory@[i] == 0,
            decreases 65536 - memory@.len(),
        {
            memory.push(0);
        }
        assert(pixels@ =~= Seq::new((WIDTH * HEIGHT) as nat, |i: int| false));
        assert(memory@ =~= Seq::new(65536, |i: int| 0u8));
        Display { pixels, memory, draw_flag: true }
    }

    /// The square that shows point `(x, y)` of video memory, to be painted
    /// by the caller; the display then needs drawing.
    pub fn render(&mut self, x: usize, y: usize) -> (square: Square)
        requires
            can_render(old(self).memory@.len() as int, x as int, y as int),
        ensures
            square == square_at(old(self).memory@, x as int, y as int),
            final(self).draw_flag,
            final(self).pixels@ == old(self).pixels@,
            final(self).memory@ == old(self).memory@,
    {
        let len = self.memory.len();
        assert(VRAM_START + x * 8 + (HEIGHT - y) / 8 < len);
        let xi = x;
        let x = HEIGHT - y;
        let y = xi;
        let byte = self.memory[VRAM_START + (y * (HEIGHT / 8) + (x / 8))];
        let shift = (x % 8) as u8;
        let color = if (byte >> shift) & 1 == 1 {
            Rgb { r: 251, g: 241, b: 199 }
        } else {
            Rgb { r: 69, g: 133, b: 149 }
        };
        self.draw_flag = true;
        Square { x: x as i32, y: y as i32, side: SQUARE, color }
    }
}

} // verus!
