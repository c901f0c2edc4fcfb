//! What the machine's edges do: the input and output ports, the colours
//! the screens give video memory, and the bits the cabinet's keys set.
use vstd::prelude::*;
use crate::display::{pixel_color, raster_index, vram_pixel, ALPHA, GREEN, RED, WHITE};
use crate::gfx::{square_at, Rgb};
use crate::keypad::{cleared_port_1, cleared_port_2, keys_down, keys_up, Key, Keypad};
use crate::memory::word;
use crate::model::{
    execute, imm8, op_in, op_out, read8, shift_register_value, step, wrap16, CpuState,
};

verus! {

/// IN reads the port named by its operand into A: port 0, port 1 (whose
/// coin bit is then cleared), port 2, the shift register on port 3 (the
/// eight bits of the 16-bit latch that start `8 - offset` bits from its
/// bottom), and 0 from any other port. PC moves on by two.
pub proof fn law_input_ports(s: CpuState)
    requires
        read8(s, s.pc) == 0xDB,
    ensures
        ({
            let (port, t) = (imm8(s), step(s));
            let latch: u16 = ((s.port_4_out_high as u16) << 8u16) | (s.port_4_out_low as u16);
            &&& port == 0 ==> t.reg_a == s.port_0_in
            &&& port == 1 ==> t.reg_a == s.port_1_in && t.port_1_in == s.port_1_in & 0xFE
            &&& port == 2 ==> t.reg_a == s.port_2_in
            &&& port == 3 ==> t.reg_a == ((latch >> (8 - (s.port_2_out & 7)) as u16) & 0xFF)
            &&& port > 3 ==> t.reg_a == 0
            &&& port != 1 ==> t.port_1_in == s.port_1_in
            &&& t.port_0_in == s.port_0_in && t.port_2_in == s.port_2_in
            &&& t.pc == wrap16(s.pc + 2)
            &&& t.mem == s.mem
        }),
{
    reveal(execute);
    reveal(op_in);
    let (hi, lo) = (s.port_4_out_high, s.port_4_out_low);
    let latch: u16 = ((hi as u16) << 8u16) | (lo as u16);
    assert(latch == word(hi, lo)) by {
        assert(((hi as u16) << 8u16) | (lo as u16) == (hi * 256 + lo) as u16) by (bit_vector);
    }
    let amount = (8 - (s.port_2_out & 7)) as u16;
    assert((latch >> amount) & 0xFF < 256) by (bit_vector);
    assert(shift_register_value(s) == ((latch >> amount) & 0xFF) as u8);
}

/// OUT writes A to the port named by its operand: the low three bits to the
/// shift offset on port 2, A itself to ports 3, 5 and 6, and on port 4 A
/// becomes the top of the shift latch while its old top moves to the
/// bottom. A stays as it was and PC moves on by two.
pub proof fn law_output_ports(s: CpuState)
    requires
        read8(s, s.pc) == 0xD3,
    ensures
        ({
            let (port, t, a) = (imm8(s), step(s), s.reg_a);
            &&& port == 2 ==> t.port_2_out == a & 7
            &&& port == 3 ==> t.port_3_out == a
            &&& port == 4 ==> t.port_4_out_high == a && t.port_4_out_low == s.port_4_out_high
            &&& port == 5 ==> t.port_5_out == a
            &&& port == 6 ==> t.port_6_out == a
            &&& port != 2 ==> t.port_2_out == s.port_2_out
            &&& port != 4 ==> t.port_4_out_high == s.port_4_out_high && t.port_4_out_low
                == s.port_4_out_low
            &&& t.reg_a == a
            &&& t.pc == wrap16(s.pc + 2)
            &&& t.mem == s.mem
        }),
{
    reveal(execute);
    reveal(op_out);
}

/// The colours of the raster: a clear bit is dark; a set bit is green in
/// the band of the bases and lives (x up to 63, from x 15 on, or below that
/// between scan lines 20 and 120), red in the band of the saucer (x from 200
/// to 220), and white everywhere else.
pub proof fn law_pixel_colours(byte: u8, shift: u8, x: int, y: int)
    requires
        shift < 8,
    ensures
        ({
            let lit = byte & (1u8 << shift) != 0;
            let green = x <= 63 && (x >= 15 || (20 <= y && y <= 120));
            let red = 200 <= x && x <= 220;
            &&& !lit ==> pixel_color(byte, shift, x, y) == ALPHA
            &&& lit && green ==> pixel_color(byte, shift, x, y) == GREEN
            &&& lit && !green && red ==> pixel_color(byte, shift, x, y) == RED
            &&& lit && !green && !red ==> pixel_color(byte, shift, x, y) == WHITE
        }),
{
    assert(((byte >> shift) & 1 == 0) == (byte & (1u8 << shift) == 0)) by (bit_vector)
        requires
            shift < 8,
    ;
}

/// Where each bit of video memory lands: bit `shift` of byte `col` of scan
/// line `y` (byte 0x2400 + 32y + col) fills the cell in column `y` of the
/// 224-wide raster, on row 255 - (8 col + shift) counted from the top, so
/// the picture stands turned a quarter to the left.
pub proof fn law_raster_layout(memory: Seq<u8>, y: int, col: int, shift: int)
    requires
        0 <= y < 224,
        0 <= col < 32,
        0 <= shift < 8,
    ensures
        raster_index(y, col, shift) % 224 == y,
        raster_index(y, col, shift) / 224 == 255 - (8 * col + shift),
        vram_pixel(memory, y, col, shift) == pixel_color(
            memory[0x2400 + 32 * y + col],
            shift as u8,
            8 * col + shift,
            y,
        ),
{
    vstd::arithmetic::div_mod::lemma_fundamental_div_mod_converse(
        raster_index(y, col, shift),
        224,
        255 - (8 * col + shift),
        y,
    );
}

/// The SDL view: point (x, y) shows bit (64 - y) mod 8 of byte
/// 0x2400 + 8x + (64 - y) / 8, light when set and dark when clear, as a
/// square at (64 - y, x).
pub proof fn law_render_colours(memory: Seq<u8>, x: int, y: int)
    requires
        0 <= y <= 64,
        0 <= x <= 0x7FFF_FFFF,
    ensures
        ({
            let sq = square_at(memory, x, y);
            let byte = memory[0x2400 + 8 * x + (64 - y) / 8];
            let lit = byte & (1u8 << ((64 - y) % 8) as u8) != 0;
            &&& sq.x == 64 - y && sq.y == x
            &&& lit ==> sq.color == (Rgb { r: 251, g: 241, b: 199 })
            &&& !lit ==> sq.color == (Rgb { r: 69, g: 133, b: 149 })
        }),
{
    let byte = memory[0x2400 + 8 * x + (64 - y) / 8];
    let b = ((64 - y) % 8) as u8;
    assert(((byte >> b) & 1 == 1) == (byte & (1u8 << b) != 0)) by (bit_vector)
        requires
            b < 8,
    ;
}

/// The bits the cabinet's keys set: Enter is player 1 start, C the coin,
/// Space fire, Left and Right the moves (all on port 1); 2 is player 2
/// start and 3 the coin info (on port 2). Any other key changes nothing
/// and the scan goes on past it; Escape ends the scan and asks to quit.
pub proof fn law_pressed_keys(k: Keypad, p1: u8, p2: u8, key: Key, rest: Seq<Key>)
    ensures
        ({
            let after = |q1: u8, q2: u8| keys_down(k, q1, q2, rest);
            let down = keys_down(k, p1, p2, seq![key] + rest);
            &&& key == Key::Enter ==> down == after(p1 | k.p1_start, p2)
            &&& key == Key::C ==> down == after(p1 | k.credit, p2)
            &&& key == Key::Space ==> down == after(p1 | k.p1_fire, p2)
            &&& key == Key::Left ==> down == after(p1 | k.p1_left, p2)
            &&& key == Key::Right ==> down == after(p1 | k.p1_right, p2)
            &&& key == Key::Key2 ==> down == after(p1, p2 | k.p2_start)
            &&& key == Key::Key3 ==> down == after(p1, p2 | k.coin_info)
            &&& key == Key::Other ==> down == after(p1, p2)
            &&& key == Key::Escape ==> down == (p1, p2, true)
        }),
{
    assert((seq![key] + rest).drop_first() =~= rest);
}

/// Releasing a key clears the bit that pressing it sets; any other key
/// changes nothing, and the scan goes on past every key.
pub proof fn law_released_keys(k: Keypad, p1: u8, p2: u8, key: Key, rest: Seq<Key>)
    ensures
        ({
            let after = |q1: u8, q2: u8| keys_up(k, q1, q2, rest);
            let up = keys_up(k, p1, p2, seq![key] + rest);
            &&& key == Key::Enter ==> up == after(p1 & !k.p1_start, p2)
            &&& key == Key::C ==> up == after(p1 & !k.credit, p2)
            &&& key == Key::Space ==> up == after(p1 & !k.p1_fire, p2)
            &&& key == Key::Left ==> up == after(p1 & !k.p1_left, p2)
            &&& key == Key::Right ==> up == after(p1 & !k.p1_right, p2)
            &&& key == Key::Key2 ==> up == after(p1, p2 & !k.p2_start)
            &&& key == Key::Key3 ==> up == after(p1, p2 & !k.coin_info)
            &&& key == Key::Other || key == Key::Escape ==> up == after(p1, p2)
        }),
{
    assert((seq![key] + rest).drop_first() =~= rest);
}

/// Clearing the ports clears exactly the coin, the player 1 buttons on port
/// 1, and the player 2 start and coin info on port 2.
pub proof fn law_cleared_ports(k: Keypad, p1: u8, p2: u8)
    ensures
        cleared_port_1(k, p1) == p1 & !(k.credit | k.p1_left | k.p1_right | k.p1_fire
            | k.p1_start),
        cleared_port_2(k, p2) == p2 & !(k.p2_start | k.coin_info),
{
    let (c, l, r, f, st, s2, ci) = (
        k.credit,
        k.p1_left,
        k.p1_right,
        k.p1_fire,
        k.p1_start,
        k.p2_start,
        k.coin_info,
    );
    assert(p1 & !c & !l & !r & !f & !st == p1 & !(c | l | r | f | st)) by (bit_vector);
    assert(p2 & !s2 & !ci == p2 & !(s2 | ci)) by (bit_vector);
}

} // verus!
