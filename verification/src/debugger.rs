//! A second window that shows the processor's state in letters cut out of a
//! font sheet.
//!
//! The sheet is a 256 x 256 picture stored bottom row first, three bytes per
//! pixel. It holds 32 x 32 pixel letters, eight to a row of letters.
use vstd::prelude::*;
use byteorder::{LittleEndian, ReadBytesExt};
use std::io::Cursor;
use crate::cpu::Registers;
use crate::text::hex_digit;

verus! {

pub const WIDTH: usize = 256;
pub const HEIGHT: usize = 256;

/// Bytes in front of the pixels of a font file.
pub const FONT_HEADER_LEN: usize = 18;

/// Bytes of pixel data in a font sheet: three for each pixel.
pub const FONT_DATA_LEN: usize = 196608;

/// Side of one letter of the sheet, in pixels.
pub const SPRITE_SIZE: usize = 32;

/// Distance between the left edges of two letters of a line of text.
pub const LETTER_ADVANCE: usize = 10;

#[derive(Debug, Copy, Clone)]
pub enum DebugType {
    Bool(bool),
    U8(u8),
    U16(u16),
}

/// The 24-bit value of three bytes, least significant first.
pub open spec fn u24_le(b0: u8, b1: u8, b2: u8) -> u32 {
    (b0 + 256 * b1 + 65536 * b2) as u32
}

/// The sheet as pixel values: one for each three bytes of the bitmap.
pub open spec fn sheet(bitmap: Seq<u8>) -> Seq<u32> {
    Seq::new(
        (bitmap.len() / 3) as nat,
        |k: int| u24_le(bitmap[3 * k], bitmap[3 * k + 1], bitmap[3 * k + 2]),
    )
}

/// `ReadBytesExt::read_u24::<LittleEndian>` on a cursor over `chunk`: the
/// first three bytes read least significant first, or an error (here `None`)
/// when fewer than three bytes are there.
#[verifier::external_body]
fn read_u24_le(chunk: &[u8]) -> (v: Option<u32>)
    ensures
        chunk@.len() >= 3 ==> v == Some(u24_le(chunk@[0], chunk@[1], chunk@[2])),
        chunk@.len() < 3 ==> v is None,
{
    Cursor::new(chunk).read_u24::<LittleEndian>().ok()
}

pub struct DebugFont {
    pub bitmap: Vec<u8>,
}

impl DebugFont {
    /// The pixel data of a font file: what follows its header, as far as
    /// one sheet reaches.
    pub fn new(file: &[u8]) -> (font: DebugFont)
        requires
            file@.len() >= FONT_HEADER_LEN + FONT_DATA_LEN,
        ensures
            font.bitmap@ == file@.subrange(
                FONT_HEADER_LEN as int,
                (FONT_HEADER_LEN + FONT_DATA_LEN) as int,
            ),
    {
        let mut bitmap: Vec<u8> = Vec::new();
        let mut i: usize = 0;
        while i < FONT_DATA_LEN
            invariant
                i <= FONT_DATA_LEN,
                file@.len() >= FONT_HEADER_LEN + FONT_DATA_LEN,
                bitmap@ == file@.subrange(FONT_HEADER_LEN as int, FONT_HEADER_LEN + i),
            decreases FONT_DATA_LEN - i,
        {
            bitmap.push(file[FONT_HEADER_LEN + i]);
            i = i + 1;
            assert(bitmap@ =~= file@.subrange(FONT_HEADER_LEN as int, FONT_HEADER_LEN + i));
        }
        DebugFont { bitmap }
    }
}

/// A vector of `n` zeros.
fn zeroed(n: usize) -> (v: Vec<u32>)
    ensures
        v@ == Seq::new(n as nat, |k: int| 0u32),
{
    let mut v: Vec<u32> = Vec::new();
    while v.len() < n
        invariant
            v@.len() <= n,
            forall|k: int| 0 <= k < v@.len() ==> v@[k] == 0,
        decreases n - v@.len(),
    {
        v.push(0);
    }
    assert(v@ =~= Seq::new(n as nat, |k: int| 0u32));
    v
}

/// Cell of the sheet that holds the letter for `c`. The characters from the
/// space to the underscore stand in order, eight to a row of letters; the
/// row from `(` to `/` starts one sheet width (eight cells) further on. Any
/// other character shows the space.
pub open spec fn sprite_index(c: char) -> usize {
    let n = c as int - 32;
    if 0 <= n < 64 {
        let row = n / 8;
        (32 * row + n % 8 + if row == 1 { 8int } else { 0int }) as usize
    } else {
        0
    }
}

/// Pixel `(col, row)` of the letter for `c`: the sheet is stored bottom row
/// first, so rows are counted from its last one.
pub open spec fn glyph_pixel(sheet: Seq<u32>, c: char, row: int, col: int) -> u32 {
    let s = sprite_index(c) as int;
    sheet[(32 * (s % 32) + col) + WIDTH * (255 - (32 * (s / 32) + row))]
}

/// Whether a window offset `d` from a letter's top left corner lies inside
/// the letter.
pub open spec fn in_glyph(d: int) -> bool {
    0 <= d && d % (WIDTH as int) < 32 && d / (WIDTH as int) < 32
}

/// A letter with its top left corner at `(x, y)` lies inside the window.
pub open spec fn glyph_fits(x: int, y: int) -> bool {
    0 <= x && 0 <= y && x + 31 + WIDTH * (y + 31) < WIDTH * HEIGHT
}

/// The first `limit` pixels (row by row) of the letter for `c`, put into
/// picture `fb` with the letter's top left corner at `(x, y)`.
pub open spec fn glyph_part(fb: Seq<u32>, sheet: Seq<u32>, c: char, x: int, y: int, limit: int) -> Seq<u32> {
    Seq::new(
        fb.len(),
        |k: int|
            {
                let d = k - x - WIDTH * y;
                if in_glyph(d) && 32 * (d / (WIDTH as int)) + d % (WIDTH as int) < limit {
                    glyph_pixel(sheet, c, d / (WIDTH as int), d % (WIDTH as int))
                } else {
                    fb[k]
                }
            },
    )
}

/// Picture `fb` with the whole letter for `c` put at `(x, y)`.
pub open spec fn glyph_drawn(fb: Seq<u32>, sheet: Seq<u32>, c: char, x: int, y: int) -> Seq<u32> {
    glyph_part(fb, sheet, c, x, y, 1024)
}

proof fn lemma_sprite_index_range(c: char)
    ensures
        sprite_index(c) < 232,
        sprite_index(c) % 32 < 16,
        sprite_index(c) % 32 >= 8 ==> sprite_index(c) / 32 == 1,
{
}

proof fn lemma_glyph_offset(row: int, col: int)
    requires
        0 <= row < 32,
        0 <= col < 32,
    ensures
        in_glyph(col + WIDTH * row),
        (col + WIDTH * row) / (WIDTH as int) == row,
        (col + WIDTH * row) % (WIDTH as int) == col,
{
    vstd::arithmetic::div_mod::lemma_fundamental_div_mod_converse(
        col + WIDTH * row,
        WIDTH as int,
        row,
        col,
    );
}

/// Writing pixel number `32 * row + col` of a letter moves the drawn part on
/// by one pixel.
proof fn lemma_glyph_part_step(
    fb: Seq<u32>,
    sheet: Seq<u32>,
    c: char,
    x: int,
    y: int,
    row: int,
    col: int,
)
    requires
        0 <= row < 32,
        0 <= col < 32,
        glyph_fits(x, y),
        fb.len() == WIDTH * HEIGHT,
    ensures
        glyph_part(fb, sheet, c, x, y, 32 * row + col).update(
            x + col + WIDTH * (y + row),
            glyph_pixel(sheet, c, row, col),
        ) =~= glyph_part(fb, sheet, c, x, y, 32 * row + col + 1),
{
    let p = x + col + WIDTH * (y + row);
    let before = glyph_part(fb, sheet, c, x, y, 32 * row + col);
    let after = glyph_part(fb, sheet, c, x, y, 32 * row + col + 1);
    lemma_glyph_offset(row, col);
    assert forall|k: int| 0 <= k < fb.len() implies #[trigger] after[k] == before.update(
        p,
        glyph_pixel(sheet, c, row, col),
    )[k] by {
        let d = k - x - WIDTH * y;
        vstd::arithmetic::div_mod::lemma_fundamental_div_mod(d, WIDTH as int);
    }
}

/// Whether `n` letters, put 10 pixels apart from `(x, y)` on, lie inside the
/// window.
pub open spec fn text_fits(n: int, x: int, y: int) -> bool {
    n == 0 || glyph_fits(x + LETTER_ADVANCE * (n - 1), y)
}

/// Picture `fb` with the letters of `text` put 10 pixels apart from `(x, y)`
/// on, first to last.
pub open spec fn text_drawn(fb: Seq<u32>, sheet: Seq<u32>, text: Seq<char>, x: int, y: int) -> Seq<u32>
    decreases text.len(),
{
    if text.len() == 0 {
        fb
    } else {
        glyph_drawn(
            text_drawn(fb, sheet, text.drop_last(), x, y),
            sheet,
            text.last(),
            x + LETTER_ADVANCE * (text.len() - 1),
            y,
        )
    }
}

/// What `str::to_uppercase` gives for a string of these characters.
pub uninterp spec fn upper_chars(text: Seq<char>) -> Seq<char>;

/// The capital of an ASCII letter; any other character itself.
pub open spec fn ascii_upper(c: char) -> char {
    if 'a' <= c <= 'z' {
        ((c as int) - 32) as char
    } else {
        c
    }
}

/// Whether every character of `text` is ASCII.
pub open spec fn is_ascii_text(text: Seq<char>) -> bool {
    forall|i: int| 0 <= i < text.len() ==> (text[i] as int) < 128
}

/// `str::to_uppercase`: its result is named `upper_chars` of the text. For
/// ASCII text it is the text with each small letter made a capital, as the
/// Unicode case mapping that it follows does for ASCII; of other text nothing
/// is stated, not even its length.
#[verifier::external_body]
fn to_uppercase(text: &str) -> (upper: String)
    ensures
        upper@ == upper_chars(text@),
        is_ascii_text(text@) ==> upper@ == text@.map_values(|c: char| ascii_upper(c)),
{
    text.to_uppercase()
}

/// `num` in four hexadecimal digits, with leading zeros.
pub open spec fn num_text(num: u8) -> Seq<char> {
    seq!['0', '0', hex_digit(num as int / 16), hex_digit(num as int % 16)]
}

/// `value` spelt in capitals.
pub open spec fn bool_text(value: bool) -> Seq<char> {
    if value {
        seq!['T', 'R', 'U', 'E']
    } else {
        seq!['F', 'A', 'L', 'S', 'E']
    }
}

fn hex_char(v: u8) -> (c: char)
    requires
        v < 16,
    ensures
        c == hex_digit(v as int),
{
    if v < 10 {
        (48 + v) as char
    } else {
        (55 + v) as char
    }
}

/// Picture `fb` with the names of the shown registers down its left side.
pub open spec fn labels_drawn(fb: Seq<u32>, sheet: Seq<u32>) -> Seq<u32> {
    let opcode = text_drawn(fb, sheet, seq!['O', 'P', 'C', 'O', 'D', 'E', ':'], 10, 20);
    let reg_a = text_drawn(
        opcode,
        sheet,
        seq!['R', 'E', 'G', 'I', 'S', 'T', 'E', 'R', ' ', 'A', ':'],
        10,
        40,
    );
    let pc = text_drawn(reg_a, sheet, seq!['P', 'C', ':'], 10, 60);
    text_drawn(pc, sheet, seq!['C', 'A', 'R', 'R', 'Y', ':'], 10, 80)
}

/// Picture `fb` with the values of the shown registers beside their names:
/// the opcode, the accumulator, the low byte of the program counter and the
/// carry flag.
pub open spec fn values_drawn(fb: Seq<u32>, sheet: Seq<u32>, opcode: u8, a: u8, pc: u16, carry: bool) -> Seq<u32> {
    let f1 = text_drawn(fb, sheet, num_text(opcode), 130, 20);
    let f2 = text_drawn(f1, sheet, num_text(a), 130, 40);
    let f3 = text_drawn(f2, sheet, num_text((pc % 256) as u8), 130, 60);
    text_drawn(f3, sheet, bool_text(carry), 130, 80)
}

pub struct Debugger {
    pub font: DebugFont,
    pub buffer: Vec<u32>,
    /// The window's picture, top row first.
    pub fb: Vec<u32>,
    pub memory_page: Vec<u32>,
}

/// Pixel `(x, y)` of the window after `render_fb`: the sheet turned upright.
pub open spec fn upright(sheet: Seq<u32>, x: int, y: int) -> u32 {
    sheet[WIDTH * (255 - y) + x]
}

impl Debugger {
    /// A full sheet of font and a full window.
    pub open spec fn wf(&self) -> bool {
        &&& self.font.bitmap@.len() == FONT_DATA_LEN
        &&& self.fb@.len() == WIDTH * HEIGHT
    }

    /// Everything but the window's picture is as in `other`.
    pub open spec fn same_but_fb(&self, other: &Debugger) -> bool {
        &&& self.font.bitmap@ == other.font.bitmap@
        &&& self.buffer@ == other.buffer@
        &&& self.memory_page@ == other.memory_page@
    }

    /// A debugger with the given font, a black window and a clear memory page.
    pub fn new(font: DebugFont) -> (d: Debugger)
        ensures
            d.font.bitmap@ == font.bitmap@,
            d.buffer@ == Seq::new((WIDTH * HEIGHT) as nat, |k: int| 0u32),
            d.fb@ == Seq::new((WIDTH * HEIGHT) as nat, |k: int| 0u32),
            d.memory_page@ == Seq::new(65536, |k: int| 0u32),
    {
        Debugger {
            buffer: zeroed(WIDTH * HEIGHT),
            font: font,
            fb: zeroed(WIDTH * HEIGHT),
            memory_page: zeroed(65536),
        }
    }

    /// The font sheet as pixel values, three bytes to a pixel.
    pub fn create_fb(&self) -> (pixels: Vec<u32>)
        requires
            self.font.bitmap@.len() % 3 == 0,
        ensures
            pixels@ == sheet(self.font.bitmap@),
    {
        let bytes = self.font.bitmap.as_slice();
        let len = bytes.len();
        let n = len / 3;
        let mut pixels: Vec<u32> = Vec::new();
        let mut i: usize = 0;
        while i < n
            invariant
                i <= n,
                bytes@ == self.font.bitmap@,
                len == bytes@.len(),
                n == len / 3,
                bytes@.len() % 3 == 0,
                pixels@.len() == i,
                forall|k: int| 0 <= k < i ==> pixels@[k] == sheet(bytes@)[k],
            decreases n - i,
        {
            assert(3 * i + 3 <= bytes@.len()) by (nonlinear_arith)
                requires
                    i < n,
                    n == len / 3,
                    len == bytes@.len(),
            ;
            let (_, rest) = bytes.split_at(3 * i);
            let (chunk, _) = rest.split_at(3);
            let v = read_u24_le(chunk);
            pixels.push(v.unwrap());
            i = i + 1;
        }
        assert(pixels@ =~= sheet(bytes@));
        pixels
    }

    /// Shows the whole font sheet, turned upright, in the window.
    pub fn render_fb(&mut self)
        requires
            old(self).wf(),
        ensures
            final(self).wf(),
            final(self).same_but_fb(old(self)),
            forall|x: int, y: int|
                0 <= x < WIDTH && 0 <= y < HEIGHT ==> #[trigger] final(self).fb@[WIDTH * y + x]
                    == upright(sheet(old(self).font.bitmap@), x, y),
    {
        let sprite_sheet = self.create_fb();
        let ghost s = sheet(self.font.bitmap@);
        let mut x: usize = 0;
        while x < WIDTH
            invariant
                x <= WIDTH,
                self.wf(),
                self.same_but_fb(old(self)),
                s == sheet(old(self).font.bitmap@),
                sprite_sheet@ == s,
                s.len() == WIDTH * HEIGHT,
                forall|xx: int, yy: int|
                    0 <= xx < x && 0 <= yy < HEIGHT ==> #[trigger] self.fb@[WIDTH * yy + xx]
                        == upright(s, xx, yy),
            decreases WIDTH - x,
        {
            let mut y: usize = 0;
            while y < HEIGHT
                invariant
                    x < WIDTH,
                    y <= HEIGHT,
                    self.wf(),
                    self.same_but_fb(old(self)),
                    sprite_sheet@ == s,
                    s.len() == WIDTH * HEIGHT,
                    forall|xx: int, yy: int|
                        ((0 <= xx < x && 0 <= yy < HEIGHT) || (xx == x && 0 <= yy < y))
                            ==> #[trigger] self.fb@[WIDTH * yy + xx] == upright(s, xx, yy),
                decreases HEIGHT - y,
            {
                let image_y = 255 - y;
                let offset = (WIDTH * image_y) + x;
                let frame_offset = (WIDTH * y) + x;
                self.fb.set(frame_offset, sprite_sheet[offset]);
                y = y + 1;
            }
            x = x + 1;
        }
    }

    /// Cell of the sheet that holds the letter for `character`.
    fn lookup_char(&self, character: char) -> (cell: usize)
        ensures
            cell == sprite_index(character),
    {
        match character {
            ' ' => 0,
            '!' => 1,
            '"' => 2,
            '#' => 3,
            '$' => 4,
            '%' => 5,
            '&' => 6,
            '\'' => 7,
            '(' => 40,
            ')' => 41,
            '*' => 42,
            '+' => 43,
            ',' => 44,
            '-' => 45,
            '.' => 46,
            '/' => 47,
            '0' => 64,
            '1' => 65,
            '2' => 66,
            '3' => 67,
            '4' => 68,
            '5' => 69,
            '6' => 70,
            '7' => 71,
            '8' => 96,
            '9' => 97,
            ':' => 98,
            ';' => 99,
            '<' => 100,
            '=' => 101,
            '>' => 102,
            '?' => 103,
            '@' => 128,
            'A' => 129,
            'B' => 130,
            'C' => 131,
            'D' => 132,
            'E' => 133,
            'F' => 134,
            'G' => 135,
            'H' => 160,
            'I' => 161,
            'J' => 162,
            'K' => 163,
            'L' => 164,
            'M' => 165,
            'N' => 166,
            'O' => 167,
            'P' => 192,
            'Q' => 193,
            'R' => 194,
            'S' => 195,
            'T' => 196,
            'U' => 197,
            'V' => 198,
            'W' => 199,
            'X' => 224,
            'Y' => 225,
            'Z' => 226,
            '[' => 227,
            '\\' => 228,
            ']' => 229,
            '^' => 230,
            '_' => 231,
            _ => 0,
        }
    }

    /// Puts the letter for `character` into the window with its top left
    /// corner at `(x, y)`.
    pub fn draw_sprite(&mut self, x: usize, y: usize, character: char)
        requires
            old(self).wf(),
            glyph_fits(x as int, y as int),
        ensures
            final(self).wf(),
            final(self).same_but_fb(old(self)),
            final(self).fb@ == glyph_drawn(
                old(self).fb@,
                sheet(old(self).font.bitmap@),
                character,
                x as int,
                y as int,
            ),
    {
        let sprite_sheet = self.create_fb();
        let sprite_value = self.lookup_char(character);
        proof {
            lemma_sprite_index_range(character);
        }
        let sprite_w: usize = SPRITE_SIZE;
        let sprite_h: usize = SPRITE_SIZE;
        let index_x = sprite_w * (sprite_value % 32);
        let index_y = sprite_h * (sprite_value / 32);
        let ghost s = sheet(self.font.bitmap@);
        let ghost fb0 = self.fb@;
        let mut offset: usize = 0;
        while offset < sprite_h
            invariant
                offset <= 32,
                sprite_h == 32,
                sprite_w == 32,
                sprite_value == sprite_index(character),
                sprite_value < 232,
                sprite_value % 32 < 16,
                sprite_value % 32 >= 8 ==> sprite_value / 32 == 1,
                index_x == 32 * (sprite_value % 32),
                index_y == 32 * (sprite_value / 32),
                glyph_fits(x as int, y as int),
                self.wf(),
                self.same_but_fb(old(self)),
                s == sheet(old(self).font.bitmap@),
                sprite_sheet@ == s,
                s.len() == WIDTH * HEIGHT,
                fb0 == old(self).fb@,
                fb0.len() == WIDTH * HEIGHT,
                self.fb@ == glyph_part(fb0, s, character, x as int, y as int, 32 * offset),
            decreases 32 - offset,
        {
            let mut line: usize = 0;
            while line < sprite_w
                invariant
                    offset < 32,
                    line <= 32,
                    sprite_h == 32,
                    sprite_w == 32,
                    sprite_value == sprite_index(character),
                    sprite_value < 232,
                    sprite_value % 32 < 16,
                    sprite_value % 32 >= 8 ==> sprite_value / 32 == 1,
                    index_x == 32 * (sprite_value % 32),
                    index_y == 32 * (sprite_value / 32),
                    glyph_fits(x as int, y as int),
                    self.wf(),
                    self.same_but_fb(old(self)),
                    sprite_sheet@ == s,
                    s.len() == WIDTH * HEIGHT,
                    fb0.len() == WIDTH * HEIGHT,
                    self.fb@ == glyph_part(fb0, s, character, x as int, y as int, 32 * offset + line),
                decreases 32 - line,
            {
                let i = index_y + offset;
                let j = index_x + line;
                let pixel = sprite_sheet[j + (255 - i) * HEIGHT];
                proof {
                    lemma_glyph_part_step(fb0, s, character, x as int, y as int, offset as int, line as int);
                }
                self.fb.set(x + line + WIDTH * (y + offset), pixel);
                line = line + 1;
            }
            offset = offset + 1;
        }
    }

    /// Puts the letters of `text` into the window, 10 pixels apart, the
    /// first with its top left corner at `(x, y)`.
    pub fn draw_chars(&mut self, text: &[char], x: usize, y: usize)
        requires
            old(self).wf(),
            text_fits(text@.len() as int, x as int, y as int),
        ensures
            final(self).wf(),
            final(self).same_but_fb(old(self)),
            final(self).fb@ == text_drawn(
                old(self).fb@,
                sheet(old(self).font.bitmap@),
                text@,
                x as int,
                y as int,
            ),
    {
        let ghost s = sheet(self.font.bitmap@);
        let mut cx = x;
        let mut i: usize = 0;
        while i < text.len()
            invariant
                i <= text@.len(),
                cx == x + LETTER_ADVANCE * i,
                text_fits(text@.len() as int, x as int, y as int),
                self.wf(),
                self.same_but_fb(old(self)),
                s == sheet(old(self).font.bitmap@),
                self.fb@ == text_drawn(old(self).fb@, s, text@.take(i as int), x as int, y as int),
            decreases text@.len() - i,
        {
            assert(text@.take(i + 1).drop_last() =~= text@.take(i as int));
            self.draw_sprite(cx, y, text[i]);
            cx = cx + LETTER_ADVANCE;
            i = i + 1;
        }
        assert(text@.take(i as int) =~= text@);
    }

    /// Puts `text` into the window in capitals, the letters 10 pixels apart
    /// from `(x, y)` on. When the capitals would not fit in the window,
    /// nothing is drawn and the result is `false`.
    pub fn draw_text(&mut self, text: &str, x: usize, y: usize) -> (drawn: bool)
        requires
            old(self).wf(),
        ensures
            final(self).wf(),
            final(self).same_but_fb(old(self)),
            is_ascii_text(text@) ==> upper_chars(text@) == text@.map_values(
                |c: char| ascii_upper(c),
            ),
            drawn == text_fits(upper_chars(text@).len() as int, x as int, y as int),
            drawn ==> final(self).fb@ == text_drawn(
                old(self).fb@,
                sheet(old(self).font.bitmap@),
                upper_chars(text@),
                x as int,
                y as int,
            ),
            !drawn ==> final(self).fb@ == old(self).fb@,
    {
        let upper = to_uppercase(text);
        let upper_str = upper.as_str();
        let n = upper_str.unicode_len();
        let mut letters: Vec<char> = Vec::new();
        let mut i: usize = 0;
        while i < n
            invariant
                i <= n,
                n == upper_str@.len(),
                letters@ == upper_str@.take(i as int),
            decreases n - i,
        {
            letters.push(upper_str.get_char(i));
            i = i + 1;
            assert(letters@ =~= upper_str@.take(i as int));
        }
        assert(letters@ =~= upper_chars(text@));
        let fits = if n == 0 {
            true
        } else if n > 7000 || x > 65536 || y > 256 {
            false
        } else {
            x + LETTER_ADVANCE * (n - 1) + 31 + WIDTH * (y + 31) < WIDTH * HEIGHT
        };
        if fits {
            self.draw_chars(letters.as_slice(), x, y);
        }
        fits
    }

    /// Puts `value` into the window as `TRUE` or `FALSE`.
    pub fn draw_bool(&mut self, value: bool, x: usize, y: usize)
        requires
            old(self).wf(),
            text_fits(bool_text(value).len() as int, x as int, y as int),
        ensures
            final(self).wf(),
            final(self).same_but_fb(old(self)),
            final(self).fb@ == text_drawn(
                old(self).fb@,
                sheet(old(self).font.bitmap@),
                bool_text(value),
                x as int,
                y as int,
            ),
    {
        let letters: Vec<char> = if value {
            vec!['T', 'R', 'U', 'E']
        } else {
            vec!['F', 'A', 'L', 'S', 'E']
        };
        assert(letters@ =~= bool_text(value));
        self.draw_chars(letters.as_slice(), x, y);
    }

    /// Puts `num` into the window in four hexadecimal digits.
    pub fn draw_num(&mut self, num: u8, x: usize, y: usize)
        requires
            old(self).wf(),
            text_fits(4, x as int, y as int),
        ensures
            final(self).wf(),
            final(self).same_but_fb(old(self)),
            final(self).fb@ == text_drawn(
                old(self).fb@,
                sheet(old(self).font.bitmap@),
                num_text(num),
                x as int,
                y as int,
            ),
    {
        let letters: Vec<char> = vec!['0', '0', hex_char(num / 16), hex_char(num % 16)];
        assert(letters@ =~= num_text(num));
        self.draw_chars(letters.as_slice(), x, y);
    }

    /// Writes the names of the shown registers down the window's left side.
    pub fn draw_register_text(&mut self)
        requires
            old(self).wf(),
        ensures
            final(self).wf(),
            final(self).same_but_fb(old(self)),
            final(self).fb@ == labels_drawn(old(self).fb@, sheet(old(self).font.bitmap@)),
    {
        proof {
            reveal_strlit("Opcode:");
            reveal_strlit("Register A:");
            reveal_strlit("PC:");
            reveal_strlit("Carry:");
            assert(is_ascii_text("Opcode:"@));
            assert(is_ascii_text("Register A:"@));
            assert(is_ascii_text("PC:"@));
            assert(is_ascii_text("Carry:"@));
            assert("Opcode:"@.map_values(|c: char| ascii_upper(c)) =~= seq![
                'O',
                'P',
                'C',
                'O',
                'D',
                'E',
                ':',
            ]);
            assert("Register A:"@.map_values(|c: char| ascii_upper(c)) =~= seq![
                'R',
                'E',
                'G',
                'I',
                'S',
                'T',
                'E',
                'R',
                ' ',
                'A',
                ':',
            ]);
            assert("PC:"@.map_values(|c: char| ascii_upper(c)) =~= seq!['P', 'C', ':']);
            assert("Carry:"@.map_values(|c: char| ascii_upper(c)) =~= seq![
                'C',
                'A',
                'R',
                'R',
                'Y',
                ':',
            ]);
        }
        self.draw_text("Opcode:", 10, 20);
        self.draw_text("Register A:", 10, 40);
        self.draw_text("PC:", 10, 60);
        self.draw_text("Carry:", 10, 80);
    }

    /// Writes the values of the shown registers beside their names.
    pub fn render_reg_values(&mut self, registers: &Registers)
        requires
            old(self).wf(),
        ensures
            final(self).wf(),
            final(self).same_but_fb(old(self)),
            final(self).fb@ == values_drawn(
                old(self).fb@,
                sheet(old(self).font.bitmap@),
                registers.opcode,
                registers.reg_a,
                registers.pc,
                registers.carry,
            ),
    {
        self.draw_num(registers.opcode, 130, 20);
        self.draw_num(registers.reg_a, 130, 40);
        self.draw_num((registers.pc % 256) as u8, 130, 60);
        self.draw_bool(registers.carry, 130, 80);
    }
}

} // verus!
