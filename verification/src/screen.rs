use vstd::prelude::*;

verus! {

/// Sprites of the hexadecimal digits `0` to `F`, five rows each.
pub const DIGITS: [[u8; 5]; 16] = [
    [0xF0, 0x90, 0x90, 0x90, 0xF0],
    [0x20, 0x60, 0x20, 0x20, 0x70],
    [0xF0, 0x10, 0xF0, 0x80, 0xF0],
    [0xF0, 0x10, 0xF0, 0x10, 0xF0],
    [0x90, 0x90, 0xF0, 0x10, 0x10],
    [0xF0, 0x80, 0xF0, 0x10, 0xF0],
    [0xF0, 0x80, 0xF0, 0x90, 0xF0],
    [0xF0, 0x10, 0x20, 0x40, 0x40],
    [0xF0, 0x90, 0xF0, 0x90, 0xF0],
    [0xF0, 0x90, 0xF0, 0x10, 0xF0],
    [0xF0, 0x90, 0xF0, 0x90, 0x90],
    [0xE0, 0x90, 0xE0, 0x90, 0xE0],
    [0xF0, 0x80, 0x80, 0x80, 0xF0],
    [0xE0, 0x90, 0x90, 0x90, 0xE0],
    [0xF0, 0x80, 0xF0, 0x80, 0xF0],
    [0xF0, 0x80, 0xF0, 0x80, 0x80],
];

/// Number of pixel columns.
pub const WIDTH: usize = 64;

/// Number of pixel rows.
pub const HEIGHT: usize = 32;

/// Character showing a lit pixel.
pub const PIXEL_ON: char = '█';

/// Character showing a dark pixel.
pub const PIXEL_OFF: char = ' ';

/// Up to `Sprite::MAX_LEN` rows of eight pixels.
#[derive(Debug, Clone)]
pub struct Sprite {
    bytes: Vec<u8>,
}

impl Sprite {
    /// The most rows a sprite has.
    pub const MAX_LEN: usize = 15;

    /// The sprite's rows.
    pub closed spec fn rows(&self) -> Seq<u8> {
        self.bytes@
    }

    /// The sprite made of the first `MAX_LEN` bytes of `value`.
    pub fn from(value: &[u8]) -> (s: Sprite)
        ensures
            s.rows() == value@.take(
                if value@.len() < 15 {
                    value@.len() as int
                } else {
                    15
                },
            ),
    {
        let len = if value.len() < Self::MAX_LEN {
            value.len()
        } else {
            Self::MAX_LEN
        };
        let mut bytes: Vec<u8> = Vec::new();
        let mut k: usize = 0;
        while k < len
            invariant
                0 <= k <= len,
                len <= value@.len(),
                bytes@ == value@.take(k as int),
            decreases len - k,
        {
            bytes.push(value[k]);
            k = k + 1;
            assert(bytes@ =~= value@.take(k as int));
        }
        Sprite { bytes }
    }

    /// The sprite's rows.
    pub fn bytes(&self) -> (b: &[u8])
        ensures
            b@ == self.rows(),
    {
        self.bytes.as_slice()
    }
}

/// A sprite row `byte` placed at column `x`: the byte's bits fill columns
/// `x` to `x + 7`, and the columns past the right edge are cut off.
pub open spec fn sprite_row(byte: u8, x: int) -> u64 {
    ((byte as u64) << 56u64) >> (x as u64)
}

/// Whether row `i` of the screen is covered by `sprite` drawn from row `y`.
pub open spec fn covers(sprite: Seq<u8>, y: int, i: int) -> bool {
    y <= i < y + sprite.len()
}

/// The screen rows after XORing `sprite` at (`x`, `y`); rows past the bottom
/// edge are cut off.
pub open spec fn spec_draw(pixels: Seq<u64>, sprite: Seq<u8>, x: int, y: int) -> Seq<u64> {
    Seq::new(
        pixels.len(),
        |i: int|
            if covers(sprite, y, i) {
                pixels[i] ^ sprite_row(sprite[i - y], x)
            } else {
                pixels[i]
            },
    )
}

/// Whether drawing `sprite` at (`x`, `y`) turns off a lit pixel of row `i`.
pub open spec fn erases_at(pixels: Seq<u64>, sprite: Seq<u8>, x: int, y: int, i: int) -> bool {
    0 <= i < pixels.len() && covers(sprite, y, i) && pixels[i] & sprite_row(sprite[i - y], x) != 0
}

/// Whether drawing `sprite` at (`x`, `y`) turns off any lit pixel.
pub open spec fn spec_collision(pixels: Seq<u64>, sprite: Seq<u8>, x: int, y: int) -> bool {
    exists|i: int| #[trigger] erases_at(pixels, sprite, x, y, i)
}

/// Whether column `c` of a row is lit; column `0` is the leftmost.
pub open spec fn pixel_on(row: u64, c: int) -> bool {
    row & (1u64 << ((63 - c) as u64)) != 0
}

/// The text of a row: one character per column.
pub open spec fn line_text(row: u64) -> Seq<char> {
    Seq::new(64, |c: int| if pixel_on(row, c) { PIXEL_ON } else { PIXEL_OFF })
}

/// A monochrome 64x32 display; each row is a `u64` whose most significant bit
/// is the leftmost pixel.
#[derive(Debug, Clone)]
pub struct StandardScreen {
    pub pixels: [u64; 32],
}

impl StandardScreen {
    /// The rows of the display, top first.
    pub open spec fn rows(&self) -> Seq<u64> {
        self.pixels@
    }

    /// A dark display.
    pub fn new() -> (s: StandardScreen)
        ensures
            s.rows() == Seq::new(32, |i: int| 0u64),
    {
        let s = StandardScreen { pixels: [0u64; 32] };
        assert(s.rows() =~= Seq::new(32, |i: int| 0u64));
        s
    }

    /// Turn every pixel off.
    pub fn clear(&mut self)
        ensures
            final(self).rows() == Seq::new(32, |i: int| 0u64),
    {
        let mut k: usize = 0;
        while k < HEIGHT
            invariant
                0 <= k <= HEIGHT,
                forall|i: int| 0 <= i < k ==> #[trigger] self.pixels@[i] == 0u64,
            decreases HEIGHT - k,
        {
            self.pixels.set(k, 0u64);
            k = k + 1;
        }
        assert(self.rows() =~= Seq::new(32, |i: int| 0u64));
    }

    /// XOR `sprite` onto the display at column `x % 64`, row `y % 32`; returns
    /// whether any pixel was turned off.
    pub fn write_sprite(&mut self, sprite: &Sprite, x: usize, y: usize) -> (turned_off: bool)
        ensures
            final(self).rows() == spec_draw(
                old(self).rows(),
                sprite.rows(),
                (x % 64) as int,
                (y % 32) as int,
            ),
            turned_off == spec_collision(
                old(self).rows(),
                sprite.rows(),
                (x % 64) as int,
                (y % 32) as int,
            ),
    {
        let x = x % WIDTH;
        let y = y % HEIGHT;
        let bytes = sprite.bytes();
        let len = bytes.len();
        let ghost old_rows = self.pixels@;
        let ghost rows = sprite.rows();
        let mut turned_off = false;
        let mut k: usize = 0;
        while k < len && y + k < HEIGHT
            invariant
                0 <= k <= len,
                len == rows.len(),
                bytes@ == rows,
                x < 64,
                y < 32,
                y + k <= 32,
                old_rows.len() == 32,
                forall|i: int|
                    0 <= i < 32 ==> #[trigger] self.pixels@[i] == (if y <= i < y + k {
                        old_rows[i] ^ sprite_row(rows[i - y], x as int)
                    } else {
                        old_rows[i]
                    }),
                turned_off == exists|i: int|
                    y <= i < y + k && #[trigger] erases_at(old_rows, rows, x as int, y as int, i),
            decreases len - k,
        {
            let i = y + k;
            let b = bytes[k];
            let shifted: u64 = ((b as u64) << 56u64) >> (x as u64);
            assert(shifted == sprite_row(rows[k as int], x as int));
            let row = self.pixels[i];
            if row & shifted != 0 {
                assert(erases_at(old_rows, rows, x as int, y as int, i as int));
                turned_off = true;
            }
            self.pixels.set(i, row ^ shifted);
            k = k + 1;
        }
        proof {
            assert forall|i: int| #[trigger]
                erases_at(old_rows, rows, x as int, y as int, i) implies y <= i < y + k by {}
            assert(self.pixels@ =~= spec_draw(old_rows, rows, x as int, y as int));
        }
        turned_off
    }

    /// The text of row `row`: `PIXEL_ON` for a lit pixel, `PIXEL_OFF` otherwise.
    pub fn line(&self, row: usize) -> (s: String)
        requires
            row < 32,
        ensures
            s@ == line_text(self.pixels@[row as int]),
    {
        let p = self.pixels[row];
        let mut pixels = String::new();
        let mut mask: u64 = 1u64 << 63u64;
        let mut c: usize = 0;
        proof {
            reveal_strlit("█");
            reveal_strlit(" ");
        }
        while c < WIDTH
            invariant
                0 <= c <= 64,
                c < 64 ==> mask == 1u64 << ((63 - c) as u64),
                pixels@ == line_text(p).take(c as int),
                "█"@ == seq![PIXEL_ON],
                " "@ == seq![PIXEL_OFF],
            decreases WIDTH - c,
        {
            if p & mask != 0 {
                pixels.append("█");
            } else {
                pixels.append(" ");
            }
            assert(pixels@ =~= line_text(p).take(c + 1));
            proof {
                let s: u64 = (63 - c) as u64;
                if c < 63 {
                    assert(1 <= s < 64 ==> (1u64 << s) >> 1u64 == 1u64 << ((s - 1) as u64))
                        by (bit_vector);
                }
            }
            mask = mask >> 1u64;
            c = c + 1;
        }
        assert(pixels@ =~= line_text(p));
        pixels
    }

    /// The text of every row, top first.
    pub fn lines(&self) -> (v: Vec<String>)
        ensures
            v@.len() == 32,
            forall|i: int| 0 <= i < 32 ==> #[trigger] v@[i]@ == line_text(self.pixels@[i]),
    {
        let mut lines: Vec<String> = Vec::new();
        let mut k: usize = 0;
        while k < HEIGHT
            invariant
                0 <= k <= 32,
                lines@.len() == k,
                forall|i: int| 0 <= i < k ==> #[trigger] lines@[i]@ == line_text(self.pixels@[i]),
            decreases HEIGHT - k,
        {
            lines.push(self.line(k));
            k = k + 1;
        }
        lines
    }
}

impl Default for StandardScreen {
    fn default() -> (s: StandardScreen)
        ensures
            s.rows() == Seq::new(32, |i: int| 0u64),
    {
        StandardScreen::new()
    }
}

} // verus!
