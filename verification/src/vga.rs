//! The early console: a model of the legacy text-mode video buffer.
//!
//! The screen is a fixed grid of character cells, each a byte and a color
//! pair. A cursor walks the grid; writing past the last column advances to
//! the next row, a newline moves to the start of the next row and blanks
//! it, and when the cursor is on the last row the rows scroll up by one.
//!
//! This module owns the grid as plain data and verifies the cursor and
//! scrolling logic. The caller that drives real hardware mirrors each cell
//! into volatile video memory; that mirroring is outside this crate.

use vstd::prelude::*;
use vstd::string::StringSliceAdditionalSpecFns;

verus! {

pub const BUF_HEIGHT: usize = 25;

pub const BUF_WIDTH: usize = 80;

/// The classic 16-color text-mode palette.
#[derive(Clone, Copy, Debug, PartialEq, Eq, Structural)]
pub enum Color {
    Black,
    Blue,
    Green,
    Cyan,
    Red,
    Magenta,
    Brown,
    LightGray,
    DarkGray,
    LightBlue,
    LightGreen,
    LightCyan,
    LightRed,
    Pink,
    Yellow,
    White,
}

impl Color {
    /// The palette index of this color.
    pub open spec fn spec_code(self) -> u8 {
        match self {
            Color::Black => 0,
            Color::Blue => 1,
            Color::Green => 2,
            Color::Cyan => 3,
            Color::Red => 4,
            Color::Magenta => 5,
            Color::Brown => 6,
            Color::LightGray => 7,
            Color::DarkGray => 8,
            Color::LightBlue => 9,
            Color::LightGreen => 10,
            Color::LightCyan => 11,
            Color::LightRed => 12,
            Color::Pink => 13,
            Color::Yellow => 14,
            Color::White => 15,
        }
    }

    pub fn code(self) -> (r: u8)
        ensures
            r == self.spec_code(),
    {
        match self {
            Color::Black => 0,
            Color::Blue => 1,
            Color::Green => 2,
            Color::Cyan => 3,
            Color::Red => 4,
            Color::Magenta => 5,
            Color::Brown => 6,
            Color::LightGray => 7,
            Color::DarkGray => 8,
            Color::LightBlue => 9,
            Color::LightGreen => 10,
            Color::LightCyan => 11,
            Color::LightRed => 12,
            Color::Pink => 13,
            Color::Yellow => 14,
            Color::White => 15,
        }
    }
}

/// A foreground/background color pair, packed as the hardware expects it:
/// background in the high nibble, foreground in the low nibble.
#[derive(Clone, Copy, Debug, PartialEq, Eq, Structural)]
pub struct ColorSpec(pub u8);

impl ColorSpec {
    /// The packed byte for a foreground/background pair.
    pub open spec fn spec_new(fg: Color, bg: Color) -> u8 {
        ((bg.spec_code() << 4) | fg.spec_code()) as u8
    }

    pub fn new(fg: Color, bg: Color) -> (r: ColorSpec)
        ensures
            r.0 == ColorSpec::spec_new(fg, bg),
    {
        let bg_bits = bg.code() << 4;
        ColorSpec(bg_bits | fg.code())
    }
}

/// One character cell: a byte of text and its color pair.
#[derive(Clone, Copy, Debug, PartialEq, Eq, Structural)]
pub struct Character {
    pub ch: u8,
    pub color: ColorSpec,
}

/// Mathematical model of the console: the grid of cells, the cursor, and
/// the current color.
#[verifier::ext_equal]
pub ghost struct BufferView {
    pub rows: Seq<Seq<Character>>,
    pub row: int,
    pub col: int,
    pub color: ColorSpec,
}

/// A full row of blank cells in the given color.
pub open spec fn blank_row(color: ColorSpec) -> Seq<Character> {
    Seq::new(BUF_WIDTH as nat, |j: int| Character { ch: 32u8, color })
}

/// Every row moved up by one; the last row is left as it was (the caller
/// blanks it right after).
pub open spec fn spec_scroll(rows: Seq<Seq<Character>>) -> Seq<Seq<Character>> {
    Seq::new(
        rows.len(),
        |i: int|
            if i + 1 < rows.len() {
                rows[i + 1]
            } else {
                rows[i]
            },
    )
}

/// Move to the start of the next row and blank it; on the last row, scroll
/// instead and blank the freed bottom row.
pub open spec fn spec_newline(v: BufferView) -> BufferView {
    let scrolls = !(v.row + 1 < BUF_HEIGHT as int);
    let rows1 = if scrolls {
        spec_scroll(v.rows)
    } else {
        v.rows
    };
    let row1 = if scrolls {
        v.row
    } else {
        v.row + 1
    };
    BufferView { rows: rows1.update(row1, blank_row(v.color)), row: row1, col: 0, ..v }
}

/// A full cursor advance past the last column: move to the next row
/// without blanking it, or scroll when already on the last row.
pub open spec fn spec_advance(v: BufferView) -> BufferView {
    if v.row + 1 < BUF_HEIGHT as int {
        BufferView { row: v.row + 1, col: 0, ..v }
    } else {
        spec_newline(v)
    }
}

/// Write one byte at the cursor: a newline moves the cursor, any other
/// byte lands in the current cell (after wrapping a full line) and moves
/// the cursor one column right.
pub open spec fn spec_write_char(v: BufferView, ch: u8) -> BufferView {
    if ch == 10u8 {
        spec_newline(v)
    } else {
        let v1 = if v.col >= BUF_WIDTH as int {
            spec_advance(v)
        } else {
            v
        };
        BufferView {
            rows: v1.rows.update(
                v1.row,
                v1.rows[v1.row].update(v1.col, Character { ch, color: v1.color }),
            ),
            col: v1.col + 1,
            ..v1
        }
    }
}

/// Write a byte sequence, left to right.
pub open spec fn spec_write_bytes(v: BufferView, s: Seq<u8>) -> BufferView
    decreases s.len(),
{
    if s.len() == 0 {
        v
    } else {
        spec_write_char(spec_write_bytes(v, s.drop_last()), s.last())
    }
}

/// The console model: grid, cursor, current color.
pub struct Buffer {
    col: usize,
    row: usize,
    color: ColorSpec,
    buf: Vec<Vec<Character>>,
}

impl View for Buffer {
    type V = BufferView;

    closed spec fn view(&self) -> BufferView {
        BufferView {
            rows: Seq::new(self.buf@.len(), |i: int| self.buf@[i]@),
            row: self.row as int,
            col: self.col as int,
            color: self.color,
        }
    }
}

/// The cursor stays on the grid and every row has its full width.
pub open spec fn view_wf(v: BufferView) -> bool {
    &&& v.rows.len() == BUF_HEIGHT as int
    &&& forall|i: int| 0 <= i < v.rows.len() ==> (#[trigger] v.rows[i]).len() == BUF_WIDTH as int
    &&& 0 <= v.row < BUF_HEIGHT as int
    &&& 0 <= v.col <= BUF_WIDTH as int
}

impl Buffer {
    pub open spec fn wf(&self) -> bool {
        view_wf(self@)
    }

    /// A fresh console: every cell blank in the given color, cursor at the
    /// top left.
    pub fn new(color: ColorSpec) -> (b: Buffer)
        ensures
            b.wf(),
            b@ == (BufferView {
                rows: Seq::new(BUF_HEIGHT as nat, |i: int| blank_row(color)),
                row: 0,
                col: 0,
                color,
            }),
    {
        let mut buf: Vec<Vec<Character>> = Vec::new();
        let mut i: usize = 0;
        while i < BUF_HEIGHT
            invariant
                i <= BUF_HEIGHT,
                buf@.len() == i,
                forall|k: int| 0 <= k < i ==> (#[trigger] buf@[k])@ == blank_row(color),
            decreases BUF_HEIGHT - i,
        {
            let mut line: Vec<Character> = Vec::new();
            let mut j: usize = 0;
            while j < BUF_WIDTH
                invariant
                    j <= BUF_WIDTH,
                    line@.len() == j,
                    forall|k: int| 0 <= k < j ==> line@[k] == (Character { ch: 32u8, color }),
                decreases BUF_WIDTH - j,
            {
                line.push(Character { ch: 32u8, color });
                j = j + 1;
            }
            proof {
                assert(line@ =~= blank_row(color));
            }
            buf.push(line);
            i = i + 1;
        }
        let b = Buffer { col: 0, row: 0, color, buf };
        proof {
            assert(b@ =~= (BufferView {
                rows: Seq::new(BUF_HEIGHT as nat, |k: int| blank_row(color)),
                row: 0,
                col: 0,
                color,
            }));
        }
        b
    }

    /// Change the color used for the cells written from here on.
    pub fn set_color(&mut self, color: ColorSpec)
        ensures
            final(self)@ == (BufferView { color, ..old(self)@ }),
    {
        self.color = color;
    }

    /// The blank cell in the current color.
    pub fn blank(&self) -> (c: Character)
        ensures
            c == (Character { ch: 32u8, color: self@.color }),
    {
        self.character(32)
    }

    /// A cell holding `ch` in the current color.
    pub fn character(&self, ch: u8) -> (c: Character)
        ensures
            c == (Character { ch, color: self@.color }),
    {
        Character { ch, color: self.color }
    }

    /// A full row of blank cells in the current color.
    fn blank_row_vec(&self) -> (v: Vec<Character>)
        ensures
            v@ == blank_row(self@.color),
    {
        let mut v: Vec<Character> = Vec::new();
        let mut j: usize = 0;
        while j < BUF_WIDTH
            invariant
                j <= BUF_WIDTH,
                v@.len() == j,
                forall|k: int| 0 <= k < j ==> v@[k] == (Character { ch: 32u8, color: self@.color }),
            decreases BUF_WIDTH - j,
        {
            v.push(Character { ch: 32, color: self.color });
            j = j + 1;
        }
        proof {
            assert(v@ =~= blank_row(self@.color));
        }
        v
    }

    /// Move to the start of the next row and blank it, scrolling when the
    /// cursor is already on the last row.
    pub fn newline(&mut self)
        requires
            old(self).wf(),
        ensures
            final(self).wf(),
            final(self)@ == spec_newline(old(self)@),
    {
        let blank = self.blank_row_vec();
        if self.row + 1 < BUF_HEIGHT {
            self.row = self.row + 1;
            self.buf[self.row] = blank;
        } else {
            self.buf.remove(0);
            self.buf.push(blank);
        }
        self.col = 0;
        proof {
            assert(self@.rows =~= spec_newline(old(self)@).rows);
            assert(self@ =~= spec_newline(old(self)@));
        }
    }

    /// Write one byte at the cursor.
    pub fn write_char(&mut self, ch: u8)
        requires
            old(self).wf(),
        ensures
            final(self).wf(),
            final(self)@ == spec_write_char(old(self)@, ch),
    {
        if ch == 10 {
            self.newline();
            return ;
        }
        if self.col >= BUF_WIDTH {
            if self.row + 1 < BUF_HEIGHT {
                self.row = self.row + 1;
                self.col = 0;
            } else {
                self.newline();
            }
        }
        let c = Character { ch, color: self.color };
        proof {
            assert((#[trigger] self@.rows[self.row as int]).len() == BUF_WIDTH as int);
            assert(self.buf@.len() == BUF_HEIGHT as int);
            assert(self.buf@[self.row as int]@.len() == BUF_WIDTH as int);
        }
        self.buf[self.row][self.col] = c;
        self.col = self.col + 1;
        proof {
            assert(self@.rows =~= spec_write_char(old(self)@, ch).rows);
            assert(self@ =~= spec_write_char(old(self)@, ch));
        }
    }

    /// Write a string, byte by byte. The buffer shows single-byte
    /// characters only, so the text must be ASCII.
    pub fn write(&mut self, s: &str)
        requires
            old(self).wf(),
            vstd::string::is_ascii(s),
        ensures
            final(self).wf(),
            final(self)@ == spec_write_bytes(old(self)@, s.spec_bytes()),
    {
        let bytes = s.as_bytes();
        let n = bytes.len();
        let mut i: usize = 0;
        while i < n
            invariant
                n == bytes@.len(),
                i <= n,
                bytes@ == s.spec_bytes(),
                self.wf(),
                self@ == spec_write_bytes(old(self)@, bytes@.take(i as int)),
            decreases n - i,
        {
            proof {
                assert(bytes@.take(i + 1).drop_last() =~= bytes@.take(i as int));
            }
            self.write_char(bytes[i]);
            i = i + 1;
        }
        proof {
            assert(bytes@.take(n as int) =~= bytes@);
        }
    }

    /// The cursor's row.
    pub fn row(&self) -> (r: usize)
        ensures
            r == self@.row,
    {
        self.row
    }

    /// The cursor's column.
    pub fn col(&self) -> (c: usize)
        ensures
            c == self@.col,
    {
        self.col
    }

    /// The cell at a grid position.
    pub fn cell_at(&self, row: usize, col: usize) -> (c: Character)
        requires
            self.wf(),
            row < BUF_HEIGHT,
            col < BUF_WIDTH,
        ensures
            c == self@.rows[row as int][col as int],
    {
        proof {
            assert((#[trigger] self@.rows[row as int]).len() == BUF_WIDTH as int);
            assert(self.buf@.len() == BUF_HEIGHT as int);
            assert(self.buf@[row as int]@.len() == BUF_WIDTH as int);
        }
        self.buf[row][col]
    }
}

} // verus!
