//! The character-cell text driver: a 25-row, 80-column grid of colored
//! ASCII cells with a cursor, line wrap, and scrolling.
//!
//! The writer owns its cells as plain values; the surrounding program
//! copies them into the memory-mapped display region (and holds the
//! process-wide writer instance behind its lock).

use vstd::prelude::*;
use vstd::string::StringSliceAdditionalSpecFns;

verus! {

pub const BUFFER_HEIGHT: usize = 25;

pub const BUFFER_WIDTH: usize = 80;

/// The sixteen display colors, in their hardware numbering.
#[derive(Clone, Copy, Debug, PartialEq, Eq, Structural)]
pub enum Color {
    Black,
    Blue,
    Green,
    Cyan,
    Red,
    Magenta,
    Brown,
    LightGray,
    DarkGray,
    LightBlue,
    LightGreen,
    LightCyan,
    LightRed,
    Pink,
    Yellow,
    White,
}

impl Color {
    pub open spec fn spec_code(self) -> u8 {
        match self {
            Color::Black => 0,
            Color::Blue => 1,
            Color::Green => 2,
            Color::Cyan => 3,
            Color::Red => 4,
            Color::Magenta => 5,
            Color::Brown => 6,
            Color::LightGray => 7,
            Color::DarkGray => 8,
            Color::LightBlue => 9,
            Color::LightGreen => 10,
            Color::LightCyan => 11,
            Color::LightRed => 12,
            Color::Pink => 13,
            Color::Yellow => 14,
            Color::White => 15,
        }
    }

    pub fn code(self) -> (r: u8)
        ensures
            r == self.spec_code(),
    {
        match self {
            Color::Black => 0,
            Color::Blue => 1,
            Color::Green => 2,
            Color::Cyan => 3,
            Color::Red => 4,
            Color::Magenta => 5,
            Color::Brown => 6,
            Color::LightGray => 7,
            Color::DarkGray => 8,
            Color::LightBlue => 9,
            Color::LightGreen => 10,
            Color::LightCyan => 11,
            Color::LightRed => 12,
            Color::Pink => 13,
            Color::Yellow => 14,
            Color::White => 15,
        }
    }
}

/// A packed foreground/background color pair: low four bits foreground,
/// high four bits background.
#[derive(Clone, Copy, Debug, PartialEq, Eq, Structural)]
pub struct ColorCode(pub u8);

impl ColorCode {
    pub open spec fn spec_new(foreground: Color, background: Color) -> ColorCode {
        ColorCode((background.spec_code() << 4) | foreground.spec_code())
    }

    pub fn new(foreground: Color, background: Color) -> (r: ColorCode)
        ensures
            r == ColorCode::spec_new(foreground, background),
    {
        ColorCode((background.code() << 4) | foreground.code())
    }
}

/// One display cell: an ASCII byte and its color pair.
#[derive(Clone, Copy, Debug, PartialEq, Eq, Structural)]
pub struct ScreenChar {
    pub ascii_character: u8,
    pub color_code: ColorCode,
}

/// The abstract state of the display: the grid row by row, the cursor, and
/// the current color pair.
pub ghost struct ScreenState {
    pub grid: Seq<ScreenChar>,
    pub row: int,
    pub col: int,
    pub color: ColorCode,
}

pub open spec fn spec_blank(color: ColorCode) -> ScreenChar {
    ScreenChar { ascii_character: 0, color_code: color }
}

/// The grid after scrolling one row up: every row takes the contents of
/// the row below it, and the bottom row is cleared to `fill`.
pub open spec fn spec_scrolled(grid: Seq<ScreenChar>, fill: ScreenChar) -> Seq<ScreenChar> {
    Seq::new(2000, |i: int| if i < 1920 { grid[i + 80] } else { fill })
}

/// The state after moving to a new line: the cursor goes to the start of
/// the next row, scrolling when the cursor is already on the bottom row.
pub open spec fn spec_newline(s: ScreenState) -> ScreenState {
    if s.row >= 24 {
        ScreenState { grid: spec_scrolled(s.grid, spec_blank(s.color)), row: 24, col: 0, ..s }
    } else {
        ScreenState { row: s.row + 1, col: 0, ..s }
    }
}

/// The state after writing one byte: a newline moves the cursor, any other
/// byte lands at the cursor (after wrapping a full line) and advances it.
pub open spec fn spec_put(s: ScreenState, b: u8) -> ScreenState {
    if b == 10 {
        spec_newline(s)
    } else {
        let t = if s.col >= 80 {
            spec_newline(s)
        } else {
            s
        };
        ScreenState {
            grid: t.grid.update(
                t.row * 80 + t.col,
                ScreenChar { ascii_character: b, color_code: s.color },
            ),
            col: t.col + 1,
            ..t
        }
    }
}

/// Bytes outside the printable ASCII range (other than newline) are shown
/// as the fallback glyph 0xfe.
pub open spec fn spec_translate(b: u8) -> u8 {
    if b == 10 || (0x20 <= b && b <= 0x7e) {
        b
    } else {
        0xfe
    }
}

/// The state after writing a whole byte string, each byte translated then
/// written in turn.
pub open spec fn spec_write_bytes(s: ScreenState, bytes: Seq<u8>) -> ScreenState
    decreases bytes.len(),
{
    if bytes.len() == 0 {
        s
    } else {
        spec_write_bytes(spec_put(s, spec_translate(bytes[0])), bytes.skip(1))
    }
}

proof fn lemma_write_bytes_snoc(s: ScreenState, bytes: Seq<u8>, b: u8)
    ensures
        spec_write_bytes(s, bytes.push(b)) == spec_put(
            spec_write_bytes(s, bytes),
            spec_translate(b),
        ),
    decreases bytes.len(),
{
    if bytes.len() == 0 {
        assert(bytes.push(b)[0] == b);
        assert(bytes.push(b).skip(1) =~= Seq::<u8>::empty());
        assert(spec_write_bytes(s, bytes.push(b)) == spec_write_bytes(
            spec_put(s, spec_translate(b)),
            bytes.push(b).skip(1),
        ));
        assert(spec_write_bytes(spec_put(s, spec_translate(b)), bytes.push(b).skip(1))
            == spec_put(s, spec_translate(b)));
        assert(spec_write_bytes(s, bytes) == s);
    } else {
        assert(bytes.push(b)[0] == bytes[0]);
        assert(bytes.push(b).skip(1) =~= bytes.skip(1).push(b));
        lemma_write_bytes_snoc(spec_put(s, spec_translate(bytes[0])), bytes.skip(1), b);
    }
}

/// The text writer: cursor position, current color pair, and the owned
/// grid of cells.
pub struct VGAWriter {
    pub col: usize,
    pub row: usize,
    pub fgbg: ColorCode,
    pub cells: Vec<ScreenChar>,
}

impl View for VGAWriter {
    type V = ScreenState;

    open spec fn view(&self) -> ScreenState {
        ScreenState {
            grid: self.cells@,
            row: self.row as int,
            col: self.col as int,
            color: self.fgbg,
        }
    }
}

impl VGAWriter {
    pub open spec fn wf(&self) -> bool {
        &&& self.cells@.len() == 2000
        &&& self.row < 25
        &&& self.col <= 80
    }

    /// A writer with a blank grid, the cursor at the top left, and the
    /// given color pair.
    pub fn new(fgbg: ColorCode) -> (r: VGAWriter)
        ensures
            r.wf(),
            r@.row == 0,
            r@.col == 0,
            r@.color == fgbg,
            forall|i: int| 0 <= i < 2000 ==> r@.grid[i] == spec_blank(fgbg),
    {
        let mut cells: Vec<ScreenChar> = Vec::new();
        let mut i: usize = 0;
        while i < 2000
            invariant
                i <= 2000,
                cells@.len() == i,
                forall|j: int| 0 <= j < i ==> cells@[j] == spec_blank(fgbg),
            decreases 2000 - i,
        {
            cells.push(ScreenChar { ascii_character: 0, color_code: fgbg });
            i = i + 1;
        }
        VGAWriter { col: 0, row: 0, fgbg, cells }
    }

    /// Writes every byte of `s`, showing bytes outside the printable range
    /// (other than newline) as the fallback glyph.
    pub fn write_string(&mut self, s: &str)
        requires
            old(self).wf(),
        ensures
            final(self).wf(),
            final(self)@ == spec_write_bytes(old(self)@, s.spec_bytes()),
    {
        let ghost start = self@;
        let bytes: &[u8] = s.as_bytes();
        let mut i: usize = 0;
        while i < bytes.len()
            invariant
                i <= bytes@.len(),
                bytes@ == s.spec_bytes(),
                self.wf(),
                self@ == spec_write_bytes(start, bytes@.take(i as int)),
            decreases bytes@.len() - i,
        {
            let b = bytes[i];
            if b == 10 || (0x20 <= b && b <= 0x7e) {
                self.write_byte(b);
            } else {
                self.write_byte(0xfe);
            }
            proof {
                lemma_write_bytes_snoc(start, bytes@.take(i as int), b);
                assert(bytes@.take(i + 1 as int) =~= bytes@.take(i as int).push(b));
            }
            i = i + 1;
        }
        proof {
            assert(bytes@.take(bytes@.len() as int) =~= bytes@);
        }
    }

    /// Writes one byte: newline moves the cursor down, any other byte
    /// lands at the cursor, wrapping first when the line is full.
    pub fn write_byte(&mut self, byte: u8)
        requires
            old(self).wf(),
        ensures
            final(self).wf(),
            final(self)@ == spec_put(old(self)@, byte),
    {
        if byte == 10 {
            self.new_line();
        } else {
            if self.col >= 80 {
                self.new_line();
            }
            let idx: usize = self.row * 80 + self.col;
            self.cells.set(idx, ScreenChar { ascii_character: byte, color_code: self.fgbg });
            self.col = self.col + 1;
        }
    }

    /// Moves the cursor to the start of the next row; on the bottom row
    /// the grid scrolls up one row instead and the bottom row is cleared.
    fn new_line(&mut self)
        requires
            old(self).wf(),
        ensures
            final(self).wf(),
            final(self)@ == spec_newline(old(self)@),
    {
        let ghost start = self@;
        if self.row >= 24 {
            let mut i: usize = 0;
            while i < 1920
                invariant
                    i <= 1920,
                    self.cells@.len() == 2000,
                    self.row == old(self).row,
                    self.col == old(self).col,
                    self.fgbg == old(self).fgbg,
                    forall|j: int| 0 <= j < i ==> self.cells@[j] == start.grid[j + 80],
                    forall|j: int| i <= j < 2000 ==> self.cells@[j] == start.grid[j],
                decreases 1920 - i,
            {
                let c = self.cells[i + 80];
                self.cells.set(i, c);
                i = i + 1;
            }
            self.clear_row(24);
            proof {
                assert(self.cells@ =~= spec_scrolled(start.grid, spec_blank(start.color)));
            }
        } else {
            self.row = self.row + 1;
        }
        self.col = 0;
    }

    /// Clears one row to blank cells in the current color pair.
    pub fn clear_row(&mut self, row: usize)
        requires
            old(self).wf(),
            row < 25,
        ensures
            final(self).wf(),
            final(self).row == old(self).row,
            final(self).col == old(self).col,
            final(self).fgbg == old(self).fgbg,
            forall|i: int|
                0 <= i < 2000 ==> final(self).cells@[i] == (if 80 * row <= i < 80 * row + 80 {
                    spec_blank(old(self).fgbg)
                } else {
                    old(self).cells@[i]
                }),
    {
        let blank = ScreenChar { ascii_character: 0, color_code: self.fgbg };
        let mut col: usize = 0;
        while col < 80
            invariant
                col <= 80,
                row < 25,
                self.cells@.len() == 2000,
                self.row == old(self).row,
                self.col == old(self).col,
                self.fgbg == old(self).fgbg,
                blank == spec_blank(old(self).fgbg),
                forall|i: int|
                    0 <= i < 2000 ==> self.cells@[i] == (if 80 * row <= i < 80 * row + col {
                        spec_blank(old(self).fgbg)
                    } else {
                        old(self).cells@[i]
                    }),
            decreases 80 - col,
        {
            self.cells.set(row * 80 + col, blank);
            col = col + 1;
        }
    }

    /// Clears the whole grid to blank cells in the current color pair.
    pub fn clear(&mut self)
        requires
            old(self).wf(),
        ensures
            final(self).wf(),
            final(self).row == old(self).row,
            final(self).col == old(self).col,
            final(self).fgbg == old(self).fgbg,
            forall|i: int|
                0 <= i < 2000 ==> final(self).cells@[i] == spec_blank(old(self).fgbg),
    {
        let mut row: usize = 0;
        while row < 25
            invariant
                row <= 25,
                self.wf(),
                self.row == old(self).row,
                self.col == old(self).col,
                self.fgbg == old(self).fgbg,
                forall|i: int|
                    0 <= i < 2000 ==> self.cells@[i] == (if i < 80 * row {
                        spec_blank(old(self).fgbg)
                    } else {
                        old(self).cells@[i]
                    }),
            decreases 25 - row,
        {
            self.clear_row(row);
            row = row + 1;
        }
    }

    /// The cell stored at the given row and column.
    pub fn cell_at(&self, row: usize, col: usize) -> (r: ScreenChar)
        requires
            self.wf(),
            row < 25,
            col < 80,
        ensures
            r == self@.grid[row * 80 + col],
    {
        self.cells[row * 80 + col]
    }
}

} // verus!
