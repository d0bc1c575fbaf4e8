//! A model of the 80 x 25 text-mode screen: a grid of cells that is written
//! on its bottom row and scrolls up by one row on a newline or a full row.

use vstd::prelude::*;
use vstd::string::StringSliceAdditionalSpecFns;

verus! {

pub const BUF_HEIGHT: usize = 25;

pub const BUF_WIDTH: usize = 80;

/// Number of cells on the screen.
pub const BUF_CELLS: usize = 2000;

/// The space character.
pub const SPACE: u8 = 0x20;

/// The newline character.
pub const NEWLINE: u8 = 0x0a;

/// Byte shown in place of one that is neither printable ASCII nor a newline.
pub const REPLACEMENT_BYTE: u8 = 0xfe;

/// The sixteen text-mode colours.
#[derive(Clone, Copy, Debug, PartialEq, Eq)]
pub enum Color {
    Black,
    Blue,
    Green,
    Cyan,
    Red,
    Magenta,
    Brown,
    LightGray,
    DarkGray,
    LightBlue,
    LightGreen,
    LightCyan,
    LightRed,
    Pink,
    Yellow,
    White,
}

impl Color {
    /// The 4-bit hardware number of the colour.
    pub open spec fn spec_value(self) -> u8 {
        match self {
            Color::Black => 0,
            Color::Blue => 1,
            Color::Green => 2,
            Color::Cyan => 3,
            Color::Red => 4,
            Color::Magenta => 5,
            Color::Brown => 6,
            Color::LightGray => 7,
            Color::DarkGray => 8,
            Color::LightBlue => 9,
            Color::LightGreen => 10,
            Color::LightCyan => 11,
            Color::LightRed => 12,
            Color::Pink => 13,
            Color::Yellow => 14,
            Color::White => 15,
        }
    }

    pub fn value(self) -> (r: u8)
        ensures
            r == self.spec_value(),
            r < 16,
    {
        match self {
            Color::Black => 0,
            Color::Blue => 1,
            Color::Green => 2,
            Color::Cyan => 3,
            Color::Red => 4,
            Color::Magenta => 5,
            Color::Brown => 6,
            Color::LightGray => 7,
            Color::DarkGray => 8,
            Color::LightBlue => 9,
            Color::LightGreen => 10,
            Color::LightCyan => 11,
            Color::LightRed => 12,
            Color::Pink => 13,
            Color::Yellow => 14,
            Color::White => 15,
        }
    }
}

/// A cell's attribute byte: background colour in the high nibble, foreground
/// colour in the low nibble.
#[derive(Clone, Copy, Debug, PartialEq, Eq)]
pub struct ColorCode(pub u8);

impl ColorCode {
    pub fn new(background: Color, foreground: Color) -> (r: ColorCode)
        ensures
            r.0 == background.spec_value() * 16 + foreground.spec_value(),
    {
        let b = background.value();
        let f = foreground.value();
        assert(((b << 4u8) | f) == b * 16 + f) by (bit_vector)
            requires
                b < 16,
                f < 16,
        ;
        ColorCode((b << 4u8) | f)
    }

    pub fn bits(self) -> (r: u8)
        ensures
            r == self.0,
    {
        self.0
    }
}

/// One screen cell: a character byte and its attribute byte.
#[derive(Clone, Copy, Debug, PartialEq, Eq)]
pub struct ScreenChar {
    pub ascii_char: u8,
    pub color_code: ColorCode,
}

/// The screen's cells, row after row, top row first.
pub struct Buffer {
    pub chars: Vec<ScreenChar>,
}

/// A space in the given colours.
pub open spec fn blank_of(color: ColorCode) -> ScreenChar {
    ScreenChar { ascii_char: 0x20, color_code: color }
}

/// The cells after every row has moved up by one: the top row is lost and the
/// bottom row is filled with `blank`.
pub open spec fn scrolled(cells: Seq<ScreenChar>, blank: ScreenChar) -> Seq<ScreenChar> {
    Seq::new(
        BUF_CELLS as nat,
        |i: int|
            if i < (BUF_CELLS - BUF_WIDTH) as int {
                cells[i + BUF_WIDTH as int]
            } else {
                blank
            },
    )
}

/// The cells after row `row` has been overwritten with `blank`.
pub open spec fn row_cleared(cells: Seq<ScreenChar>, row: int, blank: ScreenChar) -> Seq<ScreenChar> {
    Seq::new(
        cells.len(),
        |i: int|
            if row * BUF_WIDTH as int <= i < (row + 1) * BUF_WIDTH as int {
                blank
            } else {
                cells[i]
            },
    )
}

/// The byte that is put on screen for `b`: printable ASCII (space through
/// `~`) and the newline go through, anything else is replaced.
pub open spec fn shown_byte(b: u8) -> u8 {
    if (0x20 <= b && b <= 0x7e) || b == 0x0a {
        b
    } else {
        REPLACEMENT_BYTE
    }
}

/// The screen (cells, column on the bottom row) after one byte is written.
pub open spec fn after_byte(s: (Seq<ScreenChar>, int), color: ColorCode, b: u8) -> (Seq<ScreenChar>, int) {
    if b == 0x0a {
        (scrolled(s.0, blank_of(color)), 0)
    } else {
        let t = if s.1 >= BUF_WIDTH as int {
            (scrolled(s.0, blank_of(color)), 0int)
        } else {
            s
        };
        (
            t.0.update(
                ((BUF_HEIGHT - 1) * BUF_WIDTH) as int + t.1,
                ScreenChar { ascii_char: b, color_code: color },
            ),
            t.1 + 1,
        )
    }
}

/// The screen after each byte of `bs` has been shown, in order.
pub open spec fn after_bytes(s: (Seq<ScreenChar>, int), color: ColorCode, bs: Seq<u8>) -> (Seq<ScreenChar>, int)
    decreases bs.len(),
{
    if bs.len() == 0 {
        s
    } else {
        after_byte(after_bytes(s, color, bs.drop_last()), color, shown_byte(bs.last()))
    }
}

/// Writes text on the bottom row of the screen, scrolling as needed.
pub struct Writer {
    pub col_position: usize,
    pub color_code: ColorCode,
    pub buffer: Buffer,
}

impl Writer {
    pub open spec fn wf(&self) -> bool {
        &&& self.buffer.chars@.len() == BUF_CELLS
        &&& self.col_position <= BUF_WIDTH
    }

    /// The screen as the model sees it: its cells and the cursor column.
    pub open spec fn screen(&self) -> (Seq<ScreenChar>, int) {
        (self.buffer.chars@, self.col_position as int)
    }

    /// A writer in the given colours on a screen of blanks, at column 0.
    pub fn new(color_code: ColorCode) -> (r: Writer)
        ensures
            r.wf(),
            r.color_code == color_code,
            r.col_position == 0,
            forall|i: int| 0 <= i < BUF_CELLS ==> r.buffer.chars@[i] == blank_of(color_code),
    {
        let blank = ScreenChar { ascii_char: SPACE, color_code };
        let mut chars: Vec<ScreenChar> = Vec::new();
        let mut i: usize = 0;
        while i < BUF_CELLS
            invariant
                i <= BUF_CELLS,
                chars@.len() == i,
                forall|j: int| 0 <= j < i ==> chars@[j] == blank,
            decreases BUF_CELLS - i,
        {
            chars.push(blank);
            i = i + 1;
        }
        Writer { col_position: 0, color_code, buffer: Buffer { chars } }
    }

    /// The cell at `row`, `col`.
    pub fn char_at(&self, row: usize, col: usize) -> (r: ScreenChar)
        requires
            self.wf(),
            row < BUF_HEIGHT,
            col < BUF_WIDTH,
        ensures
            r == self.buffer.chars@[row * BUF_WIDTH + col],
    {
        self.buffer.chars[row * BUF_WIDTH + col]
    }

    /// Overwrites every cell of `row` with a space in the writer's colours.
    pub fn clear_row(&mut self, row: usize)
        requires
            old(self).wf(),
            row < BUF_HEIGHT,
        ensures
            final(self).wf(),
            final(self).col_position == old(self).col_position,
            final(self).color_code == old(self).color_code,
            final(self).buffer.chars@ == row_cleared(
                old(self).buffer.chars@,
                row as int,
                blank_of(old(self).color_code),
            ),
    {
        let blank = ScreenChar { ascii_char: SPACE, color_code: self.color_code };
        let start: usize = row * BUF_WIDTH;
        let mut col: usize = 0;
        while col < BUF_WIDTH
            invariant
                self.wf(),
                col <= BUF_WIDTH,
                start == row * BUF_WIDTH,
                row < BUF_HEIGHT,
                blank == blank_of(old(self).color_code),
                self.col_position == old(self).col_position,
                self.color_code == old(self).color_code,
                forall|i: int|
                    0 <= i < BUF_CELLS ==> #[trigger] self.buffer.chars@[i] == if start <= i < start
                        + col {
                        blank
                    } else {
                        old(self).buffer.chars@[i]
                    },
            decreases BUF_WIDTH - col,
        {
            self.buffer.chars.set(start + col, blank);
            col = col + 1;
        }
        assert(self.buffer.chars@ =~= row_cleared(old(self).buffer.chars@, row as int, blank));
    }

    /// Moves every row up by one, blanks the bottom row and returns to its
    /// first column.
    pub fn newline(&mut self)
        requires
            old(self).wf(),
        ensures
            final(self).wf(),
            final(self).color_code == old(self).color_code,
            final(self).screen() == (scrolled(old(self).buffer.chars@, blank_of(old(self).color_code)), 0int),
    {
        let mut i: usize = 0;
        while i < BUF_CELLS - BUF_WIDTH
            invariant
                self.wf(),
                i <= BUF_CELLS - BUF_WIDTH,
                self.col_position == old(self).col_position,
                self.color_code == old(self).color_code,
                forall|j: int|
                    0 <= j < BUF_CELLS ==> #[trigger] self.buffer.chars@[j] == if j < i {
                        old(self).buffer.chars@[j + BUF_WIDTH]
                    } else {
                        old(self).buffer.chars@[j]
                    },
            decreases BUF_CELLS - BUF_WIDTH - i,
        {
            let c = self.buffer.chars[i + BUF_WIDTH];
            self.buffer.chars.set(i, c);
            i = i + 1;
        }
        self.clear_row(BUF_HEIGHT - 1);
        self.col_position = 0;
        assert(self.buffer.chars@ =~= scrolled(old(self).buffer.chars@, blank_of(old(self).color_code)));
    }

    /// Shows one byte: a newline scrolls; any other byte is put at the
    /// cursor on the bottom row, after a scroll if that row is full.
    pub fn write_byte(&mut self, byte: u8)
        requires
            old(self).wf(),
        ensures
            final(self).wf(),
            final(self).color_code == old(self).color_code,
            final(self).screen() == after_byte(old(self).screen(), old(self).color_code, byte),
    {
        if byte == NEWLINE {
            self.newline();
        } else {
            if self.col_position >= BUF_WIDTH {
                self.newline();
            }
            let row: usize = BUF_HEIGHT - 1;
            let col = self.col_position;
            let color_code = self.color_code;
            self.buffer.chars.set(row * BUF_WIDTH + col, ScreenChar { ascii_char: byte, color_code });
            self.col_position = col + 1;
        }
    }

    /// Shows each byte of `s` in order, with `REPLACEMENT_BYTE` in place of
    /// each byte that is neither printable ASCII nor a newline.
    pub fn write_string(&mut self, s: &str)
        requires
            old(self).wf(),
        ensures
            final(self).wf(),
            final(self).color_code == old(self).color_code,
            final(self).screen() == after_bytes(old(self).screen(), old(self).color_code, s.spec_bytes()),
    {
        let bytes = s.as_bytes();
        let mut i: usize = 0;
        while i < bytes.len()
            invariant
                self.wf(),
                i <= bytes@.len(),
                bytes@ == s.spec_bytes(),
                self.color_code == old(self).color_code,
                self.screen() == after_bytes(old(self).screen(), old(self).color_code, bytes@.subrange(0, i as int)),
            decreases bytes@.len() - i,
        {
            let byte = bytes[i];
            proof {
                let next = bytes@.subrange(0, i + 1);
                assert(next.drop_last() =~= bytes@.subrange(0, i as int));
                assert(next.last() == byte);
            }
            if (0x20 <= byte && byte <= 0x7e) || byte == NEWLINE {
                self.write_byte(byte);
            } else {
                self.write_byte(REPLACEMENT_BYTE);
            }
            i = i + 1;
        }
        assert(bytes@.subrange(0, bytes@.len() as int) =~= bytes@);
    }
}

} // verus!
