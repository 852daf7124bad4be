//! The text console: a cursor and the contents of the screen. The writer
//! works on its own copy of the screen; bringing that copy to video memory
//! is left to the kernel.

use vstd::prelude::*;
use vstd::string::StringSliceAdditionalSpecFns;

verus! {

/// Number of text rows of the screen.
pub const BUFFER_HEIGHT: usize = 25;

/// Number of text columns of the screen.
pub const BUFFER_WIDTH: usize = 80;

/// Number of cells of the screen.
pub const BUFFER_CELLS: usize = 2000;

/// The byte that starts a new line.
pub const LINE_FEED: u8 = 0x0a;

/// The byte shown in place of one that cannot be printed.
pub const PLACEHOLDER: u8 = 0xfe;

/// The sixteen colours of the text mode.
#[derive(Clone, Copy, PartialEq, Eq, Structural, Debug)]
pub enum Color {
    Black,
    Blue,
    Green,
    Cyan,
    Red,
    Magenta,
    Brown,
    LightGray,
    DarkGray,
    LightBlue,
    LightGreen,
    LightCyan,
    LightRed,
    Pink,
    Yellow,
    White,
}

impl Color {
    /// The colour's number in video memory.
    pub open spec fn code(self) -> u8 {
        match self {
            Color::Black => 0,
            Color::Blue => 1,
            Color::Green => 2,
            Color::Cyan => 3,
            Color::Red => 4,
            Color::Magenta => 5,
            Color::Brown => 6,
            Color::LightGray => 7,
            Color::DarkGray => 8,
            Color::LightBlue => 9,
            Color::LightGreen => 10,
            Color::LightCyan => 11,
            Color::LightRed => 12,
            Color::Pink => 13,
            Color::Yellow => 14,
            Color::White => 15,
        }
    }

    /// The colour's number in video memory.
    pub fn as_u8(self) -> (code: u8)
        ensures
            code == self.code(),
            code < 16,
    {
        match self {
            Color::Black => 0,
            Color::Blue => 1,
            Color::Green => 2,
            Color::Cyan => 3,
            Color::Red => 4,
            Color::Magenta => 5,
            Color::Brown => 6,
            Color::LightGray => 7,
            Color::DarkGray => 8,
            Color::LightBlue => 9,
            Color::LightGreen => 10,
            Color::LightCyan => 11,
            Color::LightRed => 12,
            Color::Pink => 13,
            Color::Yellow => 14,
            Color::White => 15,
        }
    }
}

/// The colours of a cell: the background in the high half of the byte, the
/// foreground in the low half.
#[derive(Clone, Copy, PartialEq, Eq, Structural, Debug)]
pub struct ColorDesc(pub u8);

impl ColorDesc {
    /// The colours of a cell with the given foreground and background.
    pub fn new(foreground: Color, background: Color) -> (desc: ColorDesc)
        ensures
            desc.0 == background.code() * 16 + foreground.code(),
    {
        let back = background.as_u8();
        let fore = foreground.as_u8();
        assert((back << 4 | fore) == back * 16 + fore) by (bit_vector)
            requires
                back < 16,
                fore < 16,
        ;
        ColorDesc(back << 4 | fore)
    }
}

/// One cell of the screen: a character and its colours.
#[derive(Clone, Copy, PartialEq, Eq, Structural, Debug)]
pub struct Char {
    /// The character's code.
    pub character: u8,
    /// The colours it is shown in.
    pub color_desc: ColorDesc,
}

/// Whether the screen can show the byte as it is: the printable ASCII
/// characters and the line feed.
pub open spec fn printable(byte: u8) -> bool {
    0x20 <= byte <= 0x7e || byte == LINE_FEED
}

/// The byte written for `byte` of a string: the byte itself where it can be
/// printed, else the placeholder.
pub open spec fn displayed(byte: u8) -> u8 {
    if printable(byte) {
        byte
    } else {
        PLACEHOLDER
    }
}

/// The console as the contracts see it.
pub struct Console {
    /// The row the next character goes to.
    pub row: int,
    /// The column the next character goes to.
    pub column: int,
    /// The colours of the characters written.
    pub colors: ColorDesc,
    /// The cells of the screen, row after row.
    pub cells: Seq<Char>,
}

/// Whether a cursor in `row` and `column` can take `byte`: a line feed
/// needs a row number to move to, and any other byte a cell on the screen,
/// in the next row where the cursor stands behind the last column.
pub open spec fn cursor_accepts(row: int, column: int, byte: u8) -> bool {
    if byte == LINE_FEED {
        row < usize::MAX
    } else if column >= BUFFER_WIDTH {
        row + 1 < BUFFER_HEIGHT
    } else {
        row < BUFFER_HEIGHT
    }
}

/// The row and the column of the cell that `byte` is written to by a cursor
/// in `row` and `column`: the cell under the cursor, or the first of the
/// next row where the cursor stands behind the last column.
pub open spec fn cursor_target(row: int, column: int) -> (int, int) {
    if column >= BUFFER_WIDTH {
        (row + 1, 0)
    } else {
        (row, column)
    }
}

/// Where a cursor in `row` and `column` stands after `byte`: at the start
/// of the next row after a line feed, else behind the cell written to.
pub open spec fn cursor_after(row: int, column: int, byte: u8) -> (int, int) {
    if byte == LINE_FEED {
        (row + 1, 0)
    } else {
        (cursor_target(row, column).0, cursor_target(row, column).1 + 1)
    }
}

impl Console {
    /// Whether the console can take `byte`.
    pub open spec fn accepts(self, byte: u8) -> bool {
        cursor_accepts(self.row, self.column, byte)
    }

    /// The console after `byte` is written. A line feed only moves the
    /// cursor. Any other byte is stored with the colours of the console in
    /// the cell the cursor points to, and the cursor moves behind it.
    pub open spec fn put(self, byte: u8) -> Console {
        let (row, column) = cursor_target(self.row, self.column);
        Console {
            row: cursor_after(self.row, self.column, byte).0,
            column: cursor_after(self.row, self.column, byte).1,
            colors: self.colors,
            cells: if byte == LINE_FEED {
                self.cells
            } else {
                self.cells.update(
                    row * BUFFER_WIDTH + column,
                    Char { character: byte, color_desc: self.colors },
                )
            },
        }
    }

    /// The console after the bytes of a string are written, each as it is
    /// displayed.
    pub open spec fn put_all(self, bytes: Seq<u8>) -> Console
        decreases bytes.len(),
    {
        if bytes.len() == 0 {
            self
        } else {
            self.put_all(bytes.drop_last()).put(displayed(bytes.last()))
        }
    }

    /// Whether the console can take the bytes of a string one after the
    /// other.
    pub open spec fn accepts_all(self, bytes: Seq<u8>) -> bool
        decreases bytes.len(),
    {
        bytes.len() == 0 || (self.accepts_all(bytes.drop_last()) && self.put_all(
            bytes.drop_last(),
        ).accepts(displayed(bytes.last())))
    }
}

/// A console that takes a string takes every start of it.
pub proof fn lemma_accepts_prefix(console: Console, bytes: Seq<u8>, n: int)
    requires
        0 <= n <= bytes.len(),
        console.accepts_all(bytes),
    ensures
        console.accepts_all(bytes.take(n)),
    decreases bytes.len(),
{
    if n == bytes.len() {
        assert(bytes.take(n) =~= bytes);
    } else {
        assert(bytes.drop_last().take(n) =~= bytes.take(n));
        lemma_accepts_prefix(console, bytes.drop_last(), n);
    }
}

/// The cursor of the console, the colours it writes in, and the contents of
/// the screen.
#[derive(Clone, Copy, Debug)]
pub struct Writer {
    /// The row the next character goes to.
    pub row_pos: usize,
    /// The column the next character goes to.
    pub column_pos: usize,
    /// The colours of the characters written.
    pub color_desc: ColorDesc,
    /// The cells of the screen, row after row.
    pub buff: [Char; BUFFER_CELLS],
}

impl View for Writer {
    type V = Console;

    open spec fn view(&self) -> Console {
        Console {
            row: self.row_pos as int,
            column: self.column_pos as int,
            colors: self.color_desc,
            cells: self.buff@,
        }
    }
}

/// Where a cursor in `row` and `column` stands after `byte`.
fn advance(row: usize, column: usize, byte: u8) -> (next: (usize, usize))
    requires
        cursor_accepts(row as int, column as int, byte),
    ensures
        (next.0 as int, next.1 as int) == cursor_after(row as int, column as int, byte),
{
    if byte == LINE_FEED {
        (row + 1, 0)
    } else if column >= BUFFER_WIDTH {
        (row + 1, 1)
    } else {
        (row, column + 1)
    }
}

/// Whether a cursor in `row` and `column` can take `byte`.
fn accepts_at(row: usize, column: usize, byte: u8) -> (ok: bool)
    ensures
        ok == cursor_accepts(row as int, column as int, byte),
{
    if byte == LINE_FEED {
        row < usize::MAX
    } else if column >= BUFFER_WIDTH {
        row < BUFFER_HEIGHT - 1
    } else {
        row < BUFFER_HEIGHT
    }
}

impl Writer {
    /// A writer at the top left corner of a screen that shows `buff`.
    pub fn new(color_desc: ColorDesc, buff: [Char; BUFFER_CELLS]) -> (writer: Writer)
        ensures
            writer@ == (Console { row: 0, column: 0, colors: color_desc, cells: buff@ }),
    {
        Writer { row_pos: 0, column_pos: 0, color_desc, buff }
    }

    /// Whether the writer can take `byte`.
    pub fn can_write(&self, byte: u8) -> (ok: bool)
        ensures
            ok == self@.accepts(byte),
    {
        accepts_at(self.row_pos, self.column_pos, byte)
    }

    /// Whether the writer can take `string` to its end.
    pub fn can_write_string(&self, string: &str) -> (ok: bool)
        ensures
            ok == self@.accepts_all(string.spec_bytes()),
    {
        let bytes = string.as_bytes();
        let mut row = self.row_pos;
        let mut column = self.column_pos;
        let mut i: usize = 0;
        while i < bytes.len()
            invariant
                i <= bytes@.len(),
                bytes@ == string.spec_bytes(),
                self@.accepts_all(bytes@.take(i as int)),
                self@.put_all(bytes@.take(i as int)).row == row,
                self@.put_all(bytes@.take(i as int)).column == column,
            decreases bytes@.len() - i,
        {
            let byte = Self::displayed_byte(bytes[i]);
            proof {
                assert(bytes@.take(i + 1).drop_last() =~= bytes@.take(i as int));
            }
            if !accepts_at(row, column, byte) {
                proof {
                    if self@.accepts_all(bytes@) {
                        lemma_accepts_prefix(self@, bytes@, i + 1);
                    }
                }
                return false;
            }
            let next = advance(row, column, byte);
            row = next.0;
            column = next.1;
            i = i + 1;
        }
        proof {
            assert(bytes@.take(i as int) =~= bytes@);
        }
        true
    }

    /// Moves the cursor to the start of the next row.
    pub fn new_line(&mut self)
        requires
            old(self).row_pos < usize::MAX,
        ensures
            final(self)@ == old(self)@.put(LINE_FEED),
    {
        self.row_pos = self.row_pos + 1;
        self.column_pos = 0;
    }

    /// Writes one byte at the cursor: see [`Console::put`].
    pub fn write_byte(&mut self, byte: u8)
        requires
            old(self)@.accepts(byte),
        ensures
            final(self)@ == old(self)@.put(byte),
    {
        if byte == LINE_FEED {
            self.new_line();
        } else {
            if self.column_pos >= BUFFER_WIDTH {
                self.new_line();
            }
            let row = self.row_pos;
            let col = self.column_pos;
            let color = self.color_desc;
            self.buff[row * BUFFER_WIDTH + col] = Char { character: byte, color_desc: color };
            self.column_pos = self.column_pos + 1;
        }
    }

    /// Whether the screen can show the byte as it is.
    pub fn is_print(byte: u8) -> (ok: bool)
        ensures
            ok == printable(byte),
    {
        (0x20 <= byte && byte <= 0x7e) || byte == LINE_FEED
    }

    /// The byte written for `byte` of a string.
    pub fn displayed_byte(byte: u8) -> (shown: u8)
        ensures
            shown == displayed(byte),
    {
        if Self::is_print(byte) {
            byte
        } else {
            PLACEHOLDER
        }
    }

    /// Writes the bytes of `string` one after the other, each as it is where
    /// the screen can show it and as the placeholder where not.
    pub fn write_string(&mut self, string: &str)
        requires
            old(self)@.accepts_all(string.spec_bytes()),
        ensures
            final(self)@ == old(self)@.put_all(string.spec_bytes()),
    {
        let bytes = string.as_bytes();
        let mut i: usize = 0;
        while i < bytes.len()
            invariant
                i <= bytes@.len(),
                old(self)@.accepts_all(bytes@),
                self@ == old(self)@.put_all(bytes@.take(i as int)),
            decreases bytes@.len() - i,
        {
            proof {
                assert(bytes@.take(i + 1).drop_last() =~= bytes@.take(i as int));
                lemma_accepts_prefix(old(self)@, bytes@, i + 1);
            }
            let byte = bytes[i];
            self.write_byte(Self::displayed_byte(byte));
            i = i + 1;
        }
        proof {
            assert(bytes@.take(i as int) =~= bytes@);
        }
    }
}

} // verus!
