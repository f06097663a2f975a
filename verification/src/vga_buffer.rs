use vstd::prelude::*;
use vstd::string::StringSliceAdditionalSpecFns;

verus! {

/// The sixteen colours of text mode.
#[derive(Debug, Clone, Copy, PartialEq, Eq, Structural)]
pub enum Color {
    Black,
    Blue,
    Green,
    Cyan,
    Red,
    Magenta,
    Brown,
    LightGray,
    DarkGray,
    LightBlue,
    LightGreen,
    LightCyan,
    LightRed,
    LightMagenta,
    Yellow,
    White,
}

impl Color {
    /// The number of the colour in the palette.
    pub open spec fn value(self) -> u8 {
        match self {
            Color::Black => 0,
            Color::Blue => 1,
            Color::Green => 2,
            Color::Cyan => 3,
            Color::Red => 4,
            Color::Magenta => 5,
            Color::Brown => 6,
            Color::LightGray => 7,
            Color::DarkGray => 8,
            Color::LightBlue => 9,
            Color::LightGreen => 10,
            Color::LightCyan => 11,
            Color::LightRed => 12,
            Color::LightMagenta => 13,
            Color::Yellow => 14,
            Color::White => 15,
        }
    }

    /// The number of the colour in the palette.
    pub fn to_u8(self) -> (value: u8)
        ensures
            value == self.value(),
            value < 16,
    {
        match self {
            Color::Black => 0,
            Color::Blue => 1,
            Color::Green => 2,
            Color::Cyan => 3,
            Color::Red => 4,
            Color::Magenta => 5,
            Color::Brown => 6,
            Color::LightGray => 7,
            Color::DarkGray => 8,
            Color::LightBlue => 9,
            Color::LightGreen => 10,
            Color::LightCyan => 11,
            Color::LightRed => 12,
            Color::LightMagenta => 13,
            Color::Yellow => 14,
            Color::White => 15,
        }
    }
}

/// The attribute byte of a cell: the background in the upper four bits,
/// the text colour in the lower four.
#[derive(Debug, Clone, Copy, PartialEq, Eq, Structural)]
pub struct VgaColor(pub u8);

impl VgaColor {
    /// The attribute for text of one colour on a background of another.
    pub fn new(text_color: Color, background_color: Color) -> (color: Self)
        ensures
            color.0 == background_color.value() * 16 + text_color.value(),
    {
        Self(background_color.to_u8() * 16 + text_color.to_u8())
    }
}

/// One cell of the screen.
#[derive(Debug, Clone, Copy, PartialEq, Eq, Structural)]
pub struct ScreenChar {
    pub ascii_character: u8,
    pub color_code: VgaColor,
}

/// The byte of a blank.
pub const BLANK: u8 = 0x20;

/// The byte of a line feed.
pub const LINE_FEED: u8 = 0x0A;

/// The number of rows of the screen.
pub const BUFFER_HEIGHT: usize = 25;

/// The number of columns of the screen.
pub const BUFFER_WIDTH: usize = 80;

/// The number of cells of the screen.
pub const BUFFER_CELLS: usize = 2000;

/// The cells of the screen, row after row.
pub struct Buffer {
    chars: Vec<ScreenChar>,
}

impl Buffer {
    /// The cells, row after row.
    pub closed spec fn view(&self) -> Seq<ScreenChar> {
        self.chars@
    }

    /// The buffer has the cells of 25 rows of 80.
    pub open spec fn wf(&self) -> bool {
        self@.len() == BUFFER_CELLS
    }

    /// A screen full of `blank`.
    pub fn new(blank: ScreenChar) -> (buffer: Self)
        ensures
            buffer.wf(),
            forall|i: int| 0 <= i < BUFFER_CELLS ==> buffer@[i] == blank,
    {
        let mut chars: Vec<ScreenChar> = Vec::new();
        let mut index: usize = 0;
        while index < BUFFER_CELLS
            invariant
                index <= BUFFER_CELLS,
                chars@.len() == index,
                forall|i: int| 0 <= i < index ==> chars@[i] == blank,
            decreases BUFFER_CELLS - index,
        {
            chars.push(blank);
            index = index + 1;
        }
        Self { chars }
    }

    /// The cell in row `row` and column `column`.
    pub fn read(&self, row: usize, column: usize) -> (cell: ScreenChar)
        requires
            self.wf(),
            row < BUFFER_HEIGHT,
            column < BUFFER_WIDTH,
        ensures
            cell == self@[row * 80 + column],
    {
        self.chars[row * BUFFER_WIDTH + column]
    }

    /// Puts `char` in row `row` and column `column`.
    pub fn write(&mut self, row: usize, column: usize, char: ScreenChar)
        requires
            old(self).wf(),
            row < BUFFER_HEIGHT,
            column < BUFFER_WIDTH,
        ensures
            final(self)@ == old(self)@.update(row * 80 + column, char),
            final(self).wf(),
    {
        self.chars.set(row * BUFFER_WIDTH + column, char);
    }
}

/// The cells after a new line: every row moved up by one, the top row
/// gone, the bottom row blank in colour `color`.
pub open spec fn scrolled(cells: Seq<ScreenChar>, color: VgaColor) -> Seq<ScreenChar> {
    cells.subrange(80, 2000) + Seq::new(
        80,
        |i: int| ScreenChar { ascii_character: 0x20, color_code: color },
    )
}

/// The cells and the column after one byte was written: a line feed makes
/// a new line; any other byte goes into the bottom row at the column, after
/// a new line if the row is full, and the column moves on.
pub open spec fn after_byte(cells: Seq<ScreenChar>, column: int, color: VgaColor, byte: u8) -> (
    Seq<ScreenChar>,
    int,
) {
    if byte == 0x0A {
        (scrolled(cells, color), 0)
    } else if column >= 80 {
        (
            scrolled(cells, color).update(
                1920int,
                ScreenChar { ascii_character: byte, color_code: color },
            ),
            1,
        )
    } else {
        (
            cells.update(1920 + column, ScreenChar { ascii_character: byte, color_code: color }),
            column + 1,
        )
    }
}

/// What is written for a byte of a string: the byte itself if it can be
/// printed or is a line feed, else a filled square.
pub open spec fn printable(byte: u8) -> u8 {
    if (0x20 <= byte <= 0x7e) || byte == 0x0A {
        byte
    } else {
        0xfe
    }
}

/// The cells and the column after the first `count` bytes were written.
pub open spec fn after_bytes(
    cells: Seq<ScreenChar>,
    column: int,
    color: VgaColor,
    bytes: Seq<u8>,
    count: int,
) -> (Seq<ScreenChar>, int)
    decreases count,
{
    if count <= 0 {
        (cells, column)
    } else {
        let before = after_bytes(cells, column, color, bytes, count - 1);
        after_byte(before.0, before.1, color, printable(bytes[count - 1]))
    }
}

/// Writes text to the bottom row of the screen and moves the rows up.
pub struct Writer {
    pub buffer: Buffer,
    pub column_position: usize,
    pub color: VgaColor,
}

impl Writer {
    /// The writer has a whole screen, and the column is on it or just past
    /// its end.
    pub open spec fn wf(&self) -> bool {
        self.buffer.wf() && self.column_position <= BUFFER_WIDTH
    }

    /// A writer on a blank screen, at column 0.
    pub fn new(color: VgaColor) -> (writer: Self)
        ensures
            writer.wf(),
            writer.column_position == 0,
            writer.color == color,
            forall|i: int|
                0 <= i < BUFFER_CELLS ==> writer.buffer@[i] == (ScreenChar {
                    ascii_character: 0x20,
                    color_code: color,
                }),
    {
        Writer {
            buffer: Buffer::new(ScreenChar { ascii_character: BLANK, color_code: color }),
            column_position: 0,
            color,
        }
    }

    /// Writes one byte.
    pub fn write_byte(&mut self, byte: u8)
        requires
            old(self).wf(),
        ensures
            final(self).wf(),
            final(self).color == old(self).color,
            (final(self).buffer@, final(self).column_position as int) == after_byte(
                old(self).buffer@,
                old(self).column_position as int,
                old(self).color,
                byte,
            ),
    {
        if byte == LINE_FEED {
            self.new_line();
        } else {
            if self.column_position >= BUFFER_WIDTH {
                self.new_line();
            }
            self.buffer.write(
                BUFFER_HEIGHT - 1,
                self.column_position,
                ScreenChar { ascii_character: byte, color_code: self.color },
            );

            self.column_position += 1;
        }
    }

    /// Writes a string, a filled square for each byte that cannot be printed.
    pub fn write_string(&mut self, string: &str)
        requires
            old(self).wf(),
        ensures
            final(self).wf(),
            final(self).color == old(self).color,
            (final(self).buffer@, final(self).column_position as int) == after_bytes(
                old(self).buffer@,
                old(self).column_position as int,
                old(self).color,
                string.spec_bytes(),
                string.spec_bytes().len() as int,
            ),
    {
        let bytes = string.as_bytes();
        let mut index: usize = 0;
        while index < bytes.len()
            invariant
                index <= bytes@.len(),
                bytes@ == string.spec_bytes(),
                self.wf(),
                self.color == old(self).color,
                (self.buffer@, self.column_position as int) == after_bytes(
                    old(self).buffer@,
                    old(self).column_position as int,
                    old(self).color,
                    bytes@,
                    index as int,
                ),
            decreases bytes@.len() - index,
        {
            let byte = bytes[index];
            if (0x20 <= byte && byte <= 0x7e) || byte == LINE_FEED {
                // a character that can be printed, or a line feed
                self.write_byte(byte);
            } else {
                self.write_byte(0xfe);
            }
            index = index + 1;
        }
    }

    /// Moves every row up by one and blanks the bottom row.
    fn new_line(&mut self)
        requires
            old(self).wf(),
        ensures
            final(self).wf(),
            final(self).color == old(self).color,
            final(self).buffer@ == scrolled(old(self).buffer@, old(self).color),
            final(self).column_position == 0,
    {
        let mut row: usize = 1;
        while row < BUFFER_HEIGHT
            invariant
                1 <= row <= BUFFER_HEIGHT,
                self.buffer.wf(),
                self.color == old(self).color,
                self.column_position == old(self).column_position,
                forall|i: int|
                    0 <= i < (row - 1) * 80 ==> self.buffer@[i] == old(self).buffer@[i + 80],
                forall|i: int| (row - 1) * 80 <= i < 2000 ==> self.buffer@[i] == old(self).buffer@[i],
            decreases BUFFER_HEIGHT - row,
        {
            let mut column: usize = 0;
            while column < BUFFER_WIDTH
                invariant
                    1 <= row < BUFFER_HEIGHT,
                    column <= BUFFER_WIDTH,
                    self.buffer.wf(),
                    self.color == old(self).color,
                    self.column_position == old(self).column_position,
                    forall|i: int|
                        0 <= i < (row - 1) * 80 + column ==> self.buffer@[i] == old(self).buffer@[i + 80],
                    forall|i: int|
                        (row - 1) * 80 + column <= i < 2000 ==> self.buffer@[i] == old(self).buffer@[i],
                decreases BUFFER_WIDTH - column,
            {
                let char = self.buffer.read(row, column);
                self.buffer.write(row - 1, column, char);
                column = column + 1;
            }
            row = row + 1;
        }
        self.clear_row(BUFFER_HEIGHT - 1);
        self.column_position = 0;
        assert(self.buffer@ =~= scrolled(old(self).buffer@, old(self).color));
    }

    /// Fills row `row` with blanks.
    fn clear_row(&mut self, row: usize)
        requires
            old(self).wf(),
            row < BUFFER_HEIGHT,
        ensures
            final(self).wf(),
            final(self).color == old(self).color,
            final(self).column_position == old(self).column_position,
            forall|i: int|
                0 <= i < 2000 ==> final(self).buffer@[i] == if row * 80 <= i < row * 80 + 80 {
                    ScreenChar { ascii_character: 0x20, color_code: old(self).color }
                } else {
                    old(self).buffer@[i]
                },
    {
        let blank = ScreenChar { ascii_character: BLANK, color_code: self.color };

        let mut col: usize = 0;
        while col < BUFFER_WIDTH
            invariant
                col <= BUFFER_WIDTH,
                row < BUFFER_HEIGHT,
                self.buffer.wf(),
                self.color == old(self).color,
                self.column_position == old(self).column_position,
                blank == (ScreenChar { ascii_character: 0x20, color_code: old(self).color }),
                forall|i: int|
                    0 <= i < 2000 ==> self.buffer@[i] == if row * 80 <= i < row * 80 + col {
                        blank
                    } else {
                        old(self).buffer@[i]
                    },
            decreases BUFFER_WIDTH - col,
        {
            self.buffer.write(row, col, blank);
            col = col + 1;
        }
    }
}

} // verus!
