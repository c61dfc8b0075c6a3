use vstd::prelude::*;
use vstd::string::StringSliceAdditionalSpecFns;

verus! {

/// Columns of the text grid.
pub const WIDTH: usize = 80;

/// Rows of the text grid.
pub const HEIGHT: usize = 25;

/// Cells of the text grid, row after row.
pub const CELLS: usize = WIDTH * HEIGHT;

/// The sixteen colours of the text mode palette.
#[derive(Clone, Copy, Debug, PartialEq, Eq, Structural)]
pub enum Color {
    Black,
    Blue,
    Green,
    Cyan,
    Red,
    Magenta,
    Brown,
    LightGray,
    DarkGray,
    LightBlue,
    LightGreen,
    LightCyan,
    LightRed,
    Pink,
    Yellow,
    White,
}

impl Color {
    /// The palette index of the colour.
    pub open spec fn code(self) -> u8 {
        match self {
            Color::Black => 0,
            Color::Blue => 1,
            Color::Green => 2,
            Color::Cyan => 3,
            Color::Red => 4,
            Color::Magenta => 5,
            Color::Brown => 6,
            Color::LightGray => 7,
            Color::DarkGray => 8,
            Color::LightBlue => 9,
            Color::LightGreen => 10,
            Color::LightCyan => 11,
            Color::LightRed => 12,
            Color::Pink => 13,
            Color::Yellow => 14,
            Color::White => 15,
        }
    }

    pub fn as_u8(self) -> (r: u8)
        ensures
            r == self.code(),
    {
        match self {
            Color::Black => 0,
            Color::Blue => 1,
            Color::Green => 2,
            Color::Cyan => 3,
            Color::Red => 4,
            Color::Magenta => 5,
            Color::Brown => 6,
            Color::LightGray => 7,
            Color::DarkGray => 8,
            Color::LightBlue => 9,
            Color::LightGreen => 10,
            Color::LightCyan => 11,
            Color::LightRed => 12,
            Color::Pink => 13,
            Color::Yellow => 14,
            Color::White => 15,
        }
    }
}

/// The attribute byte of a cell: background colour in the high nibble,
/// foreground colour in the low nibble.
#[derive(Clone, Copy, Debug, PartialEq, Eq, Structural)]
pub struct Style(pub u8);

impl Style {
    pub open spec fn spec_new(foreground: Color, background: Color) -> Style {
        Style((background.code() * 16 + foreground.code()) as u8)
    }

    pub fn new(foreground: Color, background: Color) -> (r: Style)
        ensures
            r == Style::spec_new(foreground, background),
    {
        Style(background.as_u8() * 16 + foreground.as_u8())
    }
}

/// One cell of the text grid: a character byte and its attribute byte.
#[derive(Clone, Copy, Debug, PartialEq, Eq, Structural)]
pub struct Pixel {
    pub ascii: u8,
    pub style: Style,
}

/// Byte shown in place of one that the text mode cannot print.
pub const REPLACEMENT: u8 = 0xfe;

/// The abstract state of the terminal: cursor, current style and the cells.
pub struct TerminalState {
    pub row: nat,
    pub column: nat,
    pub style: Style,
    pub cells: Seq<Pixel>,
}

pub open spec fn blank(style: Style) -> Pixel {
    Pixel { ascii: 0x20, style }
}

/// Every row moves up by one; the last row keeps its cells.
pub open spec fn shifted_up(cells: Seq<Pixel>) -> Seq<Pixel> {
    Seq::new(
        cells.len(),
        |i: int|
            if i + WIDTH < CELLS {
                cells[i + WIDTH]
            } else {
                cells[i]
            },
    )
}

/// Row `row` is blanked in `style`; the other cells stay.
pub open spec fn row_cleared(cells: Seq<Pixel>, row: int, style: Style) -> Seq<Pixel> {
    Seq::new(
        cells.len(),
        |i: int|
            if row * WIDTH <= i < row * WIDTH + WIDTH {
                blank(style)
            } else {
                cells[i]
            },
    )
}

/// The cursor moves to the start of the next row; on the last row the grid
/// scrolls up by one row and the last row is blanked instead.
pub open spec fn after_newline(s: TerminalState) -> TerminalState {
    if s.row == HEIGHT - 1 {
        TerminalState {
            column: 0,
            cells: row_cleared(shifted_up(s.cells), s.row as int, s.style),
            ..s
        }
    } else {
        TerminalState { row: s.row + 1, column: 0, ..s }
    }
}

/// The byte is put at the cursor (after a line break when the row is full)
/// and the cursor moves one column right.
pub open spec fn after_raw_byte(s: TerminalState, ascii: u8) -> TerminalState {
    let t = if s.column >= WIDTH {
        after_newline(s)
    } else {
        s
    };
    TerminalState {
        column: t.column + 1,
        cells: t.cells.update(t.row * WIDTH + t.column, Pixel { ascii, style: t.style }),
        ..t
    }
}

/// A line feed breaks the line, a printable ASCII byte is shown as it is,
/// any other byte as the replacement byte.
pub open spec fn after_byte(s: TerminalState, b: u8) -> TerminalState {
    if b == 0x0a {
        after_newline(s)
    } else if 0x20 <= b <= 0x7e {
        after_raw_byte(s, b)
    } else {
        after_raw_byte(s, REPLACEMENT)
    }
}

/// The state after writing `bytes` one after the other.
pub open spec fn after_bytes(s: TerminalState, bytes: Seq<u8>) -> TerminalState
    decreases bytes.len(),
{
    if bytes.len() == 0 {
        s
    } else {
        after_byte(after_bytes(s, bytes.drop_last()), bytes.last())
    }
}

/// A text terminal over a grid of `HEIGHT` rows of `WIDTH` cells.
pub struct Terminal {
    column: usize,
    row: usize,
    style: Style,
    cells: [Pixel; CELLS],
}

impl Terminal {
    pub closed spec fn view(&self) -> TerminalState {
        TerminalState {
            row: self.row as nat,
            column: self.column as nat,
            style: self.style,
            cells: self.cells@,
        }
    }

    pub closed spec fn wf(&self) -> bool {
        &&& self.row < HEIGHT
        &&& self.column <= WIDTH
        &&& self.cells@.len() == CELLS
    }

    /// A terminal with a blank grid, the cursor at the top left, white on
    /// black.
    pub fn new() -> (r: Terminal)
        ensures
            r.wf(),
            r.view().row == 0,
            r.view().column == 0,
            r.view().style == Style::spec_new(Color::White, Color::Black),
            r.view().cells == Seq::new(CELLS as nat, |i: int| blank(r.view().style)),
    {
        let style = Style::new(Color::White, Color::Black);
        let cells = [Pixel { ascii: 0x20, style }; CELLS];
        let r = Terminal { column: 0, row: 0, style, cells };
        assert(r.view().cells =~= Seq::new(CELLS as nat, |i: int| blank(style)));
        r
    }

    /// Writes each byte of `s` in turn.
    pub fn write(&mut self, s: &str)
        requires
            old(self).wf(),
        ensures
            final(self).wf(),
            final(self).view() == after_bytes(old(self).view(), s.spec_bytes()),
    {
        let bytes = s.as_bytes();
        let ghost start = self.view();
        let mut i: usize = 0;
        while i < bytes.len()
            invariant
                self.wf(),
                i <= bytes@.len(),
                bytes@ == s.spec_bytes(),
                self.view() == after_bytes(start, bytes@.take(i as int)),
            decreases bytes@.len() - i,
        {
            let byte = bytes[i];
            if byte == 0x0a {
                self.write_newline();
            } else if 0x20 <= byte && byte <= 0x7e {
                self.write_raw_byte(byte);
            } else {
                self.write_raw_byte(REPLACEMENT);
            }
            assert(bytes@.take(i + 1).drop_last() =~= bytes@.take(i as int));
            i = i + 1;
        }
        assert(bytes@.take(i as int) =~= bytes@);
    }

    fn write_newline(&mut self)
        requires
            old(self).wf(),
        ensures
            final(self).wf(),
            final(self).view() == after_newline(old(self).view()),
    {
        if self.row == HEIGHT - 1 {
            self.shift_up();
            let row = self.row;
            self.clear_row(row);
            self.column = 0;
        } else {
            self.row = self.row + 1;
            self.column = 0;
        }
    }

    fn write_raw_byte(&mut self, ascii: u8)
        requires
            old(self).wf(),
        ensures
            final(self).wf(),
            final(self).view() == after_raw_byte(old(self).view(), ascii),
    {
        if self.column >= WIDTH {
            self.write_newline();
        }
        let pixel = Pixel { ascii, style: self.style };
        let row = self.row;
        let column = self.column;
        self.set_pixel(row, column, pixel);
        self.column = self.column + 1;
    }

    fn shift_up(&mut self)
        requires
            old(self).wf(),
        ensures
            final(self).wf(),
            final(self).view() == (TerminalState {
                cells: shifted_up(old(self).view().cells),
                ..old(self).view()
            }),
    {
        let ghost before = self.cells@;
        let mut row: usize = 1;
        while row < HEIGHT
            invariant
                1 <= row <= HEIGHT,
                self.wf(),
                self.row == old(self).row,
                self.column == old(self).column,
                self.style == old(self).style,
                before == old(self).cells@,
                forall|i: int|
                    0 <= i < CELLS ==> #[trigger] self.cells@[i] == if i + WIDTH < row * WIDTH {
                        before[i + WIDTH]
                    } else {
                        before[i]
                    },
            decreases HEIGHT - row,
        {
            let mut col: usize = 0;
            while col < WIDTH
                invariant
                    1 <= row < HEIGHT,
                    col <= WIDTH,
                    self.wf(),
                    self.row == old(self).row,
                    self.column == old(self).column,
                    self.style == old(self).style,
                    before == old(self).cells@,
                    forall|i: int|
                        0 <= i < CELLS ==> #[trigger] self.cells@[i] == if i + WIDTH < row * WIDTH
                            || (i + WIDTH >= row * WIDTH && i + WIDTH < row * WIDTH + col) {
                            before[i + WIDTH]
                        } else {
                            before[i]
                        },
                decreases WIDTH - col,
            {
                let p = self.get_pixel(row, col);
                self.set_pixel(row - 1, col, p);
                col = col + 1;
            }
            row = row + 1;
        }
        assert(self.cells@ =~= shifted_up(before));
    }

    fn clear_row(&mut self, row: usize)
        requires
            old(self).wf(),
            row < HEIGHT,
        ensures
            final(self).wf(),
            final(self).view() == (TerminalState {
                cells: row_cleared(old(self).view().cells, row as int, old(self).style),
                ..old(self).view()
            }),
    {
        let blank = Pixel { ascii: 0x20, style: self.style };
        let mut col: usize = 0;
        while col < WIDTH
            invariant
                col <= WIDTH,
                row < HEIGHT,
                self.wf(),
                self.row == old(self).row,
                self.column == old(self).column,
                self.style == old(self).style,
                blank == crate::vga::blank(self.style),
                forall|i: int|
                    0 <= i < CELLS ==> #[trigger] self.cells@[i] == if row * WIDTH <= i < row * WIDTH
                        + col {
                        blank
                    } else {
                        old(self).cells@[i]
                    },
            decreases WIDTH - col,
        {
            self.set_pixel(row, col, blank);
            col = col + 1;
        }
        assert(self.cells@ =~= row_cleared(old(self).cells@, row as int, old(self).style));
    }

    /// The cursor's row.
    pub fn row(&self) -> (r: usize)
        ensures
            r == self.view().row,
    {
        self.row
    }

    /// The cursor's column.
    pub fn column(&self) -> (r: usize)
        ensures
            r == self.view().column,
    {
        self.column
    }

    /// The style of the cells written from now on.
    pub fn style(&self) -> (r: Style)
        ensures
            r == self.view().style,
    {
        self.style
    }

    /// The cell at `row`, `col`.
    pub fn get_pixel(&self, row: usize, col: usize) -> (r: Pixel)
        requires
            self.wf(),
            row < HEIGHT,
            col < WIDTH,
        ensures
            r == self.view().cells[row * WIDTH + col],
    {
        self.cells[row * WIDTH + col]
    }

    fn set_pixel(&mut self, row: usize, col: usize, pixel: Pixel)
        requires
            old(self).wf(),
            row < HEIGHT,
            col < WIDTH,
        ensures
            final(self).wf(),
            final(self).view() == (TerminalState {
                cells: old(self).view().cells.update(row * WIDTH + col, pixel),
                ..old(self).view()
            }),
    {
        self.cells[row * WIDTH + col] = pixel;
    }
}

/// Sets the style of the cells written from now on.
pub fn set_style(terminal: &mut Terminal, foreground: Color, background: Color)
    requires
        old(terminal).wf(),
    ensures
        final(terminal).wf(),
        final(terminal).view() == (TerminalState {
            style: Style::spec_new(foreground, background),
            ..old(terminal).view()
        }),
{
    terminal.style = Style::new(foreground, background);
}

/// Goes back to the default style, white on black.
pub fn reset_style(terminal: &mut Terminal)
    requires
        old(terminal).wf(),
    ensures
        final(terminal).wf(),
        final(terminal).view() == (TerminalState {
            style: Style::spec_new(Color::White, Color::Black),
            ..old(terminal).view()
        }),
{
    set_style(terminal, Color::White, Color::Black);
}

} // verus!
