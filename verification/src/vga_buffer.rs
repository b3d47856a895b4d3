//! The framebuffer cell format, the color palette, and the writer that
//! renders a byte stream into the grid with wrapping and scrolling.

use vstd::prelude::*;
use vstd::string::StringSliceAdditionalSpecFns;
use volatile::Volatile;

verus! {

/// Number of character rows in the framebuffer.
pub const BUFFER_HEIGHT: usize = 25;
/// Number of character columns in each row.
pub const BUFFER_WIDTH: usize = 80;
/// Total number of cells in the framebuffer grid.
pub const SCREEN_CELLS: usize = BUFFER_HEIGHT * BUFFER_WIDTH;
/// The byte that advances to a fresh line.
pub const NEWLINE: u8 = 0x0a;
/// The character code of a blank cell.
pub const SPACE: u8 = 0x20;
/// The glyph substituted for a byte outside the renderable set.
pub const PLACEHOLDER: u8 = 0xfe;

/// The sixteen colors of the hardware palette.
#[allow(dead_code)]
#[derive(Debug, Clone, Copy, PartialEq, Eq, Structural)]
pub enum Color {
    Black,
    Blue,
    Green,
    Cyan,
    Red,
    Magenta,
    Brown,
    LightGray,
    DarkGray,
    LightBlue,
    LightGreen,
    LightCyan,
    LightRed,
    Pink,
    Yellow,
    White,
}

impl Color {
    /// The palette index of this color: a value in 0..16.
    pub open spec fn spec_index_u8(self) -> u8 {
        match self {
            Color::Black => 0,
            Color::Blue => 1,
            Color::Green => 2,
            Color::Cyan => 3,
            Color::Red => 4,
            Color::Magenta => 5,
            Color::Brown => 6,
            Color::LightGray => 7,
            Color::DarkGray => 8,
            Color::LightBlue => 9,
            Color::LightGreen => 10,
            Color::LightCyan => 11,
            Color::LightRed => 12,
            Color::Pink => 13,
            Color::Yellow => 14,
            Color::White => 15,
        }
    }

    /// The palette index of this color as a byte.
    #[verifier::when_used_as_spec(spec_index_u8)]
    pub fn index_u8(self) -> (r: u8)
        ensures
            r == self.spec_index_u8(),
            r < 16,
    {
        match self {
            Color::Black => 0,
            Color::Blue => 1,
            Color::Green => 2,
            Color::Cyan => 3,
            Color::Red => 4,
            Color::Magenta => 5,
            Color::Brown => 6,
            Color::LightGray => 7,
            Color::DarkGray => 8,
            Color::LightBlue => 9,
            Color::LightGreen => 10,
            Color::LightCyan => 11,
            Color::LightRed => 12,
            Color::Pink => 13,
            Color::Yellow => 14,
            Color::White => 15,
        }
    }
}

/// A packed color attribute: background index in the high nibble,
/// foreground index in the low nibble.
#[derive(Debug, Clone, Copy, PartialEq, Eq, Structural)]
pub struct ColorCode(u8);

impl ColorCode {
    /// The packed byte value of this attribute.
    pub closed spec fn value(self) -> u8 {
        self.0
    }

    /// Packs a foreground and a background color into one attribute byte.
    pub fn new(foreground: Color, background: Color) -> (r: ColorCode)
        ensures
            r.value() == background.spec_index_u8() * 16 + foreground.spec_index_u8(),
    {
        let fg: u8 = foreground.index_u8();
        let bg: u8 = background.index_u8();
        proof {
            assert((bg << 4) | fg == bg * 16 + fg) by (bit_vector)
                requires
                    fg < 16 && bg < 16,
            ;
        }
        ColorCode((bg << 4) | fg)
    }

    /// The packed attribute byte.
    pub fn as_byte(&self) -> (r: u8)
        ensures
            r == self.value(),
    {
        self.0
    }
}

/// One framebuffer cell: a character code and its color attribute.
/// The character comes first, matching the hardware's two-byte cell layout.
#[derive(Debug, Clone, Copy, PartialEq, Eq, Structural)]
pub struct ScreenChar {
    pub ascii_character: u8,
    pub color_code: ColorCode,
}

/// The cell value a line-advance leaves on the fresh bottom row.
pub open spec fn blank_cell(attr: ColorCode) -> ScreenChar {
    ScreenChar { ascii_character: SPACE, color_code: attr }
}

/// A full row of blank cells.
pub open spec fn blank_row(attr: ColorCode) -> Seq<ScreenChar> {
    Seq::new(BUFFER_WIDTH as nat, |c: int| blank_cell(attr))
}

/// The cell value stored in one volatile slot of the framebuffer.
pub uninterp spec fn vol_contents(v: Volatile<ScreenChar>) -> ScreenChar;

#[verifier::external_type_specification]
#[verifier::external_body]
#[verifier::reject_recursive_types(T)]
pub struct ExVolatile<T: Copy>(Volatile<T>);

/// Relies on volatile::Volatile::new: wraps the given value so that later
/// accesses to it are performed as volatile loads and stores.
#[verifier::external_body]
fn vol_cell_new(value: ScreenChar) -> (v: Volatile<ScreenChar>)
    ensures
        vol_contents(v) == value,
{
    Volatile::new(value)
}

/// Relies on volatile::Volatile::read: a volatile load that returns a copy
/// of the wrapped value and is never optimized away.
#[verifier::external_body]
fn vol_cell_read(v: &Volatile<ScreenChar>) -> (r: ScreenChar)
    ensures
        r == vol_contents(*v),
{
    v.read()
}

/// Relies on volatile::Volatile::write: a volatile store that replaces the
/// wrapped value and is never optimized away.
#[verifier::external_body]
fn vol_cell_write(v: &mut Volatile<ScreenChar>, value: ScreenChar)
    ensures
        vol_contents(*final(v)) == value,
{
    v.write(value)
}

/// The framebuffer: a fixed grid of volatile character cells, stored
/// row-major. Every access to a cell is a single volatile memory operation.
pub struct Buffer {
    cells: Vec<Volatile<ScreenChar>>,
}

impl View for Buffer {
    type V = Seq<ScreenChar>;

    closed spec fn view(&self) -> Seq<ScreenChar> {
        self.cells@.map_values(|v: Volatile<ScreenChar>| vol_contents(v))
    }
}

impl Buffer {
    /// A buffer is well formed when it holds exactly one cell per grid slot.
    pub open spec fn wf(self) -> bool {
        self@.len() == SCREEN_CELLS
    }

    /// The cell at the given grid position.
    pub open spec fn spec_cell(self, row: int, col: int) -> ScreenChar {
        self@[row * BUFFER_WIDTH + col]
    }

    /// Builds a buffer with every cell set to `fill`.
    pub fn new(fill: ScreenChar) -> (b: Buffer)
        ensures
            b.wf(),
            forall|i: int| 0 <= i < SCREEN_CELLS ==> b@[i] == fill,
    {
        let mut cells: Vec<Volatile<ScreenChar>> = Vec::new();
        let mut i: usize = 0;
        while i < SCREEN_CELLS
            invariant
                i <= SCREEN_CELLS,
                cells@.len() == i,
                forall|j: int| 0 <= j < i ==> vol_contents(#[trigger] cells@[j]) == fill,
            decreases SCREEN_CELLS - i,
        {
            cells.push(vol_cell_new(fill));
            i = i + 1;
        }
        Buffer { cells }
    }

    /// Reads the cell at `(row, col)` with a single volatile load.
    pub fn read_cell(&self, row: usize, col: usize) -> (r: ScreenChar)
        requires
            self.wf(),
            row < BUFFER_HEIGHT,
            col < BUFFER_WIDTH,
        ensures
            r == self.spec_cell(row as int, col as int),
    {
        let i: usize = row * BUFFER_WIDTH + col;
        vol_cell_read(&self.cells[i])
    }

    /// Writes `cell` at `(row, col)` with a single volatile store.
    pub fn write_cell(&mut self, row: usize, col: usize, cell: ScreenChar)
        requires
            old(self).wf(),
            row < BUFFER_HEIGHT,
            col < BUFFER_WIDTH,
        ensures
            final(self).wf(),
            final(self)@ == old(self)@.update(row * BUFFER_WIDTH + col, cell),
    {
        let i: usize = row * BUFFER_WIDTH + col;
        let slot = &mut self.cells[i];
        vol_cell_write(slot, cell);
        proof {
            assert(self@ =~= old(self)@.update(row * BUFFER_WIDTH + col, cell));
        }
    }
}

/// True of the bytes the writer places verbatim: newline and printable ASCII.
pub open spec fn renderable(b: u8) -> bool {
    b == NEWLINE || (SPACE <= b && b <= 0x7e)
}

/// The byte that actually reaches the framebuffer when `b` is requested:
/// renderable bytes pass through, everything else becomes the placeholder.
pub open spec fn glyph_for(b: u8) -> u8 {
    if renderable(b) {
        b
    } else {
        PLACEHOLDER
    }
}

/// The abstract state of a writer: the cursor column, the current color
/// attribute, and the screen contents in row-major order.
#[verifier::ext_equal]
pub ghost struct WriterView {
    pub column: nat,
    pub attr: ColorCode,
    pub screen: Seq<ScreenChar>,
}

impl WriterView {
    /// The cursor stays within `[0, BUFFER_WIDTH]` and the screen holds one
    /// cell per grid slot.
    pub open spec fn wf(self) -> bool {
        self.column <= BUFFER_WIDTH && self.screen.len() == SCREEN_CELLS
    }

    /// The cell at the given grid position.
    pub open spec fn cell(self, row: int, col: int) -> ScreenChar {
        self.screen[row * BUFFER_WIDTH + col]
    }

    /// The state after a line-advance: every row moves up one position, the
    /// top row is discarded, the bottom row becomes blank, and the cursor
    /// returns to column zero.
    pub open spec fn advanced(self) -> WriterView {
        WriterView {
            column: 0,
            attr: self.attr,
            screen: self.screen.subrange(BUFFER_WIDTH as int, SCREEN_CELLS as int)
                + blank_row(self.attr),
        }
    }

    /// The state after placing byte `b` at the cursor: a line-advance first
    /// if the bottom row is full, then the cell at the cursor is set and the
    /// cursor moves right.
    pub open spec fn printed(self, b: u8) -> WriterView {
        let base = if self.column == BUFFER_WIDTH {
            self.advanced()
        } else {
            self
        };
        WriterView {
            column: (base.column + 1) as nat,
            attr: base.attr,
            screen: base.screen.update(
                BUFFER_WIDTH * (BUFFER_HEIGHT - 1) + base.column,
                ScreenChar { ascii_character: b, color_code: base.attr },
            ),
        }
    }

    /// The state after one byte reaches the writer verbatim.
    pub open spec fn after_byte(self, b: u8) -> WriterView {
        if b == NEWLINE {
            self.advanced()
        } else {
            self.printed(b)
        }
    }

    /// The state after a byte sequence is rendered, each byte first passed
    /// through the placeholder substitution.
    pub open spec fn after_bytes(self, bytes: Seq<u8>) -> WriterView
        decreases bytes.len(),
    {
        if bytes.len() == 0 {
            self
        } else {
            self.after_bytes(bytes.drop_last()).after_byte(glyph_for(bytes.last()))
        }
    }
}

/// Renders a byte stream into the framebuffer: glyphs go to the bottom row
/// at the cursor column, lines wrap at the right edge, and the screen
/// scrolls when a line completes.
pub struct Writer {
    column_position: usize,
    color_code: ColorCode,
    buffer: Buffer,
}

impl View for Writer {
    type V = WriterView;

    closed spec fn view(&self) -> WriterView {
        WriterView {
            column: self.column_position as nat,
            attr: self.color_code,
            screen: self.buffer@,
        }
    }
}

impl Writer {
    /// A writer is well formed when its cursor and screen are.
    pub open spec fn wf(self) -> bool {
        self@.wf()
    }

    /// Builds a writer over a fresh blank framebuffer, with the cursor at
    /// column zero and the fixed default colors: yellow on black.
    pub fn new() -> (w: Writer)
        ensures
            w.wf(),
            w@.column == 0,
            w@.attr.value() == Color::Black.spec_index_u8() * 16 + Color::Yellow.spec_index_u8(),
            forall|i: int| 0 <= i < SCREEN_CELLS ==> w@.screen[i] == blank_cell(w@.attr),
    {
        let color_code = ColorCode::new(Color::Yellow, Color::Black);
        let buffer = Buffer::new(ScreenChar { ascii_character: SPACE, color_code });
        Writer { column_position: 0, color_code, buffer }
    }

    /// The current cursor column.
    pub fn column(&self) -> (c: usize)
        ensures
            c == self@.column,
    {
        self.column_position
    }

    /// The current color attribute.
    pub fn color_code(&self) -> (r: ColorCode)
        ensures
            r == self@.attr,
    {
        self.color_code
    }

    /// Reads back the cell at `(row, col)` of the framebuffer.
    pub fn read_cell(&self, row: usize, col: usize) -> (r: ScreenChar)
        requires
            self.wf(),
            row < BUFFER_HEIGHT,
            col < BUFFER_WIDTH,
        ensures
            r == self@.cell(row as int, col as int),
    {
        self.buffer.read_cell(row, col)
    }

    /// Renders one byte: a newline advances the line; any other byte is
    /// placed at the cursor, wrapping to a fresh line first if the bottom
    /// row is full.
    pub fn write_byte(&mut self, byte: u8)
        requires
            old(self).wf(),
        ensures
            final(self).wf(),
            final(self)@ == old(self)@.after_byte(byte),
    {
        if byte == NEWLINE {
            self.new_line();
        } else {
            if self.column_position >= BUFFER_WIDTH {
                self.new_line();
            }
            let row: usize = BUFFER_HEIGHT - 1;
            let col: usize = self.column_position;
            let color_code = self.color_code;
            self.buffer.write_cell(row, col, ScreenChar { ascii_character: byte, color_code });
            self.column_position = self.column_position + 1;
            proof {
                assert(self@ =~= old(self)@.after_byte(byte));
            }
        }
    }

    /// Scrolls the screen up one row, blanks the fresh bottom row, and
    /// resets the cursor to column zero.
    fn new_line(&mut self)
        requires
            old(self).wf(),
        ensures
            final(self).wf(),
            final(self)@ == old(self)@.advanced(),
    {
        let mut row: usize = 1;
        while row < BUFFER_HEIGHT
            invariant
                old(self).wf(),
                1 <= row <= BUFFER_HEIGHT,
                self.column_position == old(self).column_position,
                self.color_code == old(self).color_code,
                self@.screen.len() == SCREEN_CELLS,
                forall|j: int|
                    0 <= j < (row - 1) * BUFFER_WIDTH ==> self@.screen[j] == old(self)@.screen[j + BUFFER_WIDTH],
                forall|j: int|
                    (row - 1) * BUFFER_WIDTH <= j < SCREEN_CELLS ==> self@.screen[j] == old(self)@.screen[j],
            decreases BUFFER_HEIGHT - row,
        {
            let mut col: usize = 0;
            while col < BUFFER_WIDTH
                invariant
                    old(self).wf(),
                    1 <= row < BUFFER_HEIGHT,
                    col <= BUFFER_WIDTH,
                    self.column_position == old(self).column_position,
                    self.color_code == old(self).color_code,
                    self@.screen.len() == SCREEN_CELLS,
                    forall|j: int|
                        0 <= j < (row - 1) * BUFFER_WIDTH + col ==> self@.screen[j]
                            == old(self)@.screen[j + BUFFER_WIDTH],
                    forall|j: int|
                        (row - 1) * BUFFER_WIDTH + col <= j < SCREEN_CELLS ==> self@.screen[j]
                            == old(self)@.screen[j],
                decreases BUFFER_WIDTH - col,
            {
                let character = self.buffer.read_cell(row, col);
                self.buffer.write_cell(row - 1, col, character);
                col = col + 1;
            }
            row = row + 1;
        }
        self.clear_row(BUFFER_HEIGHT - 1);
        self.column_position = 0;
        proof {
            assert(self@.screen =~= old(self)@.advanced().screen);
            assert(self@ =~= old(self)@.advanced());
        }
    }

    /// Sets every cell of the given row to a blank in the current colors.
    fn clear_row(&mut self, row: usize)
        requires
            old(self).wf(),
            row < BUFFER_HEIGHT,
        ensures
            final(self).wf(),
            final(self)@.column == old(self)@.column,
            final(self)@.attr == old(self)@.attr,
            forall|j: int|
                0 <= j < SCREEN_CELLS && !(row * BUFFER_WIDTH <= j < row * BUFFER_WIDTH
                    + BUFFER_WIDTH) ==> final(self)@.screen[j] == old(self)@.screen[j],
            forall|j: int|
                row * BUFFER_WIDTH <= j < row * BUFFER_WIDTH + BUFFER_WIDTH ==> final(self)@.screen[j] == blank_cell(old(self)@.attr),
    {
        let blank = ScreenChar { ascii_character: SPACE, color_code: self.color_code };
        let mut col: usize = 0;
        while col < BUFFER_WIDTH
            invariant
                old(self).wf(),
                row < BUFFER_HEIGHT,
                col <= BUFFER_WIDTH,
                self.column_position == old(self).column_position,
                self.color_code == old(self).color_code,
                self@.screen.len() == SCREEN_CELLS,
                blank == blank_cell(old(self)@.attr),
                forall|j: int|
                    0 <= j < SCREEN_CELLS && !(row * BUFFER_WIDTH <= j < row * BUFFER_WIDTH
                        + col) ==> self@.screen[j] == old(self)@.screen[j],
                forall|j: int|
                    row * BUFFER_WIDTH <= j < row * BUFFER_WIDTH + col ==> self@.screen[j]
                        == blank_cell(old(self)@.attr),
            decreases BUFFER_WIDTH - col,
        {
            self.buffer.write_cell(row, col, blank);
            col = col + 1;
        }
    }

    /// Renders a string byte-by-byte: newline and printable ASCII bytes pass
    /// verbatim to `write_byte`; every other byte is replaced by the
    /// placeholder glyph, so the framebuffer only ever receives renderable
    /// bytes. Rendering never fails.
    pub fn write_string(&mut self, s: &str)
        requires
            old(self).wf(),
        ensures
            final(self).wf(),
            final(self)@ == old(self)@.after_bytes(s.spec_bytes()),
    {
        let bytes = s.as_bytes();
        let n: usize = bytes.len();
        let mut i: usize = 0;
        while i < n
            invariant
                self.wf(),
                i <= n,
                n == bytes@.len(),
                bytes@ == s.spec_bytes(),
                self@ == old(self)@.after_bytes(bytes@.take(i as int)),
            decreases n - i,
        {
            let byte = bytes[i];
            if byte == NEWLINE || (SPACE <= byte && byte <= 0x7e) {
                self.write_byte(byte);
            } else {
                self.write_byte(PLACEHOLDER);
            }
            proof {
                assert(bytes@.take(i + 1).drop_last() =~= bytes@.take(i as int));
            }
            i = i + 1;
        }
        proof {
            assert(bytes@.take(n as int) =~= bytes@);
        }
    }
}

/// Renders already-formatted text through a writer. The surrounding
/// program's formatting macros reduce a formatted value to a string and
/// hand it here while holding the console handle; rendering a string into
/// this sink always succeeds.
pub fn _print(writer: &mut Writer, s: &str)
    requires
        old(writer).wf(),
    ensures
        final(writer).wf(),
        final(writer)@ == old(writer)@.after_bytes(s.spec_bytes()),
{
    writer.write_string(s);
}

} // verus!
