//! Text-mode console driver: renders ASCII bytes into a fixed-size character
//! grid with line wrap and scrolling. The grid cells are held in volatile
//! storage, as the display hardware reads them independently of the program.

use vstd::prelude::*;
use vstd::string::StringSliceAdditionalSpecFns;

verus! {

/// Number of text rows in the character grid.
pub const BUFFER_HEIGHT: usize = 25;

/// Number of text columns in the character grid.
pub const BUFFER_WIDTH: usize = 80;

/// Byte that triggers a line break instead of being drawn.
pub const NEWLINE: u8 = 0x0a;

/// Glyph drawn in place of a byte outside the printable ASCII range.
pub const PLACEHOLDER_GLYPH: u8 = 0xfe;

/// Glyph used for cleared cells.
pub const BLANK_GLYPH: u8 = 0x20;

/// The sixteen colors of the text-mode palette.
#[derive(Clone, Copy, PartialEq, Eq, Structural, Debug)]
pub enum Color {
    Black,
    Blue,
    Green,
    Cyan,
    Red,
    Magenta,
    Brown,
    LightGray,
    DarkGray,
    LightBlue,
    LightGreen,
    LightCyan,
    LightRed,
    Pink,
    Yellow,
    White,
}

impl Color {
    /// The palette index of this color.
    pub open spec fn spec_value(self) -> u8 {
        match self {
            Color::Black => 0,
            Color::Blue => 1,
            Color::Green => 2,
            Color::Cyan => 3,
            Color::Red => 4,
            Color::Magenta => 5,
            Color::Brown => 6,
            Color::LightGray => 7,
            Color::DarkGray => 8,
            Color::LightBlue => 9,
            Color::LightGreen => 10,
            Color::LightCyan => 11,
            Color::LightRed => 12,
            Color::Pink => 13,
            Color::Yellow => 14,
            Color::White => 15,
        }
    }

    /// Returns the palette index of this color.
    pub fn as_u8(self) -> (r: u8)
        ensures
            r == self.spec_value(),
            r < 16,
    {
        match self {
            Color::Black => 0,
            Color::Blue => 1,
            Color::Green => 2,
            Color::Cyan => 3,
            Color::Red => 4,
            Color::Magenta => 5,
            Color::Brown => 6,
            Color::LightGray => 7,
            Color::DarkGray => 8,
            Color::LightBlue => 9,
            Color::LightGreen => 10,
            Color::LightCyan => 11,
            Color::LightRed => 12,
            Color::Pink => 13,
            Color::Yellow => 14,
            Color::White => 15,
        }
    }
}

/// A packed color attribute: foreground color in the low four bits,
/// background color in the high four bits.
#[derive(Clone, Copy, PartialEq, Eq, Structural, Debug)]
pub struct ColorCode(u8);

impl ColorCode {
    /// The packed attribute byte.
    pub closed spec fn spec_byte(self) -> u8 {
        self.0
    }

    /// Packs a foreground and a background color into one attribute byte.
    pub fn new(foreground: Color, background: Color) -> (r: ColorCode)
        ensures
            r.spec_byte() == (background.spec_value() << 4) | foreground.spec_value(),
    {
        ColorCode((background.as_u8() << 4) | foreground.as_u8())
    }

    /// Returns the packed attribute byte.
    pub fn as_u8(self) -> (r: u8)
        ensures
            r == self.spec_byte(),
    {
        self.0
    }
}

/// One cell of the character grid: a glyph and its color attribute.
#[derive(Clone, Copy, PartialEq, Eq, Structural, Debug)]
pub struct ScreenChar {
    pub ascii_character: u8,
    pub color_code: ColorCode,
}

#[verifier::external_type_specification]
#[verifier::external_body]
#[verifier::reject_recursive_types(T)]
pub struct ExVolatile<T: Copy>(volatile::Volatile<T>);

/// What a volatile cell currently holds.
pub uninterp spec fn volatile_cell(v: volatile::Volatile<ScreenChar>) -> ScreenChar;

/// Relies on volatile::Volatile::new: wraps the given value for volatile access.
#[verifier::external_body]
fn volatile_new(value: ScreenChar) -> (r: volatile::Volatile<ScreenChar>)
    ensures
        volatile_cell(r) == value,
{
    volatile::Volatile::new(value)
}

/// Relies on volatile::Volatile::read: returns a copy of the wrapped value.
#[verifier::external_body]
fn volatile_read(v: &volatile::Volatile<ScreenChar>) -> (r: ScreenChar)
    ensures
        r == volatile_cell(*v),
{
    v.read()
}

/// Relies on volatile::Volatile::write: replaces the wrapped value.
#[verifier::external_body]
fn volatile_write(v: &mut volatile::Volatile<ScreenChar>, value: ScreenChar)
    ensures
        volatile_cell(*final(v)) == value,
{
    v.write(value)
}

/// The character grid, cell by cell in volatile storage, since the display
/// hardware reads the cells independently of the program.
pub struct Buffer {
    chars: Vec<Vec<volatile::Volatile<ScreenChar>>>,
}

impl Buffer {
    /// The glyphs and attributes currently held by the grid, row by row.
    pub closed spec fn grid(self) -> Seq<Seq<ScreenChar>> {
        self.chars@.map_values(
            |row: Vec<volatile::Volatile<ScreenChar>>|
                row@.map_values(|c: volatile::Volatile<ScreenChar>| volatile_cell(c)),
        )
    }
}

/// The console state: the grid contents, the cursor column, and the active
/// color attribute.
pub ghost struct VgaState {
    pub grid: Seq<Seq<ScreenChar>>,
    pub column: nat,
    pub color: ColorCode,
}

impl VgaState {
    /// A well-formed console state: a full-size grid and a cursor that sits
    /// no further than one past the last column.
    pub open spec fn wf(self) -> bool {
        &&& self.grid.len() == BUFFER_HEIGHT
        &&& forall|r: int| 0 <= r < self.grid.len() ==> (#[trigger] self.grid[r]).len() == BUFFER_WIDTH
        &&& self.column <= BUFFER_WIDTH
    }
}

/// A cleared cell.
pub open spec fn blank_char(color: ColorCode) -> ScreenChar {
    ScreenChar { ascii_character: BLANK_GLYPH, color_code: color }
}

/// A row of cleared cells.
pub open spec fn blank_row(color: ColorCode) -> Seq<ScreenChar> {
    Seq::new(BUFFER_WIDTH as nat, |c: int| blank_char(color))
}

/// The grid after one scroll: every row moves up one place and the bottom
/// row is cleared with the given color.
pub open spec fn scrolled(grid: Seq<Seq<ScreenChar>>, color: ColorCode) -> Seq<Seq<ScreenChar>> {
    Seq::new(
        BUFFER_HEIGHT as nat,
        |r: int| if r < BUFFER_HEIGHT - 1 { grid[r + 1] } else { blank_row(color) },
    )
}

/// The bottom row of a grid, the only row that bytes are ever written to.
pub open spec fn bottom_row(grid: Seq<Seq<ScreenChar>>) -> Seq<ScreenChar> {
    grid[BUFFER_HEIGHT - 1]
}

/// The grid with one cell of the bottom row replaced.
pub open spec fn written(grid: Seq<Seq<ScreenChar>>, col: int, cell: ScreenChar) -> Seq<Seq<ScreenChar>> {
    grid.update(BUFFER_HEIGHT - 1, grid[BUFFER_HEIGHT - 1].update(col, cell))
}

/// The state after one byte is written verbatim: a newline scrolls; at a full
/// row the grid scrolls first; in either remaining case the byte lands at the
/// cursor on the bottom row and the cursor advances.
pub open spec fn write_byte_spec(s: VgaState, byte: u8) -> VgaState {
    if byte == NEWLINE {
        VgaState { grid: scrolled(s.grid, s.color), column: 0, color: s.color }
    } else if s.column < BUFFER_WIDTH {
        VgaState {
            grid: written(
                s.grid,
                s.column as int,
                ScreenChar { ascii_character: byte, color_code: s.color },
            ),
            column: s.column + 1,
            color: s.color,
        }
    } else {
        VgaState {
            grid: written(
                scrolled(s.grid, s.color),
                0,
                ScreenChar { ascii_character: byte, color_code: s.color },
            ),
            column: 1,
            color: s.color,
        }
    }
}

/// Printable ASCII, drawn verbatim by the driver.
pub open spec fn printable(b: u8) -> bool {
    0x20 <= b <= 0x7e
}

/// The glyph actually drawn for one byte of input text: printable bytes and
/// the newline pass through, everything else becomes the placeholder.
pub open spec fn glyph_for(b: u8) -> u8 {
    if printable(b) || b == NEWLINE {
        b
    } else {
        PLACEHOLDER_GLYPH
    }
}

/// The state after a sequence of text bytes, each drawn as its glyph.
pub open spec fn write_bytes_spec(s: VgaState, bytes: Seq<u8>) -> VgaState
    decreases bytes.len(),
{
    if bytes.len() == 0 {
        s
    } else {
        write_bytes_spec(write_byte_spec(s, glyph_for(bytes[0])), bytes.drop_first())
    }
}

/// The console driver: writes ASCII bytes into the grid, wrapping lines at
/// the last column and scrolling the grid up one row at a line break.
pub struct Writer {
    column_position: usize,
    color_code: ColorCode,
    buffer: Buffer,
}

impl View for Writer {
    type V = VgaState;

    closed spec fn view(&self) -> VgaState {
        VgaState {
            grid: self.buffer.grid(),
            column: self.column_position as nat,
            color: self.color_code,
        }
    }
}

impl Writer {
    /// Creates a writer over a freshly cleared grid, cursor at column 0.
    pub fn new(foreground: Color, background: Color) -> (w: Writer)
        ensures
            w@.wf(),
            w@.column == 0,
            w@.color.spec_byte() == (background.spec_value() << 4) | foreground.spec_value(),
            forall|r: int, c: int|
                0 <= r < BUFFER_HEIGHT && 0 <= c < BUFFER_WIDTH ==> w@.grid[r][c] == blank_char(w@.color),
    {
        let color_code = ColorCode::new(foreground, background);
        let blank = ScreenChar { ascii_character: BLANK_GLYPH, color_code };
        let mut chars: Vec<Vec<volatile::Volatile<ScreenChar>>> = Vec::new();
        let mut row: usize = 0;
        while row < BUFFER_HEIGHT
            invariant
                row <= BUFFER_HEIGHT,
                chars@.len() == row,
                forall|r: int| 0 <= r < row as int ==> (#[trigger] chars@[r])@.len() == BUFFER_WIDTH,
                forall|r: int, c: int|
                    0 <= r < row as int && 0 <= c < BUFFER_WIDTH
                        ==> volatile_cell(#[trigger] chars@[r]@[c]) == blank,
            decreases BUFFER_HEIGHT - row,
        {
            let mut line: Vec<volatile::Volatile<ScreenChar>> = Vec::new();
            let mut col: usize = 0;
            while col < BUFFER_WIDTH
                invariant
                    col <= BUFFER_WIDTH,
                    line@.len() == col,
                    forall|c: int| 0 <= c < col as int ==> volatile_cell(#[trigger] line@[c]) == blank,
                decreases BUFFER_WIDTH - col,
            {
                line.push(volatile_new(blank));
                col = col + 1;
            }
            chars.push(line);
            row = row + 1;
        }
        Writer { column_position: 0, color_code, buffer: Buffer { chars } }
    }

    /// Writes one cell of the grid in place.
    fn put_cell(&mut self, row: usize, col: usize, cell: ScreenChar)
        requires
            old(self)@.wf(),
            row < BUFFER_HEIGHT,
            col < BUFFER_WIDTH,
        ensures
            final(self)@.wf(),
            final(self)@.grid == old(self)@.grid.update(
                row as int,
                old(self)@.grid[row as int].update(col as int, cell),
            ),
            final(self)@.column == old(self)@.column,
            final(self)@.color == old(self)@.color,
    {
        let ghost g0 = self@.grid;
        proof {
            assert(old(self)@.grid[row as int].len() == BUFFER_WIDTH);
        }
        let line = &mut self.buffer.chars[row];
        proof {
            assert(line@.len() == BUFFER_WIDTH);
        }
        let slot = &mut line[col];
        volatile_write(slot, cell);
        proof {
            let g1 = self@.grid;
            assert(forall|r: int| 0 <= r < g0.len() && r != row as int ==> g1[r] == g0[r]);
            assert(forall|c: int|
                0 <= c < BUFFER_WIDTH && c != col as int ==> g1[row as int][c] == g0[row as int][c]);
            assert(g1[row as int][col as int] == cell);
            assert(g1 =~~= g0.update(row as int, g0[row as int].update(col as int, cell)));
        }
    }

    /// Reads one cell of the grid.
    pub fn char_at(&self, row: usize, col: usize) -> (r: ScreenChar)
        requires
            self@.wf(),
            row < BUFFER_HEIGHT,
            col < BUFFER_WIDTH,
        ensures
            r == self@.grid[row as int][col as int],
    {
        proof {
            assert(self@.grid[row as int].len() == BUFFER_WIDTH);
        }
        let line = &self.buffer.chars[row];
        volatile_read(&line[col])
    }

    /// The current cursor column.
    pub fn column_position(&self) -> (r: usize)
        ensures
            r == self@.column,
    {
        self.column_position
    }

    /// The active color attribute.
    pub fn color_code(&self) -> (r: ColorCode)
        ensures
            r == self@.color,
    {
        self.color_code
    }

    /// Clears one row to blank cells with the current color.
    fn clear_row(&mut self, row: usize)
        requires
            old(self)@.wf(),
            row < BUFFER_HEIGHT,
        ensures
            final(self)@.wf(),
            final(self)@.grid == old(self)@.grid.update(row as int, blank_row(old(self)@.color)),
            final(self)@.column == old(self)@.column,
            final(self)@.color == old(self)@.color,
    {
        let ghost s0 = self@;
        let blank = ScreenChar { ascii_character: BLANK_GLYPH, color_code: self.color_code };
        let mut col: usize = 0;
        while col < BUFFER_WIDTH
            invariant
                col <= BUFFER_WIDTH,
                row < BUFFER_HEIGHT,
                s0.wf(),
                self@.wf(),
                self@.color == s0.color,
                self@.column == s0.column,
                blank == blank_char(s0.color),
                forall|r: int| 0 <= r < BUFFER_HEIGHT && r != row as int ==> self@.grid[r] == s0.grid[r],
                forall|c: int|
                    0 <= c < col as int ==> self@.grid[row as int][c] == blank_char(s0.color),
            decreases BUFFER_WIDTH - col,
        {
            self.put_cell(row, col, blank);
            col = col + 1;
        }
        proof {
            assert(self@.grid[row as int] =~= blank_row(s0.color));
            assert(self@.grid =~~= s0.grid.update(row as int, blank_row(s0.color)));
        }
    }

    /// Moves every row up one place, clears the bottom row with the current
    /// color, and resets the cursor to column 0.
    fn new_line(&mut self)
        requires
            old(self)@.wf(),
        ensures
            final(self)@.wf(),
            final(self)@.grid == scrolled(old(self)@.grid, old(self)@.color),
            final(self)@.column == 0,
            final(self)@.color == old(self)@.color,
    {
        let ghost s0 = self@;
        let mut row: usize = 1;
        while row < BUFFER_HEIGHT
            invariant
                1 <= row <= BUFFER_HEIGHT,
                s0.wf(),
                self@.wf(),
                self@.color == s0.color,
                self@.column == s0.column,
                forall|r: int| 0 <= r < row as int - 1 ==> self@.grid[r] == s0.grid[r + 1],
                forall|r: int|
                    row as int - 1 <= r < BUFFER_HEIGHT ==> self@.grid[r] == s0.grid[r],
            decreases BUFFER_HEIGHT - row,
        {
            let mut col: usize = 0;
            while col < BUFFER_WIDTH
                invariant
                    1 <= row < BUFFER_HEIGHT,
                    col <= BUFFER_WIDTH,
                    s0.wf(),
                    self@.wf(),
                    self@.color == s0.color,
                    self@.column == s0.column,
                    forall|r: int| 0 <= r < row as int - 1 ==> self@.grid[r] == s0.grid[r + 1],
                    forall|r: int|
                        row as int <= r < BUFFER_HEIGHT ==> self@.grid[r] == s0.grid[r],
                    forall|c: int|
                        0 <= c < col as int
                            ==> self@.grid[row as int - 1][c] == s0.grid[row as int][c],
                decreases BUFFER_WIDTH - col,
            {
                let character = self.char_at(row, col);
                self.put_cell(row - 1, col, character);
                col = col + 1;
            }
            proof {
                assert(self@.grid[row as int - 1] =~= s0.grid[row as int]);
            }
            row = row + 1;
        }
        self.clear_row(BUFFER_HEIGHT - 1);
        self.column_position = 0;
        proof {
            assert(self@.grid =~~= scrolled(s0.grid, s0.color));
        }
    }

    /// Writes one byte verbatim: a newline scrolls; at the end of a full row
    /// the grid scrolls before the byte is placed; otherwise the byte lands
    /// at the cursor on the bottom row and the cursor advances.
    pub fn write_byte(&mut self, byte: u8)
        requires
            old(self)@.wf(),
        ensures
            final(self)@.wf(),
            final(self)@ == write_byte_spec(old(self)@, byte),
    {
        if byte == NEWLINE {
            self.new_line();
        } else {
            if self.column_position >= BUFFER_WIDTH {
                self.new_line();
            }
            let row: usize = BUFFER_HEIGHT - 1;
            let col: usize = self.column_position;
            let color_code = self.color_code;
            self.put_cell(row, col, ScreenChar { ascii_character: byte, color_code });
            self.column_position = col + 1;
        }
    }

    /// Writes a sequence of text bytes: printable bytes and newlines pass
    /// through, anything else is drawn as the placeholder glyph.
    pub fn write_bytes(&mut self, bytes: &[u8])
        requires
            old(self)@.wf(),
        ensures
            final(self)@.wf(),
            final(self)@ == write_bytes_spec(old(self)@, bytes@),
    {
        let ghost s0 = self@;
        let mut i: usize = 0;
        while i < bytes.len()
            invariant
                i <= bytes@.len(),
                s0.wf(),
                self@.wf(),
                self@ == write_bytes_spec(s0, bytes@.take(i as int)),
            decreases bytes@.len() - i,
        {
            let b: u8 = bytes[i];
            if (0x20 <= b && b <= 0x7e) || b == NEWLINE {
                self.write_byte(b);
            } else {
                self.write_byte(PLACEHOLDER_GLYPH);
            }
            proof {
                lemma_write_bytes_snoc(s0, bytes@.take(i as int), bytes@[i as int]);
                assert(bytes@.take(i as int).push(bytes@[i as int]) =~= bytes@.take(i as int + 1));
            }
            i = i + 1;
        }
        proof {
            assert(bytes@.take(bytes@.len() as int) =~= bytes@);
        }
    }

    /// Writes the bytes of a string; any byte outside the printable ASCII
    /// range that is not the newline is drawn as the placeholder glyph.
    pub fn write_string(&mut self, s: &str)
        requires
            old(self)@.wf(),
        ensures
            final(self)@.wf(),
            final(self)@ == write_bytes_spec(old(self)@, s.spec_bytes()),
    {
        let bytes = s.as_bytes();
        self.write_bytes(bytes);
    }
}

/// One verbatim write preserves well-formedness of the console state.
pub proof fn lemma_write_byte_spec_wf(s: VgaState, byte: u8)
    requires
        s.wf(),
    ensures
        write_byte_spec(s, byte).wf(),
{
    let t = write_byte_spec(s, byte);
    assert forall|r: int| 0 <= r < t.grid.len() implies (#[trigger] t.grid[r]).len() == BUFFER_WIDTH by {
        assert(0 <= r < BUFFER_HEIGHT);
        if byte == NEWLINE || s.column >= BUFFER_WIDTH {
            if r < BUFFER_HEIGHT - 1 {
                assert(s.grid[r + 1].len() == BUFFER_WIDTH);
            }
        }
    }
}

/// A sequence of writes preserves well-formedness of the console state.
pub proof fn lemma_write_bytes_spec_wf(s: VgaState, bytes: Seq<u8>)
    requires
        s.wf(),
    ensures
        write_bytes_spec(s, bytes).wf(),
    decreases bytes.len(),
{
    if bytes.len() > 0 {
        lemma_write_byte_spec_wf(s, glyph_for(bytes[0]));
        lemma_write_bytes_spec_wf(write_byte_spec(s, glyph_for(bytes[0])), bytes.drop_first());
    }
}

/// Folding one more byte onto a write sequence appends one write.
pub proof fn lemma_write_bytes_snoc(s: VgaState, bytes: Seq<u8>, b: u8)
    ensures
        write_bytes_spec(s, bytes.push(b)) == write_byte_spec(
            write_bytes_spec(s, bytes),
            glyph_for(b),
        ),
    decreases bytes.len(),
{
    reveal_with_fuel(write_bytes_spec, 2);
    if bytes.len() == 0 {
        assert(bytes.push(b)[0] == b);
        assert(bytes.push(b).drop_first() =~= Seq::<u8>::empty());
    } else {
        assert(bytes.push(b)[0] == bytes[0]);
        assert(bytes.push(b).drop_first() =~= bytes.drop_first().push(b));
        lemma_write_bytes_snoc(write_byte_spec(s, glyph_for(bytes[0])), bytes.drop_first(), b);
    }
}

/// Writing a concatenation of two byte sequences equals writing the parts
/// in order.
pub proof fn lemma_write_bytes_append(s: VgaState, a: Seq<u8>, b: Seq<u8>)
    ensures
        write_bytes_spec(s, a + b) == write_bytes_spec(write_bytes_spec(s, a), b),
    decreases a.len(),
{
    if a.len() == 0 {
        assert(a + b =~= b);
    } else {
        assert((a + b)[0] == a[0]);
        assert((a + b).drop_first() =~= a.drop_first() + b);
        lemma_write_bytes_append(write_byte_spec(s, glyph_for(a[0])), a.drop_first(), b);
    }
}

/// A run of printable bytes that fits in the current row fills consecutive
/// bottom-row cells with exactly those bytes in the active color, advances
/// the cursor by their number, and touches no other cell.
pub proof fn lemma_printable_run(s: VgaState, bytes: Seq<u8>)
    requires
        s.wf(),
        forall|i: int| 0 <= i < bytes.len() ==> printable(#[trigger] bytes[i]),
        s.column + bytes.len() <= BUFFER_WIDTH,
    ensures
        write_bytes_spec(s, bytes).wf(),
        write_bytes_spec(s, bytes).column == s.column + bytes.len(),
        write_bytes_spec(s, bytes).color == s.color,
        forall|r: int|
            0 <= r < BUFFER_HEIGHT - 1 ==> write_bytes_spec(s, bytes).grid[r] == s.grid[r],
        forall|c: int|
            0 <= c < BUFFER_WIDTH && !(s.column <= c < s.column + bytes.len())
                ==> bottom_row(write_bytes_spec(s, bytes).grid)[c]
                    == bottom_row(s.grid)[c],
        forall|i: int|
            0 <= i < bytes.len()
                ==> bottom_row(write_bytes_spec(s, bytes).grid)[s.column + i]
                    == (ScreenChar { ascii_character: bytes[i], color_code: s.color }),
    decreases bytes.len(),
{
    if bytes.len() > 0 {
        assert(glyph_for(bytes[0]) == bytes[0]);
        let s1 = write_byte_spec(s, bytes[0]);
        lemma_write_byte_spec_wf(s, bytes[0]);
        let rest = bytes.drop_first();
        assert(forall|i: int| 0 <= i < rest.len() ==> printable(#[trigger] rest[i]));
        lemma_printable_run(s1, rest);
        let t = write_bytes_spec(s, bytes);
        assert(t == write_bytes_spec(s1, rest));
        assert forall|r: int| 0 <= r < BUFFER_HEIGHT - 1 implies t.grid[r] == s.grid[r] by {
            assert(t.grid[r] == s1.grid[r]);
            assert(s1.grid[r] == s.grid[r]);
        }
        assert forall|c: int|
            0 <= c < BUFFER_WIDTH && !(s.column <= c < s.column + bytes.len()) implies bottom_row(
            t.grid,
        )[c] == bottom_row(s.grid)[c] by {
            assert(bottom_row(t.grid)[c] == bottom_row(s1.grid)[c]);
            assert(bottom_row(s1.grid)[c] == bottom_row(s.grid)[c]);
        }
        assert forall|i: int| 0 <= i < bytes.len() implies bottom_row(t.grid)[s.column + i]
            == (ScreenChar { ascii_character: bytes[i], color_code: s.color }) by {
            if i == 0 {
                assert(bottom_row(t.grid)[s1.column + 0 - 1]
                    == bottom_row(s1.grid)[s.column as int]);
            } else {
                assert(bottom_row(t.grid)[s1.column + (i - 1)]
                    == (ScreenChar { ascii_character: rest[i - 1], color_code: s1.color }));
            }
        }
    }
}

/// A sequence of printable writes shorter than one row width, starting at
/// column 0, leaves the cursor column equal to the number of bytes written
/// and those bytes, with the active color, in the leading bottom-row cells.
pub proof fn lemma_leading_cells_match_writes(s: VgaState, bytes: Seq<u8>)
    requires
        s.wf(),
        s.column == 0,
        bytes.len() < BUFFER_WIDTH,
        forall|i: int| 0 <= i < bytes.len() ==> printable(#[trigger] bytes[i]),
    ensures
        write_bytes_spec(s, bytes).column == bytes.len(),
        forall|i: int|
            0 <= i < bytes.len()
                ==> bottom_row(write_bytes_spec(s, bytes).grid)[i]
                    == (ScreenChar { ascii_character: bytes[i], color_code: s.color }),
{
    lemma_printable_run(s, bytes);
}

/// A byte outside printable ASCII that is not the newline is drawn exactly
/// as if the placeholder glyph had been written: one placeholder cell at the
/// cursor, the cursor advanced past it, and every other cell untouched.
pub proof fn lemma_unprintable_byte_becomes_placeholder(s: VgaState, b: u8)
    requires
        s.wf(),
        !printable(b),
        b != NEWLINE,
    ensures
        write_bytes_spec(s, seq![b]) == write_byte_spec(s, PLACEHOLDER_GLYPH),
        s.column < BUFFER_WIDTH ==> bottom_row(write_bytes_spec(s, seq![b]).grid)[s.column as int]
            == (ScreenChar { ascii_character: PLACEHOLDER_GLYPH, color_code: s.color }),
        s.column < BUFFER_WIDTH ==> write_bytes_spec(s, seq![b]).column == s.column + 1,
        s.column < BUFFER_WIDTH ==> forall|r: int|
            0 <= r < BUFFER_HEIGHT - 1 ==> write_bytes_spec(s, seq![b]).grid[r] == s.grid[r],
        s.column < BUFFER_WIDTH ==> forall|c: int|
            0 <= c < BUFFER_WIDTH && c != s.column
                ==> bottom_row(write_bytes_spec(s, seq![b]).grid)[c]
                    == bottom_row(s.grid)[c],
{
    reveal_with_fuel(write_bytes_spec, 2);
    assert(seq![b][0] == b);
    assert(seq![b].drop_first() =~= Seq::<u8>::empty());
}

/// After exactly one row width of printable writes from column 0, one more
/// printable write scrolls: every row moves up one place, so the former
/// bottom row is one row higher unchanged, and the new bottom row holds
/// only the one new character.
pub proof fn lemma_full_row_then_write_scrolls(s: VgaState, bytes: Seq<u8>, b: u8)
    requires
        s.wf(),
        s.column == 0,
        bytes.len() == BUFFER_WIDTH,
        forall|i: int| 0 <= i < bytes.len() ==> printable(#[trigger] bytes[i]),
        printable(b),
    ensures
        ({
            let before = write_bytes_spec(s, bytes);
            let after = write_bytes_spec(s, bytes.push(b));
            &&& after.grid[BUFFER_HEIGHT - 2] == bottom_row(before.grid)
            &&& forall|r: int| 0 <= r < BUFFER_HEIGHT - 1 ==> after.grid[r] == before.grid[r + 1]
            &&& bottom_row(after.grid)[0]
                == (ScreenChar { ascii_character: b, color_code: s.color })
            &&& forall|c: int|
                1 <= c < BUFFER_WIDTH ==> bottom_row(after.grid)[c] == blank_char(s.color)
            &&& after.column == 1
        }),
{
    lemma_printable_run(s, bytes);
    lemma_write_bytes_snoc(s, bytes, b);
    let before = write_bytes_spec(s, bytes);
    let after = write_bytes_spec(s, bytes.push(b));
    assert(before.column == BUFFER_WIDTH);
    assert(after == write_byte_spec(before, b));
    assert(after.grid == written(
        scrolled(before.grid, before.color),
        0,
        ScreenChar { ascii_character: b, color_code: before.color },
    ));
    assert(after.grid[BUFFER_HEIGHT - 2] == bottom_row(before.grid));
    assert forall|c: int| 1 <= c < BUFFER_WIDTH implies bottom_row(after.grid)[c]
        == blank_char(s.color) by {
        assert(bottom_row(after.grid)[c] == blank_row(s.color)[c]);
    }
}

/// Writing a newline always resets the cursor column to 0 and scrolls the
/// grid exactly once, regardless of the prior column position.
pub proof fn lemma_newline_always_scrolls(s: VgaState)
    ensures
        write_byte_spec(s, NEWLINE).column == 0,
        write_byte_spec(s, NEWLINE).grid == scrolled(s.grid, s.color),
        write_byte_spec(s, NEWLINE).color == s.color,
{
}

} // verus!
