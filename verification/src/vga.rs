//! Text-mode screen model: colors, character cells, and the writer's layout
//! rules (cursor movement, line wrapping, scrolling). The real frame buffer
//! is memory-mapped hardware; this module owns an equal-sized buffer of
//! cells and proves what every write does to it, so the hardware mirror only
//! ever copies cells out.

use vstd::prelude::*;
use vstd::string::StringSliceAdditionalSpecFns;

verus! {

pub const VGA_BUFFER_HEIGHT: usize = 25;
pub const VGA_BUFFER_WIDTH: usize = 80;
pub const VGA_SQUARE_ASCII_CODE: u8 = 0xfe;

/// The sixteen standard text-mode colors, in hardware order starting at 0.
#[allow(dead_code)]
#[derive(Debug, Clone, Copy, PartialEq, Eq, Structural)]
pub enum Color {
    Black,
    Blue,
    Green,
    Cyan,
    Red,
    Magenta,
    Brown,
    LightGray,
    DarkGray,
    LightBlue,
    LightGreen,
    LightCyan,
    LightRed,
    Pink,
    Yellow,
    White,
}

impl Color {
    /// The hardware palette index of this color.
    pub open spec fn spec_value(self) -> u8 {
        match self {
            Color::Black => 0,
            Color::Blue => 1,
            Color::Green => 2,
            Color::Cyan => 3,
            Color::Red => 4,
            Color::Magenta => 5,
            Color::Brown => 6,
            Color::LightGray => 7,
            Color::DarkGray => 8,
            Color::LightBlue => 9,
            Color::LightGreen => 10,
            Color::LightCyan => 11,
            Color::LightRed => 12,
            Color::Pink => 13,
            Color::Yellow => 14,
            Color::White => 15,
        }
    }

    pub fn value(self) -> (v: u8)
        ensures
            v == self.spec_value(),
            v < 16,
    {
        match self {
            Color::Black => 0,
            Color::Blue => 1,
            Color::Green => 2,
            Color::Cyan => 3,
            Color::Red => 4,
            Color::Magenta => 5,
            Color::Brown => 6,
            Color::LightGray => 7,
            Color::DarkGray => 8,
            Color::LightBlue => 9,
            Color::LightGreen => 10,
            Color::LightCyan => 11,
            Color::LightRed => 12,
            Color::Pink => 13,
            Color::Yellow => 14,
            Color::White => 15,
        }
    }
}

/// One attribute byte: background palette index in the high nibble,
/// foreground in the low nibble.
#[derive(Debug, Clone, Copy, PartialEq, Eq, Structural)]
pub struct ColorCode(pub u8);

impl ColorCode {
    pub fn new(foreground: Color, background: Color) -> (r: Self)
        ensures
            r.0 == background.spec_value() * 16 + foreground.spec_value(),
    {
        let fg = foreground.value();
        let bg = background.value();
        let code: u8 = (bg << 4) | fg;
        proof {
            assert((bg << 4) | fg == bg * 16 + fg) by (bit_vector)
                requires
                    fg < 16,
                    bg < 16,
            ;
        }
        Self(code)
    }
}

/// One screen cell: a code-page character byte with its attribute byte.
#[derive(Debug, Clone, Copy, PartialEq, Eq, Structural)]
pub struct VgaChar {
    pub ascii_code: u8,
    pub color_code: ColorCode,
}

impl VgaChar {
    pub fn new(ascii_code: u8, color: ColorCode) -> (r: Self)
        ensures
            r.ascii_code == ascii_code,
            r.color_code == color,
    {
        Self {
            ascii_code,
            color_code: color,
        }
    }
}

/// What a writer looks like to a specification: the flat row-major
/// sequence of cells, the cursor column, and the current attribute.
#[verifier::ext_equal]
pub struct ScreenModel {
    pub cells: Seq<VgaChar>,
    pub column: int,
    pub color: ColorCode,
}

/// The blank cell a scroll or clear leaves behind under attribute `color`.
pub open spec fn spec_blank(color: ColorCode) -> VgaChar {
    VgaChar { ascii_code: 0x20, color_code: color }
}

/// One-line scroll: every row takes the row below it, the bottom row goes
/// blank in the current attribute, and the cursor returns to column zero.
pub open spec fn spec_scrolled(m: ScreenModel) -> ScreenModel {
    ScreenModel {
        cells: Seq::new(
            2000,
            |i: int|
                if i < 1920 {
                    m.cells[i + 80]
                } else {
                    spec_blank(m.color)
                },
        ),
        column: 0,
        color: m.color,
    }
}

/// What one byte does to the screen: newline scrolls; any other byte is
/// placed at the cursor on the bottom row — after a scroll when the line
/// is already full — and the cursor advances.
pub open spec fn spec_write_char(m: ScreenModel, byte: u8) -> ScreenModel {
    if byte == 0x0a {
        spec_scrolled(m)
    } else if m.column >= 80 {
        let s = spec_scrolled(m);
        ScreenModel {
            cells: s.cells.update(1920, VgaChar { ascii_code: byte, color_code: m.color }),
            column: 1,
            color: m.color,
        }
    } else {
        ScreenModel {
            cells: m.cells.update(
                1920 + m.column,
                VgaChar { ascii_code: byte, color_code: m.color },
            ),
            column: m.column + 1,
            color: m.color,
        }
    }
}

/// A whole byte sequence, written left to right.
pub open spec fn spec_write_bytes(m: ScreenModel, bytes: Seq<u8>) -> ScreenModel
    decreases bytes.len(),
{
    if bytes.len() == 0 {
        m
    } else {
        spec_write_bytes(spec_write_char(m, bytes[0]), bytes.drop_first())
    }
}

/// The byte the writer actually renders: the byte itself when printable
/// or newline, otherwise the square placeholder.
pub open spec fn spec_render_byte(byte: u8) -> u8 {
    if 0x20 <= byte <= 0x7e || byte == 0x0a {
        byte
    } else {
        VGA_SQUARE_ASCII_CODE
    }
}

/// Writing bytes one at a time agrees with writing the sequence extended
/// by its last byte: the fold over a byte sequence grows at the tail.
pub proof fn lemma_write_bytes_snoc(m: ScreenModel, bytes: Seq<u8>, byte: u8)
    ensures
        spec_write_bytes(m, bytes.push(byte)) == spec_write_char(spec_write_bytes(m, bytes), byte),
    decreases bytes.len(),
{
    let s = bytes.push(byte);
    if bytes.len() == 0 {
        assert(s[0] == byte);
        assert(s.drop_first() =~= Seq::<u8>::empty());
        assert(spec_write_bytes(m, s) == spec_write_bytes(spec_write_char(m, byte), s.drop_first()));
        assert(spec_write_bytes(spec_write_char(m, byte), s.drop_first()) == spec_write_char(
            m,
            byte,
        ));
        assert(spec_write_bytes(m, bytes) == m);
    } else {
        assert(s[0] == bytes[0]);
        assert(s.drop_first() =~= bytes.drop_first().push(byte));
        lemma_write_bytes_snoc(spec_write_char(m, bytes[0]), bytes.drop_first(), byte);
        assert(spec_write_bytes(m, s) == spec_write_bytes(
            spec_write_char(m, bytes[0]),
            s.drop_first(),
        ));
        assert(spec_write_bytes(m, bytes) == spec_write_bytes(
            spec_write_char(m, bytes[0]),
            bytes.drop_first(),
        ));
    }
}

/// True exactly for the bytes the writer renders as themselves: the
/// printable range 0x20..=0x7e, and newline.
pub fn is_valid_ascii(code: &u8) -> (r: bool)
    ensures
        r == (0x20 <= *code <= 0x7e || *code == 0x0a),
{
    match code {
        0x20..=0x7e | 0x0a => true,
        _ => false,
    }
}

/// The text writer: cursor column, current attribute, and an owned copy
/// of the 25-by-80 cell grid. The memory-mapped hardware buffer is kept
/// outside this library; its keeper mirrors these cells into it after
/// each operation.
pub struct Writer {
    pub column_position: usize,
    pub color_code: ColorCode,
    pub buffer: Vec<VgaChar>,
}

impl View for Writer {
    type V = ScreenModel;

    open spec fn view(&self) -> ScreenModel {
        ScreenModel {
            cells: self.buffer@,
            column: self.column_position as int,
            color: self.color_code,
        }
    }
}

impl Writer {
    pub open spec fn wf(self) -> bool {
        &&& self.buffer@.len() == 2000
        &&& self.column_position <= 80
    }

    /// A fresh writer: cursor at column zero, white on black, every cell
    /// blank.
    pub fn init() -> (w: Self)
        ensures
            w.wf(),
            w.column_position == 0,
            w.color_code == ColorCode(0x0f),
            forall|i: int| 0 <= i < 2000 ==> w@.cells[i] == spec_blank(ColorCode(0x0f)),
    {
        let mut buffer: Vec<VgaChar> = Vec::new();
        let mut i: usize = 0;
        while i < 2000
            invariant
                i <= 2000,
                buffer@.len() == i,
                forall|j: int| 0 <= j < i ==> buffer@[j] == spec_blank(ColorCode(0x0f)),
            decreases 2000 - i,
        {
            buffer.push(VgaChar { ascii_code: 0x20, color_code: ColorCode(0x0f) });
            i = i + 1;
        }
        Writer { column_position: 0, color_code: ColorCode(0x0f), buffer }
    }

    /// Changes the attribute used for everything written from now on.
    pub fn set_color(&mut self, color: ColorCode)
        ensures
            final(self).column_position == old(self).column_position,
            final(self).color_code == color,
            final(self).buffer@ == old(self).buffer@,
    {
        self.color_code = color;
    }

    /// Fills one row with a single cell, leaving the rest of the grid,
    /// the cursor and the attribute alone.
    pub fn fill_row(&mut self, row: usize, char_cell: VgaChar)
        requires
            old(self).wf(),
            row < 25,
        ensures
            final(self).wf(),
            final(self).column_position == old(self).column_position,
            final(self).color_code == old(self).color_code,
            final(self).buffer@.len() == 2000,
            forall|i: int| row * 80 <= i < row * 80 + 80 ==> final(self).buffer@[i] == char_cell,
            forall|i: int|
                0 <= i < 2000 && !(row * 80 <= i < row * 80 + 80) ==> final(self).buffer@[i] == old(
                    self,
                ).buffer@[i],
    {
        let mut col: usize = 0;
        while col < 80
            invariant
                col <= 80,
                row < 25,
                self.buffer@.len() == 2000,
                self.column_position == old(self).column_position,
                self.color_code == old(self).color_code,
                forall|i: int| row * 80 <= i < row * 80 + col ==> self.buffer@[i] == char_cell,
                forall|i: int|
                    0 <= i < 2000 && !(row * 80 <= i < row * 80 + col) ==> self.buffer@[i] == old(
                        self,
                    ).buffer@[i],
            decreases 80 - col,
        {
            self.buffer.set(row * 80 + col, char_cell);
            col = col + 1;
        }
    }

    /// Fills the whole grid with a single cell.
    pub fn fill_screen(&mut self, char_cell: VgaChar)
        requires
            old(self).wf(),
        ensures
            final(self).wf(),
            final(self).column_position == old(self).column_position,
            final(self).color_code == old(self).color_code,
            forall|i: int| 0 <= i < 2000 ==> final(self).buffer@[i] == char_cell,
    {
        let mut row: usize = 0;
        while row < 25
            invariant
                row <= 25,
                self.wf(),
                self.column_position == old(self).column_position,
                self.color_code == old(self).color_code,
                forall|i: int| 0 <= i < row * 80 ==> self.buffer@[i] == char_cell,
            decreases 25 - row,
        {
            self.fill_row(row, char_cell);
            row = row + 1;
        }
    }

    /// Scrolls the screen one line and returns the cursor to column zero.
    pub fn new_line(&mut self)
        requires
            old(self).wf(),
        ensures
            final(self).wf(),
            final(self)@ == spec_scrolled(old(self)@),
    {
        let mut row: usize = 1;
        while row < 25
            invariant
                1 <= row <= 25,
                self.wf(),
                self.column_position == old(self).column_position,
                self.color_code == old(self).color_code,
                forall|i: int| 0 <= i < (row - 1) * 80 ==> self.buffer@[i] == old(self).buffer@[i
                    + 80],
                forall|i: int| (row - 1) * 80 <= i < 2000 ==> self.buffer@[i] == old(
                    self,
                ).buffer@[i],
            decreases 25 - row,
        {
            let mut col: usize = 0;
            while col < 80
                invariant
                    1 <= row < 25,
                    col <= 80,
                    self.wf(),
                    self.column_position == old(self).column_position,
                    self.color_code == old(self).color_code,
                    forall|i: int|
                        0 <= i < (row - 1) * 80 + col ==> self.buffer@[i] == old(self).buffer@[i
                            + 80],
                    forall|i: int| (row - 1) * 80 + col <= i < 2000 ==> self.buffer@[i] == old(
                        self,
                    ).buffer@[i],
                decreases 80 - col,
            {
                let character = self.buffer[row * 80 + col];
                self.buffer.set((row - 1) * 80 + col, character);
                col = col + 1;
            }
            row = row + 1;
        }
        let blank = VgaChar { ascii_code: 0x20, color_code: self.color_code };
        self.fill_row(24, blank);
        self.column_position = 0;
        proof {
            assert(self@.cells =~= spec_scrolled(old(self)@).cells);
        }
    }

    /// Writes one byte at the cursor: newline scrolls, a full line wraps
    /// by scrolling first, anything else lands on the bottom row in the
    /// current attribute and advances the cursor.
    pub fn write_char(&mut self, ascii_code: u8)
        requires
            old(self).wf(),
        ensures
            final(self).wf(),
            final(self)@ == spec_write_char(old(self)@, ascii_code),
    {
        if ascii_code == 0x0a {
            self.new_line();
        } else {
            if self.column_position >= 80 {
                self.new_line();
                proof {
                    assert(self@ == spec_scrolled(old(self)@));
                }
                let col = self.column_position;
                self.buffer.set(
                    24 * 80 + col,
                    VgaChar { ascii_code, color_code: self.color_code },
                );
                self.column_position = col + 1;
                proof {
                    assert(self@.cells =~= spec_write_char(old(self)@, ascii_code).cells);
                }
            } else {
                let col = self.column_position;
                self.buffer.set(
                    24 * 80 + col,
                    VgaChar { ascii_code, color_code: self.color_code },
                );
                self.column_position = col + 1;
                proof {
                    assert(self@.cells =~= spec_write_char(old(self)@, ascii_code).cells);
                }
            }
        }
    }

    /// Writes a string byte by byte, substituting the square placeholder
    /// for anything unprintable.
    pub fn write_string(&mut self, s: &str)
        requires
            old(self).wf(),
        ensures
            final(self).wf(),
            final(self)@ == spec_write_bytes(
                old(self)@,
                s.spec_bytes().map_values(|b: u8| spec_render_byte(b)),
            ),
    {
        let bytes = s.as_bytes();
        let n = bytes.len();
        let ghost rendered = s.spec_bytes().map_values(|b: u8| spec_render_byte(b));
        let mut i: usize = 0;
        while i < n
            invariant
                i <= n,
                n == bytes@.len(),
                bytes@ == s.spec_bytes(),
                rendered == s.spec_bytes().map_values(|b: u8| spec_render_byte(b)),
                self.wf(),
                self@ == spec_write_bytes(old(self)@, rendered.take(i as int)),
            decreases n - i,
        {
            let byte = bytes[i];
            if is_valid_ascii(&byte) {
                self.write_char(byte);
            } else {
                self.write_char(VGA_SQUARE_ASCII_CODE);
            }
            proof {
                assert(rendered.take(i + 1) =~= rendered.take(i as int).push(rendered[i as int]));
                lemma_write_bytes_snoc(old(self)@, rendered.take(i as int), rendered[i as int]);
            }
            i = i + 1;
        }
        proof {
            assert(rendered.take(n as int) =~= rendered);
        }
    }

    /// Writes a string onto one specific row, truncated to the row's
    /// width, without moving the cursor; the rest of the grid is kept.
    pub fn write_row(&mut self, row: usize, s: &str)
        requires
            old(self).wf(),
            row < 25,
        ensures
            final(self).wf(),
            final(self).column_position == old(self).column_position,
            final(self).color_code == old(self).color_code,
            forall|i: int|
                row * 80 <= i < row * 80 + s.spec_bytes().len() && i < row * 80 + 80 ==> final(self).buffer@[i] == (VgaChar {
                    ascii_code: s.spec_bytes()[i - row * 80],
                    color_code: old(self).color_code,
                }),
            forall|i: int|
                0 <= i < 2000 && !(row * 80 <= i < row * 80 + s.spec_bytes().len() && i < row * 80
                    + 80) ==> final(self).buffer@[i] == old(self).buffer@[i],
    {
        let bytes = s.as_bytes();
        let mut len = bytes.len();
        if len > 80 {
            len = 80;
        }
        let mut col: usize = 0;
        while col < len
            invariant
                col <= len,
                len <= 80,
                len <= bytes@.len(),
                bytes@.len() > 80 ==> len == 80,
                row < 25,
                bytes@ == s.spec_bytes(),
                self.wf(),
                self.column_position == old(self).column_position,
                self.color_code == old(self).color_code,
                forall|i: int|
                    row * 80 <= i < row * 80 + col ==> self.buffer@[i] == (VgaChar {
                        ascii_code: s.spec_bytes()[i - row * 80],
                        color_code: old(self).color_code,
                    }),
                forall|i: int|
                    0 <= i < 2000 && !(row * 80 <= i < row * 80 + col) ==> self.buffer@[i] == old(
                        self,
                    ).buffer@[i],
            decreases len - col,
        {
            let byte = bytes[col];
            self.buffer.set(row * 80 + col, VgaChar { ascii_code: byte, color_code: self.color_code });
            col = col + 1;
        }
    }

    /// Paints the fatal-diagnostic screen: a blue field of white-on-blue
    /// blanks with `message` across row 15 in red on blue, leaving the
    /// attribute at white on blue for the details that follow.
    pub fn paint_panic_screen(&mut self, message: &str)
        requires
            old(self).wf(),
        ensures
            final(self).wf(),
            final(self).column_position == old(self).column_position,
            final(self).color_code == ColorCode(0x1f),
            forall|i: int|
                1200 <= i < 1200 + message.spec_bytes().len() && i < 1280 ==> final(self).buffer@[i] == (VgaChar {
                    ascii_code: message.spec_bytes()[i - 1200],
                    color_code: ColorCode(0x14),
                }),
            forall|i: int|
                0 <= i < 2000 && !(1200 <= i < 1200 + message.spec_bytes().len() && i < 1280)
                    ==> final(self).buffer@[i] == spec_blank(ColorCode(0x1f)),
    {
        let clear_char = VgaChar::new(0x20, ColorCode::new(Color::White, Color::Blue));
        self.fill_screen(clear_char);
        self.set_color(ColorCode::new(Color::Red, Color::Blue));
        self.write_row(15, message);
        self.set_color(ColorCode::new(Color::White, Color::Blue));
    }
}

} // verus!
