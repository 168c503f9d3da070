//! Text-mode display: colours, character cells and the cursor.

use vstd::prelude::*;
use vstd::string::StringSliceAdditionalSpecFns;
use crate::hardware::Store;

verus! {

/// Physical address of the first cell of the text buffer.
pub const VGA_START: u32 = 0xB8000;

/// Cells in one line of the display.
pub const COLUMNS: u32 = 80;

/// Cells that `clear_all` blanks: 25 lines of 80.
pub const SCREEN_CELLS: u32 = 2000;

/// Cursor positions that a one-byte line number and a column below 80 can
/// name: 256 lines of 80.
pub const CURSOR_LIMIT: u32 = 20480;

/// Attribute byte of every cell the driver prints: white on black, steady.
pub const ATTRIBUTE: u8 = 0x0F;

/// The blank that `clear_all` prints.
pub const BLANK: u8 = 0x20;

/// Foreground colour of a character cell (the low four bits of its attribute byte).
pub enum FgColor {
    Black,
    Blue,
    Green,
    Cyan,
    Red,
    Magenta,
    Brown,
    LightGray,
    DarkGray,
    LightBlue,
    LightGreen,
    LightCyan,
    LightRed,
    LightMagenta,
    Yellow,
    White,
}

impl FgColor {
    /// Palette index of the colour, 0 to 15.
    pub open spec fn index(&self) -> int {
        match self {
            FgColor::Black => 0,
            FgColor::Blue => 1,
            FgColor::Green => 2,
            FgColor::Cyan => 3,
            FgColor::Red => 4,
            FgColor::Magenta => 5,
            FgColor::Brown => 6,
            FgColor::LightGray => 7,
            FgColor::DarkGray => 8,
            FgColor::LightBlue => 9,
            FgColor::LightGreen => 10,
            FgColor::LightCyan => 11,
            FgColor::LightRed => 12,
            FgColor::LightMagenta => 13,
            FgColor::Yellow => 14,
            FgColor::White => 15,
        }
    }

    /// The colour's contribution to the attribute byte: its palette index.
    pub fn to_byte(&self) -> (b: u8)
        ensures
            b == self.index(),
    {
        match self {
            FgColor::Black => 0,
            FgColor::Blue => 1,
            FgColor::Green => 2,
            FgColor::Cyan => 3,
            FgColor::Red => 4,
            FgColor::Magenta => 5,
            FgColor::Brown => 6,
            FgColor::LightGray => 7,
            FgColor::DarkGray => 8,
            FgColor::LightBlue => 9,
            FgColor::LightGreen => 10,
            FgColor::LightCyan => 11,
            FgColor::LightRed => 12,
            FgColor::LightMagenta => 13,
            FgColor::Yellow => 14,
            FgColor::White => 15,
        }
    }
}

/// Background colour of a character cell (bits 4 to 6 of its attribute byte).
pub enum BgColor {
    Black,
    Blue,
    Green,
    Cyan,
    Red,
    Magenta,
    Brown,
    LightGray,
}

impl BgColor {
    /// Palette index of the colour, 0 to 7.
    pub open spec fn index(&self) -> int {
        match self {
            BgColor::Black => 0,
            BgColor::Blue => 1,
            BgColor::Green => 2,
            BgColor::Cyan => 3,
            BgColor::Red => 4,
            BgColor::Magenta => 5,
            BgColor::Brown => 6,
            BgColor::LightGray => 7,
        }
    }

    /// The colour's contribution to the attribute byte: its palette index in
    /// bits 4 to 6.
    pub fn to_byte(&self) -> (b: u8)
        ensures
            b == 16 * self.index(),
    {
        let index: u8 = match self {
            BgColor::Black => 0,
            BgColor::Blue => 1,
            BgColor::Green => 2,
            BgColor::Cyan => 3,
            BgColor::Red => 4,
            BgColor::Magenta => 5,
            BgColor::Brown => 6,
            BgColor::LightGray => 7,
        };
        assert(index <= 7 ==> index << 4 == 16 * index) by (bit_vector);
        index << 4
    }
}

/// Colours and blink flag of a character cell.
pub struct ColorCode {
    pub fg: FgColor,
    pub bg: BgColor,
    pub blink: bool,
}

impl ColorCode {
    /// The attribute byte as a number: blink in bit 7, background in bits 4
    /// to 6, foreground in bits 0 to 3. The three fields do not overlap, so
    /// the byte is their sum.
    pub open spec fn attribute(&self) -> int {
        (if self.blink { 128int } else { 0int }) + 16 * self.bg.index() + self.fg.index()
    }

    /// The attribute byte of the cell.
    pub fn to_byte(&self) -> (b: u8)
        ensures
            b == self.attribute(),
    {
        let flag: bool = self.blink;
        let blink: u8 = (flag as u8) << 7;
        let bg: u8 = self.bg.to_byte();
        let fg: u8 = self.fg.to_byte();
        assert(blink == (if flag { 128u8 } else { 0u8 })) by (bit_vector)
            requires
                blink == (flag as u8) << 7,
        ;
        assert((blink == 0 || blink == 128) && bg & 0x8F == 0 && fg <= 15 ==> blink | bg | fg
            == blink + bg + fg) by (bit_vector);
        assert(bg & 0x8F == 0) by (bit_vector)
            requires
                bg == 0 || bg == 16 || bg == 32 || bg == 48 || bg == 64 || bg == 80 || bg == 96
                    || bg == 112,
        ;
        blink | bg | fg
    }
}

/// One character cell: the character and its colours.
pub struct Char {
    pub ascii_character: u8,
    pub color_code: ColorCode,
}

impl Char {
    /// The cell showing `ascii_character` in the colours `color_code`.
    pub fn new(ascii_character: u8, color_code: ColorCode) -> (c: Self)
        ensures
            c.ascii_character == ascii_character,
            c.color_code == color_code,
    {
        Char { ascii_character, color_code }
    }
}

/// What a `Vga` stands for: where the cursor is, and the stores that were
/// issued and not yet taken.
pub struct VgaView {
    /// Cells before the cursor, counted along the lines: 80 times the line,
    /// plus the column.
    pub cursor: nat,
    /// The stores issued since the last `take_writes`, oldest first.
    pub writes: Seq<Store>,
}

impl VgaView {
    /// Line of the cursor, from 0.
    pub open spec fn line(self) -> nat {
        self.cursor / 80
    }

    /// Column of the cursor, 0 to 79.
    pub open spec fn column(self) -> nat {
        self.cursor % 80
    }
}

/// Address of the cell that is `cursor` cells after the start of the buffer.
/// A cell takes two bytes.
pub open spec fn cell_address(cursor: nat) -> int {
    VGA_START + 2 * cursor
}

/// The two stores that show `ch` in the cell at `cursor`: the character, then
/// the attribute byte behind it.
pub open spec fn cell_stores(cursor: nat, ch: u8) -> Seq<Store> {
    seq![
        (Store { addr: cell_address(cursor) as u32, value: ch }),
        (Store { addr: (cell_address(cursor) + 1) as u32, value: ATTRIBUTE }),
    ]
}

/// The stores that show `text` in the cells from `cursor` on, one cell after
/// the other: store `k` goes to the byte `k` after the first cell, and is a
/// character of `text` where `k` is even and the attribute where it is odd.
pub open spec fn text_stores(cursor: nat, text: Seq<u8>) -> Seq<Store> {
    Seq::new(
        2 * text.len(),
        |k: int|
            Store {
                addr: (cell_address(cursor) + k) as u32,
                value: if k % 2 == 0 {
                    text[k / 2]
                } else {
                    ATTRIBUTE
                },
            },
    )
}

/// `n` blanks.
pub open spec fn blanks(n: nat) -> Seq<u8> {
    Seq::new(n, |i: int| BLANK)
}

/// Showing one more character takes the stores of its cell, after those of
/// the text before it.
pub proof fn lemma_text_stores_push(cursor: nat, text: Seq<u8>, ch: u8)
    ensures
        text_stores(cursor, text.push(ch)) == text_stores(cursor, text) + cell_stores(
            cursor + text.len(),
            ch,
        ),
{
    assert(text_stores(cursor, text.push(ch)) =~= text_stores(cursor, text) + cell_stores(
        cursor + text.len(),
        ch,
    ));
}

/// Text-mode display driver. It keeps the cursor and collects the stores
/// that printing takes; `take_writes` hands them out to be performed.
///
/// The driver does not scroll: below line 24 the cursor is off the screen,
/// and what is printed there is stored behind the 4000 bytes that show.
pub struct Vga {
    line: u8,
    column: u8,  // 0 - 79
    pending: Vec<Store>,
}

impl View for Vga {
    type V = VgaView;

    closed spec fn view(&self) -> VgaView {
        VgaView { cursor: (80 * self.line + self.column) as nat, writes: self.pending@ }
    }
}

impl Vga {
    #[verifier::type_invariant]
    spec fn column_in_line(self) -> bool {
        self.column <= 79
    }

    /// A driver with the cursor at the top left, having blanked the screen.
    pub fn new() -> (vga: Self)
        ensures
            vga@.cursor == 0,
            vga@.writes == text_stores(0, blanks(SCREEN_CELLS as nat)),
    {
        let mut new_vga = Vga { line: 0, column: 0, pending: Vec::new() };
        new_vga.clear_all();
        new_vga
    }

    /// Prints 2000 blanks from the cursor on, then puts the cursor at the top
    /// left. With the cursor at the top left this blanks the whole screen.
    ///
    /// The cursor must be able to pass over the 2000 cells: its line
    /// number is one byte.
    pub fn clear_all(&mut self)
        requires
            old(self)@.cursor + SCREEN_CELLS < CURSOR_LIMIT,
        ensures
            final(self)@.cursor == 0,
            final(self)@.writes == old(self)@.writes + text_stores(
                old(self)@.cursor,
                blanks(SCREEN_CELLS as nat),
            ),
    {
        let ghost start = self@.cursor;
        let ghost before = self@.writes;
        let mut i: u32 = 0;
        while i < SCREEN_CELLS
            invariant
                i <= SCREEN_CELLS,
                start + SCREEN_CELLS < CURSOR_LIMIT,
                self@.cursor == start + i,
                self@.writes == before + text_stores(start, blanks(i as nat)),
            decreases SCREEN_CELLS - i,
        {
            proof {
                lemma_text_stores_push(start, blanks(i as nat), BLANK);
                assert(blanks(i as nat).push(BLANK) =~= blanks((i + 1) as nat));
            }
            self.print_char(BLANK);
            i += 1;
        }
        proof {
            use_type_invariant(&*self);
        }
        self.line = 0;
        self.column = 0;
    }

    /// Address of the cell under the cursor.
    pub fn get_cursor_addr(&self) -> (addr: u32)
        ensures
            addr == cell_address(self@.cursor),
    {
        proof {
            use_type_invariant(self);
        }
        let offset_index: u32 = self.cursor();
        VGA_START + offset_index * 2
    }

    /// Moves the cursor one cell on; from the last column it goes to the
    /// start of the next line.
    ///
    /// The cursor must not stand in the last column of line 255.
    pub fn shift_cursor(&mut self)
        requires
            old(self)@.cursor + 1 < CURSOR_LIMIT,
        ensures
            final(self)@.cursor == old(self)@.cursor + 1,
            final(self)@.writes == old(self)@.writes,
    {
        proof {
            use_type_invariant(&*self);
        }
        if self.column == 79 {
            self.newline();
        } else {
            self.column += 1;
        }
    }

    /// Moves the cursor to the start of the next line.
    ///
    /// The cursor must stand above line 255.
    pub fn newline(&mut self)
        requires
            old(self)@.line() < 255,
        ensures
            final(self)@.cursor == 80 * (old(self)@.line() + 1),
            final(self)@.writes == old(self)@.writes,
    {
        proof {
            use_type_invariant(&*self);
        }
        self.line += 1;
        self.column = 0;
    }

    /// Shows `char` white on black in the cell under the cursor and moves the
    /// cursor one cell on.
    ///
    /// The cursor must not stand in the last column of line 255.
    pub fn print_char(&mut self, char: u8)
        requires
            old(self)@.cursor + 1 < CURSOR_LIMIT,
        ensures
            final(self)@.cursor == old(self)@.cursor + 1,
            final(self)@.writes == old(self)@.writes + cell_stores(old(self)@.cursor, char),
    {
        let char = Char::new(
            char,
            ColorCode { fg: FgColor::White, bg: BgColor::Black, blink: false },
        );

        let cursor_addr: u32 = self.get_cursor_addr();
        proof {
            use_type_invariant(&*self);
        }

        self.emit(Store { addr: cursor_addr, value: char.ascii_character });
        self.emit(Store { addr: cursor_addr + 1, value: char.color_code.to_byte() });

        self.shift_cursor();
    }

    /// Prints the bytes of `text` one after the other, then moves the cursor
    /// to the start of the next line.
    ///
    /// The text must end above line 255.
    pub fn println(&mut self, text: &str)
        requires
            old(self)@.cursor + text.spec_bytes().len() < CURSOR_LIMIT - COLUMNS,
        ensures
            final(self)@.cursor == 80 * ((old(self)@.cursor + text.spec_bytes().len()) / 80 + 1),
            final(self)@.writes == old(self)@.writes + text_stores(
                old(self)@.cursor,
                text.spec_bytes(),
            ),
    {
        let ghost start = self@.cursor;
        let ghost before = self@.writes;
        let bytes = text.as_bytes();
        let mut i: usize = 0;
        while i < bytes.len()
            invariant
                i <= bytes.len(),
                bytes@ == text.spec_bytes(),
                start + bytes.len() < CURSOR_LIMIT - COLUMNS,
                self@.cursor == start + i,
                self@.writes == before + text_stores(start, bytes@.take(i as int)),
            decreases bytes.len() - i,
        {
            proof {
                lemma_text_stores_push(start, bytes@.take(i as int), bytes@[i as int]);
                assert(bytes@.take(i as int).push(bytes@[i as int]) =~= bytes@.take(i + 1));
            }
            self.print_char(bytes[i]);
            i += 1;
        }
        assert(bytes@.take(bytes.len() as int) =~= bytes@);
        self.newline();
    }

    /// Hands out the stores issued since the last call, oldest first, and
    /// forgets them. The cursor stays.
    pub fn take_writes(&mut self) -> (writes: Vec<Store>)
        ensures
            writes@ == old(self)@.writes,
            final(self)@.writes == Seq::<Store>::empty(),
            final(self)@.cursor == old(self)@.cursor,
    {
        proof {
            use_type_invariant(&*self);
        }
        let mut writes: Vec<Store> = Vec::new();
        std::mem::swap(&mut self.pending, &mut writes);
        writes
    }

    /// Cells before the cursor, counted along the lines.
    pub fn cursor(&self) -> (cursor: u32)
        ensures
            cursor == self@.cursor,
            cursor < CURSOR_LIMIT,
    {
        proof {
            use_type_invariant(self);
        }
        self.line as u32 * COLUMNS + self.column as u32
    }

    /// Line of the cursor.
    pub fn line(&self) -> (line: u8)
        ensures
            line == self@.line(),
    {
        proof {
            use_type_invariant(self);
        }
        self.line
    }

    /// Column of the cursor.
    pub fn column(&self) -> (column: u8)
        ensures
            column == self@.column(),
    {
        proof {
            use_type_invariant(self);
        }
        self.column
    }

    /// Appends one store to those waiting to be taken.
    fn emit(&mut self, store: Store)
        ensures
            final(self)@.cursor == old(self)@.cursor,
            final(self)@.writes == old(self)@.writes.push(store),
    {
        proof {
            use_type_invariant(&*self);
        }
        let mut pending: Vec<Store> = Vec::new();
        std::mem::swap(&mut self.pending, &mut pending);
        pending.push(store);
        self.pending = pending;
    }
}

} // verus!
