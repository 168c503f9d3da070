use kernel::hardware::Store;
use kernel::vga::{BgColor, Char, ColorCode, FgColor, Vga, ATTRIBUTE, VGA_START};

fn cell(index: u32, ch: u8) -> [Store; 2] {
    [
        Store { addr: 0xB8000 + 2 * index, value: ch },
        Store { addr: 0xB8000 + 2 * index + 1, value: 0x0F },
    ]
}

fn fresh() -> Vga {
    let mut vga = Vga::new();
    vga.take_writes();
    vga
}

#[test]
fn foreground_bytes_are_the_palette_indices() {
    assert_eq!(FgColor::Black.to_byte(), 0);
    assert_eq!(FgColor::Blue.to_byte(), 1);
    assert_eq!(FgColor::Green.to_byte(), 2);
    assert_eq!(FgColor::Cyan.to_byte(), 3);
    assert_eq!(FgColor::Red.to_byte(), 4);
    assert_eq!(FgColor::Magenta.to_byte(), 5);
    assert_eq!(FgColor::Brown.to_byte(), 6);
    assert_eq!(FgColor::LightGray.to_byte(), 7);
    assert_eq!(FgColor::DarkGray.to_byte(), 8);
    assert_eq!(FgColor::LightBlue.to_byte(), 9);
    assert_eq!(FgColor::LightGreen.to_byte(), 10);
    assert_eq!(FgColor::LightCyan.to_byte(), 11);
    assert_eq!(FgColor::LightRed.to_byte(), 12);
    assert_eq!(FgColor::LightMagenta.to_byte(), 13);
    assert_eq!(FgColor::Yellow.to_byte(), 14);
    assert_eq!(FgColor::White.to_byte(), 15);
}

#[test]
fn background_bytes_are_the_indices_in_bits_four_to_six() {
    assert_eq!(BgColor::Black.to_byte(), 0x00);
    assert_eq!(BgColor::Blue.to_byte(), 0x10);
    assert_eq!(BgColor::Green.to_byte(), 0x20);
    assert_eq!(BgColor::Cyan.to_byte(), 0x30);
    assert_eq!(BgColor::Red.to_byte(), 0x40);
    assert_eq!(BgColor::Magenta.to_byte(), 0x50);
    assert_eq!(BgColor::Brown.to_byte(), 0x60);
    assert_eq!(BgColor::LightGray.to_byte(), 0x70);
}

#[test]
fn color_code_byte_joins_blink_background_and_foreground() {
    let white_on_black = ColorCode { fg: FgColor::White, bg: BgColor::Black, blink: false };
    assert_eq!(white_on_black.to_byte(), 0x0F);
    assert_eq!(white_on_black.to_byte(), ATTRIBUTE);
    let yellow_on_blue = ColorCode { fg: FgColor::Yellow, bg: BgColor::Blue, blink: false };
    assert_eq!(yellow_on_blue.to_byte(), 0x1E);
    let blinking = ColorCode { fg: FgColor::Yellow, bg: BgColor::Blue, blink: true };
    assert_eq!(blinking.to_byte(), 0x9E);
    let all_bits = ColorCode { fg: FgColor::White, bg: BgColor::LightGray, blink: true };
    assert_eq!(all_bits.to_byte(), 0xFF);
    let none = ColorCode { fg: FgColor::Black, bg: BgColor::Black, blink: false };
    assert_eq!(none.to_byte(), 0x00);
    let blink_only = ColorCode { fg: FgColor::Black, bg: BgColor::Black, blink: true };
    assert_eq!(blink_only.to_byte(), 0x80);
}

#[test]
fn char_new_keeps_character_and_colours() {
    let c = Char::new(
        0x41,
        ColorCode { fg: FgColor::LightRed, bg: BgColor::Green, blink: false },
    );
    assert_eq!(c.ascii_character, 0x41);
    assert_eq!(c.color_code.to_byte(), 0x2C);
    assert!(!c.color_code.blink);
}

#[test]
fn new_blanks_the_screen_and_homes_the_cursor() {
    let mut vga = Vga::new();
    assert_eq!(vga.line(), 0);
    assert_eq!(vga.column(), 0);
    let writes = vga.take_writes();
    assert_eq!(writes.len(), 4000);
    for (k, store) in writes.iter().enumerate() {
        assert_eq!(store.addr, 0xB8000 + k as u32);
        assert_eq!(store.value, if k % 2 == 0 { 0x20 } else { 0x0F });
    }
}

#[test]
fn take_writes_empties_the_log_and_keeps_the_cursor() {
    let mut vga = fresh();
    vga.print_char(0x41);
    assert_eq!(vga.take_writes().len(), 2);
    assert_eq!(vga.take_writes(), vec![]);
    assert_eq!((vga.line(), vga.column()), (0, 1));
}

#[test]
fn cursor_counts_cells_along_the_lines() {
    let mut vga = fresh();
    assert_eq!(vga.cursor(), 0);
    vga.shift_cursor();
    assert_eq!(vga.cursor(), 1);
    vga.newline();
    assert_eq!(vga.cursor(), 80);
    vga.println("abc");
    assert_eq!(vga.cursor(), 160);
    vga.print_char(0x2A);
    assert_eq!(vga.cursor(), 161);
    assert_eq!((vga.line(), vga.column()), (2, 1));
}

#[test]
fn cursor_address_is_two_bytes_a_cell() {
    let mut vga = fresh();
    assert_eq!(vga.get_cursor_addr(), 0xB8000);
    assert_eq!(vga.get_cursor_addr(), VGA_START);
    vga.shift_cursor();
    assert_eq!(vga.get_cursor_addr(), 0xB8002);
    vga.newline();
    assert_eq!(vga.get_cursor_addr(), 0xB8000 + 160);
    vga.shift_cursor();
    vga.shift_cursor();
    vga.shift_cursor();
    assert_eq!(vga.get_cursor_addr(), 0xB8000 + 160 + 6);
}

#[test]
fn print_char_stores_character_then_attribute() {
    let mut vga = fresh();
    vga.print_char(0x48);
    assert_eq!(vga.take_writes(), cell(0, 0x48));
    assert_eq!((vga.line(), vga.column()), (0, 1));
    vga.print_char(0x69);
    assert_eq!(vga.take_writes(), cell(1, 0x69));
    assert_eq!((vga.line(), vga.column()), (0, 2));
}

#[test]
fn shift_cursor_wraps_after_column_79() {
    let mut vga = fresh();
    for _ in 0..79 {
        vga.shift_cursor();
    }
    assert_eq!((vga.line(), vga.column()), (0, 79));
    vga.shift_cursor();
    assert_eq!((vga.line(), vga.column()), (1, 0));
    assert_eq!(vga.take_writes(), vec![]);
}

#[test]
fn print_char_in_the_last_column_moves_to_the_next_line() {
    let mut vga = fresh();
    for _ in 0..79 {
        vga.shift_cursor();
    }
    vga.print_char(0x21);
    assert_eq!(vga.take_writes(), cell(79, 0x21));
    assert_eq!((vga.line(), vga.column()), (1, 0));
    vga.print_char(0x22);
    assert_eq!(vga.take_writes(), cell(80, 0x22));
}

#[test]
fn newline_goes_to_the_start_of_the_next_line() {
    let mut vga = fresh();
    vga.newline();
    assert_eq!((vga.line(), vga.column()), (1, 0));
    vga.shift_cursor();
    vga.shift_cursor();
    vga.newline();
    assert_eq!((vga.line(), vga.column()), (2, 0));
    assert_eq!(vga.take_writes(), vec![]);
}

#[test]
fn newline_reaches_the_last_line_number() {
    let mut vga = fresh();
    for _ in 0..255 {
        vga.newline();
    }
    assert_eq!((vga.line(), vga.column()), (255, 0));
    assert_eq!(vga.get_cursor_addr(), 0xB8000 + 2 * 255 * 80);
    for _ in 0..79 {
        vga.print_char(0x2E);
    }
    assert_eq!((vga.line(), vga.column()), (255, 79));
    assert_eq!(vga.get_cursor_addr(), 0xB8000 + 2 * 20479);
}

#[test]
fn println_prints_each_byte_and_ends_the_line() {
    let mut vga = fresh();
    vga.println("Hi!");
    let mut expected = Vec::new();
    expected.extend(cell(0, 0x48));
    expected.extend(cell(1, 0x69));
    expected.extend(cell(2, 0x21));
    assert_eq!(vga.take_writes(), expected);
    assert_eq!((vga.line(), vga.column()), (1, 0));
    vga.println("ok");
    let mut expected = Vec::new();
    expected.extend(cell(80, 0x6F));
    expected.extend(cell(81, 0x6B));
    assert_eq!(vga.take_writes(), expected);
    assert_eq!((vga.line(), vga.column()), (2, 0));
}

#[test]
fn println_of_nothing_only_ends_the_line() {
    let mut vga = fresh();
    vga.println("");
    assert_eq!(vga.take_writes(), vec![]);
    assert_eq!((vga.line(), vga.column()), (1, 0));
}

#[test]
fn println_of_a_full_line_skips_a_line() {
    let mut vga = fresh();
    let text = "x".repeat(80);
    vga.println(&text);
    assert_eq!(vga.take_writes().len(), 160);
    assert_eq!((vga.line(), vga.column()), (2, 0));
}

#[test]
fn println_prints_the_bytes_of_a_multibyte_character() {
    let mut vga = fresh();
    vga.println("\u{e9}");
    let mut expected = Vec::new();
    expected.extend(cell(0, 0xC3));
    expected.extend(cell(1, 0xA9));
    assert_eq!(vga.take_writes(), expected);
}

#[test]
fn clear_all_prints_blanks_from_the_cursor_and_homes_it() {
    let mut vga = fresh();
    vga.println("abc");
    vga.take_writes();
    vga.clear_all();
    assert_eq!((vga.line(), vga.column()), (0, 0));
    let writes = vga.take_writes();
    assert_eq!(writes.len(), 4000);
    assert_eq!(writes[0], Store { addr: 0xB8000 + 160, value: 0x20 });
    assert_eq!(writes[1], Store { addr: 0xB8000 + 161, value: 0x0F });
    assert_eq!(writes[3999], Store { addr: 0xB8000 + 160 + 3999, value: 0x0F });
}

#[test]
fn writes_collect_in_the_order_issued() {
    let mut vga = fresh();
    vga.print_char(0x41);
    vga.newline();
    vga.print_char(0x42);
    let mut expected = Vec::new();
    expected.extend(cell(0, 0x41));
    expected.extend(cell(80, 0x42));
    assert_eq!(vga.take_writes(), expected);
}
