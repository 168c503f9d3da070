//! The keyboard interrupt handler: shows the scancode and acknowledges the
//! interrupt.

use vstd::prelude::*;
use crate::hardware::{memory_accesses, to_accesses, Access, Store};
use crate::pic::{eoi_write, send_eoi};
use crate::vga::{blanks, text_stores, Vga, COLUMNS, CURSOR_LIMIT, SCREEN_CELLS, VGA_START};

verus! {

/// The keyboard controller's data port. A read of it takes the pending
/// scancode; the handler is given the byte that was read.
pub const KEYBOARD_DATA: u16 = 0x60;

/// ASCII `0`.
pub const ASCII_ZERO: u8 = 0x30;

/// ASCII `A`.
pub const ASCII_UPPER_A: u8 = 0x41;

/// ASCII `x`.
pub const ASCII_LOWER_X: u8 = 0x78;

/// The upper-case hexadecimal digit for `n` below 16, in ASCII.
pub open spec fn hex_digit(n: int) -> u8 {
    if n < 10 {
        (ASCII_ZERO + n) as u8
    } else {
        (ASCII_UPPER_A + n - 10) as u8
    }
}

/// What the handler shows for `scancode`: the marker `0x`, then the two
/// hexadecimal digits of the byte, the upper one first.
pub open spec fn rendering(scancode: u8) -> Seq<u8> {
    seq![
        ASCII_ZERO,
        ASCII_LOWER_X,
        hex_digit(scancode as int / 16),
        hex_digit(scancode as int % 16),
    ]
}

/// Everything the handler has the hardware do for `scancode`: blank the
/// screen, show the rendering from the top left on, and last acknowledge the
/// interrupt.
pub open spec fn handler_accesses(scancode: u8) -> Seq<Access> {
    memory_accesses(
        text_stores(0, blanks(SCREEN_CELLS as nat)) + text_stores(0, rendering(scancode)),
    ).push(Access::Port(eoi_write()))
}

/// The ASCII digit for a value below 16.
fn to_hex(n: u8) -> (digit: u8)
    requires
        n < 16,
    ensures
        digit == hex_digit(n as int),
{
    if n < 10 {
        ASCII_ZERO + n
    } else {
        ASCII_UPPER_A + n - 10
    }
}

/// Prints the rendering of `scancode` at the cursor of `vga` and ends the
/// line. Every byte is shown as it is: no scancode is refused.
///
/// The four characters must end above line 255.
pub fn render_scancode(vga: &mut Vga, scancode: u8)
    requires
        old(vga)@.cursor + 4 < CURSOR_LIMIT - COLUMNS,
    ensures
        final(vga)@.writes == old(vga)@.writes + text_stores(
            old(vga)@.cursor,
            rendering(scancode),
        ),
        final(vga)@.cursor == 80 * ((old(vga)@.cursor + 4) / 80 + 1),
{
    let high: u8 = scancode >> 4;
    let low: u8 = scancode & 0xF;
    assert(scancode >> 4 == scancode / 16 && scancode & 0xF == scancode % 16) by (bit_vector);
    let ghost start = vga@.cursor;
    let ghost before = vga@.writes;
    vga.print_char(ASCII_ZERO);
    vga.print_char(ASCII_LOWER_X);
    vga.print_char(to_hex(high));
    vga.print_char(to_hex(low));
    assert(vga@.writes =~= before + text_stores(start, rendering(scancode)));
    vga.newline();
}

/// Handles one keyboard interrupt, given the scancode read from the
/// keyboard's data port. The accesses returned are to be made in order
/// before the handler returns: the stores that blank the screen and show the
/// scancode, then the one write that acknowledges the interrupt.
///
/// Each call starts with a display driver of its own, so nothing is carried
/// from one interrupt to the next.
pub fn keyboard_handler(scancode: u8) -> (accesses: Vec<Access>)
    ensures
        accesses@ == handler_accesses(scancode),
{
    let mut vga = Vga::new();
    render_scancode(&mut vga, scancode);
    let stores: Vec<Store> = vga.take_writes();
    let mut accesses: Vec<Access> = to_accesses(stores.as_slice());
    accesses.push(Access::Port(send_eoi()));
    accesses
}

/// The handler acknowledges exactly once, and last: of the accesses for any
/// scancode the final one is the end-of-interrupt write, and every one
/// before it is a store into the 4000 bytes of the text buffer.
pub proof fn lemma_handler_acknowledges_once(scancode: u8)
    ensures
        handler_accesses(scancode).len() == 4009,
        handler_accesses(scancode).last() == Access::Port(eoi_write()),
        forall|i: int|
            0 <= i < 4008 ==> {
                &&& (#[trigger] handler_accesses(scancode)[i]) matches Access::Memory(store)
                &&& VGA_START <= store.addr < VGA_START + 2 * SCREEN_CELLS
            },
{
}

} // verus!
