//! Driver for the two cascaded 8259A interrupt controllers.
//!
//! Each function returns the port writes that carry out one operation. The
//! caller issues them in order with its port-output instruction.

use vstd::prelude::*;
use crate::hardware::PortWrite;

verus! {

/// The master controller's command port.
pub const PIC1_COMMAND: u16 = 0x20;

/// The master controller's data port.
pub const PIC1_DATA: u16 = 0x21;

/// The slave controller's command port.
pub const PIC2_COMMAND: u16 = 0xA0;

/// The slave controller's data port.
pub const PIC2_DATA: u16 = 0xA1;

/// First initialization word: start the sequence, cascade mode, a mode word
/// will follow.
pub const ICW1_INIT: u8 = 0x11;

/// Vector of the master controller's line 0.
pub const PIC1_OFFSET: u8 = 0x20;

/// Vector of the slave controller's line 0.
pub const PIC2_OFFSET: u8 = 0x28;

/// Third initialization word of the master: a slave sits on line 2.
pub const PIC1_CASCADE: u8 = 0x04;

/// Third initialization word of the slave: its cascade identity, 2.
pub const PIC2_CASCADE: u8 = 0x02;

/// Fourth initialization word: 8086/88 mode.
pub const ICW4_8086: u8 = 0x01;

/// The end-of-interrupt command.
pub const EOI: u8 = 0x20;

/// Line of the master controller that the keyboard raises.
pub const KEYBOARD_IRQ: u8 = 1;

/// Mask with only the keyboard's bit clear.
pub const KEYBOARD_ONLY: u8 = 0xFD;

/// Mask with every line disabled.
pub const ALL_MASKED: u8 = 0xFF;

/// The writes of `remap`, for the masks `mask1` of the master and `mask2` of
/// the slave: four initialization words to each controller, word by word
/// and the master first, then the two masks.
pub open spec fn remap_writes(mask1: u8, mask2: u8) -> Seq<PortWrite> {
    seq![
        (PortWrite { port: PIC1_COMMAND, value: ICW1_INIT }),
        (PortWrite { port: PIC2_COMMAND, value: ICW1_INIT }),
        (PortWrite { port: PIC1_DATA, value: PIC1_OFFSET }),
        (PortWrite { port: PIC2_DATA, value: PIC2_OFFSET }),
        (PortWrite { port: PIC1_DATA, value: PIC1_CASCADE }),
        (PortWrite { port: PIC2_DATA, value: PIC2_CASCADE }),
        (PortWrite { port: PIC1_DATA, value: ICW4_8086 }),
        (PortWrite { port: PIC2_DATA, value: ICW4_8086 }),
        (PortWrite { port: PIC1_DATA, value: mask1 }),
        (PortWrite { port: PIC2_DATA, value: mask2 }),
    ]
}

/// The writes of `unmask_keyboard`.
pub open spec fn unmask_keyboard_writes() -> Seq<PortWrite> {
    seq![
        (PortWrite { port: PIC1_DATA, value: KEYBOARD_ONLY }),
        (PortWrite { port: PIC2_DATA, value: ALL_MASKED }),
    ]
}

/// The write of `send_eoi`.
pub open spec fn eoi_write() -> PortWrite {
    PortWrite { port: PIC1_COMMAND, value: EOI }
}

/// The writes of `remap` are ten. The first eight are the same whatever the
/// masks; the last two write `mask1` to the master's data port and `mask2`
/// to the slave's.
pub proof fn lemma_remap_ends_with_masks(mask1: u8, mask2: u8, other1: u8, other2: u8)
    ensures
        remap_writes(mask1, mask2).len() == 10,
        remap_writes(mask1, mask2).take(8) == remap_writes(other1, other2).take(8),
        remap_writes(mask1, mask2)[8] == (PortWrite { port: PIC1_DATA, value: mask1 }),
        remap_writes(mask1, mask2)[9] == (PortWrite { port: PIC2_DATA, value: mask2 }),
{
    assert(remap_writes(mask1, mask2).take(8) =~= remap_writes(other1, other2).take(8));
}

/// Moves the master's lines to vectors 32 to 39 and the slave's to 40 to 47,
/// keeping the masks. `mask1` and `mask2` are the bytes read from the data
/// ports of the master and the slave before the first write is issued.
pub fn remap(mask1: u8, mask2: u8) -> (writes: [PortWrite; 10])
    ensures
        writes@ == remap_writes(mask1, mask2),
{
    [
        // ICW1: start initialization sequence
        PortWrite { port: PIC1_COMMAND, value: ICW1_INIT },
        PortWrite { port: PIC2_COMMAND, value: ICW1_INIT },
        // ICW2: set interrupt vector offsets
        PortWrite { port: PIC1_DATA, value: PIC1_OFFSET },
        PortWrite { port: PIC2_DATA, value: PIC2_OFFSET },
        // ICW3: tell the controllers about each other
        PortWrite { port: PIC1_DATA, value: PIC1_CASCADE },
        PortWrite { port: PIC2_DATA, value: PIC2_CASCADE },
        // ICW4: set 8086 mode
        PortWrite { port: PIC1_DATA, value: ICW4_8086 },
        PortWrite { port: PIC2_DATA, value: ICW4_8086 },
        // Restore saved masks
        PortWrite { port: PIC1_DATA, value: mask1 },
        PortWrite { port: PIC2_DATA, value: mask2 },
    ]
}

/// Acknowledges the interrupt in service at the master controller. A handler
/// issues this write once, after it has read the device and before it
/// returns; without it the controller delivers no further interrupt of the
/// same or a lower priority.
pub fn send_eoi() -> (write: PortWrite)
    ensures
        write == eoi_write(),
{
    PortWrite { port: PIC1_COMMAND, value: EOI }
}

/// Enables the keyboard line alone: every other line of the master and every
/// line of the slave is masked.
pub fn unmask_keyboard() -> (writes: [PortWrite; 2])
    ensures
        writes@ == unmask_keyboard_writes(),
{
    [
        PortWrite { port: PIC1_DATA, value: KEYBOARD_ONLY },
        PortWrite { port: PIC2_DATA, value: ALL_MASKED },
    ]
}

} // verus!
