//! A model of the two interrupt controllers, as far as their ports show it.
//!
//! The model follows the 8259A's initialization sequence and its mask
//! register; it does not follow requests, priorities or what is in service.
//! It says what the driver's writes lead to, and it stands in for the
//! hardware where the driver is exercised without it.

use vstd::prelude::*;
use crate::hardware::PortWrite;
use crate::idt::KEYBOARD_VECTOR;
use crate::pic::{
    remap_writes, unmask_keyboard_writes, ALL_MASKED, ICW4_8086, KEYBOARD_IRQ, KEYBOARD_ONLY,
    PIC1_CASCADE, PIC1_COMMAND, PIC1_DATA, PIC1_OFFSET, PIC2_CASCADE, PIC2_COMMAND, PIC2_DATA,
    PIC2_OFFSET,
};

verus! {

/// What a controller takes the next byte on its data port for.
#[derive(Clone, Copy, Debug, PartialEq, Eq, Structural)]
pub enum Phase {
    /// Initialization is over (or never began): the byte is a new mask.
    Ready,
    /// The second initialization word: the vector offset.
    Offset,
    /// The third initialization word: the cascade wiring.
    Cascade,
    /// The fourth initialization word: the mode.
    Mode,
}

/// One controller.
#[derive(Clone, Copy, Debug, PartialEq, Eq, Structural)]
pub struct Controller {
    /// The mask register: bit `n` set disables line `n`.
    pub mask: u8,
    /// Vector of line 0, from the second initialization word less its low
    /// three bits.
    pub offset: u8,
    /// The third initialization word as last given.
    pub cascade: u8,
    /// The fourth initialization word as last given, zero if none was.
    pub mode: u8,
    /// The first initialization word said there is no other controller, so
    /// no third word follows.
    pub single: bool,
    /// The first initialization word announced a fourth.
    pub wants_mode: bool,
    pub phase: Phase,
}

impl Controller {
    /// The controller after `value` is written to its command port. A byte
    /// with bit 4 set is the first initialization word: it clears the mask
    /// and starts the sequence, at any time. Other commands change nothing
    /// that the model holds.
    pub open spec fn after_command(self, value: u8) -> Controller {
        if value & 0x10 != 0 {
            Controller {
                mask: 0,
                offset: self.offset,
                cascade: self.cascade,
                mode: 0,
                single: value & 0x02 != 0,
                wants_mode: value & 0x01 != 0,
                phase: Phase::Offset,
            }
        } else {
            self
        }
    }

    /// The phase that follows the vector offset.
    pub open spec fn phase_after_offset(self) -> Phase {
        if !self.single {
            Phase::Cascade
        } else if self.wants_mode {
            Phase::Mode
        } else {
            Phase::Ready
        }
    }

    /// The phase that follows the cascade word.
    pub open spec fn phase_after_cascade(self) -> Phase {
        if self.wants_mode {
            Phase::Mode
        } else {
            Phase::Ready
        }
    }

    /// The controller after `value` is written to its data port: the next
    /// initialization word while the sequence runs, a new mask otherwise.
    pub open spec fn after_data(self, value: u8) -> Controller {
        match self.phase {
            Phase::Ready => Controller { mask: value, ..self },
            Phase::Offset => Controller {
                offset: value & 0xF8,
                phase: self.phase_after_offset(),
                ..self
            },
            Phase::Cascade => Controller {
                cascade: value,
                phase: self.phase_after_cascade(),
                ..self
            },
            Phase::Mode => Controller { mode: value, phase: Phase::Ready, ..self },
        }
    }

    /// Line `line` (0 to 7) is enabled: its mask bit is clear.
    pub open spec fn enabled(self, line: u8) -> bool {
        self.mask & (1u8 << line) == 0
    }

    /// The vector that line `line` (0 to 7) raises: the line's number in the
    /// low three bits of the offset.
    pub open spec fn vector(self, line: u8) -> u8 {
        (self.offset & 0xF8) | line
    }

    /// The state that `new` gives: every line masked, no offset set, no
    /// initialization under way.
    pub open spec fn unprogrammed() -> Controller {
        Controller {
            mask: 0xFF,
            offset: 0,
            cascade: 0,
            mode: 0,
            single: false,
            wants_mode: false,
            phase: Phase::Ready,
        }
    }

    /// A controller to which nothing was written yet.
    pub fn new() -> (c: Controller)
        ensures
            c == Controller::unprogrammed(),
    {
        Controller {
            mask: 0xFF,
            offset: 0,
            cascade: 0,
            mode: 0,
            single: false,
            wants_mode: false,
            phase: Phase::Ready,
        }
    }

    /// Takes a byte on the command port.
    pub fn write_command(&mut self, value: u8)
        ensures
            *final(self) == old(self).after_command(value),
    {
        if value & 0x10 != 0 {
            self.mask = 0;
            self.mode = 0;
            self.single = value & 0x02 != 0;
            self.wants_mode = value & 0x01 != 0;
            self.phase = Phase::Offset;
        }
    }

    /// Takes a byte on the data port.
    pub fn write_data(&mut self, value: u8)
        ensures
            *final(self) == old(self).after_data(value),
    {
        match self.phase {
            Phase::Ready => {
                self.mask = value;
            },
            Phase::Offset => {
                self.offset = value & 0xF8;
                if !self.single {
                    self.phase = Phase::Cascade;
                } else if self.wants_mode {
                    self.phase = Phase::Mode;
                } else {
                    self.phase = Phase::Ready;
                }
            },
            Phase::Cascade => {
                self.cascade = value;
                if self.wants_mode {
                    self.phase = Phase::Mode;
                } else {
                    self.phase = Phase::Ready;
                }
            },
            Phase::Mode => {
                self.mode = value;
                self.phase = Phase::Ready;
            },
        }
    }

    /// The byte that a read of the data port gives: the mask.
    pub fn read_data(&self) -> (mask: u8)
        ensures
            mask == self.mask,
    {
        self.mask
    }

    /// Whether line `line` is enabled.
    pub fn is_enabled(&self, line: u8) -> (enabled: bool)
        requires
            line < 8,
        ensures
            enabled == self.enabled(line),
    {
        self.mask & (1u8 << line) == 0
    }

    /// The vector that line `line` raises.
    pub fn vector_of(&self, line: u8) -> (vector: u8)
        requires
            line < 8,
        ensures
            vector == self.vector(line),
    {
        (self.offset & 0xF8) | line
    }
}

/// The master and the slave controller on their four ports.
#[derive(Clone, Copy, Debug, PartialEq, Eq, Structural)]
pub struct ControllerPair {
    pub master: Controller,
    pub slave: Controller,
}

impl ControllerPair {
    /// The pair after `write` is issued. A write to a port that is none of
    /// the four changes nothing.
    pub open spec fn after_write(self, write: PortWrite) -> ControllerPair {
        if write.port == PIC1_COMMAND {
            ControllerPair { master: self.master.after_command(write.value), slave: self.slave }
        } else if write.port == PIC1_DATA {
            ControllerPair { master: self.master.after_data(write.value), slave: self.slave }
        } else if write.port == PIC2_COMMAND {
            ControllerPair { master: self.master, slave: self.slave.after_command(write.value) }
        } else if write.port == PIC2_DATA {
            ControllerPair { master: self.master, slave: self.slave.after_data(write.value) }
        } else {
            self
        }
    }

    /// The pair after the writes of `writes` from index `from` on are issued
    /// in order.
    pub open spec fn after_writes_from(self, writes: Seq<PortWrite>, from: int) -> ControllerPair
        decreases writes.len() - from,
    {
        if 0 <= from < writes.len() {
            self.after_write(writes[from]).after_writes_from(writes, from + 1)
        } else {
            self
        }
    }

    /// The pair after all of `writes` are issued in order.
    pub open spec fn after_writes(self, writes: Seq<PortWrite>) -> ControllerPair {
        self.after_writes_from(writes, 0)
    }

    /// What a read of `port` gives: the mask on a data port. The model does
    /// not say what a read of any other port gives.
    pub open spec fn read(self, port: u16) -> Option<u8> {
        if port == PIC1_DATA {
            Some(self.master.mask)
        } else if port == PIC2_DATA {
            Some(self.slave.mask)
        } else {
            None
        }
    }

    /// Two controllers to which nothing was written yet.
    pub fn new() -> (pair: ControllerPair)
        ensures
            pair.master == Controller::unprogrammed(),
            pair.slave == Controller::unprogrammed(),
    {
        ControllerPair { master: Controller::new(), slave: Controller::new() }
    }

    /// Issues one write to the pair.
    pub fn outb(&mut self, port: u16, value: u8)
        ensures
            *final(self) == old(self).after_write(PortWrite { port, value }),
    {
        if port == PIC1_COMMAND {
            self.master.write_command(value);
        } else if port == PIC1_DATA {
            self.master.write_data(value);
        } else if port == PIC2_COMMAND {
            self.slave.write_command(value);
        } else if port == PIC2_DATA {
            self.slave.write_data(value);
        }
    }

    /// Reads the pair at `port`.
    pub fn inb(&self, port: u16) -> (value: Option<u8>)
        ensures
            value == self.read(port),
    {
        if port == PIC1_DATA {
            Some(self.master.read_data())
        } else if port == PIC2_DATA {
            Some(self.slave.read_data())
        } else {
            None
        }
    }

    /// Issues `writes` to the pair, in order.
    pub fn run(&mut self, writes: &[PortWrite])
        ensures
            *final(self) == old(self).after_writes(writes@),
    {
        let mut i: usize = 0;
        while i < writes.len()
            invariant
                i <= writes.len(),
                self.after_writes_from(writes@, i as int) == old(self).after_writes(writes@),
            decreases writes.len() - i,
        {
            self.outb(writes[i].port, writes[i].value);
            i += 1;
        }
    }
}

/// The state in which `remap` leaves a controller: initialized for cascade
/// and 8086 mode, with the given offset, cascade word and mask.
pub open spec fn remapped(offset: u8, cascade: u8, mask: u8) -> Controller {
    Controller {
        mask,
        offset,
        cascade,
        mode: ICW4_8086,
        single: false,
        wants_mode: true,
        phase: Phase::Ready,
    }
}

/// Whatever state the pair is in, the writes of `remap` leave both
/// controllers initialized, the master at vector 32 and the slave at vector
/// 40, each with the mask that `remap` was given for it. Given the masks
/// that the data ports showed before, `remap` so keeps the masks.
pub proof fn lemma_remap_programs_both(pair: ControllerPair, mask1: u8, mask2: u8)
    ensures
        pair.after_writes(remap_writes(mask1, mask2)) == (ControllerPair {
            master: remapped(PIC1_OFFSET, PIC1_CASCADE, mask1),
            slave: remapped(PIC2_OFFSET, PIC2_CASCADE, mask2),
        }),
{
    reveal_with_fuel(ControllerPair::after_writes_from, 11);
    assert(0x11u8 & 0x10 != 0 && 0x11u8 & 0x02 == 0 && 0x11u8 & 0x01 != 0) by (bit_vector);
    assert(0x20u8 & 0xF8 == 0x20 && 0x28u8 & 0xF8 == 0x28) by (bit_vector);
}

/// Given the masks that the data ports show, `remap` keeps them: a read of
/// either data port gives after its writes what it gave before them.
pub proof fn lemma_remap_keeps_masks(pair: ControllerPair)
    ensures
        ({
            let after = pair.after_writes(remap_writes(pair.master.mask, pair.slave.mask));
            &&& after.read(PIC1_DATA) == pair.read(PIC1_DATA)
            &&& after.read(PIC2_DATA) == pair.read(PIC2_DATA)
        }),
{
    lemma_remap_programs_both(pair, pair.master.mask, pair.slave.mask);
}

/// After the writes of `remap` and then those of `unmask_keyboard`, a read
/// of the master's data port gives 0xFD and a read of the slave's gives
/// 0xFF, whatever state the pair was in and whatever masks `remap` was
/// given.
pub proof fn lemma_remap_then_unmask_keyboard(pair: ControllerPair, mask1: u8, mask2: u8)
    ensures
        pair.after_writes(remap_writes(mask1, mask2)).after_writes(unmask_keyboard_writes())
            == (ControllerPair {
            master: remapped(PIC1_OFFSET, PIC1_CASCADE, KEYBOARD_ONLY),
            slave: remapped(PIC2_OFFSET, PIC2_CASCADE, ALL_MASKED),
        }),
        pair.after_writes(remap_writes(mask1, mask2)).after_writes(unmask_keyboard_writes()).read(
            PIC1_DATA,
        ) == Some(0xFDu8),
        pair.after_writes(remap_writes(mask1, mask2)).after_writes(unmask_keyboard_writes()).read(
            PIC2_DATA,
        ) == Some(0xFFu8),
{
    lemma_remap_programs_both(pair, mask1, mask2);
    reveal_with_fuel(ControllerPair::after_writes_from, 3);
}

/// Once `remap` and `unmask_keyboard` are through, of the sixteen lines the
/// keyboard's alone is enabled, and it raises the vector at which `load_idt`
/// installs the keyboard handler. The master's lines stand at vectors 32 to
/// 39 and the slave's at 40 to 47.
pub proof fn lemma_only_keyboard_enabled(pair: ControllerPair, mask1: u8, mask2: u8, line: u8)
    requires
        line < 8,
    ensures
        ({
            let ready = pair.after_writes(remap_writes(mask1, mask2)).after_writes(
                unmask_keyboard_writes(),
            );
            &&& ready.master.enabled(line) <==> line == KEYBOARD_IRQ
            &&& !ready.slave.enabled(line)
            &&& ready.master.vector(line) == 32 + line
            &&& ready.slave.vector(line) == 40 + line
            &&& ready.master.vector(KEYBOARD_IRQ) == KEYBOARD_VECTOR
        }),
{
    lemma_remap_then_unmask_keyboard(pair, mask1, mask2);
    assert(line < 8 ==> ((0xFDu8 & (1u8 << line) == 0) <==> line == 1)) by (bit_vector);
    assert(line < 8 ==> 0xFFu8 & (1u8 << line) != 0) by (bit_vector);
    assert(line < 8 ==> (0x20u8 & 0xF8) | line == 32 + line) by (bit_vector);
    assert(line < 8 ==> (0x28u8 & 0xF8) | line == 40 + line) by (bit_vector);
    assert((0x20u8 & 0xF8) | 1u8 == 33) by (bit_vector);
}

} // verus!
