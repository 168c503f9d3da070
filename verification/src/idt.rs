//! Interrupt descriptor table: gate descriptors, the table of 256 of them,
//! and the value of the table register.

use vstd::prelude::*;
use crate::pic::{KEYBOARD_IRQ, PIC1_OFFSET};

verus! {

/// The present bit of a type-attribute byte. The processor faults on a
/// vector whose descriptor has it clear.
pub const PRESENT: u8 = 0x80;

/// Type-attribute byte of a present, ring-0, 64-bit interrupt gate.
pub const INTERRUPT_GATE: u8 = 0x8E;

/// Vector of the keyboard interrupt, 33: the keyboard's line on the master
/// controller, counted from the vector of the master's line 0.
pub const KEYBOARD_VECTOR: u8 = PIC1_OFFSET + KEYBOARD_IRQ;

/// Selector of the code segment that interrupt handlers run in.
pub const KERNEL_CODE_SELECTOR: u16 = 0x18;

/// Bytes in the table: 256 descriptors.
pub const TABLE_BYTES: usize = 4096;

/// Bits 0 to 15 of a handler address.
pub open spec fn low_fragment(handler: u64) -> u16 {
    (handler & 0xFFFF) as u16
}

/// Bits 16 to 31 of a handler address.
pub open spec fn mid_fragment(handler: u64) -> u16 {
    ((handler >> 16) & 0xFFFF) as u16
}

/// Bits 32 to 63 of a handler address.
pub open spec fn high_fragment(handler: u64) -> u32 {
    (handler >> 32) as u32
}

/// The address that three fragments stand for.
pub open spec fn reassemble(low: u16, mid: u16, high: u32) -> u64 {
    (low as u64) | ((mid as u64) << 16) | ((high as u64) << 32)
}

/// Splitting an address into its three fragments and reassembling them gives
/// the address back.
pub proof fn lemma_split_then_reassemble(handler: u64)
    ensures
        reassemble(low_fragment(handler), mid_fragment(handler), high_fragment(handler))
            == handler,
{
    assert(((handler & 0xFFFF) as u16 as u64) | ((((handler >> 16) & 0xFFFF) as u16 as u64) << 16)
        | (((handler >> 32) as u32 as u64) << 32) == handler) by (bit_vector);
}

/// Three fragments are those of the address they reassemble to: no two
/// triples stand for the same address.
pub proof fn lemma_reassemble_then_split(low: u16, mid: u16, high: u32)
    ensures
        low_fragment(reassemble(low, mid, high)) == low,
        mid_fragment(reassemble(low, mid, high)) == mid,
        high_fragment(reassemble(low, mid, high)) == high,
{
    let h = (low as u64) | ((mid as u64) << 16) | ((high as u64) << 32);
    assert((h & 0xFFFF) as u16 == low && ((h >> 16) & 0xFFFF) as u16 == mid && (h >> 32) as u32
        == high) by (bit_vector)
        requires
            h == (low as u64) | ((mid as u64) << 16) | ((high as u64) << 32),
    ;
}

/// The three fragments of `handler`: bits 0 to 15, bits 16 to 31, bits 32 to
/// 63.
pub fn split_handler(handler: u64) -> (fragments: (u16, u16, u32))
    ensures
        fragments.0 == low_fragment(handler),
        fragments.1 == mid_fragment(handler),
        fragments.2 == high_fragment(handler),
        reassemble(fragments.0, fragments.1, fragments.2) == handler,
{
    let low: u16 = handler as u16;
    let mid: u16 = (handler >> 16) as u16;
    let high: u32 = (handler >> 32) as u32;
    assert(low == (handler & 0xFFFF) as u16 && mid == ((handler >> 16) & 0xFFFF) as u16)
        by (bit_vector)
        requires
            low == handler as u16,
            mid == (handler >> 16) as u16,
    ;
    proof {
        lemma_split_then_reassemble(handler);
    }
    (low, mid, high)
}

/// The address whose fragments are `low`, `mid` and `high`.
pub fn join_handler(low: u16, mid: u16, high: u32) -> (handler: u64)
    ensures
        handler == reassemble(low, mid, high),
{
    (low as u64) | ((mid as u64) << 16) | ((high as u64) << 32)
}

/// What a gate descriptor says: where the handler is and how it is entered.
pub struct Gate {
    /// Address of the handler's first instruction.
    pub handler: u64,
    /// Code segment that the handler runs in.
    pub selector: u16,
    /// Interrupt stack table index; zero for none.
    pub ist: u8,
    /// Present bit, privilege level and gate type.
    pub type_attr: u8,
    /// Reserved; zero.
    pub reserved: u32,
}

impl Gate {
    /// An unused vector: every field zero, so not present.
    pub open spec fn empty() -> Gate {
        Gate { handler: 0, selector: 0, ist: 0, type_attr: 0, reserved: 0 }
    }

    /// The descriptor is marked present.
    pub open spec fn present(self) -> bool {
        self.type_attr & PRESENT != 0
    }

    /// The present, ring-0, 64-bit interrupt gate that enters `handler` in
    /// the segment `selector`.
    pub open spec fn interrupt(handler: u64, selector: u16) -> Gate {
        Gate { handler, selector, ist: 0, type_attr: INTERRUPT_GATE, reserved: 0 }
    }

    /// The descriptor as the processor reads it: 16 bytes, each field
    /// little-endian. Bytes 0 and 1 hold bits 0 to 15 of the handler, bytes
    /// 2 and 3 the selector, byte 4 the stack table index, byte 5 the
    /// type-attribute byte, bytes 6 and 7 bits 16 to 31 of the handler,
    /// bytes 8 to 11 its bits 32 to 63, bytes 12 to 15 the reserved field.
    pub open spec fn bytes(self) -> Seq<u8> {
        seq![
            (self.handler & 0xFF) as u8,
            ((self.handler >> 8) & 0xFF) as u8,
            (self.selector & 0xFF) as u8,
            ((self.selector >> 8) & 0xFF) as u8,
            self.ist,
            self.type_attr,
            ((self.handler >> 16) & 0xFF) as u8,
            ((self.handler >> 24) & 0xFF) as u8,
            ((self.handler >> 32) & 0xFF) as u8,
            ((self.handler >> 40) & 0xFF) as u8,
            ((self.handler >> 48) & 0xFF) as u8,
            ((self.handler >> 56) & 0xFF) as u8,
            (self.reserved & 0xFF) as u8,
            ((self.reserved >> 8) & 0xFF) as u8,
            ((self.reserved >> 16) & 0xFF) as u8,
            ((self.reserved >> 24) & 0xFF) as u8,
        ]
    }
}

/// One gate descriptor, with the handler address in the three fragments
/// that the processor's layout splits it into.
#[derive(Copy, Clone)]
pub struct IdtEntry {
    offset_low: u16,
    selector: u16,
    ist: u8,
    type_attr: u8,
    offset_mid: u16,
    offset_high: u32,
    reserved: u32,
}

impl View for IdtEntry {
    type V = Gate;

    closed spec fn view(&self) -> Gate {
        Gate {
            handler: reassemble(self.offset_low, self.offset_mid, self.offset_high),
            selector: self.selector,
            ist: self.ist,
            type_attr: self.type_attr,
            reserved: self.reserved,
        }
    }
}

impl IdtEntry {
    /// The descriptor of an unused vector.
    pub fn empty() -> (entry: Self)
        ensures
            entry@ == Gate::empty(),
    {
        assert(reassemble(0, 0, 0) == 0) by (bit_vector);
        IdtEntry {
            offset_low: 0,
            selector: 0,
            ist: 0,
            type_attr: 0,
            offset_mid: 0,
            offset_high: 0,
            reserved: 0,
        }
    }

    /// The descriptor of an interrupt gate that enters `handler` in the
    /// segment `selector`.
    pub fn new(handler: u64, selector: u16) -> (entry: Self)
        ensures
            entry@ == Gate::interrupt(handler, selector),
    {
        let (low, mid, high) = split_handler(handler);
        IdtEntry {
            offset_low: low,
            selector,
            ist: 0,
            type_attr: INTERRUPT_GATE,
            offset_mid: mid,
            offset_high: high,
            reserved: 0,
        }
    }

    /// Address of the handler, reassembled from its fragments.
    pub fn handler(&self) -> (handler: u64)
        ensures
            handler == self@.handler,
    {
        join_handler(self.offset_low, self.offset_mid, self.offset_high)
    }

    /// The three fragments of the handler address as the descriptor holds
    /// them: low, mid, high.
    pub fn fragments(&self) -> (fragments: (u16, u16, u32))
        ensures
            fragments.0 == low_fragment(self@.handler),
            fragments.1 == mid_fragment(self@.handler),
            fragments.2 == high_fragment(self@.handler),
    {
        proof {
            lemma_reassemble_then_split(self.offset_low, self.offset_mid, self.offset_high);
        }
        (self.offset_low, self.offset_mid, self.offset_high)
    }

    /// The code segment selector.
    pub fn selector(&self) -> (selector: u16)
        ensures
            selector == self@.selector,
    {
        self.selector
    }

    /// The type-attribute byte.
    pub fn type_attr(&self) -> (type_attr: u8)
        ensures
            type_attr == self@.type_attr,
    {
        self.type_attr
    }

    /// Whether the descriptor is marked present.
    pub fn is_present(&self) -> (present: bool)
        ensures
            present == self@.present(),
    {
        self.type_attr & PRESENT != 0
    }

    /// The 16 bytes of the descriptor as the processor reads them.
    pub fn to_bytes(&self) -> (bytes: [u8; 16])
        ensures
            bytes@ == self@.bytes(),
    {
        let low: u16 = self.offset_low;
        let mid: u16 = self.offset_mid;
        let high: u32 = self.offset_high;
        let selector: u16 = self.selector;
        let reserved: u32 = self.reserved;
        let ghost handler: u64 = reassemble(low, mid, high);
        let bytes: [u8; 16] = [
            (low & 0xFF) as u8,
            (low >> 8) as u8,
            (selector & 0xFF) as u8,
            (selector >> 8) as u8,
            self.ist,
            self.type_attr,
            (mid & 0xFF) as u8,
            (mid >> 8) as u8,
            (high & 0xFF) as u8,
            ((high >> 8) & 0xFF) as u8,
            ((high >> 16) & 0xFF) as u8,
            (high >> 24) as u8,
            (reserved & 0xFF) as u8,
            ((reserved >> 8) & 0xFF) as u8,
            ((reserved >> 16) & 0xFF) as u8,
            (reserved >> 24) as u8,
        ];
        assert({
            &&& (low & 0xFF) as u8 == (handler & 0xFF) as u8
            &&& (low >> 8) as u8 == ((handler >> 8) & 0xFF) as u8
            &&& (mid & 0xFF) as u8 == ((handler >> 16) & 0xFF) as u8
            &&& (mid >> 8) as u8 == ((handler >> 24) & 0xFF) as u8
            &&& (high & 0xFF) as u8 == ((handler >> 32) & 0xFF) as u8
            &&& ((high >> 8) & 0xFF) as u8 == ((handler >> 40) & 0xFF) as u8
            &&& ((high >> 16) & 0xFF) as u8 == ((handler >> 48) & 0xFF) as u8
            &&& (high >> 24) as u8 == ((handler >> 56) & 0xFF) as u8
        }) by (bit_vector)
            requires
                handler == (low as u64) | ((mid as u64) << 16) | ((high as u64) << 32),
        ;
        assert((selector >> 8) as u8 == ((selector >> 8) & 0xFF) as u8) by (bit_vector);
        assert((reserved >> 24) as u8 == ((reserved >> 24) & 0xFF) as u8) by (bit_vector);
        assert(bytes@ =~= self@.bytes());
        bytes
    }
}

/// The value of the table register: where the table is and how long.
pub struct TableRegister {
    /// Bytes in the table, less one.
    pub limit: u16,
    /// Address of the table's first byte.
    pub base: u64,
}

impl TableRegister {
    /// The operand of the table-load instruction: 10 bytes, the limit and
    /// then the base, each little-endian.
    pub open spec fn bytes(self) -> Seq<u8> {
        seq![
            (self.limit & 0xFF) as u8,
            ((self.limit >> 8) & 0xFF) as u8,
            (self.base & 0xFF) as u8,
            ((self.base >> 8) & 0xFF) as u8,
            ((self.base >> 16) & 0xFF) as u8,
            ((self.base >> 24) & 0xFF) as u8,
            ((self.base >> 32) & 0xFF) as u8,
            ((self.base >> 40) & 0xFF) as u8,
            ((self.base >> 48) & 0xFF) as u8,
            ((self.base >> 56) & 0xFF) as u8,
        ]
    }
}

/// A table register value for a table of this crate. Only `Idt::load` makes
/// one, so its limit is always that of a full table.
pub struct IdtDescriptor {
    limit: u16,
    base: u64,
}

impl View for IdtDescriptor {
    type V = TableRegister;

    closed spec fn view(&self) -> TableRegister {
        TableRegister { limit: self.limit, base: self.base }
    }
}

impl IdtDescriptor {
    /// Bytes in the table, less one.
    pub fn limit(&self) -> (limit: u16)
        ensures
            limit == self@.limit,
    {
        self.limit
    }

    /// Address of the table's first byte.
    pub fn base(&self) -> (base: u64)
        ensures
            base == self@.base,
    {
        self.base
    }

    /// The 10 bytes that the table-load instruction reads.
    pub fn to_bytes(&self) -> (bytes: [u8; 10])
        ensures
            bytes@ == self@.bytes(),
    {
        let limit: u16 = self.limit;
        let base: u64 = self.base;
        let bytes: [u8; 10] = [
            (limit & 0xFF) as u8,
            (limit >> 8) as u8,
            (base & 0xFF) as u8,
            ((base >> 8) & 0xFF) as u8,
            ((base >> 16) & 0xFF) as u8,
            ((base >> 24) & 0xFF) as u8,
            ((base >> 32) & 0xFF) as u8,
            ((base >> 40) & 0xFF) as u8,
            ((base >> 48) & 0xFF) as u8,
            (base >> 56) as u8,
        ];
        assert((limit >> 8) as u8 == ((limit >> 8) & 0xFF) as u8) by (bit_vector);
        assert((base >> 56) as u8 == ((base >> 56) & 0xFF) as u8) by (bit_vector);
        assert(bytes@ =~= self@.bytes());
        bytes
    }
}

/// The bytes of a table of gates: those of each gate, one gate after the
/// other. Byte `k` is byte `k % 16` of gate `k / 16`.
pub open spec fn table_bytes(gates: Seq<Gate>) -> Seq<u8> {
    Seq::new(16 * gates.len(), |k: int| gates[k / 16].bytes()[k % 16])
}

/// The gates of a table in which every vector is unused.
pub open spec fn empty_table() -> Seq<Gate> {
    Seq::new(256, |vector: int| Gate::empty())
}

/// The descriptor table: one gate descriptor for each of the 256 vectors.
pub struct Idt {
    entries: [IdtEntry; 256],
}

impl View for Idt {
    type V = Seq<Gate>;

    closed spec fn view(&self) -> Seq<Gate> {
        Seq::new(256, |vector: int| self.entries@[vector]@)
    }
}

impl Idt {
    /// A table in which no vector has a handler: every descriptor is empty.
    pub fn new() -> (table: Self)
        ensures
            table@ == empty_table(),
    {
        let table = Idt { entries: [IdtEntry::empty(); 256] };
        assert(table@ =~= empty_table());
        table
    }

    /// Every table has 256 descriptors.
    pub proof fn lemma_has_every_vector(&self)
        ensures
            self@.len() == 256,
    {
    }

    /// Makes `vector` an interrupt gate that enters `handler_address` in the
    /// segment `selector`. No other vector changes.
    pub fn install(&mut self, vector: u8, handler_address: u64, selector: u16)
        ensures
            old(self)@.len() == 256,
            final(self)@ == old(self)@.update(
                vector as int,
                Gate::interrupt(handler_address, selector),
            ),
    {
        self.entries[vector as usize] = IdtEntry::new(handler_address, selector);
        assert(self@ =~= old(self)@.update(
            vector as int,
            Gate::interrupt(handler_address, selector),
        ));
    }

    /// The descriptor of `vector`.
    pub fn get(&self, vector: u8) -> (entry: IdtEntry)
        ensures
            self@.len() == 256,
            entry@ == self@[vector as int],
    {
        self.entries[vector as usize]
    }

    /// The table register value for this table placed at address `base`:
    /// the limit is the table's length in bytes less one.
    pub fn load(&self, base: u64) -> (descriptor: IdtDescriptor)
        ensures
            descriptor@ == (TableRegister { limit: 4095, base }),
            descriptor@.limit == table_bytes(self@).len() - 1,
    {
        proof {
            self.lemma_has_every_vector();
        }
        IdtDescriptor { limit: (TABLE_BYTES - 1) as u16, base }
    }

    /// The table as the processor reads it: 4096 bytes, 16 for each vector
    /// from 0 up.
    pub fn to_bytes(&self) -> (bytes: Vec<u8>)
        ensures
            bytes@ == table_bytes(self@),
            bytes@.len() == TABLE_BYTES,
    {
        let mut bytes: Vec<u8> = Vec::new();
        let mut vector: usize = 0;
        while vector < 256
            invariant
                vector <= 256,
                bytes@ == table_bytes(self@.take(vector as int)),
            decreases 256 - vector,
        {
            let entry: [u8; 16] = self.entries[vector].to_bytes();
            let ghost before = bytes@;
            let mut i: usize = 0;
            while i < 16
                invariant
                    i <= 16,
                    vector < 256,
                    entry@ == self@[vector as int].bytes(),
                    bytes@ == before + entry@.take(i as int),
                decreases 16 - i,
            {
                bytes.push(entry[i]);
                i += 1;
            }
            vector += 1;
            assert(bytes@ =~= table_bytes(self@.take(vector as int)));
        }
        assert(self@.take(256) =~= self@);
        bytes
    }
}

/// Installs the keyboard gate and gives the table register value: vector 33
/// becomes an interrupt gate that enters `handler_address` in the kernel
/// code segment, and the value returned describes the table placed at
/// `base`. The caller loads it into the processor after the table's bytes
/// stand at `base`, and before it enables interrupts.
pub fn load_idt(table: &mut Idt, handler_address: u64, base: u64) -> (descriptor: IdtDescriptor)
    ensures
        old(table)@.len() == 256,
        final(table)@ == old(table)@.update(
            KEYBOARD_VECTOR as int,
            Gate::interrupt(handler_address, KERNEL_CODE_SELECTOR),
        ),
        descriptor@ == (TableRegister { limit: 4095, base }),
{
    table.install(KEYBOARD_VECTOR, handler_address, KERNEL_CODE_SELECTOR);
    table.load(base)
}

/// An empty descriptor is not present; an interrupt gate is.
pub proof fn lemma_present(handler: u64, selector: u16)
    ensures
        !Gate::empty().present(),
        Gate::interrupt(handler, selector).present(),
{
    assert(0u8 & 0x80 == 0 && 0x8Eu8 & 0x80 != 0) by (bit_vector);
}

/// After `install(vector, handler_address, selector)` the slot `vector`
/// holds a gate with type-attribute byte 0x8E and selector `selector`, whose
/// address fragments reassemble to `handler_address`; every other slot holds
/// what it held before, which in a new table is all zero.
pub proof fn lemma_install_then_read(
    before: Seq<Gate>,
    vector: u8,
    handler_address: u64,
    selector: u16,
)
    requires
        before.len() == 256,
    ensures
        ({
            let after = before.update(vector as int, Gate::interrupt(handler_address, selector));
            let installed = after[vector as int];
            &&& installed.type_attr == 0x8E
            &&& installed.selector == selector
            &&& reassemble(
                low_fragment(installed.handler),
                mid_fragment(installed.handler),
                high_fragment(installed.handler),
            ) == handler_address
            &&& forall|other: int|
                0 <= other < 256 && other != vector ==> after[other] == before[other]
            &&& before == empty_table() ==> forall|other: int|
                0 <= other < 256 && other != vector ==> after[other] == Gate::empty()
        }),
{
    lemma_split_then_reassemble(handler_address);
}

} // verus!
