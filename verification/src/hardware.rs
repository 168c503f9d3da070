//! Hardware accesses as values.
//!
//! Nothing in this crate touches a port or a device register. A function that
//! drives a device returns the accesses to make, and its contract states
//! exactly which ones and in which order.

use vstd::prelude::*;

verus! {

/// One byte written to an I/O port.
#[derive(Clone, Copy, Debug, PartialEq, Eq, Structural)]
pub struct PortWrite {
    pub port: u16,
    pub value: u8,
}

/// One byte stored at a physical memory address.
#[derive(Clone, Copy, Debug, PartialEq, Eq, Structural)]
pub struct Store {
    pub addr: u32,
    pub value: u8,
}

/// A hardware access of either kind, for sequences that mix the two.
#[derive(Clone, Copy, Debug, PartialEq, Eq, Structural)]
pub enum Access {
    Port(PortWrite),
    Memory(Store),
}

/// The stores `stores`, each as an `Access`, in the same order.
pub open spec fn memory_accesses(stores: Seq<Store>) -> Seq<Access> {
    stores.map_values(|s: Store| Access::Memory(s))
}

/// Wraps each store of `stores` as an `Access`, keeping the order.
pub fn to_accesses(stores: &[Store]) -> (accesses: Vec<Access>)
    ensures
        accesses@ == memory_accesses(stores@),
{
    let mut accesses: Vec<Access> = Vec::new();
    let mut i: usize = 0;
    while i < stores.len()
        invariant
            i <= stores.len(),
            accesses@ == memory_accesses(stores@.take(i as int)),
        decreases stores.len() - i,
    {
        accesses.push(Access::Memory(stores[i]));
        i += 1;
        assert(accesses@ == memory_accesses(stores@.take(i as int)));
    }
    assert(stores@.take(stores.len() as int) == stores@);
    accesses
}

} // verus!
