//! Interrupt-handling core of a minimal x86-64 kernel.
//!
//! The crate computes everything the kernel hands to the hardware: gate
//! descriptors and the table-register value, the command bytes for the two
//! cascaded interrupt controllers, and the bytes stored to the text-mode
//! display. A hardware access is a value (a port write or a memory store);
//! the caller performs the accesses it is given, in the order given.
//!
//! - `hardware`: port writes and memory stores as values.
//! - `pic`: the writes that remap, mask and acknowledge at the controllers.
//! - `controller`: what those writes do to a pair of controllers.
//! - `idt`: gate descriptors, the descriptor table, the table register.
//! - `vga`: the text-mode display driver.
//! - `keyboard`: the keyboard interrupt handler.

pub mod controller;
pub mod hardware;
pub mod idt;
pub mod keyboard;
pub mod pic;
pub mod vga;
