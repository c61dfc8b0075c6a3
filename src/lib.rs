//! The decision logic of a small x86_64 kernel core: the physical frame
//! allocator, heap-region construction, interrupt vector rules and the text
//! terminal. The hardware side (descriptor tables, port I/O, page-table
//! writes) is driven from these decisions by the kernel binary.

pub mod heap;
pub mod interrupt;
pub mod keyboard;
pub mod memory;
pub mod qemu;
pub mod vga;
