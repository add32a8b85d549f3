//! Early bring-up core of a freestanding kernel.
//!
//! The crate models the sequence that runs the instant control is handed from
//! a bootloader to kernel code: acquiring a console, classifying the
//! boot-supplied memory map and registering free regions with the physical
//! page allocator, recording platform topology, running self-tests, and
//! reporting fatal errors when no runtime exists underneath.
//!
//! Everything here is plain data and verified logic. The hardware edges
//! (volatile video memory, firmware table search, the machine-specific exit
//! and halt primitives) live with the callers; they hand this crate plain
//! values and receive plain values back.

pub mod boot;
pub mod halt;
pub mod harness;
pub mod mem;
pub mod vga;
