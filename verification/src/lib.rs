//! Early-boot bring-up for a 64-bit kernel image that a multiboot2 loader
//! starts.
//!
//! The crate holds what has to be right bit for bit before a kernel can run:
//!
//! - [`arch::x86::gdt`]: the segment descriptor table and the image of its
//!   register;
//! - [`arch::x86::pages`]: the entries and tables of the paging hierarchy, and
//!   the page table that maps the first 2 MiB to themselves;
//! - [`multiboot2`]: the header that the loader looks for in the image, and
//!   the walk over the boot information that the loader hands over;
//! - [`arch::x86::ports`], [`arch::x86::serial`], [`arch::x86::vga`]: the I/O
//!   ports, and the two devices that the first diagnostics go to;
//! - [`boot`]: what is checked of the handover from the loader.
//!
//! Nothing in the crate touches hardware. The records are values that the
//! image places where the processor and the loader look for them. The drivers
//! say which accesses to the I/O ports are to be made, in which order, and
//! what follows from what was read; the caller makes the accesses.

pub mod arch;
pub mod bits;
pub mod boot;
pub mod bytes;
pub mod multiboot2;
