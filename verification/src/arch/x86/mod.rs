//! Records and drivers of the x86-64 platform.

pub mod gdt;
pub mod pages;
pub mod ports;
pub mod serial;
pub mod vga;
