//! What the image checks of what the loader handed over, before it does
//! anything else.
//!
//! The loader passes a magic number and the address of the boot information,
//! and the image must lie within the memory that the first page table maps.
//! A violation of any of the three cannot be recovered from: the caller
//! reports it as well as it can and halts.

use vstd::prelude::*;
use crate::arch::x86::pages::IDENTITY_MAPPED_BYTES;
use crate::multiboot2::MULTIBOOT2_LOAD_MAGIC;

verus! {

/// What the loader or the image got wrong.
#[derive(Clone, Copy, Debug, PartialEq, Eq)]
pub enum BootViolation {
    /// The magic number is not that of a multiboot2 loader.
    BadMagic,
    /// The address of the boot information is zero.
    NullInfo,
    /// The image is larger than the memory that is mapped.
    KernelTooLarge,
}

/// The first of the three conditions that is violated, if any: the magic
/// number, then the address of the boot information, then the size of the
/// image.
pub open spec fn first_violation(magic: u32, info_address: usize, kernel_bytes: usize) -> Option<
    BootViolation,
> {
    if magic != MULTIBOOT2_LOAD_MAGIC {
        Some(BootViolation::BadMagic)
    } else if info_address == 0 {
        Some(BootViolation::NullInfo)
    } else if kernel_bytes > IDENTITY_MAPPED_BYTES {
        Some(BootViolation::KernelTooLarge)
    } else {
        None
    }
}

/// Number of bytes of an image that is loaded from address `start` up to
/// address `end`.
pub fn kernel_size(start: usize, end: usize) -> (bytes: usize)
    requires
        start <= end,
    ensures
        bytes == end - start,
{
    end - start
}

/// Checks what the loader handed over: `magic`, the address of the boot
/// information, and the size of the image.
pub fn check_boot_contract(
    magic: u32,
    info_address: usize,
    kernel_bytes: usize,
) -> (outcome: Result<(), BootViolation>)
    ensures
        match first_violation(magic, info_address, kernel_bytes) {
            Some(violation) => outcome == Err::<(), BootViolation>(violation),
            None => outcome.is_ok(),
        },
{
    if magic != MULTIBOOT2_LOAD_MAGIC {
        return Err(BootViolation::BadMagic);
    }
    if info_address == 0 {
        return Err(BootViolation::NullInfo);
    }
    if kernel_bytes > IDENTITY_MAPPED_BYTES {
        return Err(BootViolation::KernelTooLarge);
    }
    Ok(())
}

} // verus!
