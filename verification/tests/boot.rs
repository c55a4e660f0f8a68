use earlyboot::boot::{check_boot_contract, kernel_size, BootViolation};
use earlyboot::multiboot2::MULTIBOOT2_LOAD_MAGIC;

#[test]
fn a_good_handover_passes() {
    assert_eq!(check_boot_contract(0x36D7_6289, 0x1000, 2 * 1024 * 1024), Ok(()));
    assert_eq!(check_boot_contract(MULTIBOOT2_LOAD_MAGIC, 1, 0), Ok(()));
}

#[test]
fn a_wrong_magic_number_is_reported_first() {
    assert_eq!(check_boot_contract(0x2BAD_B002, 0, usize::MAX), Err(BootViolation::BadMagic));
    assert_eq!(check_boot_contract(0, 0x1000, 0), Err(BootViolation::BadMagic));
}

#[test]
fn a_null_address_is_reported_before_the_size() {
    assert_eq!(
        check_boot_contract(MULTIBOOT2_LOAD_MAGIC, 0, usize::MAX),
        Err(BootViolation::NullInfo)
    );
}

#[test]
fn an_image_above_two_mebibytes_is_too_large() {
    assert_eq!(
        check_boot_contract(MULTIBOOT2_LOAD_MAGIC, 0x1000, 2 * 1024 * 1024 + 1),
        Err(BootViolation::KernelTooLarge)
    );
}

#[test]
fn the_size_of_an_image_is_the_distance_of_its_ends() {
    assert_eq!(kernel_size(0x10_0000, 0x12_3456), 0x2_3456);
    assert_eq!(kernel_size(7, 7), 0);
}
