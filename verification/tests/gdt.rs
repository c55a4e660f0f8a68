use earlyboot::arch::x86::gdt::{Gdt, GdtSegmentSelector, Gdtr64};

#[test]
fn table_holds_the_five_flat_segments() {
    let table = Gdt::new();
    assert_eq!(table.descriptor(0).unwrap().into_bits(), 0);
    assert_eq!(table.descriptor(1).unwrap().into_bits(), 0x00EF_9A00_0000_FFFF);
    assert_eq!(table.descriptor(2).unwrap().into_bits(), 0x00EF_9200_0000_FFFF);
    assert_eq!(table.descriptor(3).unwrap().into_bits(), 0x00EF_FA00_0000_FFFF);
    assert_eq!(table.descriptor(4).unwrap().into_bits(), 0x00EF_F200_0000_FFFF);
}

#[test]
fn kernel_segments_have_level_0_and_user_segments_level_3() {
    let table = Gdt::new();
    assert_eq!(table.descriptor(1).unwrap().dpl(), 0);
    assert_eq!(table.descriptor(2).unwrap().dpl(), 0);
    assert_eq!(table.descriptor(3).unwrap().dpl(), 3);
    assert_eq!(table.descriptor(4).unwrap().dpl(), 3);
    assert!(table.descriptor(1).unwrap().executable());
    assert!(!table.descriptor(2).unwrap().executable());
    assert!(table.descriptor(3).unwrap().executable());
    assert!(!table.descriptor(4).unwrap().executable());
}

#[test]
fn descriptor_round_trips_through_its_bytes() {
    for dpl in 0..4u64 {
        for executable in [false, true] {
            for present in [false, true] {
                let built = GdtSegmentSelector::base()
                    .with_dpl(dpl)
                    .with_executable(executable)
                    .with_present(present);
                let decoded = GdtSegmentSelector::from_bytes(&built.to_bytes());
                assert_eq!(decoded, built);
                assert_eq!(decoded.dpl(), dpl);
                assert_eq!(decoded.executable(), executable);
                assert_eq!(decoded.present(), present);
            }
        }
    }
}

#[test]
fn table_has_five_descriptors() {
    let table = Gdt::new();
    assert!(table.descriptor(4).is_some());
    assert!(table.descriptor(5).is_none());
    assert!(table.descriptor(usize::MAX).is_none());
    assert_eq!(table.to_bytes().len(), 40);
}

#[test]
fn null_descriptor_is_all_zero() {
    assert_eq!(GdtSegmentSelector::null().into_bits(), 0);
    assert_eq!(Gdt::new().to_bytes()[..8], [0u8; 8]);
}

#[test]
fn descriptor_fields_sit_at_their_bit_positions() {
    let zero = GdtSegmentSelector::new();
    assert_eq!(zero.with_limit_low(0xFFFF).into_bits(), 0xFFFF);
    assert_eq!(zero.with_base_low(0xFFFF).into_bits(), 0xFFFF << 16);
    assert_eq!(zero.with_base_mid(0xFF).into_bits(), 0xFF << 32);
    assert_eq!(zero.with_accessed(true).into_bits(), 1 << 40);
    assert_eq!(zero.with_rw(true).into_bits(), 1 << 41);
    assert_eq!(zero.with_direction_conforming(true).into_bits(), 1 << 42);
    assert_eq!(zero.with_executable(true).into_bits(), 1 << 43);
    assert_eq!(zero.with_type_(true).into_bits(), 1 << 44);
    assert_eq!(zero.with_dpl(3).into_bits(), 3 << 45);
    assert_eq!(zero.with_present(true).into_bits(), 1 << 47);
    assert_eq!(zero.with_limit_high(0xF).into_bits(), 0xF << 48);
    assert_eq!(zero.with_reserved(true).into_bits(), 1 << 52);
    assert_eq!(zero.with_long_mode(true).into_bits(), 1 << 53);
    assert_eq!(zero.with_size(true).into_bits(), 1 << 54);
    assert_eq!(zero.with_granularity(true).into_bits(), 1 << 55);
    assert_eq!(zero.with_base_high(0xFF).into_bits(), 0xFF << 56);
}

#[test]
fn descriptor_fields_read_back() {
    let d = GdtSegmentSelector::from_bits(0x12CF_9A34_5678_ABCD);
    assert_eq!(d.limit_low(), 0xABCD);
    assert_eq!(d.base_low(), 0x5678);
    assert_eq!(d.base_mid(), 0x34);
    assert!(!d.accessed());
    assert!(d.rw());
    assert!(!d.direction_conforming());
    assert!(d.executable());
    assert!(d.type_());
    assert_eq!(d.dpl(), 0);
    assert!(d.present());
    assert_eq!(d.limit_high(), 0xF);
    assert!(!d.reserved());
    assert!(!d.long_mode());
    assert!(d.size());
    assert!(d.granularity());
    assert_eq!(d.base_high(), 0x12);
}

#[test]
fn selectors_are_the_byte_offsets_of_their_descriptors() {
    let table = Gdt::new();
    let bytes = table.to_bytes();
    let at = Gdt::KERNEL_CODE_SELECTOR;
    assert_eq!(bytes[at..at + 8], table.descriptor(1).unwrap().to_bytes());
    let at = Gdt::KERNEL_DATA_SELECTOR;
    assert_eq!(bytes[at..at + 8], table.descriptor(2).unwrap().to_bytes());
    assert_eq!(Gdt::KERNEL_CODE_SELECTOR, 8);
    assert_eq!(Gdt::KERNEL_DATA_SELECTOR, 16);
    assert_eq!(Gdt::USER_CODE_SELECTOR, 24);
    assert_eq!(Gdt::USER_DATA_SELECTOR, 32);
}

#[test]
fn register_image_holds_the_offset_at_its_constant() {
    let image = Gdt::new().register(0x1122_3344_5566_7788);
    assert_eq!(image.size, 39);
    let bytes = image.to_bytes();
    assert_eq!(bytes[..2], [39, 0]);
    let at = Gdtr64::GDTR_OFFSET;
    assert_eq!(at, 2);
    assert_eq!(bytes[at..at + 8], 0x1122_3344_5566_7788u64.to_le_bytes());
}
