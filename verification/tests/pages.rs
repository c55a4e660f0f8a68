use earlyboot::arch::x86::pages::{
    PageDirectoryPointerTable4k, PageDirectoryTable4k, PageTable, Pdpte4k, Pdte4k, Pml4Table4k,
    Pml4te4k, Pml5Table4k, Pml5te4k, Pte, IDENTITY_MAPPED_BYTES, PAGE_BYTES, TABLE_ENTRIES,
};

#[test]
fn identity_table_leaves_the_first_page_unmapped() {
    let table = PageTable::identity();
    assert!(!table.0[0].present());
    assert_eq!(table.0[0].into_bits(), 0);
}

#[test]
fn identity_table_maps_every_other_page_to_its_own_frame() {
    let table = PageTable::identity();
    for i in 1..512usize {
        let entry = table.0[i];
        assert!(entry.present());
        assert!(entry.rw());
        assert_eq!(entry.page_paddr(), i as u64);
        assert_eq!(entry.into_bits(), ((i as u64) << 12) | 0b11);
    }
}

#[test]
fn identity_table_sets_no_other_field() {
    let table = PageTable::identity();
    for i in 1..512usize {
        let entry = table.0[i];
        assert!(!entry.user());
        assert!(!entry.write_through());
        assert!(!entry.cache_disable());
        assert!(!entry.accessed());
        assert!(!entry.dirty());
        assert!(!entry.page_attribute());
        assert!(!entry.global());
        assert!(!entry.nx());
        assert_eq!(entry.available_2(), 0);
        assert_eq!(entry.available_3(), 0);
        assert_eq!(entry.mkp(), 0);
    }
}

#[test]
fn identity_table_spans_two_mebibytes() {
    assert_eq!(TABLE_ENTRIES * PAGE_BYTES, IDENTITY_MAPPED_BYTES);
    assert_eq!(IDENTITY_MAPPED_BYTES, 2 * 1024 * 1024);
    assert_eq!(PageTable::identity().0.len(), TABLE_ENTRIES);
}

#[test]
fn templates_are_present_and_nothing_else() {
    assert_eq!(Pml5te4k::init().into_bits(), 1);
    assert_eq!(Pml4te4k::init().into_bits(), 1);
    assert_eq!(Pdpte4k::init().into_bits(), 1);
    assert_eq!(Pdte4k::init().into_bits(), 1);
    assert_eq!(Pte::init().into_bits(), 1);
    assert!(Pml5te4k::init().present());
    assert!(!Pml5te4k::init().rw());
}

#[test]
fn entry_fields_sit_at_their_bit_positions() {
    assert_eq!(Pte::new().with_present(true).into_bits(), 1 << 0);
    assert_eq!(Pte::new().with_rw(true).into_bits(), 1 << 1);
    assert_eq!(Pte::new().with_user(true).into_bits(), 1 << 2);
    assert_eq!(Pte::new().with_write_through(true).into_bits(), 1 << 3);
    assert_eq!(Pte::new().with_cache_disable(true).into_bits(), 1 << 4);
    assert_eq!(Pte::new().with_accessed(true).into_bits(), 1 << 5);
    assert_eq!(Pte::new().with_dirty(true).into_bits(), 1 << 6);
    assert_eq!(Pte::new().with_page_attribute(true).into_bits(), 1 << 7);
    assert_eq!(Pte::new().with_global(true).into_bits(), 1 << 8);
    assert_eq!(Pte::new().with_available_2(7).into_bits(), 7 << 9);
    assert_eq!(Pte::new().with_page_paddr(0xFF_FFFF_FFFF).into_bits(), 0xFF_FFFF_FFFF << 12);
    assert_eq!(Pte::new().with_available_3(0x7F).into_bits(), 0x7F << 52);
    assert_eq!(Pte::new().with_mkp(0xF).into_bits(), 0xF << 59);
    assert_eq!(Pte::new().with_nx(true).into_bits(), 1 << 63);
}

#[test]
fn directory_entry_fields_sit_at_their_bit_positions() {
    assert_eq!(Pml4te4k::new().with_pdp_paddr(0x12345).into_bits(), 0x12345 << 12);
    assert_eq!(Pml5te4k::new().with_pml4_paddr(1).into_bits(), 1 << 12);
    assert_eq!(Pdpte4k::new().with_pd_paddr(2).into_bits(), 2 << 12);
    assert_eq!(Pdte4k::new().with_pt_paddr(3).into_bits(), 3 << 12);
    assert_eq!(Pdte4k::new().with_available_3(0x7FF).into_bits(), 0x7FF << 52);
    assert_eq!(Pdte4k::new().with_nx(true).into_bits(), 1 << 63);
}

#[test]
fn storing_a_field_keeps_the_others() {
    let all = Pte::from_bits(u64::MAX);
    let changed = all.with_page_paddr(0);
    assert_eq!(changed.into_bits(), !(0xFF_FFFF_FFFFu64 << 12));
    assert!(changed.present());
    assert!(changed.nx());
    assert_eq!(changed.mkp(), 0xF);
    assert_eq!(changed.with_page_paddr(0xFF_FFFF_FFFF).into_bits(), u64::MAX);
}

#[test]
fn setters_change_an_entry_in_place() {
    let mut entry = Pte::init();
    entry.set_page_paddr(511);
    entry.set_rw(true);
    assert_eq!(entry.into_bits(), (511 << 12) | 0b11);
    entry.set_rw(false);
    assert_eq!(entry.into_bits(), (511 << 12) | 0b01);
}

#[test]
fn upper_tables_start_out_empty() {
    assert!(Pml5Table4k::empty().0.iter().all(|entry| entry.into_bits() == 0));
    assert!(Pml4Table4k::empty().0.iter().all(|entry| entry.into_bits() == 0));
    assert!(PageDirectoryPointerTable4k::empty().0.iter().all(|entry| !entry.present()));
    assert!(PageDirectoryTable4k::empty().0.iter().all(|entry| !entry.present()));
    assert_eq!(PageDirectoryTable4k::empty().0.len(), 512);
}
