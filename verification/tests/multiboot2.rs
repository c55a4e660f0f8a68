use earlyboot::multiboot2::{
    Multiboot2Arch, Multiboot2FinalTag, Multiboot2FramebufferTag, Multiboot2Header, Multiboot2Info,
    Multiboot2InfoHeader, Multiboot2InfoIter, Multiboot2InfoTag, Multiboot2InfoTagType,
    Multiboot2Magic, Multiboot2MemoryMapEntry, Multiboot2MemoryMapTag, Multiboot2TagType,
    MULTIBOOT2_HEADER_MAGIC, MULTIBOOT2_LOAD_MAGIC,
};

fn word(out: &mut Vec<u8>, value: u32) {
    out.extend_from_slice(&value.to_le_bytes());
}

fn long(out: &mut Vec<u8>, value: u64) {
    out.extend_from_slice(&value.to_le_bytes());
}

/// A block of boot information with the given tags, each given as its
/// type and its bytes after the start of the tag, and a closing tag.
fn block(tags: &[(u32, Vec<u8>)]) -> Vec<u8> {
    let mut out = vec![0u8; 8];
    for (type_, payload) in tags {
        word(&mut out, *type_);
        word(&mut out, 8 + payload.len() as u32);
        out.extend_from_slice(payload);
        while out.len() % 8 != 0 {
            out.push(0xAA);
        }
    }
    word(&mut out, 0);
    word(&mut out, 8);
    let total = out.len() as u32;
    out[..4].copy_from_slice(&total.to_le_bytes());
    out
}

fn memory_map(entry_size: u32, entries: &[(u64, u64, u32)]) -> Vec<u8> {
    let mut out = Vec::new();
    word(&mut out, entry_size);
    word(&mut out, 0);
    for &(base, length, type_) in entries {
        long(&mut out, base);
        long(&mut out, length);
        word(&mut out, type_);
        word(&mut out, 0);
        for _ in 24..entry_size {
            out.push(0x55);
        }
    }
    out
}

const ENTRIES: [(u64, u64, u32); 3] = [
    (0x0000_0000, 0x0009_FC00, 1),
    (0x0009_FC00, 0x0000_0400, 2),
    (0x0010_0000, 0x07EE_0000_0000, 1),
];

#[test]
fn header_has_the_magic_number_and_balances() {
    let header = Multiboot2Header::new();
    assert_eq!(header.magic(), 0xE852_50D6);
    assert_eq!(header.arch(), Multiboot2Arch::PROTECTED_MODE);
    assert_eq!(header.header_length(), 24);
    assert_eq!(header.checksum(), 0x17AD_AF12);
    assert_eq!(
        header
            .magic()
            .wrapping_add(header.arch().code())
            .wrapping_add(header.header_length())
            .wrapping_add(header.checksum()),
        0
    );
    assert_eq!(header.framebuffer_tag(), None);
    assert_eq!(header.final_tag(), Multiboot2FinalTag::new());
}

#[test]
fn header_bytes_end_with_the_final_tag() {
    let bytes = Multiboot2Header::new().to_bytes();
    assert_eq!(
        bytes,
        vec![
            0xD6, 0x50, 0x52, 0xE8, 0, 0, 0, 0, 24, 0, 0, 0, 0x12, 0xAF, 0xAD, 0x17, 0, 0, 0, 0, 8,
            0, 0, 0
        ]
    );
}

#[test]
fn a_framebuffer_tag_stands_before_the_final_tag_and_is_counted() {
    let header = Multiboot2Header::with_framebuffer(Multiboot2FramebufferTag::new());
    assert_eq!(header.header_length(), 48);
    assert_eq!(header.checksum(), 0x17AD_AEFA);
    let bytes = header.to_bytes();
    assert_eq!(bytes.len(), 48);
    assert_eq!(bytes[8..12], [48, 0, 0, 0]);
    let mut tag = vec![5, 0, 0, 0];
    word(&mut tag, 24);
    word(&mut tag, 1024);
    word(&mut tag, 768);
    word(&mut tag, 32);
    word(&mut tag, 0);
    assert_eq!(bytes[16..40], tag[..]);
    assert_eq!(bytes[40..], [0, 0, 0, 0, 8, 0, 0, 0]);
    let mut sum = 0u32;
    for i in 0..4 {
        sum = sum.wrapping_add(u32::from_le_bytes(bytes[4 * i..4 * i + 4].try_into().unwrap()));
    }
    assert_eq!(sum, 0);
}

#[test]
fn checksum_balances_every_length() {
    for length in [0u32, 1, 24, 48, 0x17AD_AF29, 0x17AD_AF2A, 0x17AD_AF2B, 0x8000_0000, u32::MAX] {
        let checksum = Multiboot2Header::checksum_for(length);
        assert_eq!(0xE852_50D6u32.wrapping_add(0).wrapping_add(length).wrapping_add(checksum), 0);
    }
    assert_eq!(Multiboot2Header::checksum_for(24), 0x17AD_AF12);
    assert_eq!(Multiboot2Header::checksum_for(0x17AD_AF2A), 0);
    assert_eq!(Multiboot2Header::checksum_for(0), 0x17AD_AF2A);
}

#[test]
fn header_parts_have_their_numbers() {
    assert_eq!(Multiboot2Magic::new().0, MULTIBOOT2_HEADER_MAGIC);
    assert_eq!(MULTIBOOT2_LOAD_MAGIC, 0x36D7_6289);
    assert_eq!(Multiboot2TagType::FINAL.code(), 0);
    assert_eq!(Multiboot2TagType::FRAMEBUFFER.code(), 5);
    let tag = Multiboot2FramebufferTag::new();
    assert_eq!(tag.base.type_, Multiboot2TagType::FRAMEBUFFER);
    assert_eq!(tag.base.flags, 0);
    assert_eq!(tag.base.size, 24);
    assert_eq!((tag.width, tag.height, tag.depth, tag.pad), (1024, 768, 32, 0));
    assert_eq!(Multiboot2FinalTag::new().base.size, 8);
    assert_eq!(Multiboot2FinalTag::new().base.type_, Multiboot2TagType::FINAL);
}

#[test]
fn tag_types_have_the_numbers_1_to_21() {
    assert_eq!(Multiboot2InfoTagType::from_u32(0), None);
    assert_eq!(Multiboot2InfoTagType::from_u32(22), None);
    assert_eq!(Multiboot2InfoTagType::from_u32(255), None);
    assert_eq!(Multiboot2InfoTagType::from_u32(u32::MAX), None);
    for n in 1..=21u32 {
        assert_eq!(Multiboot2InfoTagType::from_u32(n).unwrap().code(), n);
    }
    assert_eq!(Multiboot2InfoTagType::from_u32(1), Some(Multiboot2InfoTagType::BOOT_CMDLINE));
    assert_eq!(Multiboot2InfoTagType::from_u32(6), Some(Multiboot2InfoTagType::MEMORY_MAP));
    assert_eq!(
        Multiboot2InfoTagType::from_u32(21),
        Some(Multiboot2InfoTagType::IMAGE_LOAD_BASE_PADDR)
    );
}

#[test]
fn memory_map_with_three_entries_is_yielded_once() {
    let bytes = block(&[(6, memory_map(24, &ENTRIES))]);
    let mut iter = Multiboot2InfoIter::new(&bytes);
    match iter.next() {
        Some(Multiboot2Info::MemoryMap(map)) => {
            assert_eq!(map.len(), 3);
            for (i, &(base, length, type_)) in ENTRIES.iter().enumerate() {
                let entry = map.get(i).unwrap();
                assert_eq!(entry.base_paddr, base);
                assert_eq!(entry.length, length);
                assert_eq!(entry.type_, type_);
                assert_eq!(entry.reserved, 0);
            }
            assert_eq!(map.get(3), None);
        }
        other => panic!("expected the memory map, got {:?}", other),
    }
    assert!(iter.next().is_none());
    assert!(iter.next().is_none());
}

#[test]
fn unknown_tag_type_is_yielded_as_unimplemented() {
    let bytes = block(&[(255, vec![1, 2, 3]), (6, memory_map(24, &ENTRIES[..1]))]);
    let mut iter = Multiboot2InfoIter::new(&bytes);
    assert!(matches!(iter.next(), Some(Multiboot2Info::Unimplemented(255))));
    assert!(matches!(iter.next(), Some(Multiboot2Info::MemoryMap(map)) if map.len() == 1));
    assert!(iter.next().is_none());
}

#[test]
fn named_tag_types_that_are_not_read_are_yielded_as_unimplemented() {
    let bytes = block(&[(1, b"quiet\0".to_vec()), (21, vec![0; 4]), (4, vec![0; 8])]);
    let mut iter = Multiboot2InfoIter::new(&bytes);
    assert!(matches!(iter.next(), Some(Multiboot2Info::Unimplemented(1))));
    assert!(matches!(iter.next(), Some(Multiboot2Info::Unimplemented(21))));
    assert!(matches!(iter.next(), Some(Multiboot2Info::Unimplemented(4))));
    assert!(iter.next().is_none());
}

#[test]
fn tags_start_on_multiples_of_eight() {
    for payload in 0..17usize {
        let bytes = block(&[(9, vec![0xAA; payload]), (10, vec![])]);
        let mut iter = Multiboot2InfoIter::new(&bytes);
        assert!(matches!(iter.next(), Some(Multiboot2Info::Unimplemented(9))));
        assert!(matches!(iter.next(), Some(Multiboot2Info::Unimplemented(10))));
        assert!(iter.next().is_none());
    }
}

#[test]
fn the_walk_ends_at_the_closing_tag() {
    let mut bytes = block(&[(2, vec![])]);
    let tail = block(&[(3, vec![])]);
    bytes.extend_from_slice(&tail[8..]);
    let total = bytes.len() as u32;
    bytes[..4].copy_from_slice(&total.to_le_bytes());
    let mut iter = Multiboot2InfoIter::new(&bytes);
    assert!(matches!(iter.next(), Some(Multiboot2Info::Unimplemented(2))));
    assert!(iter.next().is_none());
}

#[test]
fn the_walk_ends_at_the_total_size() {
    let mut bytes = block(&[(2, vec![]), (3, vec![])]);
    bytes[..4].copy_from_slice(&16u32.to_le_bytes());
    let mut iter = Multiboot2InfoIter::new(&bytes);
    assert!(matches!(iter.next(), Some(Multiboot2Info::Unimplemented(2))));
    assert!(iter.next().is_none());
    bytes[..4].copy_from_slice(&15u32.to_le_bytes());
    assert!(Multiboot2InfoIter::new(&bytes).next().is_none());
    bytes[..4].copy_from_slice(&8u32.to_le_bytes());
    assert!(Multiboot2InfoIter::new(&bytes).next().is_none());
    bytes[..4].copy_from_slice(&0u32.to_le_bytes());
    assert!(Multiboot2InfoIter::new(&bytes).next().is_none());
}

#[test]
fn a_tag_that_reaches_past_the_window_ends_the_walk() {
    let mut bytes = block(&[(2, vec![]), (3, vec![0; 8])]);
    bytes[20..24].copy_from_slice(&17u32.to_le_bytes());
    let mut iter = Multiboot2InfoIter::new(&bytes);
    assert!(matches!(iter.next(), Some(Multiboot2Info::Unimplemented(2))));
    assert!(matches!(iter.next(), Some(Multiboot2Info::Unimplemented(3))));
    assert!(iter.next().is_none());
    bytes[20..24].copy_from_slice(&25u32.to_le_bytes());
    let mut iter = Multiboot2InfoIter::new(&bytes);
    assert!(matches!(iter.next(), Some(Multiboot2Info::Unimplemented(2))));
    assert!(iter.next().is_none());
    bytes[20..24].copy_from_slice(&u32::MAX.to_le_bytes());
    let mut iter = Multiboot2InfoIter::new(&bytes);
    assert!(matches!(iter.next(), Some(Multiboot2Info::Unimplemented(2))));
    assert!(iter.next().is_none());
}

#[test]
fn a_tag_smaller_than_its_start_ends_the_walk() {
    for size in 0..8u32 {
        let mut bytes = block(&[(2, vec![]), (3, vec![])]);
        bytes[12..16].copy_from_slice(&size.to_le_bytes());
        assert!(Multiboot2InfoIter::new(&bytes).next().is_none());
    }
}

#[test]
fn a_small_entry_size_is_raised_to_the_size_of_an_entry() {
    for entry_size in [0u32, 1, 8, 23] {
        let mut payload = memory_map(24, &ENTRIES);
        payload[..4].copy_from_slice(&entry_size.to_le_bytes());
        let bytes = block(&[(6, payload)]);
        let mut iter = Multiboot2InfoIter::new(&bytes);
        match iter.next() {
            Some(Multiboot2Info::MemoryMap(map)) => {
                assert_eq!(map.len(), 3);
                assert_eq!(map.get(2).unwrap().base_paddr, 0x0010_0000);
            }
            other => panic!("expected the memory map, got {:?}", other),
        }
    }
}

#[test]
fn a_large_entry_size_is_the_distance_of_the_entries() {
    let bytes = block(&[(6, memory_map(40, &ENTRIES))]);
    let mut iter = Multiboot2InfoIter::new(&bytes);
    match iter.next() {
        Some(Multiboot2Info::MemoryMap(map)) => {
            assert_eq!(map.len(), 3);
            assert_eq!(map.get(1).unwrap().base_paddr, 0x0009_FC00);
            assert_eq!(map.get(2).unwrap().length, 0x07EE_0000_0000);
        }
        other => panic!("expected the memory map, got {:?}", other),
    }
    let mut payload = memory_map(24, &ENTRIES);
    payload[..4].copy_from_slice(&u32::MAX.to_le_bytes());
    let bytes = block(&[(6, payload)]);
    let mut iter = Multiboot2InfoIter::new(&bytes);
    assert!(matches!(iter.next(), Some(Multiboot2Info::MemoryMap(map)) if map.len() == 0));
}

#[test]
fn an_entry_that_is_cut_off_is_not_counted() {
    let mut payload = memory_map(24, &ENTRIES);
    payload.truncate(8 + 2 * 24 + 23);
    let bytes = block(&[(6, payload)]);
    let mut iter = Multiboot2InfoIter::new(&bytes);
    assert!(matches!(iter.next(), Some(Multiboot2Info::MemoryMap(map)) if map.len() == 2));
    assert!(iter.next().is_none());
}

#[test]
fn a_memory_map_tag_without_its_start_is_unimplemented() {
    let bytes = block(&[(6, vec![0; 7]), (6, vec![0; 8])]);
    let mut iter = Multiboot2InfoIter::new(&bytes);
    assert!(matches!(iter.next(), Some(Multiboot2Info::Unimplemented(6))));
    assert!(matches!(iter.next(), Some(Multiboot2Info::MemoryMap(map)) if map.len() == 0));
    assert!(iter.next().is_none());
}

#[test]
fn checked_refuses_a_block_that_is_shorter_than_it_says() {
    let bytes = block(&[(6, memory_map(24, &ENTRIES))]);
    assert!(Multiboot2InfoIter::checked(&bytes).is_some());
    assert!(Multiboot2InfoIter::checked(&bytes[..bytes.len() - 1]).is_none());
    assert!(Multiboot2InfoIter::checked(&bytes[..7]).is_none());
    assert!(Multiboot2InfoIter::checked(&[]).is_none());
    let mut longer = bytes.clone();
    longer.push(0);
    let mut iter = Multiboot2InfoIter::checked(&longer).unwrap();
    assert!(matches!(iter.next(), Some(Multiboot2Info::MemoryMap(map)) if map.len() == 3));
    assert!(iter.next().is_none());
}

#[test]
fn records_are_read_where_they_stand() {
    let bytes = block(&[(6, memory_map(24, &ENTRIES))]);
    assert_eq!(Multiboot2InfoHeader::read(&bytes).total_size, bytes.len() as u32);
    assert_eq!(Multiboot2InfoTag::read(&bytes, 8), Multiboot2InfoTag { type_: 6, size: 88 });
    let tag = Multiboot2MemoryMapTag::read(&bytes, 8);
    assert_eq!(tag.base, Multiboot2InfoTag { type_: 6, size: 88 });
    assert_eq!(tag.entry_size, 24);
    assert_eq!(tag.entry_version, 0);
    let entry = Multiboot2MemoryMapEntry::read(&bytes, 24 + 24);
    assert_eq!(
        entry,
        Multiboot2MemoryMapEntry { base_paddr: 0x0009_FC00, length: 0x400, type_: 2, reserved: 0 }
    );
}

#[test]
fn bytes_past_the_total_size_are_not_read() {
    let bytes = block(&[(255, vec![1, 2, 3]), (6, memory_map(24, &ENTRIES))]);
    let mut trailing = bytes.clone();
    trailing.extend_from_slice(&block(&[(7, vec![0xFF; 40])])[8..]);
    let mut plain = Multiboot2InfoIter::new(&bytes);
    let mut padded = Multiboot2InfoIter::new(&trailing);
    assert!(matches!(plain.next(), Some(Multiboot2Info::Unimplemented(255))));
    assert!(matches!(padded.next(), Some(Multiboot2Info::Unimplemented(255))));
    match (plain.next(), padded.next()) {
        (Some(Multiboot2Info::MemoryMap(a)), Some(Multiboot2Info::MemoryMap(b))) => {
            assert_eq!(a.len(), 3);
            assert_eq!(b.len(), 3);
            for i in 0..3 {
                assert_eq!(a.get(i), b.get(i));
            }
        }
        other => panic!("expected two memory maps, got {:?}", other),
    }
    assert!(plain.next().is_none());
    assert!(padded.next().is_none());
}
