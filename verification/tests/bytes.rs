use earlyboot::bytes::{
    push_u16, push_u32, read_u16, read_u32, read_u64, write_u16, write_u32, write_u64,
};

#[test]
fn numbers_are_read_least_significant_byte_first() {
    let bytes = [0x01, 0x02, 0x03, 0x04, 0x05, 0x06, 0x07, 0x08, 0x09];
    assert_eq!(read_u16(&bytes, 0), 0x0201);
    assert_eq!(read_u32(&bytes, 1), 0x0504_0302);
    assert_eq!(read_u64(&bytes, 1), 0x0908_0706_0504_0302);
}

#[test]
fn numbers_are_written_least_significant_byte_first() {
    let mut bytes = [0xAAu8; 12];
    write_u16(&mut bytes, 1, 0x1234);
    assert_eq!(bytes[..4], [0xAA, 0x34, 0x12, 0xAA]);
    write_u32(&mut bytes, 0, 0xDEAD_BEEF);
    assert_eq!(bytes[..5], [0xEF, 0xBE, 0xAD, 0xDE, 0xAA]);
    write_u64(&mut bytes, 4, u64::MAX - 1);
    assert_eq!(bytes, [0xEF, 0xBE, 0xAD, 0xDE, 0xFE, 0xFF, 0xFF, 0xFF, 0xFF, 0xFF, 0xFF, 0xFF]);
}

#[test]
fn what_was_written_reads_back() {
    let mut bytes = [0u8; 16];
    write_u64(&mut bytes, 3, 0x0123_4567_89AB_CDEF);
    assert_eq!(read_u64(&bytes, 3), 0x0123_4567_89AB_CDEF);
    assert_eq!(bytes[3..11], 0x0123_4567_89AB_CDEFu64.to_le_bytes());
    write_u32(&mut bytes, 12, u32::MAX);
    assert_eq!(read_u32(&bytes, 12), u32::MAX);
}

#[test]
fn numbers_are_appended_least_significant_byte_first() {
    let mut bytes = vec![9u8];
    push_u16(&mut bytes, 0xBEEF);
    push_u32(&mut bytes, 0x0102_0304);
    assert_eq!(bytes, vec![9, 0xEF, 0xBE, 4, 3, 2, 1]);
}
