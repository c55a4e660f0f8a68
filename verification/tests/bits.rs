use earlyboot::bits::{get_field, get_flag, set_field, set_flag};

#[test]
fn a_field_reads_back_what_was_stored() {
    let word = set_field(0xFFFF_FFFF_FFFF_FFFF, 12, 40, 0x12_3456_789A);
    assert_eq!(get_field(word, 12, 40), 0x12_3456_789A);
    assert_eq!(word, 0xFFF1_2345_6789_AFFF);
}

#[test]
fn a_flag_is_one_bit() {
    assert_eq!(set_flag(0, 63, true), 0x8000_0000_0000_0000);
    assert_eq!(set_flag(u64::MAX, 0, false), u64::MAX - 1);
    assert!(get_flag(0x10, 4));
    assert!(!get_flag(0x10, 3));
}

#[test]
fn a_field_of_no_width_holds_zero() {
    assert_eq!(get_field(u64::MAX, 5, 0), 0);
    assert_eq!(set_field(0x1234, 5, 0, 0), 0x1234);
}
