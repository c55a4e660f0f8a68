//! The segment descriptor table and the image of its register.
//!
//! The table holds five descriptors of eight bytes: the null descriptor, then
//! code and data for the kernel, then code and data for user mode. All four
//! segments are flat; they differ in the executable flag and in the privilege
//! level. The table is built once and never changed.

use vstd::prelude::*;
use crate::bits::{
    field, flag, flag_bits, get_field, get_flag, lemma_field_bounds, lemma_field_stored,
    lemma_flag_bits, lemma_low_masks, lemma_store_keeps, low_mask, set_field, set_flag,
    with_field, with_flag,
};
use crate::bytes::{
    lemma_joined_parts, lemma_le_lengths, lemma_part_of_part, lemma_u64_round_trip, read_u64,
    u16_le, u64_from_le, u64_le, write_u16, write_u64,
};

verus! {

/// The fields of a segment descriptor, unpacked.
pub struct GdtSegmentSelectorFields {
    /// Bits 0 to 15 of the segment limit (bits 0..16).
    pub limit_low: nat,
    /// Bits 0 to 15 of the segment base (bits 16..32).
    pub base_low: nat,
    /// Bits 16 to 23 of the segment base (bits 32..40).
    pub base_mid: nat,
    /// Whether the segment has been loaded (bit 40).
    pub accessed: bool,
    /// Whether a data segment is writable, or a code segment readable (bit 41).
    pub rw: bool,
    /// Whether a data segment grows down, or a code segment is conforming (bit 42).
    pub direction_conforming: bool,
    /// Whether the segment holds code (bit 43).
    pub executable: bool,
    /// Whether the descriptor is of a code or data segment, not of a system segment (bit 44).
    pub type_: bool,
    /// The privilege level of the segment, 0 to 3 (bits 45..47).
    pub dpl: nat,
    /// Whether the segment is present (bit 47).
    pub present: bool,
    /// Bits 16 to 19 of the segment limit (bits 48..52).
    pub limit_high: nat,
    /// A bit left to software (bit 52).
    pub reserved: bool,
    /// Whether the segment holds 64-bit code (bit 53).
    pub long_mode: bool,
    /// Whether the default operand size is 32 bits (bit 54).
    pub size: bool,
    /// Whether the limit counts 4 KiB units (bit 55).
    pub granularity: bool,
    /// Bits 24 to 31 of the segment base (bits 56..64).
    pub base_high: nat,
}

/// The fields that the word `bits` holds when it is read as a segment descriptor.
pub open spec fn gdt_segment_fields(bits: u64) -> GdtSegmentSelectorFields {
    GdtSegmentSelectorFields {
        limit_low: field(bits, 0, 16) as nat,
        base_low: field(bits, 16, 16) as nat,
        base_mid: field(bits, 32, 8) as nat,
        accessed: flag(bits, 40),
        rw: flag(bits, 41),
        direction_conforming: flag(bits, 42),
        executable: flag(bits, 43),
        type_: flag(bits, 44),
        dpl: field(bits, 45, 2) as nat,
        present: flag(bits, 47),
        limit_high: field(bits, 48, 4) as nat,
        reserved: flag(bits, 52),
        long_mode: flag(bits, 53),
        size: flag(bits, 54),
        granularity: flag(bits, 55),
        base_high: field(bits, 56, 8) as nat,
    }
}

/// The fields of the segment descriptor whose bits are all clear.
pub open spec fn gdt_segment_zero() -> GdtSegmentSelectorFields {
    GdtSegmentSelectorFields {
        limit_low: 0,
        base_low: 0,
        base_mid: 0,
        accessed: false,
        rw: false,
        direction_conforming: false,
        executable: false,
        type_: false,
        dpl: 0,
        present: false,
        limit_high: 0,
        reserved: false,
        long_mode: false,
        size: false,
        granularity: false,
        base_high: 0,
    }
}

/// Whether `[low, low + width)` is one of the fields of a segment descriptor.
pub open spec fn is_gdt_segment_field(low: u64, width: u64) -> bool {
    ||| (low == 0 && width == 16)
    ||| (low == 16 && width == 16)
    ||| (low == 32 && width == 8)
    ||| (low == 40 && width == 1)
    ||| (low == 41 && width == 1)
    ||| (low == 42 && width == 1)
    ||| (low == 43 && width == 1)
    ||| (low == 44 && width == 1)
    ||| (low == 45 && width == 2)
    ||| (low == 47 && width == 1)
    ||| (low == 48 && width == 4)
    ||| (low == 52 && width == 1)
    ||| (low == 53 && width == 1)
    ||| (low == 54 && width == 1)
    ||| (low == 55 && width == 1)
    ||| (low == 56 && width == 8)
}

/// The word zero holds the segment descriptor whose fields are all clear.
pub proof fn lemma_gdt_segment_zero()
    ensures
        gdt_segment_fields(0) == gdt_segment_zero(),
{
    lemma_field_bounds(0, 0, 16);
    lemma_field_bounds(0, 16, 16);
    lemma_field_bounds(0, 32, 8);
    lemma_field_bounds(0, 40, 1);
    lemma_field_bounds(0, 41, 1);
    lemma_field_bounds(0, 42, 1);
    lemma_field_bounds(0, 43, 1);
    lemma_field_bounds(0, 44, 1);
    lemma_field_bounds(0, 45, 2);
    lemma_field_bounds(0, 47, 1);
    lemma_field_bounds(0, 48, 4);
    lemma_field_bounds(0, 52, 1);
    lemma_field_bounds(0, 53, 1);
    lemma_field_bounds(0, 54, 1);
    lemma_field_bounds(0, 55, 1);
    lemma_field_bounds(0, 56, 8);
}

/// The fields of a segment descriptor take up the whole word: two words that hold the
/// same fields are the same word.
pub proof fn lemma_gdt_segment_fields_cover(a: u64, b: u64)
    requires
        gdt_segment_fields(a) == gdt_segment_fields(b),
    ensures
        a == b,
{
    assert(a == b) by (bit_vector)
        requires
            field(a, 0, 16) == field(b, 0, 16),
            field(a, 16, 16) == field(b, 16, 16),
            field(a, 32, 8) == field(b, 32, 8),
            flag(a, 40) == flag(b, 40),
            flag(a, 41) == flag(b, 41),
            flag(a, 42) == flag(b, 42),
            flag(a, 43) == flag(b, 43),
            flag(a, 44) == flag(b, 44),
            field(a, 45, 2) == field(b, 45, 2),
            flag(a, 47) == flag(b, 47),
            field(a, 48, 4) == field(b, 48, 4),
            flag(a, 52) == flag(b, 52),
            flag(a, 53) == flag(b, 53),
            flag(a, 54) == flag(b, 54),
            flag(a, 55) == flag(b, 55),
            field(a, 56, 8) == field(b, 56, 8),
    ;
}

/// Storing into one field of a segment descriptor changes that field and no other.
pub proof fn lemma_gdt_segment_store(bits: u64, low: u64, width: u64, value: u64)
    requires
        is_gdt_segment_field(low, width),
        value <= low_mask(width),
    ensures
        ({
            let before = gdt_segment_fields(bits);
            let after = gdt_segment_fields(with_field(bits, low, width, value));
            &&& after.limit_low == if low == 0 { value as nat } else { before.limit_low }
            &&& after.base_low == if low == 16 { value as nat } else { before.base_low }
            &&& after.base_mid == if low == 32 { value as nat } else { before.base_mid }
            &&& after.accessed == if low == 40 { value == 1 } else { before.accessed }
            &&& after.rw == if low == 41 { value == 1 } else { before.rw }
            &&& after.direction_conforming == if low == 42 {
                value == 1
            } else {
                before.direction_conforming
            }
            &&& after.executable == if low == 43 { value == 1 } else { before.executable }
            &&& after.type_ == if low == 44 { value == 1 } else { before.type_ }
            &&& after.dpl == if low == 45 { value as nat } else { before.dpl }
            &&& after.present == if low == 47 { value == 1 } else { before.present }
            &&& after.limit_high == if low == 48 { value as nat } else { before.limit_high }
            &&& after.reserved == if low == 52 { value == 1 } else { before.reserved }
            &&& after.long_mode == if low == 53 { value == 1 } else { before.long_mode }
            &&& after.size == if low == 54 { value == 1 } else { before.size }
            &&& after.granularity == if low == 55 { value == 1 } else { before.granularity }
            &&& after.base_high == if low == 56 { value as nat } else { before.base_high }
        }),
{
    lemma_field_stored(bits, low, width, value);
    lemma_store_keeps(bits, low, width, value, 0, 16);
    lemma_store_keeps(bits, low, width, value, 16, 16);
    lemma_store_keeps(bits, low, width, value, 32, 8);
    lemma_store_keeps(bits, low, width, value, 40, 1);
    lemma_store_keeps(bits, low, width, value, 41, 1);
    lemma_store_keeps(bits, low, width, value, 42, 1);
    lemma_store_keeps(bits, low, width, value, 43, 1);
    lemma_store_keeps(bits, low, width, value, 44, 1);
    lemma_store_keeps(bits, low, width, value, 45, 2);
    lemma_store_keeps(bits, low, width, value, 47, 1);
    lemma_store_keeps(bits, low, width, value, 48, 4);
    lemma_store_keeps(bits, low, width, value, 52, 1);
    lemma_store_keeps(bits, low, width, value, 53, 1);
    lemma_store_keeps(bits, low, width, value, 54, 1);
    lemma_store_keeps(bits, low, width, value, 55, 1);
    lemma_store_keeps(bits, low, width, value, 56, 8);
}

/// One descriptor of the table: base, limit and flags of a segment,
/// packed into eight bytes as the processor reads them.
#[derive(Clone, Copy, Debug, PartialEq, Eq)]
pub struct GdtSegmentSelector(u64);

impl View for GdtSegmentSelector {
    type V = GdtSegmentSelectorFields;

    open spec fn view(&self) -> GdtSegmentSelectorFields {
        gdt_segment_fields(self.bits())
    }
}

impl GdtSegmentSelector {
    /// The word that the segment descriptor is stored as.
    pub closed spec fn bits(self) -> u64 {
        self.0
    }

    /// The segment descriptor whose fields are all clear.
    pub fn new() -> (record: Self)
        ensures
            record.bits() == 0,
            record@ == gdt_segment_zero(),
    {
        proof {
            lemma_gdt_segment_zero();
        }
        Self(0)
    }

    /// The segment descriptor that is stored as `bits`.
    pub fn from_bits(bits: u64) -> (record: Self)
        ensures
            record.bits() == bits,
    {
        Self(bits)
    }

    /// The word that the segment descriptor is stored as.
    pub fn into_bits(self) -> (bits: u64)
        ensures
            bits == self.bits(),
    {
        self.0
    }

    /// Bits 0 to 15 of the segment limit.
    pub fn limit_low(&self) -> (value: u16)
        ensures
            value == self@.limit_low,
    {
        proof {
            lemma_low_masks();
        }
        get_field(self.0, 0, 16) as u16
    }

    /// The same segment descriptor with `limit_low` replaced by `value`.
    pub fn with_limit_low(self, value: u16) -> (record: Self)
        ensures
            record.bits() == with_field(self.bits(), 0, 16, value as u64),
            record@ == (GdtSegmentSelectorFields { limit_low: value as nat, ..self@ }),
    {
        proof {
            lemma_low_masks();
            lemma_gdt_segment_store(self.0, 0, 16, value as u64);
        }
        Self(set_field(self.0, 0, 16, value as u64))
    }

    /// Bits 0 to 15 of the segment base.
    pub fn base_low(&self) -> (value: u16)
        ensures
            value == self@.base_low,
    {
        proof {
            lemma_low_masks();
        }
        get_field(self.0, 16, 16) as u16
    }

    /// The same segment descriptor with `base_low` replaced by `value`.
    pub fn with_base_low(self, value: u16) -> (record: Self)
        ensures
            record.bits() == with_field(self.bits(), 16, 16, value as u64),
            record@ == (GdtSegmentSelectorFields { base_low: value as nat, ..self@ }),
    {
        proof {
            lemma_low_masks();
            lemma_gdt_segment_store(self.0, 16, 16, value as u64);
        }
        Self(set_field(self.0, 16, 16, value as u64))
    }

    /// Bits 16 to 23 of the segment base.
    pub fn base_mid(&self) -> (value: u8)
        ensures
            value == self@.base_mid,
    {
        proof {
            lemma_low_masks();
        }
        get_field(self.0, 32, 8) as u8
    }

    /// The same segment descriptor with `base_mid` replaced by `value`.
    pub fn with_base_mid(self, value: u8) -> (record: Self)
        ensures
            record.bits() == with_field(self.bits(), 32, 8, value as u64),
            record@ == (GdtSegmentSelectorFields { base_mid: value as nat, ..self@ }),
    {
        proof {
            lemma_low_masks();
            lemma_gdt_segment_store(self.0, 32, 8, value as u64);
        }
        Self(set_field(self.0, 32, 8, value as u64))
    }

    /// Whether the segment has been loaded.
    pub fn accessed(&self) -> (value: bool)
        ensures
            value == self@.accessed,
    {
        get_flag(self.0, 40)
    }

    /// The same segment descriptor with `accessed` replaced by `value`.
    pub fn with_accessed(self, value: bool) -> (record: Self)
        ensures
            record.bits() == with_flag(self.bits(), 40, value),
            record@ == (GdtSegmentSelectorFields { accessed: value, ..self@ }),
    {
        proof {
            lemma_flag_bits(value);
            lemma_gdt_segment_store(self.0, 40, 1, flag_bits(value));
        }
        Self(set_flag(self.0, 40, value))
    }

    /// Whether a data segment is writable, or a code segment readable.
    pub fn rw(&self) -> (value: bool)
        ensures
            value == self@.rw,
    {
        get_flag(self.0, 41)
    }

    /// The same segment descriptor with `rw` replaced by `value`.
    pub fn with_rw(self, value: bool) -> (record: Self)
        ensures
            record.bits() == with_flag(self.bits(), 41, value),
            record@ == (GdtSegmentSelectorFields { rw: value, ..self@ }),
    {
        proof {
            lemma_flag_bits(value);
            lemma_gdt_segment_store(self.0, 41, 1, flag_bits(value));
        }
        Self(set_flag(self.0, 41, value))
    }

    /// Whether a data segment grows down, or a code segment is conforming.
    pub fn direction_conforming(&self) -> (value: bool)
        ensures
            value == self@.direction_conforming,
    {
        get_flag(self.0, 42)
    }

    /// The same segment descriptor with `direction_conforming` replaced by `value`.
    pub fn with_direction_conforming(self, value: bool) -> (record: Self)
        ensures
            record.bits() == with_flag(self.bits(), 42, value),
            record@ == (GdtSegmentSelectorFields { direction_conforming: value, ..self@ }),
    {
        proof {
            lemma_flag_bits(value);
            lemma_gdt_segment_store(self.0, 42, 1, flag_bits(value));
        }
        Self(set_flag(self.0, 42, value))
    }

    /// Whether the segment holds code.
    pub fn executable(&self) -> (value: bool)
        ensures
            value == self@.executable,
    {
        get_flag(self.0, 43)
    }

    /// The same segment descriptor with `executable` replaced by `value`.
    pub fn with_executable(self, value: bool) -> (record: Self)
        ensures
            record.bits() == with_flag(self.bits(), 43, value),
            record@ == (GdtSegmentSelectorFields { executable: value, ..self@ }),
    {
        proof {
            lemma_flag_bits(value);
            lemma_gdt_segment_store(self.0, 43, 1, flag_bits(value));
        }
        Self(set_flag(self.0, 43, value))
    }

    /// Whether the descriptor is of a code or data segment, not of a system segment.
    pub fn type_(&self) -> (value: bool)
        ensures
            value == self@.type_,
    {
        get_flag(self.0, 44)
    }

    /// The same segment descriptor with `type_` replaced by `value`.
    pub fn with_type_(self, value: bool) -> (record: Self)
        ensures
            record.bits() == with_flag(self.bits(), 44, value),
            record@ == (GdtSegmentSelectorFields { type_: value, ..self@ }),
    {
        proof {
            lemma_flag_bits(value);
            lemma_gdt_segment_store(self.0, 44, 1, flag_bits(value));
        }
        Self(set_flag(self.0, 44, value))
    }

    /// The privilege level of the segment, 0 to 3.
    pub fn dpl(&self) -> (value: u64)
        ensures
            value == self@.dpl,
            value <= 3,
    {
        proof {
            lemma_low_masks();
        }
        get_field(self.0, 45, 2)
    }

    /// The same segment descriptor with `dpl` replaced by `value`.
    pub fn with_dpl(self, value: u64) -> (record: Self)
        requires
            value <= 3,
        ensures
            record.bits() == with_field(self.bits(), 45, 2, value as u64),
            record@ == (GdtSegmentSelectorFields { dpl: value as nat, ..self@ }),
    {
        proof {
            lemma_low_masks();
            lemma_gdt_segment_store(self.0, 45, 2, value as u64);
        }
        Self(set_field(self.0, 45, 2, value))
    }

    /// Whether the segment is present.
    pub fn present(&self) -> (value: bool)
        ensures
            value == self@.present,
    {
        get_flag(self.0, 47)
    }

    /// The same segment descriptor with `present` replaced by `value`.
    pub fn with_present(self, value: bool) -> (record: Self)
        ensures
            record.bits() == with_flag(self.bits(), 47, value),
            record@ == (GdtSegmentSelectorFields { present: value, ..self@ }),
    {
        proof {
            lemma_flag_bits(value);
            lemma_gdt_segment_store(self.0, 47, 1, flag_bits(value));
        }
        Self(set_flag(self.0, 47, value))
    }

    /// Bits 16 to 19 of the segment limit.
    pub fn limit_high(&self) -> (value: u64)
        ensures
            value == self@.limit_high,
            value <= 0xF,
    {
        proof {
            lemma_low_masks();
        }
        get_field(self.0, 48, 4)
    }

    /// The same segment descriptor with `limit_high` replaced by `value`.
    pub fn with_limit_high(self, value: u64) -> (record: Self)
        requires
            value <= 0xF,
        ensures
            record.bits() == with_field(self.bits(), 48, 4, value as u64),
            record@ == (GdtSegmentSelectorFields { limit_high: value as nat, ..self@ }),
    {
        proof {
            lemma_low_masks();
            lemma_gdt_segment_store(self.0, 48, 4, value as u64);
        }
        Self(set_field(self.0, 48, 4, value))
    }

    /// A bit left to software.
    pub fn reserved(&self) -> (value: bool)
        ensures
            value == self@.reserved,
    {
        get_flag(self.0, 52)
    }

    /// The same segment descriptor with `reserved` replaced by `value`.
    pub fn with_reserved(self, value: bool) -> (record: Self)
        ensures
            record.bits() == with_flag(self.bits(), 52, value),
            record@ == (GdtSegmentSelectorFields { reserved: value, ..self@ }),
    {
        proof {
            lemma_flag_bits(value);
            lemma_gdt_segment_store(self.0, 52, 1, flag_bits(value));
        }
        Self(set_flag(self.0, 52, value))
    }

    /// Whether the segment holds 64-bit code.
    pub fn long_mode(&self) -> (value: bool)
        ensures
            value == self@.long_mode,
    {
        get_flag(self.0, 53)
    }

    /// The same segment descriptor with `long_mode` replaced by `value`.
    pub fn with_long_mode(self, value: bool) -> (record: Self)
        ensures
            record.bits() == with_flag(self.bits(), 53, value),
            record@ == (GdtSegmentSelectorFields { long_mode: value, ..self@ }),
    {
        proof {
            lemma_flag_bits(value);
            lemma_gdt_segment_store(self.0, 53, 1, flag_bits(value));
        }
        Self(set_flag(self.0, 53, value))
    }

    /// Whether the default operand size is 32 bits.
    pub fn size(&self) -> (value: bool)
        ensures
            value == self@.size,
    {
        get_flag(self.0, 54)
    }

    /// The same segment descriptor with `size` replaced by `value`.
    pub fn with_size(self, value: bool) -> (record: Self)
        ensures
            record.bits() == with_flag(self.bits(), 54, value),
            record@ == (GdtSegmentSelectorFields { size: value, ..self@ }),
    {
        proof {
            lemma_flag_bits(value);
            lemma_gdt_segment_store(self.0, 54, 1, flag_bits(value));
        }
        Self(set_flag(self.0, 54, value))
    }

    /// Whether the limit counts 4 KiB units.
    pub fn granularity(&self) -> (value: bool)
        ensures
            value == self@.granularity,
    {
        get_flag(self.0, 55)
    }

    /// The same segment descriptor with `granularity` replaced by `value`.
    pub fn with_granularity(self, value: bool) -> (record: Self)
        ensures
            record.bits() == with_flag(self.bits(), 55, value),
            record@ == (GdtSegmentSelectorFields { granularity: value, ..self@ }),
    {
        proof {
            lemma_flag_bits(value);
            lemma_gdt_segment_store(self.0, 55, 1, flag_bits(value));
        }
        Self(set_flag(self.0, 55, value))
    }

    /// Bits 24 to 31 of the segment base.
    pub fn base_high(&self) -> (value: u8)
        ensures
            value == self@.base_high,
    {
        proof {
            lemma_low_masks();
        }
        get_field(self.0, 56, 8) as u8
    }

    /// The same segment descriptor with `base_high` replaced by `value`.
    pub fn with_base_high(self, value: u8) -> (record: Self)
        ensures
            record.bits() == with_field(self.bits(), 56, 8, value as u64),
            record@ == (GdtSegmentSelectorFields { base_high: value as nat, ..self@ }),
    {
        proof {
            lemma_low_masks();
            lemma_gdt_segment_store(self.0, 56, 8, value as u64);
        }
        Self(set_field(self.0, 56, 8, value as u64))
    }
}

/// The word of a flat code or data segment with privilege level 0 that is not
/// executable: limit `0xFFFFF` in 4 KiB units, base 0, writable, present,
/// with the long-mode and the operand-size flag set.
pub const FLAT_SEGMENT_BITS: u64 = 0x00EF_9200_0000_FFFF;

/// The word of the kernel's code segment.
pub const KERNEL_CODE_BITS: u64 = 0x00EF_9A00_0000_FFFF;

/// The word of the kernel's data segment.
pub const KERNEL_DATA_BITS: u64 = 0x00EF_9200_0000_FFFF;

/// The word of the code segment of user mode.
pub const USER_CODE_BITS: u64 = 0x00EF_FA00_0000_FFFF;

/// The word of the data segment of user mode.
pub const USER_DATA_BITS: u64 = 0x00EF_F200_0000_FFFF;

/// The fields that all four segments of the table share.
pub open spec fn flat_segment_fields() -> GdtSegmentSelectorFields {
    GdtSegmentSelectorFields {
        limit_low: 0xFFFF,
        limit_high: 0xF,
        rw: true,
        type_: true,
        present: true,
        long_mode: true,
        size: true,
        granularity: true,
        ..gdt_segment_zero()
    }
}

/// The fields of the flat segment with the given executable flag and
/// privilege level.
pub open spec fn segment_fields(executable: bool, dpl: nat) -> GdtSegmentSelectorFields {
    GdtSegmentSelectorFields { executable, dpl, ..flat_segment_fields() }
}

/// The words that the builders give for the segments of the table.
proof fn lemma_segment_words()
    by (bit_vector)
    ensures
        with_field(
            with_field(
                with_field(
                    with_field(
                        with_field(
                            with_field(
                                with_field(
                                    with_field(with_field(0, 0, 16, 0xFFFF), 48, 4, 0xF),
                                    41,
                                    1,
                                    1,
                                ),
                                42,
                                1,
                                0,
                            ),
                            44,
                            1,
                            1,
                        ),
                        47,
                        1,
                        1,
                    ),
                    53,
                    1,
                    1,
                ),
                54,
                1,
                1,
            ),
            55,
            1,
            1,
        ) == 0x00EF_9200_0000_FFFFu64,
        with_field(0x00EF_9200_0000_FFFFu64, 43, 1, 1) == 0x00EF_9A00_0000_FFFFu64,
        with_field(0x00EF_9200_0000_FFFFu64, 43, 1, 0) == 0x00EF_9200_0000_FFFFu64,
        with_field(0x00EF_9A00_0000_FFFFu64, 45, 2, 0) == 0x00EF_9A00_0000_FFFFu64,
        with_field(0x00EF_9200_0000_FFFFu64, 45, 2, 0) == 0x00EF_9200_0000_FFFFu64,
        with_field(0x00EF_9A00_0000_FFFFu64, 45, 2, 3) == 0x00EF_FA00_0000_FFFFu64,
        with_field(0x00EF_9200_0000_FFFFu64, 45, 2, 3) == 0x00EF_F200_0000_FFFFu64,
{
}

impl GdtSegmentSelector {
    /// The null descriptor: all bits clear.
    pub fn null() -> (descriptor: Self)
        ensures
            descriptor.bits() == 0,
            descriptor@ == gdt_segment_zero(),
    {
        proof {
            lemma_gdt_segment_zero();
        }
        Self::from_bits(0)
    }

    /// The flat segment that the four segments of the table are made from:
    /// privilege level 0, not executable.
    pub fn base() -> (descriptor: Self)
        ensures
            descriptor.bits() == FLAT_SEGMENT_BITS,
            descriptor@ == flat_segment_fields(),
    {
        proof {
            lemma_gdt_segment_zero();
            lemma_segment_words();
        }
        Self::from_bits(0).with_limit_low(0xFFFF).with_limit_high(0xF).with_rw(
            true,
        ).with_direction_conforming(false).with_type_(true).with_present(true).with_long_mode(
            true,
        ).with_size(true).with_granularity(true)
    }

    /// The flat code segment with privilege level 0.
    pub fn code() -> (descriptor: Self)
        ensures
            descriptor.bits() == KERNEL_CODE_BITS,
            descriptor@ == segment_fields(true, 0),
    {
        proof {
            lemma_segment_words();
        }
        Self::base().with_executable(true)
    }

    /// The flat data segment with privilege level 0.
    pub fn data() -> (descriptor: Self)
        ensures
            descriptor.bits() == KERNEL_DATA_BITS,
            descriptor@ == segment_fields(false, 0),
    {
        proof {
            lemma_segment_words();
        }
        Self::base().with_executable(false)
    }

    /// The code segment of the kernel.
    pub fn kernel_code() -> (descriptor: Self)
        ensures
            descriptor.bits() == KERNEL_CODE_BITS,
            descriptor@ == segment_fields(true, 0),
    {
        proof {
            lemma_segment_words();
        }
        Self::code().with_dpl(0)
    }

    /// The data segment of the kernel.
    pub fn kernel_data() -> (descriptor: Self)
        ensures
            descriptor.bits() == KERNEL_DATA_BITS,
            descriptor@ == segment_fields(false, 0),
    {
        proof {
            lemma_segment_words();
        }
        Self::data().with_dpl(0)
    }

    /// The code segment of user mode.
    pub fn user_code() -> (descriptor: Self)
        ensures
            descriptor.bits() == USER_CODE_BITS,
            descriptor@ == segment_fields(true, 3),
    {
        proof {
            lemma_segment_words();
        }
        Self::code().with_dpl(3)
    }

    /// The data segment of user mode.
    pub fn user_data() -> (descriptor: Self)
        ensures
            descriptor.bits() == USER_DATA_BITS,
            descriptor@ == segment_fields(false, 3),
    {
        proof {
            lemma_segment_words();
        }
        Self::data().with_dpl(3)
    }

    /// The eight bytes that the descriptor is stored as.
    pub fn to_bytes(self) -> (bytes: [u8; 8])
        ensures
            bytes@ == u64_le(self.bits()),
    {
        let mut bytes = [0u8; 8];
        write_u64(&mut bytes, 0, self.0);
        assert(bytes@ =~= u64_le(self.0));
        bytes
    }

    /// The descriptor that is stored as `bytes`.
    pub fn from_bytes(bytes: &[u8; 8]) -> (descriptor: Self)
        ensures
            descriptor.bits() == u64_from_le(bytes@, 0),
    {
        Self(read_u64(bytes.as_slice(), 0))
    }
}

/// A descriptor that was built with a privilege level, an executable flag and
/// a present bit, on any template, holds those three after it was written as
/// bytes and read back.
pub proof fn lemma_descriptor_round_trip(template: u64, dpl: u64, executable: bool, present: bool)
    requires
        dpl <= 3,
    ensures
        ({
            let built = with_flag(
                with_flag(with_field(template, 45, 2, dpl), 43, executable),
                47,
                present,
            );
            let decoded = gdt_segment_fields(u64_from_le(u64_le(built), 0));
            &&& u64_from_le(u64_le(built), 0) == built
            &&& decoded.dpl == dpl
            &&& decoded.executable == executable
            &&& decoded.present == present
        }),
{
    lemma_low_masks();
    lemma_flag_bits(executable);
    lemma_flag_bits(present);
    let first = with_field(template, 45, 2, dpl);
    let second = with_flag(first, 43, executable);
    let built = with_flag(second, 47, present);
    lemma_gdt_segment_store(template, 45, 2, dpl);
    lemma_gdt_segment_store(first, 43, 1, flag_bits(executable));
    lemma_gdt_segment_store(second, 47, 1, flag_bits(present));
    assert(u64_le(built).subrange(0, 8) =~= u64_le(built));
    lemma_u64_round_trip(u64_le(built), 0, built);
}

/// Number of descriptors in the table.
pub const GDT_ENTRIES: usize = 5;

/// Number of bytes that the table takes.
pub const GDT_BYTES: usize = 40;

/// The segment descriptor table.
#[derive(Clone, Copy, Debug, PartialEq, Eq)]
pub struct Gdt {
    null: GdtSegmentSelector,
    kcode: GdtSegmentSelector,
    kdata: GdtSegmentSelector,
    ucode: GdtSegmentSelector,
    udata: GdtSegmentSelector,
}

impl View for Gdt {
    type V = Seq<GdtSegmentSelector>;

    /// The descriptors in the order of the table.
    closed spec fn view(&self) -> Seq<GdtSegmentSelector> {
        seq![self.null, self.kcode, self.kdata, self.ucode, self.udata]
    }
}

/// The bytes of a table of five descriptors: the bytes of each, in order.
pub open spec fn table_bytes(descriptors: Seq<GdtSegmentSelector>) -> Seq<u8> {
    u64_le(descriptors[0].bits()) + u64_le(descriptors[1].bits()) + u64_le(descriptors[2].bits())
        + u64_le(descriptors[3].bits()) + u64_le(descriptors[4].bits())
}

/// The bytes of a table hold the bytes of each descriptor at eight times its
/// index.
pub proof fn lemma_table_slots(descriptors: Seq<GdtSegmentSelector>)
    requires
        descriptors.len() == GDT_ENTRIES,
    ensures
        table_bytes(descriptors).len() == GDT_BYTES,
        forall|k: int|
            0 <= k < GDT_ENTRIES ==> #[trigger] table_bytes(descriptors).subrange(8 * k, 8 * k + 8)
                == u64_le(descriptors[k].bits()),
{
    let w0 = u64_le(descriptors[0].bits());
    let w1 = u64_le(descriptors[1].bits());
    let w2 = u64_le(descriptors[2].bits());
    let w3 = u64_le(descriptors[3].bits());
    let w4 = u64_le(descriptors[4].bits());
    lemma_le_lengths(0, 0, descriptors[0].bits());
    lemma_le_lengths(0, 0, descriptors[1].bits());
    lemma_le_lengths(0, 0, descriptors[2].bits());
    lemma_le_lengths(0, 0, descriptors[3].bits());
    lemma_le_lengths(0, 0, descriptors[4].bits());
    let p2 = w0 + w1;
    let p3 = p2 + w2;
    let p4 = p3 + w3;
    let all = p4 + w4;
    assert(all == table_bytes(descriptors));
    lemma_joined_parts(w0, w1);
    lemma_joined_parts(p2, w2);
    lemma_joined_parts(p3, w3);
    lemma_joined_parts(p4, w4);
    lemma_part_of_part(all, 32, 24, 32);
    lemma_part_of_part(all, 32, 0, 24);
    lemma_part_of_part(all, 24, 16, 24);
    lemma_part_of_part(all, 24, 0, 16);
    lemma_part_of_part(all, 16, 8, 16);
    lemma_part_of_part(all, 16, 0, 8);
    assert(all.subrange(32, 40) == w4);
    assert(all.subrange(24, 32) == w3);
    assert(all.subrange(16, 24) == w2);
    assert(all.subrange(8, 16) == w1);
    assert(all.subrange(0, 8) == w0);
    assert forall|k: int| 0 <= k < GDT_ENTRIES implies #[trigger] all.subrange(8 * k, 8 * k + 8)
        == u64_le(descriptors[k].bits()) by {
        if k == 0 {
        } else if k == 1 {
        } else if k == 2 {
        } else if k == 3 {
        } else {
        }
    }
}

/// Every descriptor of a table reads back from the bytes of the table, at
/// eight times its index.
pub proof fn lemma_table_round_trip(descriptors: Seq<GdtSegmentSelector>, index: int)
    requires
        descriptors.len() == GDT_ENTRIES,
        0 <= index < GDT_ENTRIES,
    ensures
        u64_from_le(table_bytes(descriptors), 8 * index) == descriptors[index].bits(),
{
    lemma_table_slots(descriptors);
    let bytes = table_bytes(descriptors);
    assert(bytes.subrange(8 * index, 8 * index + 8) == u64_le(descriptors[index].bits()));
    lemma_u64_round_trip(bytes, 8 * index, descriptors[index].bits());
}

impl Gdt {
    /// Byte offset of the kernel's code descriptor in the table: the selector
    /// of the kernel's code segment.
    pub const KERNEL_CODE_SELECTOR: usize = 8;

    /// Byte offset of the kernel's data descriptor in the table.
    pub const KERNEL_DATA_SELECTOR: usize = 16;

    /// Byte offset of the code descriptor of user mode in the table.
    pub const USER_CODE_SELECTOR: usize = 24;

    /// Byte offset of the data descriptor of user mode in the table.
    pub const USER_DATA_SELECTOR: usize = 32;

    /// The table: null, kernel code, kernel data, user code, user data.
    pub fn new() -> (table: Self)
        ensures
            table@.len() == 5,
            table@[0].bits() == 0,
            table@[1].bits() == KERNEL_CODE_BITS,
            table@[2].bits() == KERNEL_DATA_BITS,
            table@[3].bits() == USER_CODE_BITS,
            table@[4].bits() == USER_DATA_BITS,
            table@[0]@ == gdt_segment_zero(),
            table@[1]@ == segment_fields(true, 0),
            table@[2]@ == segment_fields(false, 0),
            table@[3]@ == segment_fields(true, 3),
            table@[4]@ == segment_fields(false, 3),
    {
        Self {
            null: GdtSegmentSelector::null(),
            kcode: GdtSegmentSelector::kernel_code(),
            kdata: GdtSegmentSelector::kernel_data(),
            ucode: GdtSegmentSelector::user_code(),
            udata: GdtSegmentSelector::user_data(),
        }
    }

    /// The descriptor at `index` of the table, where the table has one.
    pub fn descriptor(&self, index: usize) -> (descriptor: Option<GdtSegmentSelector>)
        ensures
            index < GDT_ENTRIES <==> descriptor.is_some(),
            descriptor matches Some(d) ==> d == self@[index as int],
    {
        if index == 0 {
            Some(self.null)
        } else if index == 1 {
            Some(self.kcode)
        } else if index == 2 {
            Some(self.kdata)
        } else if index == 3 {
            Some(self.ucode)
        } else if index == 4 {
            Some(self.udata)
        } else {
            None
        }
    }

    /// The 40 bytes of the table as the processor reads them. The descriptor
    /// of each segment starts at the byte offset that its selector names.
    pub fn to_bytes(&self) -> (bytes: [u8; 40])
        ensures
            bytes@ == table_bytes(self@),
            bytes@.subrange(0, 8) == u64_le(self@[0].bits()),
            bytes@.subrange(Self::KERNEL_CODE_SELECTOR as int, Self::KERNEL_CODE_SELECTOR + 8)
                == u64_le(self@[1].bits()),
            bytes@.subrange(Self::KERNEL_DATA_SELECTOR as int, Self::KERNEL_DATA_SELECTOR + 8)
                == u64_le(self@[2].bits()),
            bytes@.subrange(Self::USER_CODE_SELECTOR as int, Self::USER_CODE_SELECTOR + 8)
                == u64_le(self@[3].bits()),
            bytes@.subrange(Self::USER_DATA_SELECTOR as int, Self::USER_DATA_SELECTOR + 8)
                == u64_le(self@[4].bits()),
    {
        let mut bytes = [0u8; 40];
        write_u64(&mut bytes, 0, self.null.into_bits());
        write_u64(&mut bytes, 8, self.kcode.into_bits());
        write_u64(&mut bytes, 16, self.kdata.into_bits());
        write_u64(&mut bytes, 24, self.ucode.into_bits());
        write_u64(&mut bytes, 32, self.udata.into_bits());
        proof {
            assert(bytes@ =~= table_bytes(self@));
            lemma_table_slots(self@);
            assert(bytes@.subrange(8 * 0int, 8 * 0int + 8) == u64_le(self@[0].bits()));
            assert(bytes@.subrange(8 * 1int, 8 * 1int + 8) == u64_le(self@[1].bits()));
            assert(bytes@.subrange(8 * 2int, 8 * 2int + 8) == u64_le(self@[2].bits()));
            assert(bytes@.subrange(8 * 3int, 8 * 3int + 8) == u64_le(self@[3].bits()));
            assert(bytes@.subrange(8 * 4int, 8 * 4int + 8) == u64_le(self@[4].bits()));
        }
        bytes
    }

    /// The image of the table register for a table that lies at address
    /// `base`.
    pub fn register(&self, base: u64) -> (image: Gdtr64)
        ensures
            image.size == GDT_BYTES - 1,
            image.offset == base,
    {
        Gdtr64 { size: 39, offset: base }
    }
}

/// Number of bytes that the image of the table register takes.
pub const GDTR_BYTES: usize = 10;

/// The image of the table register: what the processor loads to find the
/// table.
#[derive(Clone, Copy, Debug, PartialEq, Eq)]
pub struct Gdtr64 {
    /// Number of bytes of the table, less one.
    pub size: u16,
    /// Address of the table.
    pub offset: u64,
}

/// The ten bytes of the image of the table register: `size`, then `offset`.
pub open spec fn register_bytes(image: Gdtr64) -> Seq<u8> {
    u16_le(image.size) + u64_le(image.offset)
}

impl Gdtr64 {
    /// Byte offset of `offset` in the image.
    pub const GDTR_OFFSET: usize = 2;

    /// The ten bytes of the image as the processor reads them: `offset`
    /// starts at byte `GDTR_OFFSET`.
    pub fn to_bytes(&self) -> (bytes: [u8; 10])
        ensures
            bytes@ == register_bytes(*self),
            bytes@.subrange(0, Self::GDTR_OFFSET as int) == u16_le(self.size),
            bytes@.subrange(Self::GDTR_OFFSET as int, Self::GDTR_OFFSET + 8) == u64_le(
                self.offset,
            ),
    {
        let mut bytes = [0u8; 10];
        write_u16(&mut bytes, 0, self.size);
        write_u64(&mut bytes, 2, self.offset);
        assert(bytes@ =~= register_bytes(*self));
        assert(bytes@.subrange(0, 2) =~= u16_le(self.size));
        assert(bytes@.subrange(2, 10) =~= u64_le(self.offset));
        bytes
    }
}

/// Eight bytes written at `GDTR_OFFSET` of an image replace its `offset` and
/// nothing else: the constant is the place of that field, whatever the image
/// holds.
pub proof fn lemma_offset_place(image: Gdtr64, offset: u64)
    ensures
        register_bytes(image).len() == GDTR_BYTES,
        register_bytes(image).subrange(0, Gdtr64::GDTR_OFFSET as int) + u64_le(offset)
            == register_bytes(Gdtr64 { offset, ..image }),
        u64_from_le(register_bytes(image), Gdtr64::GDTR_OFFSET as int) == image.offset,
{
    let bytes = register_bytes(image);
    assert(bytes.subrange(0, 2) + u64_le(offset) =~= register_bytes(Gdtr64 { offset, ..image }));
    assert(bytes.subrange(2, 10) =~= u64_le(image.offset));
    lemma_u64_round_trip(bytes, 2, image.offset);
}

} // verus!
