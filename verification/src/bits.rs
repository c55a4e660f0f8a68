//! Bit fields packed in one 64-bit word.
//!
//! A field is a run of `width` bits that starts `low` bits above the least
//! significant bit of its word. Hardware records are built from such fields
//! by shifting and masking, so that every field has exactly the position that
//! the hardware manual gives it.

use vstd::prelude::*;

verus! {

/// The word whose lowest `width` bits are set and whose other bits are clear.
pub open spec fn low_mask(width: u64) -> u64 {
    !(0xFFFF_FFFF_FFFF_FFFFu64 << width)
}

/// The value held in the field `[low, low + width)` of `word`.
pub open spec fn field(word: u64, low: u64, width: u64) -> u64 {
    (word >> low) & low_mask(width)
}

/// `word` with the field `[low, low + width)` replaced by `value`.
pub open spec fn with_field(word: u64, low: u64, width: u64, value: u64) -> u64 {
    (word & !(low_mask(width) << low)) | ((value & low_mask(width)) << low)
}

/// Whether the bit at position `pos` of `word` is set.
pub open spec fn flag(word: u64, pos: u64) -> bool {
    field(word, pos, 1) == 1
}

/// The one-bit field value that stands for `value`.
pub open spec fn flag_bits(value: bool) -> u64 {
    if value {
        1
    } else {
        0
    }
}

/// `word` with the bit at position `pos` set to `value`.
pub open spec fn with_flag(word: u64, pos: u64, value: bool) -> u64 {
    with_field(word, pos, 1, flag_bits(value))
}

/// Whether `[low, low + width)` is a field of a 64-bit word that is narrower
/// than the word itself.
pub open spec fn is_field(low: u64, width: u64) -> bool {
    low < 64 && width < 64 && low + width <= 64
}

/// Whether two fields share no bit.
pub open spec fn disjoint(low_a: u64, width_a: u64, low_b: u64, width_b: u64) -> bool {
    low_a + width_a <= low_b || low_b + width_b <= low_a
}

/// A field reads back the value that was stored in it.
pub proof fn lemma_field_stored(word: u64, low: u64, width: u64, value: u64)
    by (bit_vector)
    requires
        low < 64 && width < 64 && low + width <= 64,
        value <= low_mask(width),
    ensures
        field(with_field(word, low, width, value), low, width) == value,
{
}

/// Storing into one field leaves every field disjoint from it as it was.
pub proof fn lemma_field_kept(
    word: u64,
    low: u64,
    width: u64,
    value: u64,
    other_low: u64,
    other_width: u64,
)
    by (bit_vector)
    requires
        low < 64 && width < 64 && low + width <= 64,
        other_low < 64 && other_width < 64 && other_low + other_width <= 64,
        low + width <= other_low || other_low + other_width <= low,
    ensures
        field(with_field(word, low, width, value), other_low, other_width) == field(
            word,
            other_low,
            other_width,
        ),
{
}

/// Storing into one field leaves another field as it was, where the two
/// share no bit; it says nothing of a field that overlaps the first.
pub proof fn lemma_store_keeps(
    word: u64,
    low: u64,
    width: u64,
    value: u64,
    other_low: u64,
    other_width: u64,
)
    requires
        is_field(low, width),
        is_field(other_low, other_width),
    ensures
        disjoint(low, width, other_low, other_width) ==> field(
            with_field(word, low, width, value),
            other_low,
            other_width,
        ) == field(word, other_low, other_width),
{
    if disjoint(low, width, other_low, other_width) {
        lemma_field_kept(word, low, width, value, other_low, other_width);
    }
}

/// The one-bit value of a flag is at most the mask of one bit, and is 1
/// exactly when the flag is set.
pub proof fn lemma_flag_bits(value: bool)
    ensures
        low_mask(1) == 1,
        flag_bits(value) <= low_mask(1),
        (flag_bits(value) == 1) == value,
{
    assert(low_mask(1) == 1) by (bit_vector);
}

/// Storing into a field the value that it holds leaves the word as it was.
pub proof fn lemma_field_restored(word: u64, low: u64, width: u64)
    by (bit_vector)
    requires
        low < 64 && width < 64 && low + width <= 64,
    ensures
        with_field(word, low, width, field(word, low, width)) == word,
{
}

/// Setting a flag to the value that it has leaves the word as it was.
pub proof fn lemma_flag_restored(word: u64, pos: u64, value: bool)
    requires
        pos < 64,
        flag(word, pos) == value,
    ensures
        with_flag(word, pos, value) == word,
{
    lemma_flag_bits(value);
    lemma_field_bounds(word, pos, 1);
    lemma_field_restored(word, pos, 1);
}

/// Setting the lowest bit of the zero word gives the word one.
pub proof fn lemma_lowest_flag()
    ensures
        with_flag(0, 0, true) == 1,
{
    assert(with_field(0, 0, 1, 1) == 1) by (bit_vector);
}

/// The masks of the field widths that the hardware records use.
pub proof fn lemma_low_masks()
    by (bit_vector)
    ensures
        low_mask(1) == 1,
        low_mask(2) == 3,
        low_mask(3) == 7,
        low_mask(4) == 0xF,
        low_mask(7) == 0x7F,
        low_mask(8) == 0xFF,
        low_mask(11) == 0x7FF,
        low_mask(16) == 0xFFFF,
        low_mask(40) == 0xFF_FFFF_FFFF,
{
}

/// Every field of the zero word is zero, and a field never exceeds its mask.
pub proof fn lemma_field_bounds(word: u64, low: u64, width: u64)
    by (bit_vector)
    requires
        low < 64 && width < 64 && low + width <= 64,
    ensures
        field(0, low, width) == 0,
        field(word, low, width) <= low_mask(width),
{
}

/// Storing into a field that lies within the lowest byte of a word that fits
/// in a byte gives a word that fits in a byte.
pub proof fn lemma_with_field_in_byte(word: u64, low: u64, width: u64, value: u64)
    by (bit_vector)
    requires
        low + width <= 8,
        word <= 0xFF,
    ensures
        with_field(word, low, width, value) <= 0xFF,
{
}

/// Reads the field `[low, low + width)` of `word`.
pub fn get_field(word: u64, low: u64, width: u64) -> (value: u64)
    requires
        is_field(low, width),
    ensures
        value == field(word, low, width),
        value <= low_mask(width),
{
    proof {
        lemma_field_bounds(word, low, width);
    }
    (word >> low) & !(0xFFFF_FFFF_FFFF_FFFFu64 << width)
}

/// Stores `value` in the field `[low, low + width)` of `word`.
pub fn set_field(word: u64, low: u64, width: u64, value: u64) -> (stored: u64)
    requires
        is_field(low, width),
        value <= low_mask(width),
    ensures
        stored == with_field(word, low, width, value),
        field(stored, low, width) == value,
{
    proof {
        lemma_field_stored(word, low, width, value);
    }
    let mask: u64 = !(0xFFFF_FFFF_FFFF_FFFFu64 << width);
    (word & !(mask << low)) | ((value & mask) << low)
}

/// Reads the bit at position `pos` of `word`.
pub fn get_flag(word: u64, pos: u64) -> (value: bool)
    requires
        pos < 64,
    ensures
        value == flag(word, pos),
{
    get_field(word, pos, 1) == 1
}

/// Sets the bit at position `pos` of `word` to `value`.
pub fn set_flag(word: u64, pos: u64, value: bool) -> (stored: u64)
    requires
        pos < 64,
    ensures
        stored == with_flag(word, pos, value),
        flag(stored, pos) == value,
{
    proof {
        lemma_flag_bits(value);
    }
    let bits: u64 = if value {
        1
    } else {
        0
    };
    set_field(word, pos, 1, bits)
}

} // verus!
