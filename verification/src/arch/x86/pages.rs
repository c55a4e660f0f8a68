//! Entries and tables of the paging hierarchy with 4 KiB pages.
//!
//! Every level of the hierarchy is a table of 512 entries of 8 bytes. An entry
//! of a level above the last points to a table of the next level down; an
//! entry of the last level, a [`Pte`], maps one 4 KiB page to a frame. The
//! tables built here are filled once, before paging is switched on, and map
//! the first 2 MiB of memory to themselves, except the page at address zero.

use vstd::prelude::*;
use crate::bits::{
    field, flag, flag_bits, get_field, get_flag, lemma_field_bounds, lemma_field_stored,
    lemma_flag_bits, lemma_flag_restored, lemma_low_masks, lemma_lowest_flag, lemma_store_keeps,
    low_mask, set_field, set_flag, with_field, with_flag,
};

verus! {

/// Number of entries in a table of any level.
pub const TABLE_ENTRIES: usize = 512;

/// Number of bytes that one entry of the last level maps.
pub const PAGE_BYTES: usize = 4096;

/// Number of bytes that the identity mapping spans, the unmapped first page
/// included.
pub const IDENTITY_MAPPED_BYTES: usize = 2097152;

/// The fields of a level-5 entry, unpacked.
pub struct Pml5te4kFields {
    /// Whether the entry is in use (bit 0).
    pub present: bool,
    /// Whether writes are allowed below the entry (bit 1).
    pub rw: bool,
    /// Whether user-mode accesses are allowed below the entry (bit 2).
    pub user: bool,
    /// Whether the referenced table is cached write-through (bit 3).
    pub write_through: bool,
    /// Whether caching of the referenced table is disabled (bit 4).
    pub cache_disable: bool,
    /// Whether the entry has been used to find a frame (bit 5).
    pub accessed: bool,
    /// Bits that the processor ignores or reserves (bits 6..9).
    pub reserved: nat,
    /// Bits left to software (bits 9..12).
    pub available_2: nat,
    /// Frame number of the level-4 table that the entry points to (bits 12..52).
    pub pml4_paddr: nat,
    /// Bits left to software (bits 52..63).
    pub available_3: nat,
    /// Whether instruction fetches are forbidden below the entry (bit 63).
    pub nx: bool,
}

/// The fields that the word `bits` holds when it is read as a level-5 entry.
pub open spec fn pml5te_fields(bits: u64) -> Pml5te4kFields {
    Pml5te4kFields {
        present: flag(bits, 0),
        rw: flag(bits, 1),
        user: flag(bits, 2),
        write_through: flag(bits, 3),
        cache_disable: flag(bits, 4),
        accessed: flag(bits, 5),
        reserved: field(bits, 6, 3) as nat,
        available_2: field(bits, 9, 3) as nat,
        pml4_paddr: field(bits, 12, 40) as nat,
        available_3: field(bits, 52, 11) as nat,
        nx: flag(bits, 63),
    }
}

/// The fields of the level-5 entry whose bits are all clear.
pub open spec fn pml5te_zero() -> Pml5te4kFields {
    Pml5te4kFields {
        present: false,
        rw: false,
        user: false,
        write_through: false,
        cache_disable: false,
        accessed: false,
        reserved: 0,
        available_2: 0,
        pml4_paddr: 0,
        available_3: 0,
        nx: false,
    }
}

/// Whether `[low, low + width)` is one of the fields of a level-5 entry.
pub open spec fn is_pml5te_field(low: u64, width: u64) -> bool {
    ||| (low == 0 && width == 1)
    ||| (low == 1 && width == 1)
    ||| (low == 2 && width == 1)
    ||| (low == 3 && width == 1)
    ||| (low == 4 && width == 1)
    ||| (low == 5 && width == 1)
    ||| (low == 6 && width == 3)
    ||| (low == 9 && width == 3)
    ||| (low == 12 && width == 40)
    ||| (low == 52 && width == 11)
    ||| (low == 63 && width == 1)
}

/// The word zero holds the level-5 entry whose fields are all clear.
pub proof fn lemma_pml5te_zero()
    ensures
        pml5te_fields(0) == pml5te_zero(),
{
    lemma_field_bounds(0, 0, 1);
    lemma_field_bounds(0, 1, 1);
    lemma_field_bounds(0, 2, 1);
    lemma_field_bounds(0, 3, 1);
    lemma_field_bounds(0, 4, 1);
    lemma_field_bounds(0, 5, 1);
    lemma_field_bounds(0, 6, 3);
    lemma_field_bounds(0, 9, 3);
    lemma_field_bounds(0, 12, 40);
    lemma_field_bounds(0, 52, 11);
    lemma_field_bounds(0, 63, 1);
}

/// The fields of a level-5 entry take up the whole word: two words that hold the
/// same fields are the same word.
pub proof fn lemma_pml5te_fields_cover(a: u64, b: u64)
    requires
        pml5te_fields(a) == pml5te_fields(b),
    ensures
        a == b,
{
    assert(a == b) by (bit_vector)
        requires
            flag(a, 0) == flag(b, 0),
            flag(a, 1) == flag(b, 1),
            flag(a, 2) == flag(b, 2),
            flag(a, 3) == flag(b, 3),
            flag(a, 4) == flag(b, 4),
            flag(a, 5) == flag(b, 5),
            field(a, 6, 3) == field(b, 6, 3),
            field(a, 9, 3) == field(b, 9, 3),
            field(a, 12, 40) == field(b, 12, 40),
            field(a, 52, 11) == field(b, 52, 11),
            flag(a, 63) == flag(b, 63),
    ;
}

/// Storing into one field of a level-5 entry changes that field and no other.
pub proof fn lemma_pml5te_store(bits: u64, low: u64, width: u64, value: u64)
    requires
        is_pml5te_field(low, width),
        value <= low_mask(width),
    ensures
        ({
            let before = pml5te_fields(bits);
            let after = pml5te_fields(with_field(bits, low, width, value));
            &&& after.present == if low == 0 { value == 1 } else { before.present }
            &&& after.rw == if low == 1 { value == 1 } else { before.rw }
            &&& after.user == if low == 2 { value == 1 } else { before.user }
            &&& after.write_through == if low == 3 { value == 1 } else { before.write_through }
            &&& after.cache_disable == if low == 4 { value == 1 } else { before.cache_disable }
            &&& after.accessed == if low == 5 { value == 1 } else { before.accessed }
            &&& after.reserved == if low == 6 { value as nat } else { before.reserved }
            &&& after.available_2 == if low == 9 { value as nat } else { before.available_2 }
            &&& after.pml4_paddr == if low == 12 { value as nat } else { before.pml4_paddr }
            &&& after.available_3 == if low == 52 { value as nat } else { before.available_3 }
            &&& after.nx == if low == 63 { value == 1 } else { before.nx }
        }),
{
    lemma_field_stored(bits, low, width, value);
    lemma_store_keeps(bits, low, width, value, 0, 1);
    lemma_store_keeps(bits, low, width, value, 1, 1);
    lemma_store_keeps(bits, low, width, value, 2, 1);
    lemma_store_keeps(bits, low, width, value, 3, 1);
    lemma_store_keeps(bits, low, width, value, 4, 1);
    lemma_store_keeps(bits, low, width, value, 5, 1);
    lemma_store_keeps(bits, low, width, value, 6, 3);
    lemma_store_keeps(bits, low, width, value, 9, 3);
    lemma_store_keeps(bits, low, width, value, 12, 40);
    lemma_store_keeps(bits, low, width, value, 52, 11);
    lemma_store_keeps(bits, low, width, value, 63, 1);
}

/// An entry of the level-5 table: a pointer to a level-4 table.
#[derive(Clone, Copy, Debug, PartialEq, Eq)]
pub struct Pml5te4k(u64);

impl View for Pml5te4k {
    type V = Pml5te4kFields;

    open spec fn view(&self) -> Pml5te4kFields {
        pml5te_fields(self.bits())
    }
}

impl Pml5te4k {
    /// The word that the level-5 entry is stored as.
    pub closed spec fn bits(self) -> u64 {
        self.0
    }

    /// The level-5 entry whose fields are all clear.
    pub fn new() -> (record: Self)
        ensures
            record.bits() == 0,
            record@ == pml5te_zero(),
    {
        proof {
            lemma_pml5te_zero();
        }
        Self(0)
    }

    /// The level-5 entry that is stored as `bits`.
    pub fn from_bits(bits: u64) -> (record: Self)
        ensures
            record.bits() == bits,
    {
        Self(bits)
    }

    /// The word that the level-5 entry is stored as.
    pub fn into_bits(self) -> (bits: u64)
        ensures
            bits == self.bits(),
    {
        self.0
    }

    /// Whether the entry is in use.
    pub fn present(&self) -> (value: bool)
        ensures
            value == self@.present,
    {
        get_flag(self.0, 0)
    }

    /// The same level-5 entry with `present` replaced by `value`.
    pub fn with_present(self, value: bool) -> (record: Self)
        ensures
            record.bits() == with_flag(self.bits(), 0, value),
            record@ == (Pml5te4kFields { present: value, ..self@ }),
    {
        proof {
            lemma_flag_bits(value);
            lemma_pml5te_store(self.0, 0, 1, flag_bits(value));
        }
        Self(set_flag(self.0, 0, value))
    }

    /// Whether writes are allowed below the entry.
    pub fn rw(&self) -> (value: bool)
        ensures
            value == self@.rw,
    {
        get_flag(self.0, 1)
    }

    /// The same level-5 entry with `rw` replaced by `value`.
    pub fn with_rw(self, value: bool) -> (record: Self)
        ensures
            record.bits() == with_flag(self.bits(), 1, value),
            record@ == (Pml5te4kFields { rw: value, ..self@ }),
    {
        proof {
            lemma_flag_bits(value);
            lemma_pml5te_store(self.0, 1, 1, flag_bits(value));
        }
        Self(set_flag(self.0, 1, value))
    }

    /// Whether user-mode accesses are allowed below the entry.
    pub fn user(&self) -> (value: bool)
        ensures
            value == self@.user,
    {
        get_flag(self.0, 2)
    }

    /// The same level-5 entry with `user` replaced by `value`.
    pub fn with_user(self, value: bool) -> (record: Self)
        ensures
            record.bits() == with_flag(self.bits(), 2, value),
            record@ == (Pml5te4kFields { user: value, ..self@ }),
    {
        proof {
            lemma_flag_bits(value);
            lemma_pml5te_store(self.0, 2, 1, flag_bits(value));
        }
        Self(set_flag(self.0, 2, value))
    }

    /// Whether the referenced table is cached write-through.
    pub fn write_through(&self) -> (value: bool)
        ensures
            value == self@.write_through,
    {
        get_flag(self.0, 3)
    }

    /// The same level-5 entry with `write_through` replaced by `value`.
    pub fn with_write_through(self, value: bool) -> (record: Self)
        ensures
            record.bits() == with_flag(self.bits(), 3, value),
            record@ == (Pml5te4kFields { write_through: value, ..self@ }),
    {
        proof {
            lemma_flag_bits(value);
            lemma_pml5te_store(self.0, 3, 1, flag_bits(value));
        }
        Self(set_flag(self.0, 3, value))
    }

    /// Whether caching of the referenced table is disabled.
    pub fn cache_disable(&self) -> (value: bool)
        ensures
            value == self@.cache_disable,
    {
        get_flag(self.0, 4)
    }

    /// The same level-5 entry with `cache_disable` replaced by `value`.
    pub fn with_cache_disable(self, value: bool) -> (record: Self)
        ensures
            record.bits() == with_flag(self.bits(), 4, value),
            record@ == (Pml5te4kFields { cache_disable: value, ..self@ }),
    {
        proof {
            lemma_flag_bits(value);
            lemma_pml5te_store(self.0, 4, 1, flag_bits(value));
        }
        Self(set_flag(self.0, 4, value))
    }

    /// Whether the entry has been used to find a frame.
    pub fn accessed(&self) -> (value: bool)
        ensures
            value == self@.accessed,
    {
        get_flag(self.0, 5)
    }

    /// The same level-5 entry with `accessed` replaced by `value`.
    pub fn with_accessed(self, value: bool) -> (record: Self)
        ensures
            record.bits() == with_flag(self.bits(), 5, value),
            record@ == (Pml5te4kFields { accessed: value, ..self@ }),
    {
        proof {
            lemma_flag_bits(value);
            lemma_pml5te_store(self.0, 5, 1, flag_bits(value));
        }
        Self(set_flag(self.0, 5, value))
    }

    /// Bits left to software.
    pub fn available_2(&self) -> (value: u64)
        ensures
            value == self@.available_2,
            value <= 7,
    {
        proof {
            lemma_low_masks();
        }
        get_field(self.0, 9, 3)
    }

    /// The same level-5 entry with `available_2` replaced by `value`.
    pub fn with_available_2(self, value: u64) -> (record: Self)
        requires
            value <= 7,
        ensures
            record.bits() == with_field(self.bits(), 9, 3, value as u64),
            record@ == (Pml5te4kFields { available_2: value as nat, ..self@ }),
    {
        proof {
            lemma_low_masks();
            lemma_pml5te_store(self.0, 9, 3, value as u64);
        }
        Self(set_field(self.0, 9, 3, value))
    }

    /// Frame number of the level-4 table that the entry points to.
    pub fn pml4_paddr(&self) -> (value: u64)
        ensures
            value == self@.pml4_paddr,
            value <= 0xFF_FFFF_FFFF,
    {
        proof {
            lemma_low_masks();
        }
        get_field(self.0, 12, 40)
    }

    /// The same level-5 entry with `pml4_paddr` replaced by `value`.
    pub fn with_pml4_paddr(self, value: u64) -> (record: Self)
        requires
            value <= 0xFF_FFFF_FFFF,
        ensures
            record.bits() == with_field(self.bits(), 12, 40, value as u64),
            record@ == (Pml5te4kFields { pml4_paddr: value as nat, ..self@ }),
    {
        proof {
            lemma_low_masks();
            lemma_pml5te_store(self.0, 12, 40, value as u64);
        }
        Self(set_field(self.0, 12, 40, value))
    }

    /// Bits left to software.
    pub fn available_3(&self) -> (value: u64)
        ensures
            value == self@.available_3,
            value <= 0x7FF,
    {
        proof {
            lemma_low_masks();
        }
        get_field(self.0, 52, 11)
    }

    /// The same level-5 entry with `available_3` replaced by `value`.
    pub fn with_available_3(self, value: u64) -> (record: Self)
        requires
            value <= 0x7FF,
        ensures
            record.bits() == with_field(self.bits(), 52, 11, value as u64),
            record@ == (Pml5te4kFields { available_3: value as nat, ..self@ }),
    {
        proof {
            lemma_low_masks();
            lemma_pml5te_store(self.0, 52, 11, value as u64);
        }
        Self(set_field(self.0, 52, 11, value))
    }

    /// Whether instruction fetches are forbidden below the entry.
    pub fn nx(&self) -> (value: bool)
        ensures
            value == self@.nx,
    {
        get_flag(self.0, 63)
    }

    /// The same level-5 entry with `nx` replaced by `value`.
    pub fn with_nx(self, value: bool) -> (record: Self)
        ensures
            record.bits() == with_flag(self.bits(), 63, value),
            record@ == (Pml5te4kFields { nx: value, ..self@ }),
    {
        proof {
            lemma_flag_bits(value);
            lemma_pml5te_store(self.0, 63, 1, flag_bits(value));
        }
        Self(set_flag(self.0, 63, value))
    }
}

impl Pml5te4k {
    /// The template of a level-5 entry: present, and every other field clear.
    pub fn init() -> (entry: Self)
        ensures
            entry.bits() == 1,
            entry@ == (Pml5te4kFields { present: true, ..pml5te_zero() }),
    {
        let entry = Self::from_bits(0);
        proof {
            lemma_pml5te_zero();
            lemma_lowest_flag();
        }
        let entry = entry.with_present(true);
        proof {
            lemma_flag_restored(entry.bits(), 1, false);
        }
        let entry = entry.with_rw(false);
        proof {
            lemma_flag_restored(entry.bits(), 2, false);
        }
        let entry = entry.with_user(false);
        proof {
            lemma_flag_restored(entry.bits(), 3, false);
        }
        let entry = entry.with_write_through(false);
        proof {
            lemma_flag_restored(entry.bits(), 4, false);
        }
        let entry = entry.with_cache_disable(false);
        proof {
            lemma_flag_restored(entry.bits(), 5, false);
        }
        let entry = entry.with_accessed(false);
        proof {
            lemma_flag_restored(entry.bits(), 63, false);
        }
        let entry = entry.with_nx(false);
        entry
    }
}

/// The fields of a level-4 entry, unpacked.
pub struct Pml4te4kFields {
    /// Whether the entry is in use (bit 0).
    pub present: bool,
    /// Whether writes are allowed below the entry (bit 1).
    pub rw: bool,
    /// Whether user-mode accesses are allowed below the entry (bit 2).
    pub user: bool,
    /// Whether the referenced table is cached write-through (bit 3).
    pub write_through: bool,
    /// Whether caching of the referenced table is disabled (bit 4).
    pub cache_disable: bool,
    /// Whether the entry has been used to find a frame (bit 5).
    pub accessed: bool,
    /// Bits that the processor ignores or reserves (bits 6..9).
    pub reserved: nat,
    /// Bits left to software (bits 9..12).
    pub available_2: nat,
    /// Frame number of the page-directory-pointer table that the entry points to (bits 12..52).
    pub pdp_paddr: nat,
    /// Bits left to software (bits 52..63).
    pub available_3: nat,
    /// Whether instruction fetches are forbidden below the entry (bit 63).
    pub nx: bool,
}

/// The fields that the word `bits` holds when it is read as a level-4 entry.
pub open spec fn pml4te_fields(bits: u64) -> Pml4te4kFields {
    Pml4te4kFields {
        present: flag(bits, 0),
        rw: flag(bits, 1),
        user: flag(bits, 2),
        write_through: flag(bits, 3),
        cache_disable: flag(bits, 4),
        accessed: flag(bits, 5),
        reserved: field(bits, 6, 3) as nat,
        available_2: field(bits, 9, 3) as nat,
        pdp_paddr: field(bits, 12, 40) as nat,
        available_3: field(bits, 52, 11) as nat,
        nx: flag(bits, 63),
    }
}

/// The fields of the level-4 entry whose bits are all clear.
pub open spec fn pml4te_zero() -> Pml4te4kFields {
    Pml4te4kFields {
        present: false,
        rw: false,
        user: false,
        write_through: false,
        cache_disable: false,
        accessed: false,
        reserved: 0,
        available_2: 0,
        pdp_paddr: 0,
        available_3: 0,
        nx: false,
    }
}

/// Whether `[low, low + width)` is one of the fields of a level-4 entry.
pub open spec fn is_pml4te_field(low: u64, width: u64) -> bool {
    ||| (low == 0 && width == 1)
    ||| (low == 1 && width == 1)
    ||| (low == 2 && width == 1)
    ||| (low == 3 && width == 1)
    ||| (low == 4 && width == 1)
    ||| (low == 5 && width == 1)
    ||| (low == 6 && width == 3)
    ||| (low == 9 && width == 3)
    ||| (low == 12 && width == 40)
    ||| (low == 52 && width == 11)
    ||| (low == 63 && width == 1)
}

/// The word zero holds the level-4 entry whose fields are all clear.
pub proof fn lemma_pml4te_zero()
    ensures
        pml4te_fields(0) == pml4te_zero(),
{
    lemma_field_bounds(0, 0, 1);
    lemma_field_bounds(0, 1, 1);
    lemma_field_bounds(0, 2, 1);
    lemma_field_bounds(0, 3, 1);
    lemma_field_bounds(0, 4, 1);
    lemma_field_bounds(0, 5, 1);
    lemma_field_bounds(0, 6, 3);
    lemma_field_bounds(0, 9, 3);
    lemma_field_bounds(0, 12, 40);
    lemma_field_bounds(0, 52, 11);
    lemma_field_bounds(0, 63, 1);
}

/// The fields of a level-4 entry take up the whole word: two words that hold the
/// same fields are the same word.
pub proof fn lemma_pml4te_fields_cover(a: u64, b: u64)
    requires
        pml4te_fields(a) == pml4te_fields(b),
    ensures
        a == b,
{
    assert(a == b) by (bit_vector)
        requires
            flag(a, 0) == flag(b, 0),
            flag(a, 1) == flag(b, 1),
            flag(a, 2) == flag(b, 2),
            flag(a, 3) == flag(b, 3),
            flag(a, 4) == flag(b, 4),
            flag(a, 5) == flag(b, 5),
            field(a, 6, 3) == field(b, 6, 3),
            field(a, 9, 3) == field(b, 9, 3),
            field(a, 12, 40) == field(b, 12, 40),
            field(a, 52, 11) == field(b, 52, 11),
            flag(a, 63) == flag(b, 63),
    ;
}

/// Storing into one field of a level-4 entry changes that field and no other.
pub proof fn lemma_pml4te_store(bits: u64, low: u64, width: u64, value: u64)
    requires
        is_pml4te_field(low, width),
        value <= low_mask(width),
    ensures
        ({
            let before = pml4te_fields(bits);
            let after = pml4te_fields(with_field(bits, low, width, value));
            &&& after.present == if low == 0 { value == 1 } else { before.present }
            &&& after.rw == if low == 1 { value == 1 } else { before.rw }
            &&& after.user == if low == 2 { value == 1 } else { before.user }
            &&& after.write_through == if low == 3 { value == 1 } else { before.write_through }
            &&& after.cache_disable == if low == 4 { value == 1 } else { before.cache_disable }
            &&& after.accessed == if low == 5 { value == 1 } else { before.accessed }
            &&& after.reserved == if low == 6 { value as nat } else { before.reserved }
            &&& after.available_2 == if low == 9 { value as nat } else { before.available_2 }
            &&& after.pdp_paddr == if low == 12 { value as nat } else { before.pdp_paddr }
            &&& after.available_3 == if low == 52 { value as nat } else { before.available_3 }
            &&& after.nx == if low == 63 { value == 1 } else { before.nx }
        }),
{
    lemma_field_stored(bits, low, width, value);
    lemma_store_keeps(bits, low, width, value, 0, 1);
    lemma_store_keeps(bits, low, width, value, 1, 1);
    lemma_store_keeps(bits, low, width, value, 2, 1);
    lemma_store_keeps(bits, low, width, value, 3, 1);
    lemma_store_keeps(bits, low, width, value, 4, 1);
    lemma_store_keeps(bits, low, width, value, 5, 1);
    lemma_store_keeps(bits, low, width, value, 6, 3);
    lemma_store_keeps(bits, low, width, value, 9, 3);
    lemma_store_keeps(bits, low, width, value, 12, 40);
    lemma_store_keeps(bits, low, width, value, 52, 11);
    lemma_store_keeps(bits, low, width, value, 63, 1);
}

/// An entry of the level-4 table: a pointer to a page-directory-pointer table.
#[derive(Clone, Copy, Debug, PartialEq, Eq)]
pub struct Pml4te4k(u64);

impl View for Pml4te4k {
    type V = Pml4te4kFields;

    open spec fn view(&self) -> Pml4te4kFields {
        pml4te_fields(self.bits())
    }
}

impl Pml4te4k {
    /// The word that the level-4 entry is stored as.
    pub closed spec fn bits(self) -> u64 {
        self.0
    }

    /// The level-4 entry whose fields are all clear.
    pub fn new() -> (record: Self)
        ensures
            record.bits() == 0,
            record@ == pml4te_zero(),
    {
        proof {
            lemma_pml4te_zero();
        }
        Self(0)
    }

    /// The level-4 entry that is stored as `bits`.
    pub fn from_bits(bits: u64) -> (record: Self)
        ensures
            record.bits() == bits,
    {
        Self(bits)
    }

    /// The word that the level-4 entry is stored as.
    pub fn into_bits(self) -> (bits: u64)
        ensures
            bits == self.bits(),
    {
        self.0
    }

    /// Whether the entry is in use.
    pub fn present(&self) -> (value: bool)
        ensures
            value == self@.present,
    {
        get_flag(self.0, 0)
    }

    /// The same level-4 entry with `present` replaced by `value`.
    pub fn with_present(self, value: bool) -> (record: Self)
        ensures
            record.bits() == with_flag(self.bits(), 0, value),
            record@ == (Pml4te4kFields { present: value, ..self@ }),
    {
        proof {
            lemma_flag_bits(value);
            lemma_pml4te_store(self.0, 0, 1, flag_bits(value));
        }
        Self(set_flag(self.0, 0, value))
    }

    /// Whether writes are allowed below the entry.
    pub fn rw(&self) -> (value: bool)
        ensures
            value == self@.rw,
    {
        get_flag(self.0, 1)
    }

    /// The same level-4 entry with `rw` replaced by `value`.
    pub fn with_rw(self, value: bool) -> (record: Self)
        ensures
            record.bits() == with_flag(self.bits(), 1, value),
            record@ == (Pml4te4kFields { rw: value, ..self@ }),
    {
        proof {
            lemma_flag_bits(value);
            lemma_pml4te_store(self.0, 1, 1, flag_bits(value));
        }
        Self(set_flag(self.0, 1, value))
    }

    /// Whether user-mode accesses are allowed below the entry.
    pub fn user(&self) -> (value: bool)
        ensures
            value == self@.user,
    {
        get_flag(self.0, 2)
    }

    /// The same level-4 entry with `user` replaced by `value`.
    pub fn with_user(self, value: bool) -> (record: Self)
        ensures
            record.bits() == with_flag(self.bits(), 2, value),
            record@ == (Pml4te4kFields { user: value, ..self@ }),
    {
        proof {
            lemma_flag_bits(value);
            lemma_pml4te_store(self.0, 2, 1, flag_bits(value));
        }
        Self(set_flag(self.0, 2, value))
    }

    /// Whether the referenced table is cached write-through.
    pub fn write_through(&self) -> (value: bool)
        ensures
            value == self@.write_through,
    {
        get_flag(self.0, 3)
    }

    /// The same level-4 entry with `write_through` replaced by `value`.
    pub fn with_write_through(self, value: bool) -> (record: Self)
        ensures
            record.bits() == with_flag(self.bits(), 3, value),
            record@ == (Pml4te4kFields { write_through: value, ..self@ }),
    {
        proof {
            lemma_flag_bits(value);
            lemma_pml4te_store(self.0, 3, 1, flag_bits(value));
        }
        Self(set_flag(self.0, 3, value))
    }

    /// Whether caching of the referenced table is disabled.
    pub fn cache_disable(&self) -> (value: bool)
        ensures
            value == self@.cache_disable,
    {
        get_flag(self.0, 4)
    }

    /// The same level-4 entry with `cache_disable` replaced by `value`.
    pub fn with_cache_disable(self, value: bool) -> (record: Self)
        ensures
            record.bits() == with_flag(self.bits(), 4, value),
            record@ == (Pml4te4kFields { cache_disable: value, ..self@ }),
    {
        proof {
            lemma_flag_bits(value);
            lemma_pml4te_store(self.0, 4, 1, flag_bits(value));
        }
        Self(set_flag(self.0, 4, value))
    }

    /// Whether the entry has been used to find a frame.
    pub fn accessed(&self) -> (value: bool)
        ensures
            value == self@.accessed,
    {
        get_flag(self.0, 5)
    }

    /// The same level-4 entry with `accessed` replaced by `value`.
    pub fn with_accessed(self, value: bool) -> (record: Self)
        ensures
            record.bits() == with_flag(self.bits(), 5, value),
            record@ == (Pml4te4kFields { accessed: value, ..self@ }),
    {
        proof {
            lemma_flag_bits(value);
            lemma_pml4te_store(self.0, 5, 1, flag_bits(value));
        }
        Self(set_flag(self.0, 5, value))
    }

    /// Bits left to software.
    pub fn available_2(&self) -> (value: u64)
        ensures
            value == self@.available_2,
            value <= 7,
    {
        proof {
            lemma_low_masks();
        }
        get_field(self.0, 9, 3)
    }

    /// The same level-4 entry with `available_2` replaced by `value`.
    pub fn with_available_2(self, value: u64) -> (record: Self)
        requires
            value <= 7,
        ensures
            record.bits() == with_field(self.bits(), 9, 3, value as u64),
            record@ == (Pml4te4kFields { available_2: value as nat, ..self@ }),
    {
        proof {
            lemma_low_masks();
            lemma_pml4te_store(self.0, 9, 3, value as u64);
        }
        Self(set_field(self.0, 9, 3, value))
    }

    /// Frame number of the page-directory-pointer table that the entry points to.
    pub fn pdp_paddr(&self) -> (value: u64)
        ensures
            value == self@.pdp_paddr,
            value <= 0xFF_FFFF_FFFF,
    {
        proof {
            lemma_low_masks();
        }
        get_field(self.0, 12, 40)
    }

    /// The same level-4 entry with `pdp_paddr` replaced by `value`.
    pub fn with_pdp_paddr(self, value: u64) -> (record: Self)
        requires
            value <= 0xFF_FFFF_FFFF,
        ensures
            record.bits() == with_field(self.bits(), 12, 40, value as u64),
            record@ == (Pml4te4kFields { pdp_paddr: value as nat, ..self@ }),
    {
        proof {
            lemma_low_masks();
            lemma_pml4te_store(self.0, 12, 40, value as u64);
        }
        Self(set_field(self.0, 12, 40, value))
    }

    /// Bits left to software.
    pub fn available_3(&self) -> (value: u64)
        ensures
            value == self@.available_3,
            value <= 0x7FF,
    {
        proof {
            lemma_low_masks();
        }
        get_field(self.0, 52, 11)
    }

    /// The same level-4 entry with `available_3` replaced by `value`.
    pub fn with_available_3(self, value: u64) -> (record: Self)
        requires
            value <= 0x7FF,
        ensures
            record.bits() == with_field(self.bits(), 52, 11, value as u64),
            record@ == (Pml4te4kFields { available_3: value as nat, ..self@ }),
    {
        proof {
            lemma_low_masks();
            lemma_pml4te_store(self.0, 52, 11, value as u64);
        }
        Self(set_field(self.0, 52, 11, value))
    }

    /// Whether instruction fetches are forbidden below the entry.
    pub fn nx(&self) -> (value: bool)
        ensures
            value == self@.nx,
    {
        get_flag(self.0, 63)
    }

    /// The same level-4 entry with `nx` replaced by `value`.
    pub fn with_nx(self, value: bool) -> (record: Self)
        ensures
            record.bits() == with_flag(self.bits(), 63, value),
            record@ == (Pml4te4kFields { nx: value, ..self@ }),
    {
        proof {
            lemma_flag_bits(value);
            lemma_pml4te_store(self.0, 63, 1, flag_bits(value));
        }
        Self(set_flag(self.0, 63, value))
    }
}

impl Pml4te4k {
    /// The template of a level-4 entry: present, and every other field clear.
    pub fn init() -> (entry: Self)
        ensures
            entry.bits() == 1,
            entry@ == (Pml4te4kFields { present: true, ..pml4te_zero() }),
    {
        let entry = Self::from_bits(0);
        proof {
            lemma_pml4te_zero();
            lemma_lowest_flag();
        }
        let entry = entry.with_present(true);
        proof {
            lemma_flag_restored(entry.bits(), 1, false);
        }
        let entry = entry.with_rw(false);
        proof {
            lemma_flag_restored(entry.bits(), 2, false);
        }
        let entry = entry.with_user(false);
        proof {
            lemma_flag_restored(entry.bits(), 3, false);
        }
        let entry = entry.with_write_through(false);
        proof {
            lemma_flag_restored(entry.bits(), 4, false);
        }
        let entry = entry.with_cache_disable(false);
        proof {
            lemma_flag_restored(entry.bits(), 5, false);
        }
        let entry = entry.with_accessed(false);
        proof {
            lemma_flag_restored(entry.bits(), 63, false);
        }
        let entry = entry.with_nx(false);
        entry
    }
}

/// The fields of a page-directory-pointer entry, unpacked.
pub struct Pdpte4kFields {
    /// Whether the entry is in use (bit 0).
    pub present: bool,
    /// Whether writes are allowed below the entry (bit 1).
    pub rw: bool,
    /// Whether user-mode accesses are allowed below the entry (bit 2).
    pub user: bool,
    /// Whether the referenced table is cached write-through (bit 3).
    pub write_through: bool,
    /// Whether caching of the referenced table is disabled (bit 4).
    pub cache_disable: bool,
    /// Whether the entry has been used to find a frame (bit 5).
    pub accessed: bool,
    /// Bits that the processor ignores or reserves (bits 6..9).
    pub reserved: nat,
    /// Bits left to software (bits 9..12).
    pub available_2: nat,
    /// Frame number of the page directory that the entry points to (bits 12..52).
    pub pd_paddr: nat,
    /// Bits left to software (bits 52..63).
    pub available_3: nat,
    /// Whether instruction fetches are forbidden below the entry (bit 63).
    pub nx: bool,
}

/// The fields that the word `bits` holds when it is read as a page-directory-pointer entry.
pub open spec fn pdpte_fields(bits: u64) -> Pdpte4kFields {
    Pdpte4kFields {
        present: flag(bits, 0),
        rw: flag(bits, 1),
        user: flag(bits, 2),
        write_through: flag(bits, 3),
        cache_disable: flag(bits, 4),
        accessed: flag(bits, 5),
        reserved: field(bits, 6, 3) as nat,
        available_2: field(bits, 9, 3) as nat,
        pd_paddr: field(bits, 12, 40) as nat,
        available_3: field(bits, 52, 11) as nat,
        nx: flag(bits, 63),
    }
}

/// The fields of the page-directory-pointer entry whose bits are all clear.
pub open spec fn pdpte_zero() -> Pdpte4kFields {
    Pdpte4kFields {
        present: false,
        rw: false,
        user: false,
        write_through: false,
        cache_disable: false,
        accessed: false,
        reserved: 0,
        available_2: 0,
        pd_paddr: 0,
        available_3: 0,
        nx: false,
    }
}

/// Whether `[low, low + width)` is one of the fields of a page-directory-pointer entry.
pub open spec fn is_pdpte_field(low: u64, width: u64) -> bool {
    ||| (low == 0 && width == 1)
    ||| (low == 1 && width == 1)
    ||| (low == 2 && width == 1)
    ||| (low == 3 && width == 1)
    ||| (low == 4 && width == 1)
    ||| (low == 5 && width == 1)
    ||| (low == 6 && width == 3)
    ||| (low == 9 && width == 3)
    ||| (low == 12 && width == 40)
    ||| (low == 52 && width == 11)
    ||| (low == 63 && width == 1)
}

/// The word zero holds the page-directory-pointer entry whose fields are all clear.
pub proof fn lemma_pdpte_zero()
    ensures
        pdpte_fields(0) == pdpte_zero(),
{
    lemma_field_bounds(0, 0, 1);
    lemma_field_bounds(0, 1, 1);
    lemma_field_bounds(0, 2, 1);
    lemma_field_bounds(0, 3, 1);
    lemma_field_bounds(0, 4, 1);
    lemma_field_bounds(0, 5, 1);
    lemma_field_bounds(0, 6, 3);
    lemma_field_bounds(0, 9, 3);
    lemma_field_bounds(0, 12, 40);
    lemma_field_bounds(0, 52, 11);
    lemma_field_bounds(0, 63, 1);
}

/// The fields of a page-directory-pointer entry take up the whole word: two words that hold the
/// same fields are the same word.
pub proof fn lemma_pdpte_fields_cover(a: u64, b: u64)
    requires
        pdpte_fields(a) == pdpte_fields(b),
    ensures
        a == b,
{
    assert(a == b) by (bit_vector)
        requires
            flag(a, 0) == flag(b, 0),
            flag(a, 1) == flag(b, 1),
            flag(a, 2) == flag(b, 2),
            flag(a, 3) == flag(b, 3),
            flag(a, 4) == flag(b, 4),
            flag(a, 5) == flag(b, 5),
            field(a, 6, 3) == field(b, 6, 3),
            field(a, 9, 3) == field(b, 9, 3),
            field(a, 12, 40) == field(b, 12, 40),
            field(a, 52, 11) == field(b, 52, 11),
            flag(a, 63) == flag(b, 63),
    ;
}

/// Storing into one field of a page-directory-pointer entry changes that field and no other.
pub proof fn lemma_pdpte_store(bits: u64, low: u64, width: u64, value: u64)
    requires
        is_pdpte_field(low, width),
        value <= low_mask(width),
    ensures
        ({
            let before = pdpte_fields(bits);
            let after = pdpte_fields(with_field(bits, low, width, value));
            &&& after.present == if low == 0 { value == 1 } else { before.present }
            &&& after.rw == if low == 1 { value == 1 } else { before.rw }
            &&& after.user == if low == 2 { value == 1 } else { before.user }
            &&& after.write_through == if low == 3 { value == 1 } else { before.write_through }
            &&& after.cache_disable == if low == 4 { value == 1 } else { before.cache_disable }
            &&& after.accessed == if low == 5 { value == 1 } else { before.accessed }
            &&& after.reserved == if low == 6 { value as nat } else { before.reserved }
            &&& after.available_2 == if low == 9 { value as nat } else { before.available_2 }
            &&& after.pd_paddr == if low == 12 { value as nat } else { before.pd_paddr }
            &&& after.available_3 == if low == 52 { value as nat } else { before.available_3 }
            &&& after.nx == if low == 63 { value == 1 } else { before.nx }
        }),
{
    lemma_field_stored(bits, low, width, value);
    lemma_store_keeps(bits, low, width, value, 0, 1);
    lemma_store_keeps(bits, low, width, value, 1, 1);
    lemma_store_keeps(bits, low, width, value, 2, 1);
    lemma_store_keeps(bits, low, width, value, 3, 1);
    lemma_store_keeps(bits, low, width, value, 4, 1);
    lemma_store_keeps(bits, low, width, value, 5, 1);
    lemma_store_keeps(bits, low, width, value, 6, 3);
    lemma_store_keeps(bits, low, width, value, 9, 3);
    lemma_store_keeps(bits, low, width, value, 12, 40);
    lemma_store_keeps(bits, low, width, value, 52, 11);
    lemma_store_keeps(bits, low, width, value, 63, 1);
}

/// An entry of a page-directory-pointer table: a pointer to a page directory.
#[derive(Clone, Copy, Debug, PartialEq, Eq)]
pub struct Pdpte4k(u64);

impl View for Pdpte4k {
    type V = Pdpte4kFields;

    open spec fn view(&self) -> Pdpte4kFields {
        pdpte_fields(self.bits())
    }
}

impl Pdpte4k {
    /// The word that the page-directory-pointer entry is stored as.
    pub closed spec fn bits(self) -> u64 {
        self.0
    }

    /// The page-directory-pointer entry whose fields are all clear.
    pub fn new() -> (record: Self)
        ensures
            record.bits() == 0,
            record@ == pdpte_zero(),
    {
        proof {
            lemma_pdpte_zero();
        }
        Self(0)
    }

    /// The page-directory-pointer entry that is stored as `bits`.
    pub fn from_bits(bits: u64) -> (record: Self)
        ensures
            record.bits() == bits,
    {
        Self(bits)
    }

    /// The word that the page-directory-pointer entry is stored as.
    pub fn into_bits(self) -> (bits: u64)
        ensures
            bits == self.bits(),
    {
        self.0
    }

    /// Whether the entry is in use.
    pub fn present(&self) -> (value: bool)
        ensures
            value == self@.present,
    {
        get_flag(self.0, 0)
    }

    /// The same page-directory-pointer entry with `present` replaced by `value`.
    pub fn with_present(self, value: bool) -> (record: Self)
        ensures
            record.bits() == with_flag(self.bits(), 0, value),
            record@ == (Pdpte4kFields { present: value, ..self@ }),
    {
        proof {
            lemma_flag_bits(value);
            lemma_pdpte_store(self.0, 0, 1, flag_bits(value));
        }
        Self(set_flag(self.0, 0, value))
    }

    /// Whether writes are allowed below the entry.
    pub fn rw(&self) -> (value: bool)
        ensures
            value == self@.rw,
    {
        get_flag(self.0, 1)
    }

    /// The same page-directory-pointer entry with `rw` replaced by `value`.
    pub fn with_rw(self, value: bool) -> (record: Self)
        ensures
            record.bits() == with_flag(self.bits(), 1, value),
            record@ == (Pdpte4kFields { rw: value, ..self@ }),
    {
        proof {
            lemma_flag_bits(value);
            lemma_pdpte_store(self.0, 1, 1, flag_bits(value));
        }
        Self(set_flag(self.0, 1, value))
    }

    /// Whether user-mode accesses are allowed below the entry.
    pub fn user(&self) -> (value: bool)
        ensures
            value == self@.user,
    {
        get_flag(self.0, 2)
    }

    /// The same page-directory-pointer entry with `user` replaced by `value`.
    pub fn with_user(self, value: bool) -> (record: Self)
        ensures
            record.bits() == with_flag(self.bits(), 2, value),
            record@ == (Pdpte4kFields { user: value, ..self@ }),
    {
        proof {
            lemma_flag_bits(value);
            lemma_pdpte_store(self.0, 2, 1, flag_bits(value));
        }
        Self(set_flag(self.0, 2, value))
    }

    /// Whether the referenced table is cached write-through.
    pub fn write_through(&self) -> (value: bool)
        ensures
            value == self@.write_through,
    {
        get_flag(self.0, 3)
    }

    /// The same page-directory-pointer entry with `write_through` replaced by `value`.
    pub fn with_write_through(self, value: bool) -> (record: Self)
        ensures
            record.bits() == with_flag(self.bits(), 3, value),
            record@ == (Pdpte4kFields { write_through: value, ..self@ }),
    {
        proof {
            lemma_flag_bits(value);
            lemma_pdpte_store(self.0, 3, 1, flag_bits(value));
        }
        Self(set_flag(self.0, 3, value))
    }

    /// Whether caching of the referenced table is disabled.
    pub fn cache_disable(&self) -> (value: bool)
        ensures
            value == self@.cache_disable,
    {
        get_flag(self.0, 4)
    }

    /// The same page-directory-pointer entry with `cache_disable` replaced by `value`.
    pub fn with_cache_disable(self, value: bool) -> (record: Self)
        ensures
            record.bits() == with_flag(self.bits(), 4, value),
            record@ == (Pdpte4kFields { cache_disable: value, ..self@ }),
    {
        proof {
            lemma_flag_bits(value);
            lemma_pdpte_store(self.0, 4, 1, flag_bits(value));
        }
        Self(set_flag(self.0, 4, value))
    }

    /// Whether the entry has been used to find a frame.
    pub fn accessed(&self) -> (value: bool)
        ensures
            value == self@.accessed,
    {
        get_flag(self.0, 5)
    }

    /// The same page-directory-pointer entry with `accessed` replaced by `value`.
    pub fn with_accessed(self, value: bool) -> (record: Self)
        ensures
            record.bits() == with_flag(self.bits(), 5, value),
            record@ == (Pdpte4kFields { accessed: value, ..self@ }),
    {
        proof {
            lemma_flag_bits(value);
            lemma_pdpte_store(self.0, 5, 1, flag_bits(value));
        }
        Self(set_flag(self.0, 5, value))
    }

    /// Bits left to software.
    pub fn available_2(&self) -> (value: u64)
        ensures
            value == self@.available_2,
            value <= 7,
    {
        proof {
            lemma_low_masks();
        }
        get_field(self.0, 9, 3)
    }

    /// The same page-directory-pointer entry with `available_2` replaced by `value`.
    pub fn with_available_2(self, value: u64) -> (record: Self)
        requires
            value <= 7,
        ensures
            record.bits() == with_field(self.bits(), 9, 3, value as u64),
            record@ == (Pdpte4kFields { available_2: value as nat, ..self@ }),
    {
        proof {
            lemma_low_masks();
            lemma_pdpte_store(self.0, 9, 3, value as u64);
        }
        Self(set_field(self.0, 9, 3, value))
    }

    /// Frame number of the page directory that the entry points to.
    pub fn pd_paddr(&self) -> (value: u64)
        ensures
            value == self@.pd_paddr,
            value <= 0xFF_FFFF_FFFF,
    {
        proof {
            lemma_low_masks();
        }
        get_field(self.0, 12, 40)
    }

    /// The same page-directory-pointer entry with `pd_paddr` replaced by `value`.
    pub fn with_pd_paddr(self, value: u64) -> (record: Self)
        requires
            value <= 0xFF_FFFF_FFFF,
        ensures
            record.bits() == with_field(self.bits(), 12, 40, value as u64),
            record@ == (Pdpte4kFields { pd_paddr: value as nat, ..self@ }),
    {
        proof {
            lemma_low_masks();
            lemma_pdpte_store(self.0, 12, 40, value as u64);
        }
        Self(set_field(self.0, 12, 40, value))
    }

    /// Bits left to software.
    pub fn available_3(&self) -> (value: u64)
        ensures
            value == self@.available_3,
            value <= 0x7FF,
    {
        proof {
            lemma_low_masks();
        }
        get_field(self.0, 52, 11)
    }

    /// The same page-directory-pointer entry with `available_3` replaced by `value`.
    pub fn with_available_3(self, value: u64) -> (record: Self)
        requires
            value <= 0x7FF,
        ensures
            record.bits() == with_field(self.bits(), 52, 11, value as u64),
            record@ == (Pdpte4kFields { available_3: value as nat, ..self@ }),
    {
        proof {
            lemma_low_masks();
            lemma_pdpte_store(self.0, 52, 11, value as u64);
        }
        Self(set_field(self.0, 52, 11, value))
    }

    /// Whether instruction fetches are forbidden below the entry.
    pub fn nx(&self) -> (value: bool)
        ensures
            value == self@.nx,
    {
        get_flag(self.0, 63)
    }

    /// The same page-directory-pointer entry with `nx` replaced by `value`.
    pub fn with_nx(self, value: bool) -> (record: Self)
        ensures
            record.bits() == with_flag(self.bits(), 63, value),
            record@ == (Pdpte4kFields { nx: value, ..self@ }),
    {
        proof {
            lemma_flag_bits(value);
            lemma_pdpte_store(self.0, 63, 1, flag_bits(value));
        }
        Self(set_flag(self.0, 63, value))
    }
}

impl Pdpte4k {
    /// The template of a page-directory-pointer entry: present, and every other field clear.
    pub fn init() -> (entry: Self)
        ensures
            entry.bits() == 1,
            entry@ == (Pdpte4kFields { present: true, ..pdpte_zero() }),
    {
        let entry = Self::from_bits(0);
        proof {
            lemma_pdpte_zero();
            lemma_lowest_flag();
        }
        let entry = entry.with_present(true);
        proof {
            lemma_flag_restored(entry.bits(), 1, false);
        }
        let entry = entry.with_rw(false);
        proof {
            lemma_flag_restored(entry.bits(), 2, false);
        }
        let entry = entry.with_user(false);
        proof {
            lemma_flag_restored(entry.bits(), 3, false);
        }
        let entry = entry.with_write_through(false);
        proof {
            lemma_flag_restored(entry.bits(), 4, false);
        }
        let entry = entry.with_cache_disable(false);
        proof {
            lemma_flag_restored(entry.bits(), 5, false);
        }
        let entry = entry.with_accessed(false);
        proof {
            lemma_flag_restored(entry.bits(), 63, false);
        }
        let entry = entry.with_nx(false);
        entry
    }
}

/// The fields of a page-directory entry, unpacked.
pub struct Pdte4kFields {
    /// Whether the entry is in use (bit 0).
    pub present: bool,
    /// Whether writes are allowed below the entry (bit 1).
    pub rw: bool,
    /// Whether user-mode accesses are allowed below the entry (bit 2).
    pub user: bool,
    /// Whether the referenced table is cached write-through (bit 3).
    pub write_through: bool,
    /// Whether caching of the referenced table is disabled (bit 4).
    pub cache_disable: bool,
    /// Whether the entry has been used to find a frame (bit 5).
    pub accessed: bool,
    /// Bits that the processor ignores or reserves (bits 6..9).
    pub reserved: nat,
    /// Bits left to software (bits 9..12).
    pub available_2: nat,
    /// Frame number of the page table that the entry points to (bits 12..52).
    pub pt_paddr: nat,
    /// Bits left to software (bits 52..63).
    pub available_3: nat,
    /// Whether instruction fetches are forbidden below the entry (bit 63).
    pub nx: bool,
}

/// The fields that the word `bits` holds when it is read as a page-directory entry.
pub open spec fn pdte_fields(bits: u64) -> Pdte4kFields {
    Pdte4kFields {
        present: flag(bits, 0),
        rw: flag(bits, 1),
        user: flag(bits, 2),
        write_through: flag(bits, 3),
        cache_disable: flag(bits, 4),
        accessed: flag(bits, 5),
        reserved: field(bits, 6, 3) as nat,
        available_2: field(bits, 9, 3) as nat,
        pt_paddr: field(bits, 12, 40) as nat,
        available_3: field(bits, 52, 11) as nat,
        nx: flag(bits, 63),
    }
}

/// The fields of the page-directory entry whose bits are all clear.
pub open spec fn pdte_zero() -> Pdte4kFields {
    Pdte4kFields {
        present: false,
        rw: false,
        user: false,
        write_through: false,
        cache_disable: false,
        accessed: false,
        reserved: 0,
        available_2: 0,
        pt_paddr: 0,
        available_3: 0,
        nx: false,
    }
}

/// Whether `[low, low + width)` is one of the fields of a page-directory entry.
pub open spec fn is_pdte_field(low: u64, width: u64) -> bool {
    ||| (low == 0 && width == 1)
    ||| (low == 1 && width == 1)
    ||| (low == 2 && width == 1)
    ||| (low == 3 && width == 1)
    ||| (low == 4 && width == 1)
    ||| (low == 5 && width == 1)
    ||| (low == 6 && width == 3)
    ||| (low == 9 && width == 3)
    ||| (low == 12 && width == 40)
    ||| (low == 52 && width == 11)
    ||| (low == 63 && width == 1)
}

/// The word zero holds the page-directory entry whose fields are all clear.
pub proof fn lemma_pdte_zero()
    ensures
        pdte_fields(0) == pdte_zero(),
{
    lemma_field_bounds(0, 0, 1);
    lemma_field_bounds(0, 1, 1);
    lemma_field_bounds(0, 2, 1);
    lemma_field_bounds(0, 3, 1);
    lemma_field_bounds(0, 4, 1);
    lemma_field_bounds(0, 5, 1);
    lemma_field_bounds(0, 6, 3);
    lemma_field_bounds(0, 9, 3);
    lemma_field_bounds(0, 12, 40);
    lemma_field_bounds(0, 52, 11);
    lemma_field_bounds(0, 63, 1);
}

/// The fields of a page-directory entry take up the whole word: two words that hold the
/// same fields are the same word.
pub proof fn lemma_pdte_fields_cover(a: u64, b: u64)
    requires
        pdte_fields(a) == pdte_fields(b),
    ensures
        a == b,
{
    assert(a == b) by (bit_vector)
        requires
            flag(a, 0) == flag(b, 0),
            flag(a, 1) == flag(b, 1),
            flag(a, 2) == flag(b, 2),
            flag(a, 3) == flag(b, 3),
            flag(a, 4) == flag(b, 4),
            flag(a, 5) == flag(b, 5),
            field(a, 6, 3) == field(b, 6, 3),
            field(a, 9, 3) == field(b, 9, 3),
            field(a, 12, 40) == field(b, 12, 40),
            field(a, 52, 11) == field(b, 52, 11),
            flag(a, 63) == flag(b, 63),
    ;
}

/// Storing into one field of a page-directory entry changes that field and no other.
pub proof fn lemma_pdte_store(bits: u64, low: u64, width: u64, value: u64)
    requires
        is_pdte_field(low, width),
        value <= low_mask(width),
    ensures
        ({
            let before = pdte_fields(bits);
            let after = pdte_fields(with_field(bits, low, width, value));
            &&& after.present == if low == 0 { value == 1 } else { before.present }
            &&& after.rw == if low == 1 { value == 1 } else { before.rw }
            &&& after.user == if low == 2 { value == 1 } else { before.user }
            &&& after.write_through == if low == 3 { value == 1 } else { before.write_through }
            &&& after.cache_disable == if low == 4 { value == 1 } else { before.cache_disable }
            &&& after.accessed == if low == 5 { value == 1 } else { before.accessed }
            &&& after.reserved == if low == 6 { value as nat } else { before.reserved }
            &&& after.available_2 == if low == 9 { value as nat } else { before.available_2 }
            &&& after.pt_paddr == if low == 12 { value as nat } else { before.pt_paddr }
            &&& after.available_3 == if low == 52 { value as nat } else { before.available_3 }
            &&& after.nx == if low == 63 { value == 1 } else { before.nx }
        }),
{
    lemma_field_stored(bits, low, width, value);
    lemma_store_keeps(bits, low, width, value, 0, 1);
    lemma_store_keeps(bits, low, width, value, 1, 1);
    lemma_store_keeps(bits, low, width, value, 2, 1);
    lemma_store_keeps(bits, low, width, value, 3, 1);
    lemma_store_keeps(bits, low, width, value, 4, 1);
    lemma_store_keeps(bits, low, width, value, 5, 1);
    lemma_store_keeps(bits, low, width, value, 6, 3);
    lemma_store_keeps(bits, low, width, value, 9, 3);
    lemma_store_keeps(bits, low, width, value, 12, 40);
    lemma_store_keeps(bits, low, width, value, 52, 11);
    lemma_store_keeps(bits, low, width, value, 63, 1);
}

/// An entry of a page directory: a pointer to a page table.
#[derive(Clone, Copy, Debug, PartialEq, Eq)]
pub struct Pdte4k(u64);

impl View for Pdte4k {
    type V = Pdte4kFields;

    open spec fn view(&self) -> Pdte4kFields {
        pdte_fields(self.bits())
    }
}

impl Pdte4k {
    /// The word that the page-directory entry is stored as.
    pub closed spec fn bits(self) -> u64 {
        self.0
    }

    /// The page-directory entry whose fields are all clear.
    pub fn new() -> (record: Self)
        ensures
            record.bits() == 0,
            record@ == pdte_zero(),
    {
        proof {
            lemma_pdte_zero();
        }
        Self(0)
    }

    /// The page-directory entry that is stored as `bits`.
    pub fn from_bits(bits: u64) -> (record: Self)
        ensures
            record.bits() == bits,
    {
        Self(bits)
    }

    /// The word that the page-directory entry is stored as.
    pub fn into_bits(self) -> (bits: u64)
        ensures
            bits == self.bits(),
    {
        self.0
    }

    /// Whether the entry is in use.
    pub fn present(&self) -> (value: bool)
        ensures
            value == self@.present,
    {
        get_flag(self.0, 0)
    }

    /// The same page-directory entry with `present` replaced by `value`.
    pub fn with_present(self, value: bool) -> (record: Self)
        ensures
            record.bits() == with_flag(self.bits(), 0, value),
            record@ == (Pdte4kFields { present: value, ..self@ }),
    {
        proof {
            lemma_flag_bits(value);
            lemma_pdte_store(self.0, 0, 1, flag_bits(value));
        }
        Self(set_flag(self.0, 0, value))
    }

    /// Whether writes are allowed below the entry.
    pub fn rw(&self) -> (value: bool)
        ensures
            value == self@.rw,
    {
        get_flag(self.0, 1)
    }

    /// The same page-directory entry with `rw` replaced by `value`.
    pub fn with_rw(self, value: bool) -> (record: Self)
        ensures
            record.bits() == with_flag(self.bits(), 1, value),
            record@ == (Pdte4kFields { rw: value, ..self@ }),
    {
        proof {
            lemma_flag_bits(value);
            lemma_pdte_store(self.0, 1, 1, flag_bits(value));
        }
        Self(set_flag(self.0, 1, value))
    }

    /// Whether user-mode accesses are allowed below the entry.
    pub fn user(&self) -> (value: bool)
        ensures
            value == self@.user,
    {
        get_flag(self.0, 2)
    }

    /// The same page-directory entry with `user` replaced by `value`.
    pub fn with_user(self, value: bool) -> (record: Self)
        ensures
            record.bits() == with_flag(self.bits(), 2, value),
            record@ == (Pdte4kFields { user: value, ..self@ }),
    {
        proof {
            lemma_flag_bits(value);
            lemma_pdte_store(self.0, 2, 1, flag_bits(value));
        }
        Self(set_flag(self.0, 2, value))
    }

    /// Whether the referenced table is cached write-through.
    pub fn write_through(&self) -> (value: bool)
        ensures
            value == self@.write_through,
    {
        get_flag(self.0, 3)
    }

    /// The same page-directory entry with `write_through` replaced by `value`.
    pub fn with_write_through(self, value: bool) -> (record: Self)
        ensures
            record.bits() == with_flag(self.bits(), 3, value),
            record@ == (Pdte4kFields { write_through: value, ..self@ }),
    {
        proof {
            lemma_flag_bits(value);
            lemma_pdte_store(self.0, 3, 1, flag_bits(value));
        }
        Self(set_flag(self.0, 3, value))
    }

    /// Whether caching of the referenced table is disabled.
    pub fn cache_disable(&self) -> (value: bool)
        ensures
            value == self@.cache_disable,
    {
        get_flag(self.0, 4)
    }

    /// The same page-directory entry with `cache_disable` replaced by `value`.
    pub fn with_cache_disable(self, value: bool) -> (record: Self)
        ensures
            record.bits() == with_flag(self.bits(), 4, value),
            record@ == (Pdte4kFields { cache_disable: value, ..self@ }),
    {
        proof {
            lemma_flag_bits(value);
            lemma_pdte_store(self.0, 4, 1, flag_bits(value));
        }
        Self(set_flag(self.0, 4, value))
    }

    /// Whether the entry has been used to find a frame.
    pub fn accessed(&self) -> (value: bool)
        ensures
            value == self@.accessed,
    {
        get_flag(self.0, 5)
    }

    /// The same page-directory entry with `accessed` replaced by `value`.
    pub fn with_accessed(self, value: bool) -> (record: Self)
        ensures
            record.bits() == with_flag(self.bits(), 5, value),
            record@ == (Pdte4kFields { accessed: value, ..self@ }),
    {
        proof {
            lemma_flag_bits(value);
            lemma_pdte_store(self.0, 5, 1, flag_bits(value));
        }
        Self(set_flag(self.0, 5, value))
    }

    /// Bits left to software.
    pub fn available_2(&self) -> (value: u64)
        ensures
            value == self@.available_2,
            value <= 7,
    {
        proof {
            lemma_low_masks();
        }
        get_field(self.0, 9, 3)
    }

    /// The same page-directory entry with `available_2` replaced by `value`.
    pub fn with_available_2(self, value: u64) -> (record: Self)
        requires
            value <= 7,
        ensures
            record.bits() == with_field(self.bits(), 9, 3, value as u64),
            record@ == (Pdte4kFields { available_2: value as nat, ..self@ }),
    {
        proof {
            lemma_low_masks();
            lemma_pdte_store(self.0, 9, 3, value as u64);
        }
        Self(set_field(self.0, 9, 3, value))
    }

    /// Frame number of the page table that the entry points to.
    pub fn pt_paddr(&self) -> (value: u64)
        ensures
            value == self@.pt_paddr,
            value <= 0xFF_FFFF_FFFF,
    {
        proof {
            lemma_low_masks();
        }
        get_field(self.0, 12, 40)
    }

    /// The same page-directory entry with `pt_paddr` replaced by `value`.
    pub fn with_pt_paddr(self, value: u64) -> (record: Self)
        requires
            value <= 0xFF_FFFF_FFFF,
        ensures
            record.bits() == with_field(self.bits(), 12, 40, value as u64),
            record@ == (Pdte4kFields { pt_paddr: value as nat, ..self@ }),
    {
        proof {
            lemma_low_masks();
            lemma_pdte_store(self.0, 12, 40, value as u64);
        }
        Self(set_field(self.0, 12, 40, value))
    }

    /// Bits left to software.
    pub fn available_3(&self) -> (value: u64)
        ensures
            value == self@.available_3,
            value <= 0x7FF,
    {
        proof {
            lemma_low_masks();
        }
        get_field(self.0, 52, 11)
    }

    /// The same page-directory entry with `available_3` replaced by `value`.
    pub fn with_available_3(self, value: u64) -> (record: Self)
        requires
            value <= 0x7FF,
        ensures
            record.bits() == with_field(self.bits(), 52, 11, value as u64),
            record@ == (Pdte4kFields { available_3: value as nat, ..self@ }),
    {
        proof {
            lemma_low_masks();
            lemma_pdte_store(self.0, 52, 11, value as u64);
        }
        Self(set_field(self.0, 52, 11, value))
    }

    /// Whether instruction fetches are forbidden below the entry.
    pub fn nx(&self) -> (value: bool)
        ensures
            value == self@.nx,
    {
        get_flag(self.0, 63)
    }

    /// The same page-directory entry with `nx` replaced by `value`.
    pub fn with_nx(self, value: bool) -> (record: Self)
        ensures
            record.bits() == with_flag(self.bits(), 63, value),
            record@ == (Pdte4kFields { nx: value, ..self@ }),
    {
        proof {
            lemma_flag_bits(value);
            lemma_pdte_store(self.0, 63, 1, flag_bits(value));
        }
        Self(set_flag(self.0, 63, value))
    }
}

impl Pdte4k {
    /// The template of a page-directory entry: present, and every other field clear.
    pub fn init() -> (entry: Self)
        ensures
            entry.bits() == 1,
            entry@ == (Pdte4kFields { present: true, ..pdte_zero() }),
    {
        let entry = Self::from_bits(0);
        proof {
            lemma_pdte_zero();
            lemma_lowest_flag();
        }
        let entry = entry.with_present(true);
        proof {
            lemma_flag_restored(entry.bits(), 1, false);
        }
        let entry = entry.with_rw(false);
        proof {
            lemma_flag_restored(entry.bits(), 2, false);
        }
        let entry = entry.with_user(false);
        proof {
            lemma_flag_restored(entry.bits(), 3, false);
        }
        let entry = entry.with_write_through(false);
        proof {
            lemma_flag_restored(entry.bits(), 4, false);
        }
        let entry = entry.with_cache_disable(false);
        proof {
            lemma_flag_restored(entry.bits(), 5, false);
        }
        let entry = entry.with_accessed(false);
        proof {
            lemma_flag_restored(entry.bits(), 63, false);
        }
        let entry = entry.with_nx(false);
        entry
    }
}

/// The fields of a page-table entry, unpacked.
pub struct PteFields {
    /// Whether the page is mapped (bit 0).
    pub present: bool,
    /// Whether writes to the page are allowed (bit 1).
    pub rw: bool,
    /// Whether user-mode accesses to the page are allowed (bit 2).
    pub user: bool,
    /// Whether the page is cached write-through (bit 3).
    pub write_through: bool,
    /// Whether caching of the page is disabled (bit 4).
    pub cache_disable: bool,
    /// Whether the page has been accessed (bit 5).
    pub accessed: bool,
    /// Whether the page has been written to (bit 6).
    pub dirty: bool,
    /// The page-attribute-table selector of the page (bit 7).
    pub page_attribute: bool,
    /// Whether the mapping survives an address-space switch (bit 8).
    pub global: bool,
    /// Bits left to software (bits 9..12).
    pub available_2: nat,
    /// Frame number of the 4 KiB frame that the page is mapped to (bits 12..52).
    pub page_paddr: nat,
    /// Bits left to software (bits 52..59).
    pub available_3: nat,
    /// The protection key of the page (bits 59..63).
    pub mkp: nat,
    /// Whether instruction fetches from the page are forbidden (bit 63).
    pub nx: bool,
}

/// The fields that the word `bits` holds when it is read as a page-table entry.
pub open spec fn pte_fields(bits: u64) -> PteFields {
    PteFields {
        present: flag(bits, 0),
        rw: flag(bits, 1),
        user: flag(bits, 2),
        write_through: flag(bits, 3),
        cache_disable: flag(bits, 4),
        accessed: flag(bits, 5),
        dirty: flag(bits, 6),
        page_attribute: flag(bits, 7),
        global: flag(bits, 8),
        available_2: field(bits, 9, 3) as nat,
        page_paddr: field(bits, 12, 40) as nat,
        available_3: field(bits, 52, 7) as nat,
        mkp: field(bits, 59, 4) as nat,
        nx: flag(bits, 63),
    }
}

/// The fields of the page-table entry whose bits are all clear.
pub open spec fn pte_zero() -> PteFields {
    PteFields {
        present: false,
        rw: false,
        user: false,
        write_through: false,
        cache_disable: false,
        accessed: false,
        dirty: false,
        page_attribute: false,
        global: false,
        available_2: 0,
        page_paddr: 0,
        available_3: 0,
        mkp: 0,
        nx: false,
    }
}

/// Whether `[low, low + width)` is one of the fields of a page-table entry.
pub open spec fn is_pte_field(low: u64, width: u64) -> bool {
    ||| (low == 0 && width == 1)
    ||| (low == 1 && width == 1)
    ||| (low == 2 && width == 1)
    ||| (low == 3 && width == 1)
    ||| (low == 4 && width == 1)
    ||| (low == 5 && width == 1)
    ||| (low == 6 && width == 1)
    ||| (low == 7 && width == 1)
    ||| (low == 8 && width == 1)
    ||| (low == 9 && width == 3)
    ||| (low == 12 && width == 40)
    ||| (low == 52 && width == 7)
    ||| (low == 59 && width == 4)
    ||| (low == 63 && width == 1)
}

/// The word zero holds the page-table entry whose fields are all clear.
pub proof fn lemma_pte_zero()
    ensures
        pte_fields(0) == pte_zero(),
{
    lemma_field_bounds(0, 0, 1);
    lemma_field_bounds(0, 1, 1);
    lemma_field_bounds(0, 2, 1);
    lemma_field_bounds(0, 3, 1);
    lemma_field_bounds(0, 4, 1);
    lemma_field_bounds(0, 5, 1);
    lemma_field_bounds(0, 6, 1);
    lemma_field_bounds(0, 7, 1);
    lemma_field_bounds(0, 8, 1);
    lemma_field_bounds(0, 9, 3);
    lemma_field_bounds(0, 12, 40);
    lemma_field_bounds(0, 52, 7);
    lemma_field_bounds(0, 59, 4);
    lemma_field_bounds(0, 63, 1);
}

/// The fields of a page-table entry take up the whole word: two words that hold the
/// same fields are the same word.
pub proof fn lemma_pte_fields_cover(a: u64, b: u64)
    requires
        pte_fields(a) == pte_fields(b),
    ensures
        a == b,
{
    assert(a == b) by (bit_vector)
        requires
            flag(a, 0) == flag(b, 0),
            flag(a, 1) == flag(b, 1),
            flag(a, 2) == flag(b, 2),
            flag(a, 3) == flag(b, 3),
            flag(a, 4) == flag(b, 4),
            flag(a, 5) == flag(b, 5),
            flag(a, 6) == flag(b, 6),
            flag(a, 7) == flag(b, 7),
            flag(a, 8) == flag(b, 8),
            field(a, 9, 3) == field(b, 9, 3),
            field(a, 12, 40) == field(b, 12, 40),
            field(a, 52, 7) == field(b, 52, 7),
            field(a, 59, 4) == field(b, 59, 4),
            flag(a, 63) == flag(b, 63),
    ;
}

/// Storing into one field of a page-table entry changes that field and no other.
pub proof fn lemma_pte_store(bits: u64, low: u64, width: u64, value: u64)
    requires
        is_pte_field(low, width),
        value <= low_mask(width),
    ensures
        ({
            let before = pte_fields(bits);
            let after = pte_fields(with_field(bits, low, width, value));
            &&& after.present == if low == 0 { value == 1 } else { before.present }
            &&& after.rw == if low == 1 { value == 1 } else { before.rw }
            &&& after.user == if low == 2 { value == 1 } else { before.user }
            &&& after.write_through == if low == 3 { value == 1 } else { before.write_through }
            &&& after.cache_disable == if low == 4 { value == 1 } else { before.cache_disable }
            &&& after.accessed == if low == 5 { value == 1 } else { before.accessed }
            &&& after.dirty == if low == 6 { value == 1 } else { before.dirty }
            &&& after.page_attribute == if low == 7 { value == 1 } else { before.page_attribute }
            &&& after.global == if low == 8 { value == 1 } else { before.global }
            &&& after.available_2 == if low == 9 { value as nat } else { before.available_2 }
            &&& after.page_paddr == if low == 12 { value as nat } else { before.page_paddr }
            &&& after.available_3 == if low == 52 { value as nat } else { before.available_3 }
            &&& after.mkp == if low == 59 { value as nat } else { before.mkp }
            &&& after.nx == if low == 63 { value == 1 } else { before.nx }
        }),
{
    lemma_field_stored(bits, low, width, value);
    lemma_store_keeps(bits, low, width, value, 0, 1);
    lemma_store_keeps(bits, low, width, value, 1, 1);
    lemma_store_keeps(bits, low, width, value, 2, 1);
    lemma_store_keeps(bits, low, width, value, 3, 1);
    lemma_store_keeps(bits, low, width, value, 4, 1);
    lemma_store_keeps(bits, low, width, value, 5, 1);
    lemma_store_keeps(bits, low, width, value, 6, 1);
    lemma_store_keeps(bits, low, width, value, 7, 1);
    lemma_store_keeps(bits, low, width, value, 8, 1);
    lemma_store_keeps(bits, low, width, value, 9, 3);
    lemma_store_keeps(bits, low, width, value, 12, 40);
    lemma_store_keeps(bits, low, width, value, 52, 7);
    lemma_store_keeps(bits, low, width, value, 59, 4);
    lemma_store_keeps(bits, low, width, value, 63, 1);
}

/// An entry of a page table: the mapping of one 4 KiB page.
#[derive(Clone, Copy, Debug, PartialEq, Eq)]
pub struct Pte(u64);

impl View for Pte {
    type V = PteFields;

    open spec fn view(&self) -> PteFields {
        pte_fields(self.bits())
    }
}

impl Pte {
    /// The word that the page-table entry is stored as.
    pub closed spec fn bits(self) -> u64 {
        self.0
    }

    /// The page-table entry whose fields are all clear.
    pub fn new() -> (record: Self)
        ensures
            record.bits() == 0,
            record@ == pte_zero(),
    {
        proof {
            lemma_pte_zero();
        }
        Self(0)
    }

    /// The page-table entry that is stored as `bits`.
    pub fn from_bits(bits: u64) -> (record: Self)
        ensures
            record.bits() == bits,
    {
        Self(bits)
    }

    /// The word that the page-table entry is stored as.
    pub fn into_bits(self) -> (bits: u64)
        ensures
            bits == self.bits(),
    {
        self.0
    }

    /// Whether the page is mapped.
    pub fn present(&self) -> (value: bool)
        ensures
            value == self@.present,
    {
        get_flag(self.0, 0)
    }

    /// The same page-table entry with `present` replaced by `value`.
    pub fn with_present(self, value: bool) -> (record: Self)
        ensures
            record.bits() == with_flag(self.bits(), 0, value),
            record@ == (PteFields { present: value, ..self@ }),
    {
        proof {
            lemma_flag_bits(value);
            lemma_pte_store(self.0, 0, 1, flag_bits(value));
        }
        Self(set_flag(self.0, 0, value))
    }

    /// Whether writes to the page are allowed.
    pub fn rw(&self) -> (value: bool)
        ensures
            value == self@.rw,
    {
        get_flag(self.0, 1)
    }

    /// The same page-table entry with `rw` replaced by `value`.
    pub fn with_rw(self, value: bool) -> (record: Self)
        ensures
            record.bits() == with_flag(self.bits(), 1, value),
            record@ == (PteFields { rw: value, ..self@ }),
    {
        proof {
            lemma_flag_bits(value);
            lemma_pte_store(self.0, 1, 1, flag_bits(value));
        }
        Self(set_flag(self.0, 1, value))
    }

    /// Replaces `rw` by `value`.
    pub fn set_rw(&mut self, value: bool)
        ensures
            final(self).bits() == with_flag(old(self).bits(), 1, value),
            final(self)@ == (PteFields { rw: value, ..old(self)@ }),
    {
        proof {
            lemma_flag_bits(value);
            lemma_pte_store(self.0, 1, 1, flag_bits(value));
        }
        self.0 = set_flag(self.0, 1, value);
    }

    /// Whether user-mode accesses to the page are allowed.
    pub fn user(&self) -> (value: bool)
        ensures
            value == self@.user,
    {
        get_flag(self.0, 2)
    }

    /// The same page-table entry with `user` replaced by `value`.
    pub fn with_user(self, value: bool) -> (record: Self)
        ensures
            record.bits() == with_flag(self.bits(), 2, value),
            record@ == (PteFields { user: value, ..self@ }),
    {
        proof {
            lemma_flag_bits(value);
            lemma_pte_store(self.0, 2, 1, flag_bits(value));
        }
        Self(set_flag(self.0, 2, value))
    }

    /// Whether the page is cached write-through.
    pub fn write_through(&self) -> (value: bool)
        ensures
            value == self@.write_through,
    {
        get_flag(self.0, 3)
    }

    /// The same page-table entry with `write_through` replaced by `value`.
    pub fn with_write_through(self, value: bool) -> (record: Self)
        ensures
            record.bits() == with_flag(self.bits(), 3, value),
            record@ == (PteFields { write_through: value, ..self@ }),
    {
        proof {
            lemma_flag_bits(value);
            lemma_pte_store(self.0, 3, 1, flag_bits(value));
        }
        Self(set_flag(self.0, 3, value))
    }

    /// Whether caching of the page is disabled.
    pub fn cache_disable(&self) -> (value: bool)
        ensures
            value == self@.cache_disable,
    {
        get_flag(self.0, 4)
    }

    /// The same page-table entry with `cache_disable` replaced by `value`.
    pub fn with_cache_disable(self, value: bool) -> (record: Self)
        ensures
            record.bits() == with_flag(self.bits(), 4, value),
            record@ == (PteFields { cache_disable: value, ..self@ }),
    {
        proof {
            lemma_flag_bits(value);
            lemma_pte_store(self.0, 4, 1, flag_bits(value));
        }
        Self(set_flag(self.0, 4, value))
    }

    /// Whether the page has been accessed.
    pub fn accessed(&self) -> (value: bool)
        ensures
            value == self@.accessed,
    {
        get_flag(self.0, 5)
    }

    /// The same page-table entry with `accessed` replaced by `value`.
    pub fn with_accessed(self, value: bool) -> (record: Self)
        ensures
            record.bits() == with_flag(self.bits(), 5, value),
            record@ == (PteFields { accessed: value, ..self@ }),
    {
        proof {
            lemma_flag_bits(value);
            lemma_pte_store(self.0, 5, 1, flag_bits(value));
        }
        Self(set_flag(self.0, 5, value))
    }

    /// Whether the page has been written to.
    pub fn dirty(&self) -> (value: bool)
        ensures
            value == self@.dirty,
    {
        get_flag(self.0, 6)
    }

    /// The same page-table entry with `dirty` replaced by `value`.
    pub fn with_dirty(self, value: bool) -> (record: Self)
        ensures
            record.bits() == with_flag(self.bits(), 6, value),
            record@ == (PteFields { dirty: value, ..self@ }),
    {
        proof {
            lemma_flag_bits(value);
            lemma_pte_store(self.0, 6, 1, flag_bits(value));
        }
        Self(set_flag(self.0, 6, value))
    }

    /// The page-attribute-table selector of the page.
    pub fn page_attribute(&self) -> (value: bool)
        ensures
            value == self@.page_attribute,
    {
        get_flag(self.0, 7)
    }

    /// The same page-table entry with `page_attribute` replaced by `value`.
    pub fn with_page_attribute(self, value: bool) -> (record: Self)
        ensures
            record.bits() == with_flag(self.bits(), 7, value),
            record@ == (PteFields { page_attribute: value, ..self@ }),
    {
        proof {
            lemma_flag_bits(value);
            lemma_pte_store(self.0, 7, 1, flag_bits(value));
        }
        Self(set_flag(self.0, 7, value))
    }

    /// Whether the mapping survives an address-space switch.
    pub fn global(&self) -> (value: bool)
        ensures
            value == self@.global,
    {
        get_flag(self.0, 8)
    }

    /// The same page-table entry with `global` replaced by `value`.
    pub fn with_global(self, value: bool) -> (record: Self)
        ensures
            record.bits() == with_flag(self.bits(), 8, value),
            record@ == (PteFields { global: value, ..self@ }),
    {
        proof {
            lemma_flag_bits(value);
            lemma_pte_store(self.0, 8, 1, flag_bits(value));
        }
        Self(set_flag(self.0, 8, value))
    }

    /// Bits left to software.
    pub fn available_2(&self) -> (value: u64)
        ensures
            value == self@.available_2,
            value <= 7,
    {
        proof {
            lemma_low_masks();
        }
        get_field(self.0, 9, 3)
    }

    /// The same page-table entry with `available_2` replaced by `value`.
    pub fn with_available_2(self, value: u64) -> (record: Self)
        requires
            value <= 7,
        ensures
            record.bits() == with_field(self.bits(), 9, 3, value as u64),
            record@ == (PteFields { available_2: value as nat, ..self@ }),
    {
        proof {
            lemma_low_masks();
            lemma_pte_store(self.0, 9, 3, value as u64);
        }
        Self(set_field(self.0, 9, 3, value))
    }

    /// Frame number of the 4 KiB frame that the page is mapped to.
    pub fn page_paddr(&self) -> (value: u64)
        ensures
            value == self@.page_paddr,
            value <= 0xFF_FFFF_FFFF,
    {
        proof {
            lemma_low_masks();
        }
        get_field(self.0, 12, 40)
    }

    /// The same page-table entry with `page_paddr` replaced by `value`.
    pub fn with_page_paddr(self, value: u64) -> (record: Self)
        requires
            value <= 0xFF_FFFF_FFFF,
        ensures
            record.bits() == with_field(self.bits(), 12, 40, value as u64),
            record@ == (PteFields { page_paddr: value as nat, ..self@ }),
    {
        proof {
            lemma_low_masks();
            lemma_pte_store(self.0, 12, 40, value as u64);
        }
        Self(set_field(self.0, 12, 40, value))
    }

    /// Replaces `page_paddr` by `value`.
    pub fn set_page_paddr(&mut self, value: u64)
        requires
            value <= 0xFF_FFFF_FFFF,
        ensures
            final(self).bits() == with_field(old(self).bits(), 12, 40, value as u64),
            final(self)@ == (PteFields { page_paddr: value as nat, ..old(self)@ }),
    {
        proof {
            lemma_low_masks();
            lemma_pte_store(self.0, 12, 40, value as u64);
        }
        self.0 = set_field(self.0, 12, 40, value);
    }

    /// Bits left to software.
    pub fn available_3(&self) -> (value: u64)
        ensures
            value == self@.available_3,
            value <= 0x7F,
    {
        proof {
            lemma_low_masks();
        }
        get_field(self.0, 52, 7)
    }

    /// The same page-table entry with `available_3` replaced by `value`.
    pub fn with_available_3(self, value: u64) -> (record: Self)
        requires
            value <= 0x7F,
        ensures
            record.bits() == with_field(self.bits(), 52, 7, value as u64),
            record@ == (PteFields { available_3: value as nat, ..self@ }),
    {
        proof {
            lemma_low_masks();
            lemma_pte_store(self.0, 52, 7, value as u64);
        }
        Self(set_field(self.0, 52, 7, value))
    }

    /// The protection key of the page.
    pub fn mkp(&self) -> (value: u64)
        ensures
            value == self@.mkp,
            value <= 0xF,
    {
        proof {
            lemma_low_masks();
        }
        get_field(self.0, 59, 4)
    }

    /// The same page-table entry with `mkp` replaced by `value`.
    pub fn with_mkp(self, value: u64) -> (record: Self)
        requires
            value <= 0xF,
        ensures
            record.bits() == with_field(self.bits(), 59, 4, value as u64),
            record@ == (PteFields { mkp: value as nat, ..self@ }),
    {
        proof {
            lemma_low_masks();
            lemma_pte_store(self.0, 59, 4, value as u64);
        }
        Self(set_field(self.0, 59, 4, value))
    }

    /// Whether instruction fetches from the page are forbidden.
    pub fn nx(&self) -> (value: bool)
        ensures
            value == self@.nx,
    {
        get_flag(self.0, 63)
    }

    /// The same page-table entry with `nx` replaced by `value`.
    pub fn with_nx(self, value: bool) -> (record: Self)
        ensures
            record.bits() == with_flag(self.bits(), 63, value),
            record@ == (PteFields { nx: value, ..self@ }),
    {
        proof {
            lemma_flag_bits(value);
            lemma_pte_store(self.0, 63, 1, flag_bits(value));
        }
        Self(set_flag(self.0, 63, value))
    }
}

impl Pte {
    /// The template of a page-table entry: present, and every other field clear.
    pub fn init() -> (entry: Self)
        ensures
            entry.bits() == 1,
            entry@ == (PteFields { present: true, ..pte_zero() }),
    {
        let entry = Self::from_bits(0);
        proof {
            lemma_pte_zero();
            lemma_lowest_flag();
        }
        let entry = entry.with_present(true);
        proof {
            lemma_flag_restored(entry.bits(), 1, false);
        }
        let entry = entry.with_rw(false);
        proof {
            lemma_flag_restored(entry.bits(), 2, false);
        }
        let entry = entry.with_user(false);
        proof {
            lemma_flag_restored(entry.bits(), 3, false);
        }
        let entry = entry.with_write_through(false);
        proof {
            lemma_flag_restored(entry.bits(), 4, false);
        }
        let entry = entry.with_cache_disable(false);
        proof {
            lemma_flag_restored(entry.bits(), 5, false);
        }
        let entry = entry.with_accessed(false);
        proof {
            lemma_flag_restored(entry.bits(), 7, false);
        }
        let entry = entry.with_page_attribute(false);
        proof {
            lemma_flag_restored(entry.bits(), 63, false);
        }
        let entry = entry.with_nx(false);
        entry
    }
}

/// The level-5 table.
pub struct Pml5Table4k(pub [Pml5te4k; 512]);

impl Pml5Table4k {
    /// The table whose entries are all clear: nothing is mapped through it.
    pub fn empty() -> (table: Self)
        ensures
            forall|i: int| 0 <= i < 512 ==> (#[trigger] table.0[i]).bits() == 0,
            forall|i: int| 0 <= i < 512 ==> (#[trigger] table.0[i])@ == pml5te_zero(),
    {
        let clear = Pml5te4k::new();
        Self([clear; 512])
    }
}

/// The level-4 table.
pub struct Pml4Table4k(pub [Pml4te4k; 512]);

impl Pml4Table4k {
    /// The table whose entries are all clear: nothing is mapped through it.
    pub fn empty() -> (table: Self)
        ensures
            forall|i: int| 0 <= i < 512 ==> (#[trigger] table.0[i]).bits() == 0,
            forall|i: int| 0 <= i < 512 ==> (#[trigger] table.0[i])@ == pml4te_zero(),
    {
        let clear = Pml4te4k::new();
        Self([clear; 512])
    }
}

/// A page-directory-pointer table.
pub struct PageDirectoryPointerTable4k(pub [Pdpte4k; 512]);

impl PageDirectoryPointerTable4k {
    /// The table whose entries are all clear: nothing is mapped through it.
    pub fn empty() -> (table: Self)
        ensures
            forall|i: int| 0 <= i < 512 ==> (#[trigger] table.0[i]).bits() == 0,
            forall|i: int| 0 <= i < 512 ==> (#[trigger] table.0[i])@ == pdpte_zero(),
    {
        let clear = Pdpte4k::new();
        Self([clear; 512])
    }
}

/// A page directory.
pub struct PageDirectoryTable4k(pub [Pdte4k; 512]);

impl PageDirectoryTable4k {
    /// The table whose entries are all clear: nothing is mapped through it.
    pub fn empty() -> (table: Self)
        ensures
            forall|i: int| 0 <= i < 512 ==> (#[trigger] table.0[i]).bits() == 0,
            forall|i: int| 0 <= i < 512 ==> (#[trigger] table.0[i])@ == pdte_zero(),
    {
        let clear = Pdte4k::new();
        Self([clear; 512])
    }
}

/// A page table: 512 entries that map 2 MiB of address space.
pub struct PageTable(pub [Pte; 512]);

/// The fields of the entry that maps the page with number `page` to the frame
/// with the same number, writable.
pub open spec fn identity_fields(page: nat) -> PteFields {
    PteFields { present: true, rw: true, page_paddr: page, ..pte_zero() }
}

/// The word of the entry that maps the page with number `page` to the frame
/// with the same number, writable: the address of the frame, with the
/// present bit and the writable bit set.
pub open spec fn identity_bits(page: nat) -> u64 {
    (page * PAGE_BYTES + 3) as u64
}

/// The word that the builders give for an identity entry.
proof fn lemma_identity_word(page: u64)
    by (bit_vector)
    requires
        page < 512,
    ensures
        with_field(with_field(1, 12, 40, page), 1, 1, 1) == page * 4096 + 3,
{
}

impl PageTable {
    /// The page table that maps every page of the first 2 MiB but the first
    /// to the frame at its own address, writable. The first page stays
    /// unmapped, so that an access through a null pointer faults.
    pub fn identity() -> (table: Self)
        ensures
            table.0[0].bits() == 0,
            table.0[0]@ == pte_zero(),
            forall|i: int| 1 <= i < 512 ==> (#[trigger] table.0[i])@ == identity_fields(i as nat),
            forall|i: int|
                1 <= i < 512 ==> (#[trigger] table.0[i]).bits() == identity_bits(i as nat),
    {
        let unmapped = Pte::new();
        let mut entries = [unmapped; 512];
        let mut i: usize = 1;
        while i < 512
            invariant
                1 <= i <= 512,
                entries[0] == unmapped,
                unmapped.bits() == 0,
                unmapped@ == pte_zero(),
                forall|j: int| 1 <= j < i ==> (#[trigger] entries[j])@ == identity_fields(j as nat),
                forall|j: int|
                    1 <= j < i ==> (#[trigger] entries[j]).bits() == identity_bits(j as nat),
            decreases 512 - i,
        {
            proof {
                lemma_identity_word(i as u64);
            }
            let mut entry = Pte::init();
            entry.set_page_paddr(i as u64);
            entry.set_rw(true);
            entries[i] = entry;
            i += 1;
        }
        Self(entries)
    }
}

} // verus!
