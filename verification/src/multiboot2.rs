//! The two records of the multiboot2 protocol: the header by which the image
//! tells the loader what it asks for, and the boot information that the
//! loader hands to the image.
//!
//! The header is a checksummed record followed by tags and closed by a final
//! tag. The boot information is a block of bytes that starts with its total
//! size and holds a sequence of tags, each with a type and a size, each
//! starting on a multiple of eight bytes. [`Multiboot2InfoIter`] walks the
//! tags of such a block; it reads nothing past the total size that the
//! block declares and nothing past the block.

use vstd::prelude::*;
use crate::bytes::{
    push_u16, push_u32, read_u32, read_u64, u16_le, u32_from_le, u32_le, u64_from_le,
};

verus! {

/// The number that marks a multiboot2 header.
pub const MULTIBOOT2_HEADER_MAGIC: u32 = 0xE85250D6;

/// The number that a multiboot2 loader passes to the image that it starts.
pub const MULTIBOOT2_LOAD_MAGIC: u32 = 0x36D76289;

/// The magic number of a header.
#[derive(Clone, Copy, Debug, PartialEq, Eq)]
pub struct Multiboot2Magic(pub u32);

impl Multiboot2Magic {
    pub fn new() -> (magic: Self)
        ensures
            magic.0 == MULTIBOOT2_HEADER_MAGIC,
    {
        Self(MULTIBOOT2_HEADER_MAGIC)
    }
}

/// The architecture that a header asks to be started in.
#[allow(non_camel_case_types)]
#[derive(Clone, Copy, Debug, PartialEq, Eq)]
pub enum Multiboot2Arch {
    /// 32-bit protected mode.
    PROTECTED_MODE,
}

impl Multiboot2Arch {
    /// The number of the architecture.
    pub open spec fn number(self) -> u32 {
        ARCH_PROTECTED_MODE
    }

    /// The number of the architecture.
    pub fn code(self) -> (code: u32)
        ensures
            code == self.number(),
    {
        match self {
            Multiboot2Arch::PROTECTED_MODE => ARCH_PROTECTED_MODE,
        }
    }
}

/// The type of a tag of a header.
#[allow(non_camel_case_types)]
#[derive(Clone, Copy, Debug, PartialEq, Eq)]
pub enum Multiboot2TagType {
    /// The tag that closes a header.
    FINAL,
    /// The tag that asks for a framebuffer.
    FRAMEBUFFER,
}

impl Multiboot2TagType {
    /// The number of the type.
    pub open spec fn number(self) -> u16 {
        match self {
            Multiboot2TagType::FINAL => 0,
            Multiboot2TagType::FRAMEBUFFER => 5,
        }
    }

    /// The number of the type.
    pub fn code(self) -> (code: u16)
        ensures
            code == self.number(),
    {
        match self {
            Multiboot2TagType::FINAL => 0,
            Multiboot2TagType::FRAMEBUFFER => 5,
        }
    }
}

/// What every tag of a header starts with.
#[derive(Clone, Copy, Debug, PartialEq, Eq)]
pub struct Multiboot2TagBase {
    pub type_: Multiboot2TagType,
    pub flags: u16,
    /// Number of bytes of the tag, these eight included.
    pub size: u32,
}

impl Multiboot2TagBase {
    /// The eight bytes of the start of a tag.
    pub open spec fn bytes(self) -> Seq<u8> {
        u16_le(self.type_.number()) + u16_le(self.flags) + u32_le(self.size)
    }

    fn append_to(&self, out: &mut Vec<u8>)
        ensures
            final(out)@ == old(out)@ + self.bytes(),
    {
        push_u16(out, self.type_.code());
        push_u16(out, self.flags);
        push_u32(out, self.size);
        assert(out@ =~= old(out)@ + self.bytes());
    }
}

/// Number of bytes of a framebuffer tag.
pub const FRAMEBUFFER_TAG_BYTES: u32 = 24;

/// Number of bytes of a final tag.
pub const FINAL_TAG_BYTES: u32 = 8;

/// Number of bytes of a header before its tags.
pub const HEADER_FIXED_BYTES: u32 = 16;

/// Number of bytes of the header that asks for nothing.
pub const PLAIN_HEADER_BYTES: u32 = 24;

/// The checksum of the header that asks for nothing.
pub const PLAIN_HEADER_CHECKSUM: u32 = 0x17AD_AF12;

/// The number of the architecture 32-bit protected mode.
pub const ARCH_PROTECTED_MODE: u32 = 0;

/// The tag of a header that asks the loader for a framebuffer.
#[derive(Clone, Copy, Debug, PartialEq, Eq)]
pub struct Multiboot2FramebufferTag {
    pub base: Multiboot2TagBase,
    pub width: u32,
    pub height: u32,
    pub depth: u32,
    pub pad: u32,
}

impl Multiboot2FramebufferTag {
    /// The tag that asks for 1024 by 768 pixels of 32 bits.
    pub fn new() -> (tag: Self)
        ensures
            tag == (Multiboot2FramebufferTag {
                base: Multiboot2TagBase {
                    type_: Multiboot2TagType::FRAMEBUFFER,
                    flags: 0,
                    size: FRAMEBUFFER_TAG_BYTES,
                },
                width: 1024,
                height: 768,
                depth: 32,
                pad: 0,
            }),
    {
        Self {
            base: Multiboot2TagBase {
                type_: Multiboot2TagType::FRAMEBUFFER,
                flags: 0,
                size: FRAMEBUFFER_TAG_BYTES,
            },
            width: 1024,
            height: 768,
            depth: 32,
            pad: 0,
        }
    }

    /// The 24 bytes of the tag.
    pub open spec fn bytes(self) -> Seq<u8> {
        self.base.bytes() + u32_le(self.width) + u32_le(self.height) + u32_le(self.depth) + u32_le(
            self.pad,
        )
    }

    fn append_to(&self, out: &mut Vec<u8>)
        ensures
            final(out)@ == old(out)@ + self.bytes(),
    {
        self.base.append_to(out);
        push_u32(out, self.width);
        push_u32(out, self.height);
        push_u32(out, self.depth);
        push_u32(out, self.pad);
        assert(out@ =~= old(out)@ + self.bytes());
    }
}

/// The tag that closes a header.
#[derive(Clone, Copy, Debug, PartialEq, Eq)]
pub struct Multiboot2FinalTag {
    pub base: Multiboot2TagBase,
}

impl Multiboot2FinalTag {
    pub fn new() -> (tag: Self)
        ensures
            tag == (Multiboot2FinalTag {
                base: Multiboot2TagBase {
                    type_: Multiboot2TagType::FINAL,
                    flags: 0,
                    size: FINAL_TAG_BYTES,
                },
            }),
    {
        Self {
            base: Multiboot2TagBase {
                type_: Multiboot2TagType::FINAL,
                flags: 0,
                size: FINAL_TAG_BYTES,
            },
        }
    }
}

/// Whether the four words add up to zero in 32-bit arithmetic: what the
/// loader checks of the first four words of a header.
pub open spec fn balanced(magic: u32, arch: u32, header_length: u32, checksum: u32) -> bool {
    (magic + arch + header_length + checksum) % 0x1_0000_0000 == 0
}

/// Only one checksum balances a magic number, an architecture and a length.
pub proof fn lemma_checksum_unique(magic: u32, arch: u32, header_length: u32, a: u32, b: u32)
    requires
        balanced(magic, arch, header_length, a),
        balanced(magic, arch, header_length, b),
    ensures
        a == b,
{
}

/// The header of the image.
#[derive(Clone, Copy, Debug, PartialEq, Eq)]
pub struct Multiboot2Header {
    magic: Multiboot2Magic,
    arch: Multiboot2Arch,
    header_length: u32,
    checksum: u32,
    framebuffer_tag: Option<Multiboot2FramebufferTag>,
    final_tag: Multiboot2FinalTag,
}

impl Multiboot2Header {
    /// The magic number of the header.
    pub closed spec fn spec_magic(&self) -> u32 {
        self.magic.0
    }

    /// The architecture of the header.
    pub closed spec fn spec_arch(&self) -> Multiboot2Arch {
        self.arch
    }

    /// Number of bytes of the header, tags included.
    pub closed spec fn spec_header_length(&self) -> u32 {
        self.header_length
    }

    /// The checksum of the header.
    pub closed spec fn spec_checksum(&self) -> u32 {
        self.checksum
    }

    /// The framebuffer tag of the header, where it has one.
    pub closed spec fn spec_framebuffer_tag(&self) -> Option<Multiboot2FramebufferTag> {
        self.framebuffer_tag
    }

    /// The final tag of the header.
    pub closed spec fn spec_final_tag(&self) -> Multiboot2FinalTag {
        self.final_tag
    }

    /// Whether the header is one that the loader accepts: the magic number,
    /// the length of its bytes, a checksum that balances, and the final tag
    /// last.
    pub open spec fn wf(&self) -> bool {
        &&& self.magic() == MULTIBOOT2_HEADER_MAGIC
        &&& self.header_length() == self.bytes().len()
        &&& balanced(self.magic(), self.arch().number(), self.header_length(), self.checksum())
        &&& self.final_tag().base == (Multiboot2TagBase {
            type_: Multiboot2TagType::FINAL,
            flags: 0,
            size: FINAL_TAG_BYTES,
        })
    }

    /// The bytes of the header as the loader reads them: magic number,
    /// architecture, length, checksum, then the tags with the final tag last.
    pub open spec fn bytes(&self) -> Seq<u8> {
        u32_le(self.magic()) + u32_le(self.arch().number()) + u32_le(self.header_length()) + u32_le(
            self.checksum(),
        ) + (match self.framebuffer_tag() {
            Some(tag) => tag.bytes(),
            None => Seq::empty(),
        }) + self.final_tag().base.bytes()
    }

    /// The checksum of a header of `header_length` bytes: the number that
    /// balances the magic number, the architecture and the length.
    pub fn checksum_for(header_length: u32) -> (checksum: u32)
        ensures
            balanced(
                MULTIBOOT2_HEADER_MAGIC,
                Multiboot2Arch::PROTECTED_MODE.number(),
                header_length,
                checksum,
            ),
    {
        let sum: u64 = MULTIBOOT2_HEADER_MAGIC as u64 + Multiboot2Arch::PROTECTED_MODE.code() as u64
            + header_length as u64;
        ((0x2_0000_0000 - sum) % 0x1_0000_0000) as u32
    }

    /// The header that asks for nothing: no tag but the final one.
    pub fn new() -> (header: Self)
        ensures
            header.wf(),
            header.arch() == Multiboot2Arch::PROTECTED_MODE,
            header.header_length() == PLAIN_HEADER_BYTES,
            header.checksum() == PLAIN_HEADER_CHECKSUM,
            header.framebuffer_tag().is_none(),
    {
        let header = Self {
            magic: Multiboot2Magic::new(),
            arch: Multiboot2Arch::PROTECTED_MODE,
            header_length: HEADER_FIXED_BYTES + FINAL_TAG_BYTES,
            checksum: Self::checksum_for(HEADER_FIXED_BYTES + FINAL_TAG_BYTES),
            framebuffer_tag: None,
            final_tag: Multiboot2FinalTag::new(),
        };
        header
    }

    /// The header that asks for the framebuffer of `tag`: the tag stands
    /// before the final tag, and the length and the checksum count it.
    pub fn with_framebuffer(tag: Multiboot2FramebufferTag) -> (header: Self)
        ensures
            header.wf(),
            header.arch() == Multiboot2Arch::PROTECTED_MODE,
            header.header_length() == HEADER_FIXED_BYTES + FRAMEBUFFER_TAG_BYTES + FINAL_TAG_BYTES,
            header.framebuffer_tag() == Some(tag),
    {
        let length: u32 = HEADER_FIXED_BYTES + FRAMEBUFFER_TAG_BYTES + FINAL_TAG_BYTES;
        Self {
            magic: Multiboot2Magic::new(),
            arch: Multiboot2Arch::PROTECTED_MODE,
            header_length: length,
            checksum: Self::checksum_for(length),
            framebuffer_tag: Some(tag),
            final_tag: Multiboot2FinalTag::new(),
        }
    }

    /// The magic number of the header.
    #[verifier::when_used_as_spec(spec_magic)]
    pub fn magic(&self) -> (magic: u32)
        ensures
            magic == self.spec_magic(),
    {
        self.magic.0
    }

    /// The architecture of the header.
    #[verifier::when_used_as_spec(spec_arch)]
    pub fn arch(&self) -> (arch: Multiboot2Arch)
        ensures
            arch == self.spec_arch(),
    {
        self.arch
    }

    /// Number of bytes of the header, tags included.
    #[verifier::when_used_as_spec(spec_header_length)]
    pub fn header_length(&self) -> (header_length: u32)
        ensures
            header_length == self.spec_header_length(),
    {
        self.header_length
    }

    /// The checksum of the header.
    #[verifier::when_used_as_spec(spec_checksum)]
    pub fn checksum(&self) -> (checksum: u32)
        ensures
            checksum == self.spec_checksum(),
    {
        self.checksum
    }

    /// The framebuffer tag of the header, where it has one.
    #[verifier::when_used_as_spec(spec_framebuffer_tag)]
    pub fn framebuffer_tag(&self) -> (tag: Option<Multiboot2FramebufferTag>)
        ensures
            tag == self.spec_framebuffer_tag(),
    {
        self.framebuffer_tag
    }

    /// The final tag of the header.
    #[verifier::when_used_as_spec(spec_final_tag)]
    pub fn final_tag(&self) -> (tag: Multiboot2FinalTag)
        ensures
            tag == self.spec_final_tag(),
    {
        self.final_tag
    }

    /// The bytes of the header as the loader reads them.
    pub fn to_bytes(&self) -> (bytes: Vec<u8>)
        ensures
            bytes@ == self.bytes(),
    {
        let mut out: Vec<u8> = Vec::new();
        push_u32(&mut out, self.magic.0);
        push_u32(&mut out, self.arch.code());
        push_u32(&mut out, self.header_length);
        push_u32(&mut out, self.checksum);
        match &self.framebuffer_tag {
            Some(tag) => {
                tag.append_to(&mut out);
            },
            None => {},
        }
        self.final_tag.base.append_to(&mut out);
        assert(out@ =~= self.bytes());
        out
    }
}

/// What a block of boot information starts with.
#[derive(Clone, Copy, Debug, PartialEq, Eq)]
pub struct Multiboot2InfoHeader {
    /// Number of bytes of the block, these eight included.
    pub total_size: u32,
    pub reserved: u32,
}

/// Number of bytes of the start of a block of boot information.
pub const INFO_HEADER_BYTES: usize = 8;

/// Number of bytes of the start of a tag of boot information.
pub const INFO_TAG_BYTES: usize = 8;

/// Number of bytes of a memory-map tag before its entries.
pub const MEMORY_MAP_TAG_BYTES: usize = 16;

/// Number of bytes of an entry of the memory map that are read.
pub const MEMORY_MAP_ENTRY_BYTES: usize = 24;

/// The number of the type of the tag that closes the boot information.
pub const INFO_TAG_END: u32 = 0;

/// The number of the type of the memory-map tag.
pub const INFO_TAG_MEMORY_MAP: u32 = 6;

impl Multiboot2InfoHeader {
    /// The start of the block `block`.
    pub fn read(block: &[u8]) -> (header: Self)
        requires
            block.len() >= INFO_HEADER_BYTES,
        ensures
            header.total_size == u32_from_le(block@, 0),
            header.reserved == u32_from_le(block@, 4),
    {
        Self { total_size: read_u32(block, 0), reserved: read_u32(block, 4) }
    }
}

/// What a tag of boot information starts with.
#[derive(Clone, Copy, Debug, PartialEq, Eq)]
pub struct Multiboot2InfoTag {
    pub type_: u32,
    /// Number of bytes of the tag, these eight included.
    pub size: u32,
}

impl Multiboot2InfoTag {
    /// The start of the tag that stands at index `at` of `block`.
    pub open spec fn at(block: Seq<u8>, at: int) -> Multiboot2InfoTag {
        Multiboot2InfoTag { type_: u32_from_le(block, at), size: u32_from_le(block, at + 4) }
    }

    /// The start of the tag that stands at index `at` of `block`.
    pub fn read(block: &[u8], at: usize) -> (tag: Self)
        requires
            at + INFO_TAG_BYTES <= block.len(),
        ensures
            tag == Self::at(block@, at as int),
    {
        Self { type_: read_u32(block, at), size: read_u32(block, at + 4) }
    }
}

/// The types of tags of boot information that the protocol names.
#[allow(non_camel_case_types)]
#[derive(Clone, Copy, Debug, PartialEq, Eq)]
pub enum Multiboot2InfoTagType {
    BOOT_CMDLINE,
    BOOTLOADER_NAME,
    MODULES,
    BASIC_MEMORY_INFO,
    BIOS_BOOT_DEVICE,
    MEMORY_MAP,
    VBE_INFO,
    FRAMEBUFFER_INFO,
    ELF_SYMBOLS,
    APM_TABLE,
    EFI_SYSTEM_TABLE_PTR_32,
    EFI_SYSTEM_TABLE_PTR_64,
    SMBIOS_TABLES,
    ACPI_1_0_RSDP,
    ACPI_2_0_RSDP,
    NETWORKING_INFO,
    EFI_MEMORY_MAP,
    EFI_BOOT_SERVICES_NOT_TERMINATED,
    EFI_IMAGE_HANDLE_PTR_32,
    EFI_IMAGE_HANDLE_PTR_64,
    IMAGE_LOAD_BASE_PADDR,
}

impl Multiboot2InfoTagType {
    /// The number of the type, 1 to 21.
    pub open spec fn number(self) -> u32 {
        match self {
            Multiboot2InfoTagType::BOOT_CMDLINE => 1,
            Multiboot2InfoTagType::BOOTLOADER_NAME => 2,
            Multiboot2InfoTagType::MODULES => 3,
            Multiboot2InfoTagType::BASIC_MEMORY_INFO => 4,
            Multiboot2InfoTagType::BIOS_BOOT_DEVICE => 5,
            Multiboot2InfoTagType::MEMORY_MAP => 6,
            Multiboot2InfoTagType::VBE_INFO => 7,
            Multiboot2InfoTagType::FRAMEBUFFER_INFO => 8,
            Multiboot2InfoTagType::ELF_SYMBOLS => 9,
            Multiboot2InfoTagType::APM_TABLE => 10,
            Multiboot2InfoTagType::EFI_SYSTEM_TABLE_PTR_32 => 11,
            Multiboot2InfoTagType::EFI_SYSTEM_TABLE_PTR_64 => 12,
            Multiboot2InfoTagType::SMBIOS_TABLES => 13,
            Multiboot2InfoTagType::ACPI_1_0_RSDP => 14,
            Multiboot2InfoTagType::ACPI_2_0_RSDP => 15,
            Multiboot2InfoTagType::NETWORKING_INFO => 16,
            Multiboot2InfoTagType::EFI_MEMORY_MAP => 17,
            Multiboot2InfoTagType::EFI_BOOT_SERVICES_NOT_TERMINATED => 18,
            Multiboot2InfoTagType::EFI_IMAGE_HANDLE_PTR_32 => 19,
            Multiboot2InfoTagType::EFI_IMAGE_HANDLE_PTR_64 => 20,
            Multiboot2InfoTagType::IMAGE_LOAD_BASE_PADDR => 21,
        }
    }

    /// The number of the type.
    pub fn code(self) -> (code: u32)
        ensures
            code == self.number(),
            1 <= code <= 21,
    {
        match self {
            Multiboot2InfoTagType::BOOT_CMDLINE => 1,
            Multiboot2InfoTagType::BOOTLOADER_NAME => 2,
            Multiboot2InfoTagType::MODULES => 3,
            Multiboot2InfoTagType::BASIC_MEMORY_INFO => 4,
            Multiboot2InfoTagType::BIOS_BOOT_DEVICE => 5,
            Multiboot2InfoTagType::MEMORY_MAP => 6,
            Multiboot2InfoTagType::VBE_INFO => 7,
            Multiboot2InfoTagType::FRAMEBUFFER_INFO => 8,
            Multiboot2InfoTagType::ELF_SYMBOLS => 9,
            Multiboot2InfoTagType::APM_TABLE => 10,
            Multiboot2InfoTagType::EFI_SYSTEM_TABLE_PTR_32 => 11,
            Multiboot2InfoTagType::EFI_SYSTEM_TABLE_PTR_64 => 12,
            Multiboot2InfoTagType::SMBIOS_TABLES => 13,
            Multiboot2InfoTagType::ACPI_1_0_RSDP => 14,
            Multiboot2InfoTagType::ACPI_2_0_RSDP => 15,
            Multiboot2InfoTagType::NETWORKING_INFO => 16,
            Multiboot2InfoTagType::EFI_MEMORY_MAP => 17,
            Multiboot2InfoTagType::EFI_BOOT_SERVICES_NOT_TERMINATED => 18,
            Multiboot2InfoTagType::EFI_IMAGE_HANDLE_PTR_32 => 19,
            Multiboot2InfoTagType::EFI_IMAGE_HANDLE_PTR_64 => 20,
            Multiboot2InfoTagType::IMAGE_LOAD_BASE_PADDR => 21,
        }
    }

    /// The type with the number `n`, where the protocol names one.
    pub fn from_u32(n: u32) -> (named: Option<Self>)
        ensures
            1 <= n <= 21 <==> named.is_some(),
            named matches Some(t) ==> t.number() == n,
    {
        match n {
            1 => Some(Multiboot2InfoTagType::BOOT_CMDLINE),
            2 => Some(Multiboot2InfoTagType::BOOTLOADER_NAME),
            3 => Some(Multiboot2InfoTagType::MODULES),
            4 => Some(Multiboot2InfoTagType::BASIC_MEMORY_INFO),
            5 => Some(Multiboot2InfoTagType::BIOS_BOOT_DEVICE),
            6 => Some(Multiboot2InfoTagType::MEMORY_MAP),
            7 => Some(Multiboot2InfoTagType::VBE_INFO),
            8 => Some(Multiboot2InfoTagType::FRAMEBUFFER_INFO),
            9 => Some(Multiboot2InfoTagType::ELF_SYMBOLS),
            10 => Some(Multiboot2InfoTagType::APM_TABLE),
            11 => Some(Multiboot2InfoTagType::EFI_SYSTEM_TABLE_PTR_32),
            12 => Some(Multiboot2InfoTagType::EFI_SYSTEM_TABLE_PTR_64),
            13 => Some(Multiboot2InfoTagType::SMBIOS_TABLES),
            14 => Some(Multiboot2InfoTagType::ACPI_1_0_RSDP),
            15 => Some(Multiboot2InfoTagType::ACPI_2_0_RSDP),
            16 => Some(Multiboot2InfoTagType::NETWORKING_INFO),
            17 => Some(Multiboot2InfoTagType::EFI_MEMORY_MAP),
            18 => Some(Multiboot2InfoTagType::EFI_BOOT_SERVICES_NOT_TERMINATED),
            19 => Some(Multiboot2InfoTagType::EFI_IMAGE_HANDLE_PTR_32),
            20 => Some(Multiboot2InfoTagType::EFI_IMAGE_HANDLE_PTR_64),
            21 => Some(Multiboot2InfoTagType::IMAGE_LOAD_BASE_PADDR),
            _ => None,
        }
    }
}

/// What a memory-map tag starts with.
#[derive(Clone, Copy, Debug, PartialEq, Eq)]
pub struct Multiboot2MemoryMapTag {
    pub base: Multiboot2InfoTag,
    /// Number of bytes from one entry to the next.
    pub entry_size: u32,
    pub entry_version: u32,
}

impl Multiboot2MemoryMapTag {
    /// The start of the memory-map tag that stands at index `at` of `block`.
    pub open spec fn at(block: Seq<u8>, at: int) -> Multiboot2MemoryMapTag {
        Multiboot2MemoryMapTag {
            base: Multiboot2InfoTag::at(block, at),
            entry_size: u32_from_le(block, at + 8),
            entry_version: u32_from_le(block, at + 12),
        }
    }

    /// The start of the memory-map tag that stands at index `at` of `block`.
    pub fn read(block: &[u8], at: usize) -> (tag: Self)
        requires
            at + MEMORY_MAP_TAG_BYTES <= block.len(),
        ensures
            tag == Self::at(block@, at as int),
    {
        Self {
            base: Multiboot2InfoTag::read(block, at),
            entry_size: read_u32(block, at + 8),
            entry_version: read_u32(block, at + 12),
        }
    }

    /// Number of bytes from one entry to the next that the walk goes by: the
    /// declared number, but never less than the bytes that are read of an
    /// entry.
    pub open spec fn stride(self) -> int {
        if self.entry_size < MEMORY_MAP_ENTRY_BYTES {
            MEMORY_MAP_ENTRY_BYTES as int
        } else {
            self.entry_size as int
        }
    }

    /// Number of entries of the tag: as many strides as fit after the start
    /// of the tag.
    pub open spec fn count(self) -> int {
        if self.base.size < MEMORY_MAP_TAG_BYTES {
            0
        } else {
            (self.base.size - MEMORY_MAP_TAG_BYTES) / self.stride()
        }
    }
}

/// One entry of the memory map: a range of physical memory and what it is.
#[derive(Clone, Copy, Debug, PartialEq, Eq)]
pub struct Multiboot2MemoryMapEntry {
    pub base_paddr: u64,
    pub length: u64,
    pub type_: u32,
    pub reserved: u32,
}

impl Multiboot2MemoryMapEntry {
    /// The entry that stands at index `at` of `block`.
    pub open spec fn at(block: Seq<u8>, at: int) -> Multiboot2MemoryMapEntry {
        Multiboot2MemoryMapEntry {
            base_paddr: u64_from_le(block, at),
            length: u64_from_le(block, at + 8),
            type_: u32_from_le(block, at + 16),
            reserved: u32_from_le(block, at + 20),
        }
    }

    /// The entry that stands at index `at` of `block`.
    pub fn read(block: &[u8], at: usize) -> (entry: Self)
        requires
            at + MEMORY_MAP_ENTRY_BYTES <= block.len(),
        ensures
            entry == Self::at(block@, at as int),
    {
        Self {
            base_paddr: read_u64(block, at),
            length: read_u64(block, at + 8),
            type_: read_u32(block, at + 16),
            reserved: read_u32(block, at + 20),
        }
    }
}

/// The entries of the memory-map tag that stands at index `at` of `block`.
pub open spec fn memory_map_at(block: Seq<u8>, at: int) -> Seq<Multiboot2MemoryMapEntry> {
    let tag = Multiboot2MemoryMapTag::at(block, at);
    Seq::new(
        tag.count() as nat,
        |k: int| Multiboot2MemoryMapEntry::at(block, at + MEMORY_MAP_TAG_BYTES + k * tag.stride()),
    )
}

/// The entries of a memory-map tag, read where they stand in the block.
#[derive(Clone, Copy, Debug)]
pub struct Multiboot2MemoryMap<'a> {
    block: &'a [u8],
    first: usize,
    stride: usize,
    count: usize,
}

impl<'a> View for Multiboot2MemoryMap<'a> {
    type V = Seq<Multiboot2MemoryMapEntry>;

    closed spec fn view(&self) -> Seq<Multiboot2MemoryMapEntry> {
        Seq::new(
            self.count as nat,
            |k: int| Multiboot2MemoryMapEntry::at(self.block@, self.first + k * self.stride),
        )
    }
}

impl<'a> Multiboot2MemoryMap<'a> {
    #[verifier::type_invariant]
    spec fn entries_in_block(&self) -> bool {
        self.stride >= MEMORY_MAP_ENTRY_BYTES && self.first + self.count * self.stride
            <= self.block@.len()
    }

    /// Number of entries.
    pub fn len(&self) -> (len: usize)
        ensures
            len == self@.len(),
    {
        self.count
    }

    /// The entry at `index`, where there is one.
    pub fn get(&self, index: usize) -> (entry: Option<Multiboot2MemoryMapEntry>)
        ensures
            index < self@.len() <==> entry.is_some(),
            entry matches Some(e) ==> e == self@[index as int],
    {
        if index >= self.count {
            return None;
        }
        let limit: usize = self.block.len();
        proof {
            use_type_invariant(self);
            let (i, n, s) = (index as int, self.count as int, self.stride as int);
            assert(i * s + s <= n * s) by (nonlinear_arith)
                requires
                    0 <= i < n,
                    0 <= s,
            ;
            assert(0 <= i * s) by (nonlinear_arith)
                requires
                    0 <= i,
                    0 <= s,
            ;
        }
        Some(Multiboot2MemoryMapEntry::read(self.block, self.first + index * self.stride))
    }
}

/// What a tag of boot information tells.
#[derive(Clone, Copy, Debug)]
pub enum Multiboot2Info<'a> {
    /// The memory map.
    MemoryMap(Multiboot2MemoryMap<'a>),
    /// A tag that is not read further, with the number of its type.
    Unimplemented(u32),
}

/// What a tag of boot information tells, as plain values.
pub enum Multiboot2InfoView {
    MemoryMap(Seq<Multiboot2MemoryMapEntry>),
    Unimplemented(u32),
}

impl<'a> View for Multiboot2Info<'a> {
    type V = Multiboot2InfoView;

    open spec fn view(&self) -> Multiboot2InfoView {
        match self {
            Multiboot2Info::MemoryMap(map) => Multiboot2InfoView::MemoryMap(map@),
            Multiboot2Info::Unimplemented(type_) => Multiboot2InfoView::Unimplemented(*type_),
        }
    }
}

/// The least multiple of eight that is not below `index`.
pub open spec fn align_up(index: int) -> int {
    (index + 7) / 8 * 8
}

/// Whether a tag that the walk yields stands at index `at` of `block`, in a
/// window that ends at `end`: the start of the tag lies in the window, its
/// type is not the closing one, and its declared size covers its start and
/// stays in the window.
pub open spec fn tag_stands(block: Seq<u8>, at: int, end: int) -> bool {
    let tag = Multiboot2InfoTag::at(block, at);
    &&& at + INFO_TAG_BYTES <= end
    &&& tag.type_ != INFO_TAG_END
    &&& tag.size >= INFO_TAG_BYTES
    &&& at + tag.size <= end
}

/// What the tag at index `at` of `block` tells: the memory map, where its
/// type is that of the memory map and its size covers the start of such a
/// tag; else only the number of its type.
pub open spec fn tag_item(block: Seq<u8>, at: int) -> Multiboot2InfoView {
    let tag = Multiboot2InfoTag::at(block, at);
    if tag.type_ == INFO_TAG_MEMORY_MAP && tag.size >= MEMORY_MAP_TAG_BYTES {
        Multiboot2InfoView::MemoryMap(memory_map_at(block, at))
    } else {
        Multiboot2InfoView::Unimplemented(tag.type_)
    }
}

/// Where the walk goes on after the tag at index `at`: at the next multiple
/// of eight after the tag, or at the end of the window where that lies past
/// it.
pub open spec fn tag_follower(block: Seq<u8>, at: int, end: int) -> int {
    let next = align_up(at + Multiboot2InfoTag::at(block, at).size);
    if next > end {
        end
    } else {
        next
    }
}

/// What the tags of `block` from index `at` on tell, in a window that ends at
/// `end`, up to the first place where no tag stands.
pub open spec fn tags_from(block: Seq<u8>, at: int, end: int) -> Seq<Multiboot2InfoView>
    decreases end - at,
{
    if tag_stands(block, at, end) {
        seq![tag_item(block, at)] + tags_from(block, tag_follower(block, at, end), end)
    } else {
        Seq::empty()
    }
}

/// The tags from a place on are the tag that stands there and the tags from
/// its follower on, or none where no tag stands there.
pub proof fn lemma_tags_unfold(block: Seq<u8>, at: int, end: int)
    ensures
        tag_stands(block, at, end) ==> tags_from(block, at, end).len() > 0 && tags_from(
            block,
            at,
            end,
        )[0] == tag_item(block, at) && tags_from(block, at, end).drop_first() == tags_from(
            block,
            tag_follower(block, at, end),
            end,
        ),
        !tag_stands(block, at, end) ==> tags_from(block, at, end) == Seq::<
            Multiboot2InfoView,
        >::empty(),
{
    if tag_stands(block, at, end) {
        let rest = tags_from(block, tag_follower(block, at, end), end);
        assert((seq![tag_item(block, at)] + rest).drop_first() =~= rest);
    }
}

/// A tag of any type but that of the memory map is told as unimplemented,
/// with the number of its type, whatever that number is: it is not passed
/// over, and the walk goes on after it.
pub proof fn lemma_other_types_are_told(block: Seq<u8>, at: int, end: int)
    requires
        tag_stands(block, at, end),
        Multiboot2InfoTag::at(block, at).type_ != INFO_TAG_MEMORY_MAP,
    ensures
        tags_from(block, at, end)[0] == Multiboot2InfoView::Unimplemented(
            Multiboot2InfoTag::at(block, at).type_,
        ),
        tags_from(block, at, end).len() == 1 + tags_from(
            block,
            tag_follower(block, at, end),
            end,
        ).len(),
{
}

/// The entries of a memory-map tag lie within the tag: the last byte that is
/// read of the entry `k` lies before the end of the tag.
pub proof fn lemma_entries_in_tag(tag: Multiboot2MemoryMapTag, k: int)
    requires
        tag.base.size >= MEMORY_MAP_TAG_BYTES,
        0 <= k < tag.count(),
    ensures
        0 <= k * tag.stride(),
        MEMORY_MAP_TAG_BYTES + k * tag.stride() + MEMORY_MAP_ENTRY_BYTES <= tag.base.size,
{
    let room = tag.base.size - MEMORY_MAP_TAG_BYTES;
    let stride = tag.stride();
    let count = tag.count();
    assert(0 <= count * stride <= room) by (nonlinear_arith)
        requires
            0 <= room,
            0 < stride,
            count == room / stride,
    ;
    assert(0 <= k * stride && k * stride + stride <= count * stride) by (nonlinear_arith)
        requires
            0 <= k < count,
            0 < stride,
    ;
}

/// The walk reads nothing past its window: two blocks that hold the same
/// bytes before `end` tell the same tags in a window that ends at `end`.
pub proof fn lemma_tags_read_the_window(a: Seq<u8>, b: Seq<u8>, at: int, end: int)
    requires
        0 <= at,
        end <= a.len(),
        end <= b.len(),
        forall|i: int| 0 <= i < end ==> a[i] == b[i],
    ensures
        tags_from(a, at, end) == tags_from(b, at, end),
    decreases end - at,
{
    if at + INFO_TAG_BYTES <= end {
        let tag = Multiboot2InfoTag::at(a, at);
        assert(tag == Multiboot2InfoTag::at(b, at));
        if tag_stands(a, at, end) {
            assert(tag_stands(b, at, end));
            if tag.type_ == INFO_TAG_MEMORY_MAP && tag.size >= MEMORY_MAP_TAG_BYTES {
                let map = Multiboot2MemoryMapTag::at(a, at);
                assert(map == Multiboot2MemoryMapTag::at(b, at));
                assert forall|k: int| 0 <= k < map.count() implies #[trigger] memory_map_at(
                    a,
                    at,
                )[k] == memory_map_at(b, at)[k] by {
                    lemma_entries_in_tag(map, k);
                }
                assert(memory_map_at(a, at) =~= memory_map_at(b, at));
            }
            assert(tag_item(a, at) == tag_item(b, at));
            lemma_tags_read_the_window(a, b, tag_follower(a, at, end), end);
        }
    }
}

/// What the tags of the block of boot information `block` tell: those from
/// after the start of the block to the total size that the block declares.
pub open spec fn tags(block: Seq<u8>) -> Seq<Multiboot2InfoView> {
    tags_from(block, INFO_HEADER_BYTES as int, u32_from_le(block, 0) as int)
}

/// Whether `block` is a block of boot information that can be walked: it
/// holds its start, and the total size that it declares does not reach
/// past it.
pub open spec fn is_info_block(block: Seq<u8>) -> bool {
    INFO_HEADER_BYTES <= block.len() && u32_from_le(block, 0) <= block.len()
}

/// A walk over the tags of a block of boot information.
pub struct Multiboot2InfoIter<'a> {
    block: &'a [u8],
    cursor: usize,
    end: usize,
}

impl<'a> Multiboot2InfoIter<'a> {
    #[verifier::type_invariant]
    spec fn window_in_block(&self) -> bool {
        self.end <= self.block@.len()
    }

    /// The block that is walked.
    pub closed spec fn block(&self) -> Seq<u8> {
        self.block@
    }

    /// What the tags that the walk has not yielded yet tell, in order.
    pub closed spec fn remaining(&self) -> Seq<Multiboot2InfoView> {
        tags_from(self.block@, self.cursor as int, self.end as int)
    }

    /// The walk over all tags of `block`.
    pub fn new(block: &'a [u8]) -> (iter: Self)
        requires
            is_info_block(block@),
        ensures
            iter.block() == block@,
            iter.remaining() == tags(block@),
    {
        let header = Multiboot2InfoHeader::read(block);
        Self { block, cursor: INFO_HEADER_BYTES, end: header.total_size as usize }
    }

    /// The walk over all tags of `block`; or nothing, where `block` does
    /// not hold its start or declares a total size that reaches past it.
    pub fn checked(block: &'a [u8]) -> (iter: Option<Self>)
        ensures
            is_info_block(block@) <==> iter.is_some(),
            iter matches Some(it) ==> it.block() == block@ && it.remaining() == tags(block@),
    {
        if block.len() < INFO_HEADER_BYTES {
            return None;
        }
        let header = Multiboot2InfoHeader::read(block);
        if header.total_size as usize > block.len() {
            return None;
        }
        Some(Self::new(block))
    }

    /// What the next tag tells; or nothing, where the walk has come to the
    /// closing tag, to the end of the window, or to a tag whose declared size
    /// does not cover its start or reaches past the window. After that,
    /// every call gives nothing.
    pub fn next(&mut self) -> (item: Option<Multiboot2Info<'a>>)
        ensures
            final(self).block() == old(self).block(),
            old(self).remaining().len() > 0 <==> item.is_some(),
            item matches Some(i) ==> i@ == old(self).remaining()[0] && final(self).remaining()
                == old(self).remaining().drop_first(),
            item.is_none() ==> final(self).remaining() == old(self).remaining(),
    {
        proof {
            use_type_invariant(&*self);
            lemma_tags_unfold(self.block@, self.cursor as int, self.end as int);
        }
        if self.cursor >= self.end || self.end - self.cursor < INFO_TAG_BYTES {
            return None;
        }
        let tag = Multiboot2InfoTag::read(self.block, self.cursor);
        if tag.type_ == INFO_TAG_END {
            return None;
        }
        if tag.size < INFO_TAG_BYTES as u32 || tag.size as usize > self.end - self.cursor {
            return None;
        }
        let item = self.item(tag);
        self.cursor = self.follower(tag);
        Some(item)
    }

    /// What the tag at the cursor tells.
    fn item(&self, tag: Multiboot2InfoTag) -> (item: Multiboot2Info<'a>)
        requires
            tag == Multiboot2InfoTag::at(self.block@, self.cursor as int),
            tag_stands(self.block@, self.cursor as int, self.end as int),
        ensures
            item@ == tag_item(self.block@, self.cursor as int),
    {
        match Multiboot2InfoTagType::from_u32(tag.type_) {
            Some(Multiboot2InfoTagType::MEMORY_MAP) => {
                if tag.size >= MEMORY_MAP_TAG_BYTES as u32 {
                    Multiboot2Info::MemoryMap(self.memory_map())
                } else {
                    Multiboot2Info::Unimplemented(tag.type_)
                }
            },
            _ => Multiboot2Info::Unimplemented(tag.type_),
        }
    }

    /// Where the walk goes on after the tag at the cursor.
    fn follower(&self, tag: Multiboot2InfoTag) -> (next: usize)
        requires
            tag == Multiboot2InfoTag::at(self.block@, self.cursor as int),
            tag_stands(self.block@, self.cursor as int, self.end as int),
        ensures
            next == tag_follower(self.block@, self.cursor as int, self.end as int),
            self.cursor < next <= self.end,
    {
        let past: usize = self.cursor + tag.size as usize;
        let pad: usize = (8 - past % 8) % 8;
        assert(past + pad == align_up(past as int));
        if pad > self.end - past {
            self.end
        } else {
            past + pad
        }
    }

    /// The entries of the memory-map tag at the cursor.
    fn memory_map(&self) -> (map: Multiboot2MemoryMap<'a>)
        requires
            Multiboot2InfoTag::at(self.block@, self.cursor as int).size >= MEMORY_MAP_TAG_BYTES,
            self.cursor + Multiboot2InfoTag::at(self.block@, self.cursor as int).size <= self.end,
        ensures
            map@ == memory_map_at(self.block@, self.cursor as int),
    {
        proof {
            use_type_invariant(self);
        }
        let tag = Multiboot2MemoryMapTag::read(self.block, self.cursor);
        let stride: u32 = if tag.entry_size < MEMORY_MAP_ENTRY_BYTES as u32 {
            MEMORY_MAP_ENTRY_BYTES as u32
        } else {
            tag.entry_size
        };
        let room: u32 = tag.base.size - MEMORY_MAP_TAG_BYTES as u32;
        let count: u32 = room / stride;
        proof {
            let (r, s) = (room as int, stride as int);
            assert(0 <= (r / s) * s <= r) by (nonlinear_arith)
                requires
                    0 <= r,
                    0 < s,
            ;
        }
        let map = Multiboot2MemoryMap {
            block: self.block,
            first: self.cursor + MEMORY_MAP_TAG_BYTES,
            stride: stride as usize,
            count: count as usize,
        };
        assert(map@ =~= memory_map_at(self.block@, self.cursor as int));
        map
    }
}

} // verus!
