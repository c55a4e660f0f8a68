//! Integers as the little-endian bytes that the processor stores them as.

use vstd::prelude::*;

verus! {

/// The two bytes of `value`, least significant first.
pub open spec fn u16_le(value: u16) -> Seq<u8> {
    seq![(value % 256) as u8, (value / 256) as u8]
}

/// The four bytes of `value`, least significant first.
pub open spec fn u32_le(value: u32) -> Seq<u8> {
    seq![
        (value % 256) as u8,
        (value / 0x100 % 256) as u8,
        (value / 0x1_0000 % 256) as u8,
        (value / 0x100_0000) as u8,
    ]
}

/// The eight bytes of `value`, least significant first.
pub open spec fn u64_le(value: u64) -> Seq<u8> {
    u32_le((value % 0x1_0000_0000) as u32) + u32_le((value / 0x1_0000_0000) as u32)
}

/// The number that the two bytes of `bytes` from index `at` on stand for,
/// least significant first.
pub open spec fn u16_from_le(bytes: Seq<u8>, at: int) -> u16 {
    (bytes[at] + bytes[at + 1] * 0x100) as u16
}

/// The number that the four bytes of `bytes` from index `at` on stand for,
/// least significant first.
pub open spec fn u32_from_le(bytes: Seq<u8>, at: int) -> u32 {
    (bytes[at] + bytes[at + 1] * 0x100 + bytes[at + 2] * 0x1_0000 + bytes[at + 3]
        * 0x100_0000) as u32
}

/// The number that the eight bytes of `bytes` from index `at` on stand for,
/// least significant first.
pub open spec fn u64_from_le(bytes: Seq<u8>, at: int) -> u64 {
    (u32_from_le(bytes, at) + u32_from_le(bytes, at + 4) * 0x1_0000_0000) as u64
}

/// Number of bytes that a number is written as.
pub proof fn lemma_le_lengths(a: u16, b: u32, c: u64)
    ensures
        u16_le(a).len() == 2,
        u32_le(b).len() == 4,
        u64_le(c).len() == 8,
{
}

/// The two parts of a joined sequence are found in it again.
pub proof fn lemma_joined_parts(first: Seq<u8>, second: Seq<u8>)
    ensures
        (first + second).subrange(0, first.len() as int) == first,
        (first + second).subrange(first.len() as int, (first + second).len() as int) == second,
{
    assert((first + second).subrange(0, first.len() as int) =~= first);
    assert((first + second).subrange(first.len() as int, (first + second).len() as int)
        =~= second);
}

/// A part of a part of a sequence is a part of that sequence.
pub proof fn lemma_part_of_part(bytes: Seq<u8>, end: int, from: int, to: int)
    requires
        0 <= from <= to <= end <= bytes.len(),
    ensures
        bytes.subrange(0, end).subrange(from, to) == bytes.subrange(from, to),
{
    assert(bytes.subrange(0, end).subrange(from, to) =~= bytes.subrange(from, to));
}

/// Two bytes that were written for a number read back as that number.
pub proof fn lemma_u16_round_trip(bytes: Seq<u8>, at: int, value: u16)
    requires
        0 <= at,
        at + 2 <= bytes.len(),
        bytes.subrange(at, at + 2) == u16_le(value),
    ensures
        u16_from_le(bytes, at) == value,
{
    let part = bytes.subrange(at, at + 2);
    assert(bytes[at] == part[0] && bytes[at + 1] == part[1]);
}

/// Four bytes that were written for a number read back as that number.
pub proof fn lemma_u32_round_trip(bytes: Seq<u8>, at: int, value: u32)
    requires
        0 <= at,
        at + 4 <= bytes.len(),
        bytes.subrange(at, at + 4) == u32_le(value),
    ensures
        u32_from_le(bytes, at) == value,
{
    let part = bytes.subrange(at, at + 4);
    assert(bytes[at] == part[0] && bytes[at + 1] == part[1] && bytes[at + 2] == part[2] && bytes[at
        + 3] == part[3]);
}

/// Eight bytes that were written for a number read back as that number.
pub proof fn lemma_u64_round_trip(bytes: Seq<u8>, at: int, value: u64)
    requires
        0 <= at,
        at + 8 <= bytes.len(),
        bytes.subrange(at, at + 8) == u64_le(value),
    ensures
        u64_from_le(bytes, at) == value,
{
    let low = (value % 0x1_0000_0000) as u32;
    let high = (value / 0x1_0000_0000) as u32;
    assert(bytes.subrange(at, at + 4) == u32_le(low)) by {
        assert(bytes.subrange(at, at + 4) =~= bytes.subrange(at, at + 8).subrange(0, 4));
        assert(u64_le(value).subrange(0, 4) =~= u32_le(low));
    }
    assert(bytes.subrange(at + 4, at + 8) == u32_le(high)) by {
        assert(bytes.subrange(at + 4, at + 8) =~= bytes.subrange(at, at + 8).subrange(4, 8));
        assert(u64_le(value).subrange(4, 8) =~= u32_le(high));
    }
    lemma_u32_round_trip(bytes, at, low);
    lemma_u32_round_trip(bytes, at + 4, high);
}

/// Reads a 16-bit number from `bytes` at index `at`.
pub fn read_u16(bytes: &[u8], at: usize) -> (value: u16)
    requires
        at + 2 <= bytes.len(),
    ensures
        value == u16_from_le(bytes@, at as int),
{
    let b0: u16 = bytes[at] as u16;
    let b1: u16 = bytes[at + 1] as u16;
    b0 + b1 * 0x100
}

/// Reads a 32-bit number from `bytes` at index `at`.
pub fn read_u32(bytes: &[u8], at: usize) -> (value: u32)
    requires
        at + 4 <= bytes.len(),
    ensures
        value == u32_from_le(bytes@, at as int),
{
    let b0: u32 = bytes[at] as u32;
    let b1: u32 = bytes[at + 1] as u32;
    let b2: u32 = bytes[at + 2] as u32;
    let b3: u32 = bytes[at + 3] as u32;
    b0 + b1 * 0x100 + b2 * 0x1_0000 + b3 * 0x100_0000
}

/// Reads a 64-bit number from `bytes` at index `at`.
pub fn read_u64(bytes: &[u8], at: usize) -> (value: u64)
    requires
        at + 8 <= bytes.len(),
    ensures
        value == u64_from_le(bytes@, at as int),
{
    let low: u64 = read_u32(bytes, at) as u64;
    let high: u64 = read_u32(bytes, at + 4) as u64;
    low + high * 0x1_0000_0000
}

/// Writes the two bytes of `value` into `bytes` at index `at`.
pub fn write_u16<const N: usize>(bytes: &mut [u8; N], at: usize, value: u16)
    requires
        at + 2 <= N,
    ensures
        final(bytes)@ == old(bytes)@.subrange(0, at as int) + u16_le(value) + old(bytes)@.subrange(
            at + 2,
            N as int,
        ),
{
    bytes[at] = (value % 256) as u8;
    bytes[at + 1] = (value / 256) as u8;
}

/// Writes the four bytes of `value` into `bytes` at index `at`.
pub fn write_u32<const N: usize>(bytes: &mut [u8; N], at: usize, value: u32)
    requires
        at + 4 <= N,
    ensures
        final(bytes)@ == old(bytes)@.subrange(0, at as int) + u32_le(value) + old(bytes)@.subrange(
            at + 4,
            N as int,
        ),
{
    bytes[at] = (value % 256) as u8;
    bytes[at + 1] = (value / 0x100 % 256) as u8;
    bytes[at + 2] = (value / 0x1_0000 % 256) as u8;
    bytes[at + 3] = (value / 0x100_0000) as u8;
}

/// Writes the eight bytes of `value` into `bytes` at index `at`.
pub fn write_u64<const N: usize>(bytes: &mut [u8; N], at: usize, value: u64)
    requires
        at + 8 <= N,
    ensures
        final(bytes)@ == old(bytes)@.subrange(0, at as int) + u64_le(value) + old(bytes)@.subrange(
            at + 8,
            N as int,
        ),
{
    write_u32(bytes, at, (value % 0x1_0000_0000) as u32);
    write_u32(bytes, at + 4, (value / 0x1_0000_0000) as u32);
}

/// Appends the two bytes of `value` to `bytes`.
pub fn push_u16(bytes: &mut Vec<u8>, value: u16)
    ensures
        final(bytes)@ == old(bytes)@ + u16_le(value),
{
    bytes.push((value % 256) as u8);
    bytes.push((value / 256) as u8);
    assert(bytes@ =~= old(bytes)@ + u16_le(value));
}

/// Appends the four bytes of `value` to `bytes`.
pub fn push_u32(bytes: &mut Vec<u8>, value: u32)
    ensures
        final(bytes)@ == old(bytes)@ + u32_le(value),
{
    bytes.push((value % 256) as u8);
    bytes.push((value / 0x100 % 256) as u8);
    bytes.push((value / 0x1_0000 % 256) as u8);
    bytes.push((value / 0x100_0000) as u8);
    assert(bytes@ =~= old(bytes)@ + u32_le(value));
}

} // verus!
