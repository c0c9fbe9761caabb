//! Byte order, and the fixed-width integers of a capture file read from raw bytes.

use vstd::prelude::*;

verus! {

/// Byte order of the multi-byte fields of a capture file.
#[derive(Debug, PartialEq, Eq, Clone, Copy, Structural)]
pub enum Endianness {
    Big,
    Little,
}

/// The two bytes of `s` from index `at` on, as an unsigned integer in byte order `e`.
pub open spec fn u16_at(s: Seq<u8>, at: int, e: Endianness) -> u16
    recommends
        0 <= at,
        at + 2 <= s.len(),
{
    match e {
        Endianness::Big => (s[at] * 0x100 + s[at + 1]) as u16,
        Endianness::Little => (s[at] + s[at + 1] * 0x100) as u16,
    }
}

/// The four bytes of `s` from index `at` on, as an unsigned integer in byte order `e`.
pub open spec fn u32_at(s: Seq<u8>, at: int, e: Endianness) -> u32
    recommends
        0 <= at,
        at + 4 <= s.len(),
{
    match e {
        Endianness::Big => {
            (s[at] * 0x100_0000 + s[at + 1] * 0x1_0000 + s[at + 2] * 0x100 + s[at + 3]) as u32
        },
        Endianness::Little => {
            (s[at] + s[at + 1] * 0x100 + s[at + 2] * 0x1_0000 + s[at + 3] * 0x100_0000) as u32
        },
    }
}

/// The two's-complement reading of a 32-bit pattern.
pub open spec fn as_signed(v: u32) -> i32 {
    if v < 0x8000_0000 {
        v as i32
    } else {
        (v - 0x1_0000_0000) as i32
    }
}

/// The four bytes of `s` from index `at` on, as a signed integer in byte order `e`.
pub open spec fn i32_at(s: Seq<u8>, at: int, e: Endianness) -> i32
    recommends
        0 <= at,
        at + 4 <= s.len(),
{
    as_signed(u32_at(s, at, e))
}

/// Reads the 16-bit unsigned field that starts at index `at`.
pub(crate) fn read_u16(bytes: &[u8], at: usize, e: Endianness) -> (v: u16)
    requires
        at + 2 <= bytes@.len(),
    ensures
        v == u16_at(bytes@, at as int, e),
{
    let first: u16 = bytes[at] as u16;
    let second: u16 = bytes[at + 1] as u16;
    match e {
        Endianness::Big => first * 0x100 + second,
        Endianness::Little => first + second * 0x100,
    }
}

/// Reads the 32-bit unsigned field that starts at index `at`.
pub(crate) fn read_u32(bytes: &[u8], at: usize, e: Endianness) -> (v: u32)
    requires
        at + 4 <= bytes@.len(),
    ensures
        v == u32_at(bytes@, at as int, e),
{
    let b0: u32 = bytes[at] as u32;
    let b1: u32 = bytes[at + 1] as u32;
    let b2: u32 = bytes[at + 2] as u32;
    let b3: u32 = bytes[at + 3] as u32;
    match e {
        Endianness::Big => b0 * 0x100_0000 + b1 * 0x1_0000 + b2 * 0x100 + b3,
        Endianness::Little => b0 + b1 * 0x100 + b2 * 0x1_0000 + b3 * 0x100_0000,
    }
}

/// Reads the 32-bit signed field that starts at index `at`.
pub(crate) fn read_i32(bytes: &[u8], at: usize, e: Endianness) -> (v: i32)
    requires
        at + 4 <= bytes@.len(),
    ensures
        v == i32_at(bytes@, at as int, e),
{
    let raw: u32 = read_u32(bytes, at, e);
    if raw < 0x8000_0000 {
        raw as i32
    } else {
        let low: i32 = (raw - 0x8000_0000) as i32;
        low + i32::MIN
    }
}

} // verus!
