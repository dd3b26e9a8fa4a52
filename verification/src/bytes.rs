//! Big-endian integer reads over a byte buffer. All multi-byte integers in the
//! MRT wire format are big-endian; these are the only primitive reads the
//! decoders use.

use vstd::prelude::*;

verus! {

/// Big-endian value of the two bytes starting at index `i`.
pub open spec fn be16(b: Seq<u8>, i: int) -> u16 {
    (b[i] as int * 0x100 + b[i + 1] as int) as u16
}

/// Big-endian value of the four bytes starting at index `i`.
pub open spec fn be32(b: Seq<u8>, i: int) -> u32 {
    (be16(b, i) as int * 0x1_0000 + be16(b, i + 2) as int) as u32
}

/// Big-endian value of the eight bytes starting at index `i`.
pub open spec fn be64(b: Seq<u8>, i: int) -> u64 {
    (be32(b, i) as int * 0x1_0000_0000 + be32(b, i + 4) as int) as u64
}

/// Big-endian value of the sixteen bytes starting at index `i`.
pub open spec fn be128(b: Seq<u8>, i: int) -> u128 {
    (be64(b, i) as int * 0x1_0000_0000_0000_0000 + be64(b, i + 8) as int) as u128
}

pub fn read_u8(bytes: &[u8], pos: usize) -> (r: u8)
    requires
        pos < bytes@.len(),
    ensures
        r == bytes@[pos as int],
{
    bytes[pos]
}

pub fn read_u16_be(bytes: &[u8], pos: usize) -> (r: u16)
    requires
        pos + 2 <= bytes@.len(),
    ensures
        r == be16(bytes@, pos as int),
{
    let hi = bytes[pos] as u16;
    let lo = bytes[pos + 1] as u16;
    hi * 0x100 + lo
}

pub fn read_u32_be(bytes: &[u8], pos: usize) -> (r: u32)
    requires
        pos + 4 <= bytes@.len(),
    ensures
        r == be32(bytes@, pos as int),
{
    proof { vstd::slice::axiom_spec_len(bytes); }
    let hi = read_u16_be(bytes, pos) as u32;
    let lo = read_u16_be(bytes, pos + 2) as u32;
    hi * 0x1_0000 + lo
}

pub fn read_u64_be(bytes: &[u8], pos: usize) -> (r: u64)
    requires
        pos + 8 <= bytes@.len(),
    ensures
        r == be64(bytes@, pos as int),
{
    proof { vstd::slice::axiom_spec_len(bytes); }
    let hi = read_u32_be(bytes, pos) as u64;
    let lo = read_u32_be(bytes, pos + 4) as u64;
    hi * 0x1_0000_0000 + lo
}

pub fn read_u128_be(bytes: &[u8], pos: usize) -> (r: u128)
    requires
        pos + 16 <= bytes@.len(),
    ensures
        r == be128(bytes@, pos as int),
{
    proof { vstd::slice::axiom_spec_len(bytes); }
    let hi = read_u64_be(bytes, pos) as u128;
    let lo = read_u64_be(bytes, pos + 8) as u128;
    hi * 0x1_0000_0000_0000_0000 + lo
}

} // verus!
