//! Big-endian reads over byte sequences.

use vstd::prelude::*;
use byteorder::{BigEndian, ByteOrder};

verus! {

/// The unsigned big-endian 16-bit value stored at `pos`.
pub open spec fn be_u16(s: Seq<u8>, pos: int) -> int {
    s[pos] as int * 256 + s[pos + 1] as int
}

/// The signed big-endian 16-bit value stored at `pos` (two's complement).
pub open spec fn be_i16(s: Seq<u8>, pos: int) -> int {
    let u = be_u16(s, pos);
    if u >= 0x8000 { u - 0x10000 } else { u }
}

/// The unsigned big-endian 32-bit value stored at `pos`.
pub open spec fn be_u32(s: Seq<u8>, pos: int) -> int {
    be_u16(s, pos) * 0x10000 + be_u16(s, pos + 2)
}

/// The signed big-endian 32-bit value stored at `pos` (two's complement).
pub open spec fn be_i32(s: Seq<u8>, pos: int) -> int {
    let u = be_u32(s, pos);
    if u >= 0x8000_0000 { u - 0x1_0000_0000 } else { u }
}

/// `byteorder::BigEndian::read_u16`: the first two bytes of `buf` as a
/// big-endian unsigned integer (the crate panics on shorter input).
#[verifier::external_body]
pub(crate) fn read_u16_be(buf: &[u8]) -> (r: u16)
    requires
        buf@.len() >= 2,
    ensures
        r as int == be_u16(buf@, 0),
{
    BigEndian::read_u16(buf)
}

/// `byteorder::BigEndian::read_i16`: the first two bytes of `buf` as a
/// big-endian two's-complement integer (the crate panics on shorter input).
#[verifier::external_body]
pub(crate) fn read_i16_be(buf: &[u8]) -> (r: i16)
    requires
        buf@.len() >= 2,
    ensures
        r as int == be_i16(buf@, 0),
{
    BigEndian::read_i16(buf)
}

/// `byteorder::BigEndian::read_u32`: the first four bytes of `buf` as a
/// big-endian unsigned integer (the crate panics on shorter input).
#[verifier::external_body]
pub(crate) fn read_u32_be(buf: &[u8]) -> (r: u32)
    requires
        buf@.len() >= 4,
    ensures
        r as int == be_u32(buf@, 0),
{
    BigEndian::read_u32(buf)
}

/// `byteorder::BigEndian::read_i32`: the first four bytes of `buf` as a
/// big-endian two's-complement integer (the crate panics on shorter input).
#[verifier::external_body]
pub(crate) fn read_i32_be(buf: &[u8]) -> (r: i32)
    requires
        buf@.len() >= 4,
    ensures
        r as int == be_i32(buf@, 0),
{
    BigEndian::read_i32(buf)
}

/// Reads the unsigned 16-bit value at `pos`, or `None` past the end.
pub fn get_u16(data: &[u8], pos: usize) -> (r: Option<u16>)
    ensures
        match r {
            Some(v) => pos + 2 <= data@.len() && pos + 2 <= data.len() && v as int == be_u16(data@, pos as int),
            None => pos + 2 > data@.len(),
        },
{
    if pos <= data.len() && data.len() - pos >= 2 {
        let v = read_u16_be(&data[pos..pos + 2]);
        Some(v)
    } else {
        None
    }
}

/// Reads the signed 16-bit value at `pos`, or `None` past the end.
pub fn get_i16(data: &[u8], pos: usize) -> (r: Option<i16>)
    ensures
        match r {
            Some(v) => pos + 2 <= data@.len() && pos + 2 <= data.len() && v as int == be_i16(data@, pos as int),
            None => pos + 2 > data@.len(),
        },
{
    if pos <= data.len() && data.len() - pos >= 2 {
        let v = read_i16_be(&data[pos..pos + 2]);
        Some(v)
    } else {
        None
    }
}

/// Reads the unsigned 32-bit value at `pos`, or `None` past the end.
pub fn get_u32(data: &[u8], pos: usize) -> (r: Option<u32>)
    ensures
        match r {
            Some(v) => pos + 4 <= data@.len() && pos + 4 <= data.len() && v as int == be_u32(data@, pos as int),
            None => pos + 4 > data@.len(),
        },
{
    if pos <= data.len() && data.len() - pos >= 4 {
        let v = read_u32_be(&data[pos..pos + 4]);
        Some(v)
    } else {
        None
    }
}

/// Reads the signed 32-bit value at `pos`, or `None` past the end.
pub fn get_i32(data: &[u8], pos: usize) -> (r: Option<i32>)
    ensures
        match r {
            Some(v) => pos + 4 <= data@.len() && pos + 4 <= data.len() && v as int == be_i32(data@, pos as int),
            None => pos + 4 > data@.len(),
        },
{
    if pos <= data.len() && data.len() - pos >= 4 {
        let v = read_i32_be(&data[pos..pos + 4]);
        Some(v)
    } else {
        None
    }
}

/// Reads the byte at `pos`, or `None` past the end.
pub fn get_u8(data: &[u8], pos: usize) -> (r: Option<u8>)
    ensures
        match r {
            Some(v) => pos < data@.len() && pos < data.len() && v == data@[pos as int],
            None => pos >= data@.len(),
        },
{
    if pos < data.len() {
        Some(data[pos])
    } else {
        None
    }
}

} // verus!
