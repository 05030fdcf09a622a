//! Opcode operand readers: each reads one operand at a position and says,
//! through a `*_end` spec function, where it ends or why it cannot be read.

use vstd::prelude::*;
use crate::bytes::{be_u16, be_u32, get_u16, get_u32, get_u8};
use crate::shared::{Rect, Point, Fixed, RGBColor, Pattern, Polygon, ShortString, DecodeError};
use crate::region::Region;
use crate::parse::{rect_at, point_at, fixed_at, rgb_at, region_at, region_end_opt, short_string_end,
    read_rect, read_point, read_fixed, read_rgb, read_pattern, read_region, read_polygon, read_bytes};
use crate::pixdata::Decoded;
use crate::records::{CommentKind, comment_kind_of, Header, header_at, short_string_chars, read_short_string,
    read_short_string_record, read_array, read_header};
use crate::copybits::{CopyBits, DirectBits, PixelPattern, copybits_data, copybits_fields, directbits_data,
    directbits_fields, pixel_pattern_end, pixel_pattern_fields, read_copy_bits, read_direct_bits,
    read_pixel_pattern};

verus! {

/// What reading an opcode at a position gives.
pub enum OpOutcome {
    /// The data ends before the opcode's code.
    Eof,
    /// The opcode and its operands, ending at this position.
    Parsed(int),
    /// An unknown opcode, or one whose operands cannot be read.
    Unknown,
    /// The decoder aborts on the operands.
    Fatal,
}

/// An operand of `n` bytes at `p`: it ends at `p + n` when it fits.
pub open spec fn fixed_end(s: Seq<u8>, p: int, n: int) -> Decoded<()> {
    if 0 <= p && p + n <= s.len() {
        Decoded::Done((), p + n)
    } else {
        Decoded::Malformed
    }
}

/// Where an operand that was read ends.
pub open spec fn after(d: Decoded<()>) -> int {
    match d {
        Decoded::Done(_, q) => q,
        _ => 0,
    }
}

/// End of a region operand.
pub open spec fn region_field_end(s: Seq<u8>, p: int) -> Decoded<()> {
    match region_end_opt(s, p) {
        Some(q) => Decoded::Done((), q),
        None => Decoded::Malformed,
    }
}

/// End of a polygon operand; a size below 2 is fatal.
pub open spec fn polygon_end(s: Seq<u8>, p: int) -> Decoded<()> {
    if 0 <= p && p + 2 <= s.len() {
        if be_u16(s, p) < 2 {
            Decoded::Fatal
        } else if p + be_u16(s, p) <= s.len() {
            Decoded::Done((), p + be_u16(s, p))
        } else {
            Decoded::Malformed
        }
    } else {
        Decoded::Malformed
    }
}

/// Whether `v` is the polygon operand at `p`.
pub open spec fn polygon_ok(s: Seq<u8>, p: int, v: Polygon) -> bool {
    v.size == be_u16(s, p) && v.data@ == s.subrange(p + 2, p + be_u16(s, p))
}

/// End of a Pascal string operand.
pub open spec fn string_end(s: Seq<u8>, p: int) -> Decoded<()> {
    match short_string_end(s, p) {
        Some(q) => Decoded::Done((), q),
        None => Decoded::Malformed,
    }
}

/// End of a copy-bits operand.
pub open spec fn copybits_end(s: Seq<u8>, p: int, packed: bool, masked: bool, v2: bool) -> Decoded<()> {
    match copybits_data(s, p, packed, masked, v2).1 {
        Decoded::Done(_, q) => Decoded::Done((), q),
        Decoded::Malformed => Decoded::Malformed,
        Decoded::Fatal => Decoded::Fatal,
    }
}

/// Whether `v` is the copy-bits operand at `p`.
pub open spec fn copybits_ok(s: Seq<u8>, p: int, packed: bool, masked: bool, v2: bool, v: CopyBits) -> bool {
    match copybits_data(s, p, packed, masked, v2).1 {
        Decoded::Done(d, _) => copybits_fields(s, p, masked, v, d),
        _ => false,
    }
}

/// End of a direct-bits operand.
pub open spec fn directbits_end(s: Seq<u8>, p: int, masked: bool) -> Decoded<()> {
    match directbits_data(s, p, masked).1 {
        Decoded::Done(_, q) => Decoded::Done((), q),
        Decoded::Malformed => Decoded::Malformed,
        Decoded::Fatal => Decoded::Fatal,
    }
}

/// Whether `v` is the direct-bits operand at `p`.
pub open spec fn directbits_ok(s: Seq<u8>, p: int, masked: bool, v: DirectBits) -> bool {
    match directbits_data(s, p, masked).1 {
        Decoded::Done(d, _) => directbits_fields(s, p, masked, v, d),
        _ => false,
    }
}

/// Reads a byte operand.
pub fn field_u8(data: &[u8], p: usize) -> (r: Option<(u8, usize)>)
    ensures
        match fixed_end(data@, p as int, 1) {
            Decoded::Done(_, q) => r matches Some((v, e)) && e == q && v == data@[p as int],
            _ => r is None,
        },
{
    let v = get_u8(data, p)?;
    Some((v, p + 1))
}

/// Reads a signed byte operand.
pub fn field_i8(data: &[u8], p: usize) -> (r: Option<(i8, usize)>)
    ensures
        match fixed_end(data@, p as int, 1) {
            Decoded::Done(_, q) => r matches Some((v, e)) && e == q && v == data@[p as int] as i8,
            _ => r is None,
        },
{
    let v = get_u8(data, p)?;
    Some((v as i8, p + 1))
}

/// Reads a 16-bit operand.
pub fn field_u16(data: &[u8], p: usize) -> (r: Option<(u16, usize)>)
    ensures
        match fixed_end(data@, p as int, 2) {
            Decoded::Done(_, q) => r matches Some((v, e)) && e == q && v == be_u16(data@, p as int),
            _ => r is None,
        },
{
    let v = get_u16(data, p)?;
    Some((v, p + 2))
}

/// Reads a 32-bit operand.
pub fn field_u32(data: &[u8], p: usize) -> (r: Option<(u32, usize)>)
    ensures
        match fixed_end(data@, p as int, 4) {
            Decoded::Done(_, q) => r matches Some((v, e)) && e == q && v == be_u32(data@, p as int),
            _ => r is None,
        },
{
    let v = get_u32(data, p)?;
    Some((v, p + 4))
}

/// Reads a point operand.
pub fn field_point(data: &[u8], p: usize) -> (r: Option<(Point, usize)>)
    ensures
        match fixed_end(data@, p as int, 4) {
            Decoded::Done(_, q) => r matches Some((v, e)) && e == q && v == point_at(data@, p as int),
            _ => r is None,
        },
{
    read_point(data, p)
}

/// Reads a rectangle operand.
pub fn field_rect(data: &[u8], p: usize) -> (r: Option<(Rect, usize)>)
    ensures
        match fixed_end(data@, p as int, 8) {
            Decoded::Done(_, q) => r matches Some((v, e)) && e == q && v == rect_at(data@, p as int),
            _ => r is None,
        },
{
    read_rect(data, p)
}

/// Reads a fixed-point operand.
pub fn field_fixed(data: &[u8], p: usize) -> (r: Option<(Fixed, usize)>)
    ensures
        match fixed_end(data@, p as int, 4) {
            Decoded::Done(_, q) => r matches Some((v, e)) && e == q && v == fixed_at(data@, p as int),
            _ => r is None,
        },
{
    read_fixed(data, p)
}

/// Reads a color operand.
pub fn field_rgb(data: &[u8], p: usize) -> (r: Option<(RGBColor, usize)>)
    ensures
        match fixed_end(data@, p as int, 6) {
            Decoded::Done(_, q) => r matches Some((v, e)) && e == q && v == rgb_at(data@, p as int),
            _ => r is None,
        },
{
    read_rgb(data, p)
}

/// Reads a pattern operand.
pub fn field_pattern(data: &[u8], p: usize) -> (r: Option<(Pattern, usize)>)
    ensures
        match fixed_end(data@, p as int, 8) {
            Decoded::Done(_, q) => r matches Some((v, e)) && e == q && v.data@ == data@.subrange(p as int, q),
            _ => r is None,
        },
{
    read_pattern(data, p)
}

/// Reads a comment kind operand.
pub fn field_comment(data: &[u8], p: usize) -> (r: Option<(CommentKind, usize)>)
    ensures
        match fixed_end(data@, p as int, 2) {
            Decoded::Done(_, q) => r matches Some((v, e)) && e == q && v == comment_kind_of(be_u16(data@, p as int) as u16),
            _ => r is None,
        },
{
    let v = get_u16(data, p)?;
    Some((CommentKind::from_code(v), p + 2))
}

/// Reads the version 2 header operand.
pub fn field_header(data: &[u8], p: usize) -> (r: Option<(Header, usize)>)
    ensures
        match fixed_end(data@, p as int, 24) {
            Decoded::Done(_, q) => r matches Some((v, e)) && e == q && v == header_at(data@, p as int),
            _ => r is None,
        },
{
    read_header(data, p)
}

/// Reads an operand of `n` raw bytes.
pub fn field_bytes(data: &[u8], p: usize, n: usize) -> (r: Option<(Vec<u8>, usize)>)
    ensures
        match fixed_end(data@, p as int, n as int) {
            Decoded::Done(_, q) => r matches Some((v, e)) && e == q && v@ == data@.subrange(p as int, q),
            _ => r is None,
        },
{
    read_bytes(data, p, n)
}

/// Reads an operand of `N` raw bytes into an array.
pub fn field_array<const N: usize>(data: &[u8], p: usize) -> (r: Option<([u8; N], usize)>)
    ensures
        match fixed_end(data@, p as int, N as int) {
            Decoded::Done(_, q) => r matches Some((v, e)) && e == q && v@ == data@.subrange(p as int, q),
            _ => r is None,
        },
{
    read_array::<N>(data, p)
}

/// Reads a region operand.
pub fn field_region(data: &[u8], p: usize) -> (r: Option<(Region, usize)>)
    ensures
        match region_field_end(data@, p as int) {
            Decoded::Done(_, q) => r matches Some((v, e)) && e == q && region_at(data@, p as int, v),
            _ => r is None,
        },
{
    read_region(data, p)
}

/// Reads a Pascal string operand as text.
pub fn field_string(data: &[u8], p: usize) -> (r: Option<(String, usize)>)
    ensures
        match string_end(data@, p as int) {
            Decoded::Done(_, q) => r matches Some((v, e)) && e == q && v@ == short_string_chars(data@, p as int),
            _ => r is None,
        },
{
    read_short_string(data, p)
}

/// Reads a Pascal string operand as a record.
pub fn field_short_string(data: &[u8], p: usize) -> (r: Option<(ShortString, usize)>)
    ensures
        match string_end(data@, p as int) {
            Decoded::Done(_, q) => r matches Some((v, e)) && e == q && v.string@ == short_string_chars(data@, p as int),
            _ => r is None,
        },
{
    read_short_string_record(data, p)
}

/// Reads a polygon operand.
pub fn field_polygon(data: &[u8], p: usize) -> (r: Result<(Polygon, usize), DecodeError>)
    ensures
        match polygon_end(data@, p as int) {
            Decoded::Done(_, q) => r matches Ok((v, e)) && e == q && polygon_ok(data@, p as int, v),
            Decoded::Malformed => r matches Err(e) && e == DecodeError::Malformed,
            Decoded::Fatal => r matches Err(e) && e == DecodeError::Fatal,
        },
{
    read_polygon(data, p)
}

/// Reads a copy-bits operand.
pub fn field_copy_bits(data: &[u8], p: usize, packed: bool, masked: bool, v2: bool) -> (r: Result<(CopyBits, usize), DecodeError>)
    ensures
        match copybits_end(data@, p as int, packed, masked, v2) {
            Decoded::Done(_, q) => r matches Ok((v, e)) && e == q && copybits_ok(data@, p as int, packed, masked, v2, v),
            Decoded::Malformed => r matches Err(e) && e == DecodeError::Malformed,
            Decoded::Fatal => r matches Err(e) && e == DecodeError::Fatal,
        },
{
    read_copy_bits(data, p, packed, masked, v2)
}

/// Reads a direct-bits operand.
pub fn field_direct_bits(data: &[u8], p: usize, masked: bool) -> (r: Result<(DirectBits, usize), DecodeError>)
    ensures
        match directbits_end(data@, p as int, masked) {
            Decoded::Done(_, q) => r matches Ok((v, e)) && e == q && directbits_ok(data@, p as int, masked, v),
            Decoded::Malformed => r matches Err(e) && e == DecodeError::Malformed,
            Decoded::Fatal => r matches Err(e) && e == DecodeError::Fatal,
        },
{
    read_direct_bits(data, p, masked)
}

/// Reads a pixel pattern operand.
pub fn field_pixel_pattern(data: &[u8], p: usize) -> (r: Result<(PixelPattern, usize), DecodeError>)
    ensures
        match pixel_pattern_end(data@, p as int) {
            Decoded::Done(_, q) => r matches Ok((v, e)) && e == q && pixel_pattern_fields(data@, p as int, v),
            Decoded::Malformed => r matches Err(e) && e == DecodeError::Malformed,
            Decoded::Fatal => r matches Err(e) && e == DecodeError::Fatal,
        },
{
    read_pixel_pattern(data, p)
}

} // verus!
