//! Readers for the QuickDraw records that PICT pictures are made of.

use vstd::prelude::*;
use crate::bytes::{be_u16, be_i16, be_u32, get_u16, get_i16, get_u32, get_u8};
use crate::shared::{
    Rect, Point, Fixed, RGBColor, ColorSpec, ColorTable, PixMap, Pattern, Polygon,
    pack_type_of, pixel_type_of, PackType, PixelType, DecodeError,
};
use crate::region::Region;

verus! {

/// The rectangle stored at `pos` (top, left, bottom, right).
pub open spec fn rect_at(s: Seq<u8>, pos: int) -> Rect {
    Rect {
        top: be_i16(s, pos) as i16,
        left: be_i16(s, pos + 2) as i16,
        bottom: be_i16(s, pos + 4) as i16,
        right: be_i16(s, pos + 6) as i16,
    }
}

/// The point stored at `pos` (x then y).
pub open spec fn point_at(s: Seq<u8>, pos: int) -> Point {
    Point { x: be_i16(s, pos) as i16, y: be_i16(s, pos + 2) as i16 }
}

/// The fixed-point number stored at `pos`.
pub open spec fn fixed_at(s: Seq<u8>, pos: int) -> Fixed {
    Fixed { int: be_i16(s, pos) as i16, fraction: be_i16(s, pos + 2) as i16 }
}

/// The color stored at `pos`.
pub open spec fn rgb_at(s: Seq<u8>, pos: int) -> RGBColor {
    RGBColor { red: be_u16(s, pos) as u16, green: be_u16(s, pos + 2) as u16, blue: be_u16(s, pos + 4) as u16 }
}

/// The color-table entry stored at `pos`.
pub open spec fn color_spec_at(s: Seq<u8>, pos: int) -> ColorSpec {
    ColorSpec { value: be_i16(s, pos) as i16, rgb: rgb_at(s, pos + 2) }
}

/// Number of entries of the color table at `pos`: the stored size plus
/// one, or none when the size is 0xFFFF.
pub open spec fn color_table_count(s: Seq<u8>, pos: int) -> int {
    let size = be_u16(s, pos + 6);
    if size == 0xFFFF { 0 } else { size + 1 }
}

/// Reads a rectangle.
pub fn read_rect(data: &[u8], pos: usize) -> (r: Option<(Rect, usize)>)
    ensures
        match r {
            Some((rect, p)) => pos + 8 <= data@.len() && rect == rect_at(data@, pos as int) && p == pos + 8,
            None => pos + 8 > data@.len(),
        },
{
    let top = get_i16(data, pos)?;
    let left = get_i16(data, pos + 2)?;
    let bottom = get_i16(data, pos + 4)?;
    let right = get_i16(data, pos + 6)?;
    Some((Rect { top, left, bottom, right }, pos + 8))
}

/// Reads a point.
pub fn read_point(data: &[u8], pos: usize) -> (r: Option<(Point, usize)>)
    ensures
        match r {
            Some((pt, p)) => pos + 4 <= data@.len() && pt == point_at(data@, pos as int) && p == pos + 4,
            None => pos + 4 > data@.len(),
        },
{
    let x = get_i16(data, pos)?;
    let y = get_i16(data, pos + 2)?;
    Some((Point { x, y }, pos + 4))
}

/// Reads a fixed-point number.
pub fn read_fixed(data: &[u8], pos: usize) -> (r: Option<(Fixed, usize)>)
    ensures
        match r {
            Some((f, p)) => pos + 4 <= data@.len() && f == fixed_at(data@, pos as int) && p == pos + 4,
            None => pos + 4 > data@.len(),
        },
{
    let whole = get_i16(data, pos)?;
    let fraction = get_i16(data, pos + 2)?;
    Some((Fixed { int: whole, fraction }, pos + 4))
}

/// Reads a color.
pub fn read_rgb(data: &[u8], pos: usize) -> (r: Option<(RGBColor, usize)>)
    ensures
        match r {
            Some((c, p)) => pos + 6 <= data@.len() && c == rgb_at(data@, pos as int) && p == pos + 6,
            None => pos + 6 > data@.len(),
        },
{
    let red = get_u16(data, pos)?;
    let green = get_u16(data, pos + 2)?;
    let blue = get_u16(data, pos + 4)?;
    Some((RGBColor { red, green, blue }, pos + 6))
}

/// Reads an 8-byte pattern.
pub fn read_pattern(data: &[u8], pos: usize) -> (r: Option<(Pattern, usize)>)
    ensures
        match r {
            Some((pat, p)) => pos + 8 <= data@.len() && pat.data@ == data@.subrange(pos as int, pos + 8) && p == pos + 8,
            None => pos + 8 > data@.len(),
        },
{
    if pos > data.len() || data.len() - pos < 8 {
        return None;
    }
    let pat = Pattern {
        data: [data[pos], data[pos + 1], data[pos + 2], data[pos + 3], data[pos + 4], data[pos + 5], data[pos + 6], data[pos + 7]],
    };
    assert(pat.data@ == data@.subrange(pos as int, pos + 8));
    Some((pat, pos + 8))
}

/// Copies `n` bytes starting at `pos`.
pub fn read_bytes(data: &[u8], pos: usize, n: usize) -> (r: Option<(Vec<u8>, usize)>)
    ensures
        match r {
            Some((v, p)) => pos + n <= data@.len() && v@ == data@.subrange(pos as int, pos + n) && p == pos + n,
            None => pos + n > data@.len(),
        },
{
    if pos > data.len() || data.len() - pos < n {
        return None;
    }
    let mut v: Vec<u8> = Vec::new();
    let mut k: usize = 0;
    while k < n
        invariant
            k <= n,
            pos + n <= data.len(),
            v@ == data@.subrange(pos as int, pos + k),
        decreases n - k,
    {
        v.push(data[pos + k]);
        assert(data@.subrange(pos as int, pos + k + 1) == data@.subrange(pos as int, pos + k).push(data@[pos + k]));
        k += 1;
    }
    Some((v, pos + n))
}

/// Position after the color table at `pos`, if it fits.
pub open spec fn color_table_end(s: Seq<u8>, pos: int) -> Option<int> {
    if 0 <= pos && pos + 8 <= s.len() && pos + 8 + 8 * color_table_count(s, pos) <= s.len() {
        Some(pos + 8 + 8 * color_table_count(s, pos))
    } else {
        None
    }
}

/// Whether `ct` is the color table stored at `pos`.
pub open spec fn color_table_at(s: Seq<u8>, pos: int, ct: ColorTable) -> bool {
    let n = color_table_count(s, pos);
    &&& ct.ct_seed == be_u32(s, pos)
    &&& ct.ct_flags == be_u16(s, pos + 4)
    &&& ct.ct_table@.len() == n
    &&& forall|k: int| 0 <= k < n ==> #[trigger] ct.ct_table@[k] == color_spec_at(s, pos + 8 + 8 * k)
}

/// Position after the region record at `pos`, if it fits.
pub open spec fn region_end_opt(s: Seq<u8>, pos: int) -> Option<int> {
    if 0 <= pos && pos + 2 <= s.len() && region_end(s, pos) <= s.len() { Some(region_end(s, pos)) } else { None }
}

/// Reads a color table: seed, flags, size, then the entries.
pub fn read_color_table(data: &[u8], pos: usize) -> (r: Option<(ColorTable, usize)>)
    ensures
        match r {
            Some((ct, p)) => {
                let n = color_table_count(data@, pos as int);
                &&& pos + 8 + 8 * n <= data@.len()
                &&& ct.ct_seed == be_u32(data@, pos as int)
                &&& ct.ct_flags == be_u16(data@, pos + 4)
                &&& ct.ct_table@.len() == n
                &&& forall|k: int| 0 <= k < n ==> #[trigger] ct.ct_table@[k] == color_spec_at(data@, pos + 8 + 8 * k)
                &&& p == pos + 8 + 8 * n
            },
            None => pos + 8 > data@.len() || pos + 8 + 8 * color_table_count(data@, pos as int) > data@.len(),
        },
{
    let ct_seed = get_u32(data, pos)?;
    let ct_flags = get_u16(data, pos + 4)?;
    let ct_size = get_u16(data, pos + 6)?;
    let count: usize = if ct_size == 0xFFFF { 0 } else { ct_size as usize + 1 };
    let start = pos + 8;
    if data.len() - start < 8 * count {
        return None;
    }
    let mut table: Vec<ColorSpec> = Vec::new();
    let mut k: usize = 0;
    while k < count
        invariant
            k <= count,
            start == pos + 8,
            start + 8 * count <= data.len(),
            count == color_table_count(data@, pos as int),
            table@.len() == k,
            forall|j: int| 0 <= j < k ==> #[trigger] table@[j] == color_spec_at(data@, pos + 8 + 8 * j),
        decreases count - k,
    {
        let at = start + 8 * k;
        let value = match get_i16(data, at) { Some(v) => v, None => return None };
        let (rgb, _) = match read_rgb(data, at + 2) { Some(x) => x, None => return None };
        table.push(ColorSpec { value, rgb });
        k += 1;
    }
    Some((ColorTable { ct_seed, ct_flags, ct_table: table }, start + 8 * count))
}

/// The pixmap header whose first row byte is `hi` and whose remaining 45
/// bytes start at `pos`.
pub open spec fn pixmap_at(s: Seq<u8>, pos: int, hi: u8) -> PixMap {
    PixMap {
        row_bytes_and_flags: ((hi as int % 128) * 256 + s[pos] as int) as u16,
        bounds: rect_at(s, pos + 1),
        pm_version: be_i16(s, pos + 9) as i16,
        pack_type: pack_type_of(be_u16(s, pos + 11) as u16),
        pack_size: be_u32(s, pos + 13) as u32,
        h_res: fixed_at(s, pos + 17),
        v_res: fixed_at(s, pos + 21),
        pixel_type: pixel_type_of(be_i16(s, pos + 25) as i16),
        pixel_size: be_i16(s, pos + 27) as i16,
        component_count: be_i16(s, pos + 29) as i16,
        component_size: be_i16(s, pos + 31) as i16,
        plane_bytes: be_u32(s, pos + 33) as u32,
        pm_table: be_u32(s, pos + 37) as u32,
        pm_reserved: be_u32(s, pos + 41) as u32,
    }
}

/// Reads a pixmap header whose first row byte `hi` has already been read;
/// the flag bit of `hi` is dropped.
pub fn read_pixmap(data: &[u8], pos: usize, hi: u8) -> (r: Option<(PixMap, usize)>)
    ensures
        match r {
            Some((pm, p)) => pos + 45 <= data@.len() && pm == pixmap_at(data@, pos as int, hi) && p == pos + 45,
            None => pos + 45 > data@.len(),
        },
{
    if pos > data.len() || data.len() - pos < 45 {
        return None;
    }
    let low = data[pos];
    let row_bytes_and_flags: u16 = (hi % 128) as u16 * 256 + low as u16;
    let (bounds, _) = read_rect(data, pos + 1)?;
    let pm_version = get_i16(data, pos + 9)?;
    let pack_code = get_u16(data, pos + 11)?;
    let pack_size = get_u32(data, pos + 13)?;
    let (h_res, _) = read_fixed(data, pos + 17)?;
    let (v_res, _) = read_fixed(data, pos + 21)?;
    let pixel_code = get_i16(data, pos + 25)?;
    let pixel_size = get_i16(data, pos + 27)?;
    let component_count = get_i16(data, pos + 29)?;
    let component_size = get_i16(data, pos + 31)?;
    let plane_bytes = get_u32(data, pos + 33)?;
    let pm_table = get_u32(data, pos + 37)?;
    let pm_reserved = get_u32(data, pos + 41)?;
    let pm = PixMap {
        row_bytes_and_flags,
        bounds,
        pm_version,
        pack_type: PackType::from_code(pack_code),
        pack_size,
        h_res,
        v_res,
        pixel_type: PixelType::from_code(pixel_code),
        pixel_size,
        component_count,
        component_size,
        plane_bytes,
        pm_table,
        pm_reserved,
    };
    Some((pm, pos + 45))
}

/// Number of toggle values of the region record at `pos`.
pub open spec fn region_count(s: Seq<u8>, pos: int) -> int {
    let size = be_u16(s, pos);
    if size >= 10 { (size - 10) / 2 } else { 0 }
}

/// Offset of the toggle data of the region record at `pos`.
pub open spec fn region_data_start(s: Seq<u8>, pos: int) -> int {
    if be_u16(s, pos) >= 10 { pos + 10 } else { pos + 2 }
}

/// Position after the region record at `pos`.
pub open spec fn region_end(s: Seq<u8>, pos: int) -> int {
    region_data_start(s, pos) + 2 * region_count(s, pos)
}

/// Whether `r` is the region record stored at `pos`, with no cached mask.
pub open spec fn region_at(s: Seq<u8>, pos: int, r: Region) -> bool {
    &&& r.size == be_u16(s, pos)
    &&& r.bounding_box == (if be_u16(s, pos) >= 10 { Some(rect_at(s, pos + 2)) } else { None })
    &&& r.data@.len() == region_count(s, pos)
    &&& forall|k: int| 0 <= k < region_count(s, pos) ==> #[trigger] r.data@[k] == be_i16(s, region_data_start(s, pos) + 2 * k)
    &&& r.decoded_mask is None
    &&& r.wf()
}

/// Reads a region record: its size, a bounding box when the size allows
/// one, then 16-bit toggle values filling the rest.
pub fn read_region(data: &[u8], pos: usize) -> (r: Option<(Region, usize)>)
    ensures
        match r {
            Some((rg, p)) => pos + 2 <= data@.len() && region_end(data@, pos as int) <= data@.len()
                && region_at(data@, pos as int, rg) && p == region_end(data@, pos as int),
            None => pos + 2 > data@.len() || region_end(data@, pos as int) > data@.len(),
        },
{
    let size = get_u16(data, pos)?;
    let (bounding_box, start) = if size >= 10 {
        match read_rect(data, pos + 2) {
            Some((rect, p)) => (Some(rect), p),
            None => return None,
        }
    } else {
        (None, pos + 2)
    };
    let count: usize = if size >= 10 { ((size - 10) / 2) as usize } else { 0 };
    if data.len() - start < 2 * count {
        return None;
    }
    let mut values: Vec<i16> = Vec::new();
    let mut k: usize = 0;
    while k < count
        invariant
            k <= count,
            start + 2 * count <= data.len(),
            start == region_data_start(data@, pos as int),
            count == region_count(data@, pos as int),
            values@.len() == k,
            forall|j: int| 0 <= j < k ==> #[trigger] values@[j] == be_i16(data@, start + 2 * j),
        decreases count - k,
    {
        let v = match get_i16(data, start + 2 * k) { Some(v) => v, None => return None };
        values.push(v);
        k += 1;
    }
    let rg = Region::from_parts(size, bounding_box, values);
    Some((rg, start + 2 * count))
}

/// Reads a polygon record: its size, then `size - 2` bytes. A size below 2
/// is fatal.
pub fn read_polygon(data: &[u8], pos: usize) -> (r: Result<(Polygon, usize), DecodeError>)
    ensures
        match r {
            Ok((poly, p)) => pos + 2 <= data@.len() && be_u16(data@, pos as int) >= 2
                && pos + be_u16(data@, pos as int) <= data@.len()
                && poly.size == be_u16(data@, pos as int)
                && poly.data@ == data@.subrange(pos + 2, pos + be_u16(data@, pos as int))
                && p == pos + be_u16(data@, pos as int),
            Err(e) => e == (if pos + 2 <= data@.len() && be_u16(data@, pos as int) < 2 {
                DecodeError::Fatal
            } else {
                DecodeError::Malformed
            }) && (pos + 2 <= data@.len() && be_u16(data@, pos as int) >= 2 ==> pos + be_u16(data@, pos as int) > data@.len()),
        },
{
    let size = match get_u16(data, pos) {
        Some(v) => v,
        None => return Err(DecodeError::Malformed),
    };
    if size < 2 {
        return Err(DecodeError::Fatal);
    }
    match read_bytes(data, pos + 2, (size - 2) as usize) {
        Some((bytes, p)) => Ok((Polygon { size, data: bytes }, p)),
        None => Err(DecodeError::Malformed),
    }
}

/// Position after the Pascal string at `pos` (a length byte and that many
/// bytes), or `None` when it runs past the end.
pub open spec fn short_string_end(s: Seq<u8>, pos: int) -> Option<int> {
    if 0 <= pos < s.len() && pos + 1 + s[pos] <= s.len() { Some(pos + 1 + s[pos]) } else { None }
}

/// Skips a Pascal string, returning the position after it.
pub fn skip_short_string(data: &[u8], pos: usize) -> (r: Option<usize>)
    ensures
        match short_string_end(data@, pos as int) {
            Some(p) => r == Some(p as usize),
            None => r is None,
        },
{
    let len = get_u8(data, pos)?;
    if data.len() - (pos + 1) < len as usize {
        return None;
    }
    Some(pos + 1 + len as usize)
}

} // verus!
