//! Bitmap and pixmap copy records of PICT pictures.

use vstd::prelude::*;
use crate::bytes::{be_u16, be_u32, get_u16, get_u32, get_u8};
use crate::shared::{Rect, PixMap, ColorTable, TransferMode, transfer_mode_of, DecodeError, Pattern,
    PatternType, pattern_type_of, RGBColor};
use crate::region::Region;
use crate::parse::{rect_at, pixmap_at, color_table_at, color_table_end, region_at, region_end_opt,
    read_rect, read_pixmap, read_color_table, read_region, read_bytes, read_pattern, read_rgb, rgb_at};
use crate::pixdata::{Decoded, spec_pixmap_data, read_pixmap_data};
use crate::packbits::{decode_rle, decode_rle_scanlines, packbits_from, read_packbits};

verus! {

/// Parsed payload for CopyBits/PackBits style opcodes.
#[derive(Debug)]
pub enum CopyBits {
    /// A pixel map with several bits per pixel, its color table and pixel
    /// bytes.
    Pixmap {
        /// Source pixmap definition.
        pix_map: PixMap,
        /// Source color table for indexed pixmaps.
        color_table: ColorTable,
        /// Source rectangle.
        src_rect: Rect,
        /// Destination rectangle.
        dst_rect: Rect,
        /// Transfer mode.
        mode: TransferMode,
        /// Optional mask region.
        mask_region: Option<Region>,
        /// Pixel bytes.
        data: Vec<u8>,
    },
    /// 1-bit bitmap copy payload.
    Bitmap {
        /// Row-bytes including flags.
        bytes_per_row: u16,
        /// Source bitmap bounds.
        bounds: Rect,
        /// Transfer mode.
        mode: TransferMode,
        /// Source rectangle.
        src_rect: Rect,
        /// Destination rectangle.
        dst_rect: Rect,
        /// Optional mask region.
        mask_region: Option<Region>,
        /// Bitmap bytes.
        data: Vec<u8>,
    },
}

/// Direct-color pixmap copy payload of PICT v2.
#[derive(Debug)]
pub struct DirectBits {
    pub pix_map: PixMap,
    pub src_rect: Rect,
    pub dst_rect: Rect,
    pub mode: TransferMode,
    pub mask: Option<Region>,
    pub data: Vec<u8>,
}

/// Embedded pattern image payload for `PixelPattern` (its pixel bytes are
/// read and not kept).
#[derive(Debug)]
pub struct PatternImage {
    pub pixmap: PixMap,
    pub color_table: ColorTable,
    pub data: Vec<u8>,
}

/// Pixel pattern value used by color pattern opcodes.
#[derive(Debug)]
pub struct PixelPattern {
    pub pattern_type: PatternType,
    pub monochrome: Pattern,
    pub normal_pattern: Option<PatternImage>,
    pub dither_color: Option<RGBColor>,
}

/// Position after an optional mask region at `pos`, if present and fitting.
pub open spec fn mask_end(s: Seq<u8>, pos: int, masked: bool) -> Option<int> {
    if masked { region_end_opt(s, pos) } else { Some(pos) }
}

/// Whether `m` is the optional mask stored at `pos`.
pub open spec fn mask_at(s: Seq<u8>, pos: int, masked: bool, m: Option<Region>) -> bool {
    if masked { m matches Some(rg) && region_at(s, pos, rg) } else { m is None }
}

/// Reading `n` raw bytes at `pos`: `fail` when they do not fit.
pub open spec fn raw_bytes(s: Seq<u8>, pos: int, n: int, fail: Decoded<Seq<u8>>) -> Decoded<Seq<u8>> {
    if 0 <= pos && pos + n <= s.len() { Decoded::Done(s.subrange(pos, pos + n), pos + n) } else { fail }
}

/// The pixel bytes of a pixmap copy record starting at `pos`.
pub open spec fn pixmap_copy_data(s: Seq<u8>, pos: int, pm: PixMap, packed: bool, v2: bool) -> Decoded<Seq<u8>> {
    let h = pm.bounds.spec_height();
    let bpr = pm.spec_bytes_per_row();
    if !(i16::MIN <= h <= i16::MAX) {
        Decoded::Fatal
    } else if !packed || (v2 && bpr < 8) {
        if h < 0 {
            if bpr == 0 && 0 <= pos <= s.len() { Decoded::Done(Seq::empty(), pos) } else { Decoded::Fatal }
        } else {
            raw_bytes(s, pos, h * bpr, Decoded::Fatal)
        }
    } else {
        spec_pixmap_data(s, pos, pm)
    }
}

/// The bit bytes of a bitmap copy record starting at `pos`.
pub open spec fn bitmap_copy_data(s: Seq<u8>, pos: int, bounds: Rect, bpr: int, packed: bool, v2: bool) -> Decoded<Seq<u8>> {
    let h = bounds.spec_height();
    if !(i16::MIN <= h <= i16::MAX) {
        Decoded::Fatal
    } else if h < 0 {
        if bpr != 0 {
            Decoded::Fatal
        } else if (!packed || (v2 && bpr < 8)) && 0 <= pos <= s.len() {
            Decoded::Done(Seq::empty(), pos)
        } else {
            Decoded::Malformed
        }
    } else if !packed || (v2 && bpr < 8) {
        raw_bytes(s, pos, h * bpr, Decoded::Malformed)
    } else {
        match decode_rle(s, pos, h as nat, bpr > 250, false, bpr as nat) {
            Some((o, p)) => Decoded::Done(o, p),
            None => Decoded::Malformed,
        }
    }
}

/// The copy record at `pos`, as the position of its pixel data and how
/// reading that data ends; the first byte's high bit chooses a pixmap
/// (with a color table) or a bitmap.
pub open spec fn copybits_data(s: Seq<u8>, pos: int, packed: bool, masked: bool, v2: bool) -> (int, Decoded<Seq<u8>>) {
    if pos < 0 || pos >= s.len() {
        (0, Decoded::Malformed)
    } else if s[pos] >= 128 {
        if pos + 46 > s.len() {
            (0, Decoded::Malformed)
        } else {
            let pm = pixmap_at(s, pos + 1, s[pos]);
            match color_table_end(s, pos + 46) {
                Some(q1) => if q1 + 18 > s.len() {
                    (0, Decoded::Malformed)
                } else {
                    match mask_end(s, q1 + 18, masked) {
                        Some(q2) => (q2, pixmap_copy_data(s, q2, pm, packed, v2)),
                        None => (0, Decoded::Malformed),
                    }
                },
                None => (0, Decoded::Malformed),
            }
        }
    } else {
        if pos + 28 > s.len() {
            (0, Decoded::Malformed)
        } else {
            let bpr = s[pos] as int * 256 + s[pos + 1] as int;
            match mask_end(s, pos + 28, masked) {
                Some(q2) => (q2, bitmap_copy_data(s, q2, rect_at(s, pos + 2), bpr, packed, v2)),
                None => (0, Decoded::Malformed),
            }
        }
    }
}

/// Whether `cb` holds the fields of the copy record at `pos`, with pixel
/// bytes `data`.
pub open spec fn copybits_fields(s: Seq<u8>, pos: int, masked: bool, cb: CopyBits, data: Seq<u8>) -> bool {
    match cb {
        CopyBits::Pixmap { pix_map, color_table, src_rect, dst_rect, mode, mask_region, data: d } => {
            let q1 = color_table_end(s, pos + 46)->0;
            &&& s[pos] >= 128
            &&& pix_map == pixmap_at(s, pos + 1, s[pos])
            &&& color_table_at(s, pos + 46, color_table)
            &&& src_rect == rect_at(s, q1)
            &&& dst_rect == rect_at(s, q1 + 8)
            &&& mode == transfer_mode_of(be_u16(s, q1 + 16) as u16)
            &&& mask_at(s, q1 + 18, masked, mask_region)
            &&& d@ == data
        },
        CopyBits::Bitmap { bytes_per_row, bounds, mode, src_rect, dst_rect, mask_region, data: d } => {
            &&& s[pos] < 128
            &&& bytes_per_row == s[pos] as int * 256 + s[pos + 1] as int
            &&& bounds == rect_at(s, pos + 2)
            &&& src_rect == rect_at(s, pos + 10)
            &&& dst_rect == rect_at(s, pos + 18)
            &&& mode == transfer_mode_of(be_u16(s, pos + 26) as u16)
            &&& mask_at(s, pos + 28, masked, mask_region)
            &&& d@ == data
        },
    }
}

/// Reads an optional mask region.
fn read_mask(data: &[u8], pos: usize, masked: bool) -> (r: Option<(Option<Region>, usize)>)
    ensures
        match mask_end(data@, pos as int, masked) {
            Some(q) => r matches Some((m, p)) && p == q && mask_at(data@, pos as int, masked, m),
            None => r is None,
        },
{
    if masked {
        match read_region(data, pos) {
            Some((rg, p)) => Some((Some(rg), p)),
            None => None,
        }
    } else {
        Some((None, pos))
    }
}

/// Reads a copy-bits record (`CopyBits`): `packed` says whether the pixel
/// data is run-length encoded, `masked` whether a mask region precedes it,
/// `v2` whether the picture is PICT v2 (whose rows under 8 bytes are never
/// packed).
pub fn read_copy_bits(data: &[u8], pos: usize, packed: bool, masked: bool, v2: bool) -> (r: Result<(CopyBits, usize), DecodeError>)
    ensures
        match copybits_data(data@, pos as int, packed, masked, v2).1 {
            Decoded::Done(d, q) => r matches Ok((cb, p)) && p == q && copybits_fields(data@, pos as int, masked, cb, d),
            Decoded::Malformed => r matches Err(e) && e == DecodeError::Malformed,
            Decoded::Fatal => r matches Err(e) && e == DecodeError::Fatal,
        },
{
    let hi = match get_u8(data, pos) {
        Some(v) => v,
        None => return Err(DecodeError::Malformed),
    };
    if hi >= 128 {
        let (pix_map, p1) = match read_pixmap(data, pos + 1, hi) {
            Some(x) => x,
            None => return Err(DecodeError::Malformed),
        };
        let (color_table, q1) = match read_color_table(data, p1) {
            Some(x) => x,
            None => return Err(DecodeError::Malformed),
        };
        if data.len() - q1 < 18 {
            return Err(DecodeError::Malformed);
        }
        let (src_rect, _) = match read_rect(data, q1) { Some(x) => x, None => return Err(DecodeError::Malformed) };
        let (dst_rect, _) = match read_rect(data, q1 + 8) { Some(x) => x, None => return Err(DecodeError::Malformed) };
        let mode_code = match get_u16(data, q1 + 16) { Some(x) => x, None => return Err(DecodeError::Malformed) };
        let mode = TransferMode::from_code(mode_code);
        let (mask_region, q2) = match read_mask(data, q1 + 18, masked) {
            Some(x) => x,
            None => return Err(DecodeError::Malformed),
        };
        let b = pix_map.bounds;
        let hi32: i32 = b.bottom as i32 - b.top as i32;
        let bpr = pix_map.bytes_per_row() as usize;
        if hi32 < -0x8000 || hi32 > 0x7fff {
            return Err(DecodeError::Fatal);
        }
        if hi32 < 0 && (!packed || (v2 && bpr < 8)) {
            if bpr == 0 && q2 <= data.len() {
                let cb = CopyBits::Pixmap { pix_map, color_table, src_rect, dst_rect, mode, mask_region, data: Vec::new() };
                return Ok((cb, q2));
            }
            return Err(DecodeError::Fatal);
        }
        if hi32 < 0 {
            return match read_pixmap_data(data, q2, &pix_map) {
                Ok((bytes, p)) => Ok((CopyBits::Pixmap { pix_map, color_table, src_rect, dst_rect, mode, mask_region, data: bytes }, p)),
                Err(e) => Err(e),
            };
        }
        let scanline_count = hi32 as usize;
        proof {
            assert(scanline_count * bpr <= 0x7fff * 0x7fff) by (nonlinear_arith)
                requires scanline_count <= 0x7fff, bpr <= 0x7fff;
        }
        let (bytes, p) = if !packed || (v2 && bpr < 8) {
            match read_bytes(data, q2, scanline_count * bpr) {
                Some(x) => x,
                None => return Err(DecodeError::Fatal),
            }
        } else {
            match read_pixmap_data(data, q2, &pix_map) {
                Ok(x) => x,
                Err(e) => return Err(e),
            }
        };
        Ok((CopyBits::Pixmap { pix_map, color_table, src_rect, dst_rect, mode, mask_region, data: bytes }, p))
    } else {
        if pos > data.len() || data.len() - pos < 28 {
            return Err(DecodeError::Malformed);
        }
        let lo = data[pos + 1];
        let flags_and_row_bytes: u16 = hi as u16 * 256 + lo as u16;
        let (bounds, _) = match read_rect(data, pos + 2) { Some(x) => x, None => return Err(DecodeError::Malformed) };
        let (src_rect, _) = match read_rect(data, pos + 10) { Some(x) => x, None => return Err(DecodeError::Malformed) };
        let (dst_rect, _) = match read_rect(data, pos + 18) { Some(x) => x, None => return Err(DecodeError::Malformed) };
        let mode_code = match get_u16(data, pos + 26) { Some(x) => x, None => return Err(DecodeError::Malformed) };
        let mode = TransferMode::from_code(mode_code);
        let (mask_region, q2) = match read_mask(data, pos + 28, masked) {
            Some(x) => x,
            None => return Err(DecodeError::Malformed),
        };
        let hi32: i32 = bounds.bottom as i32 - bounds.top as i32;
        let bpr = flags_and_row_bytes as usize;
        if hi32 < -0x8000 || hi32 > 0x7fff {
            return Err(DecodeError::Fatal);
        }
        if hi32 < 0 {
            if bpr != 0 {
                return Err(DecodeError::Fatal);
            }
            if (!packed || (v2 && bpr < 8)) && q2 <= data.len() {
                let cb = CopyBits::Bitmap { bytes_per_row: flags_and_row_bytes, bounds, mode, src_rect, dst_rect, mask_region, data: Vec::new() };
                return Ok((cb, q2));
            }
            return Err(DecodeError::Malformed);
        }
        let scanline_count = hi32 as usize;
        proof {
            assert(scanline_count * bpr <= 0x7fff * 0x7fff) by (nonlinear_arith)
                requires scanline_count <= 0x7fff, bpr <= 0x7fff;
        }
        let (bytes, p) = if !packed || (v2 && bpr < 8) {
            match read_bytes(data, q2, scanline_count * bpr) {
                Some(x) => x,
                None => return Err(DecodeError::Malformed),
            }
        } else {
            match decode_rle_scanlines(data, q2, scanline_count, bpr > 250, false, bpr) {
                Some(x) => x,
                None => return Err(DecodeError::Malformed),
            }
        };
        Ok((CopyBits::Bitmap { bytes_per_row: flags_and_row_bytes, bounds, mode, src_rect, dst_rect, mask_region, data: bytes }, p))
    }
}

/// The direct-bits record at `pos` (a base address, a pixmap header, the
/// source and destination rectangles, a mode, an optional mask, then
/// `PixMapData`), as the position of its pixel data and how reading that
/// data ends.
pub open spec fn directbits_data(s: Seq<u8>, pos: int, masked: bool) -> (int, Decoded<Seq<u8>>) {
    if pos < 0 || pos + 68 > s.len() {
        (0, Decoded::Malformed)
    } else {
        match mask_end(s, pos + 68, masked) {
            Some(q) => (q, spec_pixmap_data(s, q, pixmap_at(s, pos + 5, s[pos + 4]))),
            None => (0, Decoded::Malformed),
        }
    }
}

/// Whether `db` holds the fields of the direct-bits record at `pos`, with
/// pixel bytes `data`.
pub open spec fn directbits_fields(s: Seq<u8>, pos: int, masked: bool, db: DirectBits, data: Seq<u8>) -> bool {
    &&& db.pix_map == pixmap_at(s, pos + 5, s[pos + 4])
    &&& db.src_rect == rect_at(s, pos + 50)
    &&& db.dst_rect == rect_at(s, pos + 58)
    &&& db.mode == transfer_mode_of(be_u16(s, pos + 66) as u16)
    &&& mask_at(s, pos + 68, masked, db.mask)
    &&& db.data@ == data
}

/// Reads a direct-bits record (`DirectBits`); `masked` says whether a mask
/// region precedes the pixel data.
pub fn read_direct_bits(data: &[u8], pos: usize, masked: bool) -> (r: Result<(DirectBits, usize), DecodeError>)
    ensures
        match directbits_data(data@, pos as int, masked).1 {
            Decoded::Done(d, q) => r matches Ok((db, p)) && p == q && directbits_fields(data@, pos as int, masked, db, d),
            Decoded::Malformed => r matches Err(e) && e == DecodeError::Malformed,
            Decoded::Fatal => r matches Err(e) && e == DecodeError::Fatal,
        },
{
    if pos > data.len() || data.len() - pos < 68 {
        return Err(DecodeError::Malformed);
    }
    let hi = data[pos + 4];
    let (pix_map, _) = match read_pixmap(data, pos + 5, hi) { Some(x) => x, None => return Err(DecodeError::Malformed) };
    let (src_rect, _) = match read_rect(data, pos + 50) { Some(x) => x, None => return Err(DecodeError::Malformed) };
    let (dst_rect, _) = match read_rect(data, pos + 58) { Some(x) => x, None => return Err(DecodeError::Malformed) };
    let mode_code = match get_u16(data, pos + 66) { Some(x) => x, None => return Err(DecodeError::Malformed) };
    let mode = TransferMode::from_code(mode_code);
    let (mask, q) = match read_mask(data, pos + 68, masked) {
        Some(x) => x,
        None => return Err(DecodeError::Malformed),
    };
    match read_pixmap_data(data, q, &pix_map) {
        Ok((bytes, p)) => Ok((DirectBits { pix_map, src_rect, dst_rect, mode, mask, data: bytes }, p)),
        Err(e) => Err(e),
    }
}

/// Position after `rows` packed pattern rows of `size` bytes at `pos`:
/// each a length header (a word when `size` exceeds 250, else a byte),
/// which is not used, and PackBits data filling the row.
pub open spec fn pattern_rows_end(s: Seq<u8>, pos: int, rows: nat, size: int) -> Option<int>
    decreases rows,
{
    if rows == 0 {
        Some(pos)
    } else {
        let hdr = if size > 250 { 2int } else { 1int };
        if pos < 0 || pos + hdr > s.len() {
            None
        } else {
            match packbits_from(s, pos + hdr, size as nat, Seq::empty()) {
                Some((_, q)) => pattern_rows_end(s, q, (rows - 1) as nat, size),
                None => None,
            }
        }
    }
}

/// How reading the pattern image at `pos` ends: the position after it
/// (its pixels are read and not kept), `Malformed`, or `Fatal` for a
/// height that overflows or is negative with rows to read.
pub open spec fn pattern_image_end(s: Seq<u8>, pos: int) -> Decoded<()> {
    if pos < 0 || pos + 46 > s.len() {
        Decoded::Malformed
    } else {
        let pm = pixmap_at(s, pos + 1, s[pos]);
        match color_table_end(s, pos + 46) {
            None => Decoded::Malformed,
            Some(q1) => {
                let h = pm.bounds.spec_height();
                let size = pm.spec_bytes_per_row();
                if !(i16::MIN <= h <= i16::MAX) {
                    Decoded::Fatal
                } else if h < 0 {
                    if size == 0 { Decoded::Done((), q1) } else { Decoded::Fatal }
                } else if size <= 8 {
                    if q1 + h * size <= s.len() { Decoded::Done((), q1 + h * size) } else { Decoded::Malformed }
                } else {
                    match pattern_rows_end(s, q1, h as nat, size) {
                        Some(q) => Decoded::Done((), q),
                        None => Decoded::Malformed,
                    }
                }
            },
        }
    }
}

/// Whether `img` holds the fields of the pattern image at `pos`.
pub open spec fn pattern_image_fields(s: Seq<u8>, pos: int, img: PatternImage) -> bool {
    &&& img.pixmap == pixmap_at(s, pos + 1, s[pos])
    &&& color_table_at(s, pos + 46, img.color_table)
    &&& img.data@.len() == 0
}

/// Skips packed pattern rows, as `pattern_rows_end` says.
fn skip_pattern_rows(data: &[u8], pos: usize, rows: usize, size: usize) -> (r: Option<usize>)
    ensures
        match pattern_rows_end(data@, pos as int, rows as nat, size as int) {
            Some(q) => r matches Some(p) && p == q,
            None => r is None,
        },
    decreases rows,
{
    if rows == 0 {
        return Some(pos);
    }
    let hdr: usize = if size > 250 { 2 } else { 1 };
    if pos > data.len() || data.len() - pos < hdr {
        return None;
    }
    match read_packbits(data, pos + hdr, size) {
        Ok((_, q)) => skip_pattern_rows(data, q, rows - 1, size),
        Err(_) => None,
    }
}

/// Reads the pattern image of a pixel pattern (`PatternImage`).
pub fn read_pattern_image(data: &[u8], pos: usize) -> (r: Result<(PatternImage, usize), DecodeError>)
    ensures
        match pattern_image_end(data@, pos as int) {
            Decoded::Done(_, q) => r matches Ok((img, p)) && p == q && pattern_image_fields(data@, pos as int, img),
            Decoded::Malformed => r matches Err(e) && e == DecodeError::Malformed,
            Decoded::Fatal => r matches Err(e) && e == DecodeError::Fatal,
        },
{
    if pos > data.len() || data.len() - pos < 46 {
        return Err(DecodeError::Malformed);
    }
    let hi = data[pos];
    let (pixmap, _) = match read_pixmap(data, pos + 1, hi) { Some(x) => x, None => return Err(DecodeError::Malformed) };
    let (color_table, q1) = match read_color_table(data, pos + 46) { Some(x) => x, None => return Err(DecodeError::Malformed) };
    let b = pixmap.bounds;
    let h: i32 = b.bottom as i32 - b.top as i32;
    let size = pixmap.bytes_per_row() as usize;
    if h < -0x8000 || h > 0x7fff {
        return Err(DecodeError::Fatal);
    }
    let end = if h < 0 {
        if size == 0 {
            q1
        } else {
            return Err(DecodeError::Fatal);
        }
    } else if size <= 8 {
        proof {
            assert(0 <= h as int * size as int <= 0x7fff * 8) by (nonlinear_arith)
                requires 0 <= h <= 0x7fff, size <= 8;
        }
        let n = h as usize * size;
        if data.len() - q1 < n {
            return Err(DecodeError::Malformed);
        }
        q1 + n
    } else {
        match skip_pattern_rows(data, q1, h as usize, size) {
            Some(q) => q,
            None => return Err(DecodeError::Malformed),
        }
    };
    Ok((PatternImage { pixmap, color_table, data: Vec::new() }, end))
}

/// How reading the pixel pattern at `pos` ends: a type word and an 8-byte
/// monochrome pattern, then a pattern image for a normal pattern or a
/// color for a dithered one.
pub open spec fn pixel_pattern_end(s: Seq<u8>, pos: int) -> Decoded<()> {
    if pos < 0 || pos + 10 > s.len() {
        Decoded::Malformed
    } else {
        let t = pattern_type_of(be_u16(s, pos) as u16);
        if t is Normal {
            pattern_image_end(s, pos + 10)
        } else if t is Dither {
            if pos + 16 <= s.len() { Decoded::Done((), pos + 16) } else { Decoded::Malformed }
        } else {
            Decoded::Done((), pos + 10)
        }
    }
}

/// Whether `pp` holds the fields of the pixel pattern at `pos`.
pub open spec fn pixel_pattern_fields(s: Seq<u8>, pos: int, pp: PixelPattern) -> bool {
    &&& pp.pattern_type == pattern_type_of(be_u16(s, pos) as u16)
    &&& pp.monochrome.data@ == s.subrange(pos + 2, pos + 10)
    &&& (pp.pattern_type is Normal ==> (pp.normal_pattern matches Some(img) && pattern_image_fields(s, pos + 10, img)))
    &&& (!(pp.pattern_type is Normal) ==> pp.normal_pattern is None)
    &&& (pp.pattern_type is Dither ==> pp.dither_color == Some(rgb_at(s, pos + 10)))
    &&& (!(pp.pattern_type is Dither) ==> pp.dither_color is None)
}

/// Reads a pixel pattern (`PixelPattern`).
pub fn read_pixel_pattern(data: &[u8], pos: usize) -> (r: Result<(PixelPattern, usize), DecodeError>)
    ensures
        match pixel_pattern_end(data@, pos as int) {
            Decoded::Done(_, q) => r matches Ok((pp, p)) && p == q && pixel_pattern_fields(data@, pos as int, pp),
            Decoded::Malformed => r matches Err(e) && e == DecodeError::Malformed,
            Decoded::Fatal => r matches Err(e) && e == DecodeError::Fatal,
        },
{
    if pos > data.len() || data.len() - pos < 10 {
        return Err(DecodeError::Malformed);
    }
    let code = match get_u16(data, pos) { Some(x) => x, None => return Err(DecodeError::Malformed) };
    let pattern_type = PatternType::from_code(code);
    let (monochrome, _) = match read_pattern(data, pos + 2) { Some(x) => x, None => return Err(DecodeError::Malformed) };
    if pattern_type.is_normal() {
        match read_pattern_image(data, pos + 10) {
            Ok((img, p)) => Ok((PixelPattern { pattern_type, monochrome, normal_pattern: Some(img), dither_color: None }, p)),
            Err(e) => Err(e),
        }
    } else if pattern_type.is_dither() {
        match read_rgb(data, pos + 10) {
            Some((c, p)) => Ok((PixelPattern { pattern_type, monochrome, normal_pattern: None, dither_color: Some(c) }, p)),
            None => Err(DecodeError::Malformed),
        }
    } else {
        Ok((PixelPattern { pattern_type, monochrome, normal_pattern: None, dither_color: None }, pos + 10))
    }
}

} // verus!
