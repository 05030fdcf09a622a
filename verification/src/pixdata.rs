//! Pixel data of pixmaps: unpacking and de-planing of component data.

use vstd::prelude::*;
use crate::shared::{PixMap, PackType, DecodeError};
use crate::packbits::{decode_rle, decode_components, ScanResult, ScanError, decode_rle_scanlines,
    decode_rle_components_scanlines};
use crate::parse::read_bytes;

verus! {

/// Outcome of reading a structure from a byte stream: the value and the
/// position after it, or the kind of failure.
pub enum Decoded<T> {
    Done(T, int),
    Malformed,
    Fatal,
}

/// Whether an executable byte-vector outcome is the specified one.
pub open spec fn bytes_outcome(r: Result<(Vec<u8>, usize), DecodeError>, d: Decoded<Seq<u8>>) -> bool {
    match d {
        Decoded::Done(o, p) => r matches Ok((v, q)) && v@ == o && q == p,
        Decoded::Malformed => r matches Err(e) && e == DecodeError::Malformed,
        Decoded::Fatal => r matches Err(e) && e == DecodeError::Fatal,
    }
}

/// One scanline of planar component data turned into interleaved pixels:
/// the first `4 * w` bytes become (alpha, red, green, blue) quadruples
/// taken from the planes, each `w` bytes long; three planes give alpha 0,
/// four planes store inverted alpha first.
pub open spec fn interleave_row(line: Seq<u8>, w: int, cc: int) -> Seq<u8> {
    Seq::new(line.len(), |j: int|
        if j < 4 * w {
            let x = j / 4;
            let k = j % 4;
            if cc == 3 {
                if k == 0 { 0u8 } else { line[(k - 1) * w + x] }
            } else {
                if k == 0 { (255 - line[x]) as u8 } else { line[k * w + x] }
            }
        } else {
            line[j]
        })
}

/// The first `count` scanlines of `data`, each `bpr` bytes, interleaved.
pub open spec fn interleave_rows(data: Seq<u8>, count: nat, bpr: int, w: int, cc: int) -> Seq<u8>
    decreases count,
{
    if count == 0 {
        Seq::empty()
    } else {
        interleave_rows(data, (count - 1) as nat, bpr, w, cc)
            + interleave_row(data.subrange((count - 1) * bpr, count * bpr), w, cc)
    }
}

/// The pixel data of a pixmap stored at `pos` (`PixMapData`): `height`
/// scanlines of `bytes_per_row` bytes, stored as the pack type says.
pub open spec fn spec_pixmap_data(s: Seq<u8>, pos: int, pm: PixMap) -> Decoded<Seq<u8>> {
    let h = pm.bounds.spec_height();
    let bpr = pm.spec_bytes_per_row();
    let n = h * bpr;
    if !(i16::MIN <= h <= i16::MAX) {
        Decoded::Fatal
    } else if h < 0 {
        if bpr == 0 && pm.pack_type is Default && 0 <= pos <= s.len() {
            Decoded::Done(Seq::empty(), pos)
        } else {
            Decoded::Fatal
        }
    } else {
        match pm.pack_type {
            PackType::Unpacked => if 0 <= pos && pos + n <= s.len() {
                Decoded::Done(s.subrange(pos, pos + n), pos + n)
            } else {
                Decoded::Malformed
            },
            PackType::Default => if bpr < 8 {
                if 0 <= pos && pos + n <= s.len() { Decoded::Done(s.subrange(pos, pos + n), pos + n) } else { Decoded::Fatal }
            } else {
                match decode_rle(s, pos, h as nat, bpr > 250, pm.pixel_size == 16, bpr as nat) {
                    Some((o, p)) => Decoded::Done(o, p),
                    None => Decoded::Fatal,
                }
            },
            PackType::RunLengthEncoding => match decode_rle(s, pos, h as nat, bpr > 250, true, bpr as nat) {
                Some((o, p)) => Decoded::Done(o, p),
                None => Decoded::Fatal,
            },
            PackType::RunLengthEncodedComponents => {
                let cc = pm.component_count as int;
                if cc != 1 && cc != 3 && cc != 4 {
                    Decoded::Fatal
                } else {
                    match decode_components(s, pos, h as nat, bpr > 250, false, bpr as nat, cc as nat) {
                        ScanResult::Done(o, p) => if cc == 1 {
                            Decoded::Done(o, p)
                        } else {
                            let w = pm.bounds.spec_width();
                            if !(i16::MIN <= w <= i16::MAX) || (h >= 1 && (w < 0 || 4 * w > bpr)) {
                                Decoded::Fatal
                            } else {
                                Decoded::Done(interleave_rows(o, h as nat, bpr, w, cc), p)
                            }
                        },
                        _ => Decoded::Fatal,
                    }
                }
            },
            _ => Decoded::Fatal,
        }
    }
}

/// Interleaves one scanline.
fn interleave_line(line: &[u8], w: usize, cc: i16) -> (r: Vec<u8>)
    requires
        4 * w <= line@.len(),
        cc == 3 || cc == 4,
    ensures
        r@ == interleave_row(line@, w as int, cc as int),
{
    let n = line.len();
    let mut out: Vec<u8> = Vec::new();
    let mut j: usize = 0;
    while j < n
        invariant
            j <= n,
            n == line@.len(),
            4 * w <= n,
            cc == 3 || cc == 4,
            out@ == interleave_row(line@, w as int, cc as int).take(j as int),
        decreases n - j,
    {
        let v: u8 = if j < 4 * w {
            let x = j / 4;
            let k = j % 4;
            proof {
                assert(x < w) by (nonlinear_arith) requires x == j / 4, j < 4 * w;
                assert(k < 4);
            }
            if cc == 3 {
                if k == 0 { 0u8 } else {
                    assert((k - 1) * w + x < 4 * w) by (nonlinear_arith) requires 1 <= k < 4, x < w;
                    line[(k - 1) * w + x]
                }
            } else {
                if k == 0 { 255 - line[x] } else {
                    assert(k * w + x < 4 * w) by (nonlinear_arith) requires k < 4, x < w;
                    line[k * w + x]
                }
            }
        } else {
            line[j]
        };
        out.push(v);
        assert(interleave_row(line@, w as int, cc as int).take(j + 1)
            == interleave_row(line@, w as int, cc as int).take(j as int).push(v));
        j += 1;
    }
    assert(interleave_row(line@, w as int, cc as int).take(n as int) == interleave_row(line@, w as int, cc as int));
    out
}

/// Interleaves `count` scanlines of `bpr` bytes.
fn interleave_all(data: &Vec<u8>, count: usize, bpr: usize, w: usize, cc: i16) -> (r: Vec<u8>)
    requires
        count * bpr <= data.len(),
        4 * w <= bpr,
        cc == 3 || cc == 4,
    ensures
        r@ == interleave_rows(data@, count as nat, bpr as int, w as int, cc as int),
{
    let mut out: Vec<u8> = Vec::new();
    let mut y: usize = 0;
    while y < count
        invariant
            y <= count,
            count * bpr <= data.len(),
            4 * w <= bpr,
            cc == 3 || cc == 4,
            out@ == interleave_rows(data@, y as nat, bpr as int, w as int, cc as int),
        decreases count - y,
    {
        proof {
            assert((y + 1) * bpr <= count * bpr) by (nonlinear_arith) requires y + 1 <= count;
            assert((y + 1) * bpr == y * bpr + bpr) by (nonlinear_arith);
        }
        let start = y * bpr;
        let line = interleave_line(&data.as_slice()[start..start + bpr], w, cc);
        let ghost before = out@;
        let mut k: usize = 0;
        while k < line.len()
            invariant
                k <= line.len(),
                out@ == before + line@.take(k as int),
            decreases line.len() - k,
        {
            out.push(line[k]);
            assert(line@.take(k + 1) == line@.take(k as int).push(line@[k as int]));
            k += 1;
        }
        assert(line@.take(line.len() as int) == line@);
        y += 1;
    }
    out
}

/// Reads the pixel data of `pix_map` at `pos` (`PixMapData`).
pub fn read_pixmap_data(data: &[u8], pos: usize, pix_map: &PixMap) -> (r: Result<(Vec<u8>, usize), DecodeError>)
    ensures
        bytes_outcome(r, spec_pixmap_data(data@, pos as int, *pix_map)),
{
    let b = pix_map.bounds;
    let hi: i32 = b.bottom as i32 - b.top as i32;
    let bpr = pix_map.bytes_per_row() as usize;
    if hi < -0x8000 || hi > 0x7fff {
        return Err(DecodeError::Fatal);
    }
    if hi < 0 {
        if bpr == 0 && matches!(pix_map.pack_type, PackType::Default) && pos <= data.len() {
            return Ok((Vec::new(), pos));
        }
        return Err(DecodeError::Fatal);
    }
    let scanline_count = hi as usize;
    proof {
        assert(scanline_count * bpr <= 0x7fff * 0x7fff) by (nonlinear_arith)
            requires scanline_count <= 0x7fff, bpr <= 0x7fff;
    }
    let unpacked_size = scanline_count * bpr;
    let start_large = bpr > 250;
    match pix_map.pack_type {
        PackType::Unpacked => {
            match read_bytes(data, pos, unpacked_size) {
                Some(x) => Ok(x),
                None => Err(DecodeError::Malformed),
            }
        },
        PackType::Default => {
            if bpr < 8 {
                match read_bytes(data, pos, unpacked_size) {
                    Some(x) => Ok(x),
                    None => Err(DecodeError::Fatal),
                }
            } else {
                match decode_rle_scanlines(data, pos, scanline_count, start_large, pix_map.pixel_size == 16, bpr) {
                    Some(x) => Ok(x),
                    None => Err(DecodeError::Fatal),
                }
            }
        },
        PackType::RunLengthEncoding => {
            match decode_rle_scanlines(data, pos, scanline_count, start_large, true, bpr) {
                Some(x) => Ok(x),
                None => Err(DecodeError::Fatal),
            }
        },
        PackType::RunLengthEncodedComponents => {
            let cc = pix_map.component_count;
            if cc != 1 && cc != 3 && cc != 4 {
                return Err(DecodeError::Fatal);
            }
            let (decoded, p) = match decode_rle_components_scanlines(data, pos, scanline_count, start_large, false, bpr, cc as usize) {
                Ok(x) => x,
                Err(_) => return Err(DecodeError::Fatal),
            };
            if cc == 1 {
                return Ok((decoded, p));
            }
            let wi: i32 = b.right as i32 - b.left as i32;
            if wi < -0x8000 || wi > 0x7fff {
                return Err(DecodeError::Fatal);
            }
            if scanline_count >= 1 && (wi < 0 || 4 * wi > bpr as i32) {
                return Err(DecodeError::Fatal);
            }
            proof {
                lemma_components_len(data@, pos as int, scanline_count as nat, start_large, false, bpr as nat, cc as nat);
            }
            if scanline_count == 0 {
                assert(interleave_rows(decoded@, 0, bpr as int, wi as int, cc as int) == Seq::<u8>::empty());
                return Ok((Vec::new(), p));
            }
            let out = interleave_all(&decoded, scanline_count, bpr, wi as usize, cc);
            Ok((out, p))
        },
        _ => Err(DecodeError::Fatal),
    }
}

/// Unpacked pixel bytes of a pixmap, as read from a copy record.
pub struct PixMapData {
    data: Vec<u8>,
}

impl View for PixMapData {
    type V = Seq<u8>;

    closed spec fn view(&self) -> Seq<u8> {
        self.data@
    }
}

impl PixMapData {
    /// Reads the pixel data of `pix_map` stored at `pos`, and the position
    /// after it.
    pub fn read_options(data: &[u8], pos: usize, pix_map: &PixMap) -> (r: Result<(PixMapData, usize), DecodeError>)
        ensures
            match spec_pixmap_data(data@, pos as int, *pix_map) {
                Decoded::Done(o, p) => r matches Ok((d, q)) && d@ == o && q == p,
                Decoded::Malformed => r matches Err(e) && e == DecodeError::Malformed,
                Decoded::Fatal => r matches Err(e) && e == DecodeError::Fatal,
            },
    {
        match read_pixmap_data(data, pos, pix_map) {
            Ok((bytes, p)) => Ok((PixMapData { data: bytes }, p)),
            Err(e) => Err(e),
        }
    }

    /// The pixel bytes.
    pub fn into_bytes(self) -> (r: Vec<u8>)
        ensures
            r@ == self@,
    {
        self.data
    }
}

/// Component scanlines, when decoded, fill `count * n` bytes.
pub proof fn lemma_components_len(s: Seq<u8>, pos: int, count: nat, start_large: bool, chunks: bool, n: nat, cc: nat)
    ensures
        decode_components(s, pos, count, start_large, chunks, n, cc) matches ScanResult::Done(o, p) ==> o.len() == count * n,
{
    lemma_components_scanlines_len(s, pos, count, start_large, chunks, n, cc);
    lemma_components_scanlines_len(s, pos, count, !start_large, chunks, n, cc);
}

proof fn lemma_components_scanlines_len(s: Seq<u8>, pos: int, count: nat, large: bool, chunks: bool, n: nat, cc: nat)
    ensures
        crate::packbits::components_scanlines(s, pos, count, large, chunks, n, cc) matches ScanResult::Done(o, p)
            ==> o.len() == count * n,
    decreases count,
{
    if count == 0 {
        assert(count * n == 0) by (nonlinear_arith) requires count == 0;
    } else {
        lemma_components_scanlines_len(s, pos, (count - 1) as nat, large, chunks, n, cc);
        match crate::packbits::components_scanlines(s, pos, (count - 1) as nat, large, chunks, n, cc) {
            ScanResult::Done(acc, p) => {
                match crate::packbits::components_scanline(s, p, large, chunks, n, cc) {
                    ScanResult::Done(line, q) => {
                        let css = (n / 4 * cc) as nat;
                        match crate::packbits::scan_header(s, p, large) {
                            Some((size, start)) => {
                                if chunks {
                                    crate::packbits::lemma_packwords_len(s.subrange(start, start + size), 0, css, Seq::empty());
                                } else {
                                    crate::packbits::lemma_packbits_len(s.subrange(start, start + size), 0, css, Seq::empty());
                                }
                            },
                            None => {},
                        }
                        assert(line.len() == n);
                        assert((count - 1) * n + n == count * n) by (nonlinear_arith) requires count > 0;
                    },
                    _ => {},
                }
            },
            _ => {},
        }
    }
}

} // verus!
