//! Decoding of a whole PICT picture into an RGBA image.

use vstd::prelude::*;
use crate::shared::Rect;
use crate::region::{Region, region_view, prepared_view, preparable};
use crate::parse::{rect_at, region_at, read_rect, color_table_at};
use crate::pixdata::Decoded;
use crate::copybits::{CopyBits, DirectBits, copybits_data, copybits_fields, directbits_data, directbits_fields,
    mask_at};
use crate::fields::{OpOutcome, copybits_ok, directbits_ok};
use crate::records::{PictVersion, version_at, read_version};
use crate::raster::{RgbaImage, Rgba8, image_pixels, image_width, image_height, image_wf, covers};
use crate::drawing_context::{DrawingContext, Scene, canvas_dim, canvas_w, canvas_h, copy_ok, copy_pixels, copy_wf,
    direct_ok, direct_pixels, command_v1_ok, command_v1_scene, v1_ends, v1_op_wf, command_v2_ok, command_v2_scene,
    v2_ends, v2_op_wf, law_commands_keep_canvas};
use crate::{v1, v2};

verus! {

/// Errors returned when decoding a PICT picture.
#[derive(Debug, Clone, Copy, PartialEq, Eq, Structural)]
pub enum PictResourceError {
    /// The picture's structures could not be read: it ends early or its
    /// header is not a PICT header.
    BinRead,
    /// The picture holds data the decoder gives up on (where it would
    /// abort: unsupported packing or pixel formats, sizes that overflow,
    /// masks that cannot be decoded).
    Unsupported,
}

/// How drawing a picture ends.
pub enum RunResult {
    /// An end opcode (or an unknown one) was reached; the final scene.
    Drawn(Scene),
    /// The data ended before an end opcode.
    Fails,
    /// The decoder gives up.
    Aborts,
}

/// The version 1 opcode stored at `pos`, when one ends at `q`.
pub open spec fn v1_op(s: Seq<u8>, pos: int, q: int) -> v1::Opcode {
    choose|op: v1::Opcode| v1::op_at(s, pos, op, q)
}

/// The version 2 opcode stored at `pos`, when one ends at `q`.
pub open spec fn v2_op(s: Seq<u8>, pos: int, q: int) -> v2::Opcode {
    choose|op: v2::Opcode| v2::op_at(s, pos, op, q)
}

/// Whether drawing stops after a version 1 opcode: the end-of-picture
/// opcode, or an opcode the reader does not know.
pub open spec fn v1_stops(op: v1::Opcode) -> bool {
    v1_ends(op) || op is Unknown
}

/// Whether drawing stops after a version 2 opcode: the end-of-picture
/// opcode, or an opcode the reader does not know.
pub open spec fn v2_stops(op: v2::Opcode) -> bool {
    v2_ends(op) || op is Unknown
}

/// Drawing the version 1 opcodes from `pos` on, starting from `sc`.
pub open spec fn run_v1(s: Seq<u8>, pos: int, sc: Scene) -> RunResult
    decreases s.len() - pos,
{
    match v1::outcome(s, pos) {
        OpOutcome::Eof => RunResult::Fails,
        OpOutcome::Fatal => RunResult::Aborts,
        OpOutcome::Unknown => RunResult::Drawn(sc),
        OpOutcome::Parsed(q) => {
            let op = v1_op(s, pos, q);
            if !command_v1_ok(sc, op) {
                RunResult::Aborts
            } else if v1_stops(op) {
                RunResult::Drawn(command_v1_scene(sc, op))
            } else if pos < q <= s.len() {
                run_v1(s, q, command_v1_scene(sc, op))
            } else {
                RunResult::Fails
            }
        },
    }
}

/// Position after a version 2 opcode ending at `q`: opcodes start at even
/// positions, so a pad byte follows one ending at an odd position.
pub open spec fn v2_next(q: int) -> int {
    if q % 2 == 1 { q + 1 } else { q }
}

/// Drawing the version 2 opcodes from `pos` on, starting from `sc`.
pub open spec fn run_v2(s: Seq<u8>, pos: int, sc: Scene) -> RunResult
    decreases s.len() - pos,
{
    match v2::outcome(s, pos) {
        OpOutcome::Eof => RunResult::Fails,
        OpOutcome::Fatal => RunResult::Aborts,
        OpOutcome::Unknown => RunResult::Drawn(sc),
        OpOutcome::Parsed(q) => {
            let op = v2_op(s, pos, q);
            if !command_v2_ok(sc, op) {
                RunResult::Aborts
            } else if v2_stops(op) {
                RunResult::Drawn(command_v2_scene(sc, op))
            } else if pos < v2_next(q) <= s.len() {
                run_v2(s, v2_next(q), command_v2_scene(sc, op))
            } else {
                RunResult::Fails
            }
        },
    }
}

/// The blank scene of a picture with the given bounds.
pub open spec fn initial_scene(bounds: Rect) -> Scene {
    Scene {
        pixels: Map::new(
            |k: (u32, u32)| k.0 < canvas_dim(bounds.spec_width()) && k.1 < canvas_dim(bounds.spec_height()),
            |k: (u32, u32)| (0u8, 0u8, 0u8, 0u8),
        ),
        bounds,
        clip: (None::<Rect>, None::<Seq<u8>>),
    }
}

/// Drawing a whole picture: a size word, the bounds, the version marker,
/// then the opcodes of that version drawn on a blank canvas of the bounds'
/// size.
pub open spec fn pict_result(s: Seq<u8>) -> RunResult {
    if s.len() < 10 {
        RunResult::Fails
    } else {
        let bounds = rect_at(s, 2);
        match version_at(s, 10) {
            None => RunResult::Fails,
            Some((v, p)) => {
                if !(i16::MIN <= bounds.spec_width() <= i16::MAX) || !(i16::MIN <= bounds.spec_height() <= i16::MAX) {
                    RunResult::Aborts
                } else if 4 * canvas_dim(bounds.spec_width()) * canvas_dim(bounds.spec_height()) > usize::MAX {
                    RunResult::Aborts
                } else {
                    match v {
                        PictVersion::Version1(_) => run_v1(s, p, initial_scene(bounds)),
                        PictVersion::Version2 => run_v2(s, p, initial_scene(bounds)),
                    }
                }
            },
        }
    }
}

/// Two regions read from the same record answer queries alike.
proof fn lemma_same_region(s: Seq<u8>, p: int, a: Region, b: Region)
    requires
        region_at(s, p, a),
        region_at(s, p, b),
    ensures
        a.wf(),
        a.size == b.size,
        a.bounding_box == b.bounding_box,
        a.data@ == b.data@,
        preparable(a) == preparable(b),
        prepared_view(a) == prepared_view(b),
        region_view(a) == region_view(b),
{
    assert(a.data@ =~= b.data@);
}

proof fn lemma_same_mask(s: Seq<u8>, p: int, masked: bool, a: Option<Region>, b: Option<Region>)
    requires
        mask_at(s, p, masked, a),
        mask_at(s, p, masked, b),
    ensures
        a matches Some(m) ==> m.wf(),
        a is Some == b is Some,
        a matches Some(ra) ==> (b matches Some(rb) && preparable(ra) == preparable(rb) && prepared_view(ra) == prepared_view(rb)),
{
    if masked {
        lemma_same_region(s, p, a->0, b->0);
    }
}

/// Two copy-bits operands read from the same record draw alike.
proof fn lemma_same_copy(s: Seq<u8>, p: int, packed: bool, masked: bool, v2: bool, a: CopyBits, b: CopyBits, sc: Scene)
    requires
        copybits_ok(s, p, packed, masked, v2, a),
        copybits_ok(s, p, packed, masked, v2, b),
    ensures
        copy_wf(a),
        copy_ok(sc, a) == copy_ok(sc, b),
        copy_pixels(sc, a) == copy_pixels(sc, b),
{
    let d = copybits_data(s, p, packed, masked, v2).1->Done_0;
    match a {
        CopyBits::Pixmap { pix_map, color_table, src_rect, dst_rect, mode, mask_region, data } => {
            match b {
                CopyBits::Pixmap { color_table: ct2, mask_region: m2, data: d2, .. } => {
                    let q1 = crate::parse::color_table_end(s, p + 46)->0;
                    lemma_same_mask(s, q1 + 18, masked, mask_region, m2);
                    assert(color_table.ct_table@ =~= ct2.ct_table@);
                    assert(data@ =~= d2@);
                },
                _ => {},
            }
        },
        CopyBits::Bitmap { mask_region, data, .. } => {
            match b {
                CopyBits::Bitmap { mask_region: m2, data: d2, .. } => {
                    lemma_same_mask(s, p + 28, masked, mask_region, m2);
                    assert(data@ =~= d2@);
                },
                _ => {},
            }
        },
    }
}

/// Two direct-bits operands read from the same record draw alike.
proof fn lemma_same_direct(s: Seq<u8>, p: int, masked: bool, a: DirectBits, b: DirectBits, sc: Scene)
    requires
        directbits_ok(s, p, masked, a),
        directbits_ok(s, p, masked, b),
    ensures
        a.mask matches Some(m) ==> m.wf(),
        direct_ok(sc, a) == direct_ok(sc, b),
        direct_pixels(sc, a) == direct_pixels(sc, b),
{
    lemma_same_mask(s, p + 68, masked, a.mask, b.mask);
    assert(a.data@ =~= b.data@);
}

/// The version 1 opcode at a position is determined by the data: any two
/// readings of it draw alike.
proof fn lemma_v1_same(s: Seq<u8>, pos: int, q: int, a: v1::Opcode, b: v1::Opcode, sc: Scene)
    requires
        v1::op_at(s, pos, a, q),
        v1::op_at(s, pos, b, q),
    ensures
        v1_op_wf(a),
        command_v1_ok(sc, a) == command_v1_ok(sc, b),
        command_v1_scene(sc, a) == command_v1_scene(sc, b),
        v1_stops(a) == v1_stops(b),
{
    reveal(v1::args_clip_rgn);
    reveal(v1::args_bits_rect);
    reveal(v1::args_bits_rgn);
    reveal(v1::args_pack_bits_rect);
    reveal(v1::args_pack_bits_rgn);
    match (a, b) {
        (v1::Opcode::ClipRgn(x), v1::Opcode::ClipRgn(y)) => lemma_same_region(s, pos + 1, x, y),
        (v1::Opcode::BitsRect(x), v1::Opcode::BitsRect(y)) => lemma_same_copy(s, pos + 1, false, false, false, x, y, sc),
        (v1::Opcode::BitsRgn(x), v1::Opcode::BitsRgn(y)) => lemma_same_copy(s, pos + 1, false, true, false, x, y, sc),
        (v1::Opcode::PackBitsRect(x), v1::Opcode::PackBitsRect(y)) => lemma_same_copy(s, pos + 1, true, false, false, x, y, sc),
        (v1::Opcode::PackBitsRgn(x), v1::Opcode::PackBitsRgn(y)) => lemma_same_copy(s, pos + 1, true, true, false, x, y, sc),
        _ => {},
    }
}

/// The version 2 opcode at a position is determined by the data: any two
/// readings of it draw alike.
proof fn lemma_v2_same(s: Seq<u8>, pos: int, q: int, a: v2::Opcode, b: v2::Opcode, sc: Scene)
    requires
        v2::op_at(s, pos, a, q),
        v2::op_at(s, pos, b, q),
    ensures
        v2_op_wf(a),
        command_v2_ok(sc, a) == command_v2_ok(sc, b),
        command_v2_scene(sc, a) == command_v2_scene(sc, b),
        v2_stops(a) == v2_stops(b),
{
    reveal(v2::args_clip);
    reveal(v2::args_bits_rect);
    reveal(v2::args_bits_rgn);
    reveal(v2::args_pack_bits_rect);
    reveal(v2::args_pack_bits_rgn);
    reveal(v2::args_direct_bits_rect);
    reveal(v2::args_direct_bits_rgn);
    match (a, b) {
        (v2::Opcode::Clip(x), v2::Opcode::Clip(y)) => lemma_same_region(s, pos + 2, x, y),
        (v2::Opcode::BitsRect(x), v2::Opcode::BitsRect(y)) => lemma_same_copy(s, pos + 2, true, false, true, x, y, sc),
        (v2::Opcode::BitsRgn(x), v2::Opcode::BitsRgn(y)) => lemma_same_copy(s, pos + 2, false, true, true, x, y, sc),
        (v2::Opcode::PackBitsRect(x), v2::Opcode::PackBitsRect(y)) => lemma_same_copy(s, pos + 2, true, false, true, x, y, sc),
        (v2::Opcode::PackBitsRgn(x), v2::Opcode::PackBitsRgn(y)) => lemma_same_copy(s, pos + 2, true, true, true, x, y, sc),
        (v2::Opcode::DirectBitsRect(x), v2::Opcode::DirectBitsRect(y)) => lemma_same_direct(s, pos + 2, false, x, y, sc),
        (v2::Opcode::DirectBitsRgn(x), v2::Opcode::DirectBitsRgn(y)) => lemma_same_direct(s, pos + 2, true, x, y, sc),
        _ => {},
    }
}

/// What a drawing result owes the caller.
pub open spec fn result_matches(res: RunResult, r: Result<RgbaImage, PictResourceError>) -> bool {
    match res {
        RunResult::Drawn(sc) => r matches Ok(img) && image_pixels(img) == sc.pixels && image_width(img) == canvas_w(sc)
            && image_height(img) == canvas_h(sc) && image_wf(img),
        RunResult::Fails => r matches Err(e) && e == PictResourceError::BinRead,
        RunResult::Aborts => r matches Err(e) && e == PictResourceError::Unsupported,
    }
}

/// Draws the version 1 opcodes from `start` on.
fn draw_v1(data: &[u8], start: usize, ctx: DrawingContext) -> (r: Result<RgbaImage, PictResourceError>)
    requires
        ctx.wf(),
        start <= data@.len(),
    ensures
        result_matches(run_v1(data@, start as int, ctx.scene()), r),
{
    let ghost target = run_v1(data@, start as int, ctx.scene());
    let mut cx = ctx;
    let mut pos = start;
    loop
        invariant
            cx.wf(),
            pos <= data@.len(),
            run_v1(data@, pos as int, cx.scene()) == target,
            target == run_v1(data@, start as int, ctx.scene()),
        decreases data@.len() - pos,
    {
        let ghost sc = cx.scene();
        let ghost s = data@;
        match v1::read_opcode(data, pos) {
            Err(e) => {
                if e == crate::shared::DecodeError::Fatal {
                    return Err(PictResourceError::Unsupported);
                }
                return Err(PictResourceError::BinRead);
            },
            Ok((op, q)) => {
                proof {
                    if v1::outcome(s, pos as int) is Parsed {
                        let chosen = v1_op(s, pos as int, q as int);
                        assert(v1::op_at(s, pos as int, op, q as int));
                        assert(v1::op_at(s, pos as int, chosen, q as int));
                        lemma_v1_same(s, pos as int, q as int, op, chosen, sc);
                    }
                }
                let unknown = matches!(op, v1::Opcode::Unknown(_));
                match cx.try_command_v1(op) {
                    None => return Err(PictResourceError::Unsupported),
                    Some(end) => {
                        if end || unknown {
                            return Ok(cx.into_image());
                        }
                        if q > pos && q <= data.len() {
                            pos = q;
                        } else {
                            return Err(PictResourceError::BinRead);
                        }
                    },
                }
            },
        }
    }
}

/// Draws the version 2 opcodes from `start` on.
fn draw_v2(data: &[u8], start: usize, ctx: DrawingContext) -> (r: Result<RgbaImage, PictResourceError>)
    requires
        ctx.wf(),
        start <= data@.len(),
    ensures
        result_matches(run_v2(data@, start as int, ctx.scene()), r),
{
    let ghost target = run_v2(data@, start as int, ctx.scene());
    let mut cx = ctx;
    let mut pos = start;
    loop
        invariant
            cx.wf(),
            pos <= data@.len(),
            run_v2(data@, pos as int, cx.scene()) == target,
            target == run_v2(data@, start as int, ctx.scene()),
        decreases data@.len() - pos,
    {
        let ghost sc = cx.scene();
        let ghost s = data@;
        match v2::read_opcode(data, pos) {
            Err(e) => {
                if e == crate::shared::DecodeError::Fatal {
                    return Err(PictResourceError::Unsupported);
                }
                return Err(PictResourceError::BinRead);
            },
            Ok((op, q)) => {
                proof {
                    if v2::outcome(s, pos as int) is Parsed {
                        let chosen = v2_op(s, pos as int, q as int);
                        assert(v2::op_at(s, pos as int, op, q as int));
                        assert(v2::op_at(s, pos as int, chosen, q as int));
                        lemma_v2_same(s, pos as int, q as int, op, chosen, sc);
                    }
                }
                let unknown = matches!(op, v2::Opcode::Unknown(_));
                match cx.try_command_v2(op) {
                    None => return Err(PictResourceError::Unsupported),
                    Some(end) => {
                        if end || unknown {
                            return Ok(cx.into_image());
                        }
                        let next = if q % 2 == 1 {
                            if q >= data.len() {
                                return Err(PictResourceError::BinRead);
                            }
                            q + 1
                        } else {
                            q
                        };
                        if next > pos && next <= data.len() {
                            pos = next;
                        } else {
                            return Err(PictResourceError::BinRead);
                        }
                    },
                }
            },
        }
    }
}

/// Decodes a single raw PICT payload into an RGBA image: reads the header
/// (size, bounds, version marker) and draws the opcodes of that version on
/// a blank canvas of the bounds' size until an end opcode or an unknown
/// one.
pub fn decode_pict_bytes_to_image(data: &[u8]) -> (r: Result<RgbaImage, PictResourceError>)
    ensures
        result_matches(pict_result(data@), r),
{
    if data.len() < 10 {
        return Err(PictResourceError::BinRead);
    }
    let (bounds, _) = match read_rect(data, 2) {
        Some(x) => x,
        None => return Err(PictResourceError::BinRead),
    };
    let (version, p) = match read_version(data, 10) {
        Some(x) => x,
        None => return Err(PictResourceError::BinRead),
    };
    let w: i32 = bounds.right as i32 - bounds.left as i32;
    let h: i32 = bounds.bottom as i32 - bounds.top as i32;
    if w < -0x8000 || w > 0x7fff || h < -0x8000 || h > 0x7fff {
        return Err(PictResourceError::Unsupported);
    }
    let cw: u128 = if w >= 0 { w as u128 } else { 1 };
    let ch: u128 = if h >= 0 { h as u128 } else { 1 };
    proof {
        assert(4 * cw * ch <= 4 * 0x8000 * 0x8000) by (nonlinear_arith)
            requires cw <= 0x8000, ch <= 0x8000;
    }
    if 4 * cw * ch > usize::MAX as u128 {
        return Err(PictResourceError::Unsupported);
    }
    let ctx = DrawingContext::new(bounds);
    assert(ctx.scene() == initial_scene(bounds));
    match version {
        PictVersion::Version1(_) => draw_v1(data, p, ctx),
        PictVersion::Version2 => draw_v2(data, p, ctx),
    }
}

/// A picture whose first opcode is the end opcode decodes to a blank canvas
/// of its bounds' size (1 along an axis where the bounds are reversed).
pub proof fn law_empty_picture(s: Seq<u8>)
    requires
        s.len() >= 14,
        (s[10] == 0x11 && s[12] == 0xFF) || (s[10] == 0 && s[11] == 0x11 && s[12] == 0 && s[13] == 0xFF),
        i16::MIN <= rect_at(s, 2).spec_width() <= i16::MAX,
        i16::MIN <= rect_at(s, 2).spec_height() <= i16::MAX,
        4 * canvas_dim(rect_at(s, 2).spec_width()) * canvas_dim(rect_at(s, 2).spec_height()) <= usize::MAX,
    ensures
        pict_result(s) == RunResult::Drawn(initial_scene(rect_at(s, 2))),
{
    let sc = initial_scene(rect_at(s, 2));
    if s[10] == 0x11 {
        reveal(v1::end_end_of_picture);
        reveal(v1::args_end_of_picture);
        assert(v1::outcome(s, 12) == OpOutcome::Parsed(13));
        assert(v1::op_at(s, 12, v1::Opcode::EndOfPicture, 13));
        let op = v1_op(s, 12, 13);
        lemma_v1_same(s, 12, 13, op, v1::Opcode::EndOfPicture, sc);
    } else {
        reveal(v2::end_op_end_pic);
        reveal(v2::args_op_end_pic);
        assert(crate::bytes::be_u16(s, 12) == 0xFF);
        assert(v2::outcome(s, 12) == OpOutcome::Parsed(14));
        assert(v2::op_at(s, 12, v2::Opcode::OpEndPic, 14));
        let op = v2_op(s, 12, 14);
        lemma_v2_same(s, 12, 14, op, v2::Opcode::OpEndPic, sc);
    }
}

proof fn lemma_run_v1_keeps_canvas(s: Seq<u8>, pos: int, sc: Scene)
    ensures
        run_v1(s, pos, sc) matches RunResult::Drawn(f) ==> f.bounds == sc.bounds && f.pixels.dom() == sc.pixels.dom(),
    decreases s.len() - pos,
{
    match v1::outcome(s, pos) {
        OpOutcome::Parsed(q) => {
            let op = v1_op(s, pos, q);
            law_commands_keep_canvas(sc, op, v2::Opcode::OpEndPic);
            if command_v1_ok(sc, op) && !v1_stops(op) && pos < q <= s.len() {
                lemma_run_v1_keeps_canvas(s, q, command_v1_scene(sc, op));
            }
        },
        _ => {},
    }
}

proof fn lemma_run_v2_keeps_canvas(s: Seq<u8>, pos: int, sc: Scene)
    ensures
        run_v2(s, pos, sc) matches RunResult::Drawn(f) ==> f.bounds == sc.bounds && f.pixels.dom() == sc.pixels.dom(),
    decreases s.len() - pos,
{
    match v2::outcome(s, pos) {
        OpOutcome::Parsed(q) => {
            let op = v2_op(s, pos, q);
            law_commands_keep_canvas(sc, v1::Opcode::EndOfPicture, op);
            if command_v2_ok(sc, op) && !v2_stops(op) && pos < v2_next(q) <= s.len() {
                lemma_run_v2_keeps_canvas(s, v2_next(q), command_v2_scene(sc, op));
            }
        },
        _ => {},
    }
}

/// A decoded picture has the size of its frame: the final scene keeps the
/// frame read from the header, and its canvas holds exactly the pixels of a
/// frame-sized image (1 along an axis where the frame is reversed).
pub proof fn law_picture_size(s: Seq<u8>)
    ensures
        pict_result(s) matches RunResult::Drawn(f) ==> {
            &&& f.bounds == rect_at(s, 2)
            &&& covers(f.pixels, canvas_dim(rect_at(s, 2).spec_width()), canvas_dim(rect_at(s, 2).spec_height()))
        },
{
    if s.len() >= 10 {
        let bounds = rect_at(s, 2);
        match version_at(s, 10) {
            Some((v, p)) => {
                let sc = initial_scene(bounds);
                lemma_run_v1_keeps_canvas(s, p, sc);
                lemma_run_v2_keeps_canvas(s, p, sc);
            },
            None => {},
        }
    }
}

} // verus!
