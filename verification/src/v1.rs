//! PICT version 1 opcodes and their operands.

use vstd::prelude::*;
use crate::bytes::{be_u16, be_u32, get_u8};
use crate::shared::{Rect, Point, Pattern, Polygon, Angle, DecodeError};
use crate::region::Region;
use crate::parse::{rect_at, point_at, region_at};
use crate::pixdata::Decoded;
use crate::records::{CommentKind, comment_kind_of, short_string_chars};
use crate::copybits::CopyBits;
use crate::fields::{OpOutcome, fixed_end, after, region_field_end, polygon_end, polygon_ok, string_end, copybits_end,
    copybits_ok, field_u8, field_i8, field_u16, field_u32, field_point, field_rect, field_pattern, field_comment,
    field_bytes, field_region, field_string, field_polygon, field_copy_bits};

verus! {

/// PICT version 1 opcode: a QuickDraw drawing command of the classic
/// Macintosh imaging model, with its operands.
#[derive(Debug)]
pub enum Opcode {
    /// No operation
    NOP,
    /// Clipping region
    ClipRgn(Region),
    /// Background pattern
    BkPat(Pattern),
    /// Font number for text
    TxFont(u16),
    /// Text's font style
    TxFace(u8),
    /// Source mode
    TxMode(u16),
    /// Extra space (Fixed)
    SpExtra(u32),
    /// Pen size
    PnSize(Point),
    /// Pen mode
    PnMode(u16),
    /// Pen pattern
    PnPat(Pattern),
    /// Fill pattern
    FillPat(Pattern),
    /// Oval size
    OvSize(Point),
    /// dh (u16), dv (u16)
    Origin(u16, u16),
    /// Text size
    TxSize(u16),
    /// Foreground color
    FgColor(u32),
    /// Background color
    BkColor(u32),
    /// Numerator (Point), denominator (Point)
    TxRatio(Point, Point),
    /// Version
    PicVersion(u8),
    /// pnLoc (Point), newPt (Point)
    Line(Point, Point),
    /// newPt (Point)
    LineFrom(Point),
    /// pnLoc (Point), dh (-128..127), dv (-128..127)
    ShortLine(Point, i8, i8),
    /// dh (-128..127), dv (-128..127)
    ShortLineFrom(i8, i8),
    /// txLoc (Point), count (0..255), text
    LongText(Point, String),
    /// dh (0..255), count (0..255), text
    DHText(u8, String),
    /// dv (0..255), count (0..255), text
    DVText(u8, String),
    /// dh (0..255), dv (0..255), count (0..255), text
    DHDVText(u8, u8, String),
    /// Set current font
    SetFont(u16, u16, String),
    /// Set glyph state font
    GlpyhState(u16, u8, u8, u8, u8),
    /// Rectangle (Rect)
    FrameRect(Rect),
    /// Rectangle (Rect)
    PaintRect(Rect),
    /// Rectangle (Rect)
    EraseRect(Rect),
    /// Rectangle (Rect)
    InvertRect(Rect),
    /// Rectangle (Rect)
    FillRect(Rect),
    /// Rectangle (Rect)
    FrameSameRect,
    /// Rectangle (Rect)
    PaintSameRect,
    /// Rectangle (Rect)
    EraseSameRect,
    /// Rectangle (Rect)
    InvertSameRect,
    /// Rectangle (Rect)
    FillSameRect,
    /// Rectangle (Rect)
    FrameRRect(Rect),
    /// Rectangle (Rect)
    PaintRRect(Rect),
    /// Rectangle (Rect)
    EraseRRect(Rect),
    /// Rectangle (Rect)
    InvertRRect(Rect),
    /// Rectangle (Rect)
    FillRRect(Rect),
    /// Rectangle (Rect)
    FrameSameRRect,
    /// Rectangle (Rect)
    PaintSameRRect,
    /// Rectangle (Rect)
    EraseSameRRect,
    /// Rectangle (Rect)
    InvertSameRRect,
    /// Rectangle (Rect)
    FillSameRRect,
    /// Rectangle (Rect)
    FrameOval(Rect),
    /// Rectangle (Rect)
    PaintOval(Rect),
    /// Rectangle (Rect)
    EraseOval(Rect),
    /// Rectangle (Rect)
    InvertOval(Rect),
    /// Rectangle (Rect)
    FillOval(Rect),
    /// Rectangle (Rect)
    FrameSameOval,
    /// Rectangle (Rect)
    PaintSameOval,
    /// Rectangle (Rect)
    EraseSameOval,
    /// Rectangle (Rect)
    InvertSameOval,
    /// Rectangle (Rect)
    FillSameOval,
    /// Rectangle (Rect), startAngle, arcAngle
    FrameArc(Rect, Angle, Angle),
    /// Rectangle (Rect), startAngle, arcAngle
    PaintArc(Rect, Angle, Angle),
    /// Rectangle (Rect), startAngle, arcAngle
    EraseArc(Rect, Angle, Angle),
    /// Rectangle (Rect), startAngle, arcAngle
    InvertArc(Rect, Angle, Angle),
    /// Rectangle (Rect), startAngle, arcAngle
    FillArc(Rect, Angle, Angle),
    /// startAngle, arcAngle
    FrameSameArc(Angle, Angle),
    /// startAngle, arcAngle
    PaintSameArc(Angle, Angle),
    /// startAngle, arcAngle
    EraseSameArc(Angle, Angle),
    /// startAngle, arcAngle
    InvertSameArc(Angle, Angle),
    /// startAngle, arcAngle
    FillSameArc(Angle, Angle),
    /// Polygon (Poly)
    FramePoly(Polygon),
    /// Polygon (Poly)
    PaintPoly(Polygon),
    /// Polygon (Poly)
    ErasePoly(Polygon),
    /// Polygon (Poly)
    InvertPoly(Polygon),
    /// Polygon (Poly)
    FillPoly(Polygon),
    /// (Not yet implemented)
    FrameSamePoly,
    /// (Not yet implemented)
    PaintSamePoly,
    /// (Not yet implemented)
    EraseSamePoly,
    /// (Not yet implemented)
    InvertSamePoly,
    /// (Not yet implemented)
    FillSamePoly,
    /// Region (Rgn)
    FrameRgn(Region),
    /// Region (Rgn)
    PaintRgn(Region),
    /// Region (Rgn)
    EraseRgn(Region),
    /// Region (Rgn)
    InvertRgn(Region),
    /// Region (Rgn)
    FillRgn(Region),
    /// (Not yet implemented)
    FrameSameRgn,
    /// (Not yet implemented)
    PaintSameRgn,
    /// (Not yet implemented)
    EraseSameRgn,
    /// (Not yet implemented)
    InvertSameRgn,
    /// (Not yet implemented)
    FillSameRgn,
    /// CopyBits with clipped rectangle
    BitsRect(CopyBits),
    /// CopyBits with clipped region
    BitsRgn(CopyBits),
    /// Packed CopyBits with clipped rectangle
    PackBitsRect(CopyBits),
    /// Packed CopyBits with clipped region
    PackBitsRgn(CopyBits),
    /// Kind (u16)
    ShortComment(CommentKind),
    /// Kind (u16), size (u16), data
    LongComment(CommentKind, u16, Vec<u8>),
    /// End of picture
    EndOfPicture,
    /// Any other opcode, or one whose operands could not be read; it ends
    /// the picture.
    Unknown(u8),
}

/// How reading the operands of `NOP` at `p0` ends.
#[verifier::opaque]
pub open spec fn end_nop(s: Seq<u8>, p0: int) -> Decoded<()> {
    Decoded::Done((), p0)
}

/// Whether the operands of `NOP` at `p0` are the given ones, ending at `q`.
#[verifier::opaque]
pub open spec fn args_nop(s: Seq<u8>, p0: int, q: int) -> bool {
    &&& q == p0
}

/// How reading the operands of `ClipRgn` at `p0` ends.
#[verifier::opaque]
pub open spec fn end_clip_rgn(s: Seq<u8>, p0: int) -> Decoded<()> {
    match region_field_end(s, p0) { Decoded::Done(_, p1) => Decoded::Done((), p1), d => d }
}

/// Whether the operands of `ClipRgn` at `p0` are the given ones, ending at `q`.
#[verifier::opaque]
pub open spec fn args_clip_rgn(s: Seq<u8>, p0: int, f0: Region, q: int) -> bool {
    let p1 = after(region_field_end(s, p0));
    &&& region_at(s, p0, f0)
    &&& q == p1
}

/// How reading the operands of `BkPat` at `p0` ends.
#[verifier::opaque]
pub open spec fn end_bk_pat(s: Seq<u8>, p0: int) -> Decoded<()> {
    match fixed_end(s, p0, 8) { Decoded::Done(_, p1) => Decoded::Done((), p1), d => d }
}

/// Whether the operands of `BkPat` at `p0` are the given ones, ending at `q`.
#[verifier::opaque]
pub open spec fn args_bk_pat(s: Seq<u8>, p0: int, f0: Pattern, q: int) -> bool {
    let p1 = after(fixed_end(s, p0, 8));
    &&& f0.data@ == s.subrange(p0, p0 + 8)
    &&& q == p1
}

/// How reading the operands of `TxFont` at `p0` ends.
#[verifier::opaque]
pub open spec fn end_tx_font(s: Seq<u8>, p0: int) -> Decoded<()> {
    match fixed_end(s, p0, 2) { Decoded::Done(_, p1) => Decoded::Done((), p1), d => d }
}

/// Whether the operands of `TxFont` at `p0` are the given ones, ending at `q`.
#[verifier::opaque]
pub open spec fn args_tx_font(s: Seq<u8>, p0: int, f0: u16, q: int) -> bool {
    let p1 = after(fixed_end(s, p0, 2));
    &&& f0 == be_u16(s, p0)
    &&& q == p1
}

/// How reading the operands of `TxFace` at `p0` ends.
#[verifier::opaque]
pub open spec fn end_tx_face(s: Seq<u8>, p0: int) -> Decoded<()> {
    match fixed_end(s, p0, 1) { Decoded::Done(_, p1) => Decoded::Done((), p1), d => d }
}

/// Whether the operands of `TxFace` at `p0` are the given ones, ending at `q`.
#[verifier::opaque]
pub open spec fn args_tx_face(s: Seq<u8>, p0: int, f0: u8, q: int) -> bool {
    let p1 = after(fixed_end(s, p0, 1));
    &&& f0 == s[p0]
    &&& q == p1
}

/// How reading the operands of `TxMode` at `p0` ends.
#[verifier::opaque]
pub open spec fn end_tx_mode(s: Seq<u8>, p0: int) -> Decoded<()> {
    match fixed_end(s, p0, 2) { Decoded::Done(_, p1) => Decoded::Done((), p1), d => d }
}

/// Whether the operands of `TxMode` at `p0` are the given ones, ending at `q`.
#[verifier::opaque]
pub open spec fn args_tx_mode(s: Seq<u8>, p0: int, f0: u16, q: int) -> bool {
    let p1 = after(fixed_end(s, p0, 2));
    &&& f0 == be_u16(s, p0)
    &&& q == p1
}

/// How reading the operands of `SpExtra` at `p0` ends.
#[verifier::opaque]
pub open spec fn end_sp_extra(s: Seq<u8>, p0: int) -> Decoded<()> {
    match fixed_end(s, p0, 4) { Decoded::Done(_, p1) => Decoded::Done((), p1), d => d }
}

/// Whether the operands of `SpExtra` at `p0` are the given ones, ending at `q`.
#[verifier::opaque]
pub open spec fn args_sp_extra(s: Seq<u8>, p0: int, f0: u32, q: int) -> bool {
    let p1 = after(fixed_end(s, p0, 4));
    &&& f0 == be_u32(s, p0)
    &&& q == p1
}

/// How reading the operands of `PnSize` at `p0` ends.
#[verifier::opaque]
pub open spec fn end_pn_size(s: Seq<u8>, p0: int) -> Decoded<()> {
    match fixed_end(s, p0, 4) { Decoded::Done(_, p1) => Decoded::Done((), p1), d => d }
}

/// Whether the operands of `PnSize` at `p0` are the given ones, ending at `q`.
#[verifier::opaque]
pub open spec fn args_pn_size(s: Seq<u8>, p0: int, f0: Point, q: int) -> bool {
    let p1 = after(fixed_end(s, p0, 4));
    &&& f0 == point_at(s, p0)
    &&& q == p1
}

/// How reading the operands of `PnMode` at `p0` ends.
#[verifier::opaque]
pub open spec fn end_pn_mode(s: Seq<u8>, p0: int) -> Decoded<()> {
    match fixed_end(s, p0, 2) { Decoded::Done(_, p1) => Decoded::Done((), p1), d => d }
}

/// Whether the operands of `PnMode` at `p0` are the given ones, ending at `q`.
#[verifier::opaque]
pub open spec fn args_pn_mode(s: Seq<u8>, p0: int, f0: u16, q: int) -> bool {
    let p1 = after(fixed_end(s, p0, 2));
    &&& f0 == be_u16(s, p0)
    &&& q == p1
}

/// How reading the operands of `PnPat` at `p0` ends.
#[verifier::opaque]
pub open spec fn end_pn_pat(s: Seq<u8>, p0: int) -> Decoded<()> {
    match fixed_end(s, p0, 8) { Decoded::Done(_, p1) => Decoded::Done((), p1), d => d }
}

/// Whether the operands of `PnPat` at `p0` are the given ones, ending at `q`.
#[verifier::opaque]
pub open spec fn args_pn_pat(s: Seq<u8>, p0: int, f0: Pattern, q: int) -> bool {
    let p1 = after(fixed_end(s, p0, 8));
    &&& f0.data@ == s.subrange(p0, p0 + 8)
    &&& q == p1
}

/// How reading the operands of `FillPat` at `p0` ends.
#[verifier::opaque]
pub open spec fn end_fill_pat(s: Seq<u8>, p0: int) -> Decoded<()> {
    match fixed_end(s, p0, 8) { Decoded::Done(_, p1) => Decoded::Done((), p1), d => d }
}

/// Whether the operands of `FillPat` at `p0` are the given ones, ending at `q`.
#[verifier::opaque]
pub open spec fn args_fill_pat(s: Seq<u8>, p0: int, f0: Pattern, q: int) -> bool {
    let p1 = after(fixed_end(s, p0, 8));
    &&& f0.data@ == s.subrange(p0, p0 + 8)
    &&& q == p1
}

/// How reading the operands of `OvSize` at `p0` ends.
#[verifier::opaque]
pub open spec fn end_ov_size(s: Seq<u8>, p0: int) -> Decoded<()> {
    match fixed_end(s, p0, 4) { Decoded::Done(_, p1) => Decoded::Done((), p1), d => d }
}

/// Whether the operands of `OvSize` at `p0` are the given ones, ending at `q`.
#[verifier::opaque]
pub open spec fn args_ov_size(s: Seq<u8>, p0: int, f0: Point, q: int) -> bool {
    let p1 = after(fixed_end(s, p0, 4));
    &&& f0 == point_at(s, p0)
    &&& q == p1
}

/// How reading the operands of `Origin` at `p0` ends.
#[verifier::opaque]
pub open spec fn end_origin(s: Seq<u8>, p0: int) -> Decoded<()> {
    match fixed_end(s, p0, 2) { Decoded::Done(_, p1) => match fixed_end(s, p1, 2) { Decoded::Done(_, p2) => Decoded::Done((), p2), d => d }, d => d }
}

/// Whether the operands of `Origin` at `p0` are the given ones, ending at `q`.
#[verifier::opaque]
pub open spec fn args_origin(s: Seq<u8>, p0: int, f0: u16, f1: u16, q: int) -> bool {
    let p1 = after(fixed_end(s, p0, 2));
    let p2 = after(fixed_end(s, p1, 2));
    &&& f0 == be_u16(s, p0)
    &&& f1 == be_u16(s, p1)
    &&& q == p2
}

/// How reading the operands of `TxSize` at `p0` ends.
#[verifier::opaque]
pub open spec fn end_tx_size(s: Seq<u8>, p0: int) -> Decoded<()> {
    match fixed_end(s, p0, 2) { Decoded::Done(_, p1) => Decoded::Done((), p1), d => d }
}

/// Whether the operands of `TxSize` at `p0` are the given ones, ending at `q`.
#[verifier::opaque]
pub open spec fn args_tx_size(s: Seq<u8>, p0: int, f0: u16, q: int) -> bool {
    let p1 = after(fixed_end(s, p0, 2));
    &&& f0 == be_u16(s, p0)
    &&& q == p1
}

/// How reading the operands of `FgColor` at `p0` ends.
#[verifier::opaque]
pub open spec fn end_fg_color(s: Seq<u8>, p0: int) -> Decoded<()> {
    match fixed_end(s, p0, 4) { Decoded::Done(_, p1) => Decoded::Done((), p1), d => d }
}

/// Whether the operands of `FgColor` at `p0` are the given ones, ending at `q`.
#[verifier::opaque]
pub open spec fn args_fg_color(s: Seq<u8>, p0: int, f0: u32, q: int) -> bool {
    let p1 = after(fixed_end(s, p0, 4));
    &&& f0 == be_u32(s, p0)
    &&& q == p1
}

/// How reading the operands of `BkColor` at `p0` ends.
#[verifier::opaque]
pub open spec fn end_bk_color(s: Seq<u8>, p0: int) -> Decoded<()> {
    match fixed_end(s, p0, 4) { Decoded::Done(_, p1) => Decoded::Done((), p1), d => d }
}

/// Whether the operands of `BkColor` at `p0` are the given ones, ending at `q`.
#[verifier::opaque]
pub open spec fn args_bk_color(s: Seq<u8>, p0: int, f0: u32, q: int) -> bool {
    let p1 = after(fixed_end(s, p0, 4));
    &&& f0 == be_u32(s, p0)
    &&& q == p1
}

/// How reading the operands of `TxRatio` at `p0` ends.
#[verifier::opaque]
pub open spec fn end_tx_ratio(s: Seq<u8>, p0: int) -> Decoded<()> {
    match fixed_end(s, p0, 4) { Decoded::Done(_, p1) => match fixed_end(s, p1, 4) { Decoded::Done(_, p2) => Decoded::Done((), p2), d => d }, d => d }
}

/// Whether the operands of `TxRatio` at `p0` are the given ones, ending at `q`.
#[verifier::opaque]
pub open spec fn args_tx_ratio(s: Seq<u8>, p0: int, f0: Point, f1: Point, q: int) -> bool {
    let p1 = after(fixed_end(s, p0, 4));
    let p2 = after(fixed_end(s, p1, 4));
    &&& f0 == point_at(s, p0)
    &&& f1 == point_at(s, p1)
    &&& q == p2
}

/// How reading the operands of `PicVersion` at `p0` ends.
#[verifier::opaque]
pub open spec fn end_pic_version(s: Seq<u8>, p0: int) -> Decoded<()> {
    match fixed_end(s, p0, 1) { Decoded::Done(_, p1) => Decoded::Done((), p1), d => d }
}

/// Whether the operands of `PicVersion` at `p0` are the given ones, ending at `q`.
#[verifier::opaque]
pub open spec fn args_pic_version(s: Seq<u8>, p0: int, f0: u8, q: int) -> bool {
    let p1 = after(fixed_end(s, p0, 1));
    &&& f0 == s[p0]
    &&& q == p1
}

/// How reading the operands of `Line` at `p0` ends.
#[verifier::opaque]
pub open spec fn end_line(s: Seq<u8>, p0: int) -> Decoded<()> {
    match fixed_end(s, p0, 4) { Decoded::Done(_, p1) => match fixed_end(s, p1, 4) { Decoded::Done(_, p2) => Decoded::Done((), p2), d => d }, d => d }
}

/// Whether the operands of `Line` at `p0` are the given ones, ending at `q`.
#[verifier::opaque]
pub open spec fn args_line(s: Seq<u8>, p0: int, f0: Point, f1: Point, q: int) -> bool {
    let p1 = after(fixed_end(s, p0, 4));
    let p2 = after(fixed_end(s, p1, 4));
    &&& f0 == point_at(s, p0)
    &&& f1 == point_at(s, p1)
    &&& q == p2
}

/// How reading the operands of `LineFrom` at `p0` ends.
#[verifier::opaque]
pub open spec fn end_line_from(s: Seq<u8>, p0: int) -> Decoded<()> {
    match fixed_end(s, p0, 4) { Decoded::Done(_, p1) => Decoded::Done((), p1), d => d }
}

/// Whether the operands of `LineFrom` at `p0` are the given ones, ending at `q`.
#[verifier::opaque]
pub open spec fn args_line_from(s: Seq<u8>, p0: int, f0: Point, q: int) -> bool {
    let p1 = after(fixed_end(s, p0, 4));
    &&& f0 == point_at(s, p0)
    &&& q == p1
}

/// How reading the operands of `ShortLine` at `p0` ends.
#[verifier::opaque]
pub open spec fn end_short_line(s: Seq<u8>, p0: int) -> Decoded<()> {
    match fixed_end(s, p0, 4) { Decoded::Done(_, p1) => match fixed_end(s, p1, 1) { Decoded::Done(_, p2) => match fixed_end(s, p2, 1) { Decoded::Done(_, p3) => Decoded::Done((), p3), d => d }, d => d }, d => d }
}

/// Whether the operands of `ShortLine` at `p0` are the given ones, ending at `q`.
#[verifier::opaque]
pub open spec fn args_short_line(s: Seq<u8>, p0: int, f0: Point, f1: i8, f2: i8, q: int) -> bool {
    let p1 = after(fixed_end(s, p0, 4));
    let p2 = after(fixed_end(s, p1, 1));
    let p3 = after(fixed_end(s, p2, 1));
    &&& f0 == point_at(s, p0)
    &&& f1 == s[p1] as i8
    &&& f2 == s[p2] as i8
    &&& q == p3
}

/// How reading the operands of `ShortLineFrom` at `p0` ends.
#[verifier::opaque]
pub open spec fn end_short_line_from(s: Seq<u8>, p0: int) -> Decoded<()> {
    match fixed_end(s, p0, 1) { Decoded::Done(_, p1) => match fixed_end(s, p1, 1) { Decoded::Done(_, p2) => Decoded::Done((), p2), d => d }, d => d }
}

/// Whether the operands of `ShortLineFrom` at `p0` are the given ones, ending at `q`.
#[verifier::opaque]
pub open spec fn args_short_line_from(s: Seq<u8>, p0: int, f0: i8, f1: i8, q: int) -> bool {
    let p1 = after(fixed_end(s, p0, 1));
    let p2 = after(fixed_end(s, p1, 1));
    &&& f0 == s[p0] as i8
    &&& f1 == s[p1] as i8
    &&& q == p2
}

/// How reading the operands of `LongText` at `p0` ends.
#[verifier::opaque]
pub open spec fn end_long_text(s: Seq<u8>, p0: int) -> Decoded<()> {
    match fixed_end(s, p0, 4) { Decoded::Done(_, p1) => match string_end(s, p1) { Decoded::Done(_, p2) => Decoded::Done((), p2), d => d }, d => d }
}

/// Whether the operands of `LongText` at `p0` are the given ones, ending at `q`.
#[verifier::opaque]
pub open spec fn args_long_text(s: Seq<u8>, p0: int, f0: Point, f1: String, q: int) -> bool {
    let p1 = after(fixed_end(s, p0, 4));
    let p2 = after(string_end(s, p1));
    &&& f0 == point_at(s, p0)
    &&& f1@ == short_string_chars(s, p1)
    &&& q == p2
}

/// How reading the operands of `DHText` at `p0` ends.
#[verifier::opaque]
pub open spec fn end_dh_text(s: Seq<u8>, p0: int) -> Decoded<()> {
    match fixed_end(s, p0, 1) { Decoded::Done(_, p1) => match string_end(s, p1) { Decoded::Done(_, p2) => Decoded::Done((), p2), d => d }, d => d }
}

/// Whether the operands of `DHText` at `p0` are the given ones, ending at `q`.
#[verifier::opaque]
pub open spec fn args_dh_text(s: Seq<u8>, p0: int, f0: u8, f1: String, q: int) -> bool {
    let p1 = after(fixed_end(s, p0, 1));
    let p2 = after(string_end(s, p1));
    &&& f0 == s[p0]
    &&& f1@ == short_string_chars(s, p1)
    &&& q == p2
}

/// How reading the operands of `DVText` at `p0` ends.
#[verifier::opaque]
pub open spec fn end_dv_text(s: Seq<u8>, p0: int) -> Decoded<()> {
    match fixed_end(s, p0, 1) { Decoded::Done(_, p1) => match string_end(s, p1) { Decoded::Done(_, p2) => Decoded::Done((), p2), d => d }, d => d }
}

/// Whether the operands of `DVText` at `p0` are the given ones, ending at `q`.
#[verifier::opaque]
pub open spec fn args_dv_text(s: Seq<u8>, p0: int, f0: u8, f1: String, q: int) -> bool {
    let p1 = after(fixed_end(s, p0, 1));
    let p2 = after(string_end(s, p1));
    &&& f0 == s[p0]
    &&& f1@ == short_string_chars(s, p1)
    &&& q == p2
}

/// How reading the operands of `DHDVText` at `p0` ends.
#[verifier::opaque]
pub open spec fn end_dhdv_text(s: Seq<u8>, p0: int) -> Decoded<()> {
    match fixed_end(s, p0, 1) { Decoded::Done(_, p1) => match fixed_end(s, p1, 1) { Decoded::Done(_, p2) => match string_end(s, p2) { Decoded::Done(_, p3) => Decoded::Done((), p3), d => d }, d => d }, d => d }
}

/// Whether the operands of `DHDVText` at `p0` are the given ones, ending at `q`.
#[verifier::opaque]
pub open spec fn args_dhdv_text(s: Seq<u8>, p0: int, f0: u8, f1: u8, f2: String, q: int) -> bool {
    let p1 = after(fixed_end(s, p0, 1));
    let p2 = after(fixed_end(s, p1, 1));
    let p3 = after(string_end(s, p2));
    &&& f0 == s[p0]
    &&& f1 == s[p1]
    &&& f2@ == short_string_chars(s, p2)
    &&& q == p3
}

/// How reading the operands of `SetFont` at `p0` ends.
#[verifier::opaque]
pub open spec fn end_set_font(s: Seq<u8>, p0: int) -> Decoded<()> {
    match fixed_end(s, p0, 2) { Decoded::Done(_, p1) => match fixed_end(s, p1, 2) { Decoded::Done(_, p2) => match string_end(s, p2) { Decoded::Done(_, p3) => Decoded::Done((), p3), d => d }, d => d }, d => d }
}

/// Whether the operands of `SetFont` at `p0` are the given ones, ending at `q`.
#[verifier::opaque]
pub open spec fn args_set_font(s: Seq<u8>, p0: int, f0: u16, f1: u16, f2: String, q: int) -> bool {
    let p1 = after(fixed_end(s, p0, 2));
    let p2 = after(fixed_end(s, p1, 2));
    let p3 = after(string_end(s, p2));
    &&& f0 == be_u16(s, p0)
    &&& f1 == be_u16(s, p1)
    &&& f2@ == short_string_chars(s, p2)
    &&& q == p3
}

/// How reading the operands of `GlpyhState` at `p0` ends.
#[verifier::opaque]
pub open spec fn end_glpyh_state(s: Seq<u8>, p0: int) -> Decoded<()> {
    match fixed_end(s, p0, 2) { Decoded::Done(_, p1) => match fixed_end(s, p1, 1) { Decoded::Done(_, p2) => match fixed_end(s, p2, 1) { Decoded::Done(_, p3) => match fixed_end(s, p3, 1) { Decoded::Done(_, p4) => match fixed_end(s, p4, 1) { Decoded::Done(_, p5) => Decoded::Done((), p5), d => d }, d => d }, d => d }, d => d }, d => d }
}

/// Whether the operands of `GlpyhState` at `p0` are the given ones, ending at `q`.
#[verifier::opaque]
pub open spec fn args_glpyh_state(s: Seq<u8>, p0: int, f0: u16, f1: u8, f2: u8, f3: u8, f4: u8, q: int) -> bool {
    let p1 = after(fixed_end(s, p0, 2));
    let p2 = after(fixed_end(s, p1, 1));
    let p3 = after(fixed_end(s, p2, 1));
    let p4 = after(fixed_end(s, p3, 1));
    let p5 = after(fixed_end(s, p4, 1));
    &&& f0 == be_u16(s, p0)
    &&& f1 == s[p1]
    &&& f2 == s[p2]
    &&& f3 == s[p3]
    &&& f4 == s[p4]
    &&& q == p5
}

/// How reading the operands of `FrameRect` at `p0` ends.
#[verifier::opaque]
pub open spec fn end_frame_rect(s: Seq<u8>, p0: int) -> Decoded<()> {
    match fixed_end(s, p0, 8) { Decoded::Done(_, p1) => Decoded::Done((), p1), d => d }
}

/// Whether the operands of `FrameRect` at `p0` are the given ones, ending at `q`.
#[verifier::opaque]
pub open spec fn args_frame_rect(s: Seq<u8>, p0: int, f0: Rect, q: int) -> bool {
    let p1 = after(fixed_end(s, p0, 8));
    &&& f0 == rect_at(s, p0)
    &&& q == p1
}

/// How reading the operands of `PaintRect` at `p0` ends.
#[verifier::opaque]
pub open spec fn end_paint_rect(s: Seq<u8>, p0: int) -> Decoded<()> {
    match fixed_end(s, p0, 8) { Decoded::Done(_, p1) => Decoded::Done((), p1), d => d }
}

/// Whether the operands of `PaintRect` at `p0` are the given ones, ending at `q`.
#[verifier::opaque]
pub open spec fn args_paint_rect(s: Seq<u8>, p0: int, f0: Rect, q: int) -> bool {
    let p1 = after(fixed_end(s, p0, 8));
    &&& f0 == rect_at(s, p0)
    &&& q == p1
}

/// How reading the operands of `EraseRect` at `p0` ends.
#[verifier::opaque]
pub open spec fn end_erase_rect(s: Seq<u8>, p0: int) -> Decoded<()> {
    match fixed_end(s, p0, 8) { Decoded::Done(_, p1) => Decoded::Done((), p1), d => d }
}

/// Whether the operands of `EraseRect` at `p0` are the given ones, ending at `q`.
#[verifier::opaque]
pub open spec fn args_erase_rect(s: Seq<u8>, p0: int, f0: Rect, q: int) -> bool {
    let p1 = after(fixed_end(s, p0, 8));
    &&& f0 == rect_at(s, p0)
    &&& q == p1
}

/// How reading the operands of `InvertRect` at `p0` ends.
#[verifier::opaque]
pub open spec fn end_invert_rect(s: Seq<u8>, p0: int) -> Decoded<()> {
    match fixed_end(s, p0, 8) { Decoded::Done(_, p1) => Decoded::Done((), p1), d => d }
}

/// Whether the operands of `InvertRect` at `p0` are the given ones, ending at `q`.
#[verifier::opaque]
pub open spec fn args_invert_rect(s: Seq<u8>, p0: int, f0: Rect, q: int) -> bool {
    let p1 = after(fixed_end(s, p0, 8));
    &&& f0 == rect_at(s, p0)
    &&& q == p1
}

/// How reading the operands of `FillRect` at `p0` ends.
#[verifier::opaque]
pub open spec fn end_fill_rect(s: Seq<u8>, p0: int) -> Decoded<()> {
    match fixed_end(s, p0, 8) { Decoded::Done(_, p1) => Decoded::Done((), p1), d => d }
}

/// Whether the operands of `FillRect` at `p0` are the given ones, ending at `q`.
#[verifier::opaque]
pub open spec fn args_fill_rect(s: Seq<u8>, p0: int, f0: Rect, q: int) -> bool {
    let p1 = after(fixed_end(s, p0, 8));
    &&& f0 == rect_at(s, p0)
    &&& q == p1
}

/// How reading the operands of `FrameSameRect` at `p0` ends.
#[verifier::opaque]
pub open spec fn end_frame_same_rect(s: Seq<u8>, p0: int) -> Decoded<()> {
    Decoded::Done((), p0)
}

/// Whether the operands of `FrameSameRect` at `p0` are the given ones, ending at `q`.
#[verifier::opaque]
pub open spec fn args_frame_same_rect(s: Seq<u8>, p0: int, q: int) -> bool {
    &&& q == p0
}

/// How reading the operands of `PaintSameRect` at `p0` ends.
#[verifier::opaque]
pub open spec fn end_paint_same_rect(s: Seq<u8>, p0: int) -> Decoded<()> {
    Decoded::Done((), p0)
}

/// Whether the operands of `PaintSameRect` at `p0` are the given ones, ending at `q`.
#[verifier::opaque]
pub open spec fn args_paint_same_rect(s: Seq<u8>, p0: int, q: int) -> bool {
    &&& q == p0
}

/// How reading the operands of `EraseSameRect` at `p0` ends.
#[verifier::opaque]
pub open spec fn end_erase_same_rect(s: Seq<u8>, p0: int) -> Decoded<()> {
    Decoded::Done((), p0)
}

/// Whether the operands of `EraseSameRect` at `p0` are the given ones, ending at `q`.
#[verifier::opaque]
pub open spec fn args_erase_same_rect(s: Seq<u8>, p0: int, q: int) -> bool {
    &&& q == p0
}

/// How reading the operands of `InvertSameRect` at `p0` ends.
#[verifier::opaque]
pub open spec fn end_invert_same_rect(s: Seq<u8>, p0: int) -> Decoded<()> {
    Decoded::Done((), p0)
}

/// Whether the operands of `InvertSameRect` at `p0` are the given ones, ending at `q`.
#[verifier::opaque]
pub open spec fn args_invert_same_rect(s: Seq<u8>, p0: int, q: int) -> bool {
    &&& q == p0
}

/// How reading the operands of `FillSameRect` at `p0` ends.
#[verifier::opaque]
pub open spec fn end_fill_same_rect(s: Seq<u8>, p0: int) -> Decoded<()> {
    Decoded::Done((), p0)
}

/// Whether the operands of `FillSameRect` at `p0` are the given ones, ending at `q`.
#[verifier::opaque]
pub open spec fn args_fill_same_rect(s: Seq<u8>, p0: int, q: int) -> bool {
    &&& q == p0
}

/// How reading the operands of `FrameRRect` at `p0` ends.
#[verifier::opaque]
pub open spec fn end_frame_r_rect(s: Seq<u8>, p0: int) -> Decoded<()> {
    match fixed_end(s, p0, 8) { Decoded::Done(_, p1) => Decoded::Done((), p1), d => d }
}

/// Whether the operands of `FrameRRect` at `p0` are the given ones, ending at `q`.
#[verifier::opaque]
pub open spec fn args_frame_r_rect(s: Seq<u8>, p0: int, f0: Rect, q: int) -> bool {
    let p1 = after(fixed_end(s, p0, 8));
    &&& f0 == rect_at(s, p0)
    &&& q == p1
}

/// How reading the operands of `PaintRRect` at `p0` ends.
#[verifier::opaque]
pub open spec fn end_paint_r_rect(s: Seq<u8>, p0: int) -> Decoded<()> {
    match fixed_end(s, p0, 8) { Decoded::Done(_, p1) => Decoded::Done((), p1), d => d }
}

/// Whether the operands of `PaintRRect` at `p0` are the given ones, ending at `q`.
#[verifier::opaque]
pub open spec fn args_paint_r_rect(s: Seq<u8>, p0: int, f0: Rect, q: int) -> bool {
    let p1 = after(fixed_end(s, p0, 8));
    &&& f0 == rect_at(s, p0)
    &&& q == p1
}

/// How reading the operands of `EraseRRect` at `p0` ends.
#[verifier::opaque]
pub open spec fn end_erase_r_rect(s: Seq<u8>, p0: int) -> Decoded<()> {
    match fixed_end(s, p0, 8) { Decoded::Done(_, p1) => Decoded::Done((), p1), d => d }
}

/// Whether the operands of `EraseRRect` at `p0` are the given ones, ending at `q`.
#[verifier::opaque]
pub open spec fn args_erase_r_rect(s: Seq<u8>, p0: int, f0: Rect, q: int) -> bool {
    let p1 = after(fixed_end(s, p0, 8));
    &&& f0 == rect_at(s, p0)
    &&& q == p1
}

/// How reading the operands of `InvertRRect` at `p0` ends.
#[verifier::opaque]
pub open spec fn end_invert_r_rect(s: Seq<u8>, p0: int) -> Decoded<()> {
    match fixed_end(s, p0, 8) { Decoded::Done(_, p1) => Decoded::Done((), p1), d => d }
}

/// Whether the operands of `InvertRRect` at `p0` are the given ones, ending at `q`.
#[verifier::opaque]
pub open spec fn args_invert_r_rect(s: Seq<u8>, p0: int, f0: Rect, q: int) -> bool {
    let p1 = after(fixed_end(s, p0, 8));
    &&& f0 == rect_at(s, p0)
    &&& q == p1
}

/// How reading the operands of `FillRRect` at `p0` ends.
#[verifier::opaque]
pub open spec fn end_fill_r_rect(s: Seq<u8>, p0: int) -> Decoded<()> {
    match fixed_end(s, p0, 8) { Decoded::Done(_, p1) => Decoded::Done((), p1), d => d }
}

/// Whether the operands of `FillRRect` at `p0` are the given ones, ending at `q`.
#[verifier::opaque]
pub open spec fn args_fill_r_rect(s: Seq<u8>, p0: int, f0: Rect, q: int) -> bool {
    let p1 = after(fixed_end(s, p0, 8));
    &&& f0 == rect_at(s, p0)
    &&& q == p1
}

/// How reading the operands of `FrameSameRRect` at `p0` ends.
#[verifier::opaque]
pub open spec fn end_frame_same_r_rect(s: Seq<u8>, p0: int) -> Decoded<()> {
    Decoded::Done((), p0)
}

/// Whether the operands of `FrameSameRRect` at `p0` are the given ones, ending at `q`.
#[verifier::opaque]
pub open spec fn args_frame_same_r_rect(s: Seq<u8>, p0: int, q: int) -> bool {
    &&& q == p0
}

/// How reading the operands of `PaintSameRRect` at `p0` ends.
#[verifier::opaque]
pub open spec fn end_paint_same_r_rect(s: Seq<u8>, p0: int) -> Decoded<()> {
    Decoded::Done((), p0)
}

/// Whether the operands of `PaintSameRRect` at `p0` are the given ones, ending at `q`.
#[verifier::opaque]
pub open spec fn args_paint_same_r_rect(s: Seq<u8>, p0: int, q: int) -> bool {
    &&& q == p0
}

/// How reading the operands of `EraseSameRRect` at `p0` ends.
#[verifier::opaque]
pub open spec fn end_erase_same_r_rect(s: Seq<u8>, p0: int) -> Decoded<()> {
    Decoded::Done((), p0)
}

/// Whether the operands of `EraseSameRRect` at `p0` are the given ones, ending at `q`.
#[verifier::opaque]
pub open spec fn args_erase_same_r_rect(s: Seq<u8>, p0: int, q: int) -> bool {
    &&& q == p0
}

/// How reading the operands of `InvertSameRRect` at `p0` ends.
#[verifier::opaque]
pub open spec fn end_invert_same_r_rect(s: Seq<u8>, p0: int) -> Decoded<()> {
    Decoded::Done((), p0)
}

/// Whether the operands of `InvertSameRRect` at `p0` are the given ones, ending at `q`.
#[verifier::opaque]
pub open spec fn args_invert_same_r_rect(s: Seq<u8>, p0: int, q: int) -> bool {
    &&& q == p0
}

/// How reading the operands of `FillSameRRect` at `p0` ends.
#[verifier::opaque]
pub open spec fn end_fill_same_r_rect(s: Seq<u8>, p0: int) -> Decoded<()> {
    Decoded::Done((), p0)
}

/// Whether the operands of `FillSameRRect` at `p0` are the given ones, ending at `q`.
#[verifier::opaque]
pub open spec fn args_fill_same_r_rect(s: Seq<u8>, p0: int, q: int) -> bool {
    &&& q == p0
}

/// How reading the operands of `FrameOval` at `p0` ends.
#[verifier::opaque]
pub open spec fn end_frame_oval(s: Seq<u8>, p0: int) -> Decoded<()> {
    match fixed_end(s, p0, 8) { Decoded::Done(_, p1) => Decoded::Done((), p1), d => d }
}

/// Whether the operands of `FrameOval` at `p0` are the given ones, ending at `q`.
#[verifier::opaque]
pub open spec fn args_frame_oval(s: Seq<u8>, p0: int, f0: Rect, q: int) -> bool {
    let p1 = after(fixed_end(s, p0, 8));
    &&& f0 == rect_at(s, p0)
    &&& q == p1
}

/// How reading the operands of `PaintOval` at `p0` ends.
#[verifier::opaque]
pub open spec fn end_paint_oval(s: Seq<u8>, p0: int) -> Decoded<()> {
    match fixed_end(s, p0, 8) { Decoded::Done(_, p1) => Decoded::Done((), p1), d => d }
}

/// Whether the operands of `PaintOval` at `p0` are the given ones, ending at `q`.
#[verifier::opaque]
pub open spec fn args_paint_oval(s: Seq<u8>, p0: int, f0: Rect, q: int) -> bool {
    let p1 = after(fixed_end(s, p0, 8));
    &&& f0 == rect_at(s, p0)
    &&& q == p1
}

/// How reading the operands of `EraseOval` at `p0` ends.
#[verifier::opaque]
pub open spec fn end_erase_oval(s: Seq<u8>, p0: int) -> Decoded<()> {
    match fixed_end(s, p0, 8) { Decoded::Done(_, p1) => Decoded::Done((), p1), d => d }
}

/// Whether the operands of `EraseOval` at `p0` are the given ones, ending at `q`.
#[verifier::opaque]
pub open spec fn args_erase_oval(s: Seq<u8>, p0: int, f0: Rect, q: int) -> bool {
    let p1 = after(fixed_end(s, p0, 8));
    &&& f0 == rect_at(s, p0)
    &&& q == p1
}

/// How reading the operands of `InvertOval` at `p0` ends.
#[verifier::opaque]
pub open spec fn end_invert_oval(s: Seq<u8>, p0: int) -> Decoded<()> {
    match fixed_end(s, p0, 8) { Decoded::Done(_, p1) => Decoded::Done((), p1), d => d }
}

/// Whether the operands of `InvertOval` at `p0` are the given ones, ending at `q`.
#[verifier::opaque]
pub open spec fn args_invert_oval(s: Seq<u8>, p0: int, f0: Rect, q: int) -> bool {
    let p1 = after(fixed_end(s, p0, 8));
    &&& f0 == rect_at(s, p0)
    &&& q == p1
}

/// How reading the operands of `FillOval` at `p0` ends.
#[verifier::opaque]
pub open spec fn end_fill_oval(s: Seq<u8>, p0: int) -> Decoded<()> {
    match fixed_end(s, p0, 8) { Decoded::Done(_, p1) => Decoded::Done((), p1), d => d }
}

/// Whether the operands of `FillOval` at `p0` are the given ones, ending at `q`.
#[verifier::opaque]
pub open spec fn args_fill_oval(s: Seq<u8>, p0: int, f0: Rect, q: int) -> bool {
    let p1 = after(fixed_end(s, p0, 8));
    &&& f0 == rect_at(s, p0)
    &&& q == p1
}

/// How reading the operands of `FrameSameOval` at `p0` ends.
#[verifier::opaque]
pub open spec fn end_frame_same_oval(s: Seq<u8>, p0: int) -> Decoded<()> {
    Decoded::Done((), p0)
}

/// Whether the operands of `FrameSameOval` at `p0` are the given ones, ending at `q`.
#[verifier::opaque]
pub open spec fn args_frame_same_oval(s: Seq<u8>, p0: int, q: int) -> bool {
    &&& q == p0
}

/// How reading the operands of `PaintSameOval` at `p0` ends.
#[verifier::opaque]
pub open spec fn end_paint_same_oval(s: Seq<u8>, p0: int) -> Decoded<()> {
    Decoded::Done((), p0)
}

/// Whether the operands of `PaintSameOval` at `p0` are the given ones, ending at `q`.
#[verifier::opaque]
pub open spec fn args_paint_same_oval(s: Seq<u8>, p0: int, q: int) -> bool {
    &&& q == p0
}

/// How reading the operands of `EraseSameOval` at `p0` ends.
#[verifier::opaque]
pub open spec fn end_erase_same_oval(s: Seq<u8>, p0: int) -> Decoded<()> {
    Decoded::Done((), p0)
}

/// Whether the operands of `EraseSameOval` at `p0` are the given ones, ending at `q`.
#[verifier::opaque]
pub open spec fn args_erase_same_oval(s: Seq<u8>, p0: int, q: int) -> bool {
    &&& q == p0
}

/// How reading the operands of `InvertSameOval` at `p0` ends.
#[verifier::opaque]
pub open spec fn end_invert_same_oval(s: Seq<u8>, p0: int) -> Decoded<()> {
    Decoded::Done((), p0)
}

/// Whether the operands of `InvertSameOval` at `p0` are the given ones, ending at `q`.
#[verifier::opaque]
pub open spec fn args_invert_same_oval(s: Seq<u8>, p0: int, q: int) -> bool {
    &&& q == p0
}

/// How reading the operands of `FillSameOval` at `p0` ends.
#[verifier::opaque]
pub open spec fn end_fill_same_oval(s: Seq<u8>, p0: int) -> Decoded<()> {
    Decoded::Done((), p0)
}

/// Whether the operands of `FillSameOval` at `p0` are the given ones, ending at `q`.
#[verifier::opaque]
pub open spec fn args_fill_same_oval(s: Seq<u8>, p0: int, q: int) -> bool {
    &&& q == p0
}

/// How reading the operands of `FrameArc` at `p0` ends.
#[verifier::opaque]
pub open spec fn end_frame_arc(s: Seq<u8>, p0: int) -> Decoded<()> {
    match fixed_end(s, p0, 8) { Decoded::Done(_, p1) => match fixed_end(s, p1, 2) { Decoded::Done(_, p2) => match fixed_end(s, p2, 2) { Decoded::Done(_, p3) => Decoded::Done((), p3), d => d }, d => d }, d => d }
}

/// Whether the operands of `FrameArc` at `p0` are the given ones, ending at `q`.
#[verifier::opaque]
pub open spec fn args_frame_arc(s: Seq<u8>, p0: int, f0: Rect, f1: Angle, f2: Angle, q: int) -> bool {
    let p1 = after(fixed_end(s, p0, 8));
    let p2 = after(fixed_end(s, p1, 2));
    let p3 = after(fixed_end(s, p2, 2));
    &&& f0 == rect_at(s, p0)
    &&& f1 == be_u16(s, p1)
    &&& f2 == be_u16(s, p2)
    &&& q == p3
}

/// How reading the operands of `PaintArc` at `p0` ends.
#[verifier::opaque]
pub open spec fn end_paint_arc(s: Seq<u8>, p0: int) -> Decoded<()> {
    match fixed_end(s, p0, 8) { Decoded::Done(_, p1) => match fixed_end(s, p1, 2) { Decoded::Done(_, p2) => match fixed_end(s, p2, 2) { Decoded::Done(_, p3) => Decoded::Done((), p3), d => d }, d => d }, d => d }
}

/// Whether the operands of `PaintArc` at `p0` are the given ones, ending at `q`.
#[verifier::opaque]
pub open spec fn args_paint_arc(s: Seq<u8>, p0: int, f0: Rect, f1: Angle, f2: Angle, q: int) -> bool {
    let p1 = after(fixed_end(s, p0, 8));
    let p2 = after(fixed_end(s, p1, 2));
    let p3 = after(fixed_end(s, p2, 2));
    &&& f0 == rect_at(s, p0)
    &&& f1 == be_u16(s, p1)
    &&& f2 == be_u16(s, p2)
    &&& q == p3
}

/// How reading the operands of `EraseArc` at `p0` ends.
#[verifier::opaque]
pub open spec fn end_erase_arc(s: Seq<u8>, p0: int) -> Decoded<()> {
    match fixed_end(s, p0, 8) { Decoded::Done(_, p1) => match fixed_end(s, p1, 2) { Decoded::Done(_, p2) => match fixed_end(s, p2, 2) { Decoded::Done(_, p3) => Decoded::Done((), p3), d => d }, d => d }, d => d }
}

/// Whether the operands of `EraseArc` at `p0` are the given ones, ending at `q`.
#[verifier::opaque]
pub open spec fn args_erase_arc(s: Seq<u8>, p0: int, f0: Rect, f1: Angle, f2: Angle, q: int) -> bool {
    let p1 = after(fixed_end(s, p0, 8));
    let p2 = after(fixed_end(s, p1, 2));
    let p3 = after(fixed_end(s, p2, 2));
    &&& f0 == rect_at(s, p0)
    &&& f1 == be_u16(s, p1)
    &&& f2 == be_u16(s, p2)
    &&& q == p3
}

/// How reading the operands of `InvertArc` at `p0` ends.
#[verifier::opaque]
pub open spec fn end_invert_arc(s: Seq<u8>, p0: int) -> Decoded<()> {
    match fixed_end(s, p0, 8) { Decoded::Done(_, p1) => match fixed_end(s, p1, 2) { Decoded::Done(_, p2) => match fixed_end(s, p2, 2) { Decoded::Done(_, p3) => Decoded::Done((), p3), d => d }, d => d }, d => d }
}

/// Whether the operands of `InvertArc` at `p0` are the given ones, ending at `q`.
#[verifier::opaque]
pub open spec fn args_invert_arc(s: Seq<u8>, p0: int, f0: Rect, f1: Angle, f2: Angle, q: int) -> bool {
    let p1 = after(fixed_end(s, p0, 8));
    let p2 = after(fixed_end(s, p1, 2));
    let p3 = after(fixed_end(s, p2, 2));
    &&& f0 == rect_at(s, p0)
    &&& f1 == be_u16(s, p1)
    &&& f2 == be_u16(s, p2)
    &&& q == p3
}

/// How reading the operands of `FillArc` at `p0` ends.
#[verifier::opaque]
pub open spec fn end_fill_arc(s: Seq<u8>, p0: int) -> Decoded<()> {
    match fixed_end(s, p0, 8) { Decoded::Done(_, p1) => match fixed_end(s, p1, 2) { Decoded::Done(_, p2) => match fixed_end(s, p2, 2) { Decoded::Done(_, p3) => Decoded::Done((), p3), d => d }, d => d }, d => d }
}

/// Whether the operands of `FillArc` at `p0` are the given ones, ending at `q`.
#[verifier::opaque]
pub open spec fn args_fill_arc(s: Seq<u8>, p0: int, f0: Rect, f1: Angle, f2: Angle, q: int) -> bool {
    let p1 = after(fixed_end(s, p0, 8));
    let p2 = after(fixed_end(s, p1, 2));
    let p3 = after(fixed_end(s, p2, 2));
    &&& f0 == rect_at(s, p0)
    &&& f1 == be_u16(s, p1)
    &&& f2 == be_u16(s, p2)
    &&& q == p3
}

/// How reading the operands of `FrameSameArc` at `p0` ends.
#[verifier::opaque]
pub open spec fn end_frame_same_arc(s: Seq<u8>, p0: int) -> Decoded<()> {
    match fixed_end(s, p0, 2) { Decoded::Done(_, p1) => match fixed_end(s, p1, 2) { Decoded::Done(_, p2) => Decoded::Done((), p2), d => d }, d => d }
}

/// Whether the operands of `FrameSameArc` at `p0` are the given ones, ending at `q`.
#[verifier::opaque]
pub open spec fn args_frame_same_arc(s: Seq<u8>, p0: int, f0: Angle, f1: Angle, q: int) -> bool {
    let p1 = after(fixed_end(s, p0, 2));
    let p2 = after(fixed_end(s, p1, 2));
    &&& f0 == be_u16(s, p0)
    &&& f1 == be_u16(s, p1)
    &&& q == p2
}

/// How reading the operands of `PaintSameArc` at `p0` ends.
#[verifier::opaque]
pub open spec fn end_paint_same_arc(s: Seq<u8>, p0: int) -> Decoded<()> {
    match fixed_end(s, p0, 2) { Decoded::Done(_, p1) => match fixed_end(s, p1, 2) { Decoded::Done(_, p2) => Decoded::Done((), p2), d => d }, d => d }
}

/// Whether the operands of `PaintSameArc` at `p0` are the given ones, ending at `q`.
#[verifier::opaque]
pub open spec fn args_paint_same_arc(s: Seq<u8>, p0: int, f0: Angle, f1: Angle, q: int) -> bool {
    let p1 = after(fixed_end(s, p0, 2));
    let p2 = after(fixed_end(s, p1, 2));
    &&& f0 == be_u16(s, p0)
    &&& f1 == be_u16(s, p1)
    &&& q == p2
}

/// How reading the operands of `EraseSameArc` at `p0` ends.
#[verifier::opaque]
pub open spec fn end_erase_same_arc(s: Seq<u8>, p0: int) -> Decoded<()> {
    match fixed_end(s, p0, 2) { Decoded::Done(_, p1) => match fixed_end(s, p1, 2) { Decoded::Done(_, p2) => Decoded::Done((), p2), d => d }, d => d }
}

/// Whether the operands of `EraseSameArc` at `p0` are the given ones, ending at `q`.
#[verifier::opaque]
pub open spec fn args_erase_same_arc(s: Seq<u8>, p0: int, f0: Angle, f1: Angle, q: int) -> bool {
    let p1 = after(fixed_end(s, p0, 2));
    let p2 = after(fixed_end(s, p1, 2));
    &&& f0 == be_u16(s, p0)
    &&& f1 == be_u16(s, p1)
    &&& q == p2
}

/// How reading the operands of `InvertSameArc` at `p0` ends.
#[verifier::opaque]
pub open spec fn end_invert_same_arc(s: Seq<u8>, p0: int) -> Decoded<()> {
    match fixed_end(s, p0, 2) { Decoded::Done(_, p1) => match fixed_end(s, p1, 2) { Decoded::Done(_, p2) => Decoded::Done((), p2), d => d }, d => d }
}

/// Whether the operands of `InvertSameArc` at `p0` are the given ones, ending at `q`.
#[verifier::opaque]
pub open spec fn args_invert_same_arc(s: Seq<u8>, p0: int, f0: Angle, f1: Angle, q: int) -> bool {
    let p1 = after(fixed_end(s, p0, 2));
    let p2 = after(fixed_end(s, p1, 2));
    &&& f0 == be_u16(s, p0)
    &&& f1 == be_u16(s, p1)
    &&& q == p2
}

/// How reading the operands of `FillSameArc` at `p0` ends.
#[verifier::opaque]
pub open spec fn end_fill_same_arc(s: Seq<u8>, p0: int) -> Decoded<()> {
    match fixed_end(s, p0, 2) { Decoded::Done(_, p1) => match fixed_end(s, p1, 2) { Decoded::Done(_, p2) => Decoded::Done((), p2), d => d }, d => d }
}

/// Whether the operands of `FillSameArc` at `p0` are the given ones, ending at `q`.
#[verifier::opaque]
pub open spec fn args_fill_same_arc(s: Seq<u8>, p0: int, f0: Angle, f1: Angle, q: int) -> bool {
    let p1 = after(fixed_end(s, p0, 2));
    let p2 = after(fixed_end(s, p1, 2));
    &&& f0 == be_u16(s, p0)
    &&& f1 == be_u16(s, p1)
    &&& q == p2
}

/// How reading the operands of `FramePoly` at `p0` ends.
#[verifier::opaque]
pub open spec fn end_frame_poly(s: Seq<u8>, p0: int) -> Decoded<()> {
    match polygon_end(s, p0) { Decoded::Done(_, p1) => Decoded::Done((), p1), d => d }
}

/// Whether the operands of `FramePoly` at `p0` are the given ones, ending at `q`.
#[verifier::opaque]
pub open spec fn args_frame_poly(s: Seq<u8>, p0: int, f0: Polygon, q: int) -> bool {
    let p1 = after(polygon_end(s, p0));
    &&& polygon_ok(s, p0, f0)
    &&& q == p1
}

/// How reading the operands of `PaintPoly` at `p0` ends.
#[verifier::opaque]
pub open spec fn end_paint_poly(s: Seq<u8>, p0: int) -> Decoded<()> {
    match polygon_end(s, p0) { Decoded::Done(_, p1) => Decoded::Done((), p1), d => d }
}

/// Whether the operands of `PaintPoly` at `p0` are the given ones, ending at `q`.
#[verifier::opaque]
pub open spec fn args_paint_poly(s: Seq<u8>, p0: int, f0: Polygon, q: int) -> bool {
    let p1 = after(polygon_end(s, p0));
    &&& polygon_ok(s, p0, f0)
    &&& q == p1
}

/// How reading the operands of `ErasePoly` at `p0` ends.
#[verifier::opaque]
pub open spec fn end_erase_poly(s: Seq<u8>, p0: int) -> Decoded<()> {
    match polygon_end(s, p0) { Decoded::Done(_, p1) => Decoded::Done((), p1), d => d }
}

/// Whether the operands of `ErasePoly` at `p0` are the given ones, ending at `q`.
#[verifier::opaque]
pub open spec fn args_erase_poly(s: Seq<u8>, p0: int, f0: Polygon, q: int) -> bool {
    let p1 = after(polygon_end(s, p0));
    &&& polygon_ok(s, p0, f0)
    &&& q == p1
}

/// How reading the operands of `InvertPoly` at `p0` ends.
#[verifier::opaque]
pub open spec fn end_invert_poly(s: Seq<u8>, p0: int) -> Decoded<()> {
    match polygon_end(s, p0) { Decoded::Done(_, p1) => Decoded::Done((), p1), d => d }
}

/// Whether the operands of `InvertPoly` at `p0` are the given ones, ending at `q`.
#[verifier::opaque]
pub open spec fn args_invert_poly(s: Seq<u8>, p0: int, f0: Polygon, q: int) -> bool {
    let p1 = after(polygon_end(s, p0));
    &&& polygon_ok(s, p0, f0)
    &&& q == p1
}

/// How reading the operands of `FillPoly` at `p0` ends.
#[verifier::opaque]
pub open spec fn end_fill_poly(s: Seq<u8>, p0: int) -> Decoded<()> {
    match polygon_end(s, p0) { Decoded::Done(_, p1) => Decoded::Done((), p1), d => d }
}

/// Whether the operands of `FillPoly` at `p0` are the given ones, ending at `q`.
#[verifier::opaque]
pub open spec fn args_fill_poly(s: Seq<u8>, p0: int, f0: Polygon, q: int) -> bool {
    let p1 = after(polygon_end(s, p0));
    &&& polygon_ok(s, p0, f0)
    &&& q == p1
}

/// How reading the operands of `FrameSamePoly` at `p0` ends.
#[verifier::opaque]
pub open spec fn end_frame_same_poly(s: Seq<u8>, p0: int) -> Decoded<()> {
    Decoded::Done((), p0)
}

/// Whether the operands of `FrameSamePoly` at `p0` are the given ones, ending at `q`.
#[verifier::opaque]
pub open spec fn args_frame_same_poly(s: Seq<u8>, p0: int, q: int) -> bool {
    &&& q == p0
}

/// How reading the operands of `PaintSamePoly` at `p0` ends.
#[verifier::opaque]
pub open spec fn end_paint_same_poly(s: Seq<u8>, p0: int) -> Decoded<()> {
    Decoded::Done((), p0)
}

/// Whether the operands of `PaintSamePoly` at `p0` are the given ones, ending at `q`.
#[verifier::opaque]
pub open spec fn args_paint_same_poly(s: Seq<u8>, p0: int, q: int) -> bool {
    &&& q == p0
}

/// How reading the operands of `EraseSamePoly` at `p0` ends.
#[verifier::opaque]
pub open spec fn end_erase_same_poly(s: Seq<u8>, p0: int) -> Decoded<()> {
    Decoded::Done((), p0)
}

/// Whether the operands of `EraseSamePoly` at `p0` are the given ones, ending at `q`.
#[verifier::opaque]
pub open spec fn args_erase_same_poly(s: Seq<u8>, p0: int, q: int) -> bool {
    &&& q == p0
}

/// How reading the operands of `InvertSamePoly` at `p0` ends.
#[verifier::opaque]
pub open spec fn end_invert_same_poly(s: Seq<u8>, p0: int) -> Decoded<()> {
    Decoded::Done((), p0)
}

/// Whether the operands of `InvertSamePoly` at `p0` are the given ones, ending at `q`.
#[verifier::opaque]
pub open spec fn args_invert_same_poly(s: Seq<u8>, p0: int, q: int) -> bool {
    &&& q == p0
}

/// How reading the operands of `FillSamePoly` at `p0` ends.
#[verifier::opaque]
pub open spec fn end_fill_same_poly(s: Seq<u8>, p0: int) -> Decoded<()> {
    Decoded::Done((), p0)
}

/// Whether the operands of `FillSamePoly` at `p0` are the given ones, ending at `q`.
#[verifier::opaque]
pub open spec fn args_fill_same_poly(s: Seq<u8>, p0: int, q: int) -> bool {
    &&& q == p0
}

/// How reading the operands of `FrameRgn` at `p0` ends.
#[verifier::opaque]
pub open spec fn end_frame_rgn(s: Seq<u8>, p0: int) -> Decoded<()> {
    match region_field_end(s, p0) { Decoded::Done(_, p1) => Decoded::Done((), p1), d => d }
}

/// Whether the operands of `FrameRgn` at `p0` are the given ones, ending at `q`.
#[verifier::opaque]
pub open spec fn args_frame_rgn(s: Seq<u8>, p0: int, f0: Region, q: int) -> bool {
    let p1 = after(region_field_end(s, p0));
    &&& region_at(s, p0, f0)
    &&& q == p1
}

/// How reading the operands of `PaintRgn` at `p0` ends.
#[verifier::opaque]
pub open spec fn end_paint_rgn(s: Seq<u8>, p0: int) -> Decoded<()> {
    match region_field_end(s, p0) { Decoded::Done(_, p1) => Decoded::Done((), p1), d => d }
}

/// Whether the operands of `PaintRgn` at `p0` are the given ones, ending at `q`.
#[verifier::opaque]
pub open spec fn args_paint_rgn(s: Seq<u8>, p0: int, f0: Region, q: int) -> bool {
    let p1 = after(region_field_end(s, p0));
    &&& region_at(s, p0, f0)
    &&& q == p1
}

/// How reading the operands of `EraseRgn` at `p0` ends.
#[verifier::opaque]
pub open spec fn end_erase_rgn(s: Seq<u8>, p0: int) -> Decoded<()> {
    match region_field_end(s, p0) { Decoded::Done(_, p1) => Decoded::Done((), p1), d => d }
}

/// Whether the operands of `EraseRgn` at `p0` are the given ones, ending at `q`.
#[verifier::opaque]
pub open spec fn args_erase_rgn(s: Seq<u8>, p0: int, f0: Region, q: int) -> bool {
    let p1 = after(region_field_end(s, p0));
    &&& region_at(s, p0, f0)
    &&& q == p1
}

/// How reading the operands of `InvertRgn` at `p0` ends.
#[verifier::opaque]
pub open spec fn end_invert_rgn(s: Seq<u8>, p0: int) -> Decoded<()> {
    match region_field_end(s, p0) { Decoded::Done(_, p1) => Decoded::Done((), p1), d => d }
}

/// Whether the operands of `InvertRgn` at `p0` are the given ones, ending at `q`.
#[verifier::opaque]
pub open spec fn args_invert_rgn(s: Seq<u8>, p0: int, f0: Region, q: int) -> bool {
    let p1 = after(region_field_end(s, p0));
    &&& region_at(s, p0, f0)
    &&& q == p1
}

/// How reading the operands of `FillRgn` at `p0` ends.
#[verifier::opaque]
pub open spec fn end_fill_rgn(s: Seq<u8>, p0: int) -> Decoded<()> {
    match region_field_end(s, p0) { Decoded::Done(_, p1) => Decoded::Done((), p1), d => d }
}

/// Whether the operands of `FillRgn` at `p0` are the given ones, ending at `q`.
#[verifier::opaque]
pub open spec fn args_fill_rgn(s: Seq<u8>, p0: int, f0: Region, q: int) -> bool {
    let p1 = after(region_field_end(s, p0));
    &&& region_at(s, p0, f0)
    &&& q == p1
}

/// How reading the operands of `FrameSameRgn` at `p0` ends.
#[verifier::opaque]
pub open spec fn end_frame_same_rgn(s: Seq<u8>, p0: int) -> Decoded<()> {
    Decoded::Done((), p0)
}

/// Whether the operands of `FrameSameRgn` at `p0` are the given ones, ending at `q`.
#[verifier::opaque]
pub open spec fn args_frame_same_rgn(s: Seq<u8>, p0: int, q: int) -> bool {
    &&& q == p0
}

/// How reading the operands of `PaintSameRgn` at `p0` ends.
#[verifier::opaque]
pub open spec fn end_paint_same_rgn(s: Seq<u8>, p0: int) -> Decoded<()> {
    Decoded::Done((), p0)
}

/// Whether the operands of `PaintSameRgn` at `p0` are the given ones, ending at `q`.
#[verifier::opaque]
pub open spec fn args_paint_same_rgn(s: Seq<u8>, p0: int, q: int) -> bool {
    &&& q == p0
}

/// How reading the operands of `EraseSameRgn` at `p0` ends.
#[verifier::opaque]
pub open spec fn end_erase_same_rgn(s: Seq<u8>, p0: int) -> Decoded<()> {
    Decoded::Done((), p0)
}

/// Whether the operands of `EraseSameRgn` at `p0` are the given ones, ending at `q`.
#[verifier::opaque]
pub open spec fn args_erase_same_rgn(s: Seq<u8>, p0: int, q: int) -> bool {
    &&& q == p0
}

/// How reading the operands of `InvertSameRgn` at `p0` ends.
#[verifier::opaque]
pub open spec fn end_invert_same_rgn(s: Seq<u8>, p0: int) -> Decoded<()> {
    Decoded::Done((), p0)
}

/// Whether the operands of `InvertSameRgn` at `p0` are the given ones, ending at `q`.
#[verifier::opaque]
pub open spec fn args_invert_same_rgn(s: Seq<u8>, p0: int, q: int) -> bool {
    &&& q == p0
}

/// How reading the operands of `FillSameRgn` at `p0` ends.
#[verifier::opaque]
pub open spec fn end_fill_same_rgn(s: Seq<u8>, p0: int) -> Decoded<()> {
    Decoded::Done((), p0)
}

/// Whether the operands of `FillSameRgn` at `p0` are the given ones, ending at `q`.
#[verifier::opaque]
pub open spec fn args_fill_same_rgn(s: Seq<u8>, p0: int, q: int) -> bool {
    &&& q == p0
}

/// How reading the operands of `BitsRect` at `p0` ends.
#[verifier::opaque]
pub open spec fn end_bits_rect(s: Seq<u8>, p0: int) -> Decoded<()> {
    match copybits_end(s, p0, false, false, false) { Decoded::Done(_, p1) => Decoded::Done((), p1), d => d }
}

/// Whether the operands of `BitsRect` at `p0` are the given ones, ending at `q`.
#[verifier::opaque]
pub open spec fn args_bits_rect(s: Seq<u8>, p0: int, f0: CopyBits, q: int) -> bool {
    let p1 = after(copybits_end(s, p0, false, false, false));
    &&& copybits_ok(s, p0, false, false, false, f0)
    &&& q == p1
}

/// How reading the operands of `BitsRgn` at `p0` ends.
#[verifier::opaque]
pub open spec fn end_bits_rgn(s: Seq<u8>, p0: int) -> Decoded<()> {
    match copybits_end(s, p0, false, true, false) { Decoded::Done(_, p1) => Decoded::Done((), p1), d => d }
}

/// Whether the operands of `BitsRgn` at `p0` are the given ones, ending at `q`.
#[verifier::opaque]
pub open spec fn args_bits_rgn(s: Seq<u8>, p0: int, f0: CopyBits, q: int) -> bool {
    let p1 = after(copybits_end(s, p0, false, true, false));
    &&& copybits_ok(s, p0, false, true, false, f0)
    &&& q == p1
}

/// How reading the operands of `PackBitsRect` at `p0` ends.
#[verifier::opaque]
pub open spec fn end_pack_bits_rect(s: Seq<u8>, p0: int) -> Decoded<()> {
    match copybits_end(s, p0, true, false, false) { Decoded::Done(_, p1) => Decoded::Done((), p1), d => d }
}

/// Whether the operands of `PackBitsRect` at `p0` are the given ones, ending at `q`.
#[verifier::opaque]
pub open spec fn args_pack_bits_rect(s: Seq<u8>, p0: int, f0: CopyBits, q: int) -> bool {
    let p1 = after(copybits_end(s, p0, true, false, false));
    &&& copybits_ok(s, p0, true, false, false, f0)
    &&& q == p1
}

/// How reading the operands of `PackBitsRgn` at `p0` ends.
#[verifier::opaque]
pub open spec fn end_pack_bits_rgn(s: Seq<u8>, p0: int) -> Decoded<()> {
    match copybits_end(s, p0, true, true, false) { Decoded::Done(_, p1) => Decoded::Done((), p1), d => d }
}

/// Whether the operands of `PackBitsRgn` at `p0` are the given ones, ending at `q`.
#[verifier::opaque]
pub open spec fn args_pack_bits_rgn(s: Seq<u8>, p0: int, f0: CopyBits, q: int) -> bool {
    let p1 = after(copybits_end(s, p0, true, true, false));
    &&& copybits_ok(s, p0, true, true, false, f0)
    &&& q == p1
}

/// How reading the operands of `ShortComment` at `p0` ends.
#[verifier::opaque]
pub open spec fn end_short_comment(s: Seq<u8>, p0: int) -> Decoded<()> {
    match fixed_end(s, p0, 2) { Decoded::Done(_, p1) => Decoded::Done((), p1), d => d }
}

/// Whether the operands of `ShortComment` at `p0` are the given ones, ending at `q`.
#[verifier::opaque]
pub open spec fn args_short_comment(s: Seq<u8>, p0: int, f0: CommentKind, q: int) -> bool {
    let p1 = after(fixed_end(s, p0, 2));
    &&& f0 == comment_kind_of(be_u16(s, p0) as u16)
    &&& q == p1
}

/// How reading the operands of `LongComment` at `p0` ends.
#[verifier::opaque]
pub open spec fn end_long_comment(s: Seq<u8>, p0: int) -> Decoded<()> {
    match fixed_end(s, p0, 2) { Decoded::Done(_, p1) => match fixed_end(s, p1, 2) { Decoded::Done(_, p2) => match fixed_end(s, p2, be_u16(s, p1)) { Decoded::Done(_, p3) => Decoded::Done((), p3), d => d }, d => d }, d => d }
}

/// Whether the operands of `LongComment` at `p0` are the given ones, ending at `q`.
#[verifier::opaque]
pub open spec fn args_long_comment(s: Seq<u8>, p0: int, f0: CommentKind, f1: u16, f2: Vec<u8>, q: int) -> bool {
    let p1 = after(fixed_end(s, p0, 2));
    let p2 = after(fixed_end(s, p1, 2));
    let p3 = after(fixed_end(s, p2, be_u16(s, p1)));
    &&& f0 == comment_kind_of(be_u16(s, p0) as u16)
    &&& f1 == be_u16(s, p1)
    &&& f2@ == s.subrange(p2, p2 + be_u16(s, p1))
    &&& q == p3
}

/// How reading the operands of `EndOfPicture` at `p0` ends.
#[verifier::opaque]
pub open spec fn end_end_of_picture(s: Seq<u8>, p0: int) -> Decoded<()> {
    Decoded::Done((), p0)
}

/// Whether the operands of `EndOfPicture` at `p0` are the given ones, ending at `q`.
#[verifier::opaque]
pub open spec fn args_end_of_picture(s: Seq<u8>, p0: int, q: int) -> bool {
    &&& q == p0
}

/// How reading the operands of the opcode at `pos` ends: where they end,
/// `Malformed` when they cannot be read (or the opcode is not known), or
/// `Fatal` where the decoder aborts.
pub open spec fn payload_end(s: Seq<u8>, pos: int) -> Decoded<()> {
    let p0 = pos + 1;
    match s[pos] {
        0x00 => end_nop(s, p0),
        0x01 => end_clip_rgn(s, p0),
        0x02 => end_bk_pat(s, p0),
        0x03 => end_tx_font(s, p0),
        0x04 => end_tx_face(s, p0),
        0x05 => end_tx_mode(s, p0),
        0x06 => end_sp_extra(s, p0),
        0x07 => end_pn_size(s, p0),
        0x08 => end_pn_mode(s, p0),
        0x09 => end_pn_pat(s, p0),
        0x0A => end_fill_pat(s, p0),
        0x0B => end_ov_size(s, p0),
        0x0C => end_origin(s, p0),
        0x0D => end_tx_size(s, p0),
        0x0E => end_fg_color(s, p0),
        0x0F => end_bk_color(s, p0),
        0x10 => end_tx_ratio(s, p0),
        0x11 => end_pic_version(s, p0),
        0x20 => end_line(s, p0),
        0x21 => end_line_from(s, p0),
        0x22 => end_short_line(s, p0),
        0x23 => end_short_line_from(s, p0),
        0x28 => end_long_text(s, p0),
        0x29 => end_dh_text(s, p0),
        0x2A => end_dv_text(s, p0),
        0x2B => end_dhdv_text(s, p0),
        0x2C => end_set_font(s, p0),
        0x2E => end_glpyh_state(s, p0),
        0x30 => end_frame_rect(s, p0),
        0x31 => end_paint_rect(s, p0),
        0x32 => end_erase_rect(s, p0),
        0x33 => end_invert_rect(s, p0),
        0x34 => end_fill_rect(s, p0),
        0x38 => end_frame_same_rect(s, p0),
        0x39 => end_paint_same_rect(s, p0),
        0x3A => end_erase_same_rect(s, p0),
        0x3B => end_invert_same_rect(s, p0),
        0x3C => end_fill_same_rect(s, p0),
        0x40 => end_frame_r_rect(s, p0),
        0x41 => end_paint_r_rect(s, p0),
        0x42 => end_erase_r_rect(s, p0),
        0x43 => end_invert_r_rect(s, p0),
        0x44 => end_fill_r_rect(s, p0),
        0x48 => end_frame_same_r_rect(s, p0),
        0x49 => end_paint_same_r_rect(s, p0),
        0x4A => end_erase_same_r_rect(s, p0),
        0x4B => end_invert_same_r_rect(s, p0),
        0x4C => end_fill_same_r_rect(s, p0),
        0x50 => end_frame_oval(s, p0),
        0x51 => end_paint_oval(s, p0),
        0x52 => end_erase_oval(s, p0),
        0x53 => end_invert_oval(s, p0),
        0x54 => end_fill_oval(s, p0),
        0x58 => end_frame_same_oval(s, p0),
        0x59 => end_paint_same_oval(s, p0),
        0x5A => end_erase_same_oval(s, p0),
        0x5B => end_invert_same_oval(s, p0),
        0x5C => end_fill_same_oval(s, p0),
        0x60 => end_frame_arc(s, p0),
        0x61 => end_paint_arc(s, p0),
        0x62 => end_erase_arc(s, p0),
        0x63 => end_invert_arc(s, p0),
        0x64 => end_fill_arc(s, p0),
        0x68 => end_frame_same_arc(s, p0),
        0x69 => end_paint_same_arc(s, p0),
        0x6A => end_erase_same_arc(s, p0),
        0x6B => end_invert_same_arc(s, p0),
        0x6C => end_fill_same_arc(s, p0),
        0x70 => end_frame_poly(s, p0),
        0x71 => end_paint_poly(s, p0),
        0x72 => end_erase_poly(s, p0),
        0x73 => end_invert_poly(s, p0),
        0x74 => end_fill_poly(s, p0),
        0x78 => end_frame_same_poly(s, p0),
        0x79 => end_paint_same_poly(s, p0),
        0x7A => end_erase_same_poly(s, p0),
        0x7B => end_invert_same_poly(s, p0),
        0x7C => end_fill_same_poly(s, p0),
        0x80 => end_frame_rgn(s, p0),
        0x81 => end_paint_rgn(s, p0),
        0x82 => end_erase_rgn(s, p0),
        0x83 => end_invert_rgn(s, p0),
        0x84 => end_fill_rgn(s, p0),
        0x88 => end_frame_same_rgn(s, p0),
        0x89 => end_paint_same_rgn(s, p0),
        0x8A => end_erase_same_rgn(s, p0),
        0x8B => end_invert_same_rgn(s, p0),
        0x8C => end_fill_same_rgn(s, p0),
        0x90 => end_bits_rect(s, p0),
        0x91 => end_bits_rgn(s, p0),
        0x98 => end_pack_bits_rect(s, p0),
        0x99 => end_pack_bits_rgn(s, p0),
        0xA0 => end_short_comment(s, p0),
        0xA1 => end_long_comment(s, p0),
        0xFF => end_end_of_picture(s, p0),
        _ => Decoded::Malformed,
    }
}

/// Whether `op`, ending at `q`, is the opcode stored at `pos` with its
/// operands.
pub open spec fn op_at(s: Seq<u8>, pos: int, op: Opcode, q: int) -> bool {
    let p0 = pos + 1;
    match op {
        Opcode::NOP => s[pos] == 0x00 && args_nop(s, p0, q),
        Opcode::ClipRgn(f0) => s[pos] == 0x01 && args_clip_rgn(s, p0, f0, q),
        Opcode::BkPat(f0) => s[pos] == 0x02 && args_bk_pat(s, p0, f0, q),
        Opcode::TxFont(f0) => s[pos] == 0x03 && args_tx_font(s, p0, f0, q),
        Opcode::TxFace(f0) => s[pos] == 0x04 && args_tx_face(s, p0, f0, q),
        Opcode::TxMode(f0) => s[pos] == 0x05 && args_tx_mode(s, p0, f0, q),
        Opcode::SpExtra(f0) => s[pos] == 0x06 && args_sp_extra(s, p0, f0, q),
        Opcode::PnSize(f0) => s[pos] == 0x07 && args_pn_size(s, p0, f0, q),
        Opcode::PnMode(f0) => s[pos] == 0x08 && args_pn_mode(s, p0, f0, q),
        Opcode::PnPat(f0) => s[pos] == 0x09 && args_pn_pat(s, p0, f0, q),
        Opcode::FillPat(f0) => s[pos] == 0x0A && args_fill_pat(s, p0, f0, q),
        Opcode::OvSize(f0) => s[pos] == 0x0B && args_ov_size(s, p0, f0, q),
        Opcode::Origin(f0, f1) => s[pos] == 0x0C && args_origin(s, p0, f0, f1, q),
        Opcode::TxSize(f0) => s[pos] == 0x0D && args_tx_size(s, p0, f0, q),
        Opcode::FgColor(f0) => s[pos] == 0x0E && args_fg_color(s, p0, f0, q),
        Opcode::BkColor(f0) => s[pos] == 0x0F && args_bk_color(s, p0, f0, q),
        Opcode::TxRatio(f0, f1) => s[pos] == 0x10 && args_tx_ratio(s, p0, f0, f1, q),
        Opcode::PicVersion(f0) => s[pos] == 0x11 && args_pic_version(s, p0, f0, q),
        Opcode::Line(f0, f1) => s[pos] == 0x20 && args_line(s, p0, f0, f1, q),
        Opcode::LineFrom(f0) => s[pos] == 0x21 && args_line_from(s, p0, f0, q),
        Opcode::ShortLine(f0, f1, f2) => s[pos] == 0x22 && args_short_line(s, p0, f0, f1, f2, q),
        Opcode::ShortLineFrom(f0, f1) => s[pos] == 0x23 && args_short_line_from(s, p0, f0, f1, q),
        Opcode::LongText(f0, f1) => s[pos] == 0x28 && args_long_text(s, p0, f0, f1, q),
        Opcode::DHText(f0, f1) => s[pos] == 0x29 && args_dh_text(s, p0, f0, f1, q),
        Opcode::DVText(f0, f1) => s[pos] == 0x2A && args_dv_text(s, p0, f0, f1, q),
        Opcode::DHDVText(f0, f1, f2) => s[pos] == 0x2B && args_dhdv_text(s, p0, f0, f1, f2, q),
        Opcode::SetFont(f0, f1, f2) => s[pos] == 0x2C && args_set_font(s, p0, f0, f1, f2, q),
        Opcode::GlpyhState(f0, f1, f2, f3, f4) => s[pos] == 0x2E && args_glpyh_state(s, p0, f0, f1, f2, f3, f4, q),
        Opcode::FrameRect(f0) => s[pos] == 0x30 && args_frame_rect(s, p0, f0, q),
        Opcode::PaintRect(f0) => s[pos] == 0x31 && args_paint_rect(s, p0, f0, q),
        Opcode::EraseRect(f0) => s[pos] == 0x32 && args_erase_rect(s, p0, f0, q),
        Opcode::InvertRect(f0) => s[pos] == 0x33 && args_invert_rect(s, p0, f0, q),
        Opcode::FillRect(f0) => s[pos] == 0x34 && args_fill_rect(s, p0, f0, q),
        Opcode::FrameSameRect => s[pos] == 0x38 && args_frame_same_rect(s, p0, q),
        Opcode::PaintSameRect => s[pos] == 0x39 && args_paint_same_rect(s, p0, q),
        Opcode::EraseSameRect => s[pos] == 0x3A && args_erase_same_rect(s, p0, q),
        Opcode::InvertSameRect => s[pos] == 0x3B && args_invert_same_rect(s, p0, q),
        Opcode::FillSameRect => s[pos] == 0x3C && args_fill_same_rect(s, p0, q),
        Opcode::FrameRRect(f0) => s[pos] == 0x40 && args_frame_r_rect(s, p0, f0, q),
        Opcode::PaintRRect(f0) => s[pos] == 0x41 && args_paint_r_rect(s, p0, f0, q),
        Opcode::EraseRRect(f0) => s[pos] == 0x42 && args_erase_r_rect(s, p0, f0, q),
        Opcode::InvertRRect(f0) => s[pos] == 0x43 && args_invert_r_rect(s, p0, f0, q),
        Opcode::FillRRect(f0) => s[pos] == 0x44 && args_fill_r_rect(s, p0, f0, q),
        Opcode::FrameSameRRect => s[pos] == 0x48 && args_frame_same_r_rect(s, p0, q),
        Opcode::PaintSameRRect => s[pos] == 0x49 && args_paint_same_r_rect(s, p0, q),
        Opcode::EraseSameRRect => s[pos] == 0x4A && args_erase_same_r_rect(s, p0, q),
        Opcode::InvertSameRRect => s[pos] == 0x4B && args_invert_same_r_rect(s, p0, q),
        Opcode::FillSameRRect => s[pos] == 0x4C && args_fill_same_r_rect(s, p0, q),
        Opcode::FrameOval(f0) => s[pos] == 0x50 && args_frame_oval(s, p0, f0, q),
        Opcode::PaintOval(f0) => s[pos] == 0x51 && args_paint_oval(s, p0, f0, q),
        Opcode::EraseOval(f0) => s[pos] == 0x52 && args_erase_oval(s, p0, f0, q),
        Opcode::InvertOval(f0) => s[pos] == 0x53 && args_invert_oval(s, p0, f0, q),
        Opcode::FillOval(f0) => s[pos] == 0x54 && args_fill_oval(s, p0, f0, q),
        Opcode::FrameSameOval => s[pos] == 0x58 && args_frame_same_oval(s, p0, q),
        Opcode::PaintSameOval => s[pos] == 0x59 && args_paint_same_oval(s, p0, q),
        Opcode::EraseSameOval => s[pos] == 0x5A && args_erase_same_oval(s, p0, q),
        Opcode::InvertSameOval => s[pos] == 0x5B && args_invert_same_oval(s, p0, q),
        Opcode::FillSameOval => s[pos] == 0x5C && args_fill_same_oval(s, p0, q),
        Opcode::FrameArc(f0, f1, f2) => s[pos] == 0x60 && args_frame_arc(s, p0, f0, f1, f2, q),
        Opcode::PaintArc(f0, f1, f2) => s[pos] == 0x61 && args_paint_arc(s, p0, f0, f1, f2, q),
        Opcode::EraseArc(f0, f1, f2) => s[pos] == 0x62 && args_erase_arc(s, p0, f0, f1, f2, q),
        Opcode::InvertArc(f0, f1, f2) => s[pos] == 0x63 && args_invert_arc(s, p0, f0, f1, f2, q),
        Opcode::FillArc(f0, f1, f2) => s[pos] == 0x64 && args_fill_arc(s, p0, f0, f1, f2, q),
        Opcode::FrameSameArc(f0, f1) => s[pos] == 0x68 && args_frame_same_arc(s, p0, f0, f1, q),
        Opcode::PaintSameArc(f0, f1) => s[pos] == 0x69 && args_paint_same_arc(s, p0, f0, f1, q),
        Opcode::EraseSameArc(f0, f1) => s[pos] == 0x6A && args_erase_same_arc(s, p0, f0, f1, q),
        Opcode::InvertSameArc(f0, f1) => s[pos] == 0x6B && args_invert_same_arc(s, p0, f0, f1, q),
        Opcode::FillSameArc(f0, f1) => s[pos] == 0x6C && args_fill_same_arc(s, p0, f0, f1, q),
        Opcode::FramePoly(f0) => s[pos] == 0x70 && args_frame_poly(s, p0, f0, q),
        Opcode::PaintPoly(f0) => s[pos] == 0x71 && args_paint_poly(s, p0, f0, q),
        Opcode::ErasePoly(f0) => s[pos] == 0x72 && args_erase_poly(s, p0, f0, q),
        Opcode::InvertPoly(f0) => s[pos] == 0x73 && args_invert_poly(s, p0, f0, q),
        Opcode::FillPoly(f0) => s[pos] == 0x74 && args_fill_poly(s, p0, f0, q),
        Opcode::FrameSamePoly => s[pos] == 0x78 && args_frame_same_poly(s, p0, q),
        Opcode::PaintSamePoly => s[pos] == 0x79 && args_paint_same_poly(s, p0, q),
        Opcode::EraseSamePoly => s[pos] == 0x7A && args_erase_same_poly(s, p0, q),
        Opcode::InvertSamePoly => s[pos] == 0x7B && args_invert_same_poly(s, p0, q),
        Opcode::FillSamePoly => s[pos] == 0x7C && args_fill_same_poly(s, p0, q),
        Opcode::FrameRgn(f0) => s[pos] == 0x80 && args_frame_rgn(s, p0, f0, q),
        Opcode::PaintRgn(f0) => s[pos] == 0x81 && args_paint_rgn(s, p0, f0, q),
        Opcode::EraseRgn(f0) => s[pos] == 0x82 && args_erase_rgn(s, p0, f0, q),
        Opcode::InvertRgn(f0) => s[pos] == 0x83 && args_invert_rgn(s, p0, f0, q),
        Opcode::FillRgn(f0) => s[pos] == 0x84 && args_fill_rgn(s, p0, f0, q),
        Opcode::FrameSameRgn => s[pos] == 0x88 && args_frame_same_rgn(s, p0, q),
        Opcode::PaintSameRgn => s[pos] == 0x89 && args_paint_same_rgn(s, p0, q),
        Opcode::EraseSameRgn => s[pos] == 0x8A && args_erase_same_rgn(s, p0, q),
        Opcode::InvertSameRgn => s[pos] == 0x8B && args_invert_same_rgn(s, p0, q),
        Opcode::FillSameRgn => s[pos] == 0x8C && args_fill_same_rgn(s, p0, q),
        Opcode::BitsRect(f0) => s[pos] == 0x90 && args_bits_rect(s, p0, f0, q),
        Opcode::BitsRgn(f0) => s[pos] == 0x91 && args_bits_rgn(s, p0, f0, q),
        Opcode::PackBitsRect(f0) => s[pos] == 0x98 && args_pack_bits_rect(s, p0, f0, q),
        Opcode::PackBitsRgn(f0) => s[pos] == 0x99 && args_pack_bits_rgn(s, p0, f0, q),
        Opcode::ShortComment(f0) => s[pos] == 0xA0 && args_short_comment(s, p0, f0, q),
        Opcode::LongComment(f0, f1, f2) => s[pos] == 0xA1 && args_long_comment(s, p0, f0, f1, f2, q),
        Opcode::EndOfPicture => s[pos] == 0xFF && args_end_of_picture(s, p0, q),
        Opcode::Unknown(_) => false,
    }
}

/// What reading the opcode at `pos` gives.
pub open spec fn outcome(s: Seq<u8>, pos: int) -> OpOutcome {
    if pos < 0 || pos + 1 > s.len() {
        OpOutcome::Eof
    } else {
        match payload_end(s, pos) {
            Decoded::Done(_, q) => OpOutcome::Parsed(q),
            Decoded::Malformed => OpOutcome::Unknown,
            Decoded::Fatal => OpOutcome::Fatal,
        }
    }
}

/// Reads the operands of `NOP`.
fn read_nop(data: &[u8], pos: usize, code: u8) -> (r: Result<(Opcode, usize), DecodeError>)
    requires
        pos + 1 <= data.len(),
        code == data@[pos as int],
        code == 0x00,
    ensures
        match outcome(data@, pos as int) {
            OpOutcome::Eof => r matches Err(e) && e == DecodeError::Malformed,
            OpOutcome::Parsed(q) => r matches Ok((op, p)) && p == q && op_at(data@, pos as int, op, q),
            OpOutcome::Unknown => r matches Ok((op, p)) && p == pos + 1 && op == Opcode::Unknown(data@[pos as int]),
            OpOutcome::Fatal => r matches Err(e) && e == DecodeError::Fatal,
        },
{
    proof {
        reveal(end_nop);
        reveal(args_nop);
    }
    let p0 = pos + 1;
    Ok((Opcode::NOP, p0))
}

/// Reads the operands of `ClipRgn`.
fn read_clip_rgn(data: &[u8], pos: usize, code: u8) -> (r: Result<(Opcode, usize), DecodeError>)
    requires
        pos + 1 <= data.len(),
        code == data@[pos as int],
        code == 0x01,
    ensures
        match outcome(data@, pos as int) {
            OpOutcome::Eof => r matches Err(e) && e == DecodeError::Malformed,
            OpOutcome::Parsed(q) => r matches Ok((op, p)) && p == q && op_at(data@, pos as int, op, q),
            OpOutcome::Unknown => r matches Ok((op, p)) && p == pos + 1 && op == Opcode::Unknown(data@[pos as int]),
            OpOutcome::Fatal => r matches Err(e) && e == DecodeError::Fatal,
        },
{
    proof {
        reveal(end_clip_rgn);
        reveal(args_clip_rgn);
    }
    let p0 = pos + 1;
    let (f0, p1) = match field_region(data, p0) {
        Some(x) => x,
        None => return Ok((Opcode::Unknown(code), p0)),
    };
    Ok((Opcode::ClipRgn(f0), p1))
}

/// Reads the operands of `BkPat`.
fn read_bk_pat(data: &[u8], pos: usize, code: u8) -> (r: Result<(Opcode, usize), DecodeError>)
    requires
        pos + 1 <= data.len(),
        code == data@[pos as int],
        code == 0x02,
    ensures
        match outcome(data@, pos as int) {
            OpOutcome::Eof => r matches Err(e) && e == DecodeError::Malformed,
            OpOutcome::Parsed(q) => r matches Ok((op, p)) && p == q && op_at(data@, pos as int, op, q),
            OpOutcome::Unknown => r matches Ok((op, p)) && p == pos + 1 && op == Opcode::Unknown(data@[pos as int]),
            OpOutcome::Fatal => r matches Err(e) && e == DecodeError::Fatal,
        },
{
    proof {
        reveal(end_bk_pat);
        reveal(args_bk_pat);
    }
    let p0 = pos + 1;
    let (f0, p1) = match field_pattern(data, p0) {
        Some(x) => x,
        None => return Ok((Opcode::Unknown(code), p0)),
    };
    Ok((Opcode::BkPat(f0), p1))
}

/// Reads the operands of `TxFont`.
fn read_tx_font(data: &[u8], pos: usize, code: u8) -> (r: Result<(Opcode, usize), DecodeError>)
    requires
        pos + 1 <= data.len(),
        code == data@[pos as int],
        code == 0x03,
    ensures
        match outcome(data@, pos as int) {
            OpOutcome::Eof => r matches Err(e) && e == DecodeError::Malformed,
            OpOutcome::Parsed(q) => r matches Ok((op, p)) && p == q && op_at(data@, pos as int, op, q),
            OpOutcome::Unknown => r matches Ok((op, p)) && p == pos + 1 && op == Opcode::Unknown(data@[pos as int]),
            OpOutcome::Fatal => r matches Err(e) && e == DecodeError::Fatal,
        },
{
    proof {
        reveal(end_tx_font);
        reveal(args_tx_font);
    }
    let p0 = pos + 1;
    let (f0, p1) = match field_u16(data, p0) {
        Some(x) => x,
        None => return Ok((Opcode::Unknown(code), p0)),
    };
    Ok((Opcode::TxFont(f0), p1))
}

/// Reads the operands of `TxFace`.
fn read_tx_face(data: &[u8], pos: usize, code: u8) -> (r: Result<(Opcode, usize), DecodeError>)
    requires
        pos + 1 <= data.len(),
        code == data@[pos as int],
        code == 0x04,
    ensures
        match outcome(data@, pos as int) {
            OpOutcome::Eof => r matches Err(e) && e == DecodeError::Malformed,
            OpOutcome::Parsed(q) => r matches Ok((op, p)) && p == q && op_at(data@, pos as int, op, q),
            OpOutcome::Unknown => r matches Ok((op, p)) && p == pos + 1 && op == Opcode::Unknown(data@[pos as int]),
            OpOutcome::Fatal => r matches Err(e) && e == DecodeError::Fatal,
        },
{
    proof {
        reveal(end_tx_face);
        reveal(args_tx_face);
    }
    let p0 = pos + 1;
    let (f0, p1) = match field_u8(data, p0) {
        Some(x) => x,
        None => return Ok((Opcode::Unknown(code), p0)),
    };
    Ok((Opcode::TxFace(f0), p1))
}

/// Reads the operands of `TxMode`.
fn read_tx_mode(data: &[u8], pos: usize, code: u8) -> (r: Result<(Opcode, usize), DecodeError>)
    requires
        pos + 1 <= data.len(),
        code == data@[pos as int],
        code == 0x05,
    ensures
        match outcome(data@, pos as int) {
            OpOutcome::Eof => r matches Err(e) && e == DecodeError::Malformed,
            OpOutcome::Parsed(q) => r matches Ok((op, p)) && p == q && op_at(data@, pos as int, op, q),
            OpOutcome::Unknown => r matches Ok((op, p)) && p == pos + 1 && op == Opcode::Unknown(data@[pos as int]),
            OpOutcome::Fatal => r matches Err(e) && e == DecodeError::Fatal,
        },
{
    proof {
        reveal(end_tx_mode);
        reveal(args_tx_mode);
    }
    let p0 = pos + 1;
    let (f0, p1) = match field_u16(data, p0) {
        Some(x) => x,
        None => return Ok((Opcode::Unknown(code), p0)),
    };
    Ok((Opcode::TxMode(f0), p1))
}

/// Reads the operands of `SpExtra`.
fn read_sp_extra(data: &[u8], pos: usize, code: u8) -> (r: Result<(Opcode, usize), DecodeError>)
    requires
        pos + 1 <= data.len(),
        code == data@[pos as int],
        code == 0x06,
    ensures
        match outcome(data@, pos as int) {
            OpOutcome::Eof => r matches Err(e) && e == DecodeError::Malformed,
            OpOutcome::Parsed(q) => r matches Ok((op, p)) && p == q && op_at(data@, pos as int, op, q),
            OpOutcome::Unknown => r matches Ok((op, p)) && p == pos + 1 && op == Opcode::Unknown(data@[pos as int]),
            OpOutcome::Fatal => r matches Err(e) && e == DecodeError::Fatal,
        },
{
    proof {
        reveal(end_sp_extra);
        reveal(args_sp_extra);
    }
    let p0 = pos + 1;
    let (f0, p1) = match field_u32(data, p0) {
        Some(x) => x,
        None => return Ok((Opcode::Unknown(code), p0)),
    };
    Ok((Opcode::SpExtra(f0), p1))
}

/// Reads the operands of `PnSize`.
fn read_pn_size(data: &[u8], pos: usize, code: u8) -> (r: Result<(Opcode, usize), DecodeError>)
    requires
        pos + 1 <= data.len(),
        code == data@[pos as int],
        code == 0x07,
    ensures
        match outcome(data@, pos as int) {
            OpOutcome::Eof => r matches Err(e) && e == DecodeError::Malformed,
            OpOutcome::Parsed(q) => r matches Ok((op, p)) && p == q && op_at(data@, pos as int, op, q),
            OpOutcome::Unknown => r matches Ok((op, p)) && p == pos + 1 && op == Opcode::Unknown(data@[pos as int]),
            OpOutcome::Fatal => r matches Err(e) && e == DecodeError::Fatal,
        },
{
    proof {
        reveal(end_pn_size);
        reveal(args_pn_size);
    }
    let p0 = pos + 1;
    let (f0, p1) = match field_point(data, p0) {
        Some(x) => x,
        None => return Ok((Opcode::Unknown(code), p0)),
    };
    Ok((Opcode::PnSize(f0), p1))
}

/// Reads the operands of `PnMode`.
fn read_pn_mode(data: &[u8], pos: usize, code: u8) -> (r: Result<(Opcode, usize), DecodeError>)
    requires
        pos + 1 <= data.len(),
        code == data@[pos as int],
        code == 0x08,
    ensures
        match outcome(data@, pos as int) {
            OpOutcome::Eof => r matches Err(e) && e == DecodeError::Malformed,
            OpOutcome::Parsed(q) => r matches Ok((op, p)) && p == q && op_at(data@, pos as int, op, q),
            OpOutcome::Unknown => r matches Ok((op, p)) && p == pos + 1 && op == Opcode::Unknown(data@[pos as int]),
            OpOutcome::Fatal => r matches Err(e) && e == DecodeError::Fatal,
        },
{
    proof {
        reveal(end_pn_mode);
        reveal(args_pn_mode);
    }
    let p0 = pos + 1;
    let (f0, p1) = match field_u16(data, p0) {
        Some(x) => x,
        None => return Ok((Opcode::Unknown(code), p0)),
    };
    Ok((Opcode::PnMode(f0), p1))
}

/// Reads the operands of `PnPat`.
fn read_pn_pat(data: &[u8], pos: usize, code: u8) -> (r: Result<(Opcode, usize), DecodeError>)
    requires
        pos + 1 <= data.len(),
        code == data@[pos as int],
        code == 0x09,
    ensures
        match outcome(data@, pos as int) {
            OpOutcome::Eof => r matches Err(e) && e == DecodeError::Malformed,
            OpOutcome::Parsed(q) => r matches Ok((op, p)) && p == q && op_at(data@, pos as int, op, q),
            OpOutcome::Unknown => r matches Ok((op, p)) && p == pos + 1 && op == Opcode::Unknown(data@[pos as int]),
            OpOutcome::Fatal => r matches Err(e) && e == DecodeError::Fatal,
        },
{
    proof {
        reveal(end_pn_pat);
        reveal(args_pn_pat);
    }
    let p0 = pos + 1;
    let (f0, p1) = match field_pattern(data, p0) {
        Some(x) => x,
        None => return Ok((Opcode::Unknown(code), p0)),
    };
    Ok((Opcode::PnPat(f0), p1))
}

/// Reads the operands of `FillPat`.
fn read_fill_pat(data: &[u8], pos: usize, code: u8) -> (r: Result<(Opcode, usize), DecodeError>)
    requires
        pos + 1 <= data.len(),
        code == data@[pos as int],
        code == 0x0A,
    ensures
        match outcome(data@, pos as int) {
            OpOutcome::Eof => r matches Err(e) && e == DecodeError::Malformed,
            OpOutcome::Parsed(q) => r matches Ok((op, p)) && p == q && op_at(data@, pos as int, op, q),
            OpOutcome::Unknown => r matches Ok((op, p)) && p == pos + 1 && op == Opcode::Unknown(data@[pos as int]),
            OpOutcome::Fatal => r matches Err(e) && e == DecodeError::Fatal,
        },
{
    proof {
        reveal(end_fill_pat);
        reveal(args_fill_pat);
    }
    let p0 = pos + 1;
    let (f0, p1) = match field_pattern(data, p0) {
        Some(x) => x,
        None => return Ok((Opcode::Unknown(code), p0)),
    };
    Ok((Opcode::FillPat(f0), p1))
}

/// Reads the operands of `OvSize`.
fn read_ov_size(data: &[u8], pos: usize, code: u8) -> (r: Result<(Opcode, usize), DecodeError>)
    requires
        pos + 1 <= data.len(),
        code == data@[pos as int],
        code == 0x0B,
    ensures
        match outcome(data@, pos as int) {
            OpOutcome::Eof => r matches Err(e) && e == DecodeError::Malformed,
            OpOutcome::Parsed(q) => r matches Ok((op, p)) && p == q && op_at(data@, pos as int, op, q),
            OpOutcome::Unknown => r matches Ok((op, p)) && p == pos + 1 && op == Opcode::Unknown(data@[pos as int]),
            OpOutcome::Fatal => r matches Err(e) && e == DecodeError::Fatal,
        },
{
    proof {
        reveal(end_ov_size);
        reveal(args_ov_size);
    }
    let p0 = pos + 1;
    let (f0, p1) = match field_point(data, p0) {
        Some(x) => x,
        None => return Ok((Opcode::Unknown(code), p0)),
    };
    Ok((Opcode::OvSize(f0), p1))
}

/// Reads the operands of `Origin`.
fn read_origin(data: &[u8], pos: usize, code: u8) -> (r: Result<(Opcode, usize), DecodeError>)
    requires
        pos + 1 <= data.len(),
        code == data@[pos as int],
        code == 0x0C,
    ensures
        match outcome(data@, pos as int) {
            OpOutcome::Eof => r matches Err(e) && e == DecodeError::Malformed,
            OpOutcome::Parsed(q) => r matches Ok((op, p)) && p == q && op_at(data@, pos as int, op, q),
            OpOutcome::Unknown => r matches Ok((op, p)) && p == pos + 1 && op == Opcode::Unknown(data@[pos as int]),
            OpOutcome::Fatal => r matches Err(e) && e == DecodeError::Fatal,
        },
{
    proof {
        reveal(end_origin);
        reveal(args_origin);
    }
    let p0 = pos + 1;
    let (f0, p1) = match field_u16(data, p0) {
        Some(x) => x,
        None => return Ok((Opcode::Unknown(code), p0)),
    };
    let (f1, p2) = match field_u16(data, p1) {
        Some(x) => x,
        None => return Ok((Opcode::Unknown(code), p0)),
    };
    Ok((Opcode::Origin(f0, f1), p2))
}

/// Reads the operands of `TxSize`.
fn read_tx_size(data: &[u8], pos: usize, code: u8) -> (r: Result<(Opcode, usize), DecodeError>)
    requires
        pos + 1 <= data.len(),
        code == data@[pos as int],
        code == 0x0D,
    ensures
        match outcome(data@, pos as int) {
            OpOutcome::Eof => r matches Err(e) && e == DecodeError::Malformed,
            OpOutcome::Parsed(q) => r matches Ok((op, p)) && p == q && op_at(data@, pos as int, op, q),
            OpOutcome::Unknown => r matches Ok((op, p)) && p == pos + 1 && op == Opcode::Unknown(data@[pos as int]),
            OpOutcome::Fatal => r matches Err(e) && e == DecodeError::Fatal,
        },
{
    proof {
        reveal(end_tx_size);
        reveal(args_tx_size);
    }
    let p0 = pos + 1;
    let (f0, p1) = match field_u16(data, p0) {
        Some(x) => x,
        None => return Ok((Opcode::Unknown(code), p0)),
    };
    Ok((Opcode::TxSize(f0), p1))
}

/// Reads the operands of `FgColor`.
fn read_fg_color(data: &[u8], pos: usize, code: u8) -> (r: Result<(Opcode, usize), DecodeError>)
    requires
        pos + 1 <= data.len(),
        code == data@[pos as int],
        code == 0x0E,
    ensures
        match outcome(data@, pos as int) {
            OpOutcome::Eof => r matches Err(e) && e == DecodeError::Malformed,
            OpOutcome::Parsed(q) => r matches Ok((op, p)) && p == q && op_at(data@, pos as int, op, q),
            OpOutcome::Unknown => r matches Ok((op, p)) && p == pos + 1 && op == Opcode::Unknown(data@[pos as int]),
            OpOutcome::Fatal => r matches Err(e) && e == DecodeError::Fatal,
        },
{
    proof {
        reveal(end_fg_color);
        reveal(args_fg_color);
    }
    let p0 = pos + 1;
    let (f0, p1) = match field_u32(data, p0) {
        Some(x) => x,
        None => return Ok((Opcode::Unknown(code), p0)),
    };
    Ok((Opcode::FgColor(f0), p1))
}

/// Reads the operands of `BkColor`.
fn read_bk_color(data: &[u8], pos: usize, code: u8) -> (r: Result<(Opcode, usize), DecodeError>)
    requires
        pos + 1 <= data.len(),
        code == data@[pos as int],
        code == 0x0F,
    ensures
        match outcome(data@, pos as int) {
            OpOutcome::Eof => r matches Err(e) && e == DecodeError::Malformed,
            OpOutcome::Parsed(q) => r matches Ok((op, p)) && p == q && op_at(data@, pos as int, op, q),
            OpOutcome::Unknown => r matches Ok((op, p)) && p == pos + 1 && op == Opcode::Unknown(data@[pos as int]),
            OpOutcome::Fatal => r matches Err(e) && e == DecodeError::Fatal,
        },
{
    proof {
        reveal(end_bk_color);
        reveal(args_bk_color);
    }
    let p0 = pos + 1;
    let (f0, p1) = match field_u32(data, p0) {
        Some(x) => x,
        None => return Ok((Opcode::Unknown(code), p0)),
    };
    Ok((Opcode::BkColor(f0), p1))
}

/// Reads the operands of `TxRatio`.
fn read_tx_ratio(data: &[u8], pos: usize, code: u8) -> (r: Result<(Opcode, usize), DecodeError>)
    requires
        pos + 1 <= data.len(),
        code == data@[pos as int],
        code == 0x10,
    ensures
        match outcome(data@, pos as int) {
            OpOutcome::Eof => r matches Err(e) && e == DecodeError::Malformed,
            OpOutcome::Parsed(q) => r matches Ok((op, p)) && p == q && op_at(data@, pos as int, op, q),
            OpOutcome::Unknown => r matches Ok((op, p)) && p == pos + 1 && op == Opcode::Unknown(data@[pos as int]),
            OpOutcome::Fatal => r matches Err(e) && e == DecodeError::Fatal,
        },
{
    proof {
        reveal(end_tx_ratio);
        reveal(args_tx_ratio);
    }
    let p0 = pos + 1;
    let (f0, p1) = match field_point(data, p0) {
        Some(x) => x,
        None => return Ok((Opcode::Unknown(code), p0)),
    };
    let (f1, p2) = match field_point(data, p1) {
        Some(x) => x,
        None => return Ok((Opcode::Unknown(code), p0)),
    };
    Ok((Opcode::TxRatio(f0, f1), p2))
}

/// Reads the operands of `PicVersion`.
fn read_pic_version(data: &[u8], pos: usize, code: u8) -> (r: Result<(Opcode, usize), DecodeError>)
    requires
        pos + 1 <= data.len(),
        code == data@[pos as int],
        code == 0x11,
    ensures
        match outcome(data@, pos as int) {
            OpOutcome::Eof => r matches Err(e) && e == DecodeError::Malformed,
            OpOutcome::Parsed(q) => r matches Ok((op, p)) && p == q && op_at(data@, pos as int, op, q),
            OpOutcome::Unknown => r matches Ok((op, p)) && p == pos + 1 && op == Opcode::Unknown(data@[pos as int]),
            OpOutcome::Fatal => r matches Err(e) && e == DecodeError::Fatal,
        },
{
    proof {
        reveal(end_pic_version);
        reveal(args_pic_version);
    }
    let p0 = pos + 1;
    let (f0, p1) = match field_u8(data, p0) {
        Some(x) => x,
        None => return Ok((Opcode::Unknown(code), p0)),
    };
    Ok((Opcode::PicVersion(f0), p1))
}

/// Reads the operands of `Line`.
fn read_line(data: &[u8], pos: usize, code: u8) -> (r: Result<(Opcode, usize), DecodeError>)
    requires
        pos + 1 <= data.len(),
        code == data@[pos as int],
        code == 0x20,
    ensures
        match outcome(data@, pos as int) {
            OpOutcome::Eof => r matches Err(e) && e == DecodeError::Malformed,
            OpOutcome::Parsed(q) => r matches Ok((op, p)) && p == q && op_at(data@, pos as int, op, q),
            OpOutcome::Unknown => r matches Ok((op, p)) && p == pos + 1 && op == Opcode::Unknown(data@[pos as int]),
            OpOutcome::Fatal => r matches Err(e) && e == DecodeError::Fatal,
        },
{
    proof {
        reveal(end_line);
        reveal(args_line);
    }
    let p0 = pos + 1;
    let (f0, p1) = match field_point(data, p0) {
        Some(x) => x,
        None => return Ok((Opcode::Unknown(code), p0)),
    };
    let (f1, p2) = match field_point(data, p1) {
        Some(x) => x,
        None => return Ok((Opcode::Unknown(code), p0)),
    };
    Ok((Opcode::Line(f0, f1), p2))
}

/// Reads the operands of `LineFrom`.
fn read_line_from(data: &[u8], pos: usize, code: u8) -> (r: Result<(Opcode, usize), DecodeError>)
    requires
        pos + 1 <= data.len(),
        code == data@[pos as int],
        code == 0x21,
    ensures
        match outcome(data@, pos as int) {
            OpOutcome::Eof => r matches Err(e) && e == DecodeError::Malformed,
            OpOutcome::Parsed(q) => r matches Ok((op, p)) && p == q && op_at(data@, pos as int, op, q),
            OpOutcome::Unknown => r matches Ok((op, p)) && p == pos + 1 && op == Opcode::Unknown(data@[pos as int]),
            OpOutcome::Fatal => r matches Err(e) && e == DecodeError::Fatal,
        },
{
    proof {
        reveal(end_line_from);
        reveal(args_line_from);
    }
    let p0 = pos + 1;
    let (f0, p1) = match field_point(data, p0) {
        Some(x) => x,
        None => return Ok((Opcode::Unknown(code), p0)),
    };
    Ok((Opcode::LineFrom(f0), p1))
}

/// Reads the operands of `ShortLine`.
fn read_short_line(data: &[u8], pos: usize, code: u8) -> (r: Result<(Opcode, usize), DecodeError>)
    requires
        pos + 1 <= data.len(),
        code == data@[pos as int],
        code == 0x22,
    ensures
        match outcome(data@, pos as int) {
            OpOutcome::Eof => r matches Err(e) && e == DecodeError::Malformed,
            OpOutcome::Parsed(q) => r matches Ok((op, p)) && p == q && op_at(data@, pos as int, op, q),
            OpOutcome::Unknown => r matches Ok((op, p)) && p == pos + 1 && op == Opcode::Unknown(data@[pos as int]),
            OpOutcome::Fatal => r matches Err(e) && e == DecodeError::Fatal,
        },
{
    proof {
        reveal(end_short_line);
        reveal(args_short_line);
    }
    let p0 = pos + 1;
    let (f0, p1) = match field_point(data, p0) {
        Some(x) => x,
        None => return Ok((Opcode::Unknown(code), p0)),
    };
    let (f1, p2) = match field_i8(data, p1) {
        Some(x) => x,
        None => return Ok((Opcode::Unknown(code), p0)),
    };
    let (f2, p3) = match field_i8(data, p2) {
        Some(x) => x,
        None => return Ok((Opcode::Unknown(code), p0)),
    };
    Ok((Opcode::ShortLine(f0, f1, f2), p3))
}

/// Reads the operands of `ShortLineFrom`.
fn read_short_line_from(data: &[u8], pos: usize, code: u8) -> (r: Result<(Opcode, usize), DecodeError>)
    requires
        pos + 1 <= data.len(),
        code == data@[pos as int],
        code == 0x23,
    ensures
        match outcome(data@, pos as int) {
            OpOutcome::Eof => r matches Err(e) && e == DecodeError::Malformed,
            OpOutcome::Parsed(q) => r matches Ok((op, p)) && p == q && op_at(data@, pos as int, op, q),
            OpOutcome::Unknown => r matches Ok((op, p)) && p == pos + 1 && op == Opcode::Unknown(data@[pos as int]),
            OpOutcome::Fatal => r matches Err(e) && e == DecodeError::Fatal,
        },
{
    proof {
        reveal(end_short_line_from);
        reveal(args_short_line_from);
    }
    let p0 = pos + 1;
    let (f0, p1) = match field_i8(data, p0) {
        Some(x) => x,
        None => return Ok((Opcode::Unknown(code), p0)),
    };
    let (f1, p2) = match field_i8(data, p1) {
        Some(x) => x,
        None => return Ok((Opcode::Unknown(code), p0)),
    };
    Ok((Opcode::ShortLineFrom(f0, f1), p2))
}

/// Reads the operands of `LongText`.
fn read_long_text(data: &[u8], pos: usize, code: u8) -> (r: Result<(Opcode, usize), DecodeError>)
    requires
        pos + 1 <= data.len(),
        code == data@[pos as int],
        code == 0x28,
    ensures
        match outcome(data@, pos as int) {
            OpOutcome::Eof => r matches Err(e) && e == DecodeError::Malformed,
            OpOutcome::Parsed(q) => r matches Ok((op, p)) && p == q && op_at(data@, pos as int, op, q),
            OpOutcome::Unknown => r matches Ok((op, p)) && p == pos + 1 && op == Opcode::Unknown(data@[pos as int]),
            OpOutcome::Fatal => r matches Err(e) && e == DecodeError::Fatal,
        },
{
    proof {
        reveal(end_long_text);
        reveal(args_long_text);
    }
    let p0 = pos + 1;
    let (f0, p1) = match field_point(data, p0) {
        Some(x) => x,
        None => return Ok((Opcode::Unknown(code), p0)),
    };
    let (f1, p2) = match field_string(data, p1) {
        Some(x) => x,
        None => return Ok((Opcode::Unknown(code), p0)),
    };
    Ok((Opcode::LongText(f0, f1), p2))
}

/// Reads the operands of `DHText`.
fn read_dh_text(data: &[u8], pos: usize, code: u8) -> (r: Result<(Opcode, usize), DecodeError>)
    requires
        pos + 1 <= data.len(),
        code == data@[pos as int],
        code == 0x29,
    ensures
        match outcome(data@, pos as int) {
            OpOutcome::Eof => r matches Err(e) && e == DecodeError::Malformed,
            OpOutcome::Parsed(q) => r matches Ok((op, p)) && p == q && op_at(data@, pos as int, op, q),
            OpOutcome::Unknown => r matches Ok((op, p)) && p == pos + 1 && op == Opcode::Unknown(data@[pos as int]),
            OpOutcome::Fatal => r matches Err(e) && e == DecodeError::Fatal,
        },
{
    proof {
        reveal(end_dh_text);
        reveal(args_dh_text);
    }
    let p0 = pos + 1;
    let (f0, p1) = match field_u8(data, p0) {
        Some(x) => x,
        None => return Ok((Opcode::Unknown(code), p0)),
    };
    let (f1, p2) = match field_string(data, p1) {
        Some(x) => x,
        None => return Ok((Opcode::Unknown(code), p0)),
    };
    Ok((Opcode::DHText(f0, f1), p2))
}

/// Reads the operands of `DVText`.
fn read_dv_text(data: &[u8], pos: usize, code: u8) -> (r: Result<(Opcode, usize), DecodeError>)
    requires
        pos + 1 <= data.len(),
        code == data@[pos as int],
        code == 0x2A,
    ensures
        match outcome(data@, pos as int) {
            OpOutcome::Eof => r matches Err(e) && e == DecodeError::Malformed,
            OpOutcome::Parsed(q) => r matches Ok((op, p)) && p == q && op_at(data@, pos as int, op, q),
            OpOutcome::Unknown => r matches Ok((op, p)) && p == pos + 1 && op == Opcode::Unknown(data@[pos as int]),
            OpOutcome::Fatal => r matches Err(e) && e == DecodeError::Fatal,
        },
{
    proof {
        reveal(end_dv_text);
        reveal(args_dv_text);
    }
    let p0 = pos + 1;
    let (f0, p1) = match field_u8(data, p0) {
        Some(x) => x,
        None => return Ok((Opcode::Unknown(code), p0)),
    };
    let (f1, p2) = match field_string(data, p1) {
        Some(x) => x,
        None => return Ok((Opcode::Unknown(code), p0)),
    };
    Ok((Opcode::DVText(f0, f1), p2))
}

/// Reads the operands of `DHDVText`.
fn read_dhdv_text(data: &[u8], pos: usize, code: u8) -> (r: Result<(Opcode, usize), DecodeError>)
    requires
        pos + 1 <= data.len(),
        code == data@[pos as int],
        code == 0x2B,
    ensures
        match outcome(data@, pos as int) {
            OpOutcome::Eof => r matches Err(e) && e == DecodeError::Malformed,
            OpOutcome::Parsed(q) => r matches Ok((op, p)) && p == q && op_at(data@, pos as int, op, q),
            OpOutcome::Unknown => r matches Ok((op, p)) && p == pos + 1 && op == Opcode::Unknown(data@[pos as int]),
            OpOutcome::Fatal => r matches Err(e) && e == DecodeError::Fatal,
        },
{
    proof {
        reveal(end_dhdv_text);
        reveal(args_dhdv_text);
    }
    let p0 = pos + 1;
    let (f0, p1) = match field_u8(data, p0) {
        Some(x) => x,
        None => return Ok((Opcode::Unknown(code), p0)),
    };
    let (f1, p2) = match field_u8(data, p1) {
        Some(x) => x,
        None => return Ok((Opcode::Unknown(code), p0)),
    };
    let (f2, p3) = match field_string(data, p2) {
        Some(x) => x,
        None => return Ok((Opcode::Unknown(code), p0)),
    };
    Ok((Opcode::DHDVText(f0, f1, f2), p3))
}

/// Reads the operands of `SetFont`.
fn read_set_font(data: &[u8], pos: usize, code: u8) -> (r: Result<(Opcode, usize), DecodeError>)
    requires
        pos + 1 <= data.len(),
        code == data@[pos as int],
        code == 0x2C,
    ensures
        match outcome(data@, pos as int) {
            OpOutcome::Eof => r matches Err(e) && e == DecodeError::Malformed,
            OpOutcome::Parsed(q) => r matches Ok((op, p)) && p == q && op_at(data@, pos as int, op, q),
            OpOutcome::Unknown => r matches Ok((op, p)) && p == pos + 1 && op == Opcode::Unknown(data@[pos as int]),
            OpOutcome::Fatal => r matches Err(e) && e == DecodeError::Fatal,
        },
{
    proof {
        reveal(end_set_font);
        reveal(args_set_font);
    }
    let p0 = pos + 1;
    let (f0, p1) = match field_u16(data, p0) {
        Some(x) => x,
        None => return Ok((Opcode::Unknown(code), p0)),
    };
    let (f1, p2) = match field_u16(data, p1) {
        Some(x) => x,
        None => return Ok((Opcode::Unknown(code), p0)),
    };
    let (f2, p3) = match field_string(data, p2) {
        Some(x) => x,
        None => return Ok((Opcode::Unknown(code), p0)),
    };
    Ok((Opcode::SetFont(f0, f1, f2), p3))
}

/// Reads the operands of `GlpyhState`.
fn read_glpyh_state(data: &[u8], pos: usize, code: u8) -> (r: Result<(Opcode, usize), DecodeError>)
    requires
        pos + 1 <= data.len(),
        code == data@[pos as int],
        code == 0x2E,
    ensures
        match outcome(data@, pos as int) {
            OpOutcome::Eof => r matches Err(e) && e == DecodeError::Malformed,
            OpOutcome::Parsed(q) => r matches Ok((op, p)) && p == q && op_at(data@, pos as int, op, q),
            OpOutcome::Unknown => r matches Ok((op, p)) && p == pos + 1 && op == Opcode::Unknown(data@[pos as int]),
            OpOutcome::Fatal => r matches Err(e) && e == DecodeError::Fatal,
        },
{
    proof {
        reveal(end_glpyh_state);
        reveal(args_glpyh_state);
    }
    let p0 = pos + 1;
    let (f0, p1) = match field_u16(data, p0) {
        Some(x) => x,
        None => return Ok((Opcode::Unknown(code), p0)),
    };
    let (f1, p2) = match field_u8(data, p1) {
        Some(x) => x,
        None => return Ok((Opcode::Unknown(code), p0)),
    };
    let (f2, p3) = match field_u8(data, p2) {
        Some(x) => x,
        None => return Ok((Opcode::Unknown(code), p0)),
    };
    let (f3, p4) = match field_u8(data, p3) {
        Some(x) => x,
        None => return Ok((Opcode::Unknown(code), p0)),
    };
    let (f4, p5) = match field_u8(data, p4) {
        Some(x) => x,
        None => return Ok((Opcode::Unknown(code), p0)),
    };
    Ok((Opcode::GlpyhState(f0, f1, f2, f3, f4), p5))
}

/// Reads the operands of `FrameRect`.
fn read_frame_rect(data: &[u8], pos: usize, code: u8) -> (r: Result<(Opcode, usize), DecodeError>)
    requires
        pos + 1 <= data.len(),
        code == data@[pos as int],
        code == 0x30,
    ensures
        match outcome(data@, pos as int) {
            OpOutcome::Eof => r matches Err(e) && e == DecodeError::Malformed,
            OpOutcome::Parsed(q) => r matches Ok((op, p)) && p == q && op_at(data@, pos as int, op, q),
            OpOutcome::Unknown => r matches Ok((op, p)) && p == pos + 1 && op == Opcode::Unknown(data@[pos as int]),
            OpOutcome::Fatal => r matches Err(e) && e == DecodeError::Fatal,
        },
{
    proof {
        reveal(end_frame_rect);
        reveal(args_frame_rect);
    }
    let p0 = pos + 1;
    let (f0, p1) = match field_rect(data, p0) {
        Some(x) => x,
        None => return Ok((Opcode::Unknown(code), p0)),
    };
    Ok((Opcode::FrameRect(f0), p1))
}

/// Reads the operands of `PaintRect`.
fn read_paint_rect(data: &[u8], pos: usize, code: u8) -> (r: Result<(Opcode, usize), DecodeError>)
    requires
        pos + 1 <= data.len(),
        code == data@[pos as int],
        code == 0x31,
    ensures
        match outcome(data@, pos as int) {
            OpOutcome::Eof => r matches Err(e) && e == DecodeError::Malformed,
            OpOutcome::Parsed(q) => r matches Ok((op, p)) && p == q && op_at(data@, pos as int, op, q),
            OpOutcome::Unknown => r matches Ok((op, p)) && p == pos + 1 && op == Opcode::Unknown(data@[pos as int]),
            OpOutcome::Fatal => r matches Err(e) && e == DecodeError::Fatal,
        },
{
    proof {
        reveal(end_paint_rect);
        reveal(args_paint_rect);
    }
    let p0 = pos + 1;
    let (f0, p1) = match field_rect(data, p0) {
        Some(x) => x,
        None => return Ok((Opcode::Unknown(code), p0)),
    };
    Ok((Opcode::PaintRect(f0), p1))
}

/// Reads the operands of `EraseRect`.
fn read_erase_rect(data: &[u8], pos: usize, code: u8) -> (r: Result<(Opcode, usize), DecodeError>)
    requires
        pos + 1 <= data.len(),
        code == data@[pos as int],
        code == 0x32,
    ensures
        match outcome(data@, pos as int) {
            OpOutcome::Eof => r matches Err(e) && e == DecodeError::Malformed,
            OpOutcome::Parsed(q) => r matches Ok((op, p)) && p == q && op_at(data@, pos as int, op, q),
            OpOutcome::Unknown => r matches Ok((op, p)) && p == pos + 1 && op == Opcode::Unknown(data@[pos as int]),
            OpOutcome::Fatal => r matches Err(e) && e == DecodeError::Fatal,
        },
{
    proof {
        reveal(end_erase_rect);
        reveal(args_erase_rect);
    }
    let p0 = pos + 1;
    let (f0, p1) = match field_rect(data, p0) {
        Some(x) => x,
        None => return Ok((Opcode::Unknown(code), p0)),
    };
    Ok((Opcode::EraseRect(f0), p1))
}

/// Reads the operands of `InvertRect`.
fn read_invert_rect(data: &[u8], pos: usize, code: u8) -> (r: Result<(Opcode, usize), DecodeError>)
    requires
        pos + 1 <= data.len(),
        code == data@[pos as int],
        code == 0x33,
    ensures
        match outcome(data@, pos as int) {
            OpOutcome::Eof => r matches Err(e) && e == DecodeError::Malformed,
            OpOutcome::Parsed(q) => r matches Ok((op, p)) && p == q && op_at(data@, pos as int, op, q),
            OpOutcome::Unknown => r matches Ok((op, p)) && p == pos + 1 && op == Opcode::Unknown(data@[pos as int]),
            OpOutcome::Fatal => r matches Err(e) && e == DecodeError::Fatal,
        },
{
    proof {
        reveal(end_invert_rect);
        reveal(args_invert_rect);
    }
    let p0 = pos + 1;
    let (f0, p1) = match field_rect(data, p0) {
        Some(x) => x,
        None => return Ok((Opcode::Unknown(code), p0)),
    };
    Ok((Opcode::InvertRect(f0), p1))
}

/// Reads the operands of `FillRect`.
fn read_fill_rect(data: &[u8], pos: usize, code: u8) -> (r: Result<(Opcode, usize), DecodeError>)
    requires
        pos + 1 <= data.len(),
        code == data@[pos as int],
        code == 0x34,
    ensures
        match outcome(data@, pos as int) {
            OpOutcome::Eof => r matches Err(e) && e == DecodeError::Malformed,
            OpOutcome::Parsed(q) => r matches Ok((op, p)) && p == q && op_at(data@, pos as int, op, q),
            OpOutcome::Unknown => r matches Ok((op, p)) && p == pos + 1 && op == Opcode::Unknown(data@[pos as int]),
            OpOutcome::Fatal => r matches Err(e) && e == DecodeError::Fatal,
        },
{
    proof {
        reveal(end_fill_rect);
        reveal(args_fill_rect);
    }
    let p0 = pos + 1;
    let (f0, p1) = match field_rect(data, p0) {
        Some(x) => x,
        None => return Ok((Opcode::Unknown(code), p0)),
    };
    Ok((Opcode::FillRect(f0), p1))
}

/// Reads the operands of `FrameSameRect`.
fn read_frame_same_rect(data: &[u8], pos: usize, code: u8) -> (r: Result<(Opcode, usize), DecodeError>)
    requires
        pos + 1 <= data.len(),
        code == data@[pos as int],
        code == 0x38,
    ensures
        match outcome(data@, pos as int) {
            OpOutcome::Eof => r matches Err(e) && e == DecodeError::Malformed,
            OpOutcome::Parsed(q) => r matches Ok((op, p)) && p == q && op_at(data@, pos as int, op, q),
            OpOutcome::Unknown => r matches Ok((op, p)) && p == pos + 1 && op == Opcode::Unknown(data@[pos as int]),
            OpOutcome::Fatal => r matches Err(e) && e == DecodeError::Fatal,
        },
{
    proof {
        reveal(end_frame_same_rect);
        reveal(args_frame_same_rect);
    }
    let p0 = pos + 1;
    Ok((Opcode::FrameSameRect, p0))
}

/// Reads the operands of `PaintSameRect`.
fn read_paint_same_rect(data: &[u8], pos: usize, code: u8) -> (r: Result<(Opcode, usize), DecodeError>)
    requires
        pos + 1 <= data.len(),
        code == data@[pos as int],
        code == 0x39,
    ensures
        match outcome(data@, pos as int) {
            OpOutcome::Eof => r matches Err(e) && e == DecodeError::Malformed,
            OpOutcome::Parsed(q) => r matches Ok((op, p)) && p == q && op_at(data@, pos as int, op, q),
            OpOutcome::Unknown => r matches Ok((op, p)) && p == pos + 1 && op == Opcode::Unknown(data@[pos as int]),
            OpOutcome::Fatal => r matches Err(e) && e == DecodeError::Fatal,
        },
{
    proof {
        reveal(end_paint_same_rect);
        reveal(args_paint_same_rect);
    }
    let p0 = pos + 1;
    Ok((Opcode::PaintSameRect, p0))
}

/// Reads the operands of `EraseSameRect`.
fn read_erase_same_rect(data: &[u8], pos: usize, code: u8) -> (r: Result<(Opcode, usize), DecodeError>)
    requires
        pos + 1 <= data.len(),
        code == data@[pos as int],
        code == 0x3A,
    ensures
        match outcome(data@, pos as int) {
            OpOutcome::Eof => r matches Err(e) && e == DecodeError::Malformed,
            OpOutcome::Parsed(q) => r matches Ok((op, p)) && p == q && op_at(data@, pos as int, op, q),
            OpOutcome::Unknown => r matches Ok((op, p)) && p == pos + 1 && op == Opcode::Unknown(data@[pos as int]),
            OpOutcome::Fatal => r matches Err(e) && e == DecodeError::Fatal,
        },
{
    proof {
        reveal(end_erase_same_rect);
        reveal(args_erase_same_rect);
    }
    let p0 = pos + 1;
    Ok((Opcode::EraseSameRect, p0))
}

/// Reads the operands of `InvertSameRect`.
fn read_invert_same_rect(data: &[u8], pos: usize, code: u8) -> (r: Result<(Opcode, usize), DecodeError>)
    requires
        pos + 1 <= data.len(),
        code == data@[pos as int],
        code == 0x3B,
    ensures
        match outcome(data@, pos as int) {
            OpOutcome::Eof => r matches Err(e) && e == DecodeError::Malformed,
            OpOutcome::Parsed(q) => r matches Ok((op, p)) && p == q && op_at(data@, pos as int, op, q),
            OpOutcome::Unknown => r matches Ok((op, p)) && p == pos + 1 && op == Opcode::Unknown(data@[pos as int]),
            OpOutcome::Fatal => r matches Err(e) && e == DecodeError::Fatal,
        },
{
    proof {
        reveal(end_invert_same_rect);
        reveal(args_invert_same_rect);
    }
    let p0 = pos + 1;
    Ok((Opcode::InvertSameRect, p0))
}

/// Reads the operands of `FillSameRect`.
fn read_fill_same_rect(data: &[u8], pos: usize, code: u8) -> (r: Result<(Opcode, usize), DecodeError>)
    requires
        pos + 1 <= data.len(),
        code == data@[pos as int],
        code == 0x3C,
    ensures
        match outcome(data@, pos as int) {
            OpOutcome::Eof => r matches Err(e) && e == DecodeError::Malformed,
            OpOutcome::Parsed(q) => r matches Ok((op, p)) && p == q && op_at(data@, pos as int, op, q),
            OpOutcome::Unknown => r matches Ok((op, p)) && p == pos + 1 && op == Opcode::Unknown(data@[pos as int]),
            OpOutcome::Fatal => r matches Err(e) && e == DecodeError::Fatal,
        },
{
    proof {
        reveal(end_fill_same_rect);
        reveal(args_fill_same_rect);
    }
    let p0 = pos + 1;
    Ok((Opcode::FillSameRect, p0))
}

/// Reads the operands of `FrameRRect`.
fn read_frame_r_rect(data: &[u8], pos: usize, code: u8) -> (r: Result<(Opcode, usize), DecodeError>)
    requires
        pos + 1 <= data.len(),
        code == data@[pos as int],
        code == 0x40,
    ensures
        match outcome(data@, pos as int) {
            OpOutcome::Eof => r matches Err(e) && e == DecodeError::Malformed,
            OpOutcome::Parsed(q) => r matches Ok((op, p)) && p == q && op_at(data@, pos as int, op, q),
            OpOutcome::Unknown => r matches Ok((op, p)) && p == pos + 1 && op == Opcode::Unknown(data@[pos as int]),
            OpOutcome::Fatal => r matches Err(e) && e == DecodeError::Fatal,
        },
{
    proof {
        reveal(end_frame_r_rect);
        reveal(args_frame_r_rect);
    }
    let p0 = pos + 1;
    let (f0, p1) = match field_rect(data, p0) {
        Some(x) => x,
        None => return Ok((Opcode::Unknown(code), p0)),
    };
    Ok((Opcode::FrameRRect(f0), p1))
}

/// Reads the operands of `PaintRRect`.
fn read_paint_r_rect(data: &[u8], pos: usize, code: u8) -> (r: Result<(Opcode, usize), DecodeError>)
    requires
        pos + 1 <= data.len(),
        code == data@[pos as int],
        code == 0x41,
    ensures
        match outcome(data@, pos as int) {
            OpOutcome::Eof => r matches Err(e) && e == DecodeError::Malformed,
            OpOutcome::Parsed(q) => r matches Ok((op, p)) && p == q && op_at(data@, pos as int, op, q),
            OpOutcome::Unknown => r matches Ok((op, p)) && p == pos + 1 && op == Opcode::Unknown(data@[pos as int]),
            OpOutcome::Fatal => r matches Err(e) && e == DecodeError::Fatal,
        },
{
    proof {
        reveal(end_paint_r_rect);
        reveal(args_paint_r_rect);
    }
    let p0 = pos + 1;
    let (f0, p1) = match field_rect(data, p0) {
        Some(x) => x,
        None => return Ok((Opcode::Unknown(code), p0)),
    };
    Ok((Opcode::PaintRRect(f0), p1))
}

/// Reads the operands of `EraseRRect`.
fn read_erase_r_rect(data: &[u8], pos: usize, code: u8) -> (r: Result<(Opcode, usize), DecodeError>)
    requires
        pos + 1 <= data.len(),
        code == data@[pos as int],
        code == 0x42,
    ensures
        match outcome(data@, pos as int) {
            OpOutcome::Eof => r matches Err(e) && e == DecodeError::Malformed,
            OpOutcome::Parsed(q) => r matches Ok((op, p)) && p == q && op_at(data@, pos as int, op, q),
            OpOutcome::Unknown => r matches Ok((op, p)) && p == pos + 1 && op == Opcode::Unknown(data@[pos as int]),
            OpOutcome::Fatal => r matches Err(e) && e == DecodeError::Fatal,
        },
{
    proof {
        reveal(end_erase_r_rect);
        reveal(args_erase_r_rect);
    }
    let p0 = pos + 1;
    let (f0, p1) = match field_rect(data, p0) {
        Some(x) => x,
        None => return Ok((Opcode::Unknown(code), p0)),
    };
    Ok((Opcode::EraseRRect(f0), p1))
}

/// Reads the operands of `InvertRRect`.
fn read_invert_r_rect(data: &[u8], pos: usize, code: u8) -> (r: Result<(Opcode, usize), DecodeError>)
    requires
        pos + 1 <= data.len(),
        code == data@[pos as int],
        code == 0x43,
    ensures
        match outcome(data@, pos as int) {
            OpOutcome::Eof => r matches Err(e) && e == DecodeError::Malformed,
            OpOutcome::Parsed(q) => r matches Ok((op, p)) && p == q && op_at(data@, pos as int, op, q),
            OpOutcome::Unknown => r matches Ok((op, p)) && p == pos + 1 && op == Opcode::Unknown(data@[pos as int]),
            OpOutcome::Fatal => r matches Err(e) && e == DecodeError::Fatal,
        },
{
    proof {
        reveal(end_invert_r_rect);
        reveal(args_invert_r_rect);
    }
    let p0 = pos + 1;
    let (f0, p1) = match field_rect(data, p0) {
        Some(x) => x,
        None => return Ok((Opcode::Unknown(code), p0)),
    };
    Ok((Opcode::InvertRRect(f0), p1))
}

/// Reads the operands of `FillRRect`.
fn read_fill_r_rect(data: &[u8], pos: usize, code: u8) -> (r: Result<(Opcode, usize), DecodeError>)
    requires
        pos + 1 <= data.len(),
        code == data@[pos as int],
        code == 0x44,
    ensures
        match outcome(data@, pos as int) {
            OpOutcome::Eof => r matches Err(e) && e == DecodeError::Malformed,
            OpOutcome::Parsed(q) => r matches Ok((op, p)) && p == q && op_at(data@, pos as int, op, q),
            OpOutcome::Unknown => r matches Ok((op, p)) && p == pos + 1 && op == Opcode::Unknown(data@[pos as int]),
            OpOutcome::Fatal => r matches Err(e) && e == DecodeError::Fatal,
        },
{
    proof {
        reveal(end_fill_r_rect);
        reveal(args_fill_r_rect);
    }
    let p0 = pos + 1;
    let (f0, p1) = match field_rect(data, p0) {
        Some(x) => x,
        None => return Ok((Opcode::Unknown(code), p0)),
    };
    Ok((Opcode::FillRRect(f0), p1))
}

/// Reads the operands of `FrameSameRRect`.
fn read_frame_same_r_rect(data: &[u8], pos: usize, code: u8) -> (r: Result<(Opcode, usize), DecodeError>)
    requires
        pos + 1 <= data.len(),
        code == data@[pos as int],
        code == 0x48,
    ensures
        match outcome(data@, pos as int) {
            OpOutcome::Eof => r matches Err(e) && e == DecodeError::Malformed,
            OpOutcome::Parsed(q) => r matches Ok((op, p)) && p == q && op_at(data@, pos as int, op, q),
            OpOutcome::Unknown => r matches Ok((op, p)) && p == pos + 1 && op == Opcode::Unknown(data@[pos as int]),
            OpOutcome::Fatal => r matches Err(e) && e == DecodeError::Fatal,
        },
{
    proof {
        reveal(end_frame_same_r_rect);
        reveal(args_frame_same_r_rect);
    }
    let p0 = pos + 1;
    Ok((Opcode::FrameSameRRect, p0))
}

/// Reads the operands of `PaintSameRRect`.
fn read_paint_same_r_rect(data: &[u8], pos: usize, code: u8) -> (r: Result<(Opcode, usize), DecodeError>)
    requires
        pos + 1 <= data.len(),
        code == data@[pos as int],
        code == 0x49,
    ensures
        match outcome(data@, pos as int) {
            OpOutcome::Eof => r matches Err(e) && e == DecodeError::Malformed,
            OpOutcome::Parsed(q) => r matches Ok((op, p)) && p == q && op_at(data@, pos as int, op, q),
            OpOutcome::Unknown => r matches Ok((op, p)) && p == pos + 1 && op == Opcode::Unknown(data@[pos as int]),
            OpOutcome::Fatal => r matches Err(e) && e == DecodeError::Fatal,
        },
{
    proof {
        reveal(end_paint_same_r_rect);
        reveal(args_paint_same_r_rect);
    }
    let p0 = pos + 1;
    Ok((Opcode::PaintSameRRect, p0))
}

/// Reads the operands of `EraseSameRRect`.
fn read_erase_same_r_rect(data: &[u8], pos: usize, code: u8) -> (r: Result<(Opcode, usize), DecodeError>)
    requires
        pos + 1 <= data.len(),
        code == data@[pos as int],
        code == 0x4A,
    ensures
        match outcome(data@, pos as int) {
            OpOutcome::Eof => r matches Err(e) && e == DecodeError::Malformed,
            OpOutcome::Parsed(q) => r matches Ok((op, p)) && p == q && op_at(data@, pos as int, op, q),
            OpOutcome::Unknown => r matches Ok((op, p)) && p == pos + 1 && op == Opcode::Unknown(data@[pos as int]),
            OpOutcome::Fatal => r matches Err(e) && e == DecodeError::Fatal,
        },
{
    proof {
        reveal(end_erase_same_r_rect);
        reveal(args_erase_same_r_rect);
    }
    let p0 = pos + 1;
    Ok((Opcode::EraseSameRRect, p0))
}

/// Reads the operands of `InvertSameRRect`.
fn read_invert_same_r_rect(data: &[u8], pos: usize, code: u8) -> (r: Result<(Opcode, usize), DecodeError>)
    requires
        pos + 1 <= data.len(),
        code == data@[pos as int],
        code == 0x4B,
    ensures
        match outcome(data@, pos as int) {
            OpOutcome::Eof => r matches Err(e) && e == DecodeError::Malformed,
            OpOutcome::Parsed(q) => r matches Ok((op, p)) && p == q && op_at(data@, pos as int, op, q),
            OpOutcome::Unknown => r matches Ok((op, p)) && p == pos + 1 && op == Opcode::Unknown(data@[pos as int]),
            OpOutcome::Fatal => r matches Err(e) && e == DecodeError::Fatal,
        },
{
    proof {
        reveal(end_invert_same_r_rect);
        reveal(args_invert_same_r_rect);
    }
    let p0 = pos + 1;
    Ok((Opcode::InvertSameRRect, p0))
}

/// Reads the operands of `FillSameRRect`.
fn read_fill_same_r_rect(data: &[u8], pos: usize, code: u8) -> (r: Result<(Opcode, usize), DecodeError>)
    requires
        pos + 1 <= data.len(),
        code == data@[pos as int],
        code == 0x4C,
    ensures
        match outcome(data@, pos as int) {
            OpOutcome::Eof => r matches Err(e) && e == DecodeError::Malformed,
            OpOutcome::Parsed(q) => r matches Ok((op, p)) && p == q && op_at(data@, pos as int, op, q),
            OpOutcome::Unknown => r matches Ok((op, p)) && p == pos + 1 && op == Opcode::Unknown(data@[pos as int]),
            OpOutcome::Fatal => r matches Err(e) && e == DecodeError::Fatal,
        },
{
    proof {
        reveal(end_fill_same_r_rect);
        reveal(args_fill_same_r_rect);
    }
    let p0 = pos + 1;
    Ok((Opcode::FillSameRRect, p0))
}

/// Reads the operands of `FrameOval`.
fn read_frame_oval(data: &[u8], pos: usize, code: u8) -> (r: Result<(Opcode, usize), DecodeError>)
    requires
        pos + 1 <= data.len(),
        code == data@[pos as int],
        code == 0x50,
    ensures
        match outcome(data@, pos as int) {
            OpOutcome::Eof => r matches Err(e) && e == DecodeError::Malformed,
            OpOutcome::Parsed(q) => r matches Ok((op, p)) && p == q && op_at(data@, pos as int, op, q),
            OpOutcome::Unknown => r matches Ok((op, p)) && p == pos + 1 && op == Opcode::Unknown(data@[pos as int]),
            OpOutcome::Fatal => r matches Err(e) && e == DecodeError::Fatal,
        },
{
    proof {
        reveal(end_frame_oval);
        reveal(args_frame_oval);
    }
    let p0 = pos + 1;
    let (f0, p1) = match field_rect(data, p0) {
        Some(x) => x,
        None => return Ok((Opcode::Unknown(code), p0)),
    };
    Ok((Opcode::FrameOval(f0), p1))
}

/// Reads the operands of `PaintOval`.
fn read_paint_oval(data: &[u8], pos: usize, code: u8) -> (r: Result<(Opcode, usize), DecodeError>)
    requires
        pos + 1 <= data.len(),
        code == data@[pos as int],
        code == 0x51,
    ensures
        match outcome(data@, pos as int) {
            OpOutcome::Eof => r matches Err(e) && e == DecodeError::Malformed,
            OpOutcome::Parsed(q) => r matches Ok((op, p)) && p == q && op_at(data@, pos as int, op, q),
            OpOutcome::Unknown => r matches Ok((op, p)) && p == pos + 1 && op == Opcode::Unknown(data@[pos as int]),
            OpOutcome::Fatal => r matches Err(e) && e == DecodeError::Fatal,
        },
{
    proof {
        reveal(end_paint_oval);
        reveal(args_paint_oval);
    }
    let p0 = pos + 1;
    let (f0, p1) = match field_rect(data, p0) {
        Some(x) => x,
        None => return Ok((Opcode::Unknown(code), p0)),
    };
    Ok((Opcode::PaintOval(f0), p1))
}

/// Reads the operands of `EraseOval`.
fn read_erase_oval(data: &[u8], pos: usize, code: u8) -> (r: Result<(Opcode, usize), DecodeError>)
    requires
        pos + 1 <= data.len(),
        code == data@[pos as int],
        code == 0x52,
    ensures
        match outcome(data@, pos as int) {
            OpOutcome::Eof => r matches Err(e) && e == DecodeError::Malformed,
            OpOutcome::Parsed(q) => r matches Ok((op, p)) && p == q && op_at(data@, pos as int, op, q),
            OpOutcome::Unknown => r matches Ok((op, p)) && p == pos + 1 && op == Opcode::Unknown(data@[pos as int]),
            OpOutcome::Fatal => r matches Err(e) && e == DecodeError::Fatal,
        },
{
    proof {
        reveal(end_erase_oval);
        reveal(args_erase_oval);
    }
    let p0 = pos + 1;
    let (f0, p1) = match field_rect(data, p0) {
        Some(x) => x,
        None => return Ok((Opcode::Unknown(code), p0)),
    };
    Ok((Opcode::EraseOval(f0), p1))
}

/// Reads the operands of `InvertOval`.
fn read_invert_oval(data: &[u8], pos: usize, code: u8) -> (r: Result<(Opcode, usize), DecodeError>)
    requires
        pos + 1 <= data.len(),
        code == data@[pos as int],
        code == 0x53,
    ensures
        match outcome(data@, pos as int) {
            OpOutcome::Eof => r matches Err(e) && e == DecodeError::Malformed,
            OpOutcome::Parsed(q) => r matches Ok((op, p)) && p == q && op_at(data@, pos as int, op, q),
            OpOutcome::Unknown => r matches Ok((op, p)) && p == pos + 1 && op == Opcode::Unknown(data@[pos as int]),
            OpOutcome::Fatal => r matches Err(e) && e == DecodeError::Fatal,
        },
{
    proof {
        reveal(end_invert_oval);
        reveal(args_invert_oval);
    }
    let p0 = pos + 1;
    let (f0, p1) = match field_rect(data, p0) {
        Some(x) => x,
        None => return Ok((Opcode::Unknown(code), p0)),
    };
    Ok((Opcode::InvertOval(f0), p1))
}

/// Reads the operands of `FillOval`.
fn read_fill_oval(data: &[u8], pos: usize, code: u8) -> (r: Result<(Opcode, usize), DecodeError>)
    requires
        pos + 1 <= data.len(),
        code == data@[pos as int],
        code == 0x54,
    ensures
        match outcome(data@, pos as int) {
            OpOutcome::Eof => r matches Err(e) && e == DecodeError::Malformed,
            OpOutcome::Parsed(q) => r matches Ok((op, p)) && p == q && op_at(data@, pos as int, op, q),
            OpOutcome::Unknown => r matches Ok((op, p)) && p == pos + 1 && op == Opcode::Unknown(data@[pos as int]),
            OpOutcome::Fatal => r matches Err(e) && e == DecodeError::Fatal,
        },
{
    proof {
        reveal(end_fill_oval);
        reveal(args_fill_oval);
    }
    let p0 = pos + 1;
    let (f0, p1) = match field_rect(data, p0) {
        Some(x) => x,
        None => return Ok((Opcode::Unknown(code), p0)),
    };
    Ok((Opcode::FillOval(f0), p1))
}

/// Reads the operands of `FrameSameOval`.
fn read_frame_same_oval(data: &[u8], pos: usize, code: u8) -> (r: Result<(Opcode, usize), DecodeError>)
    requires
        pos + 1 <= data.len(),
        code == data@[pos as int],
        code == 0x58,
    ensures
        match outcome(data@, pos as int) {
            OpOutcome::Eof => r matches Err(e) && e == DecodeError::Malformed,
            OpOutcome::Parsed(q) => r matches Ok((op, p)) && p == q && op_at(data@, pos as int, op, q),
            OpOutcome::Unknown => r matches Ok((op, p)) && p == pos + 1 && op == Opcode::Unknown(data@[pos as int]),
            OpOutcome::Fatal => r matches Err(e) && e == DecodeError::Fatal,
        },
{
    proof {
        reveal(end_frame_same_oval);
        reveal(args_frame_same_oval);
    }
    let p0 = pos + 1;
    Ok((Opcode::FrameSameOval, p0))
}

/// Reads the operands of `PaintSameOval`.
fn read_paint_same_oval(data: &[u8], pos: usize, code: u8) -> (r: Result<(Opcode, usize), DecodeError>)
    requires
        pos + 1 <= data.len(),
        code == data@[pos as int],
        code == 0x59,
    ensures
        match outcome(data@, pos as int) {
            OpOutcome::Eof => r matches Err(e) && e == DecodeError::Malformed,
            OpOutcome::Parsed(q) => r matches Ok((op, p)) && p == q && op_at(data@, pos as int, op, q),
            OpOutcome::Unknown => r matches Ok((op, p)) && p == pos + 1 && op == Opcode::Unknown(data@[pos as int]),
            OpOutcome::Fatal => r matches Err(e) && e == DecodeError::Fatal,
        },
{
    proof {
        reveal(end_paint_same_oval);
        reveal(args_paint_same_oval);
    }
    let p0 = pos + 1;
    Ok((Opcode::PaintSameOval, p0))
}

/// Reads the operands of `EraseSameOval`.
fn read_erase_same_oval(data: &[u8], pos: usize, code: u8) -> (r: Result<(Opcode, usize), DecodeError>)
    requires
        pos + 1 <= data.len(),
        code == data@[pos as int],
        code == 0x5A,
    ensures
        match outcome(data@, pos as int) {
            OpOutcome::Eof => r matches Err(e) && e == DecodeError::Malformed,
            OpOutcome::Parsed(q) => r matches Ok((op, p)) && p == q && op_at(data@, pos as int, op, q),
            OpOutcome::Unknown => r matches Ok((op, p)) && p == pos + 1 && op == Opcode::Unknown(data@[pos as int]),
            OpOutcome::Fatal => r matches Err(e) && e == DecodeError::Fatal,
        },
{
    proof {
        reveal(end_erase_same_oval);
        reveal(args_erase_same_oval);
    }
    let p0 = pos + 1;
    Ok((Opcode::EraseSameOval, p0))
}

/// Reads the operands of `InvertSameOval`.
fn read_invert_same_oval(data: &[u8], pos: usize, code: u8) -> (r: Result<(Opcode, usize), DecodeError>)
    requires
        pos + 1 <= data.len(),
        code == data@[pos as int],
        code == 0x5B,
    ensures
        match outcome(data@, pos as int) {
            OpOutcome::Eof => r matches Err(e) && e == DecodeError::Malformed,
            OpOutcome::Parsed(q) => r matches Ok((op, p)) && p == q && op_at(data@, pos as int, op, q),
            OpOutcome::Unknown => r matches Ok((op, p)) && p == pos + 1 && op == Opcode::Unknown(data@[pos as int]),
            OpOutcome::Fatal => r matches Err(e) && e == DecodeError::Fatal,
        },
{
    proof {
        reveal(end_invert_same_oval);
        reveal(args_invert_same_oval);
    }
    let p0 = pos + 1;
    Ok((Opcode::InvertSameOval, p0))
}

/// Reads the operands of `FillSameOval`.
fn read_fill_same_oval(data: &[u8], pos: usize, code: u8) -> (r: Result<(Opcode, usize), DecodeError>)
    requires
        pos + 1 <= data.len(),
        code == data@[pos as int],
        code == 0x5C,
    ensures
        match outcome(data@, pos as int) {
            OpOutcome::Eof => r matches Err(e) && e == DecodeError::Malformed,
            OpOutcome::Parsed(q) => r matches Ok((op, p)) && p == q && op_at(data@, pos as int, op, q),
            OpOutcome::Unknown => r matches Ok((op, p)) && p == pos + 1 && op == Opcode::Unknown(data@[pos as int]),
            OpOutcome::Fatal => r matches Err(e) && e == DecodeError::Fatal,
        },
{
    proof {
        reveal(end_fill_same_oval);
        reveal(args_fill_same_oval);
    }
    let p0 = pos + 1;
    Ok((Opcode::FillSameOval, p0))
}

/// Reads the operands of `FrameArc`.
fn read_frame_arc(data: &[u8], pos: usize, code: u8) -> (r: Result<(Opcode, usize), DecodeError>)
    requires
        pos + 1 <= data.len(),
        code == data@[pos as int],
        code == 0x60,
    ensures
        match outcome(data@, pos as int) {
            OpOutcome::Eof => r matches Err(e) && e == DecodeError::Malformed,
            OpOutcome::Parsed(q) => r matches Ok((op, p)) && p == q && op_at(data@, pos as int, op, q),
            OpOutcome::Unknown => r matches Ok((op, p)) && p == pos + 1 && op == Opcode::Unknown(data@[pos as int]),
            OpOutcome::Fatal => r matches Err(e) && e == DecodeError::Fatal,
        },
{
    proof {
        reveal(end_frame_arc);
        reveal(args_frame_arc);
    }
    let p0 = pos + 1;
    let (f0, p1) = match field_rect(data, p0) {
        Some(x) => x,
        None => return Ok((Opcode::Unknown(code), p0)),
    };
    let (f1, p2) = match field_u16(data, p1) {
        Some(x) => x,
        None => return Ok((Opcode::Unknown(code), p0)),
    };
    let (f2, p3) = match field_u16(data, p2) {
        Some(x) => x,
        None => return Ok((Opcode::Unknown(code), p0)),
    };
    Ok((Opcode::FrameArc(f0, f1, f2), p3))
}

/// Reads the operands of `PaintArc`.
fn read_paint_arc(data: &[u8], pos: usize, code: u8) -> (r: Result<(Opcode, usize), DecodeError>)
    requires
        pos + 1 <= data.len(),
        code == data@[pos as int],
        code == 0x61,
    ensures
        match outcome(data@, pos as int) {
            OpOutcome::Eof => r matches Err(e) && e == DecodeError::Malformed,
            OpOutcome::Parsed(q) => r matches Ok((op, p)) && p == q && op_at(data@, pos as int, op, q),
            OpOutcome::Unknown => r matches Ok((op, p)) && p == pos + 1 && op == Opcode::Unknown(data@[pos as int]),
            OpOutcome::Fatal => r matches Err(e) && e == DecodeError::Fatal,
        },
{
    proof {
        reveal(end_paint_arc);
        reveal(args_paint_arc);
    }
    let p0 = pos + 1;
    let (f0, p1) = match field_rect(data, p0) {
        Some(x) => x,
        None => return Ok((Opcode::Unknown(code), p0)),
    };
    let (f1, p2) = match field_u16(data, p1) {
        Some(x) => x,
        None => return Ok((Opcode::Unknown(code), p0)),
    };
    let (f2, p3) = match field_u16(data, p2) {
        Some(x) => x,
        None => return Ok((Opcode::Unknown(code), p0)),
    };
    Ok((Opcode::PaintArc(f0, f1, f2), p3))
}

/// Reads the operands of `EraseArc`.
fn read_erase_arc(data: &[u8], pos: usize, code: u8) -> (r: Result<(Opcode, usize), DecodeError>)
    requires
        pos + 1 <= data.len(),
        code == data@[pos as int],
        code == 0x62,
    ensures
        match outcome(data@, pos as int) {
            OpOutcome::Eof => r matches Err(e) && e == DecodeError::Malformed,
            OpOutcome::Parsed(q) => r matches Ok((op, p)) && p == q && op_at(data@, pos as int, op, q),
            OpOutcome::Unknown => r matches Ok((op, p)) && p == pos + 1 && op == Opcode::Unknown(data@[pos as int]),
            OpOutcome::Fatal => r matches Err(e) && e == DecodeError::Fatal,
        },
{
    proof {
        reveal(end_erase_arc);
        reveal(args_erase_arc);
    }
    let p0 = pos + 1;
    let (f0, p1) = match field_rect(data, p0) {
        Some(x) => x,
        None => return Ok((Opcode::Unknown(code), p0)),
    };
    let (f1, p2) = match field_u16(data, p1) {
        Some(x) => x,
        None => return Ok((Opcode::Unknown(code), p0)),
    };
    let (f2, p3) = match field_u16(data, p2) {
        Some(x) => x,
        None => return Ok((Opcode::Unknown(code), p0)),
    };
    Ok((Opcode::EraseArc(f0, f1, f2), p3))
}

/// Reads the operands of `InvertArc`.
fn read_invert_arc(data: &[u8], pos: usize, code: u8) -> (r: Result<(Opcode, usize), DecodeError>)
    requires
        pos + 1 <= data.len(),
        code == data@[pos as int],
        code == 0x63,
    ensures
        match outcome(data@, pos as int) {
            OpOutcome::Eof => r matches Err(e) && e == DecodeError::Malformed,
            OpOutcome::Parsed(q) => r matches Ok((op, p)) && p == q && op_at(data@, pos as int, op, q),
            OpOutcome::Unknown => r matches Ok((op, p)) && p == pos + 1 && op == Opcode::Unknown(data@[pos as int]),
            OpOutcome::Fatal => r matches Err(e) && e == DecodeError::Fatal,
        },
{
    proof {
        reveal(end_invert_arc);
        reveal(args_invert_arc);
    }
    let p0 = pos + 1;
    let (f0, p1) = match field_rect(data, p0) {
        Some(x) => x,
        None => return Ok((Opcode::Unknown(code), p0)),
    };
    let (f1, p2) = match field_u16(data, p1) {
        Some(x) => x,
        None => return Ok((Opcode::Unknown(code), p0)),
    };
    let (f2, p3) = match field_u16(data, p2) {
        Some(x) => x,
        None => return Ok((Opcode::Unknown(code), p0)),
    };
    Ok((Opcode::InvertArc(f0, f1, f2), p3))
}

/// Reads the operands of `FillArc`.
fn read_fill_arc(data: &[u8], pos: usize, code: u8) -> (r: Result<(Opcode, usize), DecodeError>)
    requires
        pos + 1 <= data.len(),
        code == data@[pos as int],
        code == 0x64,
    ensures
        match outcome(data@, pos as int) {
            OpOutcome::Eof => r matches Err(e) && e == DecodeError::Malformed,
            OpOutcome::Parsed(q) => r matches Ok((op, p)) && p == q && op_at(data@, pos as int, op, q),
            OpOutcome::Unknown => r matches Ok((op, p)) && p == pos + 1 && op == Opcode::Unknown(data@[pos as int]),
            OpOutcome::Fatal => r matches Err(e) && e == DecodeError::Fatal,
        },
{
    proof {
        reveal(end_fill_arc);
        reveal(args_fill_arc);
    }
    let p0 = pos + 1;
    let (f0, p1) = match field_rect(data, p0) {
        Some(x) => x,
        None => return Ok((Opcode::Unknown(code), p0)),
    };
    let (f1, p2) = match field_u16(data, p1) {
        Some(x) => x,
        None => return Ok((Opcode::Unknown(code), p0)),
    };
    let (f2, p3) = match field_u16(data, p2) {
        Some(x) => x,
        None => return Ok((Opcode::Unknown(code), p0)),
    };
    Ok((Opcode::FillArc(f0, f1, f2), p3))
}

/// Reads the operands of `FrameSameArc`.
fn read_frame_same_arc(data: &[u8], pos: usize, code: u8) -> (r: Result<(Opcode, usize), DecodeError>)
    requires
        pos + 1 <= data.len(),
        code == data@[pos as int],
        code == 0x68,
    ensures
        match outcome(data@, pos as int) {
            OpOutcome::Eof => r matches Err(e) && e == DecodeError::Malformed,
            OpOutcome::Parsed(q) => r matches Ok((op, p)) && p == q && op_at(data@, pos as int, op, q),
            OpOutcome::Unknown => r matches Ok((op, p)) && p == pos + 1 && op == Opcode::Unknown(data@[pos as int]),
            OpOutcome::Fatal => r matches Err(e) && e == DecodeError::Fatal,
        },
{
    proof {
        reveal(end_frame_same_arc);
        reveal(args_frame_same_arc);
    }
    let p0 = pos + 1;
    let (f0, p1) = match field_u16(data, p0) {
        Some(x) => x,
        None => return Ok((Opcode::Unknown(code), p0)),
    };
    let (f1, p2) = match field_u16(data, p1) {
        Some(x) => x,
        None => return Ok((Opcode::Unknown(code), p0)),
    };
    Ok((Opcode::FrameSameArc(f0, f1), p2))
}

/// Reads the operands of `PaintSameArc`.
fn read_paint_same_arc(data: &[u8], pos: usize, code: u8) -> (r: Result<(Opcode, usize), DecodeError>)
    requires
        pos + 1 <= data.len(),
        code == data@[pos as int],
        code == 0x69,
    ensures
        match outcome(data@, pos as int) {
            OpOutcome::Eof => r matches Err(e) && e == DecodeError::Malformed,
            OpOutcome::Parsed(q) => r matches Ok((op, p)) && p == q && op_at(data@, pos as int, op, q),
            OpOutcome::Unknown => r matches Ok((op, p)) && p == pos + 1 && op == Opcode::Unknown(data@[pos as int]),
            OpOutcome::Fatal => r matches Err(e) && e == DecodeError::Fatal,
        },
{
    proof {
        reveal(end_paint_same_arc);
        reveal(args_paint_same_arc);
    }
    let p0 = pos + 1;
    let (f0, p1) = match field_u16(data, p0) {
        Some(x) => x,
        None => return Ok((Opcode::Unknown(code), p0)),
    };
    let (f1, p2) = match field_u16(data, p1) {
        Some(x) => x,
        None => return Ok((Opcode::Unknown(code), p0)),
    };
    Ok((Opcode::PaintSameArc(f0, f1), p2))
}

/// Reads the operands of `EraseSameArc`.
fn read_erase_same_arc(data: &[u8], pos: usize, code: u8) -> (r: Result<(Opcode, usize), DecodeError>)
    requires
        pos + 1 <= data.len(),
        code == data@[pos as int],
        code == 0x6A,
    ensures
        match outcome(data@, pos as int) {
            OpOutcome::Eof => r matches Err(e) && e == DecodeError::Malformed,
            OpOutcome::Parsed(q) => r matches Ok((op, p)) && p == q && op_at(data@, pos as int, op, q),
            OpOutcome::Unknown => r matches Ok((op, p)) && p == pos + 1 && op == Opcode::Unknown(data@[pos as int]),
            OpOutcome::Fatal => r matches Err(e) && e == DecodeError::Fatal,
        },
{
    proof {
        reveal(end_erase_same_arc);
        reveal(args_erase_same_arc);
    }
    let p0 = pos + 1;
    let (f0, p1) = match field_u16(data, p0) {
        Some(x) => x,
        None => return Ok((Opcode::Unknown(code), p0)),
    };
    let (f1, p2) = match field_u16(data, p1) {
        Some(x) => x,
        None => return Ok((Opcode::Unknown(code), p0)),
    };
    Ok((Opcode::EraseSameArc(f0, f1), p2))
}

/// Reads the operands of `InvertSameArc`.
fn read_invert_same_arc(data: &[u8], pos: usize, code: u8) -> (r: Result<(Opcode, usize), DecodeError>)
    requires
        pos + 1 <= data.len(),
        code == data@[pos as int],
        code == 0x6B,
    ensures
        match outcome(data@, pos as int) {
            OpOutcome::Eof => r matches Err(e) && e == DecodeError::Malformed,
            OpOutcome::Parsed(q) => r matches Ok((op, p)) && p == q && op_at(data@, pos as int, op, q),
            OpOutcome::Unknown => r matches Ok((op, p)) && p == pos + 1 && op == Opcode::Unknown(data@[pos as int]),
            OpOutcome::Fatal => r matches Err(e) && e == DecodeError::Fatal,
        },
{
    proof {
        reveal(end_invert_same_arc);
        reveal(args_invert_same_arc);
    }
    let p0 = pos + 1;
    let (f0, p1) = match field_u16(data, p0) {
        Some(x) => x,
        None => return Ok((Opcode::Unknown(code), p0)),
    };
    let (f1, p2) = match field_u16(data, p1) {
        Some(x) => x,
        None => return Ok((Opcode::Unknown(code), p0)),
    };
    Ok((Opcode::InvertSameArc(f0, f1), p2))
}

/// Reads the operands of `FillSameArc`.
fn read_fill_same_arc(data: &[u8], pos: usize, code: u8) -> (r: Result<(Opcode, usize), DecodeError>)
    requires
        pos + 1 <= data.len(),
        code == data@[pos as int],
        code == 0x6C,
    ensures
        match outcome(data@, pos as int) {
            OpOutcome::Eof => r matches Err(e) && e == DecodeError::Malformed,
            OpOutcome::Parsed(q) => r matches Ok((op, p)) && p == q && op_at(data@, pos as int, op, q),
            OpOutcome::Unknown => r matches Ok((op, p)) && p == pos + 1 && op == Opcode::Unknown(data@[pos as int]),
            OpOutcome::Fatal => r matches Err(e) && e == DecodeError::Fatal,
        },
{
    proof {
        reveal(end_fill_same_arc);
        reveal(args_fill_same_arc);
    }
    let p0 = pos + 1;
    let (f0, p1) = match field_u16(data, p0) {
        Some(x) => x,
        None => return Ok((Opcode::Unknown(code), p0)),
    };
    let (f1, p2) = match field_u16(data, p1) {
        Some(x) => x,
        None => return Ok((Opcode::Unknown(code), p0)),
    };
    Ok((Opcode::FillSameArc(f0, f1), p2))
}

/// Reads the operands of `FramePoly`.
fn read_frame_poly(data: &[u8], pos: usize, code: u8) -> (r: Result<(Opcode, usize), DecodeError>)
    requires
        pos + 1 <= data.len(),
        code == data@[pos as int],
        code == 0x70,
    ensures
        match outcome(data@, pos as int) {
            OpOutcome::Eof => r matches Err(e) && e == DecodeError::Malformed,
            OpOutcome::Parsed(q) => r matches Ok((op, p)) && p == q && op_at(data@, pos as int, op, q),
            OpOutcome::Unknown => r matches Ok((op, p)) && p == pos + 1 && op == Opcode::Unknown(data@[pos as int]),
            OpOutcome::Fatal => r matches Err(e) && e == DecodeError::Fatal,
        },
{
    proof {
        reveal(end_frame_poly);
        reveal(args_frame_poly);
    }
    let p0 = pos + 1;
    let (f0, p1) = match field_polygon(data, p0) {
        Ok(x) => x,
        Err(DecodeError::Fatal) => return Err(DecodeError::Fatal),
        Err(_) => return Ok((Opcode::Unknown(code), p0)),
    };
    Ok((Opcode::FramePoly(f0), p1))
}

/// Reads the operands of `PaintPoly`.
fn read_paint_poly(data: &[u8], pos: usize, code: u8) -> (r: Result<(Opcode, usize), DecodeError>)
    requires
        pos + 1 <= data.len(),
        code == data@[pos as int],
        code == 0x71,
    ensures
        match outcome(data@, pos as int) {
            OpOutcome::Eof => r matches Err(e) && e == DecodeError::Malformed,
            OpOutcome::Parsed(q) => r matches Ok((op, p)) && p == q && op_at(data@, pos as int, op, q),
            OpOutcome::Unknown => r matches Ok((op, p)) && p == pos + 1 && op == Opcode::Unknown(data@[pos as int]),
            OpOutcome::Fatal => r matches Err(e) && e == DecodeError::Fatal,
        },
{
    proof {
        reveal(end_paint_poly);
        reveal(args_paint_poly);
    }
    let p0 = pos + 1;
    let (f0, p1) = match field_polygon(data, p0) {
        Ok(x) => x,
        Err(DecodeError::Fatal) => return Err(DecodeError::Fatal),
        Err(_) => return Ok((Opcode::Unknown(code), p0)),
    };
    Ok((Opcode::PaintPoly(f0), p1))
}

/// Reads the operands of `ErasePoly`.
fn read_erase_poly(data: &[u8], pos: usize, code: u8) -> (r: Result<(Opcode, usize), DecodeError>)
    requires
        pos + 1 <= data.len(),
        code == data@[pos as int],
        code == 0x72,
    ensures
        match outcome(data@, pos as int) {
            OpOutcome::Eof => r matches Err(e) && e == DecodeError::Malformed,
            OpOutcome::Parsed(q) => r matches Ok((op, p)) && p == q && op_at(data@, pos as int, op, q),
            OpOutcome::Unknown => r matches Ok((op, p)) && p == pos + 1 && op == Opcode::Unknown(data@[pos as int]),
            OpOutcome::Fatal => r matches Err(e) && e == DecodeError::Fatal,
        },
{
    proof {
        reveal(end_erase_poly);
        reveal(args_erase_poly);
    }
    let p0 = pos + 1;
    let (f0, p1) = match field_polygon(data, p0) {
        Ok(x) => x,
        Err(DecodeError::Fatal) => return Err(DecodeError::Fatal),
        Err(_) => return Ok((Opcode::Unknown(code), p0)),
    };
    Ok((Opcode::ErasePoly(f0), p1))
}

/// Reads the operands of `InvertPoly`.
fn read_invert_poly(data: &[u8], pos: usize, code: u8) -> (r: Result<(Opcode, usize), DecodeError>)
    requires
        pos + 1 <= data.len(),
        code == data@[pos as int],
        code == 0x73,
    ensures
        match outcome(data@, pos as int) {
            OpOutcome::Eof => r matches Err(e) && e == DecodeError::Malformed,
            OpOutcome::Parsed(q) => r matches Ok((op, p)) && p == q && op_at(data@, pos as int, op, q),
            OpOutcome::Unknown => r matches Ok((op, p)) && p == pos + 1 && op == Opcode::Unknown(data@[pos as int]),
            OpOutcome::Fatal => r matches Err(e) && e == DecodeError::Fatal,
        },
{
    proof {
        reveal(end_invert_poly);
        reveal(args_invert_poly);
    }
    let p0 = pos + 1;
    let (f0, p1) = match field_polygon(data, p0) {
        Ok(x) => x,
        Err(DecodeError::Fatal) => return Err(DecodeError::Fatal),
        Err(_) => return Ok((Opcode::Unknown(code), p0)),
    };
    Ok((Opcode::InvertPoly(f0), p1))
}

/// Reads the operands of `FillPoly`.
fn read_fill_poly(data: &[u8], pos: usize, code: u8) -> (r: Result<(Opcode, usize), DecodeError>)
    requires
        pos + 1 <= data.len(),
        code == data@[pos as int],
        code == 0x74,
    ensures
        match outcome(data@, pos as int) {
            OpOutcome::Eof => r matches Err(e) && e == DecodeError::Malformed,
            OpOutcome::Parsed(q) => r matches Ok((op, p)) && p == q && op_at(data@, pos as int, op, q),
            OpOutcome::Unknown => r matches Ok((op, p)) && p == pos + 1 && op == Opcode::Unknown(data@[pos as int]),
            OpOutcome::Fatal => r matches Err(e) && e == DecodeError::Fatal,
        },
{
    proof {
        reveal(end_fill_poly);
        reveal(args_fill_poly);
    }
    let p0 = pos + 1;
    let (f0, p1) = match field_polygon(data, p0) {
        Ok(x) => x,
        Err(DecodeError::Fatal) => return Err(DecodeError::Fatal),
        Err(_) => return Ok((Opcode::Unknown(code), p0)),
    };
    Ok((Opcode::FillPoly(f0), p1))
}

/// Reads the operands of `FrameSamePoly`.
fn read_frame_same_poly(data: &[u8], pos: usize, code: u8) -> (r: Result<(Opcode, usize), DecodeError>)
    requires
        pos + 1 <= data.len(),
        code == data@[pos as int],
        code == 0x78,
    ensures
        match outcome(data@, pos as int) {
            OpOutcome::Eof => r matches Err(e) && e == DecodeError::Malformed,
            OpOutcome::Parsed(q) => r matches Ok((op, p)) && p == q && op_at(data@, pos as int, op, q),
            OpOutcome::Unknown => r matches Ok((op, p)) && p == pos + 1 && op == Opcode::Unknown(data@[pos as int]),
            OpOutcome::Fatal => r matches Err(e) && e == DecodeError::Fatal,
        },
{
    proof {
        reveal(end_frame_same_poly);
        reveal(args_frame_same_poly);
    }
    let p0 = pos + 1;
    Ok((Opcode::FrameSamePoly, p0))
}

/// Reads the operands of `PaintSamePoly`.
fn read_paint_same_poly(data: &[u8], pos: usize, code: u8) -> (r: Result<(Opcode, usize), DecodeError>)
    requires
        pos + 1 <= data.len(),
        code == data@[pos as int],
        code == 0x79,
    ensures
        match outcome(data@, pos as int) {
            OpOutcome::Eof => r matches Err(e) && e == DecodeError::Malformed,
            OpOutcome::Parsed(q) => r matches Ok((op, p)) && p == q && op_at(data@, pos as int, op, q),
            OpOutcome::Unknown => r matches Ok((op, p)) && p == pos + 1 && op == Opcode::Unknown(data@[pos as int]),
            OpOutcome::Fatal => r matches Err(e) && e == DecodeError::Fatal,
        },
{
    proof {
        reveal(end_paint_same_poly);
        reveal(args_paint_same_poly);
    }
    let p0 = pos + 1;
    Ok((Opcode::PaintSamePoly, p0))
}

/// Reads the operands of `EraseSamePoly`.
fn read_erase_same_poly(data: &[u8], pos: usize, code: u8) -> (r: Result<(Opcode, usize), DecodeError>)
    requires
        pos + 1 <= data.len(),
        code == data@[pos as int],
        code == 0x7A,
    ensures
        match outcome(data@, pos as int) {
            OpOutcome::Eof => r matches Err(e) && e == DecodeError::Malformed,
            OpOutcome::Parsed(q) => r matches Ok((op, p)) && p == q && op_at(data@, pos as int, op, q),
            OpOutcome::Unknown => r matches Ok((op, p)) && p == pos + 1 && op == Opcode::Unknown(data@[pos as int]),
            OpOutcome::Fatal => r matches Err(e) && e == DecodeError::Fatal,
        },
{
    proof {
        reveal(end_erase_same_poly);
        reveal(args_erase_same_poly);
    }
    let p0 = pos + 1;
    Ok((Opcode::EraseSamePoly, p0))
}

/// Reads the operands of `InvertSamePoly`.
fn read_invert_same_poly(data: &[u8], pos: usize, code: u8) -> (r: Result<(Opcode, usize), DecodeError>)
    requires
        pos + 1 <= data.len(),
        code == data@[pos as int],
        code == 0x7B,
    ensures
        match outcome(data@, pos as int) {
            OpOutcome::Eof => r matches Err(e) && e == DecodeError::Malformed,
            OpOutcome::Parsed(q) => r matches Ok((op, p)) && p == q && op_at(data@, pos as int, op, q),
            OpOutcome::Unknown => r matches Ok((op, p)) && p == pos + 1 && op == Opcode::Unknown(data@[pos as int]),
            OpOutcome::Fatal => r matches Err(e) && e == DecodeError::Fatal,
        },
{
    proof {
        reveal(end_invert_same_poly);
        reveal(args_invert_same_poly);
    }
    let p0 = pos + 1;
    Ok((Opcode::InvertSamePoly, p0))
}

/// Reads the operands of `FillSamePoly`.
fn read_fill_same_poly(data: &[u8], pos: usize, code: u8) -> (r: Result<(Opcode, usize), DecodeError>)
    requires
        pos + 1 <= data.len(),
        code == data@[pos as int],
        code == 0x7C,
    ensures
        match outcome(data@, pos as int) {
            OpOutcome::Eof => r matches Err(e) && e == DecodeError::Malformed,
            OpOutcome::Parsed(q) => r matches Ok((op, p)) && p == q && op_at(data@, pos as int, op, q),
            OpOutcome::Unknown => r matches Ok((op, p)) && p == pos + 1 && op == Opcode::Unknown(data@[pos as int]),
            OpOutcome::Fatal => r matches Err(e) && e == DecodeError::Fatal,
        },
{
    proof {
        reveal(end_fill_same_poly);
        reveal(args_fill_same_poly);
    }
    let p0 = pos + 1;
    Ok((Opcode::FillSamePoly, p0))
}

/// Reads the operands of `FrameRgn`.
fn read_frame_rgn(data: &[u8], pos: usize, code: u8) -> (r: Result<(Opcode, usize), DecodeError>)
    requires
        pos + 1 <= data.len(),
        code == data@[pos as int],
        code == 0x80,
    ensures
        match outcome(data@, pos as int) {
            OpOutcome::Eof => r matches Err(e) && e == DecodeError::Malformed,
            OpOutcome::Parsed(q) => r matches Ok((op, p)) && p == q && op_at(data@, pos as int, op, q),
            OpOutcome::Unknown => r matches Ok((op, p)) && p == pos + 1 && op == Opcode::Unknown(data@[pos as int]),
            OpOutcome::Fatal => r matches Err(e) && e == DecodeError::Fatal,
        },
{
    proof {
        reveal(end_frame_rgn);
        reveal(args_frame_rgn);
    }
    let p0 = pos + 1;
    let (f0, p1) = match field_region(data, p0) {
        Some(x) => x,
        None => return Ok((Opcode::Unknown(code), p0)),
    };
    Ok((Opcode::FrameRgn(f0), p1))
}

/// Reads the operands of `PaintRgn`.
fn read_paint_rgn(data: &[u8], pos: usize, code: u8) -> (r: Result<(Opcode, usize), DecodeError>)
    requires
        pos + 1 <= data.len(),
        code == data@[pos as int],
        code == 0x81,
    ensures
        match outcome(data@, pos as int) {
            OpOutcome::Eof => r matches Err(e) && e == DecodeError::Malformed,
            OpOutcome::Parsed(q) => r matches Ok((op, p)) && p == q && op_at(data@, pos as int, op, q),
            OpOutcome::Unknown => r matches Ok((op, p)) && p == pos + 1 && op == Opcode::Unknown(data@[pos as int]),
            OpOutcome::Fatal => r matches Err(e) && e == DecodeError::Fatal,
        },
{
    proof {
        reveal(end_paint_rgn);
        reveal(args_paint_rgn);
    }
    let p0 = pos + 1;
    let (f0, p1) = match field_region(data, p0) {
        Some(x) => x,
        None => return Ok((Opcode::Unknown(code), p0)),
    };
    Ok((Opcode::PaintRgn(f0), p1))
}

/// Reads the operands of `EraseRgn`.
fn read_erase_rgn(data: &[u8], pos: usize, code: u8) -> (r: Result<(Opcode, usize), DecodeError>)
    requires
        pos + 1 <= data.len(),
        code == data@[pos as int],
        code == 0x82,
    ensures
        match outcome(data@, pos as int) {
            OpOutcome::Eof => r matches Err(e) && e == DecodeError::Malformed,
            OpOutcome::Parsed(q) => r matches Ok((op, p)) && p == q && op_at(data@, pos as int, op, q),
            OpOutcome::Unknown => r matches Ok((op, p)) && p == pos + 1 && op == Opcode::Unknown(data@[pos as int]),
            OpOutcome::Fatal => r matches Err(e) && e == DecodeError::Fatal,
        },
{
    proof {
        reveal(end_erase_rgn);
        reveal(args_erase_rgn);
    }
    let p0 = pos + 1;
    let (f0, p1) = match field_region(data, p0) {
        Some(x) => x,
        None => return Ok((Opcode::Unknown(code), p0)),
    };
    Ok((Opcode::EraseRgn(f0), p1))
}

/// Reads the operands of `InvertRgn`.
fn read_invert_rgn(data: &[u8], pos: usize, code: u8) -> (r: Result<(Opcode, usize), DecodeError>)
    requires
        pos + 1 <= data.len(),
        code == data@[pos as int],
        code == 0x83,
    ensures
        match outcome(data@, pos as int) {
            OpOutcome::Eof => r matches Err(e) && e == DecodeError::Malformed,
            OpOutcome::Parsed(q) => r matches Ok((op, p)) && p == q && op_at(data@, pos as int, op, q),
            OpOutcome::Unknown => r matches Ok((op, p)) && p == pos + 1 && op == Opcode::Unknown(data@[pos as int]),
            OpOutcome::Fatal => r matches Err(e) && e == DecodeError::Fatal,
        },
{
    proof {
        reveal(end_invert_rgn);
        reveal(args_invert_rgn);
    }
    let p0 = pos + 1;
    let (f0, p1) = match field_region(data, p0) {
        Some(x) => x,
        None => return Ok((Opcode::Unknown(code), p0)),
    };
    Ok((Opcode::InvertRgn(f0), p1))
}

/// Reads the operands of `FillRgn`.
fn read_fill_rgn(data: &[u8], pos: usize, code: u8) -> (r: Result<(Opcode, usize), DecodeError>)
    requires
        pos + 1 <= data.len(),
        code == data@[pos as int],
        code == 0x84,
    ensures
        match outcome(data@, pos as int) {
            OpOutcome::Eof => r matches Err(e) && e == DecodeError::Malformed,
            OpOutcome::Parsed(q) => r matches Ok((op, p)) && p == q && op_at(data@, pos as int, op, q),
            OpOutcome::Unknown => r matches Ok((op, p)) && p == pos + 1 && op == Opcode::Unknown(data@[pos as int]),
            OpOutcome::Fatal => r matches Err(e) && e == DecodeError::Fatal,
        },
{
    proof {
        reveal(end_fill_rgn);
        reveal(args_fill_rgn);
    }
    let p0 = pos + 1;
    let (f0, p1) = match field_region(data, p0) {
        Some(x) => x,
        None => return Ok((Opcode::Unknown(code), p0)),
    };
    Ok((Opcode::FillRgn(f0), p1))
}

/// Reads the operands of `FrameSameRgn`.
fn read_frame_same_rgn(data: &[u8], pos: usize, code: u8) -> (r: Result<(Opcode, usize), DecodeError>)
    requires
        pos + 1 <= data.len(),
        code == data@[pos as int],
        code == 0x88,
    ensures
        match outcome(data@, pos as int) {
            OpOutcome::Eof => r matches Err(e) && e == DecodeError::Malformed,
            OpOutcome::Parsed(q) => r matches Ok((op, p)) && p == q && op_at(data@, pos as int, op, q),
            OpOutcome::Unknown => r matches Ok((op, p)) && p == pos + 1 && op == Opcode::Unknown(data@[pos as int]),
            OpOutcome::Fatal => r matches Err(e) && e == DecodeError::Fatal,
        },
{
    proof {
        reveal(end_frame_same_rgn);
        reveal(args_frame_same_rgn);
    }
    let p0 = pos + 1;
    Ok((Opcode::FrameSameRgn, p0))
}

/// Reads the operands of `PaintSameRgn`.
fn read_paint_same_rgn(data: &[u8], pos: usize, code: u8) -> (r: Result<(Opcode, usize), DecodeError>)
    requires
        pos + 1 <= data.len(),
        code == data@[pos as int],
        code == 0x89,
    ensures
        match outcome(data@, pos as int) {
            OpOutcome::Eof => r matches Err(e) && e == DecodeError::Malformed,
            OpOutcome::Parsed(q) => r matches Ok((op, p)) && p == q && op_at(data@, pos as int, op, q),
            OpOutcome::Unknown => r matches Ok((op, p)) && p == pos + 1 && op == Opcode::Unknown(data@[pos as int]),
            OpOutcome::Fatal => r matches Err(e) && e == DecodeError::Fatal,
        },
{
    proof {
        reveal(end_paint_same_rgn);
        reveal(args_paint_same_rgn);
    }
    let p0 = pos + 1;
    Ok((Opcode::PaintSameRgn, p0))
}

/// Reads the operands of `EraseSameRgn`.
fn read_erase_same_rgn(data: &[u8], pos: usize, code: u8) -> (r: Result<(Opcode, usize), DecodeError>)
    requires
        pos + 1 <= data.len(),
        code == data@[pos as int],
        code == 0x8A,
    ensures
        match outcome(data@, pos as int) {
            OpOutcome::Eof => r matches Err(e) && e == DecodeError::Malformed,
            OpOutcome::Parsed(q) => r matches Ok((op, p)) && p == q && op_at(data@, pos as int, op, q),
            OpOutcome::Unknown => r matches Ok((op, p)) && p == pos + 1 && op == Opcode::Unknown(data@[pos as int]),
            OpOutcome::Fatal => r matches Err(e) && e == DecodeError::Fatal,
        },
{
    proof {
        reveal(end_erase_same_rgn);
        reveal(args_erase_same_rgn);
    }
    let p0 = pos + 1;
    Ok((Opcode::EraseSameRgn, p0))
}

/// Reads the operands of `InvertSameRgn`.
fn read_invert_same_rgn(data: &[u8], pos: usize, code: u8) -> (r: Result<(Opcode, usize), DecodeError>)
    requires
        pos + 1 <= data.len(),
        code == data@[pos as int],
        code == 0x8B,
    ensures
        match outcome(data@, pos as int) {
            OpOutcome::Eof => r matches Err(e) && e == DecodeError::Malformed,
            OpOutcome::Parsed(q) => r matches Ok((op, p)) && p == q && op_at(data@, pos as int, op, q),
            OpOutcome::Unknown => r matches Ok((op, p)) && p == pos + 1 && op == Opcode::Unknown(data@[pos as int]),
            OpOutcome::Fatal => r matches Err(e) && e == DecodeError::Fatal,
        },
{
    proof {
        reveal(end_invert_same_rgn);
        reveal(args_invert_same_rgn);
    }
    let p0 = pos + 1;
    Ok((Opcode::InvertSameRgn, p0))
}

/// Reads the operands of `FillSameRgn`.
fn read_fill_same_rgn(data: &[u8], pos: usize, code: u8) -> (r: Result<(Opcode, usize), DecodeError>)
    requires
        pos + 1 <= data.len(),
        code == data@[pos as int],
        code == 0x8C,
    ensures
        match outcome(data@, pos as int) {
            OpOutcome::Eof => r matches Err(e) && e == DecodeError::Malformed,
            OpOutcome::Parsed(q) => r matches Ok((op, p)) && p == q && op_at(data@, pos as int, op, q),
            OpOutcome::Unknown => r matches Ok((op, p)) && p == pos + 1 && op == Opcode::Unknown(data@[pos as int]),
            OpOutcome::Fatal => r matches Err(e) && e == DecodeError::Fatal,
        },
{
    proof {
        reveal(end_fill_same_rgn);
        reveal(args_fill_same_rgn);
    }
    let p0 = pos + 1;
    Ok((Opcode::FillSameRgn, p0))
}

/// Reads the operands of `BitsRect`.
fn read_bits_rect(data: &[u8], pos: usize, code: u8) -> (r: Result<(Opcode, usize), DecodeError>)
    requires
        pos + 1 <= data.len(),
        code == data@[pos as int],
        code == 0x90,
    ensures
        match outcome(data@, pos as int) {
            OpOutcome::Eof => r matches Err(e) && e == DecodeError::Malformed,
            OpOutcome::Parsed(q) => r matches Ok((op, p)) && p == q && op_at(data@, pos as int, op, q),
            OpOutcome::Unknown => r matches Ok((op, p)) && p == pos + 1 && op == Opcode::Unknown(data@[pos as int]),
            OpOutcome::Fatal => r matches Err(e) && e == DecodeError::Fatal,
        },
{
    proof {
        reveal(end_bits_rect);
        reveal(args_bits_rect);
    }
    let p0 = pos + 1;
    let (f0, p1) = match field_copy_bits(data, p0, false, false, false) {
        Ok(x) => x,
        Err(DecodeError::Fatal) => return Err(DecodeError::Fatal),
        Err(_) => return Ok((Opcode::Unknown(code), p0)),
    };
    Ok((Opcode::BitsRect(f0), p1))
}

/// Reads the operands of `BitsRgn`.
fn read_bits_rgn(data: &[u8], pos: usize, code: u8) -> (r: Result<(Opcode, usize), DecodeError>)
    requires
        pos + 1 <= data.len(),
        code == data@[pos as int],
        code == 0x91,
    ensures
        match outcome(data@, pos as int) {
            OpOutcome::Eof => r matches Err(e) && e == DecodeError::Malformed,
            OpOutcome::Parsed(q) => r matches Ok((op, p)) && p == q && op_at(data@, pos as int, op, q),
            OpOutcome::Unknown => r matches Ok((op, p)) && p == pos + 1 && op == Opcode::Unknown(data@[pos as int]),
            OpOutcome::Fatal => r matches Err(e) && e == DecodeError::Fatal,
        },
{
    proof {
        reveal(end_bits_rgn);
        reveal(args_bits_rgn);
    }
    let p0 = pos + 1;
    let (f0, p1) = match field_copy_bits(data, p0, false, true, false) {
        Ok(x) => x,
        Err(DecodeError::Fatal) => return Err(DecodeError::Fatal),
        Err(_) => return Ok((Opcode::Unknown(code), p0)),
    };
    Ok((Opcode::BitsRgn(f0), p1))
}

/// Reads the operands of `PackBitsRect`.
fn read_pack_bits_rect(data: &[u8], pos: usize, code: u8) -> (r: Result<(Opcode, usize), DecodeError>)
    requires
        pos + 1 <= data.len(),
        code == data@[pos as int],
        code == 0x98,
    ensures
        match outcome(data@, pos as int) {
            OpOutcome::Eof => r matches Err(e) && e == DecodeError::Malformed,
            OpOutcome::Parsed(q) => r matches Ok((op, p)) && p == q && op_at(data@, pos as int, op, q),
            OpOutcome::Unknown => r matches Ok((op, p)) && p == pos + 1 && op == Opcode::Unknown(data@[pos as int]),
            OpOutcome::Fatal => r matches Err(e) && e == DecodeError::Fatal,
        },
{
    proof {
        reveal(end_pack_bits_rect);
        reveal(args_pack_bits_rect);
    }
    let p0 = pos + 1;
    let (f0, p1) = match field_copy_bits(data, p0, true, false, false) {
        Ok(x) => x,
        Err(DecodeError::Fatal) => return Err(DecodeError::Fatal),
        Err(_) => return Ok((Opcode::Unknown(code), p0)),
    };
    Ok((Opcode::PackBitsRect(f0), p1))
}

/// Reads the operands of `PackBitsRgn`.
fn read_pack_bits_rgn(data: &[u8], pos: usize, code: u8) -> (r: Result<(Opcode, usize), DecodeError>)
    requires
        pos + 1 <= data.len(),
        code == data@[pos as int],
        code == 0x99,
    ensures
        match outcome(data@, pos as int) {
            OpOutcome::Eof => r matches Err(e) && e == DecodeError::Malformed,
            OpOutcome::Parsed(q) => r matches Ok((op, p)) && p == q && op_at(data@, pos as int, op, q),
            OpOutcome::Unknown => r matches Ok((op, p)) && p == pos + 1 && op == Opcode::Unknown(data@[pos as int]),
            OpOutcome::Fatal => r matches Err(e) && e == DecodeError::Fatal,
        },
{
    proof {
        reveal(end_pack_bits_rgn);
        reveal(args_pack_bits_rgn);
    }
    let p0 = pos + 1;
    let (f0, p1) = match field_copy_bits(data, p0, true, true, false) {
        Ok(x) => x,
        Err(DecodeError::Fatal) => return Err(DecodeError::Fatal),
        Err(_) => return Ok((Opcode::Unknown(code), p0)),
    };
    Ok((Opcode::PackBitsRgn(f0), p1))
}

/// Reads the operands of `ShortComment`.
fn read_short_comment(data: &[u8], pos: usize, code: u8) -> (r: Result<(Opcode, usize), DecodeError>)
    requires
        pos + 1 <= data.len(),
        code == data@[pos as int],
        code == 0xA0,
    ensures
        match outcome(data@, pos as int) {
            OpOutcome::Eof => r matches Err(e) && e == DecodeError::Malformed,
            OpOutcome::Parsed(q) => r matches Ok((op, p)) && p == q && op_at(data@, pos as int, op, q),
            OpOutcome::Unknown => r matches Ok((op, p)) && p == pos + 1 && op == Opcode::Unknown(data@[pos as int]),
            OpOutcome::Fatal => r matches Err(e) && e == DecodeError::Fatal,
        },
{
    proof {
        reveal(end_short_comment);
        reveal(args_short_comment);
    }
    let p0 = pos + 1;
    let (f0, p1) = match field_comment(data, p0) {
        Some(x) => x,
        None => return Ok((Opcode::Unknown(code), p0)),
    };
    Ok((Opcode::ShortComment(f0), p1))
}

/// Reads the operands of `LongComment`.
fn read_long_comment(data: &[u8], pos: usize, code: u8) -> (r: Result<(Opcode, usize), DecodeError>)
    requires
        pos + 1 <= data.len(),
        code == data@[pos as int],
        code == 0xA1,
    ensures
        match outcome(data@, pos as int) {
            OpOutcome::Eof => r matches Err(e) && e == DecodeError::Malformed,
            OpOutcome::Parsed(q) => r matches Ok((op, p)) && p == q && op_at(data@, pos as int, op, q),
            OpOutcome::Unknown => r matches Ok((op, p)) && p == pos + 1 && op == Opcode::Unknown(data@[pos as int]),
            OpOutcome::Fatal => r matches Err(e) && e == DecodeError::Fatal,
        },
{
    proof {
        reveal(end_long_comment);
        reveal(args_long_comment);
    }
    let p0 = pos + 1;
    let (f0, p1) = match field_comment(data, p0) {
        Some(x) => x,
        None => return Ok((Opcode::Unknown(code), p0)),
    };
    let (f1, p2) = match field_u16(data, p1) {
        Some(x) => x,
        None => return Ok((Opcode::Unknown(code), p0)),
    };
    let (f2, p3) = match field_bytes(data, p2, f1 as usize) {
        Some(x) => x,
        None => return Ok((Opcode::Unknown(code), p0)),
    };
    Ok((Opcode::LongComment(f0, f1, f2), p3))
}

/// Reads the operands of `EndOfPicture`.
fn read_end_of_picture(data: &[u8], pos: usize, code: u8) -> (r: Result<(Opcode, usize), DecodeError>)
    requires
        pos + 1 <= data.len(),
        code == data@[pos as int],
        code == 0xFF,
    ensures
        match outcome(data@, pos as int) {
            OpOutcome::Eof => r matches Err(e) && e == DecodeError::Malformed,
            OpOutcome::Parsed(q) => r matches Ok((op, p)) && p == q && op_at(data@, pos as int, op, q),
            OpOutcome::Unknown => r matches Ok((op, p)) && p == pos + 1 && op == Opcode::Unknown(data@[pos as int]),
            OpOutcome::Fatal => r matches Err(e) && e == DecodeError::Fatal,
        },
{
    proof {
        reveal(end_end_of_picture);
        reveal(args_end_of_picture);
    }
    let p0 = pos + 1;
    Ok((Opcode::EndOfPicture, p0))
}

/// Reads the opcode at `pos` and its operands: an opcode whose operands
/// cannot be read is `Unknown` and ends right after its code; a read past
/// the end is `Malformed`.
pub fn read_opcode(data: &[u8], pos: usize) -> (r: Result<(Opcode, usize), DecodeError>)
    ensures
        match outcome(data@, pos as int) {
            OpOutcome::Eof => r matches Err(e) && e == DecodeError::Malformed,
            OpOutcome::Parsed(q) => r matches Ok((op, p)) && p == q && op_at(data@, pos as int, op, q),
            OpOutcome::Unknown => r matches Ok((op, p)) && p == pos + 1 && op == Opcode::Unknown(data@[pos as int]),
            OpOutcome::Fatal => r matches Err(e) && e == DecodeError::Fatal,
        },
{
    let code = match get_u8(data, pos) {
        Some(c) => c,
        None => return Err(DecodeError::Malformed),
    };
    match code {
        0x00 => read_nop(data, pos, code),
        0x01 => read_clip_rgn(data, pos, code),
        0x02 => read_bk_pat(data, pos, code),
        0x03 => read_tx_font(data, pos, code),
        0x04 => read_tx_face(data, pos, code),
        0x05 => read_tx_mode(data, pos, code),
        0x06 => read_sp_extra(data, pos, code),
        0x07 => read_pn_size(data, pos, code),
        0x08 => read_pn_mode(data, pos, code),
        0x09 => read_pn_pat(data, pos, code),
        0x0A => read_fill_pat(data, pos, code),
        0x0B => read_ov_size(data, pos, code),
        0x0C => read_origin(data, pos, code),
        0x0D => read_tx_size(data, pos, code),
        0x0E => read_fg_color(data, pos, code),
        0x0F => read_bk_color(data, pos, code),
        0x10 => read_tx_ratio(data, pos, code),
        0x11 => read_pic_version(data, pos, code),
        0x20 => read_line(data, pos, code),
        0x21 => read_line_from(data, pos, code),
        0x22 => read_short_line(data, pos, code),
        0x23 => read_short_line_from(data, pos, code),
        0x28 => read_long_text(data, pos, code),
        0x29 => read_dh_text(data, pos, code),
        0x2A => read_dv_text(data, pos, code),
        0x2B => read_dhdv_text(data, pos, code),
        0x2C => read_set_font(data, pos, code),
        0x2E => read_glpyh_state(data, pos, code),
        0x30 => read_frame_rect(data, pos, code),
        0x31 => read_paint_rect(data, pos, code),
        0x32 => read_erase_rect(data, pos, code),
        0x33 => read_invert_rect(data, pos, code),
        0x34 => read_fill_rect(data, pos, code),
        0x38 => read_frame_same_rect(data, pos, code),
        0x39 => read_paint_same_rect(data, pos, code),
        0x3A => read_erase_same_rect(data, pos, code),
        0x3B => read_invert_same_rect(data, pos, code),
        0x3C => read_fill_same_rect(data, pos, code),
        0x40 => read_frame_r_rect(data, pos, code),
        0x41 => read_paint_r_rect(data, pos, code),
        0x42 => read_erase_r_rect(data, pos, code),
        0x43 => read_invert_r_rect(data, pos, code),
        0x44 => read_fill_r_rect(data, pos, code),
        0x48 => read_frame_same_r_rect(data, pos, code),
        0x49 => read_paint_same_r_rect(data, pos, code),
        0x4A => read_erase_same_r_rect(data, pos, code),
        0x4B => read_invert_same_r_rect(data, pos, code),
        0x4C => read_fill_same_r_rect(data, pos, code),
        0x50 => read_frame_oval(data, pos, code),
        0x51 => read_paint_oval(data, pos, code),
        0x52 => read_erase_oval(data, pos, code),
        0x53 => read_invert_oval(data, pos, code),
        0x54 => read_fill_oval(data, pos, code),
        0x58 => read_frame_same_oval(data, pos, code),
        0x59 => read_paint_same_oval(data, pos, code),
        0x5A => read_erase_same_oval(data, pos, code),
        0x5B => read_invert_same_oval(data, pos, code),
        0x5C => read_fill_same_oval(data, pos, code),
        0x60 => read_frame_arc(data, pos, code),
        0x61 => read_paint_arc(data, pos, code),
        0x62 => read_erase_arc(data, pos, code),
        0x63 => read_invert_arc(data, pos, code),
        0x64 => read_fill_arc(data, pos, code),
        0x68 => read_frame_same_arc(data, pos, code),
        0x69 => read_paint_same_arc(data, pos, code),
        0x6A => read_erase_same_arc(data, pos, code),
        0x6B => read_invert_same_arc(data, pos, code),
        0x6C => read_fill_same_arc(data, pos, code),
        0x70 => read_frame_poly(data, pos, code),
        0x71 => read_paint_poly(data, pos, code),
        0x72 => read_erase_poly(data, pos, code),
        0x73 => read_invert_poly(data, pos, code),
        0x74 => read_fill_poly(data, pos, code),
        0x78 => read_frame_same_poly(data, pos, code),
        0x79 => read_paint_same_poly(data, pos, code),
        0x7A => read_erase_same_poly(data, pos, code),
        0x7B => read_invert_same_poly(data, pos, code),
        0x7C => read_fill_same_poly(data, pos, code),
        0x80 => read_frame_rgn(data, pos, code),
        0x81 => read_paint_rgn(data, pos, code),
        0x82 => read_erase_rgn(data, pos, code),
        0x83 => read_invert_rgn(data, pos, code),
        0x84 => read_fill_rgn(data, pos, code),
        0x88 => read_frame_same_rgn(data, pos, code),
        0x89 => read_paint_same_rgn(data, pos, code),
        0x8A => read_erase_same_rgn(data, pos, code),
        0x8B => read_invert_same_rgn(data, pos, code),
        0x8C => read_fill_same_rgn(data, pos, code),
        0x90 => read_bits_rect(data, pos, code),
        0x91 => read_bits_rgn(data, pos, code),
        0x98 => read_pack_bits_rect(data, pos, code),
        0x99 => read_pack_bits_rgn(data, pos, code),
        0xA0 => read_short_comment(data, pos, code),
        0xA1 => read_long_comment(data, pos, code),
        0xFF => read_end_of_picture(data, pos, code),
        _ => Ok((Opcode::Unknown(code), pos + 1)),
    }
}

} // verus!
