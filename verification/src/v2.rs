//! PICT version 2 opcodes and their operands.

use vstd::prelude::*;
use crate::bytes::{be_u16, be_u32, get_u16};
use crate::shared::{Rect, Point, Fixed, RGBColor, Pattern, Polygon, ShortString, Long, DecodeError};
use crate::region::Region;
use crate::parse::{rect_at, point_at, fixed_at, rgb_at, region_at};
use crate::pixdata::Decoded;
use crate::records::{CommentKind, comment_kind_of, short_string_chars, Header, header_at};
use crate::copybits::{CopyBits, DirectBits, PixelPattern, pixel_pattern_end, pixel_pattern_fields};
use crate::fields::{OpOutcome, fixed_end, after, region_field_end, polygon_end, polygon_ok, string_end, copybits_end,
    copybits_ok, directbits_end, directbits_ok, field_u8, field_i8, field_u16, field_u32, field_point, field_rect,
    field_fixed, field_rgb, field_pattern, field_comment, field_header, field_bytes, field_array, field_region,
    field_short_string, field_polygon, field_copy_bits, field_direct_bits, field_pixel_pattern};

verus! {

/// PICT version 2 opcode: version 1 drawing commands plus color images,
/// pixmaps and more QuickDraw operations, with its operands.
#[derive(Debug)]
pub enum Opcode {
    /// No operation
    NOP,
    /// Clipping region
    Clip(Region),
    /// Background pattern
    BkPat(Pattern),
    /// Font number for text
    TxFont(u16),
    /// Text's font style
    TxFace(u8),
    /// Source mode
    TxMode(u16),
    /// Extra space (Fixed)
    SpExtra(Fixed),
    /// Pen size (Point)
    PnSize(Point),
    /// Pen mode
    PnMode(u16),
    /// Pen pattern
    PnPat(Pattern),
    /// Fill pattern
    FillPat(Pattern),
    /// Oval size
    OvSize(Point),
    /// dh, dv
    Origin(u16, u16),
    /// Text size
    TxSize(u16),
    /// Foreground color
    FgColor(Long),
    /// Background color
    BkColor(Long),
    /// Numerator (Point), denominator (Point)
    TxRatio(Point, Point),
    /// Version
    VersionOp,
    /// Background pixel pattern
    BkPixPat(PixelPattern),
    /// Pen pixel pattern
    PnPixPat(PixelPattern),
    /// Fill pixel pattern
    FillPixPat(PixelPattern),
    /// Fractional pen position (low word of a Fixed)
    PnLocHFrac(u16),
    /// Added width for non-space characters
    ChExtra(u16),
    /// Reserved, no data
    ReservedForAppleUse,
    /// Reserved, no data
    ReservedForAppleUse1,
    /// Reserved, no data
    ReservedForAppleUse2,
    /// Foreground color
    RGBFgColor(RGBColor),
    /// Background color
    RGBBkCol(RGBColor),
    /// Highlight mode flag: sent before a drawing operation that uses the highlight mode
    HiliteMode,
    /// Highlight color
    HiliteColor(RGBColor),
    /// Use default highlight color
    DefHilite,
    /// Opcolor
    OpColor(RGBColor),
    /// pnLoc (Point), newPt (Point)
    Line(Point, Point),
    /// newPt
    LineFrom(Point),
    /// pnLoc (Point), dh (-128..127), dv (-128..127)
    ShortLine(Point, i8, i8),
    /// dh (-128..127), dv (-128..127)
    ShortLineFrom(i8, i8),
    /// Data length (u16), data
    ReservedForAppleUse3(u16, Vec<u8>),
    /// Data length (u16), data
    ReservedForAppleUse4(u16, Vec<u8>),
    /// Data length (u16), data
    ReservedForAppleUse5(u16, Vec<u8>),
    /// Data length (u16), data
    ReservedForAppleUse6(u16, Vec<u8>),
    /// txLoc (Point), count (0..255), text
    LongText(Point, ShortString),
    /// dh (0..255), count (0..255), text
    DHText(u8, ShortString),
    /// dv (0..255), count (0..255), text
    DVText(u8, ShortString),
    /// dh (0..255), dv (0..255), count (0..255), text
    DHDVText(u8, u8, ShortString),
    /// Data length (u16), old font ID (u16), name length (0..255), font name
    FontName(u16, u16, ShortString),
    /// Operand data length (u16), intercharacter spacing (Fixed), total extra space for justification (Fixed)
    LineJustify(u16, Fixed, Fixed),
    /// Data length, then outline preferred, preserve glyph, fractional widths, scaling disabled
    GlyphState(u16, u8, u8, u8, u8),
    /// Data length (u16), data
    ReservedForAppleUse7(u16, Vec<u8>),
    /// Rectangle (Rect)
    FrameRect(Rect),
    /// Rectangle (Rect)
    PaintRect(Rect),
    /// Rectangle (Rect)
    EraseRect(Rect),
    /// Rectangle (Rect)
    InvertRect(Rect),
    /// Rectangle (Rect)
    FillRect(Rect),
    /// 8 bytes of data
    ReservedForAppleUse8(Rect),
    /// 8 bytes of data
    ReservedForAppleUse9(Rect),
    /// 8 bytes of data
    ReservedForAppleUse10(Rect),
    /// Rectangle (Rect)
    FrameSameRect,
    /// Rectangle (Rect)
    PaintSameRect,
    /// Rectangle (Rect)
    EraseSameRect,
    /// Rectangle (Rect)
    InvertSameRect,
    /// Rectangle (Rect)
    FillSameRect,
    /// Reserved, no data
    ReservedForAppleUse11,
    /// Reserved, no data
    ReservedForAppleUse12,
    /// Reserved, no data
    ReservedForAppleUse13,
    /// Rectangle (Rect)
    FrameRRect(Rect),
    /// Rectangle (Rect)
    PaintRRect(Rect),
    /// Rectangle (Rect)
    EraseRRect(Rect),
    /// Rectangle (Rect)
    InvertRRect(Rect),
    /// Rectangle (Rect)
    FillRRect(Rect),
    /// 8 bytes of data
    ReservedForAppleUse14(Rect),
    /// 8 bytes of data
    ReservedForAppleUse15(Rect),
    /// 8 bytes of data
    ReservedForAppleUse16(Rect),
    /// Rectangle (Rect)
    FrameSameRRect,
    /// Rectangle (Rect)
    PaintSameRRect,
    /// Rectangle (Rect)
    EraseSameRRect,
    /// Rectangle (Rect)
    InvertSameRRect,
    /// Rectangle (Rect)
    FillSameRRect,
    /// Reserved, no data
    ReservedForAppleUse17,
    /// Reserved, no data
    ReservedForAppleUse18,
    /// Reserved, no data
    ReservedForAppleUse19,
    /// Rectangle (Rect)
    FrameOval(Rect),
    /// Rectangle (Rect)
    PaintOval(Rect),
    /// Rectangle (Rect)
    EraseOval(Rect),
    /// Rectangle (Rect)
    InvertOval(Rect),
    /// Rectangle (Rect)
    FillOval(Rect),
    /// 8 bytes of data
    ReservedForAppleUse20(Rect),
    /// 8 bytes of data
    ReservedForAppleUse21(Rect),
    /// 8 bytes of data
    ReservedForAppleUse22(Rect),
    /// Rectangle (Rect)
    FrameSameOval,
    /// Rectangle (Rect)
    PaintSameOval,
    /// Rectangle (Rect)
    EraseSameOval,
    /// Rectangle (Rect)
    InvertSameOval,
    /// Rectangle (Rect)
    FillSameOval,
    /// Reserved, no data
    ReservedForAppleUse23,
    /// Reserved, no data
    ReservedForAppleUse24,
    /// Reserved, no data
    ReservedForAppleUse25,
    /// Rectangle (Rect), startAngle, arcAngle
    FrameArc(Rect, u16, u16),
    /// Rectangle (Rect), startAngle, arcAngle
    PaintArc(Rect, u16, u16),
    /// Rectangle (Rect), startAngle, arcAngle
    EraseArc(Rect, u16, u16),
    /// Rectangle (Rect), startAngle, arcAngle
    InvertArc(Rect, u16, u16),
    /// Rectangle (Rect), startAngle, arcAngle
    FillArc(Rect, u16, u16),
    /// 12 bytes of data
    ReservedForAppleUse26(Rect, u16, u16),
    /// 12 bytes of data
    ReservedForAppleUse27(Rect, u16, u16),
    /// 12 bytes of data
    ReservedForAppleUse28(Rect, u16, u16),
    /// startAngle, arcAngle
    FrameSameArc(u16, u16),
    /// startAngle, arcAngle
    PaintSameArc(u16, u16),
    /// startAngle, arcAngle
    EraseSameArc(u16, u16),
    /// startAngle, arcAngle
    InvertSameArc(u16, u16),
    /// startAngle, arcAngle
    FillSameArc(u16, u16),
    /// 4 bytes of data
    ReservedForAppleUse29(u16, u16),
    /// 4 bytes of data
    ReservedForAppleUse30(u16, u16),
    /// 4 bytes of data
    ReservedForAppleUse31(u16, u16),
    /// Polygon (Poly)
    FramePoly(Polygon),
    /// Polygon (Poly)
    PaintPoly(Polygon),
    /// Polygon (Poly)
    ErasePoly(Polygon),
    /// Polygon (Poly)
    InvertPoly(Polygon),
    /// Polygon (Poly)
    FillPoly(Polygon),
    /// Polygon (Poly)
    ReservedForAppleUse32(Polygon),
    /// Polygon (Poly)
    ReservedForAppleUse33(Polygon),
    /// Polygon (Poly)
    ReservedForAppleUse34(Polygon),
    /// (Not yet implemented)
    FrameSamePoly,
    /// (Not yet implemented)
    PaintSamePoly,
    /// (Not yet implemented)
    EraseSamePoly,
    /// (Not yet implemented)
    InvertSamePoly,
    /// (Not yet implemented)
    FillSamePoly,
    /// Reserved, no data
    ReservedForAppleUse35,
    /// Reserved, no data
    ReservedForAppleUse36,
    /// Reserved, no data
    ReservedForAppleUse37,
    /// Region (Rgn)
    FrameRgn(Region),
    /// Region (Rgn)
    PaintRgn(Region),
    /// Region (Rgn)
    EraseRgn(Region),
    /// Region (Rgn)
    InvertRgn(Region),
    /// Region (Rgn)
    FillRgn(Region),
    /// Region (Rgn)
    ReservedForAppleUse38(Region),
    /// Region (Rgn)
    ReservedForAppleUse39(Region),
    /// Region (Rgn)
    ReservedForAppleUse40(Region),
    /// (Not yet implemented)
    FrameSameRgn,
    /// (Not yet implemented)
    PaintSameRgn,
    /// (Not yet implemented)
    EraseSameRgn,
    /// (Not yet implemented)
    InvertSameRgn,
    /// (Not yet implemented)
    FillSameRgn,
    /// Reserved, no data
    ReservedForAppleUse41,
    /// Reserved, no data
    ReservedForAppleUse42,
    /// Reserved, no data
    ReservedForAppleUse43,
    /// CopyBits with clipped rectangle
    BitsRect(CopyBits),
    /// CopyBits with clipped region
    BitsRgn(CopyBits),
    /// Data length (u16), data
    ReservedForAppleUse44(u16, Vec<u8>),
    /// Data length (u16), data
    ReservedForAppleUse45(u16, Vec<u8>),
    /// Data length (u16), data
    ReservedForAppleUse46(u16, Vec<u8>),
    /// Data length (u16), data
    ReservedForAppleUse47(u16, Vec<u8>),
    /// Data length (u16), data
    ReservedForAppleUse48(u16, Vec<u8>),
    /// Data length (u16), data
    ReservedForAppleUse49(u16, Vec<u8>),
    /// Packed CopyBits with clipped rectangle
    PackBitsRect(CopyBits),
    /// Packed CopyBits with clipped region
    PackBitsRgn(CopyBits),
    /// PixMap, srcRect, dstRect, mode (u16), PixData
    DirectBitsRect(DirectBits),
    /// PixMap, srcRect, dstRect, mode (u16), maskRgn, PixData
    DirectBitsRgn(DirectBits),
    /// Data length (u16), data
    ReservedForAppleUse50(u16, Vec<u8>),
    /// Data length (u16), data
    ReservedForAppleUse51(u16, Vec<u8>),
    /// Data length (u16), data
    ReservedForAppleUse52(u16, Vec<u8>),
    /// Data length (u16), data
    ReservedForAppleUse53(u16, Vec<u8>),
    /// Kind (u16)
    ShortComment(CommentKind),
    /// Kind (u16), size (u16), data
    LongComment(CommentKind, u16, Vec<u8>),
    /// Data length (u16), data
    ReservedForAppleUse54(u16, Vec<u8>),
    /// Data length (u16), data
    ReservedForAppleUse55(u16, Vec<u8>),
    /// Reserved, no data
    ReservedForAppleUse56,
    /// Reserved, no data
    ReservedForAppleUse57,
    /// Data length (Long), data
    ReservedForAppleUse58(Long, Vec<u8>),
    /// Data length (Long), data
    ReservedForAppleUse59(Long, Vec<u8>),
    /// End of picture
    OpEndPic,
    /// 2 bytes of data
    ReservedForAppleUse60(u16),
    /// 2 bytes of data
    ReservedForAppleUse61(u16),
    /// 4 bytes of data
    ReservedForAppleUse62(u32),
    /// Version number of picture
    Version,
    /// 22 bytes of data
    ReservedForAppleUse63([u8; 22]),
    /// Extended version 2 header: version, reserved, resolutions, source rectangle, reserved
    HeaderOp(Header),
    /// 24 bytes of data
    ReservedForAppleUse64([u8; 24]),
    /// 254 bytes of data
    ReservedForAppleUse65([u8; 254]),
    /// 254 bytes of data
    ReservedForAppleUse66([u8; 254]),
    /// Reserved, no data
    ReservedForAppleUse67,
    /// Reserved, no data
    ReservedForAppleUse68,
    /// Data length (Long), data
    ReservedForAppleUse69(Long, Vec<u8>),
    /// Data length (Long), data (private to QuickTime)
    CompressedQuickTime(Long, Vec<u8>),
    /// Data length (Long), data (private to QuickTime)
    UncompressedQuickTime(Long, Vec<u8>),
    /// Data length (Long), data
    ReservedForAppleUse70(Long, Vec<u8>),
    /// Any other opcode, or one whose operands could not be read; it ends
    /// the picture.
    Unknown(u16),
}

/// How reading the operands of `NOP` at `p0` ends.
#[verifier::opaque]
pub open spec fn end_nop(s: Seq<u8>, p0: int) -> Decoded<()> {
    Decoded::Done((), p0)
}

/// Whether the operands of `NOP` at `p0` are the given ones, ending at `q`.
#[verifier::opaque]
pub open spec fn args_nop(s: Seq<u8>, p0: int, q: int) -> bool {
    &&& q == p0
}

/// How reading the operands of `Clip` at `p0` ends.
#[verifier::opaque]
pub open spec fn end_clip(s: Seq<u8>, p0: int) -> Decoded<()> {
    match region_field_end(s, p0) { Decoded::Done(_, p1) => Decoded::Done((), p1), d => d }
}

/// Whether the operands of `Clip` at `p0` are the given ones, ending at `q`.
#[verifier::opaque]
pub open spec fn args_clip(s: Seq<u8>, p0: int, f0: Region, q: int) -> bool {
    let p1 = after(region_field_end(s, p0));
    &&& region_at(s, p0, f0)
    &&& q == p1
}

/// How reading the operands of `BkPat` at `p0` ends.
#[verifier::opaque]
pub open spec fn end_bk_pat(s: Seq<u8>, p0: int) -> Decoded<()> {
    match fixed_end(s, p0, 8) { Decoded::Done(_, p1) => Decoded::Done((), p1), d => d }
}

/// Whether the operands of `BkPat` at `p0` are the given ones, ending at `q`.
#[verifier::opaque]
pub open spec fn args_bk_pat(s: Seq<u8>, p0: int, f0: Pattern, q: int) -> bool {
    let p1 = after(fixed_end(s, p0, 8));
    &&& f0.data@ == s.subrange(p0, p0 + 8)
    &&& q == p1
}

/// How reading the operands of `TxFont` at `p0` ends.
#[verifier::opaque]
pub open spec fn end_tx_font(s: Seq<u8>, p0: int) -> Decoded<()> {
    match fixed_end(s, p0, 2) { Decoded::Done(_, p1) => Decoded::Done((), p1), d => d }
}

/// Whether the operands of `TxFont` at `p0` are the given ones, ending at `q`.
#[verifier::opaque]
pub open spec fn args_tx_font(s: Seq<u8>, p0: int, f0: u16, q: int) -> bool {
    let p1 = after(fixed_end(s, p0, 2));
    &&& f0 == be_u16(s, p0)
    &&& q == p1
}

/// How reading the operands of `TxFace` at `p0` ends.
#[verifier::opaque]
pub open spec fn end_tx_face(s: Seq<u8>, p0: int) -> Decoded<()> {
    match fixed_end(s, p0, 1) { Decoded::Done(_, p1) => Decoded::Done((), p1), d => d }
}

/// Whether the operands of `TxFace` at `p0` are the given ones, ending at `q`.
#[verifier::opaque]
pub open spec fn args_tx_face(s: Seq<u8>, p0: int, f0: u8, q: int) -> bool {
    let p1 = after(fixed_end(s, p0, 1));
    &&& f0 == s[p0]
    &&& q == p1
}

/// How reading the operands of `TxMode` at `p0` ends.
#[verifier::opaque]
pub open spec fn end_tx_mode(s: Seq<u8>, p0: int) -> Decoded<()> {
    match fixed_end(s, p0, 2) { Decoded::Done(_, p1) => Decoded::Done((), p1), d => d }
}

/// Whether the operands of `TxMode` at `p0` are the given ones, ending at `q`.
#[verifier::opaque]
pub open spec fn args_tx_mode(s: Seq<u8>, p0: int, f0: u16, q: int) -> bool {
    let p1 = after(fixed_end(s, p0, 2));
    &&& f0 == be_u16(s, p0)
    &&& q == p1
}

/// How reading the operands of `SpExtra` at `p0` ends.
#[verifier::opaque]
pub open spec fn end_sp_extra(s: Seq<u8>, p0: int) -> Decoded<()> {
    match fixed_end(s, p0, 4) { Decoded::Done(_, p1) => Decoded::Done((), p1), d => d }
}

/// Whether the operands of `SpExtra` at `p0` are the given ones, ending at `q`.
#[verifier::opaque]
pub open spec fn args_sp_extra(s: Seq<u8>, p0: int, f0: Fixed, q: int) -> bool {
    let p1 = after(fixed_end(s, p0, 4));
    &&& f0 == fixed_at(s, p0)
    &&& q == p1
}

/// How reading the operands of `PnSize` at `p0` ends.
#[verifier::opaque]
pub open spec fn end_pn_size(s: Seq<u8>, p0: int) -> Decoded<()> {
    match fixed_end(s, p0, 4) { Decoded::Done(_, p1) => Decoded::Done((), p1), d => d }
}

/// Whether the operands of `PnSize` at `p0` are the given ones, ending at `q`.
#[verifier::opaque]
pub open spec fn args_pn_size(s: Seq<u8>, p0: int, f0: Point, q: int) -> bool {
    let p1 = after(fixed_end(s, p0, 4));
    &&& f0 == point_at(s, p0)
    &&& q == p1
}

/// How reading the operands of `PnMode` at `p0` ends.
#[verifier::opaque]
pub open spec fn end_pn_mode(s: Seq<u8>, p0: int) -> Decoded<()> {
    match fixed_end(s, p0, 2) { Decoded::Done(_, p1) => Decoded::Done((), p1), d => d }
}

/// Whether the operands of `PnMode` at `p0` are the given ones, ending at `q`.
#[verifier::opaque]
pub open spec fn args_pn_mode(s: Seq<u8>, p0: int, f0: u16, q: int) -> bool {
    let p1 = after(fixed_end(s, p0, 2));
    &&& f0 == be_u16(s, p0)
    &&& q == p1
}

/// How reading the operands of `PnPat` at `p0` ends.
#[verifier::opaque]
pub open spec fn end_pn_pat(s: Seq<u8>, p0: int) -> Decoded<()> {
    match fixed_end(s, p0, 8) { Decoded::Done(_, p1) => Decoded::Done((), p1), d => d }
}

/// Whether the operands of `PnPat` at `p0` are the given ones, ending at `q`.
#[verifier::opaque]
pub open spec fn args_pn_pat(s: Seq<u8>, p0: int, f0: Pattern, q: int) -> bool {
    let p1 = after(fixed_end(s, p0, 8));
    &&& f0.data@ == s.subrange(p0, p0 + 8)
    &&& q == p1
}

/// How reading the operands of `FillPat` at `p0` ends.
#[verifier::opaque]
pub open spec fn end_fill_pat(s: Seq<u8>, p0: int) -> Decoded<()> {
    match fixed_end(s, p0, 8) { Decoded::Done(_, p1) => Decoded::Done((), p1), d => d }
}

/// Whether the operands of `FillPat` at `p0` are the given ones, ending at `q`.
#[verifier::opaque]
pub open spec fn args_fill_pat(s: Seq<u8>, p0: int, f0: Pattern, q: int) -> bool {
    let p1 = after(fixed_end(s, p0, 8));
    &&& f0.data@ == s.subrange(p0, p0 + 8)
    &&& q == p1
}

/// How reading the operands of `OvSize` at `p0` ends.
#[verifier::opaque]
pub open spec fn end_ov_size(s: Seq<u8>, p0: int) -> Decoded<()> {
    match fixed_end(s, p0, 4) { Decoded::Done(_, p1) => Decoded::Done((), p1), d => d }
}

/// Whether the operands of `OvSize` at `p0` are the given ones, ending at `q`.
#[verifier::opaque]
pub open spec fn args_ov_size(s: Seq<u8>, p0: int, f0: Point, q: int) -> bool {
    let p1 = after(fixed_end(s, p0, 4));
    &&& f0 == point_at(s, p0)
    &&& q == p1
}

/// How reading the operands of `Origin` at `p0` ends.
#[verifier::opaque]
pub open spec fn end_origin(s: Seq<u8>, p0: int) -> Decoded<()> {
    match fixed_end(s, p0, 2) { Decoded::Done(_, p1) => match fixed_end(s, p1, 2) { Decoded::Done(_, p2) => Decoded::Done((), p2), d => d }, d => d }
}

/// Whether the operands of `Origin` at `p0` are the given ones, ending at `q`.
#[verifier::opaque]
pub open spec fn args_origin(s: Seq<u8>, p0: int, f0: u16, f1: u16, q: int) -> bool {
    let p1 = after(fixed_end(s, p0, 2));
    let p2 = after(fixed_end(s, p1, 2));
    &&& f0 == be_u16(s, p0)
    &&& f1 == be_u16(s, p1)
    &&& q == p2
}

/// How reading the operands of `TxSize` at `p0` ends.
#[verifier::opaque]
pub open spec fn end_tx_size(s: Seq<u8>, p0: int) -> Decoded<()> {
    match fixed_end(s, p0, 2) { Decoded::Done(_, p1) => Decoded::Done((), p1), d => d }
}

/// Whether the operands of `TxSize` at `p0` are the given ones, ending at `q`.
#[verifier::opaque]
pub open spec fn args_tx_size(s: Seq<u8>, p0: int, f0: u16, q: int) -> bool {
    let p1 = after(fixed_end(s, p0, 2));
    &&& f0 == be_u16(s, p0)
    &&& q == p1
}

/// How reading the operands of `FgColor` at `p0` ends.
#[verifier::opaque]
pub open spec fn end_fg_color(s: Seq<u8>, p0: int) -> Decoded<()> {
    match fixed_end(s, p0, 4) { Decoded::Done(_, p1) => Decoded::Done((), p1), d => d }
}

/// Whether the operands of `FgColor` at `p0` are the given ones, ending at `q`.
#[verifier::opaque]
pub open spec fn args_fg_color(s: Seq<u8>, p0: int, f0: Long, q: int) -> bool {
    let p1 = after(fixed_end(s, p0, 4));
    &&& f0 == be_u32(s, p0)
    &&& q == p1
}

/// How reading the operands of `BkColor` at `p0` ends.
#[verifier::opaque]
pub open spec fn end_bk_color(s: Seq<u8>, p0: int) -> Decoded<()> {
    match fixed_end(s, p0, 4) { Decoded::Done(_, p1) => Decoded::Done((), p1), d => d }
}

/// Whether the operands of `BkColor` at `p0` are the given ones, ending at `q`.
#[verifier::opaque]
pub open spec fn args_bk_color(s: Seq<u8>, p0: int, f0: Long, q: int) -> bool {
    let p1 = after(fixed_end(s, p0, 4));
    &&& f0 == be_u32(s, p0)
    &&& q == p1
}

/// How reading the operands of `TxRatio` at `p0` ends.
#[verifier::opaque]
pub open spec fn end_tx_ratio(s: Seq<u8>, p0: int) -> Decoded<()> {
    match fixed_end(s, p0, 4) { Decoded::Done(_, p1) => match fixed_end(s, p1, 4) { Decoded::Done(_, p2) => Decoded::Done((), p2), d => d }, d => d }
}

/// Whether the operands of `TxRatio` at `p0` are the given ones, ending at `q`.
#[verifier::opaque]
pub open spec fn args_tx_ratio(s: Seq<u8>, p0: int, f0: Point, f1: Point, q: int) -> bool {
    let p1 = after(fixed_end(s, p0, 4));
    let p2 = after(fixed_end(s, p1, 4));
    &&& f0 == point_at(s, p0)
    &&& f1 == point_at(s, p1)
    &&& q == p2
}

/// How reading the operands of `VersionOp` at `p0` ends.
#[verifier::opaque]
pub open spec fn end_version_op(s: Seq<u8>, p0: int) -> Decoded<()> {
    Decoded::Done((), p0)
}

/// Whether the operands of `VersionOp` at `p0` are the given ones, ending at `q`.
#[verifier::opaque]
pub open spec fn args_version_op(s: Seq<u8>, p0: int, q: int) -> bool {
    &&& q == p0
}

/// How reading the operands of `BkPixPat` at `p0` ends.
#[verifier::opaque]
pub open spec fn end_bk_pix_pat(s: Seq<u8>, p0: int) -> Decoded<()> {
    match pixel_pattern_end(s, p0) { Decoded::Done(_, p1) => Decoded::Done((), p1), d => d }
}

/// Whether the operands of `BkPixPat` at `p0` are the given ones, ending at `q`.
#[verifier::opaque]
pub open spec fn args_bk_pix_pat(s: Seq<u8>, p0: int, f0: PixelPattern, q: int) -> bool {
    let p1 = after(pixel_pattern_end(s, p0));
    &&& pixel_pattern_fields(s, p0, f0)
    &&& q == p1
}

/// How reading the operands of `PnPixPat` at `p0` ends.
#[verifier::opaque]
pub open spec fn end_pn_pix_pat(s: Seq<u8>, p0: int) -> Decoded<()> {
    match pixel_pattern_end(s, p0) { Decoded::Done(_, p1) => Decoded::Done((), p1), d => d }
}

/// Whether the operands of `PnPixPat` at `p0` are the given ones, ending at `q`.
#[verifier::opaque]
pub open spec fn args_pn_pix_pat(s: Seq<u8>, p0: int, f0: PixelPattern, q: int) -> bool {
    let p1 = after(pixel_pattern_end(s, p0));
    &&& pixel_pattern_fields(s, p0, f0)
    &&& q == p1
}

/// How reading the operands of `FillPixPat` at `p0` ends.
#[verifier::opaque]
pub open spec fn end_fill_pix_pat(s: Seq<u8>, p0: int) -> Decoded<()> {
    match pixel_pattern_end(s, p0) { Decoded::Done(_, p1) => Decoded::Done((), p1), d => d }
}

/// Whether the operands of `FillPixPat` at `p0` are the given ones, ending at `q`.
#[verifier::opaque]
pub open spec fn args_fill_pix_pat(s: Seq<u8>, p0: int, f0: PixelPattern, q: int) -> bool {
    let p1 = after(pixel_pattern_end(s, p0));
    &&& pixel_pattern_fields(s, p0, f0)
    &&& q == p1
}

/// How reading the operands of `PnLocHFrac` at `p0` ends.
#[verifier::opaque]
pub open spec fn end_pn_loc_h_frac(s: Seq<u8>, p0: int) -> Decoded<()> {
    match fixed_end(s, p0, 2) { Decoded::Done(_, p1) => Decoded::Done((), p1), d => d }
}

/// Whether the operands of `PnLocHFrac` at `p0` are the given ones, ending at `q`.
#[verifier::opaque]
pub open spec fn args_pn_loc_h_frac(s: Seq<u8>, p0: int, f0: u16, q: int) -> bool {
    let p1 = after(fixed_end(s, p0, 2));
    &&& f0 == be_u16(s, p0)
    &&& q == p1
}

/// How reading the operands of `ChExtra` at `p0` ends.
#[verifier::opaque]
pub open spec fn end_ch_extra(s: Seq<u8>, p0: int) -> Decoded<()> {
    match fixed_end(s, p0, 2) { Decoded::Done(_, p1) => Decoded::Done((), p1), d => d }
}

/// Whether the operands of `ChExtra` at `p0` are the given ones, ending at `q`.
#[verifier::opaque]
pub open spec fn args_ch_extra(s: Seq<u8>, p0: int, f0: u16, q: int) -> bool {
    let p1 = after(fixed_end(s, p0, 2));
    &&& f0 == be_u16(s, p0)
    &&& q == p1
}

/// How reading the operands of `ReservedForAppleUse` at `p0` ends.
#[verifier::opaque]
pub open spec fn end_reserved_for_apple_use(s: Seq<u8>, p0: int) -> Decoded<()> {
    Decoded::Done((), p0)
}

/// Whether the operands of `ReservedForAppleUse` at `p0` are the given ones, ending at `q`.
#[verifier::opaque]
pub open spec fn args_reserved_for_apple_use(s: Seq<u8>, p0: int, q: int) -> bool {
    &&& q == p0
}

/// How reading the operands of `ReservedForAppleUse1` at `p0` ends.
#[verifier::opaque]
pub open spec fn end_reserved_for_apple_use1(s: Seq<u8>, p0: int) -> Decoded<()> {
    Decoded::Done((), p0)
}

/// Whether the operands of `ReservedForAppleUse1` at `p0` are the given ones, ending at `q`.
#[verifier::opaque]
pub open spec fn args_reserved_for_apple_use1(s: Seq<u8>, p0: int, q: int) -> bool {
    &&& q == p0
}

/// How reading the operands of `ReservedForAppleUse2` at `p0` ends.
#[verifier::opaque]
pub open spec fn end_reserved_for_apple_use2(s: Seq<u8>, p0: int) -> Decoded<()> {
    Decoded::Done((), p0)
}

/// Whether the operands of `ReservedForAppleUse2` at `p0` are the given ones, ending at `q`.
#[verifier::opaque]
pub open spec fn args_reserved_for_apple_use2(s: Seq<u8>, p0: int, q: int) -> bool {
    &&& q == p0
}

/// How reading the operands of `RGBFgColor` at `p0` ends.
#[verifier::opaque]
pub open spec fn end_rgb_fg_color(s: Seq<u8>, p0: int) -> Decoded<()> {
    match fixed_end(s, p0, 6) { Decoded::Done(_, p1) => Decoded::Done((), p1), d => d }
}

/// Whether the operands of `RGBFgColor` at `p0` are the given ones, ending at `q`.
#[verifier::opaque]
pub open spec fn args_rgb_fg_color(s: Seq<u8>, p0: int, f0: RGBColor, q: int) -> bool {
    let p1 = after(fixed_end(s, p0, 6));
    &&& f0 == rgb_at(s, p0)
    &&& q == p1
}

/// How reading the operands of `RGBBkCol` at `p0` ends.
#[verifier::opaque]
pub open spec fn end_rgb_bk_col(s: Seq<u8>, p0: int) -> Decoded<()> {
    match fixed_end(s, p0, 6) { Decoded::Done(_, p1) => Decoded::Done((), p1), d => d }
}

/// Whether the operands of `RGBBkCol` at `p0` are the given ones, ending at `q`.
#[verifier::opaque]
pub open spec fn args_rgb_bk_col(s: Seq<u8>, p0: int, f0: RGBColor, q: int) -> bool {
    let p1 = after(fixed_end(s, p0, 6));
    &&& f0 == rgb_at(s, p0)
    &&& q == p1
}

/// How reading the operands of `HiliteMode` at `p0` ends.
#[verifier::opaque]
pub open spec fn end_hilite_mode(s: Seq<u8>, p0: int) -> Decoded<()> {
    Decoded::Done((), p0)
}

/// Whether the operands of `HiliteMode` at `p0` are the given ones, ending at `q`.
#[verifier::opaque]
pub open spec fn args_hilite_mode(s: Seq<u8>, p0: int, q: int) -> bool {
    &&& q == p0
}

/// How reading the operands of `HiliteColor` at `p0` ends.
#[verifier::opaque]
pub open spec fn end_hilite_color(s: Seq<u8>, p0: int) -> Decoded<()> {
    match fixed_end(s, p0, 6) { Decoded::Done(_, p1) => Decoded::Done((), p1), d => d }
}

/// Whether the operands of `HiliteColor` at `p0` are the given ones, ending at `q`.
#[verifier::opaque]
pub open spec fn args_hilite_color(s: Seq<u8>, p0: int, f0: RGBColor, q: int) -> bool {
    let p1 = after(fixed_end(s, p0, 6));
    &&& f0 == rgb_at(s, p0)
    &&& q == p1
}

/// How reading the operands of `DefHilite` at `p0` ends.
#[verifier::opaque]
pub open spec fn end_def_hilite(s: Seq<u8>, p0: int) -> Decoded<()> {
    Decoded::Done((), p0)
}

/// Whether the operands of `DefHilite` at `p0` are the given ones, ending at `q`.
#[verifier::opaque]
pub open spec fn args_def_hilite(s: Seq<u8>, p0: int, q: int) -> bool {
    &&& q == p0
}

/// How reading the operands of `OpColor` at `p0` ends.
#[verifier::opaque]
pub open spec fn end_op_color(s: Seq<u8>, p0: int) -> Decoded<()> {
    match fixed_end(s, p0, 6) { Decoded::Done(_, p1) => Decoded::Done((), p1), d => d }
}

/// Whether the operands of `OpColor` at `p0` are the given ones, ending at `q`.
#[verifier::opaque]
pub open spec fn args_op_color(s: Seq<u8>, p0: int, f0: RGBColor, q: int) -> bool {
    let p1 = after(fixed_end(s, p0, 6));
    &&& f0 == rgb_at(s, p0)
    &&& q == p1
}

/// How reading the operands of `Line` at `p0` ends.
#[verifier::opaque]
pub open spec fn end_line(s: Seq<u8>, p0: int) -> Decoded<()> {
    match fixed_end(s, p0, 4) { Decoded::Done(_, p1) => match fixed_end(s, p1, 4) { Decoded::Done(_, p2) => Decoded::Done((), p2), d => d }, d => d }
}

/// Whether the operands of `Line` at `p0` are the given ones, ending at `q`.
#[verifier::opaque]
pub open spec fn args_line(s: Seq<u8>, p0: int, f0: Point, f1: Point, q: int) -> bool {
    let p1 = after(fixed_end(s, p0, 4));
    let p2 = after(fixed_end(s, p1, 4));
    &&& f0 == point_at(s, p0)
    &&& f1 == point_at(s, p1)
    &&& q == p2
}

/// How reading the operands of `LineFrom` at `p0` ends.
#[verifier::opaque]
pub open spec fn end_line_from(s: Seq<u8>, p0: int) -> Decoded<()> {
    match fixed_end(s, p0, 4) { Decoded::Done(_, p1) => Decoded::Done((), p1), d => d }
}

/// Whether the operands of `LineFrom` at `p0` are the given ones, ending at `q`.
#[verifier::opaque]
pub open spec fn args_line_from(s: Seq<u8>, p0: int, f0: Point, q: int) -> bool {
    let p1 = after(fixed_end(s, p0, 4));
    &&& f0 == point_at(s, p0)
    &&& q == p1
}

/// How reading the operands of `ShortLine` at `p0` ends.
#[verifier::opaque]
pub open spec fn end_short_line(s: Seq<u8>, p0: int) -> Decoded<()> {
    match fixed_end(s, p0, 4) { Decoded::Done(_, p1) => match fixed_end(s, p1, 1) { Decoded::Done(_, p2) => match fixed_end(s, p2, 1) { Decoded::Done(_, p3) => Decoded::Done((), p3), d => d }, d => d }, d => d }
}

/// Whether the operands of `ShortLine` at `p0` are the given ones, ending at `q`.
#[verifier::opaque]
pub open spec fn args_short_line(s: Seq<u8>, p0: int, f0: Point, f1: i8, f2: i8, q: int) -> bool {
    let p1 = after(fixed_end(s, p0, 4));
    let p2 = after(fixed_end(s, p1, 1));
    let p3 = after(fixed_end(s, p2, 1));
    &&& f0 == point_at(s, p0)
    &&& f1 == s[p1] as i8
    &&& f2 == s[p2] as i8
    &&& q == p3
}

/// How reading the operands of `ShortLineFrom` at `p0` ends.
#[verifier::opaque]
pub open spec fn end_short_line_from(s: Seq<u8>, p0: int) -> Decoded<()> {
    match fixed_end(s, p0, 1) { Decoded::Done(_, p1) => match fixed_end(s, p1, 1) { Decoded::Done(_, p2) => Decoded::Done((), p2), d => d }, d => d }
}

/// Whether the operands of `ShortLineFrom` at `p0` are the given ones, ending at `q`.
#[verifier::opaque]
pub open spec fn args_short_line_from(s: Seq<u8>, p0: int, f0: i8, f1: i8, q: int) -> bool {
    let p1 = after(fixed_end(s, p0, 1));
    let p2 = after(fixed_end(s, p1, 1));
    &&& f0 == s[p0] as i8
    &&& f1 == s[p1] as i8
    &&& q == p2
}

/// How reading the operands of `ReservedForAppleUse3` at `p0` ends.
#[verifier::opaque]
pub open spec fn end_reserved_for_apple_use3(s: Seq<u8>, p0: int) -> Decoded<()> {
    match fixed_end(s, p0, 2) { Decoded::Done(_, p1) => match fixed_end(s, p1, be_u16(s, p0)) { Decoded::Done(_, p2) => Decoded::Done((), p2), d => d }, d => d }
}

/// Whether the operands of `ReservedForAppleUse3` at `p0` are the given ones, ending at `q`.
#[verifier::opaque]
pub open spec fn args_reserved_for_apple_use3(s: Seq<u8>, p0: int, f0: u16, f1: Vec<u8>, q: int) -> bool {
    let p1 = after(fixed_end(s, p0, 2));
    let p2 = after(fixed_end(s, p1, be_u16(s, p0)));
    &&& f0 == be_u16(s, p0)
    &&& f1@ == s.subrange(p1, p1 + be_u16(s, p0))
    &&& q == p2
}

/// How reading the operands of `ReservedForAppleUse4` at `p0` ends.
#[verifier::opaque]
pub open spec fn end_reserved_for_apple_use4(s: Seq<u8>, p0: int) -> Decoded<()> {
    match fixed_end(s, p0, 2) { Decoded::Done(_, p1) => match fixed_end(s, p1, be_u16(s, p0)) { Decoded::Done(_, p2) => Decoded::Done((), p2), d => d }, d => d }
}

/// Whether the operands of `ReservedForAppleUse4` at `p0` are the given ones, ending at `q`.
#[verifier::opaque]
pub open spec fn args_reserved_for_apple_use4(s: Seq<u8>, p0: int, f0: u16, f1: Vec<u8>, q: int) -> bool {
    let p1 = after(fixed_end(s, p0, 2));
    let p2 = after(fixed_end(s, p1, be_u16(s, p0)));
    &&& f0 == be_u16(s, p0)
    &&& f1@ == s.subrange(p1, p1 + be_u16(s, p0))
    &&& q == p2
}

/// How reading the operands of `ReservedForAppleUse5` at `p0` ends.
#[verifier::opaque]
pub open spec fn end_reserved_for_apple_use5(s: Seq<u8>, p0: int) -> Decoded<()> {
    match fixed_end(s, p0, 2) { Decoded::Done(_, p1) => match fixed_end(s, p1, be_u16(s, p0)) { Decoded::Done(_, p2) => Decoded::Done((), p2), d => d }, d => d }
}

/// Whether the operands of `ReservedForAppleUse5` at `p0` are the given ones, ending at `q`.
#[verifier::opaque]
pub open spec fn args_reserved_for_apple_use5(s: Seq<u8>, p0: int, f0: u16, f1: Vec<u8>, q: int) -> bool {
    let p1 = after(fixed_end(s, p0, 2));
    let p2 = after(fixed_end(s, p1, be_u16(s, p0)));
    &&& f0 == be_u16(s, p0)
    &&& f1@ == s.subrange(p1, p1 + be_u16(s, p0))
    &&& q == p2
}

/// How reading the operands of `ReservedForAppleUse6` at `p0` ends.
#[verifier::opaque]
pub open spec fn end_reserved_for_apple_use6(s: Seq<u8>, p0: int) -> Decoded<()> {
    match fixed_end(s, p0, 2) { Decoded::Done(_, p1) => match fixed_end(s, p1, be_u16(s, p0)) { Decoded::Done(_, p2) => Decoded::Done((), p2), d => d }, d => d }
}

/// Whether the operands of `ReservedForAppleUse6` at `p0` are the given ones, ending at `q`.
#[verifier::opaque]
pub open spec fn args_reserved_for_apple_use6(s: Seq<u8>, p0: int, f0: u16, f1: Vec<u8>, q: int) -> bool {
    let p1 = after(fixed_end(s, p0, 2));
    let p2 = after(fixed_end(s, p1, be_u16(s, p0)));
    &&& f0 == be_u16(s, p0)
    &&& f1@ == s.subrange(p1, p1 + be_u16(s, p0))
    &&& q == p2
}

/// How reading the operands of `LongText` at `p0` ends.
#[verifier::opaque]
pub open spec fn end_long_text(s: Seq<u8>, p0: int) -> Decoded<()> {
    match fixed_end(s, p0, 4) { Decoded::Done(_, p1) => match string_end(s, p1) { Decoded::Done(_, p2) => Decoded::Done((), p2), d => d }, d => d }
}

/// Whether the operands of `LongText` at `p0` are the given ones, ending at `q`.
#[verifier::opaque]
pub open spec fn args_long_text(s: Seq<u8>, p0: int, f0: Point, f1: ShortString, q: int) -> bool {
    let p1 = after(fixed_end(s, p0, 4));
    let p2 = after(string_end(s, p1));
    &&& f0 == point_at(s, p0)
    &&& f1.string@ == short_string_chars(s, p1)
    &&& q == p2
}

/// How reading the operands of `DHText` at `p0` ends.
#[verifier::opaque]
pub open spec fn end_dh_text(s: Seq<u8>, p0: int) -> Decoded<()> {
    match fixed_end(s, p0, 1) { Decoded::Done(_, p1) => match string_end(s, p1) { Decoded::Done(_, p2) => Decoded::Done((), p2), d => d }, d => d }
}

/// Whether the operands of `DHText` at `p0` are the given ones, ending at `q`.
#[verifier::opaque]
pub open spec fn args_dh_text(s: Seq<u8>, p0: int, f0: u8, f1: ShortString, q: int) -> bool {
    let p1 = after(fixed_end(s, p0, 1));
    let p2 = after(string_end(s, p1));
    &&& f0 == s[p0]
    &&& f1.string@ == short_string_chars(s, p1)
    &&& q == p2
}

/// How reading the operands of `DVText` at `p0` ends.
#[verifier::opaque]
pub open spec fn end_dv_text(s: Seq<u8>, p0: int) -> Decoded<()> {
    match fixed_end(s, p0, 1) { Decoded::Done(_, p1) => match string_end(s, p1) { Decoded::Done(_, p2) => Decoded::Done((), p2), d => d }, d => d }
}

/// Whether the operands of `DVText` at `p0` are the given ones, ending at `q`.
#[verifier::opaque]
pub open spec fn args_dv_text(s: Seq<u8>, p0: int, f0: u8, f1: ShortString, q: int) -> bool {
    let p1 = after(fixed_end(s, p0, 1));
    let p2 = after(string_end(s, p1));
    &&& f0 == s[p0]
    &&& f1.string@ == short_string_chars(s, p1)
    &&& q == p2
}

/// How reading the operands of `DHDVText` at `p0` ends.
#[verifier::opaque]
pub open spec fn end_dhdv_text(s: Seq<u8>, p0: int) -> Decoded<()> {
    match fixed_end(s, p0, 1) { Decoded::Done(_, p1) => match fixed_end(s, p1, 1) { Decoded::Done(_, p2) => match string_end(s, p2) { Decoded::Done(_, p3) => Decoded::Done((), p3), d => d }, d => d }, d => d }
}

/// Whether the operands of `DHDVText` at `p0` are the given ones, ending at `q`.
#[verifier::opaque]
pub open spec fn args_dhdv_text(s: Seq<u8>, p0: int, f0: u8, f1: u8, f2: ShortString, q: int) -> bool {
    let p1 = after(fixed_end(s, p0, 1));
    let p2 = after(fixed_end(s, p1, 1));
    let p3 = after(string_end(s, p2));
    &&& f0 == s[p0]
    &&& f1 == s[p1]
    &&& f2.string@ == short_string_chars(s, p2)
    &&& q == p3
}

/// How reading the operands of `FontName` at `p0` ends.
#[verifier::opaque]
pub open spec fn end_font_name(s: Seq<u8>, p0: int) -> Decoded<()> {
    match fixed_end(s, p0, 2) { Decoded::Done(_, p1) => match fixed_end(s, p1, 2) { Decoded::Done(_, p2) => match string_end(s, p2) { Decoded::Done(_, p3) => Decoded::Done((), p3), d => d }, d => d }, d => d }
}

/// Whether the operands of `FontName` at `p0` are the given ones, ending at `q`.
#[verifier::opaque]
pub open spec fn args_font_name(s: Seq<u8>, p0: int, f0: u16, f1: u16, f2: ShortString, q: int) -> bool {
    let p1 = after(fixed_end(s, p0, 2));
    let p2 = after(fixed_end(s, p1, 2));
    let p3 = after(string_end(s, p2));
    &&& f0 == be_u16(s, p0)
    &&& f1 == be_u16(s, p1)
    &&& f2.string@ == short_string_chars(s, p2)
    &&& q == p3
}

/// How reading the operands of `LineJustify` at `p0` ends.
#[verifier::opaque]
pub open spec fn end_line_justify(s: Seq<u8>, p0: int) -> Decoded<()> {
    match fixed_end(s, p0, 2) { Decoded::Done(_, p1) => match fixed_end(s, p1, 4) { Decoded::Done(_, p2) => match fixed_end(s, p2, 4) { Decoded::Done(_, p3) => Decoded::Done((), p3), d => d }, d => d }, d => d }
}

/// Whether the operands of `LineJustify` at `p0` are the given ones, ending at `q`.
#[verifier::opaque]
pub open spec fn args_line_justify(s: Seq<u8>, p0: int, f0: u16, f1: Fixed, f2: Fixed, q: int) -> bool {
    let p1 = after(fixed_end(s, p0, 2));
    let p2 = after(fixed_end(s, p1, 4));
    let p3 = after(fixed_end(s, p2, 4));
    &&& f0 == be_u16(s, p0)
    &&& f1 == fixed_at(s, p1)
    &&& f2 == fixed_at(s, p2)
    &&& q == p3
}

/// How reading the operands of `GlyphState` at `p0` ends.
#[verifier::opaque]
pub open spec fn end_glyph_state(s: Seq<u8>, p0: int) -> Decoded<()> {
    match fixed_end(s, p0, 2) { Decoded::Done(_, p1) => match fixed_end(s, p1, 1) { Decoded::Done(_, p2) => match fixed_end(s, p2, 1) { Decoded::Done(_, p3) => match fixed_end(s, p3, 1) { Decoded::Done(_, p4) => match fixed_end(s, p4, 1) { Decoded::Done(_, p5) => Decoded::Done((), p5), d => d }, d => d }, d => d }, d => d }, d => d }
}

/// Whether the operands of `GlyphState` at `p0` are the given ones, ending at `q`.
#[verifier::opaque]
pub open spec fn args_glyph_state(s: Seq<u8>, p0: int, f0: u16, f1: u8, f2: u8, f3: u8, f4: u8, q: int) -> bool {
    let p1 = after(fixed_end(s, p0, 2));
    let p2 = after(fixed_end(s, p1, 1));
    let p3 = after(fixed_end(s, p2, 1));
    let p4 = after(fixed_end(s, p3, 1));
    let p5 = after(fixed_end(s, p4, 1));
    &&& f0 == be_u16(s, p0)
    &&& f1 == s[p1]
    &&& f2 == s[p2]
    &&& f3 == s[p3]
    &&& f4 == s[p4]
    &&& q == p5
}

/// How reading the operands of `ReservedForAppleUse7` at `p0` ends.
#[verifier::opaque]
pub open spec fn end_reserved_for_apple_use7(s: Seq<u8>, p0: int) -> Decoded<()> {
    match fixed_end(s, p0, 2) { Decoded::Done(_, p1) => match fixed_end(s, p1, be_u16(s, p0)) { Decoded::Done(_, p2) => Decoded::Done((), p2), d => d }, d => d }
}

/// Whether the operands of `ReservedForAppleUse7` at `p0` are the given ones, ending at `q`.
#[verifier::opaque]
pub open spec fn args_reserved_for_apple_use7(s: Seq<u8>, p0: int, f0: u16, f1: Vec<u8>, q: int) -> bool {
    let p1 = after(fixed_end(s, p0, 2));
    let p2 = after(fixed_end(s, p1, be_u16(s, p0)));
    &&& f0 == be_u16(s, p0)
    &&& f1@ == s.subrange(p1, p1 + be_u16(s, p0))
    &&& q == p2
}

/// How reading the operands of `FrameRect` at `p0` ends.
#[verifier::opaque]
pub open spec fn end_frame_rect(s: Seq<u8>, p0: int) -> Decoded<()> {
    match fixed_end(s, p0, 8) { Decoded::Done(_, p1) => Decoded::Done((), p1), d => d }
}

/// Whether the operands of `FrameRect` at `p0` are the given ones, ending at `q`.
#[verifier::opaque]
pub open spec fn args_frame_rect(s: Seq<u8>, p0: int, f0: Rect, q: int) -> bool {
    let p1 = after(fixed_end(s, p0, 8));
    &&& f0 == rect_at(s, p0)
    &&& q == p1
}

/// How reading the operands of `PaintRect` at `p0` ends.
#[verifier::opaque]
pub open spec fn end_paint_rect(s: Seq<u8>, p0: int) -> Decoded<()> {
    match fixed_end(s, p0, 8) { Decoded::Done(_, p1) => Decoded::Done((), p1), d => d }
}

/// Whether the operands of `PaintRect` at `p0` are the given ones, ending at `q`.
#[verifier::opaque]
pub open spec fn args_paint_rect(s: Seq<u8>, p0: int, f0: Rect, q: int) -> bool {
    let p1 = after(fixed_end(s, p0, 8));
    &&& f0 == rect_at(s, p0)
    &&& q == p1
}

/// How reading the operands of `EraseRect` at `p0` ends.
#[verifier::opaque]
pub open spec fn end_erase_rect(s: Seq<u8>, p0: int) -> Decoded<()> {
    match fixed_end(s, p0, 8) { Decoded::Done(_, p1) => Decoded::Done((), p1), d => d }
}

/// Whether the operands of `EraseRect` at `p0` are the given ones, ending at `q`.
#[verifier::opaque]
pub open spec fn args_erase_rect(s: Seq<u8>, p0: int, f0: Rect, q: int) -> bool {
    let p1 = after(fixed_end(s, p0, 8));
    &&& f0 == rect_at(s, p0)
    &&& q == p1
}

/// How reading the operands of `InvertRect` at `p0` ends.
#[verifier::opaque]
pub open spec fn end_invert_rect(s: Seq<u8>, p0: int) -> Decoded<()> {
    match fixed_end(s, p0, 8) { Decoded::Done(_, p1) => Decoded::Done((), p1), d => d }
}

/// Whether the operands of `InvertRect` at `p0` are the given ones, ending at `q`.
#[verifier::opaque]
pub open spec fn args_invert_rect(s: Seq<u8>, p0: int, f0: Rect, q: int) -> bool {
    let p1 = after(fixed_end(s, p0, 8));
    &&& f0 == rect_at(s, p0)
    &&& q == p1
}

/// How reading the operands of `FillRect` at `p0` ends.
#[verifier::opaque]
pub open spec fn end_fill_rect(s: Seq<u8>, p0: int) -> Decoded<()> {
    match fixed_end(s, p0, 8) { Decoded::Done(_, p1) => Decoded::Done((), p1), d => d }
}

/// Whether the operands of `FillRect` at `p0` are the given ones, ending at `q`.
#[verifier::opaque]
pub open spec fn args_fill_rect(s: Seq<u8>, p0: int, f0: Rect, q: int) -> bool {
    let p1 = after(fixed_end(s, p0, 8));
    &&& f0 == rect_at(s, p0)
    &&& q == p1
}

/// How reading the operands of `ReservedForAppleUse8` at `p0` ends.
#[verifier::opaque]
pub open spec fn end_reserved_for_apple_use8(s: Seq<u8>, p0: int) -> Decoded<()> {
    match fixed_end(s, p0, 8) { Decoded::Done(_, p1) => Decoded::Done((), p1), d => d }
}

/// Whether the operands of `ReservedForAppleUse8` at `p0` are the given ones, ending at `q`.
#[verifier::opaque]
pub open spec fn args_reserved_for_apple_use8(s: Seq<u8>, p0: int, f0: Rect, q: int) -> bool {
    let p1 = after(fixed_end(s, p0, 8));
    &&& f0 == rect_at(s, p0)
    &&& q == p1
}

/// How reading the operands of `ReservedForAppleUse9` at `p0` ends.
#[verifier::opaque]
pub open spec fn end_reserved_for_apple_use9(s: Seq<u8>, p0: int) -> Decoded<()> {
    match fixed_end(s, p0, 8) { Decoded::Done(_, p1) => Decoded::Done((), p1), d => d }
}

/// Whether the operands of `ReservedForAppleUse9` at `p0` are the given ones, ending at `q`.
#[verifier::opaque]
pub open spec fn args_reserved_for_apple_use9(s: Seq<u8>, p0: int, f0: Rect, q: int) -> bool {
    let p1 = after(fixed_end(s, p0, 8));
    &&& f0 == rect_at(s, p0)
    &&& q == p1
}

/// How reading the operands of `ReservedForAppleUse10` at `p0` ends.
#[verifier::opaque]
pub open spec fn end_reserved_for_apple_use10(s: Seq<u8>, p0: int) -> Decoded<()> {
    match fixed_end(s, p0, 8) { Decoded::Done(_, p1) => Decoded::Done((), p1), d => d }
}

/// Whether the operands of `ReservedForAppleUse10` at `p0` are the given ones, ending at `q`.
#[verifier::opaque]
pub open spec fn args_reserved_for_apple_use10(s: Seq<u8>, p0: int, f0: Rect, q: int) -> bool {
    let p1 = after(fixed_end(s, p0, 8));
    &&& f0 == rect_at(s, p0)
    &&& q == p1
}

/// How reading the operands of `FrameSameRect` at `p0` ends.
#[verifier::opaque]
pub open spec fn end_frame_same_rect(s: Seq<u8>, p0: int) -> Decoded<()> {
    Decoded::Done((), p0)
}

/// Whether the operands of `FrameSameRect` at `p0` are the given ones, ending at `q`.
#[verifier::opaque]
pub open spec fn args_frame_same_rect(s: Seq<u8>, p0: int, q: int) -> bool {
    &&& q == p0
}

/// How reading the operands of `PaintSameRect` at `p0` ends.
#[verifier::opaque]
pub open spec fn end_paint_same_rect(s: Seq<u8>, p0: int) -> Decoded<()> {
    Decoded::Done((), p0)
}

/// Whether the operands of `PaintSameRect` at `p0` are the given ones, ending at `q`.
#[verifier::opaque]
pub open spec fn args_paint_same_rect(s: Seq<u8>, p0: int, q: int) -> bool {
    &&& q == p0
}

/// How reading the operands of `EraseSameRect` at `p0` ends.
#[verifier::opaque]
pub open spec fn end_erase_same_rect(s: Seq<u8>, p0: int) -> Decoded<()> {
    Decoded::Done((), p0)
}

/// Whether the operands of `EraseSameRect` at `p0` are the given ones, ending at `q`.
#[verifier::opaque]
pub open spec fn args_erase_same_rect(s: Seq<u8>, p0: int, q: int) -> bool {
    &&& q == p0
}

/// How reading the operands of `InvertSameRect` at `p0` ends.
#[verifier::opaque]
pub open spec fn end_invert_same_rect(s: Seq<u8>, p0: int) -> Decoded<()> {
    Decoded::Done((), p0)
}

/// Whether the operands of `InvertSameRect` at `p0` are the given ones, ending at `q`.
#[verifier::opaque]
pub open spec fn args_invert_same_rect(s: Seq<u8>, p0: int, q: int) -> bool {
    &&& q == p0
}

/// How reading the operands of `FillSameRect` at `p0` ends.
#[verifier::opaque]
pub open spec fn end_fill_same_rect(s: Seq<u8>, p0: int) -> Decoded<()> {
    Decoded::Done((), p0)
}

/// Whether the operands of `FillSameRect` at `p0` are the given ones, ending at `q`.
#[verifier::opaque]
pub open spec fn args_fill_same_rect(s: Seq<u8>, p0: int, q: int) -> bool {
    &&& q == p0
}

/// How reading the operands of `ReservedForAppleUse11` at `p0` ends.
#[verifier::opaque]
pub open spec fn end_reserved_for_apple_use11(s: Seq<u8>, p0: int) -> Decoded<()> {
    Decoded::Done((), p0)
}

/// Whether the operands of `ReservedForAppleUse11` at `p0` are the given ones, ending at `q`.
#[verifier::opaque]
pub open spec fn args_reserved_for_apple_use11(s: Seq<u8>, p0: int, q: int) -> bool {
    &&& q == p0
}

/// How reading the operands of `ReservedForAppleUse12` at `p0` ends.
#[verifier::opaque]
pub open spec fn end_reserved_for_apple_use12(s: Seq<u8>, p0: int) -> Decoded<()> {
    Decoded::Done((), p0)
}

/// Whether the operands of `ReservedForAppleUse12` at `p0` are the given ones, ending at `q`.
#[verifier::opaque]
pub open spec fn args_reserved_for_apple_use12(s: Seq<u8>, p0: int, q: int) -> bool {
    &&& q == p0
}

/// How reading the operands of `ReservedForAppleUse13` at `p0` ends.
#[verifier::opaque]
pub open spec fn end_reserved_for_apple_use13(s: Seq<u8>, p0: int) -> Decoded<()> {
    Decoded::Done((), p0)
}

/// Whether the operands of `ReservedForAppleUse13` at `p0` are the given ones, ending at `q`.
#[verifier::opaque]
pub open spec fn args_reserved_for_apple_use13(s: Seq<u8>, p0: int, q: int) -> bool {
    &&& q == p0
}

/// How reading the operands of `FrameRRect` at `p0` ends.
#[verifier::opaque]
pub open spec fn end_frame_r_rect(s: Seq<u8>, p0: int) -> Decoded<()> {
    match fixed_end(s, p0, 8) { Decoded::Done(_, p1) => Decoded::Done((), p1), d => d }
}

/// Whether the operands of `FrameRRect` at `p0` are the given ones, ending at `q`.
#[verifier::opaque]
pub open spec fn args_frame_r_rect(s: Seq<u8>, p0: int, f0: Rect, q: int) -> bool {
    let p1 = after(fixed_end(s, p0, 8));
    &&& f0 == rect_at(s, p0)
    &&& q == p1
}

/// How reading the operands of `PaintRRect` at `p0` ends.
#[verifier::opaque]
pub open spec fn end_paint_r_rect(s: Seq<u8>, p0: int) -> Decoded<()> {
    match fixed_end(s, p0, 8) { Decoded::Done(_, p1) => Decoded::Done((), p1), d => d }
}

/// Whether the operands of `PaintRRect` at `p0` are the given ones, ending at `q`.
#[verifier::opaque]
pub open spec fn args_paint_r_rect(s: Seq<u8>, p0: int, f0: Rect, q: int) -> bool {
    let p1 = after(fixed_end(s, p0, 8));
    &&& f0 == rect_at(s, p0)
    &&& q == p1
}

/// How reading the operands of `EraseRRect` at `p0` ends.
#[verifier::opaque]
pub open spec fn end_erase_r_rect(s: Seq<u8>, p0: int) -> Decoded<()> {
    match fixed_end(s, p0, 8) { Decoded::Done(_, p1) => Decoded::Done((), p1), d => d }
}

/// Whether the operands of `EraseRRect` at `p0` are the given ones, ending at `q`.
#[verifier::opaque]
pub open spec fn args_erase_r_rect(s: Seq<u8>, p0: int, f0: Rect, q: int) -> bool {
    let p1 = after(fixed_end(s, p0, 8));
    &&& f0 == rect_at(s, p0)
    &&& q == p1
}

/// How reading the operands of `InvertRRect` at `p0` ends.
#[verifier::opaque]
pub open spec fn end_invert_r_rect(s: Seq<u8>, p0: int) -> Decoded<()> {
    match fixed_end(s, p0, 8) { Decoded::Done(_, p1) => Decoded::Done((), p1), d => d }
}

/// Whether the operands of `InvertRRect` at `p0` are the given ones, ending at `q`.
#[verifier::opaque]
pub open spec fn args_invert_r_rect(s: Seq<u8>, p0: int, f0: Rect, q: int) -> bool {
    let p1 = after(fixed_end(s, p0, 8));
    &&& f0 == rect_at(s, p0)
    &&& q == p1
}

/// How reading the operands of `FillRRect` at `p0` ends.
#[verifier::opaque]
pub open spec fn end_fill_r_rect(s: Seq<u8>, p0: int) -> Decoded<()> {
    match fixed_end(s, p0, 8) { Decoded::Done(_, p1) => Decoded::Done((), p1), d => d }
}

/// Whether the operands of `FillRRect` at `p0` are the given ones, ending at `q`.
#[verifier::opaque]
pub open spec fn args_fill_r_rect(s: Seq<u8>, p0: int, f0: Rect, q: int) -> bool {
    let p1 = after(fixed_end(s, p0, 8));
    &&& f0 == rect_at(s, p0)
    &&& q == p1
}

/// How reading the operands of `ReservedForAppleUse14` at `p0` ends.
#[verifier::opaque]
pub open spec fn end_reserved_for_apple_use14(s: Seq<u8>, p0: int) -> Decoded<()> {
    match fixed_end(s, p0, 8) { Decoded::Done(_, p1) => Decoded::Done((), p1), d => d }
}

/// Whether the operands of `ReservedForAppleUse14` at `p0` are the given ones, ending at `q`.
#[verifier::opaque]
pub open spec fn args_reserved_for_apple_use14(s: Seq<u8>, p0: int, f0: Rect, q: int) -> bool {
    let p1 = after(fixed_end(s, p0, 8));
    &&& f0 == rect_at(s, p0)
    &&& q == p1
}

/// How reading the operands of `ReservedForAppleUse15` at `p0` ends.
#[verifier::opaque]
pub open spec fn end_reserved_for_apple_use15(s: Seq<u8>, p0: int) -> Decoded<()> {
    match fixed_end(s, p0, 8) { Decoded::Done(_, p1) => Decoded::Done((), p1), d => d }
}

/// Whether the operands of `ReservedForAppleUse15` at `p0` are the given ones, ending at `q`.
#[verifier::opaque]
pub open spec fn args_reserved_for_apple_use15(s: Seq<u8>, p0: int, f0: Rect, q: int) -> bool {
    let p1 = after(fixed_end(s, p0, 8));
    &&& f0 == rect_at(s, p0)
    &&& q == p1
}

/// How reading the operands of `ReservedForAppleUse16` at `p0` ends.
#[verifier::opaque]
pub open spec fn end_reserved_for_apple_use16(s: Seq<u8>, p0: int) -> Decoded<()> {
    match fixed_end(s, p0, 8) { Decoded::Done(_, p1) => Decoded::Done((), p1), d => d }
}

/// Whether the operands of `ReservedForAppleUse16` at `p0` are the given ones, ending at `q`.
#[verifier::opaque]
pub open spec fn args_reserved_for_apple_use16(s: Seq<u8>, p0: int, f0: Rect, q: int) -> bool {
    let p1 = after(fixed_end(s, p0, 8));
    &&& f0 == rect_at(s, p0)
    &&& q == p1
}

/// How reading the operands of `FrameSameRRect` at `p0` ends.
#[verifier::opaque]
pub open spec fn end_frame_same_r_rect(s: Seq<u8>, p0: int) -> Decoded<()> {
    Decoded::Done((), p0)
}

/// Whether the operands of `FrameSameRRect` at `p0` are the given ones, ending at `q`.
#[verifier::opaque]
pub open spec fn args_frame_same_r_rect(s: Seq<u8>, p0: int, q: int) -> bool {
    &&& q == p0
}

/// How reading the operands of `PaintSameRRect` at `p0` ends.
#[verifier::opaque]
pub open spec fn end_paint_same_r_rect(s: Seq<u8>, p0: int) -> Decoded<()> {
    Decoded::Done((), p0)
}

/// Whether the operands of `PaintSameRRect` at `p0` are the given ones, ending at `q`.
#[verifier::opaque]
pub open spec fn args_paint_same_r_rect(s: Seq<u8>, p0: int, q: int) -> bool {
    &&& q == p0
}

/// How reading the operands of `EraseSameRRect` at `p0` ends.
#[verifier::opaque]
pub open spec fn end_erase_same_r_rect(s: Seq<u8>, p0: int) -> Decoded<()> {
    Decoded::Done((), p0)
}

/// Whether the operands of `EraseSameRRect` at `p0` are the given ones, ending at `q`.
#[verifier::opaque]
pub open spec fn args_erase_same_r_rect(s: Seq<u8>, p0: int, q: int) -> bool {
    &&& q == p0
}

/// How reading the operands of `InvertSameRRect` at `p0` ends.
#[verifier::opaque]
pub open spec fn end_invert_same_r_rect(s: Seq<u8>, p0: int) -> Decoded<()> {
    Decoded::Done((), p0)
}

/// Whether the operands of `InvertSameRRect` at `p0` are the given ones, ending at `q`.
#[verifier::opaque]
pub open spec fn args_invert_same_r_rect(s: Seq<u8>, p0: int, q: int) -> bool {
    &&& q == p0
}

/// How reading the operands of `FillSameRRect` at `p0` ends.
#[verifier::opaque]
pub open spec fn end_fill_same_r_rect(s: Seq<u8>, p0: int) -> Decoded<()> {
    Decoded::Done((), p0)
}

/// Whether the operands of `FillSameRRect` at `p0` are the given ones, ending at `q`.
#[verifier::opaque]
pub open spec fn args_fill_same_r_rect(s: Seq<u8>, p0: int, q: int) -> bool {
    &&& q == p0
}

/// How reading the operands of `ReservedForAppleUse17` at `p0` ends.
#[verifier::opaque]
pub open spec fn end_reserved_for_apple_use17(s: Seq<u8>, p0: int) -> Decoded<()> {
    Decoded::Done((), p0)
}

/// Whether the operands of `ReservedForAppleUse17` at `p0` are the given ones, ending at `q`.
#[verifier::opaque]
pub open spec fn args_reserved_for_apple_use17(s: Seq<u8>, p0: int, q: int) -> bool {
    &&& q == p0
}

/// How reading the operands of `ReservedForAppleUse18` at `p0` ends.
#[verifier::opaque]
pub open spec fn end_reserved_for_apple_use18(s: Seq<u8>, p0: int) -> Decoded<()> {
    Decoded::Done((), p0)
}

/// Whether the operands of `ReservedForAppleUse18` at `p0` are the given ones, ending at `q`.
#[verifier::opaque]
pub open spec fn args_reserved_for_apple_use18(s: Seq<u8>, p0: int, q: int) -> bool {
    &&& q == p0
}

/// How reading the operands of `ReservedForAppleUse19` at `p0` ends.
#[verifier::opaque]
pub open spec fn end_reserved_for_apple_use19(s: Seq<u8>, p0: int) -> Decoded<()> {
    Decoded::Done((), p0)
}

/// Whether the operands of `ReservedForAppleUse19` at `p0` are the given ones, ending at `q`.
#[verifier::opaque]
pub open spec fn args_reserved_for_apple_use19(s: Seq<u8>, p0: int, q: int) -> bool {
    &&& q == p0
}

/// How reading the operands of `FrameOval` at `p0` ends.
#[verifier::opaque]
pub open spec fn end_frame_oval(s: Seq<u8>, p0: int) -> Decoded<()> {
    match fixed_end(s, p0, 8) { Decoded::Done(_, p1) => Decoded::Done((), p1), d => d }
}

/// Whether the operands of `FrameOval` at `p0` are the given ones, ending at `q`.
#[verifier::opaque]
pub open spec fn args_frame_oval(s: Seq<u8>, p0: int, f0: Rect, q: int) -> bool {
    let p1 = after(fixed_end(s, p0, 8));
    &&& f0 == rect_at(s, p0)
    &&& q == p1
}

/// How reading the operands of `PaintOval` at `p0` ends.
#[verifier::opaque]
pub open spec fn end_paint_oval(s: Seq<u8>, p0: int) -> Decoded<()> {
    match fixed_end(s, p0, 8) { Decoded::Done(_, p1) => Decoded::Done((), p1), d => d }
}

/// Whether the operands of `PaintOval` at `p0` are the given ones, ending at `q`.
#[verifier::opaque]
pub open spec fn args_paint_oval(s: Seq<u8>, p0: int, f0: Rect, q: int) -> bool {
    let p1 = after(fixed_end(s, p0, 8));
    &&& f0 == rect_at(s, p0)
    &&& q == p1
}

/// How reading the operands of `EraseOval` at `p0` ends.
#[verifier::opaque]
pub open spec fn end_erase_oval(s: Seq<u8>, p0: int) -> Decoded<()> {
    match fixed_end(s, p0, 8) { Decoded::Done(_, p1) => Decoded::Done((), p1), d => d }
}

/// Whether the operands of `EraseOval` at `p0` are the given ones, ending at `q`.
#[verifier::opaque]
pub open spec fn args_erase_oval(s: Seq<u8>, p0: int, f0: Rect, q: int) -> bool {
    let p1 = after(fixed_end(s, p0, 8));
    &&& f0 == rect_at(s, p0)
    &&& q == p1
}

/// How reading the operands of `InvertOval` at `p0` ends.
#[verifier::opaque]
pub open spec fn end_invert_oval(s: Seq<u8>, p0: int) -> Decoded<()> {
    match fixed_end(s, p0, 8) { Decoded::Done(_, p1) => Decoded::Done((), p1), d => d }
}

/// Whether the operands of `InvertOval` at `p0` are the given ones, ending at `q`.
#[verifier::opaque]
pub open spec fn args_invert_oval(s: Seq<u8>, p0: int, f0: Rect, q: int) -> bool {
    let p1 = after(fixed_end(s, p0, 8));
    &&& f0 == rect_at(s, p0)
    &&& q == p1
}

/// How reading the operands of `FillOval` at `p0` ends.
#[verifier::opaque]
pub open spec fn end_fill_oval(s: Seq<u8>, p0: int) -> Decoded<()> {
    match fixed_end(s, p0, 8) { Decoded::Done(_, p1) => Decoded::Done((), p1), d => d }
}

/// Whether the operands of `FillOval` at `p0` are the given ones, ending at `q`.
#[verifier::opaque]
pub open spec fn args_fill_oval(s: Seq<u8>, p0: int, f0: Rect, q: int) -> bool {
    let p1 = after(fixed_end(s, p0, 8));
    &&& f0 == rect_at(s, p0)
    &&& q == p1
}

/// How reading the operands of `ReservedForAppleUse20` at `p0` ends.
#[verifier::opaque]
pub open spec fn end_reserved_for_apple_use20(s: Seq<u8>, p0: int) -> Decoded<()> {
    match fixed_end(s, p0, 8) { Decoded::Done(_, p1) => Decoded::Done((), p1), d => d }
}

/// Whether the operands of `ReservedForAppleUse20` at `p0` are the given ones, ending at `q`.
#[verifier::opaque]
pub open spec fn args_reserved_for_apple_use20(s: Seq<u8>, p0: int, f0: Rect, q: int) -> bool {
    let p1 = after(fixed_end(s, p0, 8));
    &&& f0 == rect_at(s, p0)
    &&& q == p1
}

/// How reading the operands of `ReservedForAppleUse21` at `p0` ends.
#[verifier::opaque]
pub open spec fn end_reserved_for_apple_use21(s: Seq<u8>, p0: int) -> Decoded<()> {
    match fixed_end(s, p0, 8) { Decoded::Done(_, p1) => Decoded::Done((), p1), d => d }
}

/// Whether the operands of `ReservedForAppleUse21` at `p0` are the given ones, ending at `q`.
#[verifier::opaque]
pub open spec fn args_reserved_for_apple_use21(s: Seq<u8>, p0: int, f0: Rect, q: int) -> bool {
    let p1 = after(fixed_end(s, p0, 8));
    &&& f0 == rect_at(s, p0)
    &&& q == p1
}

/// How reading the operands of `ReservedForAppleUse22` at `p0` ends.
#[verifier::opaque]
pub open spec fn end_reserved_for_apple_use22(s: Seq<u8>, p0: int) -> Decoded<()> {
    match fixed_end(s, p0, 8) { Decoded::Done(_, p1) => Decoded::Done((), p1), d => d }
}

/// Whether the operands of `ReservedForAppleUse22` at `p0` are the given ones, ending at `q`.
#[verifier::opaque]
pub open spec fn args_reserved_for_apple_use22(s: Seq<u8>, p0: int, f0: Rect, q: int) -> bool {
    let p1 = after(fixed_end(s, p0, 8));
    &&& f0 == rect_at(s, p0)
    &&& q == p1
}

/// How reading the operands of `FrameSameOval` at `p0` ends.
#[verifier::opaque]
pub open spec fn end_frame_same_oval(s: Seq<u8>, p0: int) -> Decoded<()> {
    Decoded::Done((), p0)
}

/// Whether the operands of `FrameSameOval` at `p0` are the given ones, ending at `q`.
#[verifier::opaque]
pub open spec fn args_frame_same_oval(s: Seq<u8>, p0: int, q: int) -> bool {
    &&& q == p0
}

/// How reading the operands of `PaintSameOval` at `p0` ends.
#[verifier::opaque]
pub open spec fn end_paint_same_oval(s: Seq<u8>, p0: int) -> Decoded<()> {
    Decoded::Done((), p0)
}

/// Whether the operands of `PaintSameOval` at `p0` are the given ones, ending at `q`.
#[verifier::opaque]
pub open spec fn args_paint_same_oval(s: Seq<u8>, p0: int, q: int) -> bool {
    &&& q == p0
}

/// How reading the operands of `EraseSameOval` at `p0` ends.
#[verifier::opaque]
pub open spec fn end_erase_same_oval(s: Seq<u8>, p0: int) -> Decoded<()> {
    Decoded::Done((), p0)
}

/// Whether the operands of `EraseSameOval` at `p0` are the given ones, ending at `q`.
#[verifier::opaque]
pub open spec fn args_erase_same_oval(s: Seq<u8>, p0: int, q: int) -> bool {
    &&& q == p0
}

/// How reading the operands of `InvertSameOval` at `p0` ends.
#[verifier::opaque]
pub open spec fn end_invert_same_oval(s: Seq<u8>, p0: int) -> Decoded<()> {
    Decoded::Done((), p0)
}

/// Whether the operands of `InvertSameOval` at `p0` are the given ones, ending at `q`.
#[verifier::opaque]
pub open spec fn args_invert_same_oval(s: Seq<u8>, p0: int, q: int) -> bool {
    &&& q == p0
}

/// How reading the operands of `FillSameOval` at `p0` ends.
#[verifier::opaque]
pub open spec fn end_fill_same_oval(s: Seq<u8>, p0: int) -> Decoded<()> {
    Decoded::Done((), p0)
}

/// Whether the operands of `FillSameOval` at `p0` are the given ones, ending at `q`.
#[verifier::opaque]
pub open spec fn args_fill_same_oval(s: Seq<u8>, p0: int, q: int) -> bool {
    &&& q == p0
}

/// How reading the operands of `ReservedForAppleUse23` at `p0` ends.
#[verifier::opaque]
pub open spec fn end_reserved_for_apple_use23(s: Seq<u8>, p0: int) -> Decoded<()> {
    Decoded::Done((), p0)
}

/// Whether the operands of `ReservedForAppleUse23` at `p0` are the given ones, ending at `q`.
#[verifier::opaque]
pub open spec fn args_reserved_for_apple_use23(s: Seq<u8>, p0: int, q: int) -> bool {
    &&& q == p0
}

/// How reading the operands of `ReservedForAppleUse24` at `p0` ends.
#[verifier::opaque]
pub open spec fn end_reserved_for_apple_use24(s: Seq<u8>, p0: int) -> Decoded<()> {
    Decoded::Done((), p0)
}

/// Whether the operands of `ReservedForAppleUse24` at `p0` are the given ones, ending at `q`.
#[verifier::opaque]
pub open spec fn args_reserved_for_apple_use24(s: Seq<u8>, p0: int, q: int) -> bool {
    &&& q == p0
}

/// How reading the operands of `ReservedForAppleUse25` at `p0` ends.
#[verifier::opaque]
pub open spec fn end_reserved_for_apple_use25(s: Seq<u8>, p0: int) -> Decoded<()> {
    Decoded::Done((), p0)
}

/// Whether the operands of `ReservedForAppleUse25` at `p0` are the given ones, ending at `q`.
#[verifier::opaque]
pub open spec fn args_reserved_for_apple_use25(s: Seq<u8>, p0: int, q: int) -> bool {
    &&& q == p0
}

/// How reading the operands of `FrameArc` at `p0` ends.
#[verifier::opaque]
pub open spec fn end_frame_arc(s: Seq<u8>, p0: int) -> Decoded<()> {
    match fixed_end(s, p0, 8) { Decoded::Done(_, p1) => match fixed_end(s, p1, 2) { Decoded::Done(_, p2) => match fixed_end(s, p2, 2) { Decoded::Done(_, p3) => Decoded::Done((), p3), d => d }, d => d }, d => d }
}

/// Whether the operands of `FrameArc` at `p0` are the given ones, ending at `q`.
#[verifier::opaque]
pub open spec fn args_frame_arc(s: Seq<u8>, p0: int, f0: Rect, f1: u16, f2: u16, q: int) -> bool {
    let p1 = after(fixed_end(s, p0, 8));
    let p2 = after(fixed_end(s, p1, 2));
    let p3 = after(fixed_end(s, p2, 2));
    &&& f0 == rect_at(s, p0)
    &&& f1 == be_u16(s, p1)
    &&& f2 == be_u16(s, p2)
    &&& q == p3
}

/// How reading the operands of `PaintArc` at `p0` ends.
#[verifier::opaque]
pub open spec fn end_paint_arc(s: Seq<u8>, p0: int) -> Decoded<()> {
    match fixed_end(s, p0, 8) { Decoded::Done(_, p1) => match fixed_end(s, p1, 2) { Decoded::Done(_, p2) => match fixed_end(s, p2, 2) { Decoded::Done(_, p3) => Decoded::Done((), p3), d => d }, d => d }, d => d }
}

/// Whether the operands of `PaintArc` at `p0` are the given ones, ending at `q`.
#[verifier::opaque]
pub open spec fn args_paint_arc(s: Seq<u8>, p0: int, f0: Rect, f1: u16, f2: u16, q: int) -> bool {
    let p1 = after(fixed_end(s, p0, 8));
    let p2 = after(fixed_end(s, p1, 2));
    let p3 = after(fixed_end(s, p2, 2));
    &&& f0 == rect_at(s, p0)
    &&& f1 == be_u16(s, p1)
    &&& f2 == be_u16(s, p2)
    &&& q == p3
}

/// How reading the operands of `EraseArc` at `p0` ends.
#[verifier::opaque]
pub open spec fn end_erase_arc(s: Seq<u8>, p0: int) -> Decoded<()> {
    match fixed_end(s, p0, 8) { Decoded::Done(_, p1) => match fixed_end(s, p1, 2) { Decoded::Done(_, p2) => match fixed_end(s, p2, 2) { Decoded::Done(_, p3) => Decoded::Done((), p3), d => d }, d => d }, d => d }
}

/// Whether the operands of `EraseArc` at `p0` are the given ones, ending at `q`.
#[verifier::opaque]
pub open spec fn args_erase_arc(s: Seq<u8>, p0: int, f0: Rect, f1: u16, f2: u16, q: int) -> bool {
    let p1 = after(fixed_end(s, p0, 8));
    let p2 = after(fixed_end(s, p1, 2));
    let p3 = after(fixed_end(s, p2, 2));
    &&& f0 == rect_at(s, p0)
    &&& f1 == be_u16(s, p1)
    &&& f2 == be_u16(s, p2)
    &&& q == p3
}

/// How reading the operands of `InvertArc` at `p0` ends.
#[verifier::opaque]
pub open spec fn end_invert_arc(s: Seq<u8>, p0: int) -> Decoded<()> {
    match fixed_end(s, p0, 8) { Decoded::Done(_, p1) => match fixed_end(s, p1, 2) { Decoded::Done(_, p2) => match fixed_end(s, p2, 2) { Decoded::Done(_, p3) => Decoded::Done((), p3), d => d }, d => d }, d => d }
}

/// Whether the operands of `InvertArc` at `p0` are the given ones, ending at `q`.
#[verifier::opaque]
pub open spec fn args_invert_arc(s: Seq<u8>, p0: int, f0: Rect, f1: u16, f2: u16, q: int) -> bool {
    let p1 = after(fixed_end(s, p0, 8));
    let p2 = after(fixed_end(s, p1, 2));
    let p3 = after(fixed_end(s, p2, 2));
    &&& f0 == rect_at(s, p0)
    &&& f1 == be_u16(s, p1)
    &&& f2 == be_u16(s, p2)
    &&& q == p3
}

/// How reading the operands of `FillArc` at `p0` ends.
#[verifier::opaque]
pub open spec fn end_fill_arc(s: Seq<u8>, p0: int) -> Decoded<()> {
    match fixed_end(s, p0, 8) { Decoded::Done(_, p1) => match fixed_end(s, p1, 2) { Decoded::Done(_, p2) => match fixed_end(s, p2, 2) { Decoded::Done(_, p3) => Decoded::Done((), p3), d => d }, d => d }, d => d }
}

/// Whether the operands of `FillArc` at `p0` are the given ones, ending at `q`.
#[verifier::opaque]
pub open spec fn args_fill_arc(s: Seq<u8>, p0: int, f0: Rect, f1: u16, f2: u16, q: int) -> bool {
    let p1 = after(fixed_end(s, p0, 8));
    let p2 = after(fixed_end(s, p1, 2));
    let p3 = after(fixed_end(s, p2, 2));
    &&& f0 == rect_at(s, p0)
    &&& f1 == be_u16(s, p1)
    &&& f2 == be_u16(s, p2)
    &&& q == p3
}

/// How reading the operands of `ReservedForAppleUse26` at `p0` ends.
#[verifier::opaque]
pub open spec fn end_reserved_for_apple_use26(s: Seq<u8>, p0: int) -> Decoded<()> {
    match fixed_end(s, p0, 8) { Decoded::Done(_, p1) => match fixed_end(s, p1, 2) { Decoded::Done(_, p2) => match fixed_end(s, p2, 2) { Decoded::Done(_, p3) => Decoded::Done((), p3), d => d }, d => d }, d => d }
}

/// Whether the operands of `ReservedForAppleUse26` at `p0` are the given ones, ending at `q`.
#[verifier::opaque]
pub open spec fn args_reserved_for_apple_use26(s: Seq<u8>, p0: int, f0: Rect, f1: u16, f2: u16, q: int) -> bool {
    let p1 = after(fixed_end(s, p0, 8));
    let p2 = after(fixed_end(s, p1, 2));
    let p3 = after(fixed_end(s, p2, 2));
    &&& f0 == rect_at(s, p0)
    &&& f1 == be_u16(s, p1)
    &&& f2 == be_u16(s, p2)
    &&& q == p3
}

/// How reading the operands of `ReservedForAppleUse27` at `p0` ends.
#[verifier::opaque]
pub open spec fn end_reserved_for_apple_use27(s: Seq<u8>, p0: int) -> Decoded<()> {
    match fixed_end(s, p0, 8) { Decoded::Done(_, p1) => match fixed_end(s, p1, 2) { Decoded::Done(_, p2) => match fixed_end(s, p2, 2) { Decoded::Done(_, p3) => Decoded::Done((), p3), d => d }, d => d }, d => d }
}

/// Whether the operands of `ReservedForAppleUse27` at `p0` are the given ones, ending at `q`.
#[verifier::opaque]
pub open spec fn args_reserved_for_apple_use27(s: Seq<u8>, p0: int, f0: Rect, f1: u16, f2: u16, q: int) -> bool {
    let p1 = after(fixed_end(s, p0, 8));
    let p2 = after(fixed_end(s, p1, 2));
    let p3 = after(fixed_end(s, p2, 2));
    &&& f0 == rect_at(s, p0)
    &&& f1 == be_u16(s, p1)
    &&& f2 == be_u16(s, p2)
    &&& q == p3
}

/// How reading the operands of `ReservedForAppleUse28` at `p0` ends.
#[verifier::opaque]
pub open spec fn end_reserved_for_apple_use28(s: Seq<u8>, p0: int) -> Decoded<()> {
    match fixed_end(s, p0, 8) { Decoded::Done(_, p1) => match fixed_end(s, p1, 2) { Decoded::Done(_, p2) => match fixed_end(s, p2, 2) { Decoded::Done(_, p3) => Decoded::Done((), p3), d => d }, d => d }, d => d }
}

/// Whether the operands of `ReservedForAppleUse28` at `p0` are the given ones, ending at `q`.
#[verifier::opaque]
pub open spec fn args_reserved_for_apple_use28(s: Seq<u8>, p0: int, f0: Rect, f1: u16, f2: u16, q: int) -> bool {
    let p1 = after(fixed_end(s, p0, 8));
    let p2 = after(fixed_end(s, p1, 2));
    let p3 = after(fixed_end(s, p2, 2));
    &&& f0 == rect_at(s, p0)
    &&& f1 == be_u16(s, p1)
    &&& f2 == be_u16(s, p2)
    &&& q == p3
}

/// How reading the operands of `FrameSameArc` at `p0` ends.
#[verifier::opaque]
pub open spec fn end_frame_same_arc(s: Seq<u8>, p0: int) -> Decoded<()> {
    match fixed_end(s, p0, 2) { Decoded::Done(_, p1) => match fixed_end(s, p1, 2) { Decoded::Done(_, p2) => Decoded::Done((), p2), d => d }, d => d }
}

/// Whether the operands of `FrameSameArc` at `p0` are the given ones, ending at `q`.
#[verifier::opaque]
pub open spec fn args_frame_same_arc(s: Seq<u8>, p0: int, f0: u16, f1: u16, q: int) -> bool {
    let p1 = after(fixed_end(s, p0, 2));
    let p2 = after(fixed_end(s, p1, 2));
    &&& f0 == be_u16(s, p0)
    &&& f1 == be_u16(s, p1)
    &&& q == p2
}

/// How reading the operands of `PaintSameArc` at `p0` ends.
#[verifier::opaque]
pub open spec fn end_paint_same_arc(s: Seq<u8>, p0: int) -> Decoded<()> {
    match fixed_end(s, p0, 2) { Decoded::Done(_, p1) => match fixed_end(s, p1, 2) { Decoded::Done(_, p2) => Decoded::Done((), p2), d => d }, d => d }
}

/// Whether the operands of `PaintSameArc` at `p0` are the given ones, ending at `q`.
#[verifier::opaque]
pub open spec fn args_paint_same_arc(s: Seq<u8>, p0: int, f0: u16, f1: u16, q: int) -> bool {
    let p1 = after(fixed_end(s, p0, 2));
    let p2 = after(fixed_end(s, p1, 2));
    &&& f0 == be_u16(s, p0)
    &&& f1 == be_u16(s, p1)
    &&& q == p2
}

/// How reading the operands of `EraseSameArc` at `p0` ends.
#[verifier::opaque]
pub open spec fn end_erase_same_arc(s: Seq<u8>, p0: int) -> Decoded<()> {
    match fixed_end(s, p0, 2) { Decoded::Done(_, p1) => match fixed_end(s, p1, 2) { Decoded::Done(_, p2) => Decoded::Done((), p2), d => d }, d => d }
}

/// Whether the operands of `EraseSameArc` at `p0` are the given ones, ending at `q`.
#[verifier::opaque]
pub open spec fn args_erase_same_arc(s: Seq<u8>, p0: int, f0: u16, f1: u16, q: int) -> bool {
    let p1 = after(fixed_end(s, p0, 2));
    let p2 = after(fixed_end(s, p1, 2));
    &&& f0 == be_u16(s, p0)
    &&& f1 == be_u16(s, p1)
    &&& q == p2
}

/// How reading the operands of `InvertSameArc` at `p0` ends.
#[verifier::opaque]
pub open spec fn end_invert_same_arc(s: Seq<u8>, p0: int) -> Decoded<()> {
    match fixed_end(s, p0, 2) { Decoded::Done(_, p1) => match fixed_end(s, p1, 2) { Decoded::Done(_, p2) => Decoded::Done((), p2), d => d }, d => d }
}

/// Whether the operands of `InvertSameArc` at `p0` are the given ones, ending at `q`.
#[verifier::opaque]
pub open spec fn args_invert_same_arc(s: Seq<u8>, p0: int, f0: u16, f1: u16, q: int) -> bool {
    let p1 = after(fixed_end(s, p0, 2));
    let p2 = after(fixed_end(s, p1, 2));
    &&& f0 == be_u16(s, p0)
    &&& f1 == be_u16(s, p1)
    &&& q == p2
}

/// How reading the operands of `FillSameArc` at `p0` ends.
#[verifier::opaque]
pub open spec fn end_fill_same_arc(s: Seq<u8>, p0: int) -> Decoded<()> {
    match fixed_end(s, p0, 2) { Decoded::Done(_, p1) => match fixed_end(s, p1, 2) { Decoded::Done(_, p2) => Decoded::Done((), p2), d => d }, d => d }
}

/// Whether the operands of `FillSameArc` at `p0` are the given ones, ending at `q`.
#[verifier::opaque]
pub open spec fn args_fill_same_arc(s: Seq<u8>, p0: int, f0: u16, f1: u16, q: int) -> bool {
    let p1 = after(fixed_end(s, p0, 2));
    let p2 = after(fixed_end(s, p1, 2));
    &&& f0 == be_u16(s, p0)
    &&& f1 == be_u16(s, p1)
    &&& q == p2
}

/// How reading the operands of `ReservedForAppleUse29` at `p0` ends.
#[verifier::opaque]
pub open spec fn end_reserved_for_apple_use29(s: Seq<u8>, p0: int) -> Decoded<()> {
    match fixed_end(s, p0, 2) { Decoded::Done(_, p1) => match fixed_end(s, p1, 2) { Decoded::Done(_, p2) => Decoded::Done((), p2), d => d }, d => d }
}

/// Whether the operands of `ReservedForAppleUse29` at `p0` are the given ones, ending at `q`.
#[verifier::opaque]
pub open spec fn args_reserved_for_apple_use29(s: Seq<u8>, p0: int, f0: u16, f1: u16, q: int) -> bool {
    let p1 = after(fixed_end(s, p0, 2));
    let p2 = after(fixed_end(s, p1, 2));
    &&& f0 == be_u16(s, p0)
    &&& f1 == be_u16(s, p1)
    &&& q == p2
}

/// How reading the operands of `ReservedForAppleUse30` at `p0` ends.
#[verifier::opaque]
pub open spec fn end_reserved_for_apple_use30(s: Seq<u8>, p0: int) -> Decoded<()> {
    match fixed_end(s, p0, 2) { Decoded::Done(_, p1) => match fixed_end(s, p1, 2) { Decoded::Done(_, p2) => Decoded::Done((), p2), d => d }, d => d }
}

/// Whether the operands of `ReservedForAppleUse30` at `p0` are the given ones, ending at `q`.
#[verifier::opaque]
pub open spec fn args_reserved_for_apple_use30(s: Seq<u8>, p0: int, f0: u16, f1: u16, q: int) -> bool {
    let p1 = after(fixed_end(s, p0, 2));
    let p2 = after(fixed_end(s, p1, 2));
    &&& f0 == be_u16(s, p0)
    &&& f1 == be_u16(s, p1)
    &&& q == p2
}

/// How reading the operands of `ReservedForAppleUse31` at `p0` ends.
#[verifier::opaque]
pub open spec fn end_reserved_for_apple_use31(s: Seq<u8>, p0: int) -> Decoded<()> {
    match fixed_end(s, p0, 2) { Decoded::Done(_, p1) => match fixed_end(s, p1, 2) { Decoded::Done(_, p2) => Decoded::Done((), p2), d => d }, d => d }
}

/// Whether the operands of `ReservedForAppleUse31` at `p0` are the given ones, ending at `q`.
#[verifier::opaque]
pub open spec fn args_reserved_for_apple_use31(s: Seq<u8>, p0: int, f0: u16, f1: u16, q: int) -> bool {
    let p1 = after(fixed_end(s, p0, 2));
    let p2 = after(fixed_end(s, p1, 2));
    &&& f0 == be_u16(s, p0)
    &&& f1 == be_u16(s, p1)
    &&& q == p2
}

/// How reading the operands of `FramePoly` at `p0` ends.
#[verifier::opaque]
pub open spec fn end_frame_poly(s: Seq<u8>, p0: int) -> Decoded<()> {
    match polygon_end(s, p0) { Decoded::Done(_, p1) => Decoded::Done((), p1), d => d }
}

/// Whether the operands of `FramePoly` at `p0` are the given ones, ending at `q`.
#[verifier::opaque]
pub open spec fn args_frame_poly(s: Seq<u8>, p0: int, f0: Polygon, q: int) -> bool {
    let p1 = after(polygon_end(s, p0));
    &&& polygon_ok(s, p0, f0)
    &&& q == p1
}

/// How reading the operands of `PaintPoly` at `p0` ends.
#[verifier::opaque]
pub open spec fn end_paint_poly(s: Seq<u8>, p0: int) -> Decoded<()> {
    match polygon_end(s, p0) { Decoded::Done(_, p1) => Decoded::Done((), p1), d => d }
}

/// Whether the operands of `PaintPoly` at `p0` are the given ones, ending at `q`.
#[verifier::opaque]
pub open spec fn args_paint_poly(s: Seq<u8>, p0: int, f0: Polygon, q: int) -> bool {
    let p1 = after(polygon_end(s, p0));
    &&& polygon_ok(s, p0, f0)
    &&& q == p1
}

/// How reading the operands of `ErasePoly` at `p0` ends.
#[verifier::opaque]
pub open spec fn end_erase_poly(s: Seq<u8>, p0: int) -> Decoded<()> {
    match polygon_end(s, p0) { Decoded::Done(_, p1) => Decoded::Done((), p1), d => d }
}

/// Whether the operands of `ErasePoly` at `p0` are the given ones, ending at `q`.
#[verifier::opaque]
pub open spec fn args_erase_poly(s: Seq<u8>, p0: int, f0: Polygon, q: int) -> bool {
    let p1 = after(polygon_end(s, p0));
    &&& polygon_ok(s, p0, f0)
    &&& q == p1
}

/// How reading the operands of `InvertPoly` at `p0` ends.
#[verifier::opaque]
pub open spec fn end_invert_poly(s: Seq<u8>, p0: int) -> Decoded<()> {
    match polygon_end(s, p0) { Decoded::Done(_, p1) => Decoded::Done((), p1), d => d }
}

/// Whether the operands of `InvertPoly` at `p0` are the given ones, ending at `q`.
#[verifier::opaque]
pub open spec fn args_invert_poly(s: Seq<u8>, p0: int, f0: Polygon, q: int) -> bool {
    let p1 = after(polygon_end(s, p0));
    &&& polygon_ok(s, p0, f0)
    &&& q == p1
}

/// How reading the operands of `FillPoly` at `p0` ends.
#[verifier::opaque]
pub open spec fn end_fill_poly(s: Seq<u8>, p0: int) -> Decoded<()> {
    match polygon_end(s, p0) { Decoded::Done(_, p1) => Decoded::Done((), p1), d => d }
}

/// Whether the operands of `FillPoly` at `p0` are the given ones, ending at `q`.
#[verifier::opaque]
pub open spec fn args_fill_poly(s: Seq<u8>, p0: int, f0: Polygon, q: int) -> bool {
    let p1 = after(polygon_end(s, p0));
    &&& polygon_ok(s, p0, f0)
    &&& q == p1
}

/// How reading the operands of `ReservedForAppleUse32` at `p0` ends.
#[verifier::opaque]
pub open spec fn end_reserved_for_apple_use32(s: Seq<u8>, p0: int) -> Decoded<()> {
    match polygon_end(s, p0) { Decoded::Done(_, p1) => Decoded::Done((), p1), d => d }
}

/// Whether the operands of `ReservedForAppleUse32` at `p0` are the given ones, ending at `q`.
#[verifier::opaque]
pub open spec fn args_reserved_for_apple_use32(s: Seq<u8>, p0: int, f0: Polygon, q: int) -> bool {
    let p1 = after(polygon_end(s, p0));
    &&& polygon_ok(s, p0, f0)
    &&& q == p1
}

/// How reading the operands of `ReservedForAppleUse33` at `p0` ends.
#[verifier::opaque]
pub open spec fn end_reserved_for_apple_use33(s: Seq<u8>, p0: int) -> Decoded<()> {
    match polygon_end(s, p0) { Decoded::Done(_, p1) => Decoded::Done((), p1), d => d }
}

/// Whether the operands of `ReservedForAppleUse33` at `p0` are the given ones, ending at `q`.
#[verifier::opaque]
pub open spec fn args_reserved_for_apple_use33(s: Seq<u8>, p0: int, f0: Polygon, q: int) -> bool {
    let p1 = after(polygon_end(s, p0));
    &&& polygon_ok(s, p0, f0)
    &&& q == p1
}

/// How reading the operands of `ReservedForAppleUse34` at `p0` ends.
#[verifier::opaque]
pub open spec fn end_reserved_for_apple_use34(s: Seq<u8>, p0: int) -> Decoded<()> {
    match polygon_end(s, p0) { Decoded::Done(_, p1) => Decoded::Done((), p1), d => d }
}

/// Whether the operands of `ReservedForAppleUse34` at `p0` are the given ones, ending at `q`.
#[verifier::opaque]
pub open spec fn args_reserved_for_apple_use34(s: Seq<u8>, p0: int, f0: Polygon, q: int) -> bool {
    let p1 = after(polygon_end(s, p0));
    &&& polygon_ok(s, p0, f0)
    &&& q == p1
}

/// How reading the operands of `FrameSamePoly` at `p0` ends.
#[verifier::opaque]
pub open spec fn end_frame_same_poly(s: Seq<u8>, p0: int) -> Decoded<()> {
    Decoded::Done((), p0)
}

/// Whether the operands of `FrameSamePoly` at `p0` are the given ones, ending at `q`.
#[verifier::opaque]
pub open spec fn args_frame_same_poly(s: Seq<u8>, p0: int, q: int) -> bool {
    &&& q == p0
}

/// How reading the operands of `PaintSamePoly` at `p0` ends.
#[verifier::opaque]
pub open spec fn end_paint_same_poly(s: Seq<u8>, p0: int) -> Decoded<()> {
    Decoded::Done((), p0)
}

/// Whether the operands of `PaintSamePoly` at `p0` are the given ones, ending at `q`.
#[verifier::opaque]
pub open spec fn args_paint_same_poly(s: Seq<u8>, p0: int, q: int) -> bool {
    &&& q == p0
}

/// How reading the operands of `EraseSamePoly` at `p0` ends.
#[verifier::opaque]
pub open spec fn end_erase_same_poly(s: Seq<u8>, p0: int) -> Decoded<()> {
    Decoded::Done((), p0)
}

/// Whether the operands of `EraseSamePoly` at `p0` are the given ones, ending at `q`.
#[verifier::opaque]
pub open spec fn args_erase_same_poly(s: Seq<u8>, p0: int, q: int) -> bool {
    &&& q == p0
}

/// How reading the operands of `InvertSamePoly` at `p0` ends.
#[verifier::opaque]
pub open spec fn end_invert_same_poly(s: Seq<u8>, p0: int) -> Decoded<()> {
    Decoded::Done((), p0)
}

/// Whether the operands of `InvertSamePoly` at `p0` are the given ones, ending at `q`.
#[verifier::opaque]
pub open spec fn args_invert_same_poly(s: Seq<u8>, p0: int, q: int) -> bool {
    &&& q == p0
}

/// How reading the operands of `FillSamePoly` at `p0` ends.
#[verifier::opaque]
pub open spec fn end_fill_same_poly(s: Seq<u8>, p0: int) -> Decoded<()> {
    Decoded::Done((), p0)
}

/// Whether the operands of `FillSamePoly` at `p0` are the given ones, ending at `q`.
#[verifier::opaque]
pub open spec fn args_fill_same_poly(s: Seq<u8>, p0: int, q: int) -> bool {
    &&& q == p0
}

/// How reading the operands of `ReservedForAppleUse35` at `p0` ends.
#[verifier::opaque]
pub open spec fn end_reserved_for_apple_use35(s: Seq<u8>, p0: int) -> Decoded<()> {
    Decoded::Done((), p0)
}

/// Whether the operands of `ReservedForAppleUse35` at `p0` are the given ones, ending at `q`.
#[verifier::opaque]
pub open spec fn args_reserved_for_apple_use35(s: Seq<u8>, p0: int, q: int) -> bool {
    &&& q == p0
}

/// How reading the operands of `ReservedForAppleUse36` at `p0` ends.
#[verifier::opaque]
pub open spec fn end_reserved_for_apple_use36(s: Seq<u8>, p0: int) -> Decoded<()> {
    Decoded::Done((), p0)
}

/// Whether the operands of `ReservedForAppleUse36` at `p0` are the given ones, ending at `q`.
#[verifier::opaque]
pub open spec fn args_reserved_for_apple_use36(s: Seq<u8>, p0: int, q: int) -> bool {
    &&& q == p0
}

/// How reading the operands of `ReservedForAppleUse37` at `p0` ends.
#[verifier::opaque]
pub open spec fn end_reserved_for_apple_use37(s: Seq<u8>, p0: int) -> Decoded<()> {
    Decoded::Done((), p0)
}

/// Whether the operands of `ReservedForAppleUse37` at `p0` are the given ones, ending at `q`.
#[verifier::opaque]
pub open spec fn args_reserved_for_apple_use37(s: Seq<u8>, p0: int, q: int) -> bool {
    &&& q == p0
}

/// How reading the operands of `FrameRgn` at `p0` ends.
#[verifier::opaque]
pub open spec fn end_frame_rgn(s: Seq<u8>, p0: int) -> Decoded<()> {
    match region_field_end(s, p0) { Decoded::Done(_, p1) => Decoded::Done((), p1), d => d }
}

/// Whether the operands of `FrameRgn` at `p0` are the given ones, ending at `q`.
#[verifier::opaque]
pub open spec fn args_frame_rgn(s: Seq<u8>, p0: int, f0: Region, q: int) -> bool {
    let p1 = after(region_field_end(s, p0));
    &&& region_at(s, p0, f0)
    &&& q == p1
}

/// How reading the operands of `PaintRgn` at `p0` ends.
#[verifier::opaque]
pub open spec fn end_paint_rgn(s: Seq<u8>, p0: int) -> Decoded<()> {
    match region_field_end(s, p0) { Decoded::Done(_, p1) => Decoded::Done((), p1), d => d }
}

/// Whether the operands of `PaintRgn` at `p0` are the given ones, ending at `q`.
#[verifier::opaque]
pub open spec fn args_paint_rgn(s: Seq<u8>, p0: int, f0: Region, q: int) -> bool {
    let p1 = after(region_field_end(s, p0));
    &&& region_at(s, p0, f0)
    &&& q == p1
}

/// How reading the operands of `EraseRgn` at `p0` ends.
#[verifier::opaque]
pub open spec fn end_erase_rgn(s: Seq<u8>, p0: int) -> Decoded<()> {
    match region_field_end(s, p0) { Decoded::Done(_, p1) => Decoded::Done((), p1), d => d }
}

/// Whether the operands of `EraseRgn` at `p0` are the given ones, ending at `q`.
#[verifier::opaque]
pub open spec fn args_erase_rgn(s: Seq<u8>, p0: int, f0: Region, q: int) -> bool {
    let p1 = after(region_field_end(s, p0));
    &&& region_at(s, p0, f0)
    &&& q == p1
}

/// How reading the operands of `InvertRgn` at `p0` ends.
#[verifier::opaque]
pub open spec fn end_invert_rgn(s: Seq<u8>, p0: int) -> Decoded<()> {
    match region_field_end(s, p0) { Decoded::Done(_, p1) => Decoded::Done((), p1), d => d }
}

/// Whether the operands of `InvertRgn` at `p0` are the given ones, ending at `q`.
#[verifier::opaque]
pub open spec fn args_invert_rgn(s: Seq<u8>, p0: int, f0: Region, q: int) -> bool {
    let p1 = after(region_field_end(s, p0));
    &&& region_at(s, p0, f0)
    &&& q == p1
}

/// How reading the operands of `FillRgn` at `p0` ends.
#[verifier::opaque]
pub open spec fn end_fill_rgn(s: Seq<u8>, p0: int) -> Decoded<()> {
    match region_field_end(s, p0) { Decoded::Done(_, p1) => Decoded::Done((), p1), d => d }
}

/// Whether the operands of `FillRgn` at `p0` are the given ones, ending at `q`.
#[verifier::opaque]
pub open spec fn args_fill_rgn(s: Seq<u8>, p0: int, f0: Region, q: int) -> bool {
    let p1 = after(region_field_end(s, p0));
    &&& region_at(s, p0, f0)
    &&& q == p1
}

/// How reading the operands of `ReservedForAppleUse38` at `p0` ends.
#[verifier::opaque]
pub open spec fn end_reserved_for_apple_use38(s: Seq<u8>, p0: int) -> Decoded<()> {
    match region_field_end(s, p0) { Decoded::Done(_, p1) => Decoded::Done((), p1), d => d }
}

/// Whether the operands of `ReservedForAppleUse38` at `p0` are the given ones, ending at `q`.
#[verifier::opaque]
pub open spec fn args_reserved_for_apple_use38(s: Seq<u8>, p0: int, f0: Region, q: int) -> bool {
    let p1 = after(region_field_end(s, p0));
    &&& region_at(s, p0, f0)
    &&& q == p1
}

/// How reading the operands of `ReservedForAppleUse39` at `p0` ends.
#[verifier::opaque]
pub open spec fn end_reserved_for_apple_use39(s: Seq<u8>, p0: int) -> Decoded<()> {
    match region_field_end(s, p0) { Decoded::Done(_, p1) => Decoded::Done((), p1), d => d }
}

/// Whether the operands of `ReservedForAppleUse39` at `p0` are the given ones, ending at `q`.
#[verifier::opaque]
pub open spec fn args_reserved_for_apple_use39(s: Seq<u8>, p0: int, f0: Region, q: int) -> bool {
    let p1 = after(region_field_end(s, p0));
    &&& region_at(s, p0, f0)
    &&& q == p1
}

/// How reading the operands of `ReservedForAppleUse40` at `p0` ends.
#[verifier::opaque]
pub open spec fn end_reserved_for_apple_use40(s: Seq<u8>, p0: int) -> Decoded<()> {
    match region_field_end(s, p0) { Decoded::Done(_, p1) => Decoded::Done((), p1), d => d }
}

/// Whether the operands of `ReservedForAppleUse40` at `p0` are the given ones, ending at `q`.
#[verifier::opaque]
pub open spec fn args_reserved_for_apple_use40(s: Seq<u8>, p0: int, f0: Region, q: int) -> bool {
    let p1 = after(region_field_end(s, p0));
    &&& region_at(s, p0, f0)
    &&& q == p1
}

/// How reading the operands of `FrameSameRgn` at `p0` ends.
#[verifier::opaque]
pub open spec fn end_frame_same_rgn(s: Seq<u8>, p0: int) -> Decoded<()> {
    Decoded::Done((), p0)
}

/// Whether the operands of `FrameSameRgn` at `p0` are the given ones, ending at `q`.
#[verifier::opaque]
pub open spec fn args_frame_same_rgn(s: Seq<u8>, p0: int, q: int) -> bool {
    &&& q == p0
}

/// How reading the operands of `PaintSameRgn` at `p0` ends.
#[verifier::opaque]
pub open spec fn end_paint_same_rgn(s: Seq<u8>, p0: int) -> Decoded<()> {
    Decoded::Done((), p0)
}

/// Whether the operands of `PaintSameRgn` at `p0` are the given ones, ending at `q`.
#[verifier::opaque]
pub open spec fn args_paint_same_rgn(s: Seq<u8>, p0: int, q: int) -> bool {
    &&& q == p0
}

/// How reading the operands of `EraseSameRgn` at `p0` ends.
#[verifier::opaque]
pub open spec fn end_erase_same_rgn(s: Seq<u8>, p0: int) -> Decoded<()> {
    Decoded::Done((), p0)
}

/// Whether the operands of `EraseSameRgn` at `p0` are the given ones, ending at `q`.
#[verifier::opaque]
pub open spec fn args_erase_same_rgn(s: Seq<u8>, p0: int, q: int) -> bool {
    &&& q == p0
}

/// How reading the operands of `InvertSameRgn` at `p0` ends.
#[verifier::opaque]
pub open spec fn end_invert_same_rgn(s: Seq<u8>, p0: int) -> Decoded<()> {
    Decoded::Done((), p0)
}

/// Whether the operands of `InvertSameRgn` at `p0` are the given ones, ending at `q`.
#[verifier::opaque]
pub open spec fn args_invert_same_rgn(s: Seq<u8>, p0: int, q: int) -> bool {
    &&& q == p0
}

/// How reading the operands of `FillSameRgn` at `p0` ends.
#[verifier::opaque]
pub open spec fn end_fill_same_rgn(s: Seq<u8>, p0: int) -> Decoded<()> {
    Decoded::Done((), p0)
}

/// Whether the operands of `FillSameRgn` at `p0` are the given ones, ending at `q`.
#[verifier::opaque]
pub open spec fn args_fill_same_rgn(s: Seq<u8>, p0: int, q: int) -> bool {
    &&& q == p0
}

/// How reading the operands of `ReservedForAppleUse41` at `p0` ends.
#[verifier::opaque]
pub open spec fn end_reserved_for_apple_use41(s: Seq<u8>, p0: int) -> Decoded<()> {
    Decoded::Done((), p0)
}

/// Whether the operands of `ReservedForAppleUse41` at `p0` are the given ones, ending at `q`.
#[verifier::opaque]
pub open spec fn args_reserved_for_apple_use41(s: Seq<u8>, p0: int, q: int) -> bool {
    &&& q == p0
}

/// How reading the operands of `ReservedForAppleUse42` at `p0` ends.
#[verifier::opaque]
pub open spec fn end_reserved_for_apple_use42(s: Seq<u8>, p0: int) -> Decoded<()> {
    Decoded::Done((), p0)
}

/// Whether the operands of `ReservedForAppleUse42` at `p0` are the given ones, ending at `q`.
#[verifier::opaque]
pub open spec fn args_reserved_for_apple_use42(s: Seq<u8>, p0: int, q: int) -> bool {
    &&& q == p0
}

/// How reading the operands of `ReservedForAppleUse43` at `p0` ends.
#[verifier::opaque]
pub open spec fn end_reserved_for_apple_use43(s: Seq<u8>, p0: int) -> Decoded<()> {
    Decoded::Done((), p0)
}

/// Whether the operands of `ReservedForAppleUse43` at `p0` are the given ones, ending at `q`.
#[verifier::opaque]
pub open spec fn args_reserved_for_apple_use43(s: Seq<u8>, p0: int, q: int) -> bool {
    &&& q == p0
}

/// How reading the operands of `BitsRect` at `p0` ends.
#[verifier::opaque]
pub open spec fn end_bits_rect(s: Seq<u8>, p0: int) -> Decoded<()> {
    match copybits_end(s, p0, true, false, true) { Decoded::Done(_, p1) => Decoded::Done((), p1), d => d }
}

/// Whether the operands of `BitsRect` at `p0` are the given ones, ending at `q`.
#[verifier::opaque]
pub open spec fn args_bits_rect(s: Seq<u8>, p0: int, f0: CopyBits, q: int) -> bool {
    let p1 = after(copybits_end(s, p0, true, false, true));
    &&& copybits_ok(s, p0, true, false, true, f0)
    &&& q == p1
}

/// How reading the operands of `BitsRgn` at `p0` ends.
#[verifier::opaque]
pub open spec fn end_bits_rgn(s: Seq<u8>, p0: int) -> Decoded<()> {
    match copybits_end(s, p0, false, true, true) { Decoded::Done(_, p1) => Decoded::Done((), p1), d => d }
}

/// Whether the operands of `BitsRgn` at `p0` are the given ones, ending at `q`.
#[verifier::opaque]
pub open spec fn args_bits_rgn(s: Seq<u8>, p0: int, f0: CopyBits, q: int) -> bool {
    let p1 = after(copybits_end(s, p0, false, true, true));
    &&& copybits_ok(s, p0, false, true, true, f0)
    &&& q == p1
}

/// How reading the operands of `ReservedForAppleUse44` at `p0` ends.
#[verifier::opaque]
pub open spec fn end_reserved_for_apple_use44(s: Seq<u8>, p0: int) -> Decoded<()> {
    match fixed_end(s, p0, 2) { Decoded::Done(_, p1) => match fixed_end(s, p1, be_u16(s, p0)) { Decoded::Done(_, p2) => Decoded::Done((), p2), d => d }, d => d }
}

/// Whether the operands of `ReservedForAppleUse44` at `p0` are the given ones, ending at `q`.
#[verifier::opaque]
pub open spec fn args_reserved_for_apple_use44(s: Seq<u8>, p0: int, f0: u16, f1: Vec<u8>, q: int) -> bool {
    let p1 = after(fixed_end(s, p0, 2));
    let p2 = after(fixed_end(s, p1, be_u16(s, p0)));
    &&& f0 == be_u16(s, p0)
    &&& f1@ == s.subrange(p1, p1 + be_u16(s, p0))
    &&& q == p2
}

/// How reading the operands of `ReservedForAppleUse45` at `p0` ends.
#[verifier::opaque]
pub open spec fn end_reserved_for_apple_use45(s: Seq<u8>, p0: int) -> Decoded<()> {
    match fixed_end(s, p0, 2) { Decoded::Done(_, p1) => match fixed_end(s, p1, be_u16(s, p0)) { Decoded::Done(_, p2) => Decoded::Done((), p2), d => d }, d => d }
}

/// Whether the operands of `ReservedForAppleUse45` at `p0` are the given ones, ending at `q`.
#[verifier::opaque]
pub open spec fn args_reserved_for_apple_use45(s: Seq<u8>, p0: int, f0: u16, f1: Vec<u8>, q: int) -> bool {
    let p1 = after(fixed_end(s, p0, 2));
    let p2 = after(fixed_end(s, p1, be_u16(s, p0)));
    &&& f0 == be_u16(s, p0)
    &&& f1@ == s.subrange(p1, p1 + be_u16(s, p0))
    &&& q == p2
}

/// How reading the operands of `ReservedForAppleUse46` at `p0` ends.
#[verifier::opaque]
pub open spec fn end_reserved_for_apple_use46(s: Seq<u8>, p0: int) -> Decoded<()> {
    match fixed_end(s, p0, 2) { Decoded::Done(_, p1) => match fixed_end(s, p1, be_u16(s, p0)) { Decoded::Done(_, p2) => Decoded::Done((), p2), d => d }, d => d }
}

/// Whether the operands of `ReservedForAppleUse46` at `p0` are the given ones, ending at `q`.
#[verifier::opaque]
pub open spec fn args_reserved_for_apple_use46(s: Seq<u8>, p0: int, f0: u16, f1: Vec<u8>, q: int) -> bool {
    let p1 = after(fixed_end(s, p0, 2));
    let p2 = after(fixed_end(s, p1, be_u16(s, p0)));
    &&& f0 == be_u16(s, p0)
    &&& f1@ == s.subrange(p1, p1 + be_u16(s, p0))
    &&& q == p2
}

/// How reading the operands of `ReservedForAppleUse47` at `p0` ends.
#[verifier::opaque]
pub open spec fn end_reserved_for_apple_use47(s: Seq<u8>, p0: int) -> Decoded<()> {
    match fixed_end(s, p0, 2) { Decoded::Done(_, p1) => match fixed_end(s, p1, be_u16(s, p0)) { Decoded::Done(_, p2) => Decoded::Done((), p2), d => d }, d => d }
}

/// Whether the operands of `ReservedForAppleUse47` at `p0` are the given ones, ending at `q`.
#[verifier::opaque]
pub open spec fn args_reserved_for_apple_use47(s: Seq<u8>, p0: int, f0: u16, f1: Vec<u8>, q: int) -> bool {
    let p1 = after(fixed_end(s, p0, 2));
    let p2 = after(fixed_end(s, p1, be_u16(s, p0)));
    &&& f0 == be_u16(s, p0)
    &&& f1@ == s.subrange(p1, p1 + be_u16(s, p0))
    &&& q == p2
}

/// How reading the operands of `ReservedForAppleUse48` at `p0` ends.
#[verifier::opaque]
pub open spec fn end_reserved_for_apple_use48(s: Seq<u8>, p0: int) -> Decoded<()> {
    match fixed_end(s, p0, 2) { Decoded::Done(_, p1) => match fixed_end(s, p1, be_u16(s, p0)) { Decoded::Done(_, p2) => Decoded::Done((), p2), d => d }, d => d }
}

/// Whether the operands of `ReservedForAppleUse48` at `p0` are the given ones, ending at `q`.
#[verifier::opaque]
pub open spec fn args_reserved_for_apple_use48(s: Seq<u8>, p0: int, f0: u16, f1: Vec<u8>, q: int) -> bool {
    let p1 = after(fixed_end(s, p0, 2));
    let p2 = after(fixed_end(s, p1, be_u16(s, p0)));
    &&& f0 == be_u16(s, p0)
    &&& f1@ == s.subrange(p1, p1 + be_u16(s, p0))
    &&& q == p2
}

/// How reading the operands of `ReservedForAppleUse49` at `p0` ends.
#[verifier::opaque]
pub open spec fn end_reserved_for_apple_use49(s: Seq<u8>, p0: int) -> Decoded<()> {
    match fixed_end(s, p0, 2) { Decoded::Done(_, p1) => match fixed_end(s, p1, be_u16(s, p0)) { Decoded::Done(_, p2) => Decoded::Done((), p2), d => d }, d => d }
}

/// Whether the operands of `ReservedForAppleUse49` at `p0` are the given ones, ending at `q`.
#[verifier::opaque]
pub open spec fn args_reserved_for_apple_use49(s: Seq<u8>, p0: int, f0: u16, f1: Vec<u8>, q: int) -> bool {
    let p1 = after(fixed_end(s, p0, 2));
    let p2 = after(fixed_end(s, p1, be_u16(s, p0)));
    &&& f0 == be_u16(s, p0)
    &&& f1@ == s.subrange(p1, p1 + be_u16(s, p0))
    &&& q == p2
}

/// How reading the operands of `PackBitsRect` at `p0` ends.
#[verifier::opaque]
pub open spec fn end_pack_bits_rect(s: Seq<u8>, p0: int) -> Decoded<()> {
    match copybits_end(s, p0, true, false, true) { Decoded::Done(_, p1) => Decoded::Done((), p1), d => d }
}

/// Whether the operands of `PackBitsRect` at `p0` are the given ones, ending at `q`.
#[verifier::opaque]
pub open spec fn args_pack_bits_rect(s: Seq<u8>, p0: int, f0: CopyBits, q: int) -> bool {
    let p1 = after(copybits_end(s, p0, true, false, true));
    &&& copybits_ok(s, p0, true, false, true, f0)
    &&& q == p1
}

/// How reading the operands of `PackBitsRgn` at `p0` ends.
#[verifier::opaque]
pub open spec fn end_pack_bits_rgn(s: Seq<u8>, p0: int) -> Decoded<()> {
    match copybits_end(s, p0, true, true, true) { Decoded::Done(_, p1) => Decoded::Done((), p1), d => d }
}

/// Whether the operands of `PackBitsRgn` at `p0` are the given ones, ending at `q`.
#[verifier::opaque]
pub open spec fn args_pack_bits_rgn(s: Seq<u8>, p0: int, f0: CopyBits, q: int) -> bool {
    let p1 = after(copybits_end(s, p0, true, true, true));
    &&& copybits_ok(s, p0, true, true, true, f0)
    &&& q == p1
}

/// How reading the operands of `DirectBitsRect` at `p0` ends.
#[verifier::opaque]
pub open spec fn end_direct_bits_rect(s: Seq<u8>, p0: int) -> Decoded<()> {
    match directbits_end(s, p0, false) { Decoded::Done(_, p1) => Decoded::Done((), p1), d => d }
}

/// Whether the operands of `DirectBitsRect` at `p0` are the given ones, ending at `q`.
#[verifier::opaque]
pub open spec fn args_direct_bits_rect(s: Seq<u8>, p0: int, f0: DirectBits, q: int) -> bool {
    let p1 = after(directbits_end(s, p0, false));
    &&& directbits_ok(s, p0, false, f0)
    &&& q == p1
}

/// How reading the operands of `DirectBitsRgn` at `p0` ends.
#[verifier::opaque]
pub open spec fn end_direct_bits_rgn(s: Seq<u8>, p0: int) -> Decoded<()> {
    match directbits_end(s, p0, true) { Decoded::Done(_, p1) => Decoded::Done((), p1), d => d }
}

/// Whether the operands of `DirectBitsRgn` at `p0` are the given ones, ending at `q`.
#[verifier::opaque]
pub open spec fn args_direct_bits_rgn(s: Seq<u8>, p0: int, f0: DirectBits, q: int) -> bool {
    let p1 = after(directbits_end(s, p0, true));
    &&& directbits_ok(s, p0, true, f0)
    &&& q == p1
}

/// How reading the operands of `ReservedForAppleUse50` at `p0` ends.
#[verifier::opaque]
pub open spec fn end_reserved_for_apple_use50(s: Seq<u8>, p0: int) -> Decoded<()> {
    match fixed_end(s, p0, 2) { Decoded::Done(_, p1) => match fixed_end(s, p1, be_u16(s, p0)) { Decoded::Done(_, p2) => Decoded::Done((), p2), d => d }, d => d }
}

/// Whether the operands of `ReservedForAppleUse50` at `p0` are the given ones, ending at `q`.
#[verifier::opaque]
pub open spec fn args_reserved_for_apple_use50(s: Seq<u8>, p0: int, f0: u16, f1: Vec<u8>, q: int) -> bool {
    let p1 = after(fixed_end(s, p0, 2));
    let p2 = after(fixed_end(s, p1, be_u16(s, p0)));
    &&& f0 == be_u16(s, p0)
    &&& f1@ == s.subrange(p1, p1 + be_u16(s, p0))
    &&& q == p2
}

/// How reading the operands of `ReservedForAppleUse51` at `p0` ends.
#[verifier::opaque]
pub open spec fn end_reserved_for_apple_use51(s: Seq<u8>, p0: int) -> Decoded<()> {
    match fixed_end(s, p0, 2) { Decoded::Done(_, p1) => match fixed_end(s, p1, be_u16(s, p0)) { Decoded::Done(_, p2) => Decoded::Done((), p2), d => d }, d => d }
}

/// Whether the operands of `ReservedForAppleUse51` at `p0` are the given ones, ending at `q`.
#[verifier::opaque]
pub open spec fn args_reserved_for_apple_use51(s: Seq<u8>, p0: int, f0: u16, f1: Vec<u8>, q: int) -> bool {
    let p1 = after(fixed_end(s, p0, 2));
    let p2 = after(fixed_end(s, p1, be_u16(s, p0)));
    &&& f0 == be_u16(s, p0)
    &&& f1@ == s.subrange(p1, p1 + be_u16(s, p0))
    &&& q == p2
}

/// How reading the operands of `ReservedForAppleUse52` at `p0` ends.
#[verifier::opaque]
pub open spec fn end_reserved_for_apple_use52(s: Seq<u8>, p0: int) -> Decoded<()> {
    match fixed_end(s, p0, 2) { Decoded::Done(_, p1) => match fixed_end(s, p1, be_u16(s, p0)) { Decoded::Done(_, p2) => Decoded::Done((), p2), d => d }, d => d }
}

/// Whether the operands of `ReservedForAppleUse52` at `p0` are the given ones, ending at `q`.
#[verifier::opaque]
pub open spec fn args_reserved_for_apple_use52(s: Seq<u8>, p0: int, f0: u16, f1: Vec<u8>, q: int) -> bool {
    let p1 = after(fixed_end(s, p0, 2));
    let p2 = after(fixed_end(s, p1, be_u16(s, p0)));
    &&& f0 == be_u16(s, p0)
    &&& f1@ == s.subrange(p1, p1 + be_u16(s, p0))
    &&& q == p2
}

/// How reading the operands of `ReservedForAppleUse53` at `p0` ends.
#[verifier::opaque]
pub open spec fn end_reserved_for_apple_use53(s: Seq<u8>, p0: int) -> Decoded<()> {
    match fixed_end(s, p0, 2) { Decoded::Done(_, p1) => match fixed_end(s, p1, be_u16(s, p0)) { Decoded::Done(_, p2) => Decoded::Done((), p2), d => d }, d => d }
}

/// Whether the operands of `ReservedForAppleUse53` at `p0` are the given ones, ending at `q`.
#[verifier::opaque]
pub open spec fn args_reserved_for_apple_use53(s: Seq<u8>, p0: int, f0: u16, f1: Vec<u8>, q: int) -> bool {
    let p1 = after(fixed_end(s, p0, 2));
    let p2 = after(fixed_end(s, p1, be_u16(s, p0)));
    &&& f0 == be_u16(s, p0)
    &&& f1@ == s.subrange(p1, p1 + be_u16(s, p0))
    &&& q == p2
}

/// How reading the operands of `ShortComment` at `p0` ends.
#[verifier::opaque]
pub open spec fn end_short_comment(s: Seq<u8>, p0: int) -> Decoded<()> {
    match fixed_end(s, p0, 2) { Decoded::Done(_, p1) => Decoded::Done((), p1), d => d }
}

/// Whether the operands of `ShortComment` at `p0` are the given ones, ending at `q`.
#[verifier::opaque]
pub open spec fn args_short_comment(s: Seq<u8>, p0: int, f0: CommentKind, q: int) -> bool {
    let p1 = after(fixed_end(s, p0, 2));
    &&& f0 == comment_kind_of(be_u16(s, p0) as u16)
    &&& q == p1
}

/// How reading the operands of `LongComment` at `p0` ends.
#[verifier::opaque]
pub open spec fn end_long_comment(s: Seq<u8>, p0: int) -> Decoded<()> {
    match fixed_end(s, p0, 2) { Decoded::Done(_, p1) => match fixed_end(s, p1, 2) { Decoded::Done(_, p2) => match fixed_end(s, p2, be_u16(s, p1)) { Decoded::Done(_, p3) => Decoded::Done((), p3), d => d }, d => d }, d => d }
}

/// Whether the operands of `LongComment` at `p0` are the given ones, ending at `q`.
#[verifier::opaque]
pub open spec fn args_long_comment(s: Seq<u8>, p0: int, f0: CommentKind, f1: u16, f2: Vec<u8>, q: int) -> bool {
    let p1 = after(fixed_end(s, p0, 2));
    let p2 = after(fixed_end(s, p1, 2));
    let p3 = after(fixed_end(s, p2, be_u16(s, p1)));
    &&& f0 == comment_kind_of(be_u16(s, p0) as u16)
    &&& f1 == be_u16(s, p1)
    &&& f2@ == s.subrange(p2, p2 + be_u16(s, p1))
    &&& q == p3
}

/// How reading the operands of `ReservedForAppleUse54` at `p0` ends.
#[verifier::opaque]
pub open spec fn end_reserved_for_apple_use54(s: Seq<u8>, p0: int) -> Decoded<()> {
    match fixed_end(s, p0, 2) { Decoded::Done(_, p1) => match fixed_end(s, p1, be_u16(s, p0)) { Decoded::Done(_, p2) => Decoded::Done((), p2), d => d }, d => d }
}

/// Whether the operands of `ReservedForAppleUse54` at `p0` are the given ones, ending at `q`.
#[verifier::opaque]
pub open spec fn args_reserved_for_apple_use54(s: Seq<u8>, p0: int, f0: u16, f1: Vec<u8>, q: int) -> bool {
    let p1 = after(fixed_end(s, p0, 2));
    let p2 = after(fixed_end(s, p1, be_u16(s, p0)));
    &&& f0 == be_u16(s, p0)
    &&& f1@ == s.subrange(p1, p1 + be_u16(s, p0))
    &&& q == p2
}

/// How reading the operands of `ReservedForAppleUse55` at `p0` ends.
#[verifier::opaque]
pub open spec fn end_reserved_for_apple_use55(s: Seq<u8>, p0: int) -> Decoded<()> {
    match fixed_end(s, p0, 2) { Decoded::Done(_, p1) => match fixed_end(s, p1, be_u16(s, p0)) { Decoded::Done(_, p2) => Decoded::Done((), p2), d => d }, d => d }
}

/// Whether the operands of `ReservedForAppleUse55` at `p0` are the given ones, ending at `q`.
#[verifier::opaque]
pub open spec fn args_reserved_for_apple_use55(s: Seq<u8>, p0: int, f0: u16, f1: Vec<u8>, q: int) -> bool {
    let p1 = after(fixed_end(s, p0, 2));
    let p2 = after(fixed_end(s, p1, be_u16(s, p0)));
    &&& f0 == be_u16(s, p0)
    &&& f1@ == s.subrange(p1, p1 + be_u16(s, p0))
    &&& q == p2
}

/// How reading the operands of `ReservedForAppleUse56` at `p0` ends.
#[verifier::opaque]
pub open spec fn end_reserved_for_apple_use56(s: Seq<u8>, p0: int) -> Decoded<()> {
    Decoded::Done((), p0)
}

/// Whether the operands of `ReservedForAppleUse56` at `p0` are the given ones, ending at `q`.
#[verifier::opaque]
pub open spec fn args_reserved_for_apple_use56(s: Seq<u8>, p0: int, q: int) -> bool {
    &&& q == p0
}

/// How reading the operands of `ReservedForAppleUse57` at `p0` ends.
#[verifier::opaque]
pub open spec fn end_reserved_for_apple_use57(s: Seq<u8>, p0: int) -> Decoded<()> {
    Decoded::Done((), p0)
}

/// Whether the operands of `ReservedForAppleUse57` at `p0` are the given ones, ending at `q`.
#[verifier::opaque]
pub open spec fn args_reserved_for_apple_use57(s: Seq<u8>, p0: int, q: int) -> bool {
    &&& q == p0
}

/// How reading the operands of `ReservedForAppleUse58` at `p0` ends.
#[verifier::opaque]
pub open spec fn end_reserved_for_apple_use58(s: Seq<u8>, p0: int) -> Decoded<()> {
    match fixed_end(s, p0, 4) { Decoded::Done(_, p1) => match fixed_end(s, p1, be_u32(s, p0)) { Decoded::Done(_, p2) => Decoded::Done((), p2), d => d }, d => d }
}

/// Whether the operands of `ReservedForAppleUse58` at `p0` are the given ones, ending at `q`.
#[verifier::opaque]
pub open spec fn args_reserved_for_apple_use58(s: Seq<u8>, p0: int, f0: Long, f1: Vec<u8>, q: int) -> bool {
    let p1 = after(fixed_end(s, p0, 4));
    let p2 = after(fixed_end(s, p1, be_u32(s, p0)));
    &&& f0 == be_u32(s, p0)
    &&& f1@ == s.subrange(p1, p1 + be_u32(s, p0))
    &&& q == p2
}

/// How reading the operands of `ReservedForAppleUse59` at `p0` ends.
#[verifier::opaque]
pub open spec fn end_reserved_for_apple_use59(s: Seq<u8>, p0: int) -> Decoded<()> {
    match fixed_end(s, p0, 4) { Decoded::Done(_, p1) => match fixed_end(s, p1, be_u32(s, p0)) { Decoded::Done(_, p2) => Decoded::Done((), p2), d => d }, d => d }
}

/// Whether the operands of `ReservedForAppleUse59` at `p0` are the given ones, ending at `q`.
#[verifier::opaque]
pub open spec fn args_reserved_for_apple_use59(s: Seq<u8>, p0: int, f0: Long, f1: Vec<u8>, q: int) -> bool {
    let p1 = after(fixed_end(s, p0, 4));
    let p2 = after(fixed_end(s, p1, be_u32(s, p0)));
    &&& f0 == be_u32(s, p0)
    &&& f1@ == s.subrange(p1, p1 + be_u32(s, p0))
    &&& q == p2
}

/// How reading the operands of `OpEndPic` at `p0` ends.
#[verifier::opaque]
pub open spec fn end_op_end_pic(s: Seq<u8>, p0: int) -> Decoded<()> {
    Decoded::Done((), p0)
}

/// Whether the operands of `OpEndPic` at `p0` are the given ones, ending at `q`.
#[verifier::opaque]
pub open spec fn args_op_end_pic(s: Seq<u8>, p0: int, q: int) -> bool {
    &&& q == p0
}

/// How reading the operands of `ReservedForAppleUse60` at `p0` ends.
#[verifier::opaque]
pub open spec fn end_reserved_for_apple_use60(s: Seq<u8>, p0: int) -> Decoded<()> {
    match fixed_end(s, p0, 2) { Decoded::Done(_, p1) => Decoded::Done((), p1), d => d }
}

/// Whether the operands of `ReservedForAppleUse60` at `p0` are the given ones, ending at `q`.
#[verifier::opaque]
pub open spec fn args_reserved_for_apple_use60(s: Seq<u8>, p0: int, f0: u16, q: int) -> bool {
    let p1 = after(fixed_end(s, p0, 2));
    &&& f0 == be_u16(s, p0)
    &&& q == p1
}

/// How reading the operands of `ReservedForAppleUse61` at `p0` ends.
#[verifier::opaque]
pub open spec fn end_reserved_for_apple_use61(s: Seq<u8>, p0: int) -> Decoded<()> {
    match fixed_end(s, p0, 2) { Decoded::Done(_, p1) => Decoded::Done((), p1), d => d }
}

/// Whether the operands of `ReservedForAppleUse61` at `p0` are the given ones, ending at `q`.
#[verifier::opaque]
pub open spec fn args_reserved_for_apple_use61(s: Seq<u8>, p0: int, f0: u16, q: int) -> bool {
    let p1 = after(fixed_end(s, p0, 2));
    &&& f0 == be_u16(s, p0)
    &&& q == p1
}

/// How reading the operands of `ReservedForAppleUse62` at `p0` ends.
#[verifier::opaque]
pub open spec fn end_reserved_for_apple_use62(s: Seq<u8>, p0: int) -> Decoded<()> {
    match fixed_end(s, p0, 4) { Decoded::Done(_, p1) => Decoded::Done((), p1), d => d }
}

/// Whether the operands of `ReservedForAppleUse62` at `p0` are the given ones, ending at `q`.
#[verifier::opaque]
pub open spec fn args_reserved_for_apple_use62(s: Seq<u8>, p0: int, f0: u32, q: int) -> bool {
    let p1 = after(fixed_end(s, p0, 4));
    &&& f0 == be_u32(s, p0)
    &&& q == p1
}

/// How reading the operands of `Version` at `p0` ends.
#[verifier::opaque]
pub open spec fn end_version(s: Seq<u8>, p0: int) -> Decoded<()> {
    Decoded::Done((), p0)
}

/// Whether the operands of `Version` at `p0` are the given ones, ending at `q`.
#[verifier::opaque]
pub open spec fn args_version(s: Seq<u8>, p0: int, q: int) -> bool {
    &&& q == p0
}

/// How reading the operands of `ReservedForAppleUse63` at `p0` ends.
#[verifier::opaque]
pub open spec fn end_reserved_for_apple_use63(s: Seq<u8>, p0: int) -> Decoded<()> {
    match fixed_end(s, p0, 22) { Decoded::Done(_, p1) => Decoded::Done((), p1), d => d }
}

/// Whether the operands of `ReservedForAppleUse63` at `p0` are the given ones, ending at `q`.
#[verifier::opaque]
pub open spec fn args_reserved_for_apple_use63(s: Seq<u8>, p0: int, f0: [u8; 22], q: int) -> bool {
    let p1 = after(fixed_end(s, p0, 22));
    &&& f0@ == s.subrange(p0, p0 + 22)
    &&& q == p1
}

/// How reading the operands of `HeaderOp` at `p0` ends.
#[verifier::opaque]
pub open spec fn end_header_op(s: Seq<u8>, p0: int) -> Decoded<()> {
    match fixed_end(s, p0, 24) { Decoded::Done(_, p1) => Decoded::Done((), p1), d => d }
}

/// Whether the operands of `HeaderOp` at `p0` are the given ones, ending at `q`.
#[verifier::opaque]
pub open spec fn args_header_op(s: Seq<u8>, p0: int, f0: Header, q: int) -> bool {
    let p1 = after(fixed_end(s, p0, 24));
    &&& f0 == header_at(s, p0)
    &&& q == p1
}

/// How reading the operands of `ReservedForAppleUse64` at `p0` ends.
#[verifier::opaque]
pub open spec fn end_reserved_for_apple_use64(s: Seq<u8>, p0: int) -> Decoded<()> {
    match fixed_end(s, p0, 24) { Decoded::Done(_, p1) => Decoded::Done((), p1), d => d }
}

/// Whether the operands of `ReservedForAppleUse64` at `p0` are the given ones, ending at `q`.
#[verifier::opaque]
pub open spec fn args_reserved_for_apple_use64(s: Seq<u8>, p0: int, f0: [u8; 24], q: int) -> bool {
    let p1 = after(fixed_end(s, p0, 24));
    &&& f0@ == s.subrange(p0, p0 + 24)
    &&& q == p1
}

/// How reading the operands of `ReservedForAppleUse65` at `p0` ends.
#[verifier::opaque]
pub open spec fn end_reserved_for_apple_use65(s: Seq<u8>, p0: int) -> Decoded<()> {
    match fixed_end(s, p0, 254) { Decoded::Done(_, p1) => Decoded::Done((), p1), d => d }
}

/// Whether the operands of `ReservedForAppleUse65` at `p0` are the given ones, ending at `q`.
#[verifier::opaque]
pub open spec fn args_reserved_for_apple_use65(s: Seq<u8>, p0: int, f0: [u8; 254], q: int) -> bool {
    let p1 = after(fixed_end(s, p0, 254));
    &&& f0@ == s.subrange(p0, p0 + 254)
    &&& q == p1
}

/// How reading the operands of `ReservedForAppleUse66` at `p0` ends.
#[verifier::opaque]
pub open spec fn end_reserved_for_apple_use66(s: Seq<u8>, p0: int) -> Decoded<()> {
    match fixed_end(s, p0, 254) { Decoded::Done(_, p1) => Decoded::Done((), p1), d => d }
}

/// Whether the operands of `ReservedForAppleUse66` at `p0` are the given ones, ending at `q`.
#[verifier::opaque]
pub open spec fn args_reserved_for_apple_use66(s: Seq<u8>, p0: int, f0: [u8; 254], q: int) -> bool {
    let p1 = after(fixed_end(s, p0, 254));
    &&& f0@ == s.subrange(p0, p0 + 254)
    &&& q == p1
}

/// How reading the operands of `ReservedForAppleUse67` at `p0` ends.
#[verifier::opaque]
pub open spec fn end_reserved_for_apple_use67(s: Seq<u8>, p0: int) -> Decoded<()> {
    Decoded::Done((), p0)
}

/// Whether the operands of `ReservedForAppleUse67` at `p0` are the given ones, ending at `q`.
#[verifier::opaque]
pub open spec fn args_reserved_for_apple_use67(s: Seq<u8>, p0: int, q: int) -> bool {
    &&& q == p0
}

/// How reading the operands of `ReservedForAppleUse68` at `p0` ends.
#[verifier::opaque]
pub open spec fn end_reserved_for_apple_use68(s: Seq<u8>, p0: int) -> Decoded<()> {
    Decoded::Done((), p0)
}

/// Whether the operands of `ReservedForAppleUse68` at `p0` are the given ones, ending at `q`.
#[verifier::opaque]
pub open spec fn args_reserved_for_apple_use68(s: Seq<u8>, p0: int, q: int) -> bool {
    &&& q == p0
}

/// How reading the operands of `ReservedForAppleUse69` at `p0` ends.
#[verifier::opaque]
pub open spec fn end_reserved_for_apple_use69(s: Seq<u8>, p0: int) -> Decoded<()> {
    match fixed_end(s, p0, 4) { Decoded::Done(_, p1) => match fixed_end(s, p1, be_u32(s, p0)) { Decoded::Done(_, p2) => Decoded::Done((), p2), d => d }, d => d }
}

/// Whether the operands of `ReservedForAppleUse69` at `p0` are the given ones, ending at `q`.
#[verifier::opaque]
pub open spec fn args_reserved_for_apple_use69(s: Seq<u8>, p0: int, f0: Long, f1: Vec<u8>, q: int) -> bool {
    let p1 = after(fixed_end(s, p0, 4));
    let p2 = after(fixed_end(s, p1, be_u32(s, p0)));
    &&& f0 == be_u32(s, p0)
    &&& f1@ == s.subrange(p1, p1 + be_u32(s, p0))
    &&& q == p2
}

/// How reading the operands of `CompressedQuickTime` at `p0` ends.
#[verifier::opaque]
pub open spec fn end_compressed_quick_time(s: Seq<u8>, p0: int) -> Decoded<()> {
    match fixed_end(s, p0, 4) { Decoded::Done(_, p1) => match fixed_end(s, p1, be_u32(s, p0)) { Decoded::Done(_, p2) => Decoded::Done((), p2), d => d }, d => d }
}

/// Whether the operands of `CompressedQuickTime` at `p0` are the given ones, ending at `q`.
#[verifier::opaque]
pub open spec fn args_compressed_quick_time(s: Seq<u8>, p0: int, f0: Long, f1: Vec<u8>, q: int) -> bool {
    let p1 = after(fixed_end(s, p0, 4));
    let p2 = after(fixed_end(s, p1, be_u32(s, p0)));
    &&& f0 == be_u32(s, p0)
    &&& f1@ == s.subrange(p1, p1 + be_u32(s, p0))
    &&& q == p2
}

/// How reading the operands of `UncompressedQuickTime` at `p0` ends.
#[verifier::opaque]
pub open spec fn end_uncompressed_quick_time(s: Seq<u8>, p0: int) -> Decoded<()> {
    match fixed_end(s, p0, 4) { Decoded::Done(_, p1) => match fixed_end(s, p1, be_u32(s, p0)) { Decoded::Done(_, p2) => Decoded::Done((), p2), d => d }, d => d }
}

/// Whether the operands of `UncompressedQuickTime` at `p0` are the given ones, ending at `q`.
#[verifier::opaque]
pub open spec fn args_uncompressed_quick_time(s: Seq<u8>, p0: int, f0: Long, f1: Vec<u8>, q: int) -> bool {
    let p1 = after(fixed_end(s, p0, 4));
    let p2 = after(fixed_end(s, p1, be_u32(s, p0)));
    &&& f0 == be_u32(s, p0)
    &&& f1@ == s.subrange(p1, p1 + be_u32(s, p0))
    &&& q == p2
}

/// How reading the operands of `ReservedForAppleUse70` at `p0` ends.
#[verifier::opaque]
pub open spec fn end_reserved_for_apple_use70(s: Seq<u8>, p0: int) -> Decoded<()> {
    match fixed_end(s, p0, 4) { Decoded::Done(_, p1) => match fixed_end(s, p1, be_u32(s, p0)) { Decoded::Done(_, p2) => Decoded::Done((), p2), d => d }, d => d }
}

/// Whether the operands of `ReservedForAppleUse70` at `p0` are the given ones, ending at `q`.
#[verifier::opaque]
pub open spec fn args_reserved_for_apple_use70(s: Seq<u8>, p0: int, f0: Long, f1: Vec<u8>, q: int) -> bool {
    let p1 = after(fixed_end(s, p0, 4));
    let p2 = after(fixed_end(s, p1, be_u32(s, p0)));
    &&& f0 == be_u32(s, p0)
    &&& f1@ == s.subrange(p1, p1 + be_u32(s, p0))
    &&& q == p2
}

/// How reading the operands of the opcode at `pos` ends: where they end,
/// `Malformed` when they cannot be read (or the opcode is not known), or
/// `Fatal` where the decoder aborts.
pub open spec fn payload_end(s: Seq<u8>, pos: int) -> Decoded<()> {
    let p0 = pos + 2;
    match (be_u16(s, pos) as u16) {
        0x0000 => end_nop(s, p0),
        0x0001 => end_clip(s, p0),
        0x0002 => end_bk_pat(s, p0),
        0x0003 => end_tx_font(s, p0),
        0x0004 => end_tx_face(s, p0),
        0x0005 => end_tx_mode(s, p0),
        0x0006 => end_sp_extra(s, p0),
        0x0007 => end_pn_size(s, p0),
        0x0008 => end_pn_mode(s, p0),
        0x0009 => end_pn_pat(s, p0),
        0x000A => end_fill_pat(s, p0),
        0x000B => end_ov_size(s, p0),
        0x000C => end_origin(s, p0),
        0x000D => end_tx_size(s, p0),
        0x000E => end_fg_color(s, p0),
        0x000F => end_bk_color(s, p0),
        0x0010 => end_tx_ratio(s, p0),
        0x0011 => end_version_op(s, p0),
        0x0012 => end_bk_pix_pat(s, p0),
        0x0013 => end_pn_pix_pat(s, p0),
        0x0014 => end_fill_pix_pat(s, p0),
        0x0015 => end_pn_loc_h_frac(s, p0),
        0x0016 => end_ch_extra(s, p0),
        0x0017 => end_reserved_for_apple_use(s, p0),
        0x0018 => end_reserved_for_apple_use1(s, p0),
        0x0019 => end_reserved_for_apple_use2(s, p0),
        0x001A => end_rgb_fg_color(s, p0),
        0x001B => end_rgb_bk_col(s, p0),
        0x001C => end_hilite_mode(s, p0),
        0x001D => end_hilite_color(s, p0),
        0x001E => end_def_hilite(s, p0),
        0x001F => end_op_color(s, p0),
        0x0020 => end_line(s, p0),
        0x0021 => end_line_from(s, p0),
        0x0022 => end_short_line(s, p0),
        0x0023 => end_short_line_from(s, p0),
        0x0024 => end_reserved_for_apple_use3(s, p0),
        0x0025 => end_reserved_for_apple_use4(s, p0),
        0x0026 => end_reserved_for_apple_use5(s, p0),
        0x0027 => end_reserved_for_apple_use6(s, p0),
        0x0028 => end_long_text(s, p0),
        0x0029 => end_dh_text(s, p0),
        0x002A => end_dv_text(s, p0),
        0x002B => end_dhdv_text(s, p0),
        0x002C => end_font_name(s, p0),
        0x002D => end_line_justify(s, p0),
        0x002E => end_glyph_state(s, p0),
        0x002F => end_reserved_for_apple_use7(s, p0),
        0x0030 => end_frame_rect(s, p0),
        0x0031 => end_paint_rect(s, p0),
        0x0032 => end_erase_rect(s, p0),
        0x0033 => end_invert_rect(s, p0),
        0x0034 => end_fill_rect(s, p0),
        0x0035 => end_reserved_for_apple_use8(s, p0),
        0x0036 => end_reserved_for_apple_use9(s, p0),
        0x0037 => end_reserved_for_apple_use10(s, p0),
        0x0038 => end_frame_same_rect(s, p0),
        0x0039 => end_paint_same_rect(s, p0),
        0x003A => end_erase_same_rect(s, p0),
        0x003B => end_invert_same_rect(s, p0),
        0x003C => end_fill_same_rect(s, p0),
        0x003D => end_reserved_for_apple_use11(s, p0),
        0x003E => end_reserved_for_apple_use12(s, p0),
        0x003F => end_reserved_for_apple_use13(s, p0),
        0x0040 => end_frame_r_rect(s, p0),
        0x0041 => end_paint_r_rect(s, p0),
        0x0042 => end_erase_r_rect(s, p0),
        0x0043 => end_invert_r_rect(s, p0),
        0x0044 => end_fill_r_rect(s, p0),
        0x0045 => end_reserved_for_apple_use14(s, p0),
        0x0046 => end_reserved_for_apple_use15(s, p0),
        0x0047 => end_reserved_for_apple_use16(s, p0),
        0x0048 => end_frame_same_r_rect(s, p0),
        0x0049 => end_paint_same_r_rect(s, p0),
        0x004A => end_erase_same_r_rect(s, p0),
        0x004B => end_invert_same_r_rect(s, p0),
        0x004C => end_fill_same_r_rect(s, p0),
        0x004D => end_reserved_for_apple_use17(s, p0),
        0x004E => end_reserved_for_apple_use18(s, p0),
        0x004F => end_reserved_for_apple_use19(s, p0),
        0x0050 => end_frame_oval(s, p0),
        0x0051 => end_paint_oval(s, p0),
        0x0052 => end_erase_oval(s, p0),
        0x0053 => end_invert_oval(s, p0),
        0x0054 => end_fill_oval(s, p0),
        0x0055 => end_reserved_for_apple_use20(s, p0),
        0x0056 => end_reserved_for_apple_use21(s, p0),
        0x0057 => end_reserved_for_apple_use22(s, p0),
        0x0058 => end_frame_same_oval(s, p0),
        0x0059 => end_paint_same_oval(s, p0),
        0x005A => end_erase_same_oval(s, p0),
        0x005B => end_invert_same_oval(s, p0),
        0x005C => end_fill_same_oval(s, p0),
        0x005D => end_reserved_for_apple_use23(s, p0),
        0x005E => end_reserved_for_apple_use24(s, p0),
        0x005F => end_reserved_for_apple_use25(s, p0),
        0x0060 => end_frame_arc(s, p0),
        0x0061 => end_paint_arc(s, p0),
        0x0062 => end_erase_arc(s, p0),
        0x0063 => end_invert_arc(s, p0),
        0x0064 => end_fill_arc(s, p0),
        0x0065 => end_reserved_for_apple_use26(s, p0),
        0x0066 => end_reserved_for_apple_use27(s, p0),
        0x0067 => end_reserved_for_apple_use28(s, p0),
        0x0068 => end_frame_same_arc(s, p0),
        0x0069 => end_paint_same_arc(s, p0),
        0x006A => end_erase_same_arc(s, p0),
        0x006B => end_invert_same_arc(s, p0),
        0x006C => end_fill_same_arc(s, p0),
        0x006D => end_reserved_for_apple_use29(s, p0),
        0x006E => end_reserved_for_apple_use30(s, p0),
        0x006F => end_reserved_for_apple_use31(s, p0),
        0x0070 => end_frame_poly(s, p0),
        0x0071 => end_paint_poly(s, p0),
        0x0072 => end_erase_poly(s, p0),
        0x0073 => end_invert_poly(s, p0),
        0x0074 => end_fill_poly(s, p0),
        0x0075 => end_reserved_for_apple_use32(s, p0),
        0x0076 => end_reserved_for_apple_use33(s, p0),
        0x0077 => end_reserved_for_apple_use34(s, p0),
        0x0078 => end_frame_same_poly(s, p0),
        0x0079 => end_paint_same_poly(s, p0),
        0x007A => end_erase_same_poly(s, p0),
        0x007B => end_invert_same_poly(s, p0),
        0x007C => end_fill_same_poly(s, p0),
        0x007D => end_reserved_for_apple_use35(s, p0),
        0x007E => end_reserved_for_apple_use36(s, p0),
        0x007F => end_reserved_for_apple_use37(s, p0),
        0x0080 => end_frame_rgn(s, p0),
        0x0081 => end_paint_rgn(s, p0),
        0x0082 => end_erase_rgn(s, p0),
        0x0083 => end_invert_rgn(s, p0),
        0x0084 => end_fill_rgn(s, p0),
        0x0085 => end_reserved_for_apple_use38(s, p0),
        0x0086 => end_reserved_for_apple_use39(s, p0),
        0x0087 => end_reserved_for_apple_use40(s, p0),
        0x0088 => end_frame_same_rgn(s, p0),
        0x0089 => end_paint_same_rgn(s, p0),
        0x008A => end_erase_same_rgn(s, p0),
        0x008B => end_invert_same_rgn(s, p0),
        0x008C => end_fill_same_rgn(s, p0),
        0x008D => end_reserved_for_apple_use41(s, p0),
        0x008E => end_reserved_for_apple_use42(s, p0),
        0x008F => end_reserved_for_apple_use43(s, p0),
        0x0090 => end_bits_rect(s, p0),
        0x0091 => end_bits_rgn(s, p0),
        0x0092 => end_reserved_for_apple_use44(s, p0),
        0x0093 => end_reserved_for_apple_use45(s, p0),
        0x0094 => end_reserved_for_apple_use46(s, p0),
        0x0095 => end_reserved_for_apple_use47(s, p0),
        0x0096 => end_reserved_for_apple_use48(s, p0),
        0x0097 => end_reserved_for_apple_use49(s, p0),
        0x0098 => end_pack_bits_rect(s, p0),
        0x0099 => end_pack_bits_rgn(s, p0),
        0x009A => end_direct_bits_rect(s, p0),
        0x009B => end_direct_bits_rgn(s, p0),
        0x009C => end_reserved_for_apple_use50(s, p0),
        0x009D => end_reserved_for_apple_use51(s, p0),
        0x009E => end_reserved_for_apple_use52(s, p0),
        0x009F => end_reserved_for_apple_use53(s, p0),
        0x00A0 => end_short_comment(s, p0),
        0x00A1 => end_long_comment(s, p0),
        0x00A2 => end_reserved_for_apple_use54(s, p0),
        0x00AF => end_reserved_for_apple_use55(s, p0),
        0x00B0 => end_reserved_for_apple_use56(s, p0),
        0x00CF => end_reserved_for_apple_use57(s, p0),
        0x00D0 => end_reserved_for_apple_use58(s, p0),
        0x00FE => end_reserved_for_apple_use59(s, p0),
        0x00FF => end_op_end_pic(s, p0),
        0x0100 => end_reserved_for_apple_use60(s, p0),
        0x01FF => end_reserved_for_apple_use61(s, p0),
        0x0200 => end_reserved_for_apple_use62(s, p0),
        0x02FF => end_version(s, p0),
        0x0BFF => end_reserved_for_apple_use63(s, p0),
        0x0C00 => end_header_op(s, p0),
        0x0C01 => end_reserved_for_apple_use64(s, p0),
        0x7F00 => end_reserved_for_apple_use65(s, p0),
        0x7FFF => end_reserved_for_apple_use66(s, p0),
        0x8000 => end_reserved_for_apple_use67(s, p0),
        0x80FF => end_reserved_for_apple_use68(s, p0),
        0x8100 => end_reserved_for_apple_use69(s, p0),
        0x8200 => end_compressed_quick_time(s, p0),
        0x8201 => end_uncompressed_quick_time(s, p0),
        0xFFFF => end_reserved_for_apple_use70(s, p0),
        _ => Decoded::Malformed,
    }
}

/// Whether `op`, ending at `q`, is the opcode stored at `pos` with its
/// operands.
pub open spec fn op_at(s: Seq<u8>, pos: int, op: Opcode, q: int) -> bool {
    let p0 = pos + 2;
    match op {
        Opcode::NOP => (be_u16(s, pos) as u16) == 0x0000 && args_nop(s, p0, q),
        Opcode::Clip(f0) => (be_u16(s, pos) as u16) == 0x0001 && args_clip(s, p0, f0, q),
        Opcode::BkPat(f0) => (be_u16(s, pos) as u16) == 0x0002 && args_bk_pat(s, p0, f0, q),
        Opcode::TxFont(f0) => (be_u16(s, pos) as u16) == 0x0003 && args_tx_font(s, p0, f0, q),
        Opcode::TxFace(f0) => (be_u16(s, pos) as u16) == 0x0004 && args_tx_face(s, p0, f0, q),
        Opcode::TxMode(f0) => (be_u16(s, pos) as u16) == 0x0005 && args_tx_mode(s, p0, f0, q),
        Opcode::SpExtra(f0) => (be_u16(s, pos) as u16) == 0x0006 && args_sp_extra(s, p0, f0, q),
        Opcode::PnSize(f0) => (be_u16(s, pos) as u16) == 0x0007 && args_pn_size(s, p0, f0, q),
        Opcode::PnMode(f0) => (be_u16(s, pos) as u16) == 0x0008 && args_pn_mode(s, p0, f0, q),
        Opcode::PnPat(f0) => (be_u16(s, pos) as u16) == 0x0009 && args_pn_pat(s, p0, f0, q),
        Opcode::FillPat(f0) => (be_u16(s, pos) as u16) == 0x000A && args_fill_pat(s, p0, f0, q),
        Opcode::OvSize(f0) => (be_u16(s, pos) as u16) == 0x000B && args_ov_size(s, p0, f0, q),
        Opcode::Origin(f0, f1) => (be_u16(s, pos) as u16) == 0x000C && args_origin(s, p0, f0, f1, q),
        Opcode::TxSize(f0) => (be_u16(s, pos) as u16) == 0x000D && args_tx_size(s, p0, f0, q),
        Opcode::FgColor(f0) => (be_u16(s, pos) as u16) == 0x000E && args_fg_color(s, p0, f0, q),
        Opcode::BkColor(f0) => (be_u16(s, pos) as u16) == 0x000F && args_bk_color(s, p0, f0, q),
        Opcode::TxRatio(f0, f1) => (be_u16(s, pos) as u16) == 0x0010 && args_tx_ratio(s, p0, f0, f1, q),
        Opcode::VersionOp => (be_u16(s, pos) as u16) == 0x0011 && args_version_op(s, p0, q),
        Opcode::BkPixPat(f0) => (be_u16(s, pos) as u16) == 0x0012 && args_bk_pix_pat(s, p0, f0, q),
        Opcode::PnPixPat(f0) => (be_u16(s, pos) as u16) == 0x0013 && args_pn_pix_pat(s, p0, f0, q),
        Opcode::FillPixPat(f0) => (be_u16(s, pos) as u16) == 0x0014 && args_fill_pix_pat(s, p0, f0, q),
        Opcode::PnLocHFrac(f0) => (be_u16(s, pos) as u16) == 0x0015 && args_pn_loc_h_frac(s, p0, f0, q),
        Opcode::ChExtra(f0) => (be_u16(s, pos) as u16) == 0x0016 && args_ch_extra(s, p0, f0, q),
        Opcode::ReservedForAppleUse => (be_u16(s, pos) as u16) == 0x0017 && args_reserved_for_apple_use(s, p0, q),
        Opcode::ReservedForAppleUse1 => (be_u16(s, pos) as u16) == 0x0018 && args_reserved_for_apple_use1(s, p0, q),
        Opcode::ReservedForAppleUse2 => (be_u16(s, pos) as u16) == 0x0019 && args_reserved_for_apple_use2(s, p0, q),
        Opcode::RGBFgColor(f0) => (be_u16(s, pos) as u16) == 0x001A && args_rgb_fg_color(s, p0, f0, q),
        Opcode::RGBBkCol(f0) => (be_u16(s, pos) as u16) == 0x001B && args_rgb_bk_col(s, p0, f0, q),
        Opcode::HiliteMode => (be_u16(s, pos) as u16) == 0x001C && args_hilite_mode(s, p0, q),
        Opcode::HiliteColor(f0) => (be_u16(s, pos) as u16) == 0x001D && args_hilite_color(s, p0, f0, q),
        Opcode::DefHilite => (be_u16(s, pos) as u16) == 0x001E && args_def_hilite(s, p0, q),
        Opcode::OpColor(f0) => (be_u16(s, pos) as u16) == 0x001F && args_op_color(s, p0, f0, q),
        Opcode::Line(f0, f1) => (be_u16(s, pos) as u16) == 0x0020 && args_line(s, p0, f0, f1, q),
        Opcode::LineFrom(f0) => (be_u16(s, pos) as u16) == 0x0021 && args_line_from(s, p0, f0, q),
        Opcode::ShortLine(f0, f1, f2) => (be_u16(s, pos) as u16) == 0x0022 && args_short_line(s, p0, f0, f1, f2, q),
        Opcode::ShortLineFrom(f0, f1) => (be_u16(s, pos) as u16) == 0x0023 && args_short_line_from(s, p0, f0, f1, q),
        Opcode::ReservedForAppleUse3(f0, f1) => (be_u16(s, pos) as u16) == 0x0024 && args_reserved_for_apple_use3(s, p0, f0, f1, q),
        Opcode::ReservedForAppleUse4(f0, f1) => (be_u16(s, pos) as u16) == 0x0025 && args_reserved_for_apple_use4(s, p0, f0, f1, q),
        Opcode::ReservedForAppleUse5(f0, f1) => (be_u16(s, pos) as u16) == 0x0026 && args_reserved_for_apple_use5(s, p0, f0, f1, q),
        Opcode::ReservedForAppleUse6(f0, f1) => (be_u16(s, pos) as u16) == 0x0027 && args_reserved_for_apple_use6(s, p0, f0, f1, q),
        Opcode::LongText(f0, f1) => (be_u16(s, pos) as u16) == 0x0028 && args_long_text(s, p0, f0, f1, q),
        Opcode::DHText(f0, f1) => (be_u16(s, pos) as u16) == 0x0029 && args_dh_text(s, p0, f0, f1, q),
        Opcode::DVText(f0, f1) => (be_u16(s, pos) as u16) == 0x002A && args_dv_text(s, p0, f0, f1, q),
        Opcode::DHDVText(f0, f1, f2) => (be_u16(s, pos) as u16) == 0x002B && args_dhdv_text(s, p0, f0, f1, f2, q),
        Opcode::FontName(f0, f1, f2) => (be_u16(s, pos) as u16) == 0x002C && args_font_name(s, p0, f0, f1, f2, q),
        Opcode::LineJustify(f0, f1, f2) => (be_u16(s, pos) as u16) == 0x002D && args_line_justify(s, p0, f0, f1, f2, q),
        Opcode::GlyphState(f0, f1, f2, f3, f4) => (be_u16(s, pos) as u16) == 0x002E && args_glyph_state(s, p0, f0, f1, f2, f3, f4, q),
        Opcode::ReservedForAppleUse7(f0, f1) => (be_u16(s, pos) as u16) == 0x002F && args_reserved_for_apple_use7(s, p0, f0, f1, q),
        Opcode::FrameRect(f0) => (be_u16(s, pos) as u16) == 0x0030 && args_frame_rect(s, p0, f0, q),
        Opcode::PaintRect(f0) => (be_u16(s, pos) as u16) == 0x0031 && args_paint_rect(s, p0, f0, q),
        Opcode::EraseRect(f0) => (be_u16(s, pos) as u16) == 0x0032 && args_erase_rect(s, p0, f0, q),
        Opcode::InvertRect(f0) => (be_u16(s, pos) as u16) == 0x0033 && args_invert_rect(s, p0, f0, q),
        Opcode::FillRect(f0) => (be_u16(s, pos) as u16) == 0x0034 && args_fill_rect(s, p0, f0, q),
        Opcode::ReservedForAppleUse8(f0) => (be_u16(s, pos) as u16) == 0x0035 && args_reserved_for_apple_use8(s, p0, f0, q),
        Opcode::ReservedForAppleUse9(f0) => (be_u16(s, pos) as u16) == 0x0036 && args_reserved_for_apple_use9(s, p0, f0, q),
        Opcode::ReservedForAppleUse10(f0) => (be_u16(s, pos) as u16) == 0x0037 && args_reserved_for_apple_use10(s, p0, f0, q),
        Opcode::FrameSameRect => (be_u16(s, pos) as u16) == 0x0038 && args_frame_same_rect(s, p0, q),
        Opcode::PaintSameRect => (be_u16(s, pos) as u16) == 0x0039 && args_paint_same_rect(s, p0, q),
        Opcode::EraseSameRect => (be_u16(s, pos) as u16) == 0x003A && args_erase_same_rect(s, p0, q),
        Opcode::InvertSameRect => (be_u16(s, pos) as u16) == 0x003B && args_invert_same_rect(s, p0, q),
        Opcode::FillSameRect => (be_u16(s, pos) as u16) == 0x003C && args_fill_same_rect(s, p0, q),
        Opcode::ReservedForAppleUse11 => (be_u16(s, pos) as u16) == 0x003D && args_reserved_for_apple_use11(s, p0, q),
        Opcode::ReservedForAppleUse12 => (be_u16(s, pos) as u16) == 0x003E && args_reserved_for_apple_use12(s, p0, q),
        Opcode::ReservedForAppleUse13 => (be_u16(s, pos) as u16) == 0x003F && args_reserved_for_apple_use13(s, p0, q),
        Opcode::FrameRRect(f0) => (be_u16(s, pos) as u16) == 0x0040 && args_frame_r_rect(s, p0, f0, q),
        Opcode::PaintRRect(f0) => (be_u16(s, pos) as u16) == 0x0041 && args_paint_r_rect(s, p0, f0, q),
        Opcode::EraseRRect(f0) => (be_u16(s, pos) as u16) == 0x0042 && args_erase_r_rect(s, p0, f0, q),
        Opcode::InvertRRect(f0) => (be_u16(s, pos) as u16) == 0x0043 && args_invert_r_rect(s, p0, f0, q),
        Opcode::FillRRect(f0) => (be_u16(s, pos) as u16) == 0x0044 && args_fill_r_rect(s, p0, f0, q),
        Opcode::ReservedForAppleUse14(f0) => (be_u16(s, pos) as u16) == 0x0045 && args_reserved_for_apple_use14(s, p0, f0, q),
        Opcode::ReservedForAppleUse15(f0) => (be_u16(s, pos) as u16) == 0x0046 && args_reserved_for_apple_use15(s, p0, f0, q),
        Opcode::ReservedForAppleUse16(f0) => (be_u16(s, pos) as u16) == 0x0047 && args_reserved_for_apple_use16(s, p0, f0, q),
        Opcode::FrameSameRRect => (be_u16(s, pos) as u16) == 0x0048 && args_frame_same_r_rect(s, p0, q),
        Opcode::PaintSameRRect => (be_u16(s, pos) as u16) == 0x0049 && args_paint_same_r_rect(s, p0, q),
        Opcode::EraseSameRRect => (be_u16(s, pos) as u16) == 0x004A && args_erase_same_r_rect(s, p0, q),
        Opcode::InvertSameRRect => (be_u16(s, pos) as u16) == 0x004B && args_invert_same_r_rect(s, p0, q),
        Opcode::FillSameRRect => (be_u16(s, pos) as u16) == 0x004C && args_fill_same_r_rect(s, p0, q),
        Opcode::ReservedForAppleUse17 => (be_u16(s, pos) as u16) == 0x004D && args_reserved_for_apple_use17(s, p0, q),
        Opcode::ReservedForAppleUse18 => (be_u16(s, pos) as u16) == 0x004E && args_reserved_for_apple_use18(s, p0, q),
        Opcode::ReservedForAppleUse19 => (be_u16(s, pos) as u16) == 0x004F && args_reserved_for_apple_use19(s, p0, q),
        Opcode::FrameOval(f0) => (be_u16(s, pos) as u16) == 0x0050 && args_frame_oval(s, p0, f0, q),
        Opcode::PaintOval(f0) => (be_u16(s, pos) as u16) == 0x0051 && args_paint_oval(s, p0, f0, q),
        Opcode::EraseOval(f0) => (be_u16(s, pos) as u16) == 0x0052 && args_erase_oval(s, p0, f0, q),
        Opcode::InvertOval(f0) => (be_u16(s, pos) as u16) == 0x0053 && args_invert_oval(s, p0, f0, q),
        Opcode::FillOval(f0) => (be_u16(s, pos) as u16) == 0x0054 && args_fill_oval(s, p0, f0, q),
        Opcode::ReservedForAppleUse20(f0) => (be_u16(s, pos) as u16) == 0x0055 && args_reserved_for_apple_use20(s, p0, f0, q),
        Opcode::ReservedForAppleUse21(f0) => (be_u16(s, pos) as u16) == 0x0056 && args_reserved_for_apple_use21(s, p0, f0, q),
        Opcode::ReservedForAppleUse22(f0) => (be_u16(s, pos) as u16) == 0x0057 && args_reserved_for_apple_use22(s, p0, f0, q),
        Opcode::FrameSameOval => (be_u16(s, pos) as u16) == 0x0058 && args_frame_same_oval(s, p0, q),
        Opcode::PaintSameOval => (be_u16(s, pos) as u16) == 0x0059 && args_paint_same_oval(s, p0, q),
        Opcode::EraseSameOval => (be_u16(s, pos) as u16) == 0x005A && args_erase_same_oval(s, p0, q),
        Opcode::InvertSameOval => (be_u16(s, pos) as u16) == 0x005B && args_invert_same_oval(s, p0, q),
        Opcode::FillSameOval => (be_u16(s, pos) as u16) == 0x005C && args_fill_same_oval(s, p0, q),
        Opcode::ReservedForAppleUse23 => (be_u16(s, pos) as u16) == 0x005D && args_reserved_for_apple_use23(s, p0, q),
        Opcode::ReservedForAppleUse24 => (be_u16(s, pos) as u16) == 0x005E && args_reserved_for_apple_use24(s, p0, q),
        Opcode::ReservedForAppleUse25 => (be_u16(s, pos) as u16) == 0x005F && args_reserved_for_apple_use25(s, p0, q),
        Opcode::FrameArc(f0, f1, f2) => (be_u16(s, pos) as u16) == 0x0060 && args_frame_arc(s, p0, f0, f1, f2, q),
        Opcode::PaintArc(f0, f1, f2) => (be_u16(s, pos) as u16) == 0x0061 && args_paint_arc(s, p0, f0, f1, f2, q),
        Opcode::EraseArc(f0, f1, f2) => (be_u16(s, pos) as u16) == 0x0062 && args_erase_arc(s, p0, f0, f1, f2, q),
        Opcode::InvertArc(f0, f1, f2) => (be_u16(s, pos) as u16) == 0x0063 && args_invert_arc(s, p0, f0, f1, f2, q),
        Opcode::FillArc(f0, f1, f2) => (be_u16(s, pos) as u16) == 0x0064 && args_fill_arc(s, p0, f0, f1, f2, q),
        Opcode::ReservedForAppleUse26(f0, f1, f2) => (be_u16(s, pos) as u16) == 0x0065 && args_reserved_for_apple_use26(s, p0, f0, f1, f2, q),
        Opcode::ReservedForAppleUse27(f0, f1, f2) => (be_u16(s, pos) as u16) == 0x0066 && args_reserved_for_apple_use27(s, p0, f0, f1, f2, q),
        Opcode::ReservedForAppleUse28(f0, f1, f2) => (be_u16(s, pos) as u16) == 0x0067 && args_reserved_for_apple_use28(s, p0, f0, f1, f2, q),
        Opcode::FrameSameArc(f0, f1) => (be_u16(s, pos) as u16) == 0x0068 && args_frame_same_arc(s, p0, f0, f1, q),
        Opcode::PaintSameArc(f0, f1) => (be_u16(s, pos) as u16) == 0x0069 && args_paint_same_arc(s, p0, f0, f1, q),
        Opcode::EraseSameArc(f0, f1) => (be_u16(s, pos) as u16) == 0x006A && args_erase_same_arc(s, p0, f0, f1, q),
        Opcode::InvertSameArc(f0, f1) => (be_u16(s, pos) as u16) == 0x006B && args_invert_same_arc(s, p0, f0, f1, q),
        Opcode::FillSameArc(f0, f1) => (be_u16(s, pos) as u16) == 0x006C && args_fill_same_arc(s, p0, f0, f1, q),
        Opcode::ReservedForAppleUse29(f0, f1) => (be_u16(s, pos) as u16) == 0x006D && args_reserved_for_apple_use29(s, p0, f0, f1, q),
        Opcode::ReservedForAppleUse30(f0, f1) => (be_u16(s, pos) as u16) == 0x006E && args_reserved_for_apple_use30(s, p0, f0, f1, q),
        Opcode::ReservedForAppleUse31(f0, f1) => (be_u16(s, pos) as u16) == 0x006F && args_reserved_for_apple_use31(s, p0, f0, f1, q),
        Opcode::FramePoly(f0) => (be_u16(s, pos) as u16) == 0x0070 && args_frame_poly(s, p0, f0, q),
        Opcode::PaintPoly(f0) => (be_u16(s, pos) as u16) == 0x0071 && args_paint_poly(s, p0, f0, q),
        Opcode::ErasePoly(f0) => (be_u16(s, pos) as u16) == 0x0072 && args_erase_poly(s, p0, f0, q),
        Opcode::InvertPoly(f0) => (be_u16(s, pos) as u16) == 0x0073 && args_invert_poly(s, p0, f0, q),
        Opcode::FillPoly(f0) => (be_u16(s, pos) as u16) == 0x0074 && args_fill_poly(s, p0, f0, q),
        Opcode::ReservedForAppleUse32(f0) => (be_u16(s, pos) as u16) == 0x0075 && args_reserved_for_apple_use32(s, p0, f0, q),
        Opcode::ReservedForAppleUse33(f0) => (be_u16(s, pos) as u16) == 0x0076 && args_reserved_for_apple_use33(s, p0, f0, q),
        Opcode::ReservedForAppleUse34(f0) => (be_u16(s, pos) as u16) == 0x0077 && args_reserved_for_apple_use34(s, p0, f0, q),
        Opcode::FrameSamePoly => (be_u16(s, pos) as u16) == 0x0078 && args_frame_same_poly(s, p0, q),
        Opcode::PaintSamePoly => (be_u16(s, pos) as u16) == 0x0079 && args_paint_same_poly(s, p0, q),
        Opcode::EraseSamePoly => (be_u16(s, pos) as u16) == 0x007A && args_erase_same_poly(s, p0, q),
        Opcode::InvertSamePoly => (be_u16(s, pos) as u16) == 0x007B && args_invert_same_poly(s, p0, q),
        Opcode::FillSamePoly => (be_u16(s, pos) as u16) == 0x007C && args_fill_same_poly(s, p0, q),
        Opcode::ReservedForAppleUse35 => (be_u16(s, pos) as u16) == 0x007D && args_reserved_for_apple_use35(s, p0, q),
        Opcode::ReservedForAppleUse36 => (be_u16(s, pos) as u16) == 0x007E && args_reserved_for_apple_use36(s, p0, q),
        Opcode::ReservedForAppleUse37 => (be_u16(s, pos) as u16) == 0x007F && args_reserved_for_apple_use37(s, p0, q),
        Opcode::FrameRgn(f0) => (be_u16(s, pos) as u16) == 0x0080 && args_frame_rgn(s, p0, f0, q),
        Opcode::PaintRgn(f0) => (be_u16(s, pos) as u16) == 0x0081 && args_paint_rgn(s, p0, f0, q),
        Opcode::EraseRgn(f0) => (be_u16(s, pos) as u16) == 0x0082 && args_erase_rgn(s, p0, f0, q),
        Opcode::InvertRgn(f0) => (be_u16(s, pos) as u16) == 0x0083 && args_invert_rgn(s, p0, f0, q),
        Opcode::FillRgn(f0) => (be_u16(s, pos) as u16) == 0x0084 && args_fill_rgn(s, p0, f0, q),
        Opcode::ReservedForAppleUse38(f0) => (be_u16(s, pos) as u16) == 0x0085 && args_reserved_for_apple_use38(s, p0, f0, q),
        Opcode::ReservedForAppleUse39(f0) => (be_u16(s, pos) as u16) == 0x0086 && args_reserved_for_apple_use39(s, p0, f0, q),
        Opcode::ReservedForAppleUse40(f0) => (be_u16(s, pos) as u16) == 0x0087 && args_reserved_for_apple_use40(s, p0, f0, q),
        Opcode::FrameSameRgn => (be_u16(s, pos) as u16) == 0x0088 && args_frame_same_rgn(s, p0, q),
        Opcode::PaintSameRgn => (be_u16(s, pos) as u16) == 0x0089 && args_paint_same_rgn(s, p0, q),
        Opcode::EraseSameRgn => (be_u16(s, pos) as u16) == 0x008A && args_erase_same_rgn(s, p0, q),
        Opcode::InvertSameRgn => (be_u16(s, pos) as u16) == 0x008B && args_invert_same_rgn(s, p0, q),
        Opcode::FillSameRgn => (be_u16(s, pos) as u16) == 0x008C && args_fill_same_rgn(s, p0, q),
        Opcode::ReservedForAppleUse41 => (be_u16(s, pos) as u16) == 0x008D && args_reserved_for_apple_use41(s, p0, q),
        Opcode::ReservedForAppleUse42 => (be_u16(s, pos) as u16) == 0x008E && args_reserved_for_apple_use42(s, p0, q),
        Opcode::ReservedForAppleUse43 => (be_u16(s, pos) as u16) == 0x008F && args_reserved_for_apple_use43(s, p0, q),
        Opcode::BitsRect(f0) => (be_u16(s, pos) as u16) == 0x0090 && args_bits_rect(s, p0, f0, q),
        Opcode::BitsRgn(f0) => (be_u16(s, pos) as u16) == 0x0091 && args_bits_rgn(s, p0, f0, q),
        Opcode::ReservedForAppleUse44(f0, f1) => (be_u16(s, pos) as u16) == 0x0092 && args_reserved_for_apple_use44(s, p0, f0, f1, q),
        Opcode::ReservedForAppleUse45(f0, f1) => (be_u16(s, pos) as u16) == 0x0093 && args_reserved_for_apple_use45(s, p0, f0, f1, q),
        Opcode::ReservedForAppleUse46(f0, f1) => (be_u16(s, pos) as u16) == 0x0094 && args_reserved_for_apple_use46(s, p0, f0, f1, q),
        Opcode::ReservedForAppleUse47(f0, f1) => (be_u16(s, pos) as u16) == 0x0095 && args_reserved_for_apple_use47(s, p0, f0, f1, q),
        Opcode::ReservedForAppleUse48(f0, f1) => (be_u16(s, pos) as u16) == 0x0096 && args_reserved_for_apple_use48(s, p0, f0, f1, q),
        Opcode::ReservedForAppleUse49(f0, f1) => (be_u16(s, pos) as u16) == 0x0097 && args_reserved_for_apple_use49(s, p0, f0, f1, q),
        Opcode::PackBitsRect(f0) => (be_u16(s, pos) as u16) == 0x0098 && args_pack_bits_rect(s, p0, f0, q),
        Opcode::PackBitsRgn(f0) => (be_u16(s, pos) as u16) == 0x0099 && args_pack_bits_rgn(s, p0, f0, q),
        Opcode::DirectBitsRect(f0) => (be_u16(s, pos) as u16) == 0x009A && args_direct_bits_rect(s, p0, f0, q),
        Opcode::DirectBitsRgn(f0) => (be_u16(s, pos) as u16) == 0x009B && args_direct_bits_rgn(s, p0, f0, q),
        Opcode::ReservedForAppleUse50(f0, f1) => (be_u16(s, pos) as u16) == 0x009C && args_reserved_for_apple_use50(s, p0, f0, f1, q),
        Opcode::ReservedForAppleUse51(f0, f1) => (be_u16(s, pos) as u16) == 0x009D && args_reserved_for_apple_use51(s, p0, f0, f1, q),
        Opcode::ReservedForAppleUse52(f0, f1) => (be_u16(s, pos) as u16) == 0x009E && args_reserved_for_apple_use52(s, p0, f0, f1, q),
        Opcode::ReservedForAppleUse53(f0, f1) => (be_u16(s, pos) as u16) == 0x009F && args_reserved_for_apple_use53(s, p0, f0, f1, q),
        Opcode::ShortComment(f0) => (be_u16(s, pos) as u16) == 0x00A0 && args_short_comment(s, p0, f0, q),
        Opcode::LongComment(f0, f1, f2) => (be_u16(s, pos) as u16) == 0x00A1 && args_long_comment(s, p0, f0, f1, f2, q),
        Opcode::ReservedForAppleUse54(f0, f1) => (be_u16(s, pos) as u16) == 0x00A2 && args_reserved_for_apple_use54(s, p0, f0, f1, q),
        Opcode::ReservedForAppleUse55(f0, f1) => (be_u16(s, pos) as u16) == 0x00AF && args_reserved_for_apple_use55(s, p0, f0, f1, q),
        Opcode::ReservedForAppleUse56 => (be_u16(s, pos) as u16) == 0x00B0 && args_reserved_for_apple_use56(s, p0, q),
        Opcode::ReservedForAppleUse57 => (be_u16(s, pos) as u16) == 0x00CF && args_reserved_for_apple_use57(s, p0, q),
        Opcode::ReservedForAppleUse58(f0, f1) => (be_u16(s, pos) as u16) == 0x00D0 && args_reserved_for_apple_use58(s, p0, f0, f1, q),
        Opcode::ReservedForAppleUse59(f0, f1) => (be_u16(s, pos) as u16) == 0x00FE && args_reserved_for_apple_use59(s, p0, f0, f1, q),
        Opcode::OpEndPic => (be_u16(s, pos) as u16) == 0x00FF && args_op_end_pic(s, p0, q),
        Opcode::ReservedForAppleUse60(f0) => (be_u16(s, pos) as u16) == 0x0100 && args_reserved_for_apple_use60(s, p0, f0, q),
        Opcode::ReservedForAppleUse61(f0) => (be_u16(s, pos) as u16) == 0x01FF && args_reserved_for_apple_use61(s, p0, f0, q),
        Opcode::ReservedForAppleUse62(f0) => (be_u16(s, pos) as u16) == 0x0200 && args_reserved_for_apple_use62(s, p0, f0, q),
        Opcode::Version => (be_u16(s, pos) as u16) == 0x02FF && args_version(s, p0, q),
        Opcode::ReservedForAppleUse63(f0) => (be_u16(s, pos) as u16) == 0x0BFF && args_reserved_for_apple_use63(s, p0, f0, q),
        Opcode::HeaderOp(f0) => (be_u16(s, pos) as u16) == 0x0C00 && args_header_op(s, p0, f0, q),
        Opcode::ReservedForAppleUse64(f0) => (be_u16(s, pos) as u16) == 0x0C01 && args_reserved_for_apple_use64(s, p0, f0, q),
        Opcode::ReservedForAppleUse65(f0) => (be_u16(s, pos) as u16) == 0x7F00 && args_reserved_for_apple_use65(s, p0, f0, q),
        Opcode::ReservedForAppleUse66(f0) => (be_u16(s, pos) as u16) == 0x7FFF && args_reserved_for_apple_use66(s, p0, f0, q),
        Opcode::ReservedForAppleUse67 => (be_u16(s, pos) as u16) == 0x8000 && args_reserved_for_apple_use67(s, p0, q),
        Opcode::ReservedForAppleUse68 => (be_u16(s, pos) as u16) == 0x80FF && args_reserved_for_apple_use68(s, p0, q),
        Opcode::ReservedForAppleUse69(f0, f1) => (be_u16(s, pos) as u16) == 0x8100 && args_reserved_for_apple_use69(s, p0, f0, f1, q),
        Opcode::CompressedQuickTime(f0, f1) => (be_u16(s, pos) as u16) == 0x8200 && args_compressed_quick_time(s, p0, f0, f1, q),
        Opcode::UncompressedQuickTime(f0, f1) => (be_u16(s, pos) as u16) == 0x8201 && args_uncompressed_quick_time(s, p0, f0, f1, q),
        Opcode::ReservedForAppleUse70(f0, f1) => (be_u16(s, pos) as u16) == 0xFFFF && args_reserved_for_apple_use70(s, p0, f0, f1, q),
        Opcode::Unknown(_) => false,
    }
}

/// What reading the opcode at `pos` gives.
pub open spec fn outcome(s: Seq<u8>, pos: int) -> OpOutcome {
    if pos < 0 || pos + 2 > s.len() {
        OpOutcome::Eof
    } else {
        match payload_end(s, pos) {
            Decoded::Done(_, q) => OpOutcome::Parsed(q),
            Decoded::Malformed => OpOutcome::Unknown,
            Decoded::Fatal => OpOutcome::Fatal,
        }
    }
}

/// Reads the operands of `NOP`.
fn read_nop(data: &[u8], pos: usize, code: u16) -> (r: Result<(Opcode, usize), DecodeError>)
    requires
        pos + 2 <= data.len(),
        code == (be_u16(data@, pos as int) as u16),
        code == 0x0000,
    ensures
        match outcome(data@, pos as int) {
            OpOutcome::Eof => r matches Err(e) && e == DecodeError::Malformed,
            OpOutcome::Parsed(q) => r matches Ok((op, p)) && p == q && op_at(data@, pos as int, op, q),
            OpOutcome::Unknown => r matches Ok((op, p)) && p == pos + 2 && op == Opcode::Unknown((be_u16(data@, pos as int) as u16)),
            OpOutcome::Fatal => r matches Err(e) && e == DecodeError::Fatal,
        },
{
    proof {
        reveal(end_nop);
        reveal(args_nop);
    }
    let p0 = pos + 2;
    Ok((Opcode::NOP, p0))
}

/// Reads the operands of `Clip`.
fn read_clip(data: &[u8], pos: usize, code: u16) -> (r: Result<(Opcode, usize), DecodeError>)
    requires
        pos + 2 <= data.len(),
        code == (be_u16(data@, pos as int) as u16),
        code == 0x0001,
    ensures
        match outcome(data@, pos as int) {
            OpOutcome::Eof => r matches Err(e) && e == DecodeError::Malformed,
            OpOutcome::Parsed(q) => r matches Ok((op, p)) && p == q && op_at(data@, pos as int, op, q),
            OpOutcome::Unknown => r matches Ok((op, p)) && p == pos + 2 && op == Opcode::Unknown((be_u16(data@, pos as int) as u16)),
            OpOutcome::Fatal => r matches Err(e) && e == DecodeError::Fatal,
        },
{
    proof {
        reveal(end_clip);
        reveal(args_clip);
    }
    let p0 = pos + 2;
    let (f0, p1) = match field_region(data, p0) {
        Some(x) => x,
        None => return Ok((Opcode::Unknown(code), p0)),
    };
    Ok((Opcode::Clip(f0), p1))
}

/// Reads the operands of `BkPat`.
fn read_bk_pat(data: &[u8], pos: usize, code: u16) -> (r: Result<(Opcode, usize), DecodeError>)
    requires
        pos + 2 <= data.len(),
        code == (be_u16(data@, pos as int) as u16),
        code == 0x0002,
    ensures
        match outcome(data@, pos as int) {
            OpOutcome::Eof => r matches Err(e) && e == DecodeError::Malformed,
            OpOutcome::Parsed(q) => r matches Ok((op, p)) && p == q && op_at(data@, pos as int, op, q),
            OpOutcome::Unknown => r matches Ok((op, p)) && p == pos + 2 && op == Opcode::Unknown((be_u16(data@, pos as int) as u16)),
            OpOutcome::Fatal => r matches Err(e) && e == DecodeError::Fatal,
        },
{
    proof {
        reveal(end_bk_pat);
        reveal(args_bk_pat);
    }
    let p0 = pos + 2;
    let (f0, p1) = match field_pattern(data, p0) {
        Some(x) => x,
        None => return Ok((Opcode::Unknown(code), p0)),
    };
    Ok((Opcode::BkPat(f0), p1))
}

/// Reads the operands of `TxFont`.
fn read_tx_font(data: &[u8], pos: usize, code: u16) -> (r: Result<(Opcode, usize), DecodeError>)
    requires
        pos + 2 <= data.len(),
        code == (be_u16(data@, pos as int) as u16),
        code == 0x0003,
    ensures
        match outcome(data@, pos as int) {
            OpOutcome::Eof => r matches Err(e) && e == DecodeError::Malformed,
            OpOutcome::Parsed(q) => r matches Ok((op, p)) && p == q && op_at(data@, pos as int, op, q),
            OpOutcome::Unknown => r matches Ok((op, p)) && p == pos + 2 && op == Opcode::Unknown((be_u16(data@, pos as int) as u16)),
            OpOutcome::Fatal => r matches Err(e) && e == DecodeError::Fatal,
        },
{
    proof {
        reveal(end_tx_font);
        reveal(args_tx_font);
    }
    let p0 = pos + 2;
    let (f0, p1) = match field_u16(data, p0) {
        Some(x) => x,
        None => return Ok((Opcode::Unknown(code), p0)),
    };
    Ok((Opcode::TxFont(f0), p1))
}

/// Reads the operands of `TxFace`.
fn read_tx_face(data: &[u8], pos: usize, code: u16) -> (r: Result<(Opcode, usize), DecodeError>)
    requires
        pos + 2 <= data.len(),
        code == (be_u16(data@, pos as int) as u16),
        code == 0x0004,
    ensures
        match outcome(data@, pos as int) {
            OpOutcome::Eof => r matches Err(e) && e == DecodeError::Malformed,
            OpOutcome::Parsed(q) => r matches Ok((op, p)) && p == q && op_at(data@, pos as int, op, q),
            OpOutcome::Unknown => r matches Ok((op, p)) && p == pos + 2 && op == Opcode::Unknown((be_u16(data@, pos as int) as u16)),
            OpOutcome::Fatal => r matches Err(e) && e == DecodeError::Fatal,
        },
{
    proof {
        reveal(end_tx_face);
        reveal(args_tx_face);
    }
    let p0 = pos + 2;
    let (f0, p1) = match field_u8(data, p0) {
        Some(x) => x,
        None => return Ok((Opcode::Unknown(code), p0)),
    };
    Ok((Opcode::TxFace(f0), p1))
}

/// Reads the operands of `TxMode`.
fn read_tx_mode(data: &[u8], pos: usize, code: u16) -> (r: Result<(Opcode, usize), DecodeError>)
    requires
        pos + 2 <= data.len(),
        code == (be_u16(data@, pos as int) as u16),
        code == 0x0005,
    ensures
        match outcome(data@, pos as int) {
            OpOutcome::Eof => r matches Err(e) && e == DecodeError::Malformed,
            OpOutcome::Parsed(q) => r matches Ok((op, p)) && p == q && op_at(data@, pos as int, op, q),
            OpOutcome::Unknown => r matches Ok((op, p)) && p == pos + 2 && op == Opcode::Unknown((be_u16(data@, pos as int) as u16)),
            OpOutcome::Fatal => r matches Err(e) && e == DecodeError::Fatal,
        },
{
    proof {
        reveal(end_tx_mode);
        reveal(args_tx_mode);
    }
    let p0 = pos + 2;
    let (f0, p1) = match field_u16(data, p0) {
        Some(x) => x,
        None => return Ok((Opcode::Unknown(code), p0)),
    };
    Ok((Opcode::TxMode(f0), p1))
}

/// Reads the operands of `SpExtra`.
fn read_sp_extra(data: &[u8], pos: usize, code: u16) -> (r: Result<(Opcode, usize), DecodeError>)
    requires
        pos + 2 <= data.len(),
        code == (be_u16(data@, pos as int) as u16),
        code == 0x0006,
    ensures
        match outcome(data@, pos as int) {
            OpOutcome::Eof => r matches Err(e) && e == DecodeError::Malformed,
            OpOutcome::Parsed(q) => r matches Ok((op, p)) && p == q && op_at(data@, pos as int, op, q),
            OpOutcome::Unknown => r matches Ok((op, p)) && p == pos + 2 && op == Opcode::Unknown((be_u16(data@, pos as int) as u16)),
            OpOutcome::Fatal => r matches Err(e) && e == DecodeError::Fatal,
        },
{
    proof {
        reveal(end_sp_extra);
        reveal(args_sp_extra);
    }
    let p0 = pos + 2;
    let (f0, p1) = match field_fixed(data, p0) {
        Some(x) => x,
        None => return Ok((Opcode::Unknown(code), p0)),
    };
    Ok((Opcode::SpExtra(f0), p1))
}

/// Reads the operands of `PnSize`.
fn read_pn_size(data: &[u8], pos: usize, code: u16) -> (r: Result<(Opcode, usize), DecodeError>)
    requires
        pos + 2 <= data.len(),
        code == (be_u16(data@, pos as int) as u16),
        code == 0x0007,
    ensures
        match outcome(data@, pos as int) {
            OpOutcome::Eof => r matches Err(e) && e == DecodeError::Malformed,
            OpOutcome::Parsed(q) => r matches Ok((op, p)) && p == q && op_at(data@, pos as int, op, q),
            OpOutcome::Unknown => r matches Ok((op, p)) && p == pos + 2 && op == Opcode::Unknown((be_u16(data@, pos as int) as u16)),
            OpOutcome::Fatal => r matches Err(e) && e == DecodeError::Fatal,
        },
{
    proof {
        reveal(end_pn_size);
        reveal(args_pn_size);
    }
    let p0 = pos + 2;
    let (f0, p1) = match field_point(data, p0) {
        Some(x) => x,
        None => return Ok((Opcode::Unknown(code), p0)),
    };
    Ok((Opcode::PnSize(f0), p1))
}

/// Reads the operands of `PnMode`.
fn read_pn_mode(data: &[u8], pos: usize, code: u16) -> (r: Result<(Opcode, usize), DecodeError>)
    requires
        pos + 2 <= data.len(),
        code == (be_u16(data@, pos as int) as u16),
        code == 0x0008,
    ensures
        match outcome(data@, pos as int) {
            OpOutcome::Eof => r matches Err(e) && e == DecodeError::Malformed,
            OpOutcome::Parsed(q) => r matches Ok((op, p)) && p == q && op_at(data@, pos as int, op, q),
            OpOutcome::Unknown => r matches Ok((op, p)) && p == pos + 2 && op == Opcode::Unknown((be_u16(data@, pos as int) as u16)),
            OpOutcome::Fatal => r matches Err(e) && e == DecodeError::Fatal,
        },
{
    proof {
        reveal(end_pn_mode);
        reveal(args_pn_mode);
    }
    let p0 = pos + 2;
    let (f0, p1) = match field_u16(data, p0) {
        Some(x) => x,
        None => return Ok((Opcode::Unknown(code), p0)),
    };
    Ok((Opcode::PnMode(f0), p1))
}

/// Reads the operands of `PnPat`.
fn read_pn_pat(data: &[u8], pos: usize, code: u16) -> (r: Result<(Opcode, usize), DecodeError>)
    requires
        pos + 2 <= data.len(),
        code == (be_u16(data@, pos as int) as u16),
        code == 0x0009,
    ensures
        match outcome(data@, pos as int) {
            OpOutcome::Eof => r matches Err(e) && e == DecodeError::Malformed,
            OpOutcome::Parsed(q) => r matches Ok((op, p)) && p == q && op_at(data@, pos as int, op, q),
            OpOutcome::Unknown => r matches Ok((op, p)) && p == pos + 2 && op == Opcode::Unknown((be_u16(data@, pos as int) as u16)),
            OpOutcome::Fatal => r matches Err(e) && e == DecodeError::Fatal,
        },
{
    proof {
        reveal(end_pn_pat);
        reveal(args_pn_pat);
    }
    let p0 = pos + 2;
    let (f0, p1) = match field_pattern(data, p0) {
        Some(x) => x,
        None => return Ok((Opcode::Unknown(code), p0)),
    };
    Ok((Opcode::PnPat(f0), p1))
}

/// Reads the operands of `FillPat`.
fn read_fill_pat(data: &[u8], pos: usize, code: u16) -> (r: Result<(Opcode, usize), DecodeError>)
    requires
        pos + 2 <= data.len(),
        code == (be_u16(data@, pos as int) as u16),
        code == 0x000A,
    ensures
        match outcome(data@, pos as int) {
            OpOutcome::Eof => r matches Err(e) && e == DecodeError::Malformed,
            OpOutcome::Parsed(q) => r matches Ok((op, p)) && p == q && op_at(data@, pos as int, op, q),
            OpOutcome::Unknown => r matches Ok((op, p)) && p == pos + 2 && op == Opcode::Unknown((be_u16(data@, pos as int) as u16)),
            OpOutcome::Fatal => r matches Err(e) && e == DecodeError::Fatal,
        },
{
    proof {
        reveal(end_fill_pat);
        reveal(args_fill_pat);
    }
    let p0 = pos + 2;
    let (f0, p1) = match field_pattern(data, p0) {
        Some(x) => x,
        None => return Ok((Opcode::Unknown(code), p0)),
    };
    Ok((Opcode::FillPat(f0), p1))
}

/// Reads the operands of `OvSize`.
fn read_ov_size(data: &[u8], pos: usize, code: u16) -> (r: Result<(Opcode, usize), DecodeError>)
    requires
        pos + 2 <= data.len(),
        code == (be_u16(data@, pos as int) as u16),
        code == 0x000B,
    ensures
        match outcome(data@, pos as int) {
            OpOutcome::Eof => r matches Err(e) && e == DecodeError::Malformed,
            OpOutcome::Parsed(q) => r matches Ok((op, p)) && p == q && op_at(data@, pos as int, op, q),
            OpOutcome::Unknown => r matches Ok((op, p)) && p == pos + 2 && op == Opcode::Unknown((be_u16(data@, pos as int) as u16)),
            OpOutcome::Fatal => r matches Err(e) && e == DecodeError::Fatal,
        },
{
    proof {
        reveal(end_ov_size);
        reveal(args_ov_size);
    }
    let p0 = pos + 2;
    let (f0, p1) = match field_point(data, p0) {
        Some(x) => x,
        None => return Ok((Opcode::Unknown(code), p0)),
    };
    Ok((Opcode::OvSize(f0), p1))
}

/// Reads the operands of `Origin`.
fn read_origin(data: &[u8], pos: usize, code: u16) -> (r: Result<(Opcode, usize), DecodeError>)
    requires
        pos + 2 <= data.len(),
        code == (be_u16(data@, pos as int) as u16),
        code == 0x000C,
    ensures
        match outcome(data@, pos as int) {
            OpOutcome::Eof => r matches Err(e) && e == DecodeError::Malformed,
            OpOutcome::Parsed(q) => r matches Ok((op, p)) && p == q && op_at(data@, pos as int, op, q),
            OpOutcome::Unknown => r matches Ok((op, p)) && p == pos + 2 && op == Opcode::Unknown((be_u16(data@, pos as int) as u16)),
            OpOutcome::Fatal => r matches Err(e) && e == DecodeError::Fatal,
        },
{
    proof {
        reveal(end_origin);
        reveal(args_origin);
    }
    let p0 = pos + 2;
    let (f0, p1) = match field_u16(data, p0) {
        Some(x) => x,
        None => return Ok((Opcode::Unknown(code), p0)),
    };
    let (f1, p2) = match field_u16(data, p1) {
        Some(x) => x,
        None => return Ok((Opcode::Unknown(code), p0)),
    };
    Ok((Opcode::Origin(f0, f1), p2))
}

/// Reads the operands of `TxSize`.
fn read_tx_size(data: &[u8], pos: usize, code: u16) -> (r: Result<(Opcode, usize), DecodeError>)
    requires
        pos + 2 <= data.len(),
        code == (be_u16(data@, pos as int) as u16),
        code == 0x000D,
    ensures
        match outcome(data@, pos as int) {
            OpOutcome::Eof => r matches Err(e) && e == DecodeError::Malformed,
            OpOutcome::Parsed(q) => r matches Ok((op, p)) && p == q && op_at(data@, pos as int, op, q),
            OpOutcome::Unknown => r matches Ok((op, p)) && p == pos + 2 && op == Opcode::Unknown((be_u16(data@, pos as int) as u16)),
            OpOutcome::Fatal => r matches Err(e) && e == DecodeError::Fatal,
        },
{
    proof {
        reveal(end_tx_size);
        reveal(args_tx_size);
    }
    let p0 = pos + 2;
    let (f0, p1) = match field_u16(data, p0) {
        Some(x) => x,
        None => return Ok((Opcode::Unknown(code), p0)),
    };
    Ok((Opcode::TxSize(f0), p1))
}

/// Reads the operands of `FgColor`.
fn read_fg_color(data: &[u8], pos: usize, code: u16) -> (r: Result<(Opcode, usize), DecodeError>)
    requires
        pos + 2 <= data.len(),
        code == (be_u16(data@, pos as int) as u16),
        code == 0x000E,
    ensures
        match outcome(data@, pos as int) {
            OpOutcome::Eof => r matches Err(e) && e == DecodeError::Malformed,
            OpOutcome::Parsed(q) => r matches Ok((op, p)) && p == q && op_at(data@, pos as int, op, q),
            OpOutcome::Unknown => r matches Ok((op, p)) && p == pos + 2 && op == Opcode::Unknown((be_u16(data@, pos as int) as u16)),
            OpOutcome::Fatal => r matches Err(e) && e == DecodeError::Fatal,
        },
{
    proof {
        reveal(end_fg_color);
        reveal(args_fg_color);
    }
    let p0 = pos + 2;
    let (f0, p1) = match field_u32(data, p0) {
        Some(x) => x,
        None => return Ok((Opcode::Unknown(code), p0)),
    };
    Ok((Opcode::FgColor(f0), p1))
}

/// Reads the operands of `BkColor`.
fn read_bk_color(data: &[u8], pos: usize, code: u16) -> (r: Result<(Opcode, usize), DecodeError>)
    requires
        pos + 2 <= data.len(),
        code == (be_u16(data@, pos as int) as u16),
        code == 0x000F,
    ensures
        match outcome(data@, pos as int) {
            OpOutcome::Eof => r matches Err(e) && e == DecodeError::Malformed,
            OpOutcome::Parsed(q) => r matches Ok((op, p)) && p == q && op_at(data@, pos as int, op, q),
            OpOutcome::Unknown => r matches Ok((op, p)) && p == pos + 2 && op == Opcode::Unknown((be_u16(data@, pos as int) as u16)),
            OpOutcome::Fatal => r matches Err(e) && e == DecodeError::Fatal,
        },
{
    proof {
        reveal(end_bk_color);
        reveal(args_bk_color);
    }
    let p0 = pos + 2;
    let (f0, p1) = match field_u32(data, p0) {
        Some(x) => x,
        None => return Ok((Opcode::Unknown(code), p0)),
    };
    Ok((Opcode::BkColor(f0), p1))
}

/// Reads the operands of `TxRatio`.
fn read_tx_ratio(data: &[u8], pos: usize, code: u16) -> (r: Result<(Opcode, usize), DecodeError>)
    requires
        pos + 2 <= data.len(),
        code == (be_u16(data@, pos as int) as u16),
        code == 0x0010,
    ensures
        match outcome(data@, pos as int) {
            OpOutcome::Eof => r matches Err(e) && e == DecodeError::Malformed,
            OpOutcome::Parsed(q) => r matches Ok((op, p)) && p == q && op_at(data@, pos as int, op, q),
            OpOutcome::Unknown => r matches Ok((op, p)) && p == pos + 2 && op == Opcode::Unknown((be_u16(data@, pos as int) as u16)),
            OpOutcome::Fatal => r matches Err(e) && e == DecodeError::Fatal,
        },
{
    proof {
        reveal(end_tx_ratio);
        reveal(args_tx_ratio);
    }
    let p0 = pos + 2;
    let (f0, p1) = match field_point(data, p0) {
        Some(x) => x,
        None => return Ok((Opcode::Unknown(code), p0)),
    };
    let (f1, p2) = match field_point(data, p1) {
        Some(x) => x,
        None => return Ok((Opcode::Unknown(code), p0)),
    };
    Ok((Opcode::TxRatio(f0, f1), p2))
}

/// Reads the operands of `VersionOp`.
fn read_version_op(data: &[u8], pos: usize, code: u16) -> (r: Result<(Opcode, usize), DecodeError>)
    requires
        pos + 2 <= data.len(),
        code == (be_u16(data@, pos as int) as u16),
        code == 0x0011,
    ensures
        match outcome(data@, pos as int) {
            OpOutcome::Eof => r matches Err(e) && e == DecodeError::Malformed,
            OpOutcome::Parsed(q) => r matches Ok((op, p)) && p == q && op_at(data@, pos as int, op, q),
            OpOutcome::Unknown => r matches Ok((op, p)) && p == pos + 2 && op == Opcode::Unknown((be_u16(data@, pos as int) as u16)),
            OpOutcome::Fatal => r matches Err(e) && e == DecodeError::Fatal,
        },
{
    proof {
        reveal(end_version_op);
        reveal(args_version_op);
    }
    let p0 = pos + 2;
    Ok((Opcode::VersionOp, p0))
}

/// Reads the operands of `BkPixPat`.
fn read_bk_pix_pat(data: &[u8], pos: usize, code: u16) -> (r: Result<(Opcode, usize), DecodeError>)
    requires
        pos + 2 <= data.len(),
        code == (be_u16(data@, pos as int) as u16),
        code == 0x0012,
    ensures
        match outcome(data@, pos as int) {
            OpOutcome::Eof => r matches Err(e) && e == DecodeError::Malformed,
            OpOutcome::Parsed(q) => r matches Ok((op, p)) && p == q && op_at(data@, pos as int, op, q),
            OpOutcome::Unknown => r matches Ok((op, p)) && p == pos + 2 && op == Opcode::Unknown((be_u16(data@, pos as int) as u16)),
            OpOutcome::Fatal => r matches Err(e) && e == DecodeError::Fatal,
        },
{
    proof {
        reveal(end_bk_pix_pat);
        reveal(args_bk_pix_pat);
    }
    let p0 = pos + 2;
    let (f0, p1) = match field_pixel_pattern(data, p0) {
        Ok(x) => x,
        Err(DecodeError::Fatal) => return Err(DecodeError::Fatal),
        Err(_) => return Ok((Opcode::Unknown(code), p0)),
    };
    Ok((Opcode::BkPixPat(f0), p1))
}

/// Reads the operands of `PnPixPat`.
fn read_pn_pix_pat(data: &[u8], pos: usize, code: u16) -> (r: Result<(Opcode, usize), DecodeError>)
    requires
        pos + 2 <= data.len(),
        code == (be_u16(data@, pos as int) as u16),
        code == 0x0013,
    ensures
        match outcome(data@, pos as int) {
            OpOutcome::Eof => r matches Err(e) && e == DecodeError::Malformed,
            OpOutcome::Parsed(q) => r matches Ok((op, p)) && p == q && op_at(data@, pos as int, op, q),
            OpOutcome::Unknown => r matches Ok((op, p)) && p == pos + 2 && op == Opcode::Unknown((be_u16(data@, pos as int) as u16)),
            OpOutcome::Fatal => r matches Err(e) && e == DecodeError::Fatal,
        },
{
    proof {
        reveal(end_pn_pix_pat);
        reveal(args_pn_pix_pat);
    }
    let p0 = pos + 2;
    let (f0, p1) = match field_pixel_pattern(data, p0) {
        Ok(x) => x,
        Err(DecodeError::Fatal) => return Err(DecodeError::Fatal),
        Err(_) => return Ok((Opcode::Unknown(code), p0)),
    };
    Ok((Opcode::PnPixPat(f0), p1))
}

/// Reads the operands of `FillPixPat`.
fn read_fill_pix_pat(data: &[u8], pos: usize, code: u16) -> (r: Result<(Opcode, usize), DecodeError>)
    requires
        pos + 2 <= data.len(),
        code == (be_u16(data@, pos as int) as u16),
        code == 0x0014,
    ensures
        match outcome(data@, pos as int) {
            OpOutcome::Eof => r matches Err(e) && e == DecodeError::Malformed,
            OpOutcome::Parsed(q) => r matches Ok((op, p)) && p == q && op_at(data@, pos as int, op, q),
            OpOutcome::Unknown => r matches Ok((op, p)) && p == pos + 2 && op == Opcode::Unknown((be_u16(data@, pos as int) as u16)),
            OpOutcome::Fatal => r matches Err(e) && e == DecodeError::Fatal,
        },
{
    proof {
        reveal(end_fill_pix_pat);
        reveal(args_fill_pix_pat);
    }
    let p0 = pos + 2;
    let (f0, p1) = match field_pixel_pattern(data, p0) {
        Ok(x) => x,
        Err(DecodeError::Fatal) => return Err(DecodeError::Fatal),
        Err(_) => return Ok((Opcode::Unknown(code), p0)),
    };
    Ok((Opcode::FillPixPat(f0), p1))
}

/// Reads the operands of `PnLocHFrac`.
fn read_pn_loc_h_frac(data: &[u8], pos: usize, code: u16) -> (r: Result<(Opcode, usize), DecodeError>)
    requires
        pos + 2 <= data.len(),
        code == (be_u16(data@, pos as int) as u16),
        code == 0x0015,
    ensures
        match outcome(data@, pos as int) {
            OpOutcome::Eof => r matches Err(e) && e == DecodeError::Malformed,
            OpOutcome::Parsed(q) => r matches Ok((op, p)) && p == q && op_at(data@, pos as int, op, q),
            OpOutcome::Unknown => r matches Ok((op, p)) && p == pos + 2 && op == Opcode::Unknown((be_u16(data@, pos as int) as u16)),
            OpOutcome::Fatal => r matches Err(e) && e == DecodeError::Fatal,
        },
{
    proof {
        reveal(end_pn_loc_h_frac);
        reveal(args_pn_loc_h_frac);
    }
    let p0 = pos + 2;
    let (f0, p1) = match field_u16(data, p0) {
        Some(x) => x,
        None => return Ok((Opcode::Unknown(code), p0)),
    };
    Ok((Opcode::PnLocHFrac(f0), p1))
}

/// Reads the operands of `ChExtra`.
fn read_ch_extra(data: &[u8], pos: usize, code: u16) -> (r: Result<(Opcode, usize), DecodeError>)
    requires
        pos + 2 <= data.len(),
        code == (be_u16(data@, pos as int) as u16),
        code == 0x0016,
    ensures
        match outcome(data@, pos as int) {
            OpOutcome::Eof => r matches Err(e) && e == DecodeError::Malformed,
            OpOutcome::Parsed(q) => r matches Ok((op, p)) && p == q && op_at(data@, pos as int, op, q),
            OpOutcome::Unknown => r matches Ok((op, p)) && p == pos + 2 && op == Opcode::Unknown((be_u16(data@, pos as int) as u16)),
            OpOutcome::Fatal => r matches Err(e) && e == DecodeError::Fatal,
        },
{
    proof {
        reveal(end_ch_extra);
        reveal(args_ch_extra);
    }
    let p0 = pos + 2;
    let (f0, p1) = match field_u16(data, p0) {
        Some(x) => x,
        None => return Ok((Opcode::Unknown(code), p0)),
    };
    Ok((Opcode::ChExtra(f0), p1))
}

/// Reads the operands of `ReservedForAppleUse`.
fn read_reserved_for_apple_use(data: &[u8], pos: usize, code: u16) -> (r: Result<(Opcode, usize), DecodeError>)
    requires
        pos + 2 <= data.len(),
        code == (be_u16(data@, pos as int) as u16),
        code == 0x0017,
    ensures
        match outcome(data@, pos as int) {
            OpOutcome::Eof => r matches Err(e) && e == DecodeError::Malformed,
            OpOutcome::Parsed(q) => r matches Ok((op, p)) && p == q && op_at(data@, pos as int, op, q),
            OpOutcome::Unknown => r matches Ok((op, p)) && p == pos + 2 && op == Opcode::Unknown((be_u16(data@, pos as int) as u16)),
            OpOutcome::Fatal => r matches Err(e) && e == DecodeError::Fatal,
        },
{
    proof {
        reveal(end_reserved_for_apple_use);
        reveal(args_reserved_for_apple_use);
    }
    let p0 = pos + 2;
    Ok((Opcode::ReservedForAppleUse, p0))
}

/// Reads the operands of `ReservedForAppleUse1`.
fn read_reserved_for_apple_use1(data: &[u8], pos: usize, code: u16) -> (r: Result<(Opcode, usize), DecodeError>)
    requires
        pos + 2 <= data.len(),
        code == (be_u16(data@, pos as int) as u16),
        code == 0x0018,
    ensures
        match outcome(data@, pos as int) {
            OpOutcome::Eof => r matches Err(e) && e == DecodeError::Malformed,
            OpOutcome::Parsed(q) => r matches Ok((op, p)) && p == q && op_at(data@, pos as int, op, q),
            OpOutcome::Unknown => r matches Ok((op, p)) && p == pos + 2 && op == Opcode::Unknown((be_u16(data@, pos as int) as u16)),
            OpOutcome::Fatal => r matches Err(e) && e == DecodeError::Fatal,
        },
{
    proof {
        reveal(end_reserved_for_apple_use1);
        reveal(args_reserved_for_apple_use1);
    }
    let p0 = pos + 2;
    Ok((Opcode::ReservedForAppleUse1, p0))
}

/// Reads the operands of `ReservedForAppleUse2`.
fn read_reserved_for_apple_use2(data: &[u8], pos: usize, code: u16) -> (r: Result<(Opcode, usize), DecodeError>)
    requires
        pos + 2 <= data.len(),
        code == (be_u16(data@, pos as int) as u16),
        code == 0x0019,
    ensures
        match outcome(data@, pos as int) {
            OpOutcome::Eof => r matches Err(e) && e == DecodeError::Malformed,
            OpOutcome::Parsed(q) => r matches Ok((op, p)) && p == q && op_at(data@, pos as int, op, q),
            OpOutcome::Unknown => r matches Ok((op, p)) && p == pos + 2 && op == Opcode::Unknown((be_u16(data@, pos as int) as u16)),
            OpOutcome::Fatal => r matches Err(e) && e == DecodeError::Fatal,
        },
{
    proof {
        reveal(end_reserved_for_apple_use2);
        reveal(args_reserved_for_apple_use2);
    }
    let p0 = pos + 2;
    Ok((Opcode::ReservedForAppleUse2, p0))
}

/// Reads the operands of `RGBFgColor`.
fn read_rgb_fg_color(data: &[u8], pos: usize, code: u16) -> (r: Result<(Opcode, usize), DecodeError>)
    requires
        pos + 2 <= data.len(),
        code == (be_u16(data@, pos as int) as u16),
        code == 0x001A,
    ensures
        match outcome(data@, pos as int) {
            OpOutcome::Eof => r matches Err(e) && e == DecodeError::Malformed,
            OpOutcome::Parsed(q) => r matches Ok((op, p)) && p == q && op_at(data@, pos as int, op, q),
            OpOutcome::Unknown => r matches Ok((op, p)) && p == pos + 2 && op == Opcode::Unknown((be_u16(data@, pos as int) as u16)),
            OpOutcome::Fatal => r matches Err(e) && e == DecodeError::Fatal,
        },
{
    proof {
        reveal(end_rgb_fg_color);
        reveal(args_rgb_fg_color);
    }
    let p0 = pos + 2;
    let (f0, p1) = match field_rgb(data, p0) {
        Some(x) => x,
        None => return Ok((Opcode::Unknown(code), p0)),
    };
    Ok((Opcode::RGBFgColor(f0), p1))
}

/// Reads the operands of `RGBBkCol`.
fn read_rgb_bk_col(data: &[u8], pos: usize, code: u16) -> (r: Result<(Opcode, usize), DecodeError>)
    requires
        pos + 2 <= data.len(),
        code == (be_u16(data@, pos as int) as u16),
        code == 0x001B,
    ensures
        match outcome(data@, pos as int) {
            OpOutcome::Eof => r matches Err(e) && e == DecodeError::Malformed,
            OpOutcome::Parsed(q) => r matches Ok((op, p)) && p == q && op_at(data@, pos as int, op, q),
            OpOutcome::Unknown => r matches Ok((op, p)) && p == pos + 2 && op == Opcode::Unknown((be_u16(data@, pos as int) as u16)),
            OpOutcome::Fatal => r matches Err(e) && e == DecodeError::Fatal,
        },
{
    proof {
        reveal(end_rgb_bk_col);
        reveal(args_rgb_bk_col);
    }
    let p0 = pos + 2;
    let (f0, p1) = match field_rgb(data, p0) {
        Some(x) => x,
        None => return Ok((Opcode::Unknown(code), p0)),
    };
    Ok((Opcode::RGBBkCol(f0), p1))
}

/// Reads the operands of `HiliteMode`.
fn read_hilite_mode(data: &[u8], pos: usize, code: u16) -> (r: Result<(Opcode, usize), DecodeError>)
    requires
        pos + 2 <= data.len(),
        code == (be_u16(data@, pos as int) as u16),
        code == 0x001C,
    ensures
        match outcome(data@, pos as int) {
            OpOutcome::Eof => r matches Err(e) && e == DecodeError::Malformed,
            OpOutcome::Parsed(q) => r matches Ok((op, p)) && p == q && op_at(data@, pos as int, op, q),
            OpOutcome::Unknown => r matches Ok((op, p)) && p == pos + 2 && op == Opcode::Unknown((be_u16(data@, pos as int) as u16)),
            OpOutcome::Fatal => r matches Err(e) && e == DecodeError::Fatal,
        },
{
    proof {
        reveal(end_hilite_mode);
        reveal(args_hilite_mode);
    }
    let p0 = pos + 2;
    Ok((Opcode::HiliteMode, p0))
}

/// Reads the operands of `HiliteColor`.
fn read_hilite_color(data: &[u8], pos: usize, code: u16) -> (r: Result<(Opcode, usize), DecodeError>)
    requires
        pos + 2 <= data.len(),
        code == (be_u16(data@, pos as int) as u16),
        code == 0x001D,
    ensures
        match outcome(data@, pos as int) {
            OpOutcome::Eof => r matches Err(e) && e == DecodeError::Malformed,
            OpOutcome::Parsed(q) => r matches Ok((op, p)) && p == q && op_at(data@, pos as int, op, q),
            OpOutcome::Unknown => r matches Ok((op, p)) && p == pos + 2 && op == Opcode::Unknown((be_u16(data@, pos as int) as u16)),
            OpOutcome::Fatal => r matches Err(e) && e == DecodeError::Fatal,
        },
{
    proof {
        reveal(end_hilite_color);
        reveal(args_hilite_color);
    }
    let p0 = pos + 2;
    let (f0, p1) = match field_rgb(data, p0) {
        Some(x) => x,
        None => return Ok((Opcode::Unknown(code), p0)),
    };
    Ok((Opcode::HiliteColor(f0), p1))
}

/// Reads the operands of `DefHilite`.
fn read_def_hilite(data: &[u8], pos: usize, code: u16) -> (r: Result<(Opcode, usize), DecodeError>)
    requires
        pos + 2 <= data.len(),
        code == (be_u16(data@, pos as int) as u16),
        code == 0x001E,
    ensures
        match outcome(data@, pos as int) {
            OpOutcome::Eof => r matches Err(e) && e == DecodeError::Malformed,
            OpOutcome::Parsed(q) => r matches Ok((op, p)) && p == q && op_at(data@, pos as int, op, q),
            OpOutcome::Unknown => r matches Ok((op, p)) && p == pos + 2 && op == Opcode::Unknown((be_u16(data@, pos as int) as u16)),
            OpOutcome::Fatal => r matches Err(e) && e == DecodeError::Fatal,
        },
{
    proof {
        reveal(end_def_hilite);
        reveal(args_def_hilite);
    }
    let p0 = pos + 2;
    Ok((Opcode::DefHilite, p0))
}

/// Reads the operands of `OpColor`.
fn read_op_color(data: &[u8], pos: usize, code: u16) -> (r: Result<(Opcode, usize), DecodeError>)
    requires
        pos + 2 <= data.len(),
        code == (be_u16(data@, pos as int) as u16),
        code == 0x001F,
    ensures
        match outcome(data@, pos as int) {
            OpOutcome::Eof => r matches Err(e) && e == DecodeError::Malformed,
            OpOutcome::Parsed(q) => r matches Ok((op, p)) && p == q && op_at(data@, pos as int, op, q),
            OpOutcome::Unknown => r matches Ok((op, p)) && p == pos + 2 && op == Opcode::Unknown((be_u16(data@, pos as int) as u16)),
            OpOutcome::Fatal => r matches Err(e) && e == DecodeError::Fatal,
        },
{
    proof {
        reveal(end_op_color);
        reveal(args_op_color);
    }
    let p0 = pos + 2;
    let (f0, p1) = match field_rgb(data, p0) {
        Some(x) => x,
        None => return Ok((Opcode::Unknown(code), p0)),
    };
    Ok((Opcode::OpColor(f0), p1))
}

/// Reads the operands of `Line`.
fn read_line(data: &[u8], pos: usize, code: u16) -> (r: Result<(Opcode, usize), DecodeError>)
    requires
        pos + 2 <= data.len(),
        code == (be_u16(data@, pos as int) as u16),
        code == 0x0020,
    ensures
        match outcome(data@, pos as int) {
            OpOutcome::Eof => r matches Err(e) && e == DecodeError::Malformed,
            OpOutcome::Parsed(q) => r matches Ok((op, p)) && p == q && op_at(data@, pos as int, op, q),
            OpOutcome::Unknown => r matches Ok((op, p)) && p == pos + 2 && op == Opcode::Unknown((be_u16(data@, pos as int) as u16)),
            OpOutcome::Fatal => r matches Err(e) && e == DecodeError::Fatal,
        },
{
    proof {
        reveal(end_line);
        reveal(args_line);
    }
    let p0 = pos + 2;
    let (f0, p1) = match field_point(data, p0) {
        Some(x) => x,
        None => return Ok((Opcode::Unknown(code), p0)),
    };
    let (f1, p2) = match field_point(data, p1) {
        Some(x) => x,
        None => return Ok((Opcode::Unknown(code), p0)),
    };
    Ok((Opcode::Line(f0, f1), p2))
}

/// Reads the operands of `LineFrom`.
fn read_line_from(data: &[u8], pos: usize, code: u16) -> (r: Result<(Opcode, usize), DecodeError>)
    requires
        pos + 2 <= data.len(),
        code == (be_u16(data@, pos as int) as u16),
        code == 0x0021,
    ensures
        match outcome(data@, pos as int) {
            OpOutcome::Eof => r matches Err(e) && e == DecodeError::Malformed,
            OpOutcome::Parsed(q) => r matches Ok((op, p)) && p == q && op_at(data@, pos as int, op, q),
            OpOutcome::Unknown => r matches Ok((op, p)) && p == pos + 2 && op == Opcode::Unknown((be_u16(data@, pos as int) as u16)),
            OpOutcome::Fatal => r matches Err(e) && e == DecodeError::Fatal,
        },
{
    proof {
        reveal(end_line_from);
        reveal(args_line_from);
    }
    let p0 = pos + 2;
    let (f0, p1) = match field_point(data, p0) {
        Some(x) => x,
        None => return Ok((Opcode::Unknown(code), p0)),
    };
    Ok((Opcode::LineFrom(f0), p1))
}

/// Reads the operands of `ShortLine`.
fn read_short_line(data: &[u8], pos: usize, code: u16) -> (r: Result<(Opcode, usize), DecodeError>)
    requires
        pos + 2 <= data.len(),
        code == (be_u16(data@, pos as int) as u16),
        code == 0x0022,
    ensures
        match outcome(data@, pos as int) {
            OpOutcome::Eof => r matches Err(e) && e == DecodeError::Malformed,
            OpOutcome::Parsed(q) => r matches Ok((op, p)) && p == q && op_at(data@, pos as int, op, q),
            OpOutcome::Unknown => r matches Ok((op, p)) && p == pos + 2 && op == Opcode::Unknown((be_u16(data@, pos as int) as u16)),
            OpOutcome::Fatal => r matches Err(e) && e == DecodeError::Fatal,
        },
{
    proof {
        reveal(end_short_line);
        reveal(args_short_line);
    }
    let p0 = pos + 2;
    let (f0, p1) = match field_point(data, p0) {
        Some(x) => x,
        None => return Ok((Opcode::Unknown(code), p0)),
    };
    let (f1, p2) = match field_i8(data, p1) {
        Some(x) => x,
        None => return Ok((Opcode::Unknown(code), p0)),
    };
    let (f2, p3) = match field_i8(data, p2) {
        Some(x) => x,
        None => return Ok((Opcode::Unknown(code), p0)),
    };
    Ok((Opcode::ShortLine(f0, f1, f2), p3))
}

/// Reads the operands of `ShortLineFrom`.
fn read_short_line_from(data: &[u8], pos: usize, code: u16) -> (r: Result<(Opcode, usize), DecodeError>)
    requires
        pos + 2 <= data.len(),
        code == (be_u16(data@, pos as int) as u16),
        code == 0x0023,
    ensures
        match outcome(data@, pos as int) {
            OpOutcome::Eof => r matches Err(e) && e == DecodeError::Malformed,
            OpOutcome::Parsed(q) => r matches Ok((op, p)) && p == q && op_at(data@, pos as int, op, q),
            OpOutcome::Unknown => r matches Ok((op, p)) && p == pos + 2 && op == Opcode::Unknown((be_u16(data@, pos as int) as u16)),
            OpOutcome::Fatal => r matches Err(e) && e == DecodeError::Fatal,
        },
{
    proof {
        reveal(end_short_line_from);
        reveal(args_short_line_from);
    }
    let p0 = pos + 2;
    let (f0, p1) = match field_i8(data, p0) {
        Some(x) => x,
        None => return Ok((Opcode::Unknown(code), p0)),
    };
    let (f1, p2) = match field_i8(data, p1) {
        Some(x) => x,
        None => return Ok((Opcode::Unknown(code), p0)),
    };
    Ok((Opcode::ShortLineFrom(f0, f1), p2))
}

/// Reads the operands of `ReservedForAppleUse3`.
fn read_reserved_for_apple_use3(data: &[u8], pos: usize, code: u16) -> (r: Result<(Opcode, usize), DecodeError>)
    requires
        pos + 2 <= data.len(),
        code == (be_u16(data@, pos as int) as u16),
        code == 0x0024,
    ensures
        match outcome(data@, pos as int) {
            OpOutcome::Eof => r matches Err(e) && e == DecodeError::Malformed,
            OpOutcome::Parsed(q) => r matches Ok((op, p)) && p == q && op_at(data@, pos as int, op, q),
            OpOutcome::Unknown => r matches Ok((op, p)) && p == pos + 2 && op == Opcode::Unknown((be_u16(data@, pos as int) as u16)),
            OpOutcome::Fatal => r matches Err(e) && e == DecodeError::Fatal,
        },
{
    proof {
        reveal(end_reserved_for_apple_use3);
        reveal(args_reserved_for_apple_use3);
    }
    let p0 = pos + 2;
    let (f0, p1) = match field_u16(data, p0) {
        Some(x) => x,
        None => return Ok((Opcode::Unknown(code), p0)),
    };
    let (f1, p2) = match field_bytes(data, p1, f0 as usize) {
        Some(x) => x,
        None => return Ok((Opcode::Unknown(code), p0)),
    };
    Ok((Opcode::ReservedForAppleUse3(f0, f1), p2))
}

/// Reads the operands of `ReservedForAppleUse4`.
fn read_reserved_for_apple_use4(data: &[u8], pos: usize, code: u16) -> (r: Result<(Opcode, usize), DecodeError>)
    requires
        pos + 2 <= data.len(),
        code == (be_u16(data@, pos as int) as u16),
        code == 0x0025,
    ensures
        match outcome(data@, pos as int) {
            OpOutcome::Eof => r matches Err(e) && e == DecodeError::Malformed,
            OpOutcome::Parsed(q) => r matches Ok((op, p)) && p == q && op_at(data@, pos as int, op, q),
            OpOutcome::Unknown => r matches Ok((op, p)) && p == pos + 2 && op == Opcode::Unknown((be_u16(data@, pos as int) as u16)),
            OpOutcome::Fatal => r matches Err(e) && e == DecodeError::Fatal,
        },
{
    proof {
        reveal(end_reserved_for_apple_use4);
        reveal(args_reserved_for_apple_use4);
    }
    let p0 = pos + 2;
    let (f0, p1) = match field_u16(data, p0) {
        Some(x) => x,
        None => return Ok((Opcode::Unknown(code), p0)),
    };
    let (f1, p2) = match field_bytes(data, p1, f0 as usize) {
        Some(x) => x,
        None => return Ok((Opcode::Unknown(code), p0)),
    };
    Ok((Opcode::ReservedForAppleUse4(f0, f1), p2))
}

/// Reads the operands of `ReservedForAppleUse5`.
fn read_reserved_for_apple_use5(data: &[u8], pos: usize, code: u16) -> (r: Result<(Opcode, usize), DecodeError>)
    requires
        pos + 2 <= data.len(),
        code == (be_u16(data@, pos as int) as u16),
        code == 0x0026,
    ensures
        match outcome(data@, pos as int) {
            OpOutcome::Eof => r matches Err(e) && e == DecodeError::Malformed,
            OpOutcome::Parsed(q) => r matches Ok((op, p)) && p == q && op_at(data@, pos as int, op, q),
            OpOutcome::Unknown => r matches Ok((op, p)) && p == pos + 2 && op == Opcode::Unknown((be_u16(data@, pos as int) as u16)),
            OpOutcome::Fatal => r matches Err(e) && e == DecodeError::Fatal,
        },
{
    proof {
        reveal(end_reserved_for_apple_use5);
        reveal(args_reserved_for_apple_use5);
    }
    let p0 = pos + 2;
    let (f0, p1) = match field_u16(data, p0) {
        Some(x) => x,
        None => return Ok((Opcode::Unknown(code), p0)),
    };
    let (f1, p2) = match field_bytes(data, p1, f0 as usize) {
        Some(x) => x,
        None => return Ok((Opcode::Unknown(code), p0)),
    };
    Ok((Opcode::ReservedForAppleUse5(f0, f1), p2))
}

/// Reads the operands of `ReservedForAppleUse6`.
fn read_reserved_for_apple_use6(data: &[u8], pos: usize, code: u16) -> (r: Result<(Opcode, usize), DecodeError>)
    requires
        pos + 2 <= data.len(),
        code == (be_u16(data@, pos as int) as u16),
        code == 0x0027,
    ensures
        match outcome(data@, pos as int) {
            OpOutcome::Eof => r matches Err(e) && e == DecodeError::Malformed,
            OpOutcome::Parsed(q) => r matches Ok((op, p)) && p == q && op_at(data@, pos as int, op, q),
            OpOutcome::Unknown => r matches Ok((op, p)) && p == pos + 2 && op == Opcode::Unknown((be_u16(data@, pos as int) as u16)),
            OpOutcome::Fatal => r matches Err(e) && e == DecodeError::Fatal,
        },
{
    proof {
        reveal(end_reserved_for_apple_use6);
        reveal(args_reserved_for_apple_use6);
    }
    let p0 = pos + 2;
    let (f0, p1) = match field_u16(data, p0) {
        Some(x) => x,
        None => return Ok((Opcode::Unknown(code), p0)),
    };
    let (f1, p2) = match field_bytes(data, p1, f0 as usize) {
        Some(x) => x,
        None => return Ok((Opcode::Unknown(code), p0)),
    };
    Ok((Opcode::ReservedForAppleUse6(f0, f1), p2))
}

/// Reads the operands of `LongText`.
fn read_long_text(data: &[u8], pos: usize, code: u16) -> (r: Result<(Opcode, usize), DecodeError>)
    requires
        pos + 2 <= data.len(),
        code == (be_u16(data@, pos as int) as u16),
        code == 0x0028,
    ensures
        match outcome(data@, pos as int) {
            OpOutcome::Eof => r matches Err(e) && e == DecodeError::Malformed,
            OpOutcome::Parsed(q) => r matches Ok((op, p)) && p == q && op_at(data@, pos as int, op, q),
            OpOutcome::Unknown => r matches Ok((op, p)) && p == pos + 2 && op == Opcode::Unknown((be_u16(data@, pos as int) as u16)),
            OpOutcome::Fatal => r matches Err(e) && e == DecodeError::Fatal,
        },
{
    proof {
        reveal(end_long_text);
        reveal(args_long_text);
    }
    let p0 = pos + 2;
    let (f0, p1) = match field_point(data, p0) {
        Some(x) => x,
        None => return Ok((Opcode::Unknown(code), p0)),
    };
    let (f1, p2) = match field_short_string(data, p1) {
        Some(x) => x,
        None => return Ok((Opcode::Unknown(code), p0)),
    };
    Ok((Opcode::LongText(f0, f1), p2))
}

/// Reads the operands of `DHText`.
fn read_dh_text(data: &[u8], pos: usize, code: u16) -> (r: Result<(Opcode, usize), DecodeError>)
    requires
        pos + 2 <= data.len(),
        code == (be_u16(data@, pos as int) as u16),
        code == 0x0029,
    ensures
        match outcome(data@, pos as int) {
            OpOutcome::Eof => r matches Err(e) && e == DecodeError::Malformed,
            OpOutcome::Parsed(q) => r matches Ok((op, p)) && p == q && op_at(data@, pos as int, op, q),
            OpOutcome::Unknown => r matches Ok((op, p)) && p == pos + 2 && op == Opcode::Unknown((be_u16(data@, pos as int) as u16)),
            OpOutcome::Fatal => r matches Err(e) && e == DecodeError::Fatal,
        },
{
    proof {
        reveal(end_dh_text);
        reveal(args_dh_text);
    }
    let p0 = pos + 2;
    let (f0, p1) = match field_u8(data, p0) {
        Some(x) => x,
        None => return Ok((Opcode::Unknown(code), p0)),
    };
    let (f1, p2) = match field_short_string(data, p1) {
        Some(x) => x,
        None => return Ok((Opcode::Unknown(code), p0)),
    };
    Ok((Opcode::DHText(f0, f1), p2))
}

/// Reads the operands of `DVText`.
fn read_dv_text(data: &[u8], pos: usize, code: u16) -> (r: Result<(Opcode, usize), DecodeError>)
    requires
        pos + 2 <= data.len(),
        code == (be_u16(data@, pos as int) as u16),
        code == 0x002A,
    ensures
        match outcome(data@, pos as int) {
            OpOutcome::Eof => r matches Err(e) && e == DecodeError::Malformed,
            OpOutcome::Parsed(q) => r matches Ok((op, p)) && p == q && op_at(data@, pos as int, op, q),
            OpOutcome::Unknown => r matches Ok((op, p)) && p == pos + 2 && op == Opcode::Unknown((be_u16(data@, pos as int) as u16)),
            OpOutcome::Fatal => r matches Err(e) && e == DecodeError::Fatal,
        },
{
    proof {
        reveal(end_dv_text);
        reveal(args_dv_text);
    }
    let p0 = pos + 2;
    let (f0, p1) = match field_u8(data, p0) {
        Some(x) => x,
        None => return Ok((Opcode::Unknown(code), p0)),
    };
    let (f1, p2) = match field_short_string(data, p1) {
        Some(x) => x,
        None => return Ok((Opcode::Unknown(code), p0)),
    };
    Ok((Opcode::DVText(f0, f1), p2))
}

/// Reads the operands of `DHDVText`.
fn read_dhdv_text(data: &[u8], pos: usize, code: u16) -> (r: Result<(Opcode, usize), DecodeError>)
    requires
        pos + 2 <= data.len(),
        code == (be_u16(data@, pos as int) as u16),
        code == 0x002B,
    ensures
        match outcome(data@, pos as int) {
            OpOutcome::Eof => r matches Err(e) && e == DecodeError::Malformed,
            OpOutcome::Parsed(q) => r matches Ok((op, p)) && p == q && op_at(data@, pos as int, op, q),
            OpOutcome::Unknown => r matches Ok((op, p)) && p == pos + 2 && op == Opcode::Unknown((be_u16(data@, pos as int) as u16)),
            OpOutcome::Fatal => r matches Err(e) && e == DecodeError::Fatal,
        },
{
    proof {
        reveal(end_dhdv_text);
        reveal(args_dhdv_text);
    }
    let p0 = pos + 2;
    let (f0, p1) = match field_u8(data, p0) {
        Some(x) => x,
        None => return Ok((Opcode::Unknown(code), p0)),
    };
    let (f1, p2) = match field_u8(data, p1) {
        Some(x) => x,
        None => return Ok((Opcode::Unknown(code), p0)),
    };
    let (f2, p3) = match field_short_string(data, p2) {
        Some(x) => x,
        None => return Ok((Opcode::Unknown(code), p0)),
    };
    Ok((Opcode::DHDVText(f0, f1, f2), p3))
}

/// Reads the operands of `FontName`.
fn read_font_name(data: &[u8], pos: usize, code: u16) -> (r: Result<(Opcode, usize), DecodeError>)
    requires
        pos + 2 <= data.len(),
        code == (be_u16(data@, pos as int) as u16),
        code == 0x002C,
    ensures
        match outcome(data@, pos as int) {
            OpOutcome::Eof => r matches Err(e) && e == DecodeError::Malformed,
            OpOutcome::Parsed(q) => r matches Ok((op, p)) && p == q && op_at(data@, pos as int, op, q),
            OpOutcome::Unknown => r matches Ok((op, p)) && p == pos + 2 && op == Opcode::Unknown((be_u16(data@, pos as int) as u16)),
            OpOutcome::Fatal => r matches Err(e) && e == DecodeError::Fatal,
        },
{
    proof {
        reveal(end_font_name);
        reveal(args_font_name);
    }
    let p0 = pos + 2;
    let (f0, p1) = match field_u16(data, p0) {
        Some(x) => x,
        None => return Ok((Opcode::Unknown(code), p0)),
    };
    let (f1, p2) = match field_u16(data, p1) {
        Some(x) => x,
        None => return Ok((Opcode::Unknown(code), p0)),
    };
    let (f2, p3) = match field_short_string(data, p2) {
        Some(x) => x,
        None => return Ok((Opcode::Unknown(code), p0)),
    };
    Ok((Opcode::FontName(f0, f1, f2), p3))
}

/// Reads the operands of `LineJustify`.
fn read_line_justify(data: &[u8], pos: usize, code: u16) -> (r: Result<(Opcode, usize), DecodeError>)
    requires
        pos + 2 <= data.len(),
        code == (be_u16(data@, pos as int) as u16),
        code == 0x002D,
    ensures
        match outcome(data@, pos as int) {
            OpOutcome::Eof => r matches Err(e) && e == DecodeError::Malformed,
            OpOutcome::Parsed(q) => r matches Ok((op, p)) && p == q && op_at(data@, pos as int, op, q),
            OpOutcome::Unknown => r matches Ok((op, p)) && p == pos + 2 && op == Opcode::Unknown((be_u16(data@, pos as int) as u16)),
            OpOutcome::Fatal => r matches Err(e) && e == DecodeError::Fatal,
        },
{
    proof {
        reveal(end_line_justify);
        reveal(args_line_justify);
    }
    let p0 = pos + 2;
    let (f0, p1) = match field_u16(data, p0) {
        Some(x) => x,
        None => return Ok((Opcode::Unknown(code), p0)),
    };
    let (f1, p2) = match field_fixed(data, p1) {
        Some(x) => x,
        None => return Ok((Opcode::Unknown(code), p0)),
    };
    let (f2, p3) = match field_fixed(data, p2) {
        Some(x) => x,
        None => return Ok((Opcode::Unknown(code), p0)),
    };
    Ok((Opcode::LineJustify(f0, f1, f2), p3))
}

/// Reads the operands of `GlyphState`.
fn read_glyph_state(data: &[u8], pos: usize, code: u16) -> (r: Result<(Opcode, usize), DecodeError>)
    requires
        pos + 2 <= data.len(),
        code == (be_u16(data@, pos as int) as u16),
        code == 0x002E,
    ensures
        match outcome(data@, pos as int) {
            OpOutcome::Eof => r matches Err(e) && e == DecodeError::Malformed,
            OpOutcome::Parsed(q) => r matches Ok((op, p)) && p == q && op_at(data@, pos as int, op, q),
            OpOutcome::Unknown => r matches Ok((op, p)) && p == pos + 2 && op == Opcode::Unknown((be_u16(data@, pos as int) as u16)),
            OpOutcome::Fatal => r matches Err(e) && e == DecodeError::Fatal,
        },
{
    proof {
        reveal(end_glyph_state);
        reveal(args_glyph_state);
    }
    let p0 = pos + 2;
    let (f0, p1) = match field_u16(data, p0) {
        Some(x) => x,
        None => return Ok((Opcode::Unknown(code), p0)),
    };
    let (f1, p2) = match field_u8(data, p1) {
        Some(x) => x,
        None => return Ok((Opcode::Unknown(code), p0)),
    };
    let (f2, p3) = match field_u8(data, p2) {
        Some(x) => x,
        None => return Ok((Opcode::Unknown(code), p0)),
    };
    let (f3, p4) = match field_u8(data, p3) {
        Some(x) => x,
        None => return Ok((Opcode::Unknown(code), p0)),
    };
    let (f4, p5) = match field_u8(data, p4) {
        Some(x) => x,
        None => return Ok((Opcode::Unknown(code), p0)),
    };
    Ok((Opcode::GlyphState(f0, f1, f2, f3, f4), p5))
}

/// Reads the operands of `ReservedForAppleUse7`.
fn read_reserved_for_apple_use7(data: &[u8], pos: usize, code: u16) -> (r: Result<(Opcode, usize), DecodeError>)
    requires
        pos + 2 <= data.len(),
        code == (be_u16(data@, pos as int) as u16),
        code == 0x002F,
    ensures
        match outcome(data@, pos as int) {
            OpOutcome::Eof => r matches Err(e) && e == DecodeError::Malformed,
            OpOutcome::Parsed(q) => r matches Ok((op, p)) && p == q && op_at(data@, pos as int, op, q),
            OpOutcome::Unknown => r matches Ok((op, p)) && p == pos + 2 && op == Opcode::Unknown((be_u16(data@, pos as int) as u16)),
            OpOutcome::Fatal => r matches Err(e) && e == DecodeError::Fatal,
        },
{
    proof {
        reveal(end_reserved_for_apple_use7);
        reveal(args_reserved_for_apple_use7);
    }
    let p0 = pos + 2;
    let (f0, p1) = match field_u16(data, p0) {
        Some(x) => x,
        None => return Ok((Opcode::Unknown(code), p0)),
    };
    let (f1, p2) = match field_bytes(data, p1, f0 as usize) {
        Some(x) => x,
        None => return Ok((Opcode::Unknown(code), p0)),
    };
    Ok((Opcode::ReservedForAppleUse7(f0, f1), p2))
}

/// Reads the operands of `FrameRect`.
fn read_frame_rect(data: &[u8], pos: usize, code: u16) -> (r: Result<(Opcode, usize), DecodeError>)
    requires
        pos + 2 <= data.len(),
        code == (be_u16(data@, pos as int) as u16),
        code == 0x0030,
    ensures
        match outcome(data@, pos as int) {
            OpOutcome::Eof => r matches Err(e) && e == DecodeError::Malformed,
            OpOutcome::Parsed(q) => r matches Ok((op, p)) && p == q && op_at(data@, pos as int, op, q),
            OpOutcome::Unknown => r matches Ok((op, p)) && p == pos + 2 && op == Opcode::Unknown((be_u16(data@, pos as int) as u16)),
            OpOutcome::Fatal => r matches Err(e) && e == DecodeError::Fatal,
        },
{
    proof {
        reveal(end_frame_rect);
        reveal(args_frame_rect);
    }
    let p0 = pos + 2;
    let (f0, p1) = match field_rect(data, p0) {
        Some(x) => x,
        None => return Ok((Opcode::Unknown(code), p0)),
    };
    Ok((Opcode::FrameRect(f0), p1))
}

/// Reads the operands of `PaintRect`.
fn read_paint_rect(data: &[u8], pos: usize, code: u16) -> (r: Result<(Opcode, usize), DecodeError>)
    requires
        pos + 2 <= data.len(),
        code == (be_u16(data@, pos as int) as u16),
        code == 0x0031,
    ensures
        match outcome(data@, pos as int) {
            OpOutcome::Eof => r matches Err(e) && e == DecodeError::Malformed,
            OpOutcome::Parsed(q) => r matches Ok((op, p)) && p == q && op_at(data@, pos as int, op, q),
            OpOutcome::Unknown => r matches Ok((op, p)) && p == pos + 2 && op == Opcode::Unknown((be_u16(data@, pos as int) as u16)),
            OpOutcome::Fatal => r matches Err(e) && e == DecodeError::Fatal,
        },
{
    proof {
        reveal(end_paint_rect);
        reveal(args_paint_rect);
    }
    let p0 = pos + 2;
    let (f0, p1) = match field_rect(data, p0) {
        Some(x) => x,
        None => return Ok((Opcode::Unknown(code), p0)),
    };
    Ok((Opcode::PaintRect(f0), p1))
}

/// Reads the operands of `EraseRect`.
fn read_erase_rect(data: &[u8], pos: usize, code: u16) -> (r: Result<(Opcode, usize), DecodeError>)
    requires
        pos + 2 <= data.len(),
        code == (be_u16(data@, pos as int) as u16),
        code == 0x0032,
    ensures
        match outcome(data@, pos as int) {
            OpOutcome::Eof => r matches Err(e) && e == DecodeError::Malformed,
            OpOutcome::Parsed(q) => r matches Ok((op, p)) && p == q && op_at(data@, pos as int, op, q),
            OpOutcome::Unknown => r matches Ok((op, p)) && p == pos + 2 && op == Opcode::Unknown((be_u16(data@, pos as int) as u16)),
            OpOutcome::Fatal => r matches Err(e) && e == DecodeError::Fatal,
        },
{
    proof {
        reveal(end_erase_rect);
        reveal(args_erase_rect);
    }
    let p0 = pos + 2;
    let (f0, p1) = match field_rect(data, p0) {
        Some(x) => x,
        None => return Ok((Opcode::Unknown(code), p0)),
    };
    Ok((Opcode::EraseRect(f0), p1))
}

/// Reads the operands of `InvertRect`.
fn read_invert_rect(data: &[u8], pos: usize, code: u16) -> (r: Result<(Opcode, usize), DecodeError>)
    requires
        pos + 2 <= data.len(),
        code == (be_u16(data@, pos as int) as u16),
        code == 0x0033,
    ensures
        match outcome(data@, pos as int) {
            OpOutcome::Eof => r matches Err(e) && e == DecodeError::Malformed,
            OpOutcome::Parsed(q) => r matches Ok((op, p)) && p == q && op_at(data@, pos as int, op, q),
            OpOutcome::Unknown => r matches Ok((op, p)) && p == pos + 2 && op == Opcode::Unknown((be_u16(data@, pos as int) as u16)),
            OpOutcome::Fatal => r matches Err(e) && e == DecodeError::Fatal,
        },
{
    proof {
        reveal(end_invert_rect);
        reveal(args_invert_rect);
    }
    let p0 = pos + 2;
    let (f0, p1) = match field_rect(data, p0) {
        Some(x) => x,
        None => return Ok((Opcode::Unknown(code), p0)),
    };
    Ok((Opcode::InvertRect(f0), p1))
}

/// Reads the operands of `FillRect`.
fn read_fill_rect(data: &[u8], pos: usize, code: u16) -> (r: Result<(Opcode, usize), DecodeError>)
    requires
        pos + 2 <= data.len(),
        code == (be_u16(data@, pos as int) as u16),
        code == 0x0034,
    ensures
        match outcome(data@, pos as int) {
            OpOutcome::Eof => r matches Err(e) && e == DecodeError::Malformed,
            OpOutcome::Parsed(q) => r matches Ok((op, p)) && p == q && op_at(data@, pos as int, op, q),
            OpOutcome::Unknown => r matches Ok((op, p)) && p == pos + 2 && op == Opcode::Unknown((be_u16(data@, pos as int) as u16)),
            OpOutcome::Fatal => r matches Err(e) && e == DecodeError::Fatal,
        },
{
    proof {
        reveal(end_fill_rect);
        reveal(args_fill_rect);
    }
    let p0 = pos + 2;
    let (f0, p1) = match field_rect(data, p0) {
        Some(x) => x,
        None => return Ok((Opcode::Unknown(code), p0)),
    };
    Ok((Opcode::FillRect(f0), p1))
}

/// Reads the operands of `ReservedForAppleUse8`.
fn read_reserved_for_apple_use8(data: &[u8], pos: usize, code: u16) -> (r: Result<(Opcode, usize), DecodeError>)
    requires
        pos + 2 <= data.len(),
        code == (be_u16(data@, pos as int) as u16),
        code == 0x0035,
    ensures
        match outcome(data@, pos as int) {
            OpOutcome::Eof => r matches Err(e) && e == DecodeError::Malformed,
            OpOutcome::Parsed(q) => r matches Ok((op, p)) && p == q && op_at(data@, pos as int, op, q),
            OpOutcome::Unknown => r matches Ok((op, p)) && p == pos + 2 && op == Opcode::Unknown((be_u16(data@, pos as int) as u16)),
            OpOutcome::Fatal => r matches Err(e) && e == DecodeError::Fatal,
        },
{
    proof {
        reveal(end_reserved_for_apple_use8);
        reveal(args_reserved_for_apple_use8);
    }
    let p0 = pos + 2;
    let (f0, p1) = match field_rect(data, p0) {
        Some(x) => x,
        None => return Ok((Opcode::Unknown(code), p0)),
    };
    Ok((Opcode::ReservedForAppleUse8(f0), p1))
}

/// Reads the operands of `ReservedForAppleUse9`.
fn read_reserved_for_apple_use9(data: &[u8], pos: usize, code: u16) -> (r: Result<(Opcode, usize), DecodeError>)
    requires
        pos + 2 <= data.len(),
        code == (be_u16(data@, pos as int) as u16),
        code == 0x0036,
    ensures
        match outcome(data@, pos as int) {
            OpOutcome::Eof => r matches Err(e) && e == DecodeError::Malformed,
            OpOutcome::Parsed(q) => r matches Ok((op, p)) && p == q && op_at(data@, pos as int, op, q),
            OpOutcome::Unknown => r matches Ok((op, p)) && p == pos + 2 && op == Opcode::Unknown((be_u16(data@, pos as int) as u16)),
            OpOutcome::Fatal => r matches Err(e) && e == DecodeError::Fatal,
        },
{
    proof {
        reveal(end_reserved_for_apple_use9);
        reveal(args_reserved_for_apple_use9);
    }
    let p0 = pos + 2;
    let (f0, p1) = match field_rect(data, p0) {
        Some(x) => x,
        None => return Ok((Opcode::Unknown(code), p0)),
    };
    Ok((Opcode::ReservedForAppleUse9(f0), p1))
}

/// Reads the operands of `ReservedForAppleUse10`.
fn read_reserved_for_apple_use10(data: &[u8], pos: usize, code: u16) -> (r: Result<(Opcode, usize), DecodeError>)
    requires
        pos + 2 <= data.len(),
        code == (be_u16(data@, pos as int) as u16),
        code == 0x0037,
    ensures
        match outcome(data@, pos as int) {
            OpOutcome::Eof => r matches Err(e) && e == DecodeError::Malformed,
            OpOutcome::Parsed(q) => r matches Ok((op, p)) && p == q && op_at(data@, pos as int, op, q),
            OpOutcome::Unknown => r matches Ok((op, p)) && p == pos + 2 && op == Opcode::Unknown((be_u16(data@, pos as int) as u16)),
            OpOutcome::Fatal => r matches Err(e) && e == DecodeError::Fatal,
        },
{
    proof {
        reveal(end_reserved_for_apple_use10);
        reveal(args_reserved_for_apple_use10);
    }
    let p0 = pos + 2;
    let (f0, p1) = match field_rect(data, p0) {
        Some(x) => x,
        None => return Ok((Opcode::Unknown(code), p0)),
    };
    Ok((Opcode::ReservedForAppleUse10(f0), p1))
}

/// Reads the operands of `FrameSameRect`.
fn read_frame_same_rect(data: &[u8], pos: usize, code: u16) -> (r: Result<(Opcode, usize), DecodeError>)
    requires
        pos + 2 <= data.len(),
        code == (be_u16(data@, pos as int) as u16),
        code == 0x0038,
    ensures
        match outcome(data@, pos as int) {
            OpOutcome::Eof => r matches Err(e) && e == DecodeError::Malformed,
            OpOutcome::Parsed(q) => r matches Ok((op, p)) && p == q && op_at(data@, pos as int, op, q),
            OpOutcome::Unknown => r matches Ok((op, p)) && p == pos + 2 && op == Opcode::Unknown((be_u16(data@, pos as int) as u16)),
            OpOutcome::Fatal => r matches Err(e) && e == DecodeError::Fatal,
        },
{
    proof {
        reveal(end_frame_same_rect);
        reveal(args_frame_same_rect);
    }
    let p0 = pos + 2;
    Ok((Opcode::FrameSameRect, p0))
}

/// Reads the operands of `PaintSameRect`.
fn read_paint_same_rect(data: &[u8], pos: usize, code: u16) -> (r: Result<(Opcode, usize), DecodeError>)
    requires
        pos + 2 <= data.len(),
        code == (be_u16(data@, pos as int) as u16),
        code == 0x0039,
    ensures
        match outcome(data@, pos as int) {
            OpOutcome::Eof => r matches Err(e) && e == DecodeError::Malformed,
            OpOutcome::Parsed(q) => r matches Ok((op, p)) && p == q && op_at(data@, pos as int, op, q),
            OpOutcome::Unknown => r matches Ok((op, p)) && p == pos + 2 && op == Opcode::Unknown((be_u16(data@, pos as int) as u16)),
            OpOutcome::Fatal => r matches Err(e) && e == DecodeError::Fatal,
        },
{
    proof {
        reveal(end_paint_same_rect);
        reveal(args_paint_same_rect);
    }
    let p0 = pos + 2;
    Ok((Opcode::PaintSameRect, p0))
}

/// Reads the operands of `EraseSameRect`.
fn read_erase_same_rect(data: &[u8], pos: usize, code: u16) -> (r: Result<(Opcode, usize), DecodeError>)
    requires
        pos + 2 <= data.len(),
        code == (be_u16(data@, pos as int) as u16),
        code == 0x003A,
    ensures
        match outcome(data@, pos as int) {
            OpOutcome::Eof => r matches Err(e) && e == DecodeError::Malformed,
            OpOutcome::Parsed(q) => r matches Ok((op, p)) && p == q && op_at(data@, pos as int, op, q),
            OpOutcome::Unknown => r matches Ok((op, p)) && p == pos + 2 && op == Opcode::Unknown((be_u16(data@, pos as int) as u16)),
            OpOutcome::Fatal => r matches Err(e) && e == DecodeError::Fatal,
        },
{
    proof {
        reveal(end_erase_same_rect);
        reveal(args_erase_same_rect);
    }
    let p0 = pos + 2;
    Ok((Opcode::EraseSameRect, p0))
}

/// Reads the operands of `InvertSameRect`.
fn read_invert_same_rect(data: &[u8], pos: usize, code: u16) -> (r: Result<(Opcode, usize), DecodeError>)
    requires
        pos + 2 <= data.len(),
        code == (be_u16(data@, pos as int) as u16),
        code == 0x003B,
    ensures
        match outcome(data@, pos as int) {
            OpOutcome::Eof => r matches Err(e) && e == DecodeError::Malformed,
            OpOutcome::Parsed(q) => r matches Ok((op, p)) && p == q && op_at(data@, pos as int, op, q),
            OpOutcome::Unknown => r matches Ok((op, p)) && p == pos + 2 && op == Opcode::Unknown((be_u16(data@, pos as int) as u16)),
            OpOutcome::Fatal => r matches Err(e) && e == DecodeError::Fatal,
        },
{
    proof {
        reveal(end_invert_same_rect);
        reveal(args_invert_same_rect);
    }
    let p0 = pos + 2;
    Ok((Opcode::InvertSameRect, p0))
}

/// Reads the operands of `FillSameRect`.
fn read_fill_same_rect(data: &[u8], pos: usize, code: u16) -> (r: Result<(Opcode, usize), DecodeError>)
    requires
        pos + 2 <= data.len(),
        code == (be_u16(data@, pos as int) as u16),
        code == 0x003C,
    ensures
        match outcome(data@, pos as int) {
            OpOutcome::Eof => r matches Err(e) && e == DecodeError::Malformed,
            OpOutcome::Parsed(q) => r matches Ok((op, p)) && p == q && op_at(data@, pos as int, op, q),
            OpOutcome::Unknown => r matches Ok((op, p)) && p == pos + 2 && op == Opcode::Unknown((be_u16(data@, pos as int) as u16)),
            OpOutcome::Fatal => r matches Err(e) && e == DecodeError::Fatal,
        },
{
    proof {
        reveal(end_fill_same_rect);
        reveal(args_fill_same_rect);
    }
    let p0 = pos + 2;
    Ok((Opcode::FillSameRect, p0))
}

/// Reads the operands of `ReservedForAppleUse11`.
fn read_reserved_for_apple_use11(data: &[u8], pos: usize, code: u16) -> (r: Result<(Opcode, usize), DecodeError>)
    requires
        pos + 2 <= data.len(),
        code == (be_u16(data@, pos as int) as u16),
        code == 0x003D,
    ensures
        match outcome(data@, pos as int) {
            OpOutcome::Eof => r matches Err(e) && e == DecodeError::Malformed,
            OpOutcome::Parsed(q) => r matches Ok((op, p)) && p == q && op_at(data@, pos as int, op, q),
            OpOutcome::Unknown => r matches Ok((op, p)) && p == pos + 2 && op == Opcode::Unknown((be_u16(data@, pos as int) as u16)),
            OpOutcome::Fatal => r matches Err(e) && e == DecodeError::Fatal,
        },
{
    proof {
        reveal(end_reserved_for_apple_use11);
        reveal(args_reserved_for_apple_use11);
    }
    let p0 = pos + 2;
    Ok((Opcode::ReservedForAppleUse11, p0))
}

/// Reads the operands of `ReservedForAppleUse12`.
fn read_reserved_for_apple_use12(data: &[u8], pos: usize, code: u16) -> (r: Result<(Opcode, usize), DecodeError>)
    requires
        pos + 2 <= data.len(),
        code == (be_u16(data@, pos as int) as u16),
        code == 0x003E,
    ensures
        match outcome(data@, pos as int) {
            OpOutcome::Eof => r matches Err(e) && e == DecodeError::Malformed,
            OpOutcome::Parsed(q) => r matches Ok((op, p)) && p == q && op_at(data@, pos as int, op, q),
            OpOutcome::Unknown => r matches Ok((op, p)) && p == pos + 2 && op == Opcode::Unknown((be_u16(data@, pos as int) as u16)),
            OpOutcome::Fatal => r matches Err(e) && e == DecodeError::Fatal,
        },
{
    proof {
        reveal(end_reserved_for_apple_use12);
        reveal(args_reserved_for_apple_use12);
    }
    let p0 = pos + 2;
    Ok((Opcode::ReservedForAppleUse12, p0))
}

/// Reads the operands of `ReservedForAppleUse13`.
fn read_reserved_for_apple_use13(data: &[u8], pos: usize, code: u16) -> (r: Result<(Opcode, usize), DecodeError>)
    requires
        pos + 2 <= data.len(),
        code == (be_u16(data@, pos as int) as u16),
        code == 0x003F,
    ensures
        match outcome(data@, pos as int) {
            OpOutcome::Eof => r matches Err(e) && e == DecodeError::Malformed,
            OpOutcome::Parsed(q) => r matches Ok((op, p)) && p == q && op_at(data@, pos as int, op, q),
            OpOutcome::Unknown => r matches Ok((op, p)) && p == pos + 2 && op == Opcode::Unknown((be_u16(data@, pos as int) as u16)),
            OpOutcome::Fatal => r matches Err(e) && e == DecodeError::Fatal,
        },
{
    proof {
        reveal(end_reserved_for_apple_use13);
        reveal(args_reserved_for_apple_use13);
    }
    let p0 = pos + 2;
    Ok((Opcode::ReservedForAppleUse13, p0))
}

/// Reads the operands of `FrameRRect`.
fn read_frame_r_rect(data: &[u8], pos: usize, code: u16) -> (r: Result<(Opcode, usize), DecodeError>)
    requires
        pos + 2 <= data.len(),
        code == (be_u16(data@, pos as int) as u16),
        code == 0x0040,
    ensures
        match outcome(data@, pos as int) {
            OpOutcome::Eof => r matches Err(e) && e == DecodeError::Malformed,
            OpOutcome::Parsed(q) => r matches Ok((op, p)) && p == q && op_at(data@, pos as int, op, q),
            OpOutcome::Unknown => r matches Ok((op, p)) && p == pos + 2 && op == Opcode::Unknown((be_u16(data@, pos as int) as u16)),
            OpOutcome::Fatal => r matches Err(e) && e == DecodeError::Fatal,
        },
{
    proof {
        reveal(end_frame_r_rect);
        reveal(args_frame_r_rect);
    }
    let p0 = pos + 2;
    let (f0, p1) = match field_rect(data, p0) {
        Some(x) => x,
        None => return Ok((Opcode::Unknown(code), p0)),
    };
    Ok((Opcode::FrameRRect(f0), p1))
}

/// Reads the operands of `PaintRRect`.
fn read_paint_r_rect(data: &[u8], pos: usize, code: u16) -> (r: Result<(Opcode, usize), DecodeError>)
    requires
        pos + 2 <= data.len(),
        code == (be_u16(data@, pos as int) as u16),
        code == 0x0041,
    ensures
        match outcome(data@, pos as int) {
            OpOutcome::Eof => r matches Err(e) && e == DecodeError::Malformed,
            OpOutcome::Parsed(q) => r matches Ok((op, p)) && p == q && op_at(data@, pos as int, op, q),
            OpOutcome::Unknown => r matches Ok((op, p)) && p == pos + 2 && op == Opcode::Unknown((be_u16(data@, pos as int) as u16)),
            OpOutcome::Fatal => r matches Err(e) && e == DecodeError::Fatal,
        },
{
    proof {
        reveal(end_paint_r_rect);
        reveal(args_paint_r_rect);
    }
    let p0 = pos + 2;
    let (f0, p1) = match field_rect(data, p0) {
        Some(x) => x,
        None => return Ok((Opcode::Unknown(code), p0)),
    };
    Ok((Opcode::PaintRRect(f0), p1))
}

/// Reads the operands of `EraseRRect`.
fn read_erase_r_rect(data: &[u8], pos: usize, code: u16) -> (r: Result<(Opcode, usize), DecodeError>)
    requires
        pos + 2 <= data.len(),
        code == (be_u16(data@, pos as int) as u16),
        code == 0x0042,
    ensures
        match outcome(data@, pos as int) {
            OpOutcome::Eof => r matches Err(e) && e == DecodeError::Malformed,
            OpOutcome::Parsed(q) => r matches Ok((op, p)) && p == q && op_at(data@, pos as int, op, q),
            OpOutcome::Unknown => r matches Ok((op, p)) && p == pos + 2 && op == Opcode::Unknown((be_u16(data@, pos as int) as u16)),
            OpOutcome::Fatal => r matches Err(e) && e == DecodeError::Fatal,
        },
{
    proof {
        reveal(end_erase_r_rect);
        reveal(args_erase_r_rect);
    }
    let p0 = pos + 2;
    let (f0, p1) = match field_rect(data, p0) {
        Some(x) => x,
        None => return Ok((Opcode::Unknown(code), p0)),
    };
    Ok((Opcode::EraseRRect(f0), p1))
}

/// Reads the operands of `InvertRRect`.
fn read_invert_r_rect(data: &[u8], pos: usize, code: u16) -> (r: Result<(Opcode, usize), DecodeError>)
    requires
        pos + 2 <= data.len(),
        code == (be_u16(data@, pos as int) as u16),
        code == 0x0043,
    ensures
        match outcome(data@, pos as int) {
            OpOutcome::Eof => r matches Err(e) && e == DecodeError::Malformed,
            OpOutcome::Parsed(q) => r matches Ok((op, p)) && p == q && op_at(data@, pos as int, op, q),
            OpOutcome::Unknown => r matches Ok((op, p)) && p == pos + 2 && op == Opcode::Unknown((be_u16(data@, pos as int) as u16)),
            OpOutcome::Fatal => r matches Err(e) && e == DecodeError::Fatal,
        },
{
    proof {
        reveal(end_invert_r_rect);
        reveal(args_invert_r_rect);
    }
    let p0 = pos + 2;
    let (f0, p1) = match field_rect(data, p0) {
        Some(x) => x,
        None => return Ok((Opcode::Unknown(code), p0)),
    };
    Ok((Opcode::InvertRRect(f0), p1))
}

/// Reads the operands of `FillRRect`.
fn read_fill_r_rect(data: &[u8], pos: usize, code: u16) -> (r: Result<(Opcode, usize), DecodeError>)
    requires
        pos + 2 <= data.len(),
        code == (be_u16(data@, pos as int) as u16),
        code == 0x0044,
    ensures
        match outcome(data@, pos as int) {
            OpOutcome::Eof => r matches Err(e) && e == DecodeError::Malformed,
            OpOutcome::Parsed(q) => r matches Ok((op, p)) && p == q && op_at(data@, pos as int, op, q),
            OpOutcome::Unknown => r matches Ok((op, p)) && p == pos + 2 && op == Opcode::Unknown((be_u16(data@, pos as int) as u16)),
            OpOutcome::Fatal => r matches Err(e) && e == DecodeError::Fatal,
        },
{
    proof {
        reveal(end_fill_r_rect);
        reveal(args_fill_r_rect);
    }
    let p0 = pos + 2;
    let (f0, p1) = match field_rect(data, p0) {
        Some(x) => x,
        None => return Ok((Opcode::Unknown(code), p0)),
    };
    Ok((Opcode::FillRRect(f0), p1))
}

/// Reads the operands of `ReservedForAppleUse14`.
fn read_reserved_for_apple_use14(data: &[u8], pos: usize, code: u16) -> (r: Result<(Opcode, usize), DecodeError>)
    requires
        pos + 2 <= data.len(),
        code == (be_u16(data@, pos as int) as u16),
        code == 0x0045,
    ensures
        match outcome(data@, pos as int) {
            OpOutcome::Eof => r matches Err(e) && e == DecodeError::Malformed,
            OpOutcome::Parsed(q) => r matches Ok((op, p)) && p == q && op_at(data@, pos as int, op, q),
            OpOutcome::Unknown => r matches Ok((op, p)) && p == pos + 2 && op == Opcode::Unknown((be_u16(data@, pos as int) as u16)),
            OpOutcome::Fatal => r matches Err(e) && e == DecodeError::Fatal,
        },
{
    proof {
        reveal(end_reserved_for_apple_use14);
        reveal(args_reserved_for_apple_use14);
    }
    let p0 = pos + 2;
    let (f0, p1) = match field_rect(data, p0) {
        Some(x) => x,
        None => return Ok((Opcode::Unknown(code), p0)),
    };
    Ok((Opcode::ReservedForAppleUse14(f0), p1))
}

/// Reads the operands of `ReservedForAppleUse15`.
fn read_reserved_for_apple_use15(data: &[u8], pos: usize, code: u16) -> (r: Result<(Opcode, usize), DecodeError>)
    requires
        pos + 2 <= data.len(),
        code == (be_u16(data@, pos as int) as u16),
        code == 0x0046,
    ensures
        match outcome(data@, pos as int) {
            OpOutcome::Eof => r matches Err(e) && e == DecodeError::Malformed,
            OpOutcome::Parsed(q) => r matches Ok((op, p)) && p == q && op_at(data@, pos as int, op, q),
            OpOutcome::Unknown => r matches Ok((op, p)) && p == pos + 2 && op == Opcode::Unknown((be_u16(data@, pos as int) as u16)),
            OpOutcome::Fatal => r matches Err(e) && e == DecodeError::Fatal,
        },
{
    proof {
        reveal(end_reserved_for_apple_use15);
        reveal(args_reserved_for_apple_use15);
    }
    let p0 = pos + 2;
    let (f0, p1) = match field_rect(data, p0) {
        Some(x) => x,
        None => return Ok((Opcode::Unknown(code), p0)),
    };
    Ok((Opcode::ReservedForAppleUse15(f0), p1))
}

/// Reads the operands of `ReservedForAppleUse16`.
fn read_reserved_for_apple_use16(data: &[u8], pos: usize, code: u16) -> (r: Result<(Opcode, usize), DecodeError>)
    requires
        pos + 2 <= data.len(),
        code == (be_u16(data@, pos as int) as u16),
        code == 0x0047,
    ensures
        match outcome(data@, pos as int) {
            OpOutcome::Eof => r matches Err(e) && e == DecodeError::Malformed,
            OpOutcome::Parsed(q) => r matches Ok((op, p)) && p == q && op_at(data@, pos as int, op, q),
            OpOutcome::Unknown => r matches Ok((op, p)) && p == pos + 2 && op == Opcode::Unknown((be_u16(data@, pos as int) as u16)),
            OpOutcome::Fatal => r matches Err(e) && e == DecodeError::Fatal,
        },
{
    proof {
        reveal(end_reserved_for_apple_use16);
        reveal(args_reserved_for_apple_use16);
    }
    let p0 = pos + 2;
    let (f0, p1) = match field_rect(data, p0) {
        Some(x) => x,
        None => return Ok((Opcode::Unknown(code), p0)),
    };
    Ok((Opcode::ReservedForAppleUse16(f0), p1))
}

/// Reads the operands of `FrameSameRRect`.
fn read_frame_same_r_rect(data: &[u8], pos: usize, code: u16) -> (r: Result<(Opcode, usize), DecodeError>)
    requires
        pos + 2 <= data.len(),
        code == (be_u16(data@, pos as int) as u16),
        code == 0x0048,
    ensures
        match outcome(data@, pos as int) {
            OpOutcome::Eof => r matches Err(e) && e == DecodeError::Malformed,
            OpOutcome::Parsed(q) => r matches Ok((op, p)) && p == q && op_at(data@, pos as int, op, q),
            OpOutcome::Unknown => r matches Ok((op, p)) && p == pos + 2 && op == Opcode::Unknown((be_u16(data@, pos as int) as u16)),
            OpOutcome::Fatal => r matches Err(e) && e == DecodeError::Fatal,
        },
{
    proof {
        reveal(end_frame_same_r_rect);
        reveal(args_frame_same_r_rect);
    }
    let p0 = pos + 2;
    Ok((Opcode::FrameSameRRect, p0))
}

/// Reads the operands of `PaintSameRRect`.
fn read_paint_same_r_rect(data: &[u8], pos: usize, code: u16) -> (r: Result<(Opcode, usize), DecodeError>)
    requires
        pos + 2 <= data.len(),
        code == (be_u16(data@, pos as int) as u16),
        code == 0x0049,
    ensures
        match outcome(data@, pos as int) {
            OpOutcome::Eof => r matches Err(e) && e == DecodeError::Malformed,
            OpOutcome::Parsed(q) => r matches Ok((op, p)) && p == q && op_at(data@, pos as int, op, q),
            OpOutcome::Unknown => r matches Ok((op, p)) && p == pos + 2 && op == Opcode::Unknown((be_u16(data@, pos as int) as u16)),
            OpOutcome::Fatal => r matches Err(e) && e == DecodeError::Fatal,
        },
{
    proof {
        reveal(end_paint_same_r_rect);
        reveal(args_paint_same_r_rect);
    }
    let p0 = pos + 2;
    Ok((Opcode::PaintSameRRect, p0))
}

/// Reads the operands of `EraseSameRRect`.
fn read_erase_same_r_rect(data: &[u8], pos: usize, code: u16) -> (r: Result<(Opcode, usize), DecodeError>)
    requires
        pos + 2 <= data.len(),
        code == (be_u16(data@, pos as int) as u16),
        code == 0x004A,
    ensures
        match outcome(data@, pos as int) {
            OpOutcome::Eof => r matches Err(e) && e == DecodeError::Malformed,
            OpOutcome::Parsed(q) => r matches Ok((op, p)) && p == q && op_at(data@, pos as int, op, q),
            OpOutcome::Unknown => r matches Ok((op, p)) && p == pos + 2 && op == Opcode::Unknown((be_u16(data@, pos as int) as u16)),
            OpOutcome::Fatal => r matches Err(e) && e == DecodeError::Fatal,
        },
{
    proof {
        reveal(end_erase_same_r_rect);
        reveal(args_erase_same_r_rect);
    }
    let p0 = pos + 2;
    Ok((Opcode::EraseSameRRect, p0))
}

/// Reads the operands of `InvertSameRRect`.
fn read_invert_same_r_rect(data: &[u8], pos: usize, code: u16) -> (r: Result<(Opcode, usize), DecodeError>)
    requires
        pos + 2 <= data.len(),
        code == (be_u16(data@, pos as int) as u16),
        code == 0x004B,
    ensures
        match outcome(data@, pos as int) {
            OpOutcome::Eof => r matches Err(e) && e == DecodeError::Malformed,
            OpOutcome::Parsed(q) => r matches Ok((op, p)) && p == q && op_at(data@, pos as int, op, q),
            OpOutcome::Unknown => r matches Ok((op, p)) && p == pos + 2 && op == Opcode::Unknown((be_u16(data@, pos as int) as u16)),
            OpOutcome::Fatal => r matches Err(e) && e == DecodeError::Fatal,
        },
{
    proof {
        reveal(end_invert_same_r_rect);
        reveal(args_invert_same_r_rect);
    }
    let p0 = pos + 2;
    Ok((Opcode::InvertSameRRect, p0))
}

/// Reads the operands of `FillSameRRect`.
fn read_fill_same_r_rect(data: &[u8], pos: usize, code: u16) -> (r: Result<(Opcode, usize), DecodeError>)
    requires
        pos + 2 <= data.len(),
        code == (be_u16(data@, pos as int) as u16),
        code == 0x004C,
    ensures
        match outcome(data@, pos as int) {
            OpOutcome::Eof => r matches Err(e) && e == DecodeError::Malformed,
            OpOutcome::Parsed(q) => r matches Ok((op, p)) && p == q && op_at(data@, pos as int, op, q),
            OpOutcome::Unknown => r matches Ok((op, p)) && p == pos + 2 && op == Opcode::Unknown((be_u16(data@, pos as int) as u16)),
            OpOutcome::Fatal => r matches Err(e) && e == DecodeError::Fatal,
        },
{
    proof {
        reveal(end_fill_same_r_rect);
        reveal(args_fill_same_r_rect);
    }
    let p0 = pos + 2;
    Ok((Opcode::FillSameRRect, p0))
}

/// Reads the operands of `ReservedForAppleUse17`.
fn read_reserved_for_apple_use17(data: &[u8], pos: usize, code: u16) -> (r: Result<(Opcode, usize), DecodeError>)
    requires
        pos + 2 <= data.len(),
        code == (be_u16(data@, pos as int) as u16),
        code == 0x004D,
    ensures
        match outcome(data@, pos as int) {
            OpOutcome::Eof => r matches Err(e) && e == DecodeError::Malformed,
            OpOutcome::Parsed(q) => r matches Ok((op, p)) && p == q && op_at(data@, pos as int, op, q),
            OpOutcome::Unknown => r matches Ok((op, p)) && p == pos + 2 && op == Opcode::Unknown((be_u16(data@, pos as int) as u16)),
            OpOutcome::Fatal => r matches Err(e) && e == DecodeError::Fatal,
        },
{
    proof {
        reveal(end_reserved_for_apple_use17);
        reveal(args_reserved_for_apple_use17);
    }
    let p0 = pos + 2;
    Ok((Opcode::ReservedForAppleUse17, p0))
}

/// Reads the operands of `ReservedForAppleUse18`.
fn read_reserved_for_apple_use18(data: &[u8], pos: usize, code: u16) -> (r: Result<(Opcode, usize), DecodeError>)
    requires
        pos + 2 <= data.len(),
        code == (be_u16(data@, pos as int) as u16),
        code == 0x004E,
    ensures
        match outcome(data@, pos as int) {
            OpOutcome::Eof => r matches Err(e) && e == DecodeError::Malformed,
            OpOutcome::Parsed(q) => r matches Ok((op, p)) && p == q && op_at(data@, pos as int, op, q),
            OpOutcome::Unknown => r matches Ok((op, p)) && p == pos + 2 && op == Opcode::Unknown((be_u16(data@, pos as int) as u16)),
            OpOutcome::Fatal => r matches Err(e) && e == DecodeError::Fatal,
        },
{
    proof {
        reveal(end_reserved_for_apple_use18);
        reveal(args_reserved_for_apple_use18);
    }
    let p0 = pos + 2;
    Ok((Opcode::ReservedForAppleUse18, p0))
}

/// Reads the operands of `ReservedForAppleUse19`.
fn read_reserved_for_apple_use19(data: &[u8], pos: usize, code: u16) -> (r: Result<(Opcode, usize), DecodeError>)
    requires
        pos + 2 <= data.len(),
        code == (be_u16(data@, pos as int) as u16),
        code == 0x004F,
    ensures
        match outcome(data@, pos as int) {
            OpOutcome::Eof => r matches Err(e) && e == DecodeError::Malformed,
            OpOutcome::Parsed(q) => r matches Ok((op, p)) && p == q && op_at(data@, pos as int, op, q),
            OpOutcome::Unknown => r matches Ok((op, p)) && p == pos + 2 && op == Opcode::Unknown((be_u16(data@, pos as int) as u16)),
            OpOutcome::Fatal => r matches Err(e) && e == DecodeError::Fatal,
        },
{
    proof {
        reveal(end_reserved_for_apple_use19);
        reveal(args_reserved_for_apple_use19);
    }
    let p0 = pos + 2;
    Ok((Opcode::ReservedForAppleUse19, p0))
}

/// Reads the operands of `FrameOval`.
fn read_frame_oval(data: &[u8], pos: usize, code: u16) -> (r: Result<(Opcode, usize), DecodeError>)
    requires
        pos + 2 <= data.len(),
        code == (be_u16(data@, pos as int) as u16),
        code == 0x0050,
    ensures
        match outcome(data@, pos as int) {
            OpOutcome::Eof => r matches Err(e) && e == DecodeError::Malformed,
            OpOutcome::Parsed(q) => r matches Ok((op, p)) && p == q && op_at(data@, pos as int, op, q),
            OpOutcome::Unknown => r matches Ok((op, p)) && p == pos + 2 && op == Opcode::Unknown((be_u16(data@, pos as int) as u16)),
            OpOutcome::Fatal => r matches Err(e) && e == DecodeError::Fatal,
        },
{
    proof {
        reveal(end_frame_oval);
        reveal(args_frame_oval);
    }
    let p0 = pos + 2;
    let (f0, p1) = match field_rect(data, p0) {
        Some(x) => x,
        None => return Ok((Opcode::Unknown(code), p0)),
    };
    Ok((Opcode::FrameOval(f0), p1))
}

/// Reads the operands of `PaintOval`.
fn read_paint_oval(data: &[u8], pos: usize, code: u16) -> (r: Result<(Opcode, usize), DecodeError>)
    requires
        pos + 2 <= data.len(),
        code == (be_u16(data@, pos as int) as u16),
        code == 0x0051,
    ensures
        match outcome(data@, pos as int) {
            OpOutcome::Eof => r matches Err(e) && e == DecodeError::Malformed,
            OpOutcome::Parsed(q) => r matches Ok((op, p)) && p == q && op_at(data@, pos as int, op, q),
            OpOutcome::Unknown => r matches Ok((op, p)) && p == pos + 2 && op == Opcode::Unknown((be_u16(data@, pos as int) as u16)),
            OpOutcome::Fatal => r matches Err(e) && e == DecodeError::Fatal,
        },
{
    proof {
        reveal(end_paint_oval);
        reveal(args_paint_oval);
    }
    let p0 = pos + 2;
    let (f0, p1) = match field_rect(data, p0) {
        Some(x) => x,
        None => return Ok((Opcode::Unknown(code), p0)),
    };
    Ok((Opcode::PaintOval(f0), p1))
}

/// Reads the operands of `EraseOval`.
fn read_erase_oval(data: &[u8], pos: usize, code: u16) -> (r: Result<(Opcode, usize), DecodeError>)
    requires
        pos + 2 <= data.len(),
        code == (be_u16(data@, pos as int) as u16),
        code == 0x0052,
    ensures
        match outcome(data@, pos as int) {
            OpOutcome::Eof => r matches Err(e) && e == DecodeError::Malformed,
            OpOutcome::Parsed(q) => r matches Ok((op, p)) && p == q && op_at(data@, pos as int, op, q),
            OpOutcome::Unknown => r matches Ok((op, p)) && p == pos + 2 && op == Opcode::Unknown((be_u16(data@, pos as int) as u16)),
            OpOutcome::Fatal => r matches Err(e) && e == DecodeError::Fatal,
        },
{
    proof {
        reveal(end_erase_oval);
        reveal(args_erase_oval);
    }
    let p0 = pos + 2;
    let (f0, p1) = match field_rect(data, p0) {
        Some(x) => x,
        None => return Ok((Opcode::Unknown(code), p0)),
    };
    Ok((Opcode::EraseOval(f0), p1))
}

/// Reads the operands of `InvertOval`.
fn read_invert_oval(data: &[u8], pos: usize, code: u16) -> (r: Result<(Opcode, usize), DecodeError>)
    requires
        pos + 2 <= data.len(),
        code == (be_u16(data@, pos as int) as u16),
        code == 0x0053,
    ensures
        match outcome(data@, pos as int) {
            OpOutcome::Eof => r matches Err(e) && e == DecodeError::Malformed,
            OpOutcome::Parsed(q) => r matches Ok((op, p)) && p == q && op_at(data@, pos as int, op, q),
            OpOutcome::Unknown => r matches Ok((op, p)) && p == pos + 2 && op == Opcode::Unknown((be_u16(data@, pos as int) as u16)),
            OpOutcome::Fatal => r matches Err(e) && e == DecodeError::Fatal,
        },
{
    proof {
        reveal(end_invert_oval);
        reveal(args_invert_oval);
    }
    let p0 = pos + 2;
    let (f0, p1) = match field_rect(data, p0) {
        Some(x) => x,
        None => return Ok((Opcode::Unknown(code), p0)),
    };
    Ok((Opcode::InvertOval(f0), p1))
}

/// Reads the operands of `FillOval`.
fn read_fill_oval(data: &[u8], pos: usize, code: u16) -> (r: Result<(Opcode, usize), DecodeError>)
    requires
        pos + 2 <= data.len(),
        code == (be_u16(data@, pos as int) as u16),
        code == 0x0054,
    ensures
        match outcome(data@, pos as int) {
            OpOutcome::Eof => r matches Err(e) && e == DecodeError::Malformed,
            OpOutcome::Parsed(q) => r matches Ok((op, p)) && p == q && op_at(data@, pos as int, op, q),
            OpOutcome::Unknown => r matches Ok((op, p)) && p == pos + 2 && op == Opcode::Unknown((be_u16(data@, pos as int) as u16)),
            OpOutcome::Fatal => r matches Err(e) && e == DecodeError::Fatal,
        },
{
    proof {
        reveal(end_fill_oval);
        reveal(args_fill_oval);
    }
    let p0 = pos + 2;
    let (f0, p1) = match field_rect(data, p0) {
        Some(x) => x,
        None => return Ok((Opcode::Unknown(code), p0)),
    };
    Ok((Opcode::FillOval(f0), p1))
}

/// Reads the operands of `ReservedForAppleUse20`.
fn read_reserved_for_apple_use20(data: &[u8], pos: usize, code: u16) -> (r: Result<(Opcode, usize), DecodeError>)
    requires
        pos + 2 <= data.len(),
        code == (be_u16(data@, pos as int) as u16),
        code == 0x0055,
    ensures
        match outcome(data@, pos as int) {
            OpOutcome::Eof => r matches Err(e) && e == DecodeError::Malformed,
            OpOutcome::Parsed(q) => r matches Ok((op, p)) && p == q && op_at(data@, pos as int, op, q),
            OpOutcome::Unknown => r matches Ok((op, p)) && p == pos + 2 && op == Opcode::Unknown((be_u16(data@, pos as int) as u16)),
            OpOutcome::Fatal => r matches Err(e) && e == DecodeError::Fatal,
        },
{
    proof {
        reveal(end_reserved_for_apple_use20);
        reveal(args_reserved_for_apple_use20);
    }
    let p0 = pos + 2;
    let (f0, p1) = match field_rect(data, p0) {
        Some(x) => x,
        None => return Ok((Opcode::Unknown(code), p0)),
    };
    Ok((Opcode::ReservedForAppleUse20(f0), p1))
}

/// Reads the operands of `ReservedForAppleUse21`.
fn read_reserved_for_apple_use21(data: &[u8], pos: usize, code: u16) -> (r: Result<(Opcode, usize), DecodeError>)
    requires
        pos + 2 <= data.len(),
        code == (be_u16(data@, pos as int) as u16),
        code == 0x0056,
    ensures
        match outcome(data@, pos as int) {
            OpOutcome::Eof => r matches Err(e) && e == DecodeError::Malformed,
            OpOutcome::Parsed(q) => r matches Ok((op, p)) && p == q && op_at(data@, pos as int, op, q),
            OpOutcome::Unknown => r matches Ok((op, p)) && p == pos + 2 && op == Opcode::Unknown((be_u16(data@, pos as int) as u16)),
            OpOutcome::Fatal => r matches Err(e) && e == DecodeError::Fatal,
        },
{
    proof {
        reveal(end_reserved_for_apple_use21);
        reveal(args_reserved_for_apple_use21);
    }
    let p0 = pos + 2;
    let (f0, p1) = match field_rect(data, p0) {
        Some(x) => x,
        None => return Ok((Opcode::Unknown(code), p0)),
    };
    Ok((Opcode::ReservedForAppleUse21(f0), p1))
}

/// Reads the operands of `ReservedForAppleUse22`.
fn read_reserved_for_apple_use22(data: &[u8], pos: usize, code: u16) -> (r: Result<(Opcode, usize), DecodeError>)
    requires
        pos + 2 <= data.len(),
        code == (be_u16(data@, pos as int) as u16),
        code == 0x0057,
    ensures
        match outcome(data@, pos as int) {
            OpOutcome::Eof => r matches Err(e) && e == DecodeError::Malformed,
            OpOutcome::Parsed(q) => r matches Ok((op, p)) && p == q && op_at(data@, pos as int, op, q),
            OpOutcome::Unknown => r matches Ok((op, p)) && p == pos + 2 && op == Opcode::Unknown((be_u16(data@, pos as int) as u16)),
            OpOutcome::Fatal => r matches Err(e) && e == DecodeError::Fatal,
        },
{
    proof {
        reveal(end_reserved_for_apple_use22);
        reveal(args_reserved_for_apple_use22);
    }
    let p0 = pos + 2;
    let (f0, p1) = match field_rect(data, p0) {
        Some(x) => x,
        None => return Ok((Opcode::Unknown(code), p0)),
    };
    Ok((Opcode::ReservedForAppleUse22(f0), p1))
}

/// Reads the operands of `FrameSameOval`.
fn read_frame_same_oval(data: &[u8], pos: usize, code: u16) -> (r: Result<(Opcode, usize), DecodeError>)
    requires
        pos + 2 <= data.len(),
        code == (be_u16(data@, pos as int) as u16),
        code == 0x0058,
    ensures
        match outcome(data@, pos as int) {
            OpOutcome::Eof => r matches Err(e) && e == DecodeError::Malformed,
            OpOutcome::Parsed(q) => r matches Ok((op, p)) && p == q && op_at(data@, pos as int, op, q),
            OpOutcome::Unknown => r matches Ok((op, p)) && p == pos + 2 && op == Opcode::Unknown((be_u16(data@, pos as int) as u16)),
            OpOutcome::Fatal => r matches Err(e) && e == DecodeError::Fatal,
        },
{
    proof {
        reveal(end_frame_same_oval);
        reveal(args_frame_same_oval);
    }
    let p0 = pos + 2;
    Ok((Opcode::FrameSameOval, p0))
}

/// Reads the operands of `PaintSameOval`.
fn read_paint_same_oval(data: &[u8], pos: usize, code: u16) -> (r: Result<(Opcode, usize), DecodeError>)
    requires
        pos + 2 <= data.len(),
        code == (be_u16(data@, pos as int) as u16),
        code == 0x0059,
    ensures
        match outcome(data@, pos as int) {
            OpOutcome::Eof => r matches Err(e) && e == DecodeError::Malformed,
            OpOutcome::Parsed(q) => r matches Ok((op, p)) && p == q && op_at(data@, pos as int, op, q),
            OpOutcome::Unknown => r matches Ok((op, p)) && p == pos + 2 && op == Opcode::Unknown((be_u16(data@, pos as int) as u16)),
            OpOutcome::Fatal => r matches Err(e) && e == DecodeError::Fatal,
        },
{
    proof {
        reveal(end_paint_same_oval);
        reveal(args_paint_same_oval);
    }
    let p0 = pos + 2;
    Ok((Opcode::PaintSameOval, p0))
}

/// Reads the operands of `EraseSameOval`.
fn read_erase_same_oval(data: &[u8], pos: usize, code: u16) -> (r: Result<(Opcode, usize), DecodeError>)
    requires
        pos + 2 <= data.len(),
        code == (be_u16(data@, pos as int) as u16),
        code == 0x005A,
    ensures
        match outcome(data@, pos as int) {
            OpOutcome::Eof => r matches Err(e) && e == DecodeError::Malformed,
            OpOutcome::Parsed(q) => r matches Ok((op, p)) && p == q && op_at(data@, pos as int, op, q),
            OpOutcome::Unknown => r matches Ok((op, p)) && p == pos + 2 && op == Opcode::Unknown((be_u16(data@, pos as int) as u16)),
            OpOutcome::Fatal => r matches Err(e) && e == DecodeError::Fatal,
        },
{
    proof {
        reveal(end_erase_same_oval);
        reveal(args_erase_same_oval);
    }
    let p0 = pos + 2;
    Ok((Opcode::EraseSameOval, p0))
}

/// Reads the operands of `InvertSameOval`.
fn read_invert_same_oval(data: &[u8], pos: usize, code: u16) -> (r: Result<(Opcode, usize), DecodeError>)
    requires
        pos + 2 <= data.len(),
        code == (be_u16(data@, pos as int) as u16),
        code == 0x005B,
    ensures
        match outcome(data@, pos as int) {
            OpOutcome::Eof => r matches Err(e) && e == DecodeError::Malformed,
            OpOutcome::Parsed(q) => r matches Ok((op, p)) && p == q && op_at(data@, pos as int, op, q),
            OpOutcome::Unknown => r matches Ok((op, p)) && p == pos + 2 && op == Opcode::Unknown((be_u16(data@, pos as int) as u16)),
            OpOutcome::Fatal => r matches Err(e) && e == DecodeError::Fatal,
        },
{
    proof {
        reveal(end_invert_same_oval);
        reveal(args_invert_same_oval);
    }
    let p0 = pos + 2;
    Ok((Opcode::InvertSameOval, p0))
}

/// Reads the operands of `FillSameOval`.
fn read_fill_same_oval(data: &[u8], pos: usize, code: u16) -> (r: Result<(Opcode, usize), DecodeError>)
    requires
        pos + 2 <= data.len(),
        code == (be_u16(data@, pos as int) as u16),
        code == 0x005C,
    ensures
        match outcome(data@, pos as int) {
            OpOutcome::Eof => r matches Err(e) && e == DecodeError::Malformed,
            OpOutcome::Parsed(q) => r matches Ok((op, p)) && p == q && op_at(data@, pos as int, op, q),
            OpOutcome::Unknown => r matches Ok((op, p)) && p == pos + 2 && op == Opcode::Unknown((be_u16(data@, pos as int) as u16)),
            OpOutcome::Fatal => r matches Err(e) && e == DecodeError::Fatal,
        },
{
    proof {
        reveal(end_fill_same_oval);
        reveal(args_fill_same_oval);
    }
    let p0 = pos + 2;
    Ok((Opcode::FillSameOval, p0))
}

/// Reads the operands of `ReservedForAppleUse23`.
fn read_reserved_for_apple_use23(data: &[u8], pos: usize, code: u16) -> (r: Result<(Opcode, usize), DecodeError>)
    requires
        pos + 2 <= data.len(),
        code == (be_u16(data@, pos as int) as u16),
        code == 0x005D,
    ensures
        match outcome(data@, pos as int) {
            OpOutcome::Eof => r matches Err(e) && e == DecodeError::Malformed,
            OpOutcome::Parsed(q) => r matches Ok((op, p)) && p == q && op_at(data@, pos as int, op, q),
            OpOutcome::Unknown => r matches Ok((op, p)) && p == pos + 2 && op == Opcode::Unknown((be_u16(data@, pos as int) as u16)),
            OpOutcome::Fatal => r matches Err(e) && e == DecodeError::Fatal,
        },
{
    proof {
        reveal(end_reserved_for_apple_use23);
        reveal(args_reserved_for_apple_use23);
    }
    let p0 = pos + 2;
    Ok((Opcode::ReservedForAppleUse23, p0))
}

/// Reads the operands of `ReservedForAppleUse24`.
fn read_reserved_for_apple_use24(data: &[u8], pos: usize, code: u16) -> (r: Result<(Opcode, usize), DecodeError>)
    requires
        pos + 2 <= data.len(),
        code == (be_u16(data@, pos as int) as u16),
        code == 0x005E,
    ensures
        match outcome(data@, pos as int) {
            OpOutcome::Eof => r matches Err(e) && e == DecodeError::Malformed,
            OpOutcome::Parsed(q) => r matches Ok((op, p)) && p == q && op_at(data@, pos as int, op, q),
            OpOutcome::Unknown => r matches Ok((op, p)) && p == pos + 2 && op == Opcode::Unknown((be_u16(data@, pos as int) as u16)),
            OpOutcome::Fatal => r matches Err(e) && e == DecodeError::Fatal,
        },
{
    proof {
        reveal(end_reserved_for_apple_use24);
        reveal(args_reserved_for_apple_use24);
    }
    let p0 = pos + 2;
    Ok((Opcode::ReservedForAppleUse24, p0))
}

/// Reads the operands of `ReservedForAppleUse25`.
fn read_reserved_for_apple_use25(data: &[u8], pos: usize, code: u16) -> (r: Result<(Opcode, usize), DecodeError>)
    requires
        pos + 2 <= data.len(),
        code == (be_u16(data@, pos as int) as u16),
        code == 0x005F,
    ensures
        match outcome(data@, pos as int) {
            OpOutcome::Eof => r matches Err(e) && e == DecodeError::Malformed,
            OpOutcome::Parsed(q) => r matches Ok((op, p)) && p == q && op_at(data@, pos as int, op, q),
            OpOutcome::Unknown => r matches Ok((op, p)) && p == pos + 2 && op == Opcode::Unknown((be_u16(data@, pos as int) as u16)),
            OpOutcome::Fatal => r matches Err(e) && e == DecodeError::Fatal,
        },
{
    proof {
        reveal(end_reserved_for_apple_use25);
        reveal(args_reserved_for_apple_use25);
    }
    let p0 = pos + 2;
    Ok((Opcode::ReservedForAppleUse25, p0))
}

/// Reads the operands of `FrameArc`.
fn read_frame_arc(data: &[u8], pos: usize, code: u16) -> (r: Result<(Opcode, usize), DecodeError>)
    requires
        pos + 2 <= data.len(),
        code == (be_u16(data@, pos as int) as u16),
        code == 0x0060,
    ensures
        match outcome(data@, pos as int) {
            OpOutcome::Eof => r matches Err(e) && e == DecodeError::Malformed,
            OpOutcome::Parsed(q) => r matches Ok((op, p)) && p == q && op_at(data@, pos as int, op, q),
            OpOutcome::Unknown => r matches Ok((op, p)) && p == pos + 2 && op == Opcode::Unknown((be_u16(data@, pos as int) as u16)),
            OpOutcome::Fatal => r matches Err(e) && e == DecodeError::Fatal,
        },
{
    proof {
        reveal(end_frame_arc);
        reveal(args_frame_arc);
    }
    let p0 = pos + 2;
    let (f0, p1) = match field_rect(data, p0) {
        Some(x) => x,
        None => return Ok((Opcode::Unknown(code), p0)),
    };
    let (f1, p2) = match field_u16(data, p1) {
        Some(x) => x,
        None => return Ok((Opcode::Unknown(code), p0)),
    };
    let (f2, p3) = match field_u16(data, p2) {
        Some(x) => x,
        None => return Ok((Opcode::Unknown(code), p0)),
    };
    Ok((Opcode::FrameArc(f0, f1, f2), p3))
}

/// Reads the operands of `PaintArc`.
fn read_paint_arc(data: &[u8], pos: usize, code: u16) -> (r: Result<(Opcode, usize), DecodeError>)
    requires
        pos + 2 <= data.len(),
        code == (be_u16(data@, pos as int) as u16),
        code == 0x0061,
    ensures
        match outcome(data@, pos as int) {
            OpOutcome::Eof => r matches Err(e) && e == DecodeError::Malformed,
            OpOutcome::Parsed(q) => r matches Ok((op, p)) && p == q && op_at(data@, pos as int, op, q),
            OpOutcome::Unknown => r matches Ok((op, p)) && p == pos + 2 && op == Opcode::Unknown((be_u16(data@, pos as int) as u16)),
            OpOutcome::Fatal => r matches Err(e) && e == DecodeError::Fatal,
        },
{
    proof {
        reveal(end_paint_arc);
        reveal(args_paint_arc);
    }
    let p0 = pos + 2;
    let (f0, p1) = match field_rect(data, p0) {
        Some(x) => x,
        None => return Ok((Opcode::Unknown(code), p0)),
    };
    let (f1, p2) = match field_u16(data, p1) {
        Some(x) => x,
        None => return Ok((Opcode::Unknown(code), p0)),
    };
    let (f2, p3) = match field_u16(data, p2) {
        Some(x) => x,
        None => return Ok((Opcode::Unknown(code), p0)),
    };
    Ok((Opcode::PaintArc(f0, f1, f2), p3))
}

/// Reads the operands of `EraseArc`.
fn read_erase_arc(data: &[u8], pos: usize, code: u16) -> (r: Result<(Opcode, usize), DecodeError>)
    requires
        pos + 2 <= data.len(),
        code == (be_u16(data@, pos as int) as u16),
        code == 0x0062,
    ensures
        match outcome(data@, pos as int) {
            OpOutcome::Eof => r matches Err(e) && e == DecodeError::Malformed,
            OpOutcome::Parsed(q) => r matches Ok((op, p)) && p == q && op_at(data@, pos as int, op, q),
            OpOutcome::Unknown => r matches Ok((op, p)) && p == pos + 2 && op == Opcode::Unknown((be_u16(data@, pos as int) as u16)),
            OpOutcome::Fatal => r matches Err(e) && e == DecodeError::Fatal,
        },
{
    proof {
        reveal(end_erase_arc);
        reveal(args_erase_arc);
    }
    let p0 = pos + 2;
    let (f0, p1) = match field_rect(data, p0) {
        Some(x) => x,
        None => return Ok((Opcode::Unknown(code), p0)),
    };
    let (f1, p2) = match field_u16(data, p1) {
        Some(x) => x,
        None => return Ok((Opcode::Unknown(code), p0)),
    };
    let (f2, p3) = match field_u16(data, p2) {
        Some(x) => x,
        None => return Ok((Opcode::Unknown(code), p0)),
    };
    Ok((Opcode::EraseArc(f0, f1, f2), p3))
}

/// Reads the operands of `InvertArc`.
fn read_invert_arc(data: &[u8], pos: usize, code: u16) -> (r: Result<(Opcode, usize), DecodeError>)
    requires
        pos + 2 <= data.len(),
        code == (be_u16(data@, pos as int) as u16),
        code == 0x0063,
    ensures
        match outcome(data@, pos as int) {
            OpOutcome::Eof => r matches Err(e) && e == DecodeError::Malformed,
            OpOutcome::Parsed(q) => r matches Ok((op, p)) && p == q && op_at(data@, pos as int, op, q),
            OpOutcome::Unknown => r matches Ok((op, p)) && p == pos + 2 && op == Opcode::Unknown((be_u16(data@, pos as int) as u16)),
            OpOutcome::Fatal => r matches Err(e) && e == DecodeError::Fatal,
        },
{
    proof {
        reveal(end_invert_arc);
        reveal(args_invert_arc);
    }
    let p0 = pos + 2;
    let (f0, p1) = match field_rect(data, p0) {
        Some(x) => x,
        None => return Ok((Opcode::Unknown(code), p0)),
    };
    let (f1, p2) = match field_u16(data, p1) {
        Some(x) => x,
        None => return Ok((Opcode::Unknown(code), p0)),
    };
    let (f2, p3) = match field_u16(data, p2) {
        Some(x) => x,
        None => return Ok((Opcode::Unknown(code), p0)),
    };
    Ok((Opcode::InvertArc(f0, f1, f2), p3))
}

/// Reads the operands of `FillArc`.
fn read_fill_arc(data: &[u8], pos: usize, code: u16) -> (r: Result<(Opcode, usize), DecodeError>)
    requires
        pos + 2 <= data.len(),
        code == (be_u16(data@, pos as int) as u16),
        code == 0x0064,
    ensures
        match outcome(data@, pos as int) {
            OpOutcome::Eof => r matches Err(e) && e == DecodeError::Malformed,
            OpOutcome::Parsed(q) => r matches Ok((op, p)) && p == q && op_at(data@, pos as int, op, q),
            OpOutcome::Unknown => r matches Ok((op, p)) && p == pos + 2 && op == Opcode::Unknown((be_u16(data@, pos as int) as u16)),
            OpOutcome::Fatal => r matches Err(e) && e == DecodeError::Fatal,
        },
{
    proof {
        reveal(end_fill_arc);
        reveal(args_fill_arc);
    }
    let p0 = pos + 2;
    let (f0, p1) = match field_rect(data, p0) {
        Some(x) => x,
        None => return Ok((Opcode::Unknown(code), p0)),
    };
    let (f1, p2) = match field_u16(data, p1) {
        Some(x) => x,
        None => return Ok((Opcode::Unknown(code), p0)),
    };
    let (f2, p3) = match field_u16(data, p2) {
        Some(x) => x,
        None => return Ok((Opcode::Unknown(code), p0)),
    };
    Ok((Opcode::FillArc(f0, f1, f2), p3))
}

/// Reads the operands of `ReservedForAppleUse26`.
fn read_reserved_for_apple_use26(data: &[u8], pos: usize, code: u16) -> (r: Result<(Opcode, usize), DecodeError>)
    requires
        pos + 2 <= data.len(),
        code == (be_u16(data@, pos as int) as u16),
        code == 0x0065,
    ensures
        match outcome(data@, pos as int) {
            OpOutcome::Eof => r matches Err(e) && e == DecodeError::Malformed,
            OpOutcome::Parsed(q) => r matches Ok((op, p)) && p == q && op_at(data@, pos as int, op, q),
            OpOutcome::Unknown => r matches Ok((op, p)) && p == pos + 2 && op == Opcode::Unknown((be_u16(data@, pos as int) as u16)),
            OpOutcome::Fatal => r matches Err(e) && e == DecodeError::Fatal,
        },
{
    proof {
        reveal(end_reserved_for_apple_use26);
        reveal(args_reserved_for_apple_use26);
    }
    let p0 = pos + 2;
    let (f0, p1) = match field_rect(data, p0) {
        Some(x) => x,
        None => return Ok((Opcode::Unknown(code), p0)),
    };
    let (f1, p2) = match field_u16(data, p1) {
        Some(x) => x,
        None => return Ok((Opcode::Unknown(code), p0)),
    };
    let (f2, p3) = match field_u16(data, p2) {
        Some(x) => x,
        None => return Ok((Opcode::Unknown(code), p0)),
    };
    Ok((Opcode::ReservedForAppleUse26(f0, f1, f2), p3))
}

/// Reads the operands of `ReservedForAppleUse27`.
fn read_reserved_for_apple_use27(data: &[u8], pos: usize, code: u16) -> (r: Result<(Opcode, usize), DecodeError>)
    requires
        pos + 2 <= data.len(),
        code == (be_u16(data@, pos as int) as u16),
        code == 0x0066,
    ensures
        match outcome(data@, pos as int) {
            OpOutcome::Eof => r matches Err(e) && e == DecodeError::Malformed,
            OpOutcome::Parsed(q) => r matches Ok((op, p)) && p == q && op_at(data@, pos as int, op, q),
            OpOutcome::Unknown => r matches Ok((op, p)) && p == pos + 2 && op == Opcode::Unknown((be_u16(data@, pos as int) as u16)),
            OpOutcome::Fatal => r matches Err(e) && e == DecodeError::Fatal,
        },
{
    proof {
        reveal(end_reserved_for_apple_use27);
        reveal(args_reserved_for_apple_use27);
    }
    let p0 = pos + 2;
    let (f0, p1) = match field_rect(data, p0) {
        Some(x) => x,
        None => return Ok((Opcode::Unknown(code), p0)),
    };
    let (f1, p2) = match field_u16(data, p1) {
        Some(x) => x,
        None => return Ok((Opcode::Unknown(code), p0)),
    };
    let (f2, p3) = match field_u16(data, p2) {
        Some(x) => x,
        None => return Ok((Opcode::Unknown(code), p0)),
    };
    Ok((Opcode::ReservedForAppleUse27(f0, f1, f2), p3))
}

/// Reads the operands of `ReservedForAppleUse28`.
fn read_reserved_for_apple_use28(data: &[u8], pos: usize, code: u16) -> (r: Result<(Opcode, usize), DecodeError>)
    requires
        pos + 2 <= data.len(),
        code == (be_u16(data@, pos as int) as u16),
        code == 0x0067,
    ensures
        match outcome(data@, pos as int) {
            OpOutcome::Eof => r matches Err(e) && e == DecodeError::Malformed,
            OpOutcome::Parsed(q) => r matches Ok((op, p)) && p == q && op_at(data@, pos as int, op, q),
            OpOutcome::Unknown => r matches Ok((op, p)) && p == pos + 2 && op == Opcode::Unknown((be_u16(data@, pos as int) as u16)),
            OpOutcome::Fatal => r matches Err(e) && e == DecodeError::Fatal,
        },
{
    proof {
        reveal(end_reserved_for_apple_use28);
        reveal(args_reserved_for_apple_use28);
    }
    let p0 = pos + 2;
    let (f0, p1) = match field_rect(data, p0) {
        Some(x) => x,
        None => return Ok((Opcode::Unknown(code), p0)),
    };
    let (f1, p2) = match field_u16(data, p1) {
        Some(x) => x,
        None => return Ok((Opcode::Unknown(code), p0)),
    };
    let (f2, p3) = match field_u16(data, p2) {
        Some(x) => x,
        None => return Ok((Opcode::Unknown(code), p0)),
    };
    Ok((Opcode::ReservedForAppleUse28(f0, f1, f2), p3))
}

/// Reads the operands of `FrameSameArc`.
fn read_frame_same_arc(data: &[u8], pos: usize, code: u16) -> (r: Result<(Opcode, usize), DecodeError>)
    requires
        pos + 2 <= data.len(),
        code == (be_u16(data@, pos as int) as u16),
        code == 0x0068,
    ensures
        match outcome(data@, pos as int) {
            OpOutcome::Eof => r matches Err(e) && e == DecodeError::Malformed,
            OpOutcome::Parsed(q) => r matches Ok((op, p)) && p == q && op_at(data@, pos as int, op, q),
            OpOutcome::Unknown => r matches Ok((op, p)) && p == pos + 2 && op == Opcode::Unknown((be_u16(data@, pos as int) as u16)),
            OpOutcome::Fatal => r matches Err(e) && e == DecodeError::Fatal,
        },
{
    proof {
        reveal(end_frame_same_arc);
        reveal(args_frame_same_arc);
    }
    let p0 = pos + 2;
    let (f0, p1) = match field_u16(data, p0) {
        Some(x) => x,
        None => return Ok((Opcode::Unknown(code), p0)),
    };
    let (f1, p2) = match field_u16(data, p1) {
        Some(x) => x,
        None => return Ok((Opcode::Unknown(code), p0)),
    };
    Ok((Opcode::FrameSameArc(f0, f1), p2))
}

/// Reads the operands of `PaintSameArc`.
fn read_paint_same_arc(data: &[u8], pos: usize, code: u16) -> (r: Result<(Opcode, usize), DecodeError>)
    requires
        pos + 2 <= data.len(),
        code == (be_u16(data@, pos as int) as u16),
        code == 0x0069,
    ensures
        match outcome(data@, pos as int) {
            OpOutcome::Eof => r matches Err(e) && e == DecodeError::Malformed,
            OpOutcome::Parsed(q) => r matches Ok((op, p)) && p == q && op_at(data@, pos as int, op, q),
            OpOutcome::Unknown => r matches Ok((op, p)) && p == pos + 2 && op == Opcode::Unknown((be_u16(data@, pos as int) as u16)),
            OpOutcome::Fatal => r matches Err(e) && e == DecodeError::Fatal,
        },
{
    proof {
        reveal(end_paint_same_arc);
        reveal(args_paint_same_arc);
    }
    let p0 = pos + 2;
    let (f0, p1) = match field_u16(data, p0) {
        Some(x) => x,
        None => return Ok((Opcode::Unknown(code), p0)),
    };
    let (f1, p2) = match field_u16(data, p1) {
        Some(x) => x,
        None => return Ok((Opcode::Unknown(code), p0)),
    };
    Ok((Opcode::PaintSameArc(f0, f1), p2))
}

/// Reads the operands of `EraseSameArc`.
fn read_erase_same_arc(data: &[u8], pos: usize, code: u16) -> (r: Result<(Opcode, usize), DecodeError>)
    requires
        pos + 2 <= data.len(),
        code == (be_u16(data@, pos as int) as u16),
        code == 0x006A,
    ensures
        match outcome(data@, pos as int) {
            OpOutcome::Eof => r matches Err(e) && e == DecodeError::Malformed,
            OpOutcome::Parsed(q) => r matches Ok((op, p)) && p == q && op_at(data@, pos as int, op, q),
            OpOutcome::Unknown => r matches Ok((op, p)) && p == pos + 2 && op == Opcode::Unknown((be_u16(data@, pos as int) as u16)),
            OpOutcome::Fatal => r matches Err(e) && e == DecodeError::Fatal,
        },
{
    proof {
        reveal(end_erase_same_arc);
        reveal(args_erase_same_arc);
    }
    let p0 = pos + 2;
    let (f0, p1) = match field_u16(data, p0) {
        Some(x) => x,
        None => return Ok((Opcode::Unknown(code), p0)),
    };
    let (f1, p2) = match field_u16(data, p1) {
        Some(x) => x,
        None => return Ok((Opcode::Unknown(code), p0)),
    };
    Ok((Opcode::EraseSameArc(f0, f1), p2))
}

/// Reads the operands of `InvertSameArc`.
fn read_invert_same_arc(data: &[u8], pos: usize, code: u16) -> (r: Result<(Opcode, usize), DecodeError>)
    requires
        pos + 2 <= data.len(),
        code == (be_u16(data@, pos as int) as u16),
        code == 0x006B,
    ensures
        match outcome(data@, pos as int) {
            OpOutcome::Eof => r matches Err(e) && e == DecodeError::Malformed,
            OpOutcome::Parsed(q) => r matches Ok((op, p)) && p == q && op_at(data@, pos as int, op, q),
            OpOutcome::Unknown => r matches Ok((op, p)) && p == pos + 2 && op == Opcode::Unknown((be_u16(data@, pos as int) as u16)),
            OpOutcome::Fatal => r matches Err(e) && e == DecodeError::Fatal,
        },
{
    proof {
        reveal(end_invert_same_arc);
        reveal(args_invert_same_arc);
    }
    let p0 = pos + 2;
    let (f0, p1) = match field_u16(data, p0) {
        Some(x) => x,
        None => return Ok((Opcode::Unknown(code), p0)),
    };
    let (f1, p2) = match field_u16(data, p1) {
        Some(x) => x,
        None => return Ok((Opcode::Unknown(code), p0)),
    };
    Ok((Opcode::InvertSameArc(f0, f1), p2))
}

/// Reads the operands of `FillSameArc`.
fn read_fill_same_arc(data: &[u8], pos: usize, code: u16) -> (r: Result<(Opcode, usize), DecodeError>)
    requires
        pos + 2 <= data.len(),
        code == (be_u16(data@, pos as int) as u16),
        code == 0x006C,
    ensures
        match outcome(data@, pos as int) {
            OpOutcome::Eof => r matches Err(e) && e == DecodeError::Malformed,
            OpOutcome::Parsed(q) => r matches Ok((op, p)) && p == q && op_at(data@, pos as int, op, q),
            OpOutcome::Unknown => r matches Ok((op, p)) && p == pos + 2 && op == Opcode::Unknown((be_u16(data@, pos as int) as u16)),
            OpOutcome::Fatal => r matches Err(e) && e == DecodeError::Fatal,
        },
{
    proof {
        reveal(end_fill_same_arc);
        reveal(args_fill_same_arc);
    }
    let p0 = pos + 2;
    let (f0, p1) = match field_u16(data, p0) {
        Some(x) => x,
        None => return Ok((Opcode::Unknown(code), p0)),
    };
    let (f1, p2) = match field_u16(data, p1) {
        Some(x) => x,
        None => return Ok((Opcode::Unknown(code), p0)),
    };
    Ok((Opcode::FillSameArc(f0, f1), p2))
}

/// Reads the operands of `ReservedForAppleUse29`.
fn read_reserved_for_apple_use29(data: &[u8], pos: usize, code: u16) -> (r: Result<(Opcode, usize), DecodeError>)
    requires
        pos + 2 <= data.len(),
        code == (be_u16(data@, pos as int) as u16),
        code == 0x006D,
    ensures
        match outcome(data@, pos as int) {
            OpOutcome::Eof => r matches Err(e) && e == DecodeError::Malformed,
            OpOutcome::Parsed(q) => r matches Ok((op, p)) && p == q && op_at(data@, pos as int, op, q),
            OpOutcome::Unknown => r matches Ok((op, p)) && p == pos + 2 && op == Opcode::Unknown((be_u16(data@, pos as int) as u16)),
            OpOutcome::Fatal => r matches Err(e) && e == DecodeError::Fatal,
        },
{
    proof {
        reveal(end_reserved_for_apple_use29);
        reveal(args_reserved_for_apple_use29);
    }
    let p0 = pos + 2;
    let (f0, p1) = match field_u16(data, p0) {
        Some(x) => x,
        None => return Ok((Opcode::Unknown(code), p0)),
    };
    let (f1, p2) = match field_u16(data, p1) {
        Some(x) => x,
        None => return Ok((Opcode::Unknown(code), p0)),
    };
    Ok((Opcode::ReservedForAppleUse29(f0, f1), p2))
}

/// Reads the operands of `ReservedForAppleUse30`.
fn read_reserved_for_apple_use30(data: &[u8], pos: usize, code: u16) -> (r: Result<(Opcode, usize), DecodeError>)
    requires
        pos + 2 <= data.len(),
        code == (be_u16(data@, pos as int) as u16),
        code == 0x006E,
    ensures
        match outcome(data@, pos as int) {
            OpOutcome::Eof => r matches Err(e) && e == DecodeError::Malformed,
            OpOutcome::Parsed(q) => r matches Ok((op, p)) && p == q && op_at(data@, pos as int, op, q),
            OpOutcome::Unknown => r matches Ok((op, p)) && p == pos + 2 && op == Opcode::Unknown((be_u16(data@, pos as int) as u16)),
            OpOutcome::Fatal => r matches Err(e) && e == DecodeError::Fatal,
        },
{
    proof {
        reveal(end_reserved_for_apple_use30);
        reveal(args_reserved_for_apple_use30);
    }
    let p0 = pos + 2;
    let (f0, p1) = match field_u16(data, p0) {
        Some(x) => x,
        None => return Ok((Opcode::Unknown(code), p0)),
    };
    let (f1, p2) = match field_u16(data, p1) {
        Some(x) => x,
        None => return Ok((Opcode::Unknown(code), p0)),
    };
    Ok((Opcode::ReservedForAppleUse30(f0, f1), p2))
}

/// Reads the operands of `ReservedForAppleUse31`.
fn read_reserved_for_apple_use31(data: &[u8], pos: usize, code: u16) -> (r: Result<(Opcode, usize), DecodeError>)
    requires
        pos + 2 <= data.len(),
        code == (be_u16(data@, pos as int) as u16),
        code == 0x006F,
    ensures
        match outcome(data@, pos as int) {
            OpOutcome::Eof => r matches Err(e) && e == DecodeError::Malformed,
            OpOutcome::Parsed(q) => r matches Ok((op, p)) && p == q && op_at(data@, pos as int, op, q),
            OpOutcome::Unknown => r matches Ok((op, p)) && p == pos + 2 && op == Opcode::Unknown((be_u16(data@, pos as int) as u16)),
            OpOutcome::Fatal => r matches Err(e) && e == DecodeError::Fatal,
        },
{
    proof {
        reveal(end_reserved_for_apple_use31);
        reveal(args_reserved_for_apple_use31);
    }
    let p0 = pos + 2;
    let (f0, p1) = match field_u16(data, p0) {
        Some(x) => x,
        None => return Ok((Opcode::Unknown(code), p0)),
    };
    let (f1, p2) = match field_u16(data, p1) {
        Some(x) => x,
        None => return Ok((Opcode::Unknown(code), p0)),
    };
    Ok((Opcode::ReservedForAppleUse31(f0, f1), p2))
}

/// Reads the operands of `FramePoly`.
fn read_frame_poly(data: &[u8], pos: usize, code: u16) -> (r: Result<(Opcode, usize), DecodeError>)
    requires
        pos + 2 <= data.len(),
        code == (be_u16(data@, pos as int) as u16),
        code == 0x0070,
    ensures
        match outcome(data@, pos as int) {
            OpOutcome::Eof => r matches Err(e) && e == DecodeError::Malformed,
            OpOutcome::Parsed(q) => r matches Ok((op, p)) && p == q && op_at(data@, pos as int, op, q),
            OpOutcome::Unknown => r matches Ok((op, p)) && p == pos + 2 && op == Opcode::Unknown((be_u16(data@, pos as int) as u16)),
            OpOutcome::Fatal => r matches Err(e) && e == DecodeError::Fatal,
        },
{
    proof {
        reveal(end_frame_poly);
        reveal(args_frame_poly);
    }
    let p0 = pos + 2;
    let (f0, p1) = match field_polygon(data, p0) {
        Ok(x) => x,
        Err(DecodeError::Fatal) => return Err(DecodeError::Fatal),
        Err(_) => return Ok((Opcode::Unknown(code), p0)),
    };
    Ok((Opcode::FramePoly(f0), p1))
}

/// Reads the operands of `PaintPoly`.
fn read_paint_poly(data: &[u8], pos: usize, code: u16) -> (r: Result<(Opcode, usize), DecodeError>)
    requires
        pos + 2 <= data.len(),
        code == (be_u16(data@, pos as int) as u16),
        code == 0x0071,
    ensures
        match outcome(data@, pos as int) {
            OpOutcome::Eof => r matches Err(e) && e == DecodeError::Malformed,
            OpOutcome::Parsed(q) => r matches Ok((op, p)) && p == q && op_at(data@, pos as int, op, q),
            OpOutcome::Unknown => r matches Ok((op, p)) && p == pos + 2 && op == Opcode::Unknown((be_u16(data@, pos as int) as u16)),
            OpOutcome::Fatal => r matches Err(e) && e == DecodeError::Fatal,
        },
{
    proof {
        reveal(end_paint_poly);
        reveal(args_paint_poly);
    }
    let p0 = pos + 2;
    let (f0, p1) = match field_polygon(data, p0) {
        Ok(x) => x,
        Err(DecodeError::Fatal) => return Err(DecodeError::Fatal),
        Err(_) => return Ok((Opcode::Unknown(code), p0)),
    };
    Ok((Opcode::PaintPoly(f0), p1))
}

/// Reads the operands of `ErasePoly`.
fn read_erase_poly(data: &[u8], pos: usize, code: u16) -> (r: Result<(Opcode, usize), DecodeError>)
    requires
        pos + 2 <= data.len(),
        code == (be_u16(data@, pos as int) as u16),
        code == 0x0072,
    ensures
        match outcome(data@, pos as int) {
            OpOutcome::Eof => r matches Err(e) && e == DecodeError::Malformed,
            OpOutcome::Parsed(q) => r matches Ok((op, p)) && p == q && op_at(data@, pos as int, op, q),
            OpOutcome::Unknown => r matches Ok((op, p)) && p == pos + 2 && op == Opcode::Unknown((be_u16(data@, pos as int) as u16)),
            OpOutcome::Fatal => r matches Err(e) && e == DecodeError::Fatal,
        },
{
    proof {
        reveal(end_erase_poly);
        reveal(args_erase_poly);
    }
    let p0 = pos + 2;
    let (f0, p1) = match field_polygon(data, p0) {
        Ok(x) => x,
        Err(DecodeError::Fatal) => return Err(DecodeError::Fatal),
        Err(_) => return Ok((Opcode::Unknown(code), p0)),
    };
    Ok((Opcode::ErasePoly(f0), p1))
}

/// Reads the operands of `InvertPoly`.
fn read_invert_poly(data: &[u8], pos: usize, code: u16) -> (r: Result<(Opcode, usize), DecodeError>)
    requires
        pos + 2 <= data.len(),
        code == (be_u16(data@, pos as int) as u16),
        code == 0x0073,
    ensures
        match outcome(data@, pos as int) {
            OpOutcome::Eof => r matches Err(e) && e == DecodeError::Malformed,
            OpOutcome::Parsed(q) => r matches Ok((op, p)) && p == q && op_at(data@, pos as int, op, q),
            OpOutcome::Unknown => r matches Ok((op, p)) && p == pos + 2 && op == Opcode::Unknown((be_u16(data@, pos as int) as u16)),
            OpOutcome::Fatal => r matches Err(e) && e == DecodeError::Fatal,
        },
{
    proof {
        reveal(end_invert_poly);
        reveal(args_invert_poly);
    }
    let p0 = pos + 2;
    let (f0, p1) = match field_polygon(data, p0) {
        Ok(x) => x,
        Err(DecodeError::Fatal) => return Err(DecodeError::Fatal),
        Err(_) => return Ok((Opcode::Unknown(code), p0)),
    };
    Ok((Opcode::InvertPoly(f0), p1))
}

/// Reads the operands of `FillPoly`.
fn read_fill_poly(data: &[u8], pos: usize, code: u16) -> (r: Result<(Opcode, usize), DecodeError>)
    requires
        pos + 2 <= data.len(),
        code == (be_u16(data@, pos as int) as u16),
        code == 0x0074,
    ensures
        match outcome(data@, pos as int) {
            OpOutcome::Eof => r matches Err(e) && e == DecodeError::Malformed,
            OpOutcome::Parsed(q) => r matches Ok((op, p)) && p == q && op_at(data@, pos as int, op, q),
            OpOutcome::Unknown => r matches Ok((op, p)) && p == pos + 2 && op == Opcode::Unknown((be_u16(data@, pos as int) as u16)),
            OpOutcome::Fatal => r matches Err(e) && e == DecodeError::Fatal,
        },
{
    proof {
        reveal(end_fill_poly);
        reveal(args_fill_poly);
    }
    let p0 = pos + 2;
    let (f0, p1) = match field_polygon(data, p0) {
        Ok(x) => x,
        Err(DecodeError::Fatal) => return Err(DecodeError::Fatal),
        Err(_) => return Ok((Opcode::Unknown(code), p0)),
    };
    Ok((Opcode::FillPoly(f0), p1))
}

/// Reads the operands of `ReservedForAppleUse32`.
fn read_reserved_for_apple_use32(data: &[u8], pos: usize, code: u16) -> (r: Result<(Opcode, usize), DecodeError>)
    requires
        pos + 2 <= data.len(),
        code == (be_u16(data@, pos as int) as u16),
        code == 0x0075,
    ensures
        match outcome(data@, pos as int) {
            OpOutcome::Eof => r matches Err(e) && e == DecodeError::Malformed,
            OpOutcome::Parsed(q) => r matches Ok((op, p)) && p == q && op_at(data@, pos as int, op, q),
            OpOutcome::Unknown => r matches Ok((op, p)) && p == pos + 2 && op == Opcode::Unknown((be_u16(data@, pos as int) as u16)),
            OpOutcome::Fatal => r matches Err(e) && e == DecodeError::Fatal,
        },
{
    proof {
        reveal(end_reserved_for_apple_use32);
        reveal(args_reserved_for_apple_use32);
    }
    let p0 = pos + 2;
    let (f0, p1) = match field_polygon(data, p0) {
        Ok(x) => x,
        Err(DecodeError::Fatal) => return Err(DecodeError::Fatal),
        Err(_) => return Ok((Opcode::Unknown(code), p0)),
    };
    Ok((Opcode::ReservedForAppleUse32(f0), p1))
}

/// Reads the operands of `ReservedForAppleUse33`.
fn read_reserved_for_apple_use33(data: &[u8], pos: usize, code: u16) -> (r: Result<(Opcode, usize), DecodeError>)
    requires
        pos + 2 <= data.len(),
        code == (be_u16(data@, pos as int) as u16),
        code == 0x0076,
    ensures
        match outcome(data@, pos as int) {
            OpOutcome::Eof => r matches Err(e) && e == DecodeError::Malformed,
            OpOutcome::Parsed(q) => r matches Ok((op, p)) && p == q && op_at(data@, pos as int, op, q),
            OpOutcome::Unknown => r matches Ok((op, p)) && p == pos + 2 && op == Opcode::Unknown((be_u16(data@, pos as int) as u16)),
            OpOutcome::Fatal => r matches Err(e) && e == DecodeError::Fatal,
        },
{
    proof {
        reveal(end_reserved_for_apple_use33);
        reveal(args_reserved_for_apple_use33);
    }
    let p0 = pos + 2;
    let (f0, p1) = match field_polygon(data, p0) {
        Ok(x) => x,
        Err(DecodeError::Fatal) => return Err(DecodeError::Fatal),
        Err(_) => return Ok((Opcode::Unknown(code), p0)),
    };
    Ok((Opcode::ReservedForAppleUse33(f0), p1))
}

/// Reads the operands of `ReservedForAppleUse34`.
fn read_reserved_for_apple_use34(data: &[u8], pos: usize, code: u16) -> (r: Result<(Opcode, usize), DecodeError>)
    requires
        pos + 2 <= data.len(),
        code == (be_u16(data@, pos as int) as u16),
        code == 0x0077,
    ensures
        match outcome(data@, pos as int) {
            OpOutcome::Eof => r matches Err(e) && e == DecodeError::Malformed,
            OpOutcome::Parsed(q) => r matches Ok((op, p)) && p == q && op_at(data@, pos as int, op, q),
            OpOutcome::Unknown => r matches Ok((op, p)) && p == pos + 2 && op == Opcode::Unknown((be_u16(data@, pos as int) as u16)),
            OpOutcome::Fatal => r matches Err(e) && e == DecodeError::Fatal,
        },
{
    proof {
        reveal(end_reserved_for_apple_use34);
        reveal(args_reserved_for_apple_use34);
    }
    let p0 = pos + 2;
    let (f0, p1) = match field_polygon(data, p0) {
        Ok(x) => x,
        Err(DecodeError::Fatal) => return Err(DecodeError::Fatal),
        Err(_) => return Ok((Opcode::Unknown(code), p0)),
    };
    Ok((Opcode::ReservedForAppleUse34(f0), p1))
}

/// Reads the operands of `FrameSamePoly`.
fn read_frame_same_poly(data: &[u8], pos: usize, code: u16) -> (r: Result<(Opcode, usize), DecodeError>)
    requires
        pos + 2 <= data.len(),
        code == (be_u16(data@, pos as int) as u16),
        code == 0x0078,
    ensures
        match outcome(data@, pos as int) {
            OpOutcome::Eof => r matches Err(e) && e == DecodeError::Malformed,
            OpOutcome::Parsed(q) => r matches Ok((op, p)) && p == q && op_at(data@, pos as int, op, q),
            OpOutcome::Unknown => r matches Ok((op, p)) && p == pos + 2 && op == Opcode::Unknown((be_u16(data@, pos as int) as u16)),
            OpOutcome::Fatal => r matches Err(e) && e == DecodeError::Fatal,
        },
{
    proof {
        reveal(end_frame_same_poly);
        reveal(args_frame_same_poly);
    }
    let p0 = pos + 2;
    Ok((Opcode::FrameSamePoly, p0))
}

/// Reads the operands of `PaintSamePoly`.
fn read_paint_same_poly(data: &[u8], pos: usize, code: u16) -> (r: Result<(Opcode, usize), DecodeError>)
    requires
        pos + 2 <= data.len(),
        code == (be_u16(data@, pos as int) as u16),
        code == 0x0079,
    ensures
        match outcome(data@, pos as int) {
            OpOutcome::Eof => r matches Err(e) && e == DecodeError::Malformed,
            OpOutcome::Parsed(q) => r matches Ok((op, p)) && p == q && op_at(data@, pos as int, op, q),
            OpOutcome::Unknown => r matches Ok((op, p)) && p == pos + 2 && op == Opcode::Unknown((be_u16(data@, pos as int) as u16)),
            OpOutcome::Fatal => r matches Err(e) && e == DecodeError::Fatal,
        },
{
    proof {
        reveal(end_paint_same_poly);
        reveal(args_paint_same_poly);
    }
    let p0 = pos + 2;
    Ok((Opcode::PaintSamePoly, p0))
}

/// Reads the operands of `EraseSamePoly`.
fn read_erase_same_poly(data: &[u8], pos: usize, code: u16) -> (r: Result<(Opcode, usize), DecodeError>)
    requires
        pos + 2 <= data.len(),
        code == (be_u16(data@, pos as int) as u16),
        code == 0x007A,
    ensures
        match outcome(data@, pos as int) {
            OpOutcome::Eof => r matches Err(e) && e == DecodeError::Malformed,
            OpOutcome::Parsed(q) => r matches Ok((op, p)) && p == q && op_at(data@, pos as int, op, q),
            OpOutcome::Unknown => r matches Ok((op, p)) && p == pos + 2 && op == Opcode::Unknown((be_u16(data@, pos as int) as u16)),
            OpOutcome::Fatal => r matches Err(e) && e == DecodeError::Fatal,
        },
{
    proof {
        reveal(end_erase_same_poly);
        reveal(args_erase_same_poly);
    }
    let p0 = pos + 2;
    Ok((Opcode::EraseSamePoly, p0))
}

/// Reads the operands of `InvertSamePoly`.
fn read_invert_same_poly(data: &[u8], pos: usize, code: u16) -> (r: Result<(Opcode, usize), DecodeError>)
    requires
        pos + 2 <= data.len(),
        code == (be_u16(data@, pos as int) as u16),
        code == 0x007B,
    ensures
        match outcome(data@, pos as int) {
            OpOutcome::Eof => r matches Err(e) && e == DecodeError::Malformed,
            OpOutcome::Parsed(q) => r matches Ok((op, p)) && p == q && op_at(data@, pos as int, op, q),
            OpOutcome::Unknown => r matches Ok((op, p)) && p == pos + 2 && op == Opcode::Unknown((be_u16(data@, pos as int) as u16)),
            OpOutcome::Fatal => r matches Err(e) && e == DecodeError::Fatal,
        },
{
    proof {
        reveal(end_invert_same_poly);
        reveal(args_invert_same_poly);
    }
    let p0 = pos + 2;
    Ok((Opcode::InvertSamePoly, p0))
}

/// Reads the operands of `FillSamePoly`.
fn read_fill_same_poly(data: &[u8], pos: usize, code: u16) -> (r: Result<(Opcode, usize), DecodeError>)
    requires
        pos + 2 <= data.len(),
        code == (be_u16(data@, pos as int) as u16),
        code == 0x007C,
    ensures
        match outcome(data@, pos as int) {
            OpOutcome::Eof => r matches Err(e) && e == DecodeError::Malformed,
            OpOutcome::Parsed(q) => r matches Ok((op, p)) && p == q && op_at(data@, pos as int, op, q),
            OpOutcome::Unknown => r matches Ok((op, p)) && p == pos + 2 && op == Opcode::Unknown((be_u16(data@, pos as int) as u16)),
            OpOutcome::Fatal => r matches Err(e) && e == DecodeError::Fatal,
        },
{
    proof {
        reveal(end_fill_same_poly);
        reveal(args_fill_same_poly);
    }
    let p0 = pos + 2;
    Ok((Opcode::FillSamePoly, p0))
}

/// Reads the operands of `ReservedForAppleUse35`.
fn read_reserved_for_apple_use35(data: &[u8], pos: usize, code: u16) -> (r: Result<(Opcode, usize), DecodeError>)
    requires
        pos + 2 <= data.len(),
        code == (be_u16(data@, pos as int) as u16),
        code == 0x007D,
    ensures
        match outcome(data@, pos as int) {
            OpOutcome::Eof => r matches Err(e) && e == DecodeError::Malformed,
            OpOutcome::Parsed(q) => r matches Ok((op, p)) && p == q && op_at(data@, pos as int, op, q),
            OpOutcome::Unknown => r matches Ok((op, p)) && p == pos + 2 && op == Opcode::Unknown((be_u16(data@, pos as int) as u16)),
            OpOutcome::Fatal => r matches Err(e) && e == DecodeError::Fatal,
        },
{
    proof {
        reveal(end_reserved_for_apple_use35);
        reveal(args_reserved_for_apple_use35);
    }
    let p0 = pos + 2;
    Ok((Opcode::ReservedForAppleUse35, p0))
}

/// Reads the operands of `ReservedForAppleUse36`.
fn read_reserved_for_apple_use36(data: &[u8], pos: usize, code: u16) -> (r: Result<(Opcode, usize), DecodeError>)
    requires
        pos + 2 <= data.len(),
        code == (be_u16(data@, pos as int) as u16),
        code == 0x007E,
    ensures
        match outcome(data@, pos as int) {
            OpOutcome::Eof => r matches Err(e) && e == DecodeError::Malformed,
            OpOutcome::Parsed(q) => r matches Ok((op, p)) && p == q && op_at(data@, pos as int, op, q),
            OpOutcome::Unknown => r matches Ok((op, p)) && p == pos + 2 && op == Opcode::Unknown((be_u16(data@, pos as int) as u16)),
            OpOutcome::Fatal => r matches Err(e) && e == DecodeError::Fatal,
        },
{
    proof {
        reveal(end_reserved_for_apple_use36);
        reveal(args_reserved_for_apple_use36);
    }
    let p0 = pos + 2;
    Ok((Opcode::ReservedForAppleUse36, p0))
}

/// Reads the operands of `ReservedForAppleUse37`.
fn read_reserved_for_apple_use37(data: &[u8], pos: usize, code: u16) -> (r: Result<(Opcode, usize), DecodeError>)
    requires
        pos + 2 <= data.len(),
        code == (be_u16(data@, pos as int) as u16),
        code == 0x007F,
    ensures
        match outcome(data@, pos as int) {
            OpOutcome::Eof => r matches Err(e) && e == DecodeError::Malformed,
            OpOutcome::Parsed(q) => r matches Ok((op, p)) && p == q && op_at(data@, pos as int, op, q),
            OpOutcome::Unknown => r matches Ok((op, p)) && p == pos + 2 && op == Opcode::Unknown((be_u16(data@, pos as int) as u16)),
            OpOutcome::Fatal => r matches Err(e) && e == DecodeError::Fatal,
        },
{
    proof {
        reveal(end_reserved_for_apple_use37);
        reveal(args_reserved_for_apple_use37);
    }
    let p0 = pos + 2;
    Ok((Opcode::ReservedForAppleUse37, p0))
}

/// Reads the operands of `FrameRgn`.
fn read_frame_rgn(data: &[u8], pos: usize, code: u16) -> (r: Result<(Opcode, usize), DecodeError>)
    requires
        pos + 2 <= data.len(),
        code == (be_u16(data@, pos as int) as u16),
        code == 0x0080,
    ensures
        match outcome(data@, pos as int) {
            OpOutcome::Eof => r matches Err(e) && e == DecodeError::Malformed,
            OpOutcome::Parsed(q) => r matches Ok((op, p)) && p == q && op_at(data@, pos as int, op, q),
            OpOutcome::Unknown => r matches Ok((op, p)) && p == pos + 2 && op == Opcode::Unknown((be_u16(data@, pos as int) as u16)),
            OpOutcome::Fatal => r matches Err(e) && e == DecodeError::Fatal,
        },
{
    proof {
        reveal(end_frame_rgn);
        reveal(args_frame_rgn);
    }
    let p0 = pos + 2;
    let (f0, p1) = match field_region(data, p0) {
        Some(x) => x,
        None => return Ok((Opcode::Unknown(code), p0)),
    };
    Ok((Opcode::FrameRgn(f0), p1))
}

/// Reads the operands of `PaintRgn`.
fn read_paint_rgn(data: &[u8], pos: usize, code: u16) -> (r: Result<(Opcode, usize), DecodeError>)
    requires
        pos + 2 <= data.len(),
        code == (be_u16(data@, pos as int) as u16),
        code == 0x0081,
    ensures
        match outcome(data@, pos as int) {
            OpOutcome::Eof => r matches Err(e) && e == DecodeError::Malformed,
            OpOutcome::Parsed(q) => r matches Ok((op, p)) && p == q && op_at(data@, pos as int, op, q),
            OpOutcome::Unknown => r matches Ok((op, p)) && p == pos + 2 && op == Opcode::Unknown((be_u16(data@, pos as int) as u16)),
            OpOutcome::Fatal => r matches Err(e) && e == DecodeError::Fatal,
        },
{
    proof {
        reveal(end_paint_rgn);
        reveal(args_paint_rgn);
    }
    let p0 = pos + 2;
    let (f0, p1) = match field_region(data, p0) {
        Some(x) => x,
        None => return Ok((Opcode::Unknown(code), p0)),
    };
    Ok((Opcode::PaintRgn(f0), p1))
}

/// Reads the operands of `EraseRgn`.
fn read_erase_rgn(data: &[u8], pos: usize, code: u16) -> (r: Result<(Opcode, usize), DecodeError>)
    requires
        pos + 2 <= data.len(),
        code == (be_u16(data@, pos as int) as u16),
        code == 0x0082,
    ensures
        match outcome(data@, pos as int) {
            OpOutcome::Eof => r matches Err(e) && e == DecodeError::Malformed,
            OpOutcome::Parsed(q) => r matches Ok((op, p)) && p == q && op_at(data@, pos as int, op, q),
            OpOutcome::Unknown => r matches Ok((op, p)) && p == pos + 2 && op == Opcode::Unknown((be_u16(data@, pos as int) as u16)),
            OpOutcome::Fatal => r matches Err(e) && e == DecodeError::Fatal,
        },
{
    proof {
        reveal(end_erase_rgn);
        reveal(args_erase_rgn);
    }
    let p0 = pos + 2;
    let (f0, p1) = match field_region(data, p0) {
        Some(x) => x,
        None => return Ok((Opcode::Unknown(code), p0)),
    };
    Ok((Opcode::EraseRgn(f0), p1))
}

/// Reads the operands of `InvertRgn`.
fn read_invert_rgn(data: &[u8], pos: usize, code: u16) -> (r: Result<(Opcode, usize), DecodeError>)
    requires
        pos + 2 <= data.len(),
        code == (be_u16(data@, pos as int) as u16),
        code == 0x0083,
    ensures
        match outcome(data@, pos as int) {
            OpOutcome::Eof => r matches Err(e) && e == DecodeError::Malformed,
            OpOutcome::Parsed(q) => r matches Ok((op, p)) && p == q && op_at(data@, pos as int, op, q),
            OpOutcome::Unknown => r matches Ok((op, p)) && p == pos + 2 && op == Opcode::Unknown((be_u16(data@, pos as int) as u16)),
            OpOutcome::Fatal => r matches Err(e) && e == DecodeError::Fatal,
        },
{
    proof {
        reveal(end_invert_rgn);
        reveal(args_invert_rgn);
    }
    let p0 = pos + 2;
    let (f0, p1) = match field_region(data, p0) {
        Some(x) => x,
        None => return Ok((Opcode::Unknown(code), p0)),
    };
    Ok((Opcode::InvertRgn(f0), p1))
}

/// Reads the operands of `FillRgn`.
fn read_fill_rgn(data: &[u8], pos: usize, code: u16) -> (r: Result<(Opcode, usize), DecodeError>)
    requires
        pos + 2 <= data.len(),
        code == (be_u16(data@, pos as int) as u16),
        code == 0x0084,
    ensures
        match outcome(data@, pos as int) {
            OpOutcome::Eof => r matches Err(e) && e == DecodeError::Malformed,
            OpOutcome::Parsed(q) => r matches Ok((op, p)) && p == q && op_at(data@, pos as int, op, q),
            OpOutcome::Unknown => r matches Ok((op, p)) && p == pos + 2 && op == Opcode::Unknown((be_u16(data@, pos as int) as u16)),
            OpOutcome::Fatal => r matches Err(e) && e == DecodeError::Fatal,
        },
{
    proof {
        reveal(end_fill_rgn);
        reveal(args_fill_rgn);
    }
    let p0 = pos + 2;
    let (f0, p1) = match field_region(data, p0) {
        Some(x) => x,
        None => return Ok((Opcode::Unknown(code), p0)),
    };
    Ok((Opcode::FillRgn(f0), p1))
}

/// Reads the operands of `ReservedForAppleUse38`.
fn read_reserved_for_apple_use38(data: &[u8], pos: usize, code: u16) -> (r: Result<(Opcode, usize), DecodeError>)
    requires
        pos + 2 <= data.len(),
        code == (be_u16(data@, pos as int) as u16),
        code == 0x0085,
    ensures
        match outcome(data@, pos as int) {
            OpOutcome::Eof => r matches Err(e) && e == DecodeError::Malformed,
            OpOutcome::Parsed(q) => r matches Ok((op, p)) && p == q && op_at(data@, pos as int, op, q),
            OpOutcome::Unknown => r matches Ok((op, p)) && p == pos + 2 && op == Opcode::Unknown((be_u16(data@, pos as int) as u16)),
            OpOutcome::Fatal => r matches Err(e) && e == DecodeError::Fatal,
        },
{
    proof {
        reveal(end_reserved_for_apple_use38);
        reveal(args_reserved_for_apple_use38);
    }
    let p0 = pos + 2;
    let (f0, p1) = match field_region(data, p0) {
        Some(x) => x,
        None => return Ok((Opcode::Unknown(code), p0)),
    };
    Ok((Opcode::ReservedForAppleUse38(f0), p1))
}

/// Reads the operands of `ReservedForAppleUse39`.
fn read_reserved_for_apple_use39(data: &[u8], pos: usize, code: u16) -> (r: Result<(Opcode, usize), DecodeError>)
    requires
        pos + 2 <= data.len(),
        code == (be_u16(data@, pos as int) as u16),
        code == 0x0086,
    ensures
        match outcome(data@, pos as int) {
            OpOutcome::Eof => r matches Err(e) && e == DecodeError::Malformed,
            OpOutcome::Parsed(q) => r matches Ok((op, p)) && p == q && op_at(data@, pos as int, op, q),
            OpOutcome::Unknown => r matches Ok((op, p)) && p == pos + 2 && op == Opcode::Unknown((be_u16(data@, pos as int) as u16)),
            OpOutcome::Fatal => r matches Err(e) && e == DecodeError::Fatal,
        },
{
    proof {
        reveal(end_reserved_for_apple_use39);
        reveal(args_reserved_for_apple_use39);
    }
    let p0 = pos + 2;
    let (f0, p1) = match field_region(data, p0) {
        Some(x) => x,
        None => return Ok((Opcode::Unknown(code), p0)),
    };
    Ok((Opcode::ReservedForAppleUse39(f0), p1))
}

/// Reads the operands of `ReservedForAppleUse40`.
fn read_reserved_for_apple_use40(data: &[u8], pos: usize, code: u16) -> (r: Result<(Opcode, usize), DecodeError>)
    requires
        pos + 2 <= data.len(),
        code == (be_u16(data@, pos as int) as u16),
        code == 0x0087,
    ensures
        match outcome(data@, pos as int) {
            OpOutcome::Eof => r matches Err(e) && e == DecodeError::Malformed,
            OpOutcome::Parsed(q) => r matches Ok((op, p)) && p == q && op_at(data@, pos as int, op, q),
            OpOutcome::Unknown => r matches Ok((op, p)) && p == pos + 2 && op == Opcode::Unknown((be_u16(data@, pos as int) as u16)),
            OpOutcome::Fatal => r matches Err(e) && e == DecodeError::Fatal,
        },
{
    proof {
        reveal(end_reserved_for_apple_use40);
        reveal(args_reserved_for_apple_use40);
    }
    let p0 = pos + 2;
    let (f0, p1) = match field_region(data, p0) {
        Some(x) => x,
        None => return Ok((Opcode::Unknown(code), p0)),
    };
    Ok((Opcode::ReservedForAppleUse40(f0), p1))
}

/// Reads the operands of `FrameSameRgn`.
fn read_frame_same_rgn(data: &[u8], pos: usize, code: u16) -> (r: Result<(Opcode, usize), DecodeError>)
    requires
        pos + 2 <= data.len(),
        code == (be_u16(data@, pos as int) as u16),
        code == 0x0088,
    ensures
        match outcome(data@, pos as int) {
            OpOutcome::Eof => r matches Err(e) && e == DecodeError::Malformed,
            OpOutcome::Parsed(q) => r matches Ok((op, p)) && p == q && op_at(data@, pos as int, op, q),
            OpOutcome::Unknown => r matches Ok((op, p)) && p == pos + 2 && op == Opcode::Unknown((be_u16(data@, pos as int) as u16)),
            OpOutcome::Fatal => r matches Err(e) && e == DecodeError::Fatal,
        },
{
    proof {
        reveal(end_frame_same_rgn);
        reveal(args_frame_same_rgn);
    }
    let p0 = pos + 2;
    Ok((Opcode::FrameSameRgn, p0))
}

/// Reads the operands of `PaintSameRgn`.
fn read_paint_same_rgn(data: &[u8], pos: usize, code: u16) -> (r: Result<(Opcode, usize), DecodeError>)
    requires
        pos + 2 <= data.len(),
        code == (be_u16(data@, pos as int) as u16),
        code == 0x0089,
    ensures
        match outcome(data@, pos as int) {
            OpOutcome::Eof => r matches Err(e) && e == DecodeError::Malformed,
            OpOutcome::Parsed(q) => r matches Ok((op, p)) && p == q && op_at(data@, pos as int, op, q),
            OpOutcome::Unknown => r matches Ok((op, p)) && p == pos + 2 && op == Opcode::Unknown((be_u16(data@, pos as int) as u16)),
            OpOutcome::Fatal => r matches Err(e) && e == DecodeError::Fatal,
        },
{
    proof {
        reveal(end_paint_same_rgn);
        reveal(args_paint_same_rgn);
    }
    let p0 = pos + 2;
    Ok((Opcode::PaintSameRgn, p0))
}

/// Reads the operands of `EraseSameRgn`.
fn read_erase_same_rgn(data: &[u8], pos: usize, code: u16) -> (r: Result<(Opcode, usize), DecodeError>)
    requires
        pos + 2 <= data.len(),
        code == (be_u16(data@, pos as int) as u16),
        code == 0x008A,
    ensures
        match outcome(data@, pos as int) {
            OpOutcome::Eof => r matches Err(e) && e == DecodeError::Malformed,
            OpOutcome::Parsed(q) => r matches Ok((op, p)) && p == q && op_at(data@, pos as int, op, q),
            OpOutcome::Unknown => r matches Ok((op, p)) && p == pos + 2 && op == Opcode::Unknown((be_u16(data@, pos as int) as u16)),
            OpOutcome::Fatal => r matches Err(e) && e == DecodeError::Fatal,
        },
{
    proof {
        reveal(end_erase_same_rgn);
        reveal(args_erase_same_rgn);
    }
    let p0 = pos + 2;
    Ok((Opcode::EraseSameRgn, p0))
}

/// Reads the operands of `InvertSameRgn`.
fn read_invert_same_rgn(data: &[u8], pos: usize, code: u16) -> (r: Result<(Opcode, usize), DecodeError>)
    requires
        pos + 2 <= data.len(),
        code == (be_u16(data@, pos as int) as u16),
        code == 0x008B,
    ensures
        match outcome(data@, pos as int) {
            OpOutcome::Eof => r matches Err(e) && e == DecodeError::Malformed,
            OpOutcome::Parsed(q) => r matches Ok((op, p)) && p == q && op_at(data@, pos as int, op, q),
            OpOutcome::Unknown => r matches Ok((op, p)) && p == pos + 2 && op == Opcode::Unknown((be_u16(data@, pos as int) as u16)),
            OpOutcome::Fatal => r matches Err(e) && e == DecodeError::Fatal,
        },
{
    proof {
        reveal(end_invert_same_rgn);
        reveal(args_invert_same_rgn);
    }
    let p0 = pos + 2;
    Ok((Opcode::InvertSameRgn, p0))
}

/// Reads the operands of `FillSameRgn`.
fn read_fill_same_rgn(data: &[u8], pos: usize, code: u16) -> (r: Result<(Opcode, usize), DecodeError>)
    requires
        pos + 2 <= data.len(),
        code == (be_u16(data@, pos as int) as u16),
        code == 0x008C,
    ensures
        match outcome(data@, pos as int) {
            OpOutcome::Eof => r matches Err(e) && e == DecodeError::Malformed,
            OpOutcome::Parsed(q) => r matches Ok((op, p)) && p == q && op_at(data@, pos as int, op, q),
            OpOutcome::Unknown => r matches Ok((op, p)) && p == pos + 2 && op == Opcode::Unknown((be_u16(data@, pos as int) as u16)),
            OpOutcome::Fatal => r matches Err(e) && e == DecodeError::Fatal,
        },
{
    proof {
        reveal(end_fill_same_rgn);
        reveal(args_fill_same_rgn);
    }
    let p0 = pos + 2;
    Ok((Opcode::FillSameRgn, p0))
}

/// Reads the operands of `ReservedForAppleUse41`.
fn read_reserved_for_apple_use41(data: &[u8], pos: usize, code: u16) -> (r: Result<(Opcode, usize), DecodeError>)
    requires
        pos + 2 <= data.len(),
        code == (be_u16(data@, pos as int) as u16),
        code == 0x008D,
    ensures
        match outcome(data@, pos as int) {
            OpOutcome::Eof => r matches Err(e) && e == DecodeError::Malformed,
            OpOutcome::Parsed(q) => r matches Ok((op, p)) && p == q && op_at(data@, pos as int, op, q),
            OpOutcome::Unknown => r matches Ok((op, p)) && p == pos + 2 && op == Opcode::Unknown((be_u16(data@, pos as int) as u16)),
            OpOutcome::Fatal => r matches Err(e) && e == DecodeError::Fatal,
        },
{
    proof {
        reveal(end_reserved_for_apple_use41);
        reveal(args_reserved_for_apple_use41);
    }
    let p0 = pos + 2;
    Ok((Opcode::ReservedForAppleUse41, p0))
}

/// Reads the operands of `ReservedForAppleUse42`.
fn read_reserved_for_apple_use42(data: &[u8], pos: usize, code: u16) -> (r: Result<(Opcode, usize), DecodeError>)
    requires
        pos + 2 <= data.len(),
        code == (be_u16(data@, pos as int) as u16),
        code == 0x008E,
    ensures
        match outcome(data@, pos as int) {
            OpOutcome::Eof => r matches Err(e) && e == DecodeError::Malformed,
            OpOutcome::Parsed(q) => r matches Ok((op, p)) && p == q && op_at(data@, pos as int, op, q),
            OpOutcome::Unknown => r matches Ok((op, p)) && p == pos + 2 && op == Opcode::Unknown((be_u16(data@, pos as int) as u16)),
            OpOutcome::Fatal => r matches Err(e) && e == DecodeError::Fatal,
        },
{
    proof {
        reveal(end_reserved_for_apple_use42);
        reveal(args_reserved_for_apple_use42);
    }
    let p0 = pos + 2;
    Ok((Opcode::ReservedForAppleUse42, p0))
}

/// Reads the operands of `ReservedForAppleUse43`.
fn read_reserved_for_apple_use43(data: &[u8], pos: usize, code: u16) -> (r: Result<(Opcode, usize), DecodeError>)
    requires
        pos + 2 <= data.len(),
        code == (be_u16(data@, pos as int) as u16),
        code == 0x008F,
    ensures
        match outcome(data@, pos as int) {
            OpOutcome::Eof => r matches Err(e) && e == DecodeError::Malformed,
            OpOutcome::Parsed(q) => r matches Ok((op, p)) && p == q && op_at(data@, pos as int, op, q),
            OpOutcome::Unknown => r matches Ok((op, p)) && p == pos + 2 && op == Opcode::Unknown((be_u16(data@, pos as int) as u16)),
            OpOutcome::Fatal => r matches Err(e) && e == DecodeError::Fatal,
        },
{
    proof {
        reveal(end_reserved_for_apple_use43);
        reveal(args_reserved_for_apple_use43);
    }
    let p0 = pos + 2;
    Ok((Opcode::ReservedForAppleUse43, p0))
}

/// Reads the operands of `BitsRect`.
fn read_bits_rect(data: &[u8], pos: usize, code: u16) -> (r: Result<(Opcode, usize), DecodeError>)
    requires
        pos + 2 <= data.len(),
        code == (be_u16(data@, pos as int) as u16),
        code == 0x0090,
    ensures
        match outcome(data@, pos as int) {
            OpOutcome::Eof => r matches Err(e) && e == DecodeError::Malformed,
            OpOutcome::Parsed(q) => r matches Ok((op, p)) && p == q && op_at(data@, pos as int, op, q),
            OpOutcome::Unknown => r matches Ok((op, p)) && p == pos + 2 && op == Opcode::Unknown((be_u16(data@, pos as int) as u16)),
            OpOutcome::Fatal => r matches Err(e) && e == DecodeError::Fatal,
        },
{
    proof {
        reveal(end_bits_rect);
        reveal(args_bits_rect);
    }
    let p0 = pos + 2;
    let (f0, p1) = match field_copy_bits(data, p0, true, false, true) {
        Ok(x) => x,
        Err(DecodeError::Fatal) => return Err(DecodeError::Fatal),
        Err(_) => return Ok((Opcode::Unknown(code), p0)),
    };
    Ok((Opcode::BitsRect(f0), p1))
}

/// Reads the operands of `BitsRgn`.
fn read_bits_rgn(data: &[u8], pos: usize, code: u16) -> (r: Result<(Opcode, usize), DecodeError>)
    requires
        pos + 2 <= data.len(),
        code == (be_u16(data@, pos as int) as u16),
        code == 0x0091,
    ensures
        match outcome(data@, pos as int) {
            OpOutcome::Eof => r matches Err(e) && e == DecodeError::Malformed,
            OpOutcome::Parsed(q) => r matches Ok((op, p)) && p == q && op_at(data@, pos as int, op, q),
            OpOutcome::Unknown => r matches Ok((op, p)) && p == pos + 2 && op == Opcode::Unknown((be_u16(data@, pos as int) as u16)),
            OpOutcome::Fatal => r matches Err(e) && e == DecodeError::Fatal,
        },
{
    proof {
        reveal(end_bits_rgn);
        reveal(args_bits_rgn);
    }
    let p0 = pos + 2;
    let (f0, p1) = match field_copy_bits(data, p0, false, true, true) {
        Ok(x) => x,
        Err(DecodeError::Fatal) => return Err(DecodeError::Fatal),
        Err(_) => return Ok((Opcode::Unknown(code), p0)),
    };
    Ok((Opcode::BitsRgn(f0), p1))
}

/// Reads the operands of `ReservedForAppleUse44`.
fn read_reserved_for_apple_use44(data: &[u8], pos: usize, code: u16) -> (r: Result<(Opcode, usize), DecodeError>)
    requires
        pos + 2 <= data.len(),
        code == (be_u16(data@, pos as int) as u16),
        code == 0x0092,
    ensures
        match outcome(data@, pos as int) {
            OpOutcome::Eof => r matches Err(e) && e == DecodeError::Malformed,
            OpOutcome::Parsed(q) => r matches Ok((op, p)) && p == q && op_at(data@, pos as int, op, q),
            OpOutcome::Unknown => r matches Ok((op, p)) && p == pos + 2 && op == Opcode::Unknown((be_u16(data@, pos as int) as u16)),
            OpOutcome::Fatal => r matches Err(e) && e == DecodeError::Fatal,
        },
{
    proof {
        reveal(end_reserved_for_apple_use44);
        reveal(args_reserved_for_apple_use44);
    }
    let p0 = pos + 2;
    let (f0, p1) = match field_u16(data, p0) {
        Some(x) => x,
        None => return Ok((Opcode::Unknown(code), p0)),
    };
    let (f1, p2) = match field_bytes(data, p1, f0 as usize) {
        Some(x) => x,
        None => return Ok((Opcode::Unknown(code), p0)),
    };
    Ok((Opcode::ReservedForAppleUse44(f0, f1), p2))
}

/// Reads the operands of `ReservedForAppleUse45`.
fn read_reserved_for_apple_use45(data: &[u8], pos: usize, code: u16) -> (r: Result<(Opcode, usize), DecodeError>)
    requires
        pos + 2 <= data.len(),
        code == (be_u16(data@, pos as int) as u16),
        code == 0x0093,
    ensures
        match outcome(data@, pos as int) {
            OpOutcome::Eof => r matches Err(e) && e == DecodeError::Malformed,
            OpOutcome::Parsed(q) => r matches Ok((op, p)) && p == q && op_at(data@, pos as int, op, q),
            OpOutcome::Unknown => r matches Ok((op, p)) && p == pos + 2 && op == Opcode::Unknown((be_u16(data@, pos as int) as u16)),
            OpOutcome::Fatal => r matches Err(e) && e == DecodeError::Fatal,
        },
{
    proof {
        reveal(end_reserved_for_apple_use45);
        reveal(args_reserved_for_apple_use45);
    }
    let p0 = pos + 2;
    let (f0, p1) = match field_u16(data, p0) {
        Some(x) => x,
        None => return Ok((Opcode::Unknown(code), p0)),
    };
    let (f1, p2) = match field_bytes(data, p1, f0 as usize) {
        Some(x) => x,
        None => return Ok((Opcode::Unknown(code), p0)),
    };
    Ok((Opcode::ReservedForAppleUse45(f0, f1), p2))
}

/// Reads the operands of `ReservedForAppleUse46`.
fn read_reserved_for_apple_use46(data: &[u8], pos: usize, code: u16) -> (r: Result<(Opcode, usize), DecodeError>)
    requires
        pos + 2 <= data.len(),
        code == (be_u16(data@, pos as int) as u16),
        code == 0x0094,
    ensures
        match outcome(data@, pos as int) {
            OpOutcome::Eof => r matches Err(e) && e == DecodeError::Malformed,
            OpOutcome::Parsed(q) => r matches Ok((op, p)) && p == q && op_at(data@, pos as int, op, q),
            OpOutcome::Unknown => r matches Ok((op, p)) && p == pos + 2 && op == Opcode::Unknown((be_u16(data@, pos as int) as u16)),
            OpOutcome::Fatal => r matches Err(e) && e == DecodeError::Fatal,
        },
{
    proof {
        reveal(end_reserved_for_apple_use46);
        reveal(args_reserved_for_apple_use46);
    }
    let p0 = pos + 2;
    let (f0, p1) = match field_u16(data, p0) {
        Some(x) => x,
        None => return Ok((Opcode::Unknown(code), p0)),
    };
    let (f1, p2) = match field_bytes(data, p1, f0 as usize) {
        Some(x) => x,
        None => return Ok((Opcode::Unknown(code), p0)),
    };
    Ok((Opcode::ReservedForAppleUse46(f0, f1), p2))
}

/// Reads the operands of `ReservedForAppleUse47`.
fn read_reserved_for_apple_use47(data: &[u8], pos: usize, code: u16) -> (r: Result<(Opcode, usize), DecodeError>)
    requires
        pos + 2 <= data.len(),
        code == (be_u16(data@, pos as int) as u16),
        code == 0x0095,
    ensures
        match outcome(data@, pos as int) {
            OpOutcome::Eof => r matches Err(e) && e == DecodeError::Malformed,
            OpOutcome::Parsed(q) => r matches Ok((op, p)) && p == q && op_at(data@, pos as int, op, q),
            OpOutcome::Unknown => r matches Ok((op, p)) && p == pos + 2 && op == Opcode::Unknown((be_u16(data@, pos as int) as u16)),
            OpOutcome::Fatal => r matches Err(e) && e == DecodeError::Fatal,
        },
{
    proof {
        reveal(end_reserved_for_apple_use47);
        reveal(args_reserved_for_apple_use47);
    }
    let p0 = pos + 2;
    let (f0, p1) = match field_u16(data, p0) {
        Some(x) => x,
        None => return Ok((Opcode::Unknown(code), p0)),
    };
    let (f1, p2) = match field_bytes(data, p1, f0 as usize) {
        Some(x) => x,
        None => return Ok((Opcode::Unknown(code), p0)),
    };
    Ok((Opcode::ReservedForAppleUse47(f0, f1), p2))
}

/// Reads the operands of `ReservedForAppleUse48`.
fn read_reserved_for_apple_use48(data: &[u8], pos: usize, code: u16) -> (r: Result<(Opcode, usize), DecodeError>)
    requires
        pos + 2 <= data.len(),
        code == (be_u16(data@, pos as int) as u16),
        code == 0x0096,
    ensures
        match outcome(data@, pos as int) {
            OpOutcome::Eof => r matches Err(e) && e == DecodeError::Malformed,
            OpOutcome::Parsed(q) => r matches Ok((op, p)) && p == q && op_at(data@, pos as int, op, q),
            OpOutcome::Unknown => r matches Ok((op, p)) && p == pos + 2 && op == Opcode::Unknown((be_u16(data@, pos as int) as u16)),
            OpOutcome::Fatal => r matches Err(e) && e == DecodeError::Fatal,
        },
{
    proof {
        reveal(end_reserved_for_apple_use48);
        reveal(args_reserved_for_apple_use48);
    }
    let p0 = pos + 2;
    let (f0, p1) = match field_u16(data, p0) {
        Some(x) => x,
        None => return Ok((Opcode::Unknown(code), p0)),
    };
    let (f1, p2) = match field_bytes(data, p1, f0 as usize) {
        Some(x) => x,
        None => return Ok((Opcode::Unknown(code), p0)),
    };
    Ok((Opcode::ReservedForAppleUse48(f0, f1), p2))
}

/// Reads the operands of `ReservedForAppleUse49`.
fn read_reserved_for_apple_use49(data: &[u8], pos: usize, code: u16) -> (r: Result<(Opcode, usize), DecodeError>)
    requires
        pos + 2 <= data.len(),
        code == (be_u16(data@, pos as int) as u16),
        code == 0x0097,
    ensures
        match outcome(data@, pos as int) {
            OpOutcome::Eof => r matches Err(e) && e == DecodeError::Malformed,
            OpOutcome::Parsed(q) => r matches Ok((op, p)) && p == q && op_at(data@, pos as int, op, q),
            OpOutcome::Unknown => r matches Ok((op, p)) && p == pos + 2 && op == Opcode::Unknown((be_u16(data@, pos as int) as u16)),
            OpOutcome::Fatal => r matches Err(e) && e == DecodeError::Fatal,
        },
{
    proof {
        reveal(end_reserved_for_apple_use49);
        reveal(args_reserved_for_apple_use49);
    }
    let p0 = pos + 2;
    let (f0, p1) = match field_u16(data, p0) {
        Some(x) => x,
        None => return Ok((Opcode::Unknown(code), p0)),
    };
    let (f1, p2) = match field_bytes(data, p1, f0 as usize) {
        Some(x) => x,
        None => return Ok((Opcode::Unknown(code), p0)),
    };
    Ok((Opcode::ReservedForAppleUse49(f0, f1), p2))
}

/// Reads the operands of `PackBitsRect`.
fn read_pack_bits_rect(data: &[u8], pos: usize, code: u16) -> (r: Result<(Opcode, usize), DecodeError>)
    requires
        pos + 2 <= data.len(),
        code == (be_u16(data@, pos as int) as u16),
        code == 0x0098,
    ensures
        match outcome(data@, pos as int) {
            OpOutcome::Eof => r matches Err(e) && e == DecodeError::Malformed,
            OpOutcome::Parsed(q) => r matches Ok((op, p)) && p == q && op_at(data@, pos as int, op, q),
            OpOutcome::Unknown => r matches Ok((op, p)) && p == pos + 2 && op == Opcode::Unknown((be_u16(data@, pos as int) as u16)),
            OpOutcome::Fatal => r matches Err(e) && e == DecodeError::Fatal,
        },
{
    proof {
        reveal(end_pack_bits_rect);
        reveal(args_pack_bits_rect);
    }
    let p0 = pos + 2;
    let (f0, p1) = match field_copy_bits(data, p0, true, false, true) {
        Ok(x) => x,
        Err(DecodeError::Fatal) => return Err(DecodeError::Fatal),
        Err(_) => return Ok((Opcode::Unknown(code), p0)),
    };
    Ok((Opcode::PackBitsRect(f0), p1))
}

/// Reads the operands of `PackBitsRgn`.
fn read_pack_bits_rgn(data: &[u8], pos: usize, code: u16) -> (r: Result<(Opcode, usize), DecodeError>)
    requires
        pos + 2 <= data.len(),
        code == (be_u16(data@, pos as int) as u16),
        code == 0x0099,
    ensures
        match outcome(data@, pos as int) {
            OpOutcome::Eof => r matches Err(e) && e == DecodeError::Malformed,
            OpOutcome::Parsed(q) => r matches Ok((op, p)) && p == q && op_at(data@, pos as int, op, q),
            OpOutcome::Unknown => r matches Ok((op, p)) && p == pos + 2 && op == Opcode::Unknown((be_u16(data@, pos as int) as u16)),
            OpOutcome::Fatal => r matches Err(e) && e == DecodeError::Fatal,
        },
{
    proof {
        reveal(end_pack_bits_rgn);
        reveal(args_pack_bits_rgn);
    }
    let p0 = pos + 2;
    let (f0, p1) = match field_copy_bits(data, p0, true, true, true) {
        Ok(x) => x,
        Err(DecodeError::Fatal) => return Err(DecodeError::Fatal),
        Err(_) => return Ok((Opcode::Unknown(code), p0)),
    };
    Ok((Opcode::PackBitsRgn(f0), p1))
}

/// Reads the operands of `DirectBitsRect`.
fn read_direct_bits_rect(data: &[u8], pos: usize, code: u16) -> (r: Result<(Opcode, usize), DecodeError>)
    requires
        pos + 2 <= data.len(),
        code == (be_u16(data@, pos as int) as u16),
        code == 0x009A,
    ensures
        match outcome(data@, pos as int) {
            OpOutcome::Eof => r matches Err(e) && e == DecodeError::Malformed,
            OpOutcome::Parsed(q) => r matches Ok((op, p)) && p == q && op_at(data@, pos as int, op, q),
            OpOutcome::Unknown => r matches Ok((op, p)) && p == pos + 2 && op == Opcode::Unknown((be_u16(data@, pos as int) as u16)),
            OpOutcome::Fatal => r matches Err(e) && e == DecodeError::Fatal,
        },
{
    proof {
        reveal(end_direct_bits_rect);
        reveal(args_direct_bits_rect);
    }
    let p0 = pos + 2;
    let (f0, p1) = match field_direct_bits(data, p0, false) {
        Ok(x) => x,
        Err(DecodeError::Fatal) => return Err(DecodeError::Fatal),
        Err(_) => return Ok((Opcode::Unknown(code), p0)),
    };
    Ok((Opcode::DirectBitsRect(f0), p1))
}

/// Reads the operands of `DirectBitsRgn`.
fn read_direct_bits_rgn(data: &[u8], pos: usize, code: u16) -> (r: Result<(Opcode, usize), DecodeError>)
    requires
        pos + 2 <= data.len(),
        code == (be_u16(data@, pos as int) as u16),
        code == 0x009B,
    ensures
        match outcome(data@, pos as int) {
            OpOutcome::Eof => r matches Err(e) && e == DecodeError::Malformed,
            OpOutcome::Parsed(q) => r matches Ok((op, p)) && p == q && op_at(data@, pos as int, op, q),
            OpOutcome::Unknown => r matches Ok((op, p)) && p == pos + 2 && op == Opcode::Unknown((be_u16(data@, pos as int) as u16)),
            OpOutcome::Fatal => r matches Err(e) && e == DecodeError::Fatal,
        },
{
    proof {
        reveal(end_direct_bits_rgn);
        reveal(args_direct_bits_rgn);
    }
    let p0 = pos + 2;
    let (f0, p1) = match field_direct_bits(data, p0, true) {
        Ok(x) => x,
        Err(DecodeError::Fatal) => return Err(DecodeError::Fatal),
        Err(_) => return Ok((Opcode::Unknown(code), p0)),
    };
    Ok((Opcode::DirectBitsRgn(f0), p1))
}

/// Reads the operands of `ReservedForAppleUse50`.
fn read_reserved_for_apple_use50(data: &[u8], pos: usize, code: u16) -> (r: Result<(Opcode, usize), DecodeError>)
    requires
        pos + 2 <= data.len(),
        code == (be_u16(data@, pos as int) as u16),
        code == 0x009C,
    ensures
        match outcome(data@, pos as int) {
            OpOutcome::Eof => r matches Err(e) && e == DecodeError::Malformed,
            OpOutcome::Parsed(q) => r matches Ok((op, p)) && p == q && op_at(data@, pos as int, op, q),
            OpOutcome::Unknown => r matches Ok((op, p)) && p == pos + 2 && op == Opcode::Unknown((be_u16(data@, pos as int) as u16)),
            OpOutcome::Fatal => r matches Err(e) && e == DecodeError::Fatal,
        },
{
    proof {
        reveal(end_reserved_for_apple_use50);
        reveal(args_reserved_for_apple_use50);
    }
    let p0 = pos + 2;
    let (f0, p1) = match field_u16(data, p0) {
        Some(x) => x,
        None => return Ok((Opcode::Unknown(code), p0)),
    };
    let (f1, p2) = match field_bytes(data, p1, f0 as usize) {
        Some(x) => x,
        None => return Ok((Opcode::Unknown(code), p0)),
    };
    Ok((Opcode::ReservedForAppleUse50(f0, f1), p2))
}

/// Reads the operands of `ReservedForAppleUse51`.
fn read_reserved_for_apple_use51(data: &[u8], pos: usize, code: u16) -> (r: Result<(Opcode, usize), DecodeError>)
    requires
        pos + 2 <= data.len(),
        code == (be_u16(data@, pos as int) as u16),
        code == 0x009D,
    ensures
        match outcome(data@, pos as int) {
            OpOutcome::Eof => r matches Err(e) && e == DecodeError::Malformed,
            OpOutcome::Parsed(q) => r matches Ok((op, p)) && p == q && op_at(data@, pos as int, op, q),
            OpOutcome::Unknown => r matches Ok((op, p)) && p == pos + 2 && op == Opcode::Unknown((be_u16(data@, pos as int) as u16)),
            OpOutcome::Fatal => r matches Err(e) && e == DecodeError::Fatal,
        },
{
    proof {
        reveal(end_reserved_for_apple_use51);
        reveal(args_reserved_for_apple_use51);
    }
    let p0 = pos + 2;
    let (f0, p1) = match field_u16(data, p0) {
        Some(x) => x,
        None => return Ok((Opcode::Unknown(code), p0)),
    };
    let (f1, p2) = match field_bytes(data, p1, f0 as usize) {
        Some(x) => x,
        None => return Ok((Opcode::Unknown(code), p0)),
    };
    Ok((Opcode::ReservedForAppleUse51(f0, f1), p2))
}

/// Reads the operands of `ReservedForAppleUse52`.
fn read_reserved_for_apple_use52(data: &[u8], pos: usize, code: u16) -> (r: Result<(Opcode, usize), DecodeError>)
    requires
        pos + 2 <= data.len(),
        code == (be_u16(data@, pos as int) as u16),
        code == 0x009E,
    ensures
        match outcome(data@, pos as int) {
            OpOutcome::Eof => r matches Err(e) && e == DecodeError::Malformed,
            OpOutcome::Parsed(q) => r matches Ok((op, p)) && p == q && op_at(data@, pos as int, op, q),
            OpOutcome::Unknown => r matches Ok((op, p)) && p == pos + 2 && op == Opcode::Unknown((be_u16(data@, pos as int) as u16)),
            OpOutcome::Fatal => r matches Err(e) && e == DecodeError::Fatal,
        },
{
    proof {
        reveal(end_reserved_for_apple_use52);
        reveal(args_reserved_for_apple_use52);
    }
    let p0 = pos + 2;
    let (f0, p1) = match field_u16(data, p0) {
        Some(x) => x,
        None => return Ok((Opcode::Unknown(code), p0)),
    };
    let (f1, p2) = match field_bytes(data, p1, f0 as usize) {
        Some(x) => x,
        None => return Ok((Opcode::Unknown(code), p0)),
    };
    Ok((Opcode::ReservedForAppleUse52(f0, f1), p2))
}

/// Reads the operands of `ReservedForAppleUse53`.
fn read_reserved_for_apple_use53(data: &[u8], pos: usize, code: u16) -> (r: Result<(Opcode, usize), DecodeError>)
    requires
        pos + 2 <= data.len(),
        code == (be_u16(data@, pos as int) as u16),
        code == 0x009F,
    ensures
        match outcome(data@, pos as int) {
            OpOutcome::Eof => r matches Err(e) && e == DecodeError::Malformed,
            OpOutcome::Parsed(q) => r matches Ok((op, p)) && p == q && op_at(data@, pos as int, op, q),
            OpOutcome::Unknown => r matches Ok((op, p)) && p == pos + 2 && op == Opcode::Unknown((be_u16(data@, pos as int) as u16)),
            OpOutcome::Fatal => r matches Err(e) && e == DecodeError::Fatal,
        },
{
    proof {
        reveal(end_reserved_for_apple_use53);
        reveal(args_reserved_for_apple_use53);
    }
    let p0 = pos + 2;
    let (f0, p1) = match field_u16(data, p0) {
        Some(x) => x,
        None => return Ok((Opcode::Unknown(code), p0)),
    };
    let (f1, p2) = match field_bytes(data, p1, f0 as usize) {
        Some(x) => x,
        None => return Ok((Opcode::Unknown(code), p0)),
    };
    Ok((Opcode::ReservedForAppleUse53(f0, f1), p2))
}

/// Reads the operands of `ShortComment`.
fn read_short_comment(data: &[u8], pos: usize, code: u16) -> (r: Result<(Opcode, usize), DecodeError>)
    requires
        pos + 2 <= data.len(),
        code == (be_u16(data@, pos as int) as u16),
        code == 0x00A0,
    ensures
        match outcome(data@, pos as int) {
            OpOutcome::Eof => r matches Err(e) && e == DecodeError::Malformed,
            OpOutcome::Parsed(q) => r matches Ok((op, p)) && p == q && op_at(data@, pos as int, op, q),
            OpOutcome::Unknown => r matches Ok((op, p)) && p == pos + 2 && op == Opcode::Unknown((be_u16(data@, pos as int) as u16)),
            OpOutcome::Fatal => r matches Err(e) && e == DecodeError::Fatal,
        },
{
    proof {
        reveal(end_short_comment);
        reveal(args_short_comment);
    }
    let p0 = pos + 2;
    let (f0, p1) = match field_comment(data, p0) {
        Some(x) => x,
        None => return Ok((Opcode::Unknown(code), p0)),
    };
    Ok((Opcode::ShortComment(f0), p1))
}

/// Reads the operands of `LongComment`.
fn read_long_comment(data: &[u8], pos: usize, code: u16) -> (r: Result<(Opcode, usize), DecodeError>)
    requires
        pos + 2 <= data.len(),
        code == (be_u16(data@, pos as int) as u16),
        code == 0x00A1,
    ensures
        match outcome(data@, pos as int) {
            OpOutcome::Eof => r matches Err(e) && e == DecodeError::Malformed,
            OpOutcome::Parsed(q) => r matches Ok((op, p)) && p == q && op_at(data@, pos as int, op, q),
            OpOutcome::Unknown => r matches Ok((op, p)) && p == pos + 2 && op == Opcode::Unknown((be_u16(data@, pos as int) as u16)),
            OpOutcome::Fatal => r matches Err(e) && e == DecodeError::Fatal,
        },
{
    proof {
        reveal(end_long_comment);
        reveal(args_long_comment);
    }
    let p0 = pos + 2;
    let (f0, p1) = match field_comment(data, p0) {
        Some(x) => x,
        None => return Ok((Opcode::Unknown(code), p0)),
    };
    let (f1, p2) = match field_u16(data, p1) {
        Some(x) => x,
        None => return Ok((Opcode::Unknown(code), p0)),
    };
    let (f2, p3) = match field_bytes(data, p2, f1 as usize) {
        Some(x) => x,
        None => return Ok((Opcode::Unknown(code), p0)),
    };
    Ok((Opcode::LongComment(f0, f1, f2), p3))
}

/// Reads the operands of `ReservedForAppleUse54`.
fn read_reserved_for_apple_use54(data: &[u8], pos: usize, code: u16) -> (r: Result<(Opcode, usize), DecodeError>)
    requires
        pos + 2 <= data.len(),
        code == (be_u16(data@, pos as int) as u16),
        code == 0x00A2,
    ensures
        match outcome(data@, pos as int) {
            OpOutcome::Eof => r matches Err(e) && e == DecodeError::Malformed,
            OpOutcome::Parsed(q) => r matches Ok((op, p)) && p == q && op_at(data@, pos as int, op, q),
            OpOutcome::Unknown => r matches Ok((op, p)) && p == pos + 2 && op == Opcode::Unknown((be_u16(data@, pos as int) as u16)),
            OpOutcome::Fatal => r matches Err(e) && e == DecodeError::Fatal,
        },
{
    proof {
        reveal(end_reserved_for_apple_use54);
        reveal(args_reserved_for_apple_use54);
    }
    let p0 = pos + 2;
    let (f0, p1) = match field_u16(data, p0) {
        Some(x) => x,
        None => return Ok((Opcode::Unknown(code), p0)),
    };
    let (f1, p2) = match field_bytes(data, p1, f0 as usize) {
        Some(x) => x,
        None => return Ok((Opcode::Unknown(code), p0)),
    };
    Ok((Opcode::ReservedForAppleUse54(f0, f1), p2))
}

/// Reads the operands of `ReservedForAppleUse55`.
fn read_reserved_for_apple_use55(data: &[u8], pos: usize, code: u16) -> (r: Result<(Opcode, usize), DecodeError>)
    requires
        pos + 2 <= data.len(),
        code == (be_u16(data@, pos as int) as u16),
        code == 0x00AF,
    ensures
        match outcome(data@, pos as int) {
            OpOutcome::Eof => r matches Err(e) && e == DecodeError::Malformed,
            OpOutcome::Parsed(q) => r matches Ok((op, p)) && p == q && op_at(data@, pos as int, op, q),
            OpOutcome::Unknown => r matches Ok((op, p)) && p == pos + 2 && op == Opcode::Unknown((be_u16(data@, pos as int) as u16)),
            OpOutcome::Fatal => r matches Err(e) && e == DecodeError::Fatal,
        },
{
    proof {
        reveal(end_reserved_for_apple_use55);
        reveal(args_reserved_for_apple_use55);
    }
    let p0 = pos + 2;
    let (f0, p1) = match field_u16(data, p0) {
        Some(x) => x,
        None => return Ok((Opcode::Unknown(code), p0)),
    };
    let (f1, p2) = match field_bytes(data, p1, f0 as usize) {
        Some(x) => x,
        None => return Ok((Opcode::Unknown(code), p0)),
    };
    Ok((Opcode::ReservedForAppleUse55(f0, f1), p2))
}

/// Reads the operands of `ReservedForAppleUse56`.
fn read_reserved_for_apple_use56(data: &[u8], pos: usize, code: u16) -> (r: Result<(Opcode, usize), DecodeError>)
    requires
        pos + 2 <= data.len(),
        code == (be_u16(data@, pos as int) as u16),
        code == 0x00B0,
    ensures
        match outcome(data@, pos as int) {
            OpOutcome::Eof => r matches Err(e) && e == DecodeError::Malformed,
            OpOutcome::Parsed(q) => r matches Ok((op, p)) && p == q && op_at(data@, pos as int, op, q),
            OpOutcome::Unknown => r matches Ok((op, p)) && p == pos + 2 && op == Opcode::Unknown((be_u16(data@, pos as int) as u16)),
            OpOutcome::Fatal => r matches Err(e) && e == DecodeError::Fatal,
        },
{
    proof {
        reveal(end_reserved_for_apple_use56);
        reveal(args_reserved_for_apple_use56);
    }
    let p0 = pos + 2;
    Ok((Opcode::ReservedForAppleUse56, p0))
}

/// Reads the operands of `ReservedForAppleUse57`.
fn read_reserved_for_apple_use57(data: &[u8], pos: usize, code: u16) -> (r: Result<(Opcode, usize), DecodeError>)
    requires
        pos + 2 <= data.len(),
        code == (be_u16(data@, pos as int) as u16),
        code == 0x00CF,
    ensures
        match outcome(data@, pos as int) {
            OpOutcome::Eof => r matches Err(e) && e == DecodeError::Malformed,
            OpOutcome::Parsed(q) => r matches Ok((op, p)) && p == q && op_at(data@, pos as int, op, q),
            OpOutcome::Unknown => r matches Ok((op, p)) && p == pos + 2 && op == Opcode::Unknown((be_u16(data@, pos as int) as u16)),
            OpOutcome::Fatal => r matches Err(e) && e == DecodeError::Fatal,
        },
{
    proof {
        reveal(end_reserved_for_apple_use57);
        reveal(args_reserved_for_apple_use57);
    }
    let p0 = pos + 2;
    Ok((Opcode::ReservedForAppleUse57, p0))
}

/// Reads the operands of `ReservedForAppleUse58`.
fn read_reserved_for_apple_use58(data: &[u8], pos: usize, code: u16) -> (r: Result<(Opcode, usize), DecodeError>)
    requires
        pos + 2 <= data.len(),
        code == (be_u16(data@, pos as int) as u16),
        code == 0x00D0,
    ensures
        match outcome(data@, pos as int) {
            OpOutcome::Eof => r matches Err(e) && e == DecodeError::Malformed,
            OpOutcome::Parsed(q) => r matches Ok((op, p)) && p == q && op_at(data@, pos as int, op, q),
            OpOutcome::Unknown => r matches Ok((op, p)) && p == pos + 2 && op == Opcode::Unknown((be_u16(data@, pos as int) as u16)),
            OpOutcome::Fatal => r matches Err(e) && e == DecodeError::Fatal,
        },
{
    proof {
        reveal(end_reserved_for_apple_use58);
        reveal(args_reserved_for_apple_use58);
    }
    let p0 = pos + 2;
    let (f0, p1) = match field_u32(data, p0) {
        Some(x) => x,
        None => return Ok((Opcode::Unknown(code), p0)),
    };
    let (f1, p2) = match field_bytes(data, p1, f0 as usize) {
        Some(x) => x,
        None => return Ok((Opcode::Unknown(code), p0)),
    };
    Ok((Opcode::ReservedForAppleUse58(f0, f1), p2))
}

/// Reads the operands of `ReservedForAppleUse59`.
fn read_reserved_for_apple_use59(data: &[u8], pos: usize, code: u16) -> (r: Result<(Opcode, usize), DecodeError>)
    requires
        pos + 2 <= data.len(),
        code == (be_u16(data@, pos as int) as u16),
        code == 0x00FE,
    ensures
        match outcome(data@, pos as int) {
            OpOutcome::Eof => r matches Err(e) && e == DecodeError::Malformed,
            OpOutcome::Parsed(q) => r matches Ok((op, p)) && p == q && op_at(data@, pos as int, op, q),
            OpOutcome::Unknown => r matches Ok((op, p)) && p == pos + 2 && op == Opcode::Unknown((be_u16(data@, pos as int) as u16)),
            OpOutcome::Fatal => r matches Err(e) && e == DecodeError::Fatal,
        },
{
    proof {
        reveal(end_reserved_for_apple_use59);
        reveal(args_reserved_for_apple_use59);
    }
    let p0 = pos + 2;
    let (f0, p1) = match field_u32(data, p0) {
        Some(x) => x,
        None => return Ok((Opcode::Unknown(code), p0)),
    };
    let (f1, p2) = match field_bytes(data, p1, f0 as usize) {
        Some(x) => x,
        None => return Ok((Opcode::Unknown(code), p0)),
    };
    Ok((Opcode::ReservedForAppleUse59(f0, f1), p2))
}

/// Reads the operands of `OpEndPic`.
fn read_op_end_pic(data: &[u8], pos: usize, code: u16) -> (r: Result<(Opcode, usize), DecodeError>)
    requires
        pos + 2 <= data.len(),
        code == (be_u16(data@, pos as int) as u16),
        code == 0x00FF,
    ensures
        match outcome(data@, pos as int) {
            OpOutcome::Eof => r matches Err(e) && e == DecodeError::Malformed,
            OpOutcome::Parsed(q) => r matches Ok((op, p)) && p == q && op_at(data@, pos as int, op, q),
            OpOutcome::Unknown => r matches Ok((op, p)) && p == pos + 2 && op == Opcode::Unknown((be_u16(data@, pos as int) as u16)),
            OpOutcome::Fatal => r matches Err(e) && e == DecodeError::Fatal,
        },
{
    proof {
        reveal(end_op_end_pic);
        reveal(args_op_end_pic);
    }
    let p0 = pos + 2;
    Ok((Opcode::OpEndPic, p0))
}

/// Reads the operands of `ReservedForAppleUse60`.
fn read_reserved_for_apple_use60(data: &[u8], pos: usize, code: u16) -> (r: Result<(Opcode, usize), DecodeError>)
    requires
        pos + 2 <= data.len(),
        code == (be_u16(data@, pos as int) as u16),
        code == 0x0100,
    ensures
        match outcome(data@, pos as int) {
            OpOutcome::Eof => r matches Err(e) && e == DecodeError::Malformed,
            OpOutcome::Parsed(q) => r matches Ok((op, p)) && p == q && op_at(data@, pos as int, op, q),
            OpOutcome::Unknown => r matches Ok((op, p)) && p == pos + 2 && op == Opcode::Unknown((be_u16(data@, pos as int) as u16)),
            OpOutcome::Fatal => r matches Err(e) && e == DecodeError::Fatal,
        },
{
    proof {
        reveal(end_reserved_for_apple_use60);
        reveal(args_reserved_for_apple_use60);
    }
    let p0 = pos + 2;
    let (f0, p1) = match field_u16(data, p0) {
        Some(x) => x,
        None => return Ok((Opcode::Unknown(code), p0)),
    };
    Ok((Opcode::ReservedForAppleUse60(f0), p1))
}

/// Reads the operands of `ReservedForAppleUse61`.
fn read_reserved_for_apple_use61(data: &[u8], pos: usize, code: u16) -> (r: Result<(Opcode, usize), DecodeError>)
    requires
        pos + 2 <= data.len(),
        code == (be_u16(data@, pos as int) as u16),
        code == 0x01FF,
    ensures
        match outcome(data@, pos as int) {
            OpOutcome::Eof => r matches Err(e) && e == DecodeError::Malformed,
            OpOutcome::Parsed(q) => r matches Ok((op, p)) && p == q && op_at(data@, pos as int, op, q),
            OpOutcome::Unknown => r matches Ok((op, p)) && p == pos + 2 && op == Opcode::Unknown((be_u16(data@, pos as int) as u16)),
            OpOutcome::Fatal => r matches Err(e) && e == DecodeError::Fatal,
        },
{
    proof {
        reveal(end_reserved_for_apple_use61);
        reveal(args_reserved_for_apple_use61);
    }
    let p0 = pos + 2;
    let (f0, p1) = match field_u16(data, p0) {
        Some(x) => x,
        None => return Ok((Opcode::Unknown(code), p0)),
    };
    Ok((Opcode::ReservedForAppleUse61(f0), p1))
}

/// Reads the operands of `ReservedForAppleUse62`.
fn read_reserved_for_apple_use62(data: &[u8], pos: usize, code: u16) -> (r: Result<(Opcode, usize), DecodeError>)
    requires
        pos + 2 <= data.len(),
        code == (be_u16(data@, pos as int) as u16),
        code == 0x0200,
    ensures
        match outcome(data@, pos as int) {
            OpOutcome::Eof => r matches Err(e) && e == DecodeError::Malformed,
            OpOutcome::Parsed(q) => r matches Ok((op, p)) && p == q && op_at(data@, pos as int, op, q),
            OpOutcome::Unknown => r matches Ok((op, p)) && p == pos + 2 && op == Opcode::Unknown((be_u16(data@, pos as int) as u16)),
            OpOutcome::Fatal => r matches Err(e) && e == DecodeError::Fatal,
        },
{
    proof {
        reveal(end_reserved_for_apple_use62);
        reveal(args_reserved_for_apple_use62);
    }
    let p0 = pos + 2;
    let (f0, p1) = match field_u32(data, p0) {
        Some(x) => x,
        None => return Ok((Opcode::Unknown(code), p0)),
    };
    Ok((Opcode::ReservedForAppleUse62(f0), p1))
}

/// Reads the operands of `Version`.
fn read_version(data: &[u8], pos: usize, code: u16) -> (r: Result<(Opcode, usize), DecodeError>)
    requires
        pos + 2 <= data.len(),
        code == (be_u16(data@, pos as int) as u16),
        code == 0x02FF,
    ensures
        match outcome(data@, pos as int) {
            OpOutcome::Eof => r matches Err(e) && e == DecodeError::Malformed,
            OpOutcome::Parsed(q) => r matches Ok((op, p)) && p == q && op_at(data@, pos as int, op, q),
            OpOutcome::Unknown => r matches Ok((op, p)) && p == pos + 2 && op == Opcode::Unknown((be_u16(data@, pos as int) as u16)),
            OpOutcome::Fatal => r matches Err(e) && e == DecodeError::Fatal,
        },
{
    proof {
        reveal(end_version);
        reveal(args_version);
    }
    let p0 = pos + 2;
    Ok((Opcode::Version, p0))
}

/// Reads the operands of `ReservedForAppleUse63`.
fn read_reserved_for_apple_use63(data: &[u8], pos: usize, code: u16) -> (r: Result<(Opcode, usize), DecodeError>)
    requires
        pos + 2 <= data.len(),
        code == (be_u16(data@, pos as int) as u16),
        code == 0x0BFF,
    ensures
        match outcome(data@, pos as int) {
            OpOutcome::Eof => r matches Err(e) && e == DecodeError::Malformed,
            OpOutcome::Parsed(q) => r matches Ok((op, p)) && p == q && op_at(data@, pos as int, op, q),
            OpOutcome::Unknown => r matches Ok((op, p)) && p == pos + 2 && op == Opcode::Unknown((be_u16(data@, pos as int) as u16)),
            OpOutcome::Fatal => r matches Err(e) && e == DecodeError::Fatal,
        },
{
    proof {
        reveal(end_reserved_for_apple_use63);
        reveal(args_reserved_for_apple_use63);
    }
    let p0 = pos + 2;
    let (f0, p1) = match field_array::<22>(data, p0) {
        Some(x) => x,
        None => return Ok((Opcode::Unknown(code), p0)),
    };
    Ok((Opcode::ReservedForAppleUse63(f0), p1))
}

/// Reads the operands of `HeaderOp`.
fn read_header_op(data: &[u8], pos: usize, code: u16) -> (r: Result<(Opcode, usize), DecodeError>)
    requires
        pos + 2 <= data.len(),
        code == (be_u16(data@, pos as int) as u16),
        code == 0x0C00,
    ensures
        match outcome(data@, pos as int) {
            OpOutcome::Eof => r matches Err(e) && e == DecodeError::Malformed,
            OpOutcome::Parsed(q) => r matches Ok((op, p)) && p == q && op_at(data@, pos as int, op, q),
            OpOutcome::Unknown => r matches Ok((op, p)) && p == pos + 2 && op == Opcode::Unknown((be_u16(data@, pos as int) as u16)),
            OpOutcome::Fatal => r matches Err(e) && e == DecodeError::Fatal,
        },
{
    proof {
        reveal(end_header_op);
        reveal(args_header_op);
    }
    let p0 = pos + 2;
    let (f0, p1) = match field_header(data, p0) {
        Some(x) => x,
        None => return Ok((Opcode::Unknown(code), p0)),
    };
    Ok((Opcode::HeaderOp(f0), p1))
}

/// Reads the operands of `ReservedForAppleUse64`.
fn read_reserved_for_apple_use64(data: &[u8], pos: usize, code: u16) -> (r: Result<(Opcode, usize), DecodeError>)
    requires
        pos + 2 <= data.len(),
        code == (be_u16(data@, pos as int) as u16),
        code == 0x0C01,
    ensures
        match outcome(data@, pos as int) {
            OpOutcome::Eof => r matches Err(e) && e == DecodeError::Malformed,
            OpOutcome::Parsed(q) => r matches Ok((op, p)) && p == q && op_at(data@, pos as int, op, q),
            OpOutcome::Unknown => r matches Ok((op, p)) && p == pos + 2 && op == Opcode::Unknown((be_u16(data@, pos as int) as u16)),
            OpOutcome::Fatal => r matches Err(e) && e == DecodeError::Fatal,
        },
{
    proof {
        reveal(end_reserved_for_apple_use64);
        reveal(args_reserved_for_apple_use64);
    }
    let p0 = pos + 2;
    let (f0, p1) = match field_array::<24>(data, p0) {
        Some(x) => x,
        None => return Ok((Opcode::Unknown(code), p0)),
    };
    Ok((Opcode::ReservedForAppleUse64(f0), p1))
}

/// Reads the operands of `ReservedForAppleUse65`.
fn read_reserved_for_apple_use65(data: &[u8], pos: usize, code: u16) -> (r: Result<(Opcode, usize), DecodeError>)
    requires
        pos + 2 <= data.len(),
        code == (be_u16(data@, pos as int) as u16),
        code == 0x7F00,
    ensures
        match outcome(data@, pos as int) {
            OpOutcome::Eof => r matches Err(e) && e == DecodeError::Malformed,
            OpOutcome::Parsed(q) => r matches Ok((op, p)) && p == q && op_at(data@, pos as int, op, q),
            OpOutcome::Unknown => r matches Ok((op, p)) && p == pos + 2 && op == Opcode::Unknown((be_u16(data@, pos as int) as u16)),
            OpOutcome::Fatal => r matches Err(e) && e == DecodeError::Fatal,
        },
{
    proof {
        reveal(end_reserved_for_apple_use65);
        reveal(args_reserved_for_apple_use65);
    }
    let p0 = pos + 2;
    let (f0, p1) = match field_array::<254>(data, p0) {
        Some(x) => x,
        None => return Ok((Opcode::Unknown(code), p0)),
    };
    Ok((Opcode::ReservedForAppleUse65(f0), p1))
}

/// Reads the operands of `ReservedForAppleUse66`.
fn read_reserved_for_apple_use66(data: &[u8], pos: usize, code: u16) -> (r: Result<(Opcode, usize), DecodeError>)
    requires
        pos + 2 <= data.len(),
        code == (be_u16(data@, pos as int) as u16),
        code == 0x7FFF,
    ensures
        match outcome(data@, pos as int) {
            OpOutcome::Eof => r matches Err(e) && e == DecodeError::Malformed,
            OpOutcome::Parsed(q) => r matches Ok((op, p)) && p == q && op_at(data@, pos as int, op, q),
            OpOutcome::Unknown => r matches Ok((op, p)) && p == pos + 2 && op == Opcode::Unknown((be_u16(data@, pos as int) as u16)),
            OpOutcome::Fatal => r matches Err(e) && e == DecodeError::Fatal,
        },
{
    proof {
        reveal(end_reserved_for_apple_use66);
        reveal(args_reserved_for_apple_use66);
    }
    let p0 = pos + 2;
    let (f0, p1) = match field_array::<254>(data, p0) {
        Some(x) => x,
        None => return Ok((Opcode::Unknown(code), p0)),
    };
    Ok((Opcode::ReservedForAppleUse66(f0), p1))
}

/// Reads the operands of `ReservedForAppleUse67`.
fn read_reserved_for_apple_use67(data: &[u8], pos: usize, code: u16) -> (r: Result<(Opcode, usize), DecodeError>)
    requires
        pos + 2 <= data.len(),
        code == (be_u16(data@, pos as int) as u16),
        code == 0x8000,
    ensures
        match outcome(data@, pos as int) {
            OpOutcome::Eof => r matches Err(e) && e == DecodeError::Malformed,
            OpOutcome::Parsed(q) => r matches Ok((op, p)) && p == q && op_at(data@, pos as int, op, q),
            OpOutcome::Unknown => r matches Ok((op, p)) && p == pos + 2 && op == Opcode::Unknown((be_u16(data@, pos as int) as u16)),
            OpOutcome::Fatal => r matches Err(e) && e == DecodeError::Fatal,
        },
{
    proof {
        reveal(end_reserved_for_apple_use67);
        reveal(args_reserved_for_apple_use67);
    }
    let p0 = pos + 2;
    Ok((Opcode::ReservedForAppleUse67, p0))
}

/// Reads the operands of `ReservedForAppleUse68`.
fn read_reserved_for_apple_use68(data: &[u8], pos: usize, code: u16) -> (r: Result<(Opcode, usize), DecodeError>)
    requires
        pos + 2 <= data.len(),
        code == (be_u16(data@, pos as int) as u16),
        code == 0x80FF,
    ensures
        match outcome(data@, pos as int) {
            OpOutcome::Eof => r matches Err(e) && e == DecodeError::Malformed,
            OpOutcome::Parsed(q) => r matches Ok((op, p)) && p == q && op_at(data@, pos as int, op, q),
            OpOutcome::Unknown => r matches Ok((op, p)) && p == pos + 2 && op == Opcode::Unknown((be_u16(data@, pos as int) as u16)),
            OpOutcome::Fatal => r matches Err(e) && e == DecodeError::Fatal,
        },
{
    proof {
        reveal(end_reserved_for_apple_use68);
        reveal(args_reserved_for_apple_use68);
    }
    let p0 = pos + 2;
    Ok((Opcode::ReservedForAppleUse68, p0))
}

/// Reads the operands of `ReservedForAppleUse69`.
fn read_reserved_for_apple_use69(data: &[u8], pos: usize, code: u16) -> (r: Result<(Opcode, usize), DecodeError>)
    requires
        pos + 2 <= data.len(),
        code == (be_u16(data@, pos as int) as u16),
        code == 0x8100,
    ensures
        match outcome(data@, pos as int) {
            OpOutcome::Eof => r matches Err(e) && e == DecodeError::Malformed,
            OpOutcome::Parsed(q) => r matches Ok((op, p)) && p == q && op_at(data@, pos as int, op, q),
            OpOutcome::Unknown => r matches Ok((op, p)) && p == pos + 2 && op == Opcode::Unknown((be_u16(data@, pos as int) as u16)),
            OpOutcome::Fatal => r matches Err(e) && e == DecodeError::Fatal,
        },
{
    proof {
        reveal(end_reserved_for_apple_use69);
        reveal(args_reserved_for_apple_use69);
    }
    let p0 = pos + 2;
    let (f0, p1) = match field_u32(data, p0) {
        Some(x) => x,
        None => return Ok((Opcode::Unknown(code), p0)),
    };
    let (f1, p2) = match field_bytes(data, p1, f0 as usize) {
        Some(x) => x,
        None => return Ok((Opcode::Unknown(code), p0)),
    };
    Ok((Opcode::ReservedForAppleUse69(f0, f1), p2))
}

/// Reads the operands of `CompressedQuickTime`.
fn read_compressed_quick_time(data: &[u8], pos: usize, code: u16) -> (r: Result<(Opcode, usize), DecodeError>)
    requires
        pos + 2 <= data.len(),
        code == (be_u16(data@, pos as int) as u16),
        code == 0x8200,
    ensures
        match outcome(data@, pos as int) {
            OpOutcome::Eof => r matches Err(e) && e == DecodeError::Malformed,
            OpOutcome::Parsed(q) => r matches Ok((op, p)) && p == q && op_at(data@, pos as int, op, q),
            OpOutcome::Unknown => r matches Ok((op, p)) && p == pos + 2 && op == Opcode::Unknown((be_u16(data@, pos as int) as u16)),
            OpOutcome::Fatal => r matches Err(e) && e == DecodeError::Fatal,
        },
{
    proof {
        reveal(end_compressed_quick_time);
        reveal(args_compressed_quick_time);
    }
    let p0 = pos + 2;
    let (f0, p1) = match field_u32(data, p0) {
        Some(x) => x,
        None => return Ok((Opcode::Unknown(code), p0)),
    };
    let (f1, p2) = match field_bytes(data, p1, f0 as usize) {
        Some(x) => x,
        None => return Ok((Opcode::Unknown(code), p0)),
    };
    Ok((Opcode::CompressedQuickTime(f0, f1), p2))
}

/// Reads the operands of `UncompressedQuickTime`.
fn read_uncompressed_quick_time(data: &[u8], pos: usize, code: u16) -> (r: Result<(Opcode, usize), DecodeError>)
    requires
        pos + 2 <= data.len(),
        code == (be_u16(data@, pos as int) as u16),
        code == 0x8201,
    ensures
        match outcome(data@, pos as int) {
            OpOutcome::Eof => r matches Err(e) && e == DecodeError::Malformed,
            OpOutcome::Parsed(q) => r matches Ok((op, p)) && p == q && op_at(data@, pos as int, op, q),
            OpOutcome::Unknown => r matches Ok((op, p)) && p == pos + 2 && op == Opcode::Unknown((be_u16(data@, pos as int) as u16)),
            OpOutcome::Fatal => r matches Err(e) && e == DecodeError::Fatal,
        },
{
    proof {
        reveal(end_uncompressed_quick_time);
        reveal(args_uncompressed_quick_time);
    }
    let p0 = pos + 2;
    let (f0, p1) = match field_u32(data, p0) {
        Some(x) => x,
        None => return Ok((Opcode::Unknown(code), p0)),
    };
    let (f1, p2) = match field_bytes(data, p1, f0 as usize) {
        Some(x) => x,
        None => return Ok((Opcode::Unknown(code), p0)),
    };
    Ok((Opcode::UncompressedQuickTime(f0, f1), p2))
}

/// Reads the operands of `ReservedForAppleUse70`.
fn read_reserved_for_apple_use70(data: &[u8], pos: usize, code: u16) -> (r: Result<(Opcode, usize), DecodeError>)
    requires
        pos + 2 <= data.len(),
        code == (be_u16(data@, pos as int) as u16),
        code == 0xFFFF,
    ensures
        match outcome(data@, pos as int) {
            OpOutcome::Eof => r matches Err(e) && e == DecodeError::Malformed,
            OpOutcome::Parsed(q) => r matches Ok((op, p)) && p == q && op_at(data@, pos as int, op, q),
            OpOutcome::Unknown => r matches Ok((op, p)) && p == pos + 2 && op == Opcode::Unknown((be_u16(data@, pos as int) as u16)),
            OpOutcome::Fatal => r matches Err(e) && e == DecodeError::Fatal,
        },
{
    proof {
        reveal(end_reserved_for_apple_use70);
        reveal(args_reserved_for_apple_use70);
    }
    let p0 = pos + 2;
    let (f0, p1) = match field_u32(data, p0) {
        Some(x) => x,
        None => return Ok((Opcode::Unknown(code), p0)),
    };
    let (f1, p2) = match field_bytes(data, p1, f0 as usize) {
        Some(x) => x,
        None => return Ok((Opcode::Unknown(code), p0)),
    };
    Ok((Opcode::ReservedForAppleUse70(f0, f1), p2))
}

/// Reads the opcode at `pos` and its operands: an opcode whose operands
/// cannot be read is `Unknown` and ends right after its code; a read past
/// the end is `Malformed`.
pub fn read_opcode(data: &[u8], pos: usize) -> (r: Result<(Opcode, usize), DecodeError>)
    ensures
        match outcome(data@, pos as int) {
            OpOutcome::Eof => r matches Err(e) && e == DecodeError::Malformed,
            OpOutcome::Parsed(q) => r matches Ok((op, p)) && p == q && op_at(data@, pos as int, op, q),
            OpOutcome::Unknown => r matches Ok((op, p)) && p == pos + 2 && op == Opcode::Unknown((be_u16(data@, pos as int) as u16)),
            OpOutcome::Fatal => r matches Err(e) && e == DecodeError::Fatal,
        },
{
    let code = match get_u16(data, pos) {
        Some(c) => c,
        None => return Err(DecodeError::Malformed),
    };
    match code {
        0x0000 => read_nop(data, pos, code),
        0x0001 => read_clip(data, pos, code),
        0x0002 => read_bk_pat(data, pos, code),
        0x0003 => read_tx_font(data, pos, code),
        0x0004 => read_tx_face(data, pos, code),
        0x0005 => read_tx_mode(data, pos, code),
        0x0006 => read_sp_extra(data, pos, code),
        0x0007 => read_pn_size(data, pos, code),
        0x0008 => read_pn_mode(data, pos, code),
        0x0009 => read_pn_pat(data, pos, code),
        0x000A => read_fill_pat(data, pos, code),
        0x000B => read_ov_size(data, pos, code),
        0x000C => read_origin(data, pos, code),
        0x000D => read_tx_size(data, pos, code),
        0x000E => read_fg_color(data, pos, code),
        0x000F => read_bk_color(data, pos, code),
        0x0010 => read_tx_ratio(data, pos, code),
        0x0011 => read_version_op(data, pos, code),
        0x0012 => read_bk_pix_pat(data, pos, code),
        0x0013 => read_pn_pix_pat(data, pos, code),
        0x0014 => read_fill_pix_pat(data, pos, code),
        0x0015 => read_pn_loc_h_frac(data, pos, code),
        0x0016 => read_ch_extra(data, pos, code),
        0x0017 => read_reserved_for_apple_use(data, pos, code),
        0x0018 => read_reserved_for_apple_use1(data, pos, code),
        0x0019 => read_reserved_for_apple_use2(data, pos, code),
        0x001A => read_rgb_fg_color(data, pos, code),
        0x001B => read_rgb_bk_col(data, pos, code),
        0x001C => read_hilite_mode(data, pos, code),
        0x001D => read_hilite_color(data, pos, code),
        0x001E => read_def_hilite(data, pos, code),
        0x001F => read_op_color(data, pos, code),
        0x0020 => read_line(data, pos, code),
        0x0021 => read_line_from(data, pos, code),
        0x0022 => read_short_line(data, pos, code),
        0x0023 => read_short_line_from(data, pos, code),
        0x0024 => read_reserved_for_apple_use3(data, pos, code),
        0x0025 => read_reserved_for_apple_use4(data, pos, code),
        0x0026 => read_reserved_for_apple_use5(data, pos, code),
        0x0027 => read_reserved_for_apple_use6(data, pos, code),
        0x0028 => read_long_text(data, pos, code),
        0x0029 => read_dh_text(data, pos, code),
        0x002A => read_dv_text(data, pos, code),
        0x002B => read_dhdv_text(data, pos, code),
        0x002C => read_font_name(data, pos, code),
        0x002D => read_line_justify(data, pos, code),
        0x002E => read_glyph_state(data, pos, code),
        0x002F => read_reserved_for_apple_use7(data, pos, code),
        0x0030 => read_frame_rect(data, pos, code),
        0x0031 => read_paint_rect(data, pos, code),
        0x0032 => read_erase_rect(data, pos, code),
        0x0033 => read_invert_rect(data, pos, code),
        0x0034 => read_fill_rect(data, pos, code),
        0x0035 => read_reserved_for_apple_use8(data, pos, code),
        0x0036 => read_reserved_for_apple_use9(data, pos, code),
        0x0037 => read_reserved_for_apple_use10(data, pos, code),
        0x0038 => read_frame_same_rect(data, pos, code),
        0x0039 => read_paint_same_rect(data, pos, code),
        0x003A => read_erase_same_rect(data, pos, code),
        0x003B => read_invert_same_rect(data, pos, code),
        0x003C => read_fill_same_rect(data, pos, code),
        0x003D => read_reserved_for_apple_use11(data, pos, code),
        0x003E => read_reserved_for_apple_use12(data, pos, code),
        0x003F => read_reserved_for_apple_use13(data, pos, code),
        0x0040 => read_frame_r_rect(data, pos, code),
        0x0041 => read_paint_r_rect(data, pos, code),
        0x0042 => read_erase_r_rect(data, pos, code),
        0x0043 => read_invert_r_rect(data, pos, code),
        0x0044 => read_fill_r_rect(data, pos, code),
        0x0045 => read_reserved_for_apple_use14(data, pos, code),
        0x0046 => read_reserved_for_apple_use15(data, pos, code),
        0x0047 => read_reserved_for_apple_use16(data, pos, code),
        0x0048 => read_frame_same_r_rect(data, pos, code),
        0x0049 => read_paint_same_r_rect(data, pos, code),
        0x004A => read_erase_same_r_rect(data, pos, code),
        0x004B => read_invert_same_r_rect(data, pos, code),
        0x004C => read_fill_same_r_rect(data, pos, code),
        0x004D => read_reserved_for_apple_use17(data, pos, code),
        0x004E => read_reserved_for_apple_use18(data, pos, code),
        0x004F => read_reserved_for_apple_use19(data, pos, code),
        0x0050 => read_frame_oval(data, pos, code),
        0x0051 => read_paint_oval(data, pos, code),
        0x0052 => read_erase_oval(data, pos, code),
        0x0053 => read_invert_oval(data, pos, code),
        0x0054 => read_fill_oval(data, pos, code),
        0x0055 => read_reserved_for_apple_use20(data, pos, code),
        0x0056 => read_reserved_for_apple_use21(data, pos, code),
        0x0057 => read_reserved_for_apple_use22(data, pos, code),
        0x0058 => read_frame_same_oval(data, pos, code),
        0x0059 => read_paint_same_oval(data, pos, code),
        0x005A => read_erase_same_oval(data, pos, code),
        0x005B => read_invert_same_oval(data, pos, code),
        0x005C => read_fill_same_oval(data, pos, code),
        0x005D => read_reserved_for_apple_use23(data, pos, code),
        0x005E => read_reserved_for_apple_use24(data, pos, code),
        0x005F => read_reserved_for_apple_use25(data, pos, code),
        0x0060 => read_frame_arc(data, pos, code),
        0x0061 => read_paint_arc(data, pos, code),
        0x0062 => read_erase_arc(data, pos, code),
        0x0063 => read_invert_arc(data, pos, code),
        0x0064 => read_fill_arc(data, pos, code),
        0x0065 => read_reserved_for_apple_use26(data, pos, code),
        0x0066 => read_reserved_for_apple_use27(data, pos, code),
        0x0067 => read_reserved_for_apple_use28(data, pos, code),
        0x0068 => read_frame_same_arc(data, pos, code),
        0x0069 => read_paint_same_arc(data, pos, code),
        0x006A => read_erase_same_arc(data, pos, code),
        0x006B => read_invert_same_arc(data, pos, code),
        0x006C => read_fill_same_arc(data, pos, code),
        0x006D => read_reserved_for_apple_use29(data, pos, code),
        0x006E => read_reserved_for_apple_use30(data, pos, code),
        0x006F => read_reserved_for_apple_use31(data, pos, code),
        0x0070 => read_frame_poly(data, pos, code),
        0x0071 => read_paint_poly(data, pos, code),
        0x0072 => read_erase_poly(data, pos, code),
        0x0073 => read_invert_poly(data, pos, code),
        0x0074 => read_fill_poly(data, pos, code),
        0x0075 => read_reserved_for_apple_use32(data, pos, code),
        0x0076 => read_reserved_for_apple_use33(data, pos, code),
        0x0077 => read_reserved_for_apple_use34(data, pos, code),
        0x0078 => read_frame_same_poly(data, pos, code),
        0x0079 => read_paint_same_poly(data, pos, code),
        0x007A => read_erase_same_poly(data, pos, code),
        0x007B => read_invert_same_poly(data, pos, code),
        0x007C => read_fill_same_poly(data, pos, code),
        0x007D => read_reserved_for_apple_use35(data, pos, code),
        0x007E => read_reserved_for_apple_use36(data, pos, code),
        0x007F => read_reserved_for_apple_use37(data, pos, code),
        0x0080 => read_frame_rgn(data, pos, code),
        0x0081 => read_paint_rgn(data, pos, code),
        0x0082 => read_erase_rgn(data, pos, code),
        0x0083 => read_invert_rgn(data, pos, code),
        0x0084 => read_fill_rgn(data, pos, code),
        0x0085 => read_reserved_for_apple_use38(data, pos, code),
        0x0086 => read_reserved_for_apple_use39(data, pos, code),
        0x0087 => read_reserved_for_apple_use40(data, pos, code),
        0x0088 => read_frame_same_rgn(data, pos, code),
        0x0089 => read_paint_same_rgn(data, pos, code),
        0x008A => read_erase_same_rgn(data, pos, code),
        0x008B => read_invert_same_rgn(data, pos, code),
        0x008C => read_fill_same_rgn(data, pos, code),
        0x008D => read_reserved_for_apple_use41(data, pos, code),
        0x008E => read_reserved_for_apple_use42(data, pos, code),
        0x008F => read_reserved_for_apple_use43(data, pos, code),
        0x0090 => read_bits_rect(data, pos, code),
        0x0091 => read_bits_rgn(data, pos, code),
        0x0092 => read_reserved_for_apple_use44(data, pos, code),
        0x0093 => read_reserved_for_apple_use45(data, pos, code),
        0x0094 => read_reserved_for_apple_use46(data, pos, code),
        0x0095 => read_reserved_for_apple_use47(data, pos, code),
        0x0096 => read_reserved_for_apple_use48(data, pos, code),
        0x0097 => read_reserved_for_apple_use49(data, pos, code),
        0x0098 => read_pack_bits_rect(data, pos, code),
        0x0099 => read_pack_bits_rgn(data, pos, code),
        0x009A => read_direct_bits_rect(data, pos, code),
        0x009B => read_direct_bits_rgn(data, pos, code),
        0x009C => read_reserved_for_apple_use50(data, pos, code),
        0x009D => read_reserved_for_apple_use51(data, pos, code),
        0x009E => read_reserved_for_apple_use52(data, pos, code),
        0x009F => read_reserved_for_apple_use53(data, pos, code),
        0x00A0 => read_short_comment(data, pos, code),
        0x00A1 => read_long_comment(data, pos, code),
        0x00A2 => read_reserved_for_apple_use54(data, pos, code),
        0x00AF => read_reserved_for_apple_use55(data, pos, code),
        0x00B0 => read_reserved_for_apple_use56(data, pos, code),
        0x00CF => read_reserved_for_apple_use57(data, pos, code),
        0x00D0 => read_reserved_for_apple_use58(data, pos, code),
        0x00FE => read_reserved_for_apple_use59(data, pos, code),
        0x00FF => read_op_end_pic(data, pos, code),
        0x0100 => read_reserved_for_apple_use60(data, pos, code),
        0x01FF => read_reserved_for_apple_use61(data, pos, code),
        0x0200 => read_reserved_for_apple_use62(data, pos, code),
        0x02FF => read_version(data, pos, code),
        0x0BFF => read_reserved_for_apple_use63(data, pos, code),
        0x0C00 => read_header_op(data, pos, code),
        0x0C01 => read_reserved_for_apple_use64(data, pos, code),
        0x7F00 => read_reserved_for_apple_use65(data, pos, code),
        0x7FFF => read_reserved_for_apple_use66(data, pos, code),
        0x8000 => read_reserved_for_apple_use67(data, pos, code),
        0x80FF => read_reserved_for_apple_use68(data, pos, code),
        0x8100 => read_reserved_for_apple_use69(data, pos, code),
        0x8200 => read_compressed_quick_time(data, pos, code),
        0x8201 => read_uncompressed_quick_time(data, pos, code),
        0xFFFF => read_reserved_for_apple_use70(data, pos, code),
        _ => Ok((Opcode::Unknown(code), pos + 2)),
    }
}

} // verus!
