//! Small PICT records: comment kinds, Pascal strings, fixed-size byte
//! blocks, the extended version 2 header and the version marker.

use vstd::prelude::*;
use crate::bytes::{be_u16, be_i32, be_u32, get_i32, get_u32, get_u8};
use crate::shared::{Fixed, ShortString};
use crate::parse::{fixed_at, read_fixed, short_string_end};
use crate::course_file::{lossy_decode, lossy_string};

verus! {

/// Structured QuickDraw comment kind.
#[derive(Debug, Clone, Copy, PartialEq, Eq, Structural)]
pub enum CommentKind {
    /// Archaic grouping command
    LParen,
    /// Ends group begun by RParen
    RParen,
    /// Application-specific comment
    AppComment,
    /// Begin MacDraw picture
    DwgBeg,
    /// End MacDraw picture
    DwgEnd,
    /// Begin grouped objects
    GrpBeg,
    /// End grouped objects
    GrpEnd,
    /// Begin series of bitmap bands
    BitBeg,
    /// End of bitmap bands
    BitEnd,
    /// Beginning of a text string
    TextBegin,
    /// End of text string
    TextEnd,
    /// Beginning of banded string
    StringBegin,
    /// End of banded string
    StringEnd,
    /// Center of rotation to TextBegin
    TextCenter,
    /// Turns off line layout
    LineLayoutOff,
    /// Turns on line layout
    LineLayoutOn,
    /// Specify line layout for next text call
    LineLayout,
    /// Following LineTo() operations are part of a polygon
    PolyBegin,
    /// End of special MacDraw polygon
    PolyEnd,
    /// Following data part of freehand curve
    PlyByt,
    /// Ignore the following polygon
    PolyIgnore,
    /// Close, fill, frame a polygon
    PolySmooth,
    /// MacDraw polygon is closed
    PlyClose,
    /// One arrow from point1 to point2
    Arrw1,
    /// One arrow from point2 to point1
    Arrw2,
    /// Two arrows, one on each end of a line
    Arrw3,
    /// End of arrow comment
    ArrwEnd,
    /// Subsequent lines are PostScript dashed lines
    DashedLine,
    /// Ends picDashedLine comment
    DashedStop,
    /// Mult. fraction for pen size
    SetLineWidth,
    /// Saves QD state; and send PostScript
    PostScriptBegin,
    /// Restore QD state
    PostScriptEnd,
    /// Remaining data is PostScript
    PostScriptHandle,
    /// Use filename to send 'POST' resources
    PostScriptFile,
    /// QD text is PostScript until PostScriptEnd
    TextIsPostScript,
    /// Send PostScript from 'STR ' or 'STR#' resources
    ResourcePS,
    /// Like PostScriptBegin
    NewPostScriptBegin,
    /// Set gray level from fixed-point number
    SetGrayLevel,
    /// Begin rotation of the coordinate plane
    RotateBegin,
    /// End rotated plane
    RotateEnd,
    /// Specifies center of rotation
    RotateCenter,
    /// Don't flush print buffer after each page
    FormsPrinting,
    /// Ends forms printing
    EndFormsPrinting,
    /// used by MacDraw II
    AutoNap,
    /// used by MacDraw II
    AutoWake,
    /// used by MacDraw II
    ManNap,
    /// used by MacDraw II
    ManWake,
    /// File creator for application
    Creator,
    /// Scaling of image
    PICTScale,
    /// Begin bitmap thinning
    BegBitmapThin,
    /// End bitmap thinning
    EndBitmapThin,
    /// Image in the scrap created using lasso
    Lasso,
    /// Any other kind.
    Unknown(u16),
}

/// The comment kind a stored code denotes.
pub open spec fn comment_kind_of(v: u16) -> CommentKind {
    if v == 0 {
        CommentKind::LParen
    } else if v == 1 {
        CommentKind::RParen
    } else if v == 100 {
        CommentKind::AppComment
    } else if v == 130 {
        CommentKind::DwgBeg
    } else if v == 131 {
        CommentKind::DwgEnd
    } else if v == 140 {
        CommentKind::GrpBeg
    } else if v == 141 {
        CommentKind::GrpEnd
    } else if v == 142 {
        CommentKind::BitBeg
    } else if v == 143 {
        CommentKind::BitEnd
    } else if v == 150 {
        CommentKind::TextBegin
    } else if v == 151 {
        CommentKind::TextEnd
    } else if v == 152 {
        CommentKind::StringBegin
    } else if v == 153 {
        CommentKind::StringEnd
    } else if v == 154 {
        CommentKind::TextCenter
    } else if v == 155 {
        CommentKind::LineLayoutOff
    } else if v == 156 {
        CommentKind::LineLayoutOn
    } else if v == 157 {
        CommentKind::LineLayout
    } else if v == 160 {
        CommentKind::PolyBegin
    } else if v == 161 {
        CommentKind::PolyEnd
    } else if v == 162 {
        CommentKind::PlyByt
    } else if v == 163 {
        CommentKind::PolyIgnore
    } else if v == 164 {
        CommentKind::PolySmooth
    } else if v == 165 {
        CommentKind::PlyClose
    } else if v == 170 {
        CommentKind::Arrw1
    } else if v == 171 {
        CommentKind::Arrw2
    } else if v == 172 {
        CommentKind::Arrw3
    } else if v == 173 {
        CommentKind::ArrwEnd
    } else if v == 180 {
        CommentKind::DashedLine
    } else if v == 181 {
        CommentKind::DashedStop
    } else if v == 182 {
        CommentKind::SetLineWidth
    } else if v == 190 {
        CommentKind::PostScriptBegin
    } else if v == 191 {
        CommentKind::PostScriptEnd
    } else if v == 192 {
        CommentKind::PostScriptHandle
    } else if v == 193 {
        CommentKind::PostScriptFile
    } else if v == 194 {
        CommentKind::TextIsPostScript
    } else if v == 195 {
        CommentKind::ResourcePS
    } else if v == 196 {
        CommentKind::NewPostScriptBegin
    } else if v == 197 {
        CommentKind::SetGrayLevel
    } else if v == 200 {
        CommentKind::RotateBegin
    } else if v == 201 {
        CommentKind::RotateEnd
    } else if v == 202 {
        CommentKind::RotateCenter
    } else if v == 210 {
        CommentKind::FormsPrinting
    } else if v == 211 {
        CommentKind::EndFormsPrinting
    } else if v == 214 {
        CommentKind::AutoNap
    } else if v == 215 {
        CommentKind::AutoWake
    } else if v == 216 {
        CommentKind::ManNap
    } else if v == 217 {
        CommentKind::ManWake
    } else if v == 498 {
        CommentKind::Creator
    } else if v == 499 {
        CommentKind::PICTScale
    } else if v == 1000 {
        CommentKind::BegBitmapThin
    } else if v == 1001 {
        CommentKind::EndBitmapThin
    } else if v == 12345 {
        CommentKind::Lasso
    } else {
        CommentKind::Unknown(v)
    }
}

impl CommentKind {
    /// The comment kind a stored code denotes.
    pub fn from_code(v: u16) -> (k: Self)
        ensures
            k == comment_kind_of(v),
    {
        match v {
            0 => CommentKind::LParen,
            1 => CommentKind::RParen,
            100 => CommentKind::AppComment,
            130 => CommentKind::DwgBeg,
            131 => CommentKind::DwgEnd,
            140 => CommentKind::GrpBeg,
            141 => CommentKind::GrpEnd,
            142 => CommentKind::BitBeg,
            143 => CommentKind::BitEnd,
            150 => CommentKind::TextBegin,
            151 => CommentKind::TextEnd,
            152 => CommentKind::StringBegin,
            153 => CommentKind::StringEnd,
            154 => CommentKind::TextCenter,
            155 => CommentKind::LineLayoutOff,
            156 => CommentKind::LineLayoutOn,
            157 => CommentKind::LineLayout,
            160 => CommentKind::PolyBegin,
            161 => CommentKind::PolyEnd,
            162 => CommentKind::PlyByt,
            163 => CommentKind::PolyIgnore,
            164 => CommentKind::PolySmooth,
            165 => CommentKind::PlyClose,
            170 => CommentKind::Arrw1,
            171 => CommentKind::Arrw2,
            172 => CommentKind::Arrw3,
            173 => CommentKind::ArrwEnd,
            180 => CommentKind::DashedLine,
            181 => CommentKind::DashedStop,
            182 => CommentKind::SetLineWidth,
            190 => CommentKind::PostScriptBegin,
            191 => CommentKind::PostScriptEnd,
            192 => CommentKind::PostScriptHandle,
            193 => CommentKind::PostScriptFile,
            194 => CommentKind::TextIsPostScript,
            195 => CommentKind::ResourcePS,
            196 => CommentKind::NewPostScriptBegin,
            197 => CommentKind::SetGrayLevel,
            200 => CommentKind::RotateBegin,
            201 => CommentKind::RotateEnd,
            202 => CommentKind::RotateCenter,
            210 => CommentKind::FormsPrinting,
            211 => CommentKind::EndFormsPrinting,
            214 => CommentKind::AutoNap,
            215 => CommentKind::AutoWake,
            216 => CommentKind::ManNap,
            217 => CommentKind::ManWake,
            498 => CommentKind::Creator,
            499 => CommentKind::PICTScale,
            1000 => CommentKind::BegBitmapThin,
            1001 => CommentKind::EndBitmapThin,
            12345 => CommentKind::Lasso,
            _ => CommentKind::Unknown(v),
        }
    }
}


/// The characters of the Pascal string at `pos`, decoded lossily as UTF-8.
pub open spec fn short_string_chars(s: Seq<u8>, pos: int) -> Seq<char> {
    lossy_decode(s.subrange(pos + 1, pos + 1 + s[pos]))
}

/// Reads a Pascal string (a length byte and that many bytes) and decodes
/// it lossily as UTF-8.
pub fn read_short_string(data: &[u8], pos: usize) -> (r: Option<(String, usize)>)
    ensures
        match short_string_end(data@, pos as int) {
            Some(q) => r matches Some((st, p)) && p == q && st@ == short_string_chars(data@, pos as int),
            None => r is None,
        },
{
    let len = get_u8(data, pos)?;
    if data.len() - (pos + 1) < len as usize {
        return None;
    }
    let end = pos + 1 + len as usize;
    let slice = slice_range(data, pos + 1, end);
    Some((lossy_string(slice), end))
}

/// Reads a Pascal string record.
pub fn read_short_string_record(data: &[u8], pos: usize) -> (r: Option<(ShortString, usize)>)
    ensures
        match short_string_end(data@, pos as int) {
            Some(q) => r matches Some((st, p)) && p == q && st.string@ == short_string_chars(data@, pos as int),
            None => r is None,
        },
{
    let (string, p) = read_short_string(data, pos)?;
    Some((ShortString { string }, p))
}

/// The bytes `[start, end)` of `data`.
fn slice_range(data: &[u8], start: usize, end: usize) -> (r: &[u8])
    requires
        start <= end <= data@.len(),
    ensures
        r@ == data@.subrange(start as int, end as int),
{
    let (head, _) = data.split_at(end);
    let (_, tail) = head.split_at(start);
    tail
}

/// Reads `N` bytes into an array.
pub fn read_array<const N: usize>(data: &[u8], pos: usize) -> (r: Option<([u8; N], usize)>)
    ensures
        match r {
            Some((a, p)) => pos + N <= data@.len() && a@ == data@.subrange(pos as int, pos + N) && p == pos + N,
            None => pos + N > data@.len(),
        },
{
    if pos > data.len() || data.len() - pos < N {
        return None;
    }
    let mut a = [0u8; N];
    let mut k: usize = 0;
    while k < N
        invariant
            k <= N,
            pos + N <= data.len(),
            a@.len() == N,
            forall|j: int| 0 <= j < k ==> #[trigger] a@[j] == data@[pos + j],
        decreases N - k,
    {
        a[k] = data[pos + k];
        k += 1;
    }
    assert(a@ =~= data@.subrange(pos as int, pos + N));
    Some((a, pos + N))
}

/// Fixed-point rectangle of the extended version 2 header.
#[derive(Debug, Clone, Copy, PartialEq, Eq, Structural)]
pub struct FixedRect {
    pub left: Fixed,
    pub top: Fixed,
    pub right: Fixed,
    pub bottom: Fixed,
}

/// Minor version of a version 2 picture header.
#[derive(Debug, Clone, Copy, PartialEq, Eq, Structural)]
pub enum MinorVersion {
    Normal,
    Extended,
    Unknown(i32),
}

/// The minor version a stored code denotes (-1 normal, -2 extended).
pub open spec fn minor_version_of(v: i32) -> MinorVersion {
    if v == -1 {
        MinorVersion::Normal
    } else if v == -2 {
        MinorVersion::Extended
    } else {
        MinorVersion::Unknown(v)
    }
}

/// Version 2 picture header record.
#[derive(Debug, Clone, Copy, PartialEq, Eq, Structural)]
pub struct Header {
    pub version: MinorVersion,
    /// fixed-point bounding rectangle for picture
    pub bounds: FixedRect,
    /// reserved
    pub reserved: u32,
}

/// The header record stored at `pos` (24 bytes).
pub open spec fn header_at(s: Seq<u8>, pos: int) -> Header {
    Header {
        version: minor_version_of(be_i32(s, pos) as i32),
        bounds: FixedRect {
            left: fixed_at(s, pos + 4),
            top: fixed_at(s, pos + 8),
            right: fixed_at(s, pos + 12),
            bottom: fixed_at(s, pos + 16),
        },
        reserved: be_u32(s, pos + 20) as u32,
    }
}

/// Reads a version 2 header record.
pub fn read_header(data: &[u8], pos: usize) -> (r: Option<(Header, usize)>)
    ensures
        match r {
            Some((h, p)) => pos + 24 <= data@.len() && h == header_at(data@, pos as int) && p == pos + 24,
            None => pos + 24 > data@.len(),
        },
{
    if pos > data.len() || data.len() - pos < 24 {
        return None;
    }
    let v = get_i32(data, pos)?;
    let version = if v == -1 {
        MinorVersion::Normal
    } else if v == -2 {
        MinorVersion::Extended
    } else {
        MinorVersion::Unknown(v)
    };
    let (left, _) = read_fixed(data, pos + 4)?;
    let (top, _) = read_fixed(data, pos + 8)?;
    let (right, _) = read_fixed(data, pos + 12)?;
    let (bottom, _) = read_fixed(data, pos + 16)?;
    let reserved = get_u32(data, pos + 20)?;
    Some((Header { version, bounds: FixedRect { left, top, right, bottom }, reserved }, pos + 24))
}

/// PICT file major version marker found in the picture stream.
#[derive(Debug, Clone, Copy, PartialEq, Eq, Structural)]
pub enum PictVersion {
    /// PICT v1 marker (`0x11` and a version byte).
    Version1(u8),
    /// Extended PICT v2 marker (`0x0011`).
    Version2,
}

impl PictVersion {
    /// Returns `true` when this marker is PICT v2.
    pub fn is_version2(&self) -> (b: bool)
        ensures
            b == (*self is Version2),
    {
        matches!(self, Self::Version2)
    }
}

/// The version marker at `pos` with the position after it: `0x11` and a
/// version byte for version 1, the word `0x0011` for version 2.
pub open spec fn version_at(s: Seq<u8>, pos: int) -> Option<(PictVersion, int)> {
    if 0 <= pos && pos + 2 <= s.len() && s[pos] == 0x11 {
        Some((PictVersion::Version1(s[pos + 1]), pos + 2))
    } else if 0 <= pos && pos + 2 <= s.len() && s[pos] == 0 && s[pos + 1] == 0x11 {
        Some((PictVersion::Version2, pos + 2))
    } else {
        None
    }
}

/// Reads a version marker.
pub fn read_version(data: &[u8], pos: usize) -> (r: Option<(PictVersion, usize)>)
    ensures
        match version_at(data@, pos as int) {
            Some((v, q)) => r matches Some((rv, p)) && rv == v && p == q,
            None => r is None,
        },
{
    let a = get_u8(data, pos)?;
    let b = get_u8(data, pos + 1)?;
    if a == 0x11 {
        Some((PictVersion::Version1(b), pos + 2))
    } else if a == 0 && b == 0x11 {
        Some((PictVersion::Version2, pos + 2))
    } else {
        None
    }
}

} // verus!
