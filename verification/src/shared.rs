//! QuickDraw data structures shared by PICT v1 and v2.

use vstd::prelude::*;

verus! {

/// Signed 16-bit QuickDraw scalar.
pub type Short = i16;

/// QuickDraw rectangle, using top/left/bottom/right coordinates.
#[derive(Debug, Clone, Copy, PartialEq, Eq, Structural)]
pub struct Rect {
    /// Top Y coordinate.
    pub top: Short,
    /// Left X coordinate.
    pub left: Short,
    /// Bottom Y coordinate.
    pub bottom: Short,
    /// Right X coordinate.
    pub right: Short,
}

/// 2D point used by QuickDraw commands.
#[derive(Debug, Clone, Copy, PartialEq, Eq, Structural)]
pub struct Point {
    /// Horizontal coordinate.
    pub x: i16,
    /// Vertical coordinate.
    pub y: i16,
}

/// The decimal digit character for `d` (0 to 9).
pub open spec fn digit_char(d: int) -> char {
    if d == 0 { '0' } else if d == 1 { '1' } else if d == 2 { '2' } else if d == 3 { '3' }
    else if d == 4 { '4' } else if d == 5 { '5' } else if d == 6 { '6' } else if d == 7 { '7' }
    else if d == 8 { '8' } else { '9' }
}

/// The decimal digits of `n`, most significant first, without leading
/// zeros (`0` for zero).
pub open spec fn decimal_digits(n: nat) -> Seq<char>
    decreases n,
{
    if n < 10 {
        seq![digit_char(n as int)]
    } else {
        decimal_digits(n / 10).push(digit_char((n % 10) as int))
    }
}

/// An integer written in decimal, with a leading `-` when negative.
pub open spec fn decimal_text(v: int) -> Seq<char> {
    if v < 0 { seq!['-'] + decimal_digits((-v) as nat) } else { decimal_digits(v as nat) }
}

/// Appends the decimal digits of `n` to `out`.
fn push_digits(out: &mut Vec<char>, n: u32)
    ensures
        final(out)@ == old(out)@ + decimal_digits(n as nat),
    decreases n,
{
    if n >= 10 {
        push_digits(out, n / 10);
    }
    let d = n % 10;
    let c = if d == 0 { '0' } else if d == 1 { '1' } else if d == 2 { '2' } else if d == 3 { '3' }
        else if d == 4 { '4' } else if d == 5 { '5' } else if d == 6 { '6' } else if d == 7 { '7' }
        else if d == 8 { '8' } else { '9' };
    out.push(c);
    proof {
        if n < 10 {
            assert(decimal_digits(n as nat) == seq![digit_char(n as int)]);
        }
    }
}

/// Appends `v` written in decimal to `out`.
fn push_decimal(out: &mut Vec<char>, v: i16)
    ensures
        final(out)@ == old(out)@ + decimal_text(v as int),
{
    if v < 0 {
        out.push('-');
        let m: u32 = (0 - (v as i32)) as u32;
        push_digits(out, m);
        assert(old(out)@.push('-') + decimal_digits(m as nat) == old(out)@ + (seq!['-'] + decimal_digits(m as nat)));
    } else {
        push_digits(out, v as u32);
    }
}

impl Point {
    /// The point as text, `<x>x<y>` (as its `Display` form writes it).
    pub fn to_text(&self) -> (s: String)
        ensures
            s@ == decimal_text(self.x as int) + seq!['x'] + decimal_text(self.y as int),
    {
        let mut chars: Vec<char> = Vec::new();
        push_decimal(&mut chars, self.x);
        chars.push('x');
        push_decimal(&mut chars, self.y);
        crate::text::string_from_chars(&chars)
    }
}

impl Rect {
    /// The rectangle's height, `bottom - top`, as a mathematical integer.
    pub open spec fn spec_height(self) -> int {
        self.bottom - self.top
    }

    /// The rectangle's width, `right - left`, as a mathematical integer.
    pub open spec fn spec_width(self) -> int {
        self.right - self.left
    }

    /// Whether `(x, y)` lies in the half-open area `[left, right) x [top, bottom)`.
    pub open spec fn spec_includes(self, x: int, y: int) -> bool {
        self.left <= x < self.right && self.top <= y < self.bottom
    }

    /// Whether `other` lies within this rectangle.
    pub open spec fn spec_contains(self, other: Rect) -> bool {
        self.left <= other.left && self.top <= other.top && self.right >= other.right
            && self.bottom >= other.bottom
    }

    /// Creates a rectangle with origin at `(0, 0)` and the given size.
    pub fn new_with_size(width: Short, height: Short) -> (r: Self)
        ensures
            r.top == 0,
            r.left == 0,
            r.spec_width() == width,
            r.spec_height() == height,
    {
        Self { top: 0, left: 0, bottom: height, right: width }
    }

    /// Returns rectangle height.
    pub fn height(&self) -> (h: Short)
        requires
            i16::MIN <= self.spec_height() <= i16::MAX,
        ensures
            h == self.spec_height(),
    {
        self.bottom - self.top
    }

    /// Returns rectangle width.
    pub fn width(&self) -> (w: Short)
        requires
            i16::MIN <= self.spec_width() <= i16::MAX,
        ensures
            w == self.spec_width(),
    {
        self.right - self.left
    }

    /// Returns the top-left point.
    pub fn origin(&self) -> (p: Point)
        ensures
            p.x == self.left,
            p.y == self.top,
    {
        Point { x: self.left, y: self.top }
    }

    /// Returns `true` when `other` is fully contained by this rectangle.
    pub fn contains(&self, other: &Rect) -> (b: bool)
        ensures
            b == self.spec_contains(*other),
    {
        self.min_x() <= other.min_x() && self.min_y() <= other.min_y() && self.max_x()
            >= other.max_x() && self.max_y() >= other.max_y()
    }

    /// Returns `true` when the given point lies inside this rectangle.
    pub fn includes(&self, x: i32, y: i32) -> (b: bool)
        ensures
            b == self.spec_includes(x as int, y as int),
    {
        self.min_x() as i32 <= x && (self.max_x() as i32) > x && self.min_y() as i32 <= y && (
        self.max_y() as i32) > y
    }

    /// Minimum X coordinate.
    pub fn min_x(&self) -> (r: Short)
        ensures
            r == self.left,
    {
        self.left
    }

    /// Maximum X coordinate.
    pub fn max_x(&self) -> (r: Short)
        ensures
            r == self.right,
    {
        self.right
    }

    /// Minimum Y coordinate.
    pub fn min_y(&self) -> (r: Short)
        ensures
            r == self.top,
    {
        self.top
    }

    /// Maximum Y coordinate.
    pub fn max_y(&self) -> (r: Short)
        ensures
            r == self.bottom,
    {
        self.bottom
    }
}

} // verus!

verus! {

/// Unsigned 32-bit QuickDraw scalar.
pub type Long = u32;

/// Arc angle in degrees used by arc opcodes.
pub type Angle = u16;

/// Why a PICT structure could not be read.
#[derive(Debug, Clone, Copy, PartialEq, Eq, Structural)]
pub enum DecodeError {
    /// The data ended early or does not fit the structure; a picture stream
    /// treats the opcode as unknown.
    Malformed,
    /// The data asks for something the decoder gives up on (an unsupported
    /// packing, pixel format or size); decoding stops.
    Fatal,
}

/// 16.16 fixed-point number used by QuickDraw.
#[derive(Debug, Clone, Copy, PartialEq, Eq, Structural)]
pub struct Fixed {
    /// Signed integer part.
    pub int: i16,
    /// Fractional part.
    pub fraction: i16,
}

/// RGB color in QuickDraw 16-bit channel format.
#[derive(Debug, Clone, Copy, PartialEq, Eq, Structural)]
pub struct RGBColor {
    /// magnitude of red component
    pub red: u16,
    /// magnitude of green component
    pub green: u16,
    /// magnitude of blue component
    pub blue: u16,
}

/// Color table entry.
#[derive(Debug, Clone, Copy, PartialEq, Eq, Structural)]
pub struct ColorSpec {
    /// index or other value
    pub value: Short,
    /// true color
    pub rgb: RGBColor,
}

/// QuickDraw color table used for indexed pixmaps.
#[derive(Debug, Clone)]
pub struct ColorTable {
    /// unique identifier for table
    pub ct_seed: u32,
    /// high bit: 0 = PixMap; 1 = device
    pub ct_flags: u16,
    ///  array[0..0] of ColorSpec records
    pub ct_table: Vec<ColorSpec>,
}

impl ColorTable {
    /// Creates an empty color table.
    pub fn new() -> (r: Self)
        ensures
            r.ct_seed == 0,
            r.ct_flags == 0,
            r.ct_table@.len() == 0,
    {
        ColorTable { ct_seed: 0, ct_flags: 0, ct_table: Vec::new() }
    }
}

impl Default for ColorTable {
    /// An empty color table.
    fn default() -> (r: Self)
        ensures
            r.ct_seed == 0,
            r.ct_flags == 0,
            r.ct_table@.len() == 0,
    {
        ColorTable::new()
    }
}

/// 8-byte monochrome pattern.
#[derive(Debug, Clone, Copy)]
pub struct Pattern {
    /// Pattern bit data.
    pub data: [u8; 8],
}

/// Generic counted byte buffer.
#[derive(Debug, Clone)]
pub struct Buffer {
    /// Number of bytes in `data`.
    pub len: u16,
    /// Buffer payload bytes.
    pub data: Vec<u8>,
}

/// Polygon payload used by poly drawing opcodes.
#[derive(Debug, Clone)]
pub struct Polygon {
    /// Size of the polygon record.
    pub size: u16,
    /// Raw polygon point payload bytes.
    pub data: Vec<u8>,
}

/// Pascal-style short string (`len` followed by bytes).
#[derive(Debug, Clone)]
pub struct ShortString {
    /// Decoded UTF-8 lossy string payload.
    pub string: String,
}

/// source modes for color graphics ports
#[derive(Debug, Clone, Copy, PartialEq, Eq, Structural)]
pub enum SourceMode {
    /// assign foreground color where the source is black and background
    /// color where it is white
    SrcCopy,
    /// assign foreground color where the source is black
    SrcOr,
    /// where the source pixel is black, invert the destination pixel
    SrcXor,
    /// assign background color where the source is black
    SrcBic,
    /// assign background color where the source is black and foreground
    /// color where it is white
    NotSrcCopy,
    /// assign foreground color where the source is white
    NotSrcOr,
    /// where the source pixel is white, invert the destination pixel
    NotSrcXor,
    /// assign background color where the source is white
    NotSrcBic,
}

/// QuickDraw transfer mode used when compositing source and destination pixels.
#[derive(Debug, Clone, Copy, PartialEq, Eq, Structural)]
pub enum TransferMode {
    SrcCopy,
    NotCopy,
    SrcOr,
    NotSrcOr,
    SrcXor,
    NotSrcXor,
    SrcBic,
    NotSrcBic,
    Blend,
    AddPin,
    AddOver,
    SubPin,
    Transparent,
    AddMax,
    SubOver,
    AddMin,
    GrayishTextOr,
    Highlight,
    DitherCopy,
    /// Unknown mode found in some AppleWorks 6 resources
    AppleWorksUnknown,
    Unknown(u16),
}

/// The transfer mode a stored code denotes; codes 4 and 5 select `SrcXor`
/// and `NotSrcXor`, never `SrcBic` or `NotSrcBic`.
pub open spec fn transfer_mode_of(v: u16) -> TransferMode {
    if v == 0 { TransferMode::SrcCopy }
    else if v == 1 { TransferMode::NotCopy }
    else if v == 2 { TransferMode::SrcOr }
    else if v == 3 { TransferMode::NotSrcOr }
    else if v == 4 { TransferMode::SrcXor }
    else if v == 5 { TransferMode::NotSrcXor }
    else if v == 32 { TransferMode::Blend }
    else if v == 33 { TransferMode::AddPin }
    else if v == 34 { TransferMode::AddOver }
    else if v == 35 { TransferMode::SubPin }
    else if v == 36 { TransferMode::Transparent }
    else if v == 37 { TransferMode::AddMax }
    else if v == 38 { TransferMode::SubOver }
    else if v == 39 { TransferMode::AddMin }
    else if v == 49 { TransferMode::GrayishTextOr }
    else if v == 50 { TransferMode::Highlight }
    else if v == 64 { TransferMode::DitherCopy }
    else if v == 100 { TransferMode::AppleWorksUnknown }
    else { TransferMode::Unknown(v) }
}

impl TransferMode {
    /// The mode a stored code denotes.
    pub fn from_code(v: u16) -> (r: Self)
        ensures
            r == transfer_mode_of(v),
    {
        match v {
            0 => TransferMode::SrcCopy,
            1 => TransferMode::NotCopy,
            2 => TransferMode::SrcOr,
            3 => TransferMode::NotSrcOr,
            4 => TransferMode::SrcXor,
            5 => TransferMode::NotSrcXor,
            32 => TransferMode::Blend,
            33 => TransferMode::AddPin,
            34 => TransferMode::AddOver,
            35 => TransferMode::SubPin,
            36 => TransferMode::Transparent,
            37 => TransferMode::AddMax,
            38 => TransferMode::SubOver,
            39 => TransferMode::AddMin,
            49 => TransferMode::GrayishTextOr,
            50 => TransferMode::Highlight,
            64 => TransferMode::DitherCopy,
            100 => TransferMode::AppleWorksUnknown,
            _ => TransferMode::Unknown(v),
        }
    }

    /// The mode used when none is given, `SrcCopy`.
    pub fn default_mode() -> (r: Self)
        ensures
            r == TransferMode::SrcCopy,
    {
        TransferMode::SrcCopy
    }

    /// Returns `true` if this transfer mode is not recognized by the parser.
    pub fn is_unknown(&self) -> (b: bool)
        ensures
            b == (*self is Unknown),
    {
        matches!(self, Self::Unknown(_))
    }
}

impl Default for TransferMode {
    /// `SrcCopy`.
    fn default() -> (r: Self)
        ensures
            r == TransferMode::SrcCopy,
    {
        TransferMode::SrcCopy
    }
}

/// Compression mode for pixmap scanline data.
#[derive(Debug, Clone, Copy, PartialEq, Eq, Structural)]
pub enum PackType {
    /// Use default packing
    Default,
    /// Use no packing
    Unpacked,
    /// Remove pad byte - supported only for 32-bit pixels (24-bit data)
    RemovePadByte,
    /// Run length encoding by pixelSize chunks, one scan line at a time - supported only for 16-bit pixels
    RunLengthEncoding,
    /// Run length encoding one component at a time, one scan line at a time, red component first - supported only for 32-bit pixels (24-bit data)
    RunLengthEncodedComponents,
    /// Unrecognized pack type value.
    Other(u16),
}

/// The packing a stored code denotes.
pub open spec fn pack_type_of(v: u16) -> PackType {
    if v == 0 { PackType::Default }
    else if v == 1 { PackType::Unpacked }
    else if v == 2 { PackType::RemovePadByte }
    else if v == 3 { PackType::RunLengthEncoding }
    else if v == 4 { PackType::RunLengthEncodedComponents }
    else { PackType::Other(v) }
}

impl PackType {
    /// The packing a stored code denotes.
    pub fn from_code(v: u16) -> (r: Self)
        ensures
            r == pack_type_of(v),
    {
        match v {
            0 => PackType::Default,
            1 => PackType::Unpacked,
            2 => PackType::RemovePadByte,
            3 => PackType::RunLengthEncoding,
            4 => PackType::RunLengthEncodedComponents,
            _ => PackType::Other(v),
        }
    }
}

/// Pixel encoding category for a pixmap.
#[derive(Debug, Clone, Copy, PartialEq, Eq, Structural)]
pub enum PixelType {
    Indexed,
    DirectColor,
    Unknown(i16),
}

/// The pixel type a stored code denotes.
pub open spec fn pixel_type_of(v: i16) -> PixelType {
    if v == 0 { PixelType::Indexed } else if v == 16 { PixelType::DirectColor } else { PixelType::Unknown(v) }
}

impl PixelType {
    /// The pixel type a stored code denotes.
    pub fn from_code(v: i16) -> (r: Self)
        ensures
            r == pixel_type_of(v),
    {
        if v == 0 {
            PixelType::Indexed
        } else if v == 16 {
            PixelType::DirectColor
        } else {
            PixelType::Unknown(v)
        }
    }

    /// Returns `true` when the pixmap uses indexed color entries.
    pub fn is_indexed(&self) -> (b: bool)
        ensures
            b == (*self is Indexed),
    {
        matches!(self, Self::Indexed)
    }

    /// Returns `true` when the pixmap stores direct color values.
    pub fn is_direct_color(&self) -> (b: bool)
        ensures
            b == (*self is DirectColor),
    {
        matches!(self, Self::DirectColor)
    }

    /// Returns `true` when the value is not recognized.
    pub fn is_unknown(&self) -> (b: bool)
        ensures
            b == (*self is Unknown),
    {
        matches!(self, Self::Unknown(_))
    }
}

/// Variant tag for pixel patterns.
#[derive(Debug, Clone, Copy, PartialEq, Eq, Structural)]
pub enum PatternType {
    Normal,
    Dither,
    Unknown(u16),
}

/// The pattern type a stored code denotes.
pub open spec fn pattern_type_of(v: u16) -> PatternType {
    if v == 1 { PatternType::Normal } else if v == 2 { PatternType::Dither } else { PatternType::Unknown(v) }
}

impl PatternType {
    /// The pattern type a stored code denotes.
    pub fn from_code(v: u16) -> (r: Self)
        ensures
            r == pattern_type_of(v),
    {
        if v == 1 {
            PatternType::Normal
        } else if v == 2 {
            PatternType::Dither
        } else {
            PatternType::Unknown(v)
        }
    }

    /// Returns `true` when this pattern uses an embedded color pattern image.
    pub fn is_normal(&self) -> (b: bool)
        ensures
            b == (*self is Normal),
    {
        matches!(self, Self::Normal)
    }

    /// Returns `true` when this pattern is represented by a dither color.
    pub fn is_dither(&self) -> (b: bool)
        ensures
            b == (*self is Dither),
    {
        matches!(self, Self::Dither)
    }
}

/// QuickDraw pixmap header.
#[derive(Debug, Clone, Copy, PartialEq, Eq, Structural)]
pub struct PixMap {
    /// flags, and row width
    pub row_bytes_and_flags: u16,
    /// boundary rectangle
    pub bounds: Rect,
    /// PixMap version number
    pub pm_version: i16,
    /// packing format
    pub pack_type: PackType,
    /// size of data in packed state
    pub pack_size: u32,
    /// horizontal resolution (dpi)
    pub h_res: Fixed,
    /// vertical resolution (dpi)
    pub v_res: Fixed,
    /// format of pixel image
    pub pixel_type: PixelType,
    /// physical bits per pixel
    pub pixel_size: i16,
    /// logical components per pixel
    pub component_count: i16,
    /// logical bits per component
    pub component_size: i16,
    /// offset to next plane
    pub plane_bytes: u32,
    /// handle to the ColorTable struct
    pub pm_table: u32,
    /// reserved for future expansion; must be 0
    pub pm_reserved: u32,
}

impl PixMap {
    /// Logical bytes per row: the row word without its flag bit.
    pub open spec fn spec_bytes_per_row(self) -> int {
        self.row_bytes_and_flags as int % 0x8000
    }

    /// Returns logical bytes per row, stripping high-bit flags.
    pub fn bytes_per_row(&self) -> (r: u16)
        ensures
            r == self.spec_bytes_per_row(),
    {
        let v = self.row_bytes_and_flags;
        assert(v & 0x7FFF == v % 0x8000) by (bit_vector);
        v & 0x7FFF
    }
}

} // verus!
