//! Decoding of bitmap and pixmap pixel data into RGBA images.

use vstd::prelude::*;
use crate::shared::{Rect, PixMap, ColorTable, ColorSpec, PixelType};
use crate::raster::{RgbaImage, Rgba8, image_width, image_height, image_wf, image_pixels, pixel_at, covers, lemma_insert_covers};

verus! {

/// Whether bit `i` of `b`, counting from the most significant bit, is set.
pub open spec fn bit_at(b: u8, i: int) -> bool {
    (b >> ((7 - i) as u8)) & 1u8 == 1u8
}

/// The pixel `(x, y)` of a 1-bit bitmap with `bpr` bytes per row: black
/// where the bit is set, white elsewhere, always opaque.
pub open spec fn bitmap_pixel(data: Seq<u8>, bpr: int, x: int, y: int) -> Rgba8 {
    let v: u8 = if bit_at(data[y * bpr + x / 8], x % 8) { 0u8 } else { 0xFFu8 };
    (v, v, v, 0xFFu8)
}

/// The place value of bit `i` of a byte, counting from the most
/// significant bit.
pub open spec fn bit_weight(i: int) -> int {
    if i == 0 { 128 } else if i == 1 { 64 } else if i == 2 { 32 } else if i == 3 { 16 }
    else if i == 4 { 8 } else if i == 5 { 4 } else if i == 6 { 2 } else { 1 }
}

/// Bitmap pixels go most significant bit first: pixel `x` of row `y` is
/// black exactly when the bit of place value `bit_weight(x % 8)` is set in
/// byte `x / 8` of the row, and white otherwise; both are opaque.
pub proof fn law_bitmap_bits(data: Seq<u8>, bpr: int, x: int, y: int)
    requires
        x >= 0,
    ensures
        bitmap_pixel(data, bpr, x, y) == (if (data[y * bpr + x / 8] as int / bit_weight(x % 8)) % 2 == 1 {
            (0u8, 0u8, 0u8, 0xFFu8)
        } else {
            (0xFFu8, 0xFFu8, 0xFFu8, 0xFFu8)
        }),
{
    let b = data[y * bpr + x / 8];
    let i = x % 8;
    if i == 0 { assert(((b >> 7u8) & 1u8 == 1u8) == ((b / 128) % 2 == 1)) by (bit_vector); }
    else if i == 1 { assert(((b >> 6u8) & 1u8 == 1u8) == ((b / 64) % 2 == 1)) by (bit_vector); }
    else if i == 2 { assert(((b >> 5u8) & 1u8 == 1u8) == ((b / 32) % 2 == 1)) by (bit_vector); }
    else if i == 3 { assert(((b >> 4u8) & 1u8 == 1u8) == ((b / 16) % 2 == 1)) by (bit_vector); }
    else if i == 4 { assert(((b >> 3u8) & 1u8 == 1u8) == ((b / 8) % 2 == 1)) by (bit_vector); }
    else if i == 5 { assert(((b >> 2u8) & 1u8 == 1u8) == ((b / 4) % 2 == 1)) by (bit_vector); }
    else if i == 6 { assert(((b >> 1u8) & 1u8 == 1u8) == ((b / 2) % 2 == 1)) by (bit_vector); }
    else { assert(((b >> 0u8) & 1u8 == 1u8) == (b % 2 == 1)) by (bit_vector); }
}

/// A `w` x `h` size taken as the unsigned values the decoder converts to.
pub open spec fn image_dim(v: int) -> u32 {
    v as u32
}

/// Whether a bitmap of `w` x `h` pixels reads only bytes inside `len`.
pub open spec fn bitmap_fits(len: int, bpr: int, w: int, h: int) -> bool {
    bpr == 0 || w == 0 || h == 0 || (h - 1) * bpr + (w - 1) / 8 < len
}

/// Whether decoding a bitmap with these bounds and data stays within what
/// the decoder handles: sizes without overflow and rows inside the data.
pub open spec fn bitmap_decodable(bounds: Rect, bpr: int, len: int) -> bool {
    &&& i16::MIN <= bounds.spec_width() <= i16::MAX
    &&& i16::MIN <= bounds.spec_height() <= i16::MAX
    &&& 4 * image_dim(bounds.spec_width()) * image_dim(bounds.spec_height()) <= usize::MAX
    &&& bitmap_fits(len, bpr, image_dim(bounds.spec_width()) as int, image_dim(bounds.spec_height()) as int)
}

proof fn lemma_row_index(y: int, h: int, bpr: int, e: int, emax: int, len: int)
    requires
        0 <= y < h,
        bpr >= 0,
        0 <= e <= emax,
        (h - 1) * bpr + emax < len,
    ensures
        y * bpr + e < len,
        0 <= y * bpr,
{
    assert(y * bpr <= (h - 1) * bpr) by (nonlinear_arith)
        requires 0 <= y <= h - 1, bpr >= 0;
    assert(0 <= y * bpr) by (nonlinear_arith)
        requires 0 <= y, bpr >= 0;
}

/// Decodes a 1-bit bitmap into an RGBA image: set bits become black, clear
/// bits white, all opaque; with zero bytes per row the image stays blank.
pub fn decode_bitmap(bounds: &Rect, bytes_per_row: usize, data: Vec<u8>) -> (img: RgbaImage)
    requires
        bitmap_decodable(*bounds, bytes_per_row as int, data@.len() as int),
    ensures
        image_width(img) == image_dim(bounds.spec_width()),
        image_height(img) == image_dim(bounds.spec_height()),
        image_wf(img),
        forall|x: u32, y: u32| x < image_width(img) && y < image_height(img) ==>
            #[trigger] pixel_at(img, x, y) == (if bytes_per_row == 0 { (0u8, 0u8, 0u8, 0u8) } else {
                bitmap_pixel(data@, bytes_per_row as int, x as int, y as int)
            }),
{
    let width = bounds.width() as u32;
    let height = bounds.height() as u32;
    let mut image = RgbaImage::new(width, height);
    if bytes_per_row == 0 {
        return image;
    }
    let len = data.len();
    let mut y: u32 = 0;
    while y < height
        invariant
            len == data@.len(),
            image_width(image) == width,
            image_height(image) == height,
            width == image_dim(bounds.spec_width()),
            height == image_dim(bounds.spec_height()),
            image_wf(image),
            y <= height,
            bytes_per_row > 0,
            bitmap_fits(data@.len() as int, bytes_per_row as int, width as int, height as int),
            forall|px: u32, py: u32| px < width && py < height ==> #[trigger] pixel_at(image, px, py)
                == (if py < y { bitmap_pixel(data@, bytes_per_row as int, px as int, py as int) } else { (0u8, 0u8, 0u8, 0u8) }),
        decreases height - y,
    {
        let mut x: u32 = 0;
        while x < width
            invariant
                len == data@.len(),
                image_width(image) == width,
                image_height(image) == height,
                image_wf(image),
                y < height,
                x <= width,
                bytes_per_row > 0,
                bitmap_fits(data@.len() as int, bytes_per_row as int, width as int, height as int),
                forall|px: u32, py: u32| px < width && py < height ==> #[trigger] pixel_at(image, px, py)
                    == (if py < y || (py == y && px < x) { bitmap_pixel(data@, bytes_per_row as int, px as int, py as int) } else { (0u8, 0u8, 0u8, 0u8) }),
            decreases width - x,
        {
            proof {
                lemma_row_index(y as int, height as int, bytes_per_row as int, x as int / 8, (width as int - 1) / 8, data@.len() as int);
            }
            let idx = y as usize * bytes_per_row + (x / 8) as usize;
            let byte = data[idx];
            let shift: u8 = (7 - x % 8) as u8;
            let v: u8 = if (byte >> shift) & 1 == 1 { 0 } else { 0xFF };
            let ghost before = image;
            image.put_pixel(x, y, (v, v, v, 0xFF));
            proof {
                assert forall|px: u32, py: u32| px < width && py < height implies #[trigger] pixel_at(image, px, py)
                    == (if py < y || (py == y && px < x + 1) { bitmap_pixel(data@, bytes_per_row as int, px as int, py as int) } else { (0u8, 0u8, 0u8, 0u8) }) by {
                    if px == x && py == y {
                        assert(pixel_at(image, px, py) == (v, v, v, 0xFFu8));
                    } else {
                        assert(pixel_at(image, px, py) == pixel_at(before, px, py));
                    }
                }
                lemma_insert_covers(image_pixels(before), width, height, (x, y), (v, v, v, 0xFFu8));
            }
            x = x + 1;
        }
        y = y + 1;
    }
    image
}

/// Offset, within a row, of the last byte that holds pixel `x` at `ps`
/// bits per pixel.
pub open spec fn sample_offset(ps: int, x: int) -> int {
    if ps == 1 {
        x / 8
    } else if ps == 2 {
        x / 4
    } else if ps == 4 {
        x / 2
    } else if ps == 8 {
        x
    } else if ps == 16 {
        2 * x + 1
    } else {
        4 * x + 3
    }
}

/// The value of pixel `x` of the row starting at `row`, at `ps` bits per
/// pixel (most significant bits first; 16 and 32-bit values big-endian).
pub open spec fn sample(ps: int, data: Seq<u8>, row: int, x: int) -> u32 {
    if ps == 1 {
        ((data[row + x / 8] as u32) >> ((7 - x % 8) as u32)) & 1u32
    } else if ps == 2 {
        ((data[row + x / 4] as u32) >> ((6 - (x % 4) * 2) as u32)) & 3u32
    } else if ps == 4 {
        ((data[row + x / 2] as u32) >> ((4 - (x % 2) * 4) as u32)) & 15u32
    } else if ps == 8 {
        data[row + x] as u32
    } else if ps == 16 {
        ((data[row + 2 * x] as u32) << 8u32) | (data[row + 2 * x + 1] as u32)
    } else {
        ((data[row + 4 * x] as u32) << 24u32) | ((data[row + 4 * x + 1] as u32) << 16u32)
            | ((data[row + 4 * x + 2] as u32) << 8u32) | (data[row + 4 * x + 3] as u32)
    }
}

/// A 16-bit `xrgb1555` value widened to 8 bits per channel, opaque.
pub open spec fn rgb555(c: u32) -> Rgba8 {
    (
        ((c >> 7u32) & 0xF8u32) as u8 | ((c >> 12u32) & 0x07u32) as u8,
        ((c >> 2u32) & 0xF8u32) as u8 | ((c >> 7u32) & 0x07u32) as u8,
        ((c << 3u32) & 0xF8u32) as u8 | ((c >> 2u32) & 0x07u32) as u8,
        0xFFu8,
    )
}

/// A 5-bit channel value widened to 8 bits: shifted up three bits, with its
/// own top three bits repeated below (so 0 stays 0 and 31 becomes 255).
pub open spec fn widen5(v: int) -> int {
    v * 8 + v / 4
}

proof fn lemma_rgb555(c: u32)
    requires
        c < 0x10000,
    ensures
        rgb555(c).0 == widen5(c as int / 1024 % 32),
        rgb555(c).1 == widen5(c as int / 32 % 32),
        rgb555(c).2 == widen5(c as int % 32),
        rgb555(c).3 == 0xFF,
{
    let r5 = (c / 1024) % 32;
    let g5 = (c / 32) % 32;
    let b5 = c % 32;
    assert((((c >> 7u32) & 0xF8u32) as u8 | ((c >> 12u32) & 0x07u32) as u8) == (r5 * 8 + r5 / 4) as u8) by (bit_vector)
        requires c < 0x10000, r5 == (c / 1024) % 32;
    assert((((c >> 2u32) & 0xF8u32) as u8 | ((c >> 7u32) & 0x07u32) as u8) == (g5 * 8 + g5 / 4) as u8) by (bit_vector)
        requires c < 0x10000, g5 == (c / 32) % 32;
    assert((((c << 3u32) & 0xF8u32) as u8 | ((c >> 2u32) & 0x07u32) as u8) == (b5 * 8 + b5 / 4) as u8) by (bit_vector)
        requires c < 0x10000, b5 == c % 32;
    assert(r5 * 8 + r5 / 4 < 256 && g5 * 8 + g5 / 4 < 256 && b5 * 8 + b5 / 4 < 256);
}

/// The colors the decoder gives pixel values, by format:
/// an indexed value picks the color table entry at that position (the high
/// byte of each of its red, green and blue magnitudes, opaque), and gives no
/// color past the table's end; a 16-bit direct value holds red in bits 14
/// to 10, green in bits 9 to 5 and blue in bits 4 to 0, each widened to 8
/// bits, opaque; a 32-bit direct value holds red, green and blue in its
/// third, second and lowest bytes, with alpha in its top byte for four
/// components and opaque for three.
pub proof fn law_pixel_colors(pm: PixMap, table: Seq<ColorSpec>, c: u32)
    ensures
        pm.pixel_type is Indexed && c < table.len() ==> color_pixel(pm, table, c) == Some((
            (table[c as int].rgb.red / 256) as u8,
            (table[c as int].rgb.green / 256) as u8,
            (table[c as int].rgb.blue / 256) as u8,
            0xFFu8,
        )),
        pm.pixel_type is Indexed && c >= table.len() ==> color_pixel(pm, table, c) is None,
        !(pm.pixel_type is Indexed) && pm.pixel_size == 16 && pm.component_size == 5 && c < 0x10000
            ==> color_pixel(pm, table, c) == Some((
                widen5(c as int / 1024 % 32) as u8,
                widen5(c as int / 32 % 32) as u8,
                widen5(c as int % 32) as u8,
                0xFFu8,
            )),
        !(pm.pixel_type is Indexed) && !(pm.pixel_size == 16 && pm.component_size == 5) && pm.component_count == 3
            ==> color_pixel(pm, table, c) == Some((
                (c / 0x10000 % 0x100) as u8,
                (c / 0x100 % 0x100) as u8,
                (c % 0x100) as u8,
                0xFFu8,
            )),
        !(pm.pixel_type is Indexed) && !(pm.pixel_size == 16 && pm.component_size == 5) && pm.component_count != 3
            ==> color_pixel(pm, table, c) == Some((
                (c / 0x10000 % 0x100) as u8,
                (c / 0x100 % 0x100) as u8,
                (c % 0x100) as u8,
                (c / 0x100_0000) as u8,
            )),
{
    if pm.pixel_type is Indexed {
        if c < table.len() {
            let e = table[c as int];
            let (r, g, b) = (e.rgb.red, e.rgb.green, e.rgb.blue);
            assert((r >> 8u16) as u8 == (r / 256) as u8) by (bit_vector);
            assert((g >> 8u16) as u8 == (g / 256) as u8) by (bit_vector);
            assert((b >> 8u16) as u8 == (b / 256) as u8) by (bit_vector);
        }
    } else if pm.pixel_size == 16 && pm.component_size == 5 {
        if c < 0x10000 {
            lemma_rgb555(c);
        }
    } else {
        assert(((c >> 16u32) & 0xFFu32) as u8 == (c / 0x10000 % 0x100) as u8) by (bit_vector);
        assert(((c >> 8u32) & 0xFFu32) as u8 == (c / 0x100 % 0x100) as u8) by (bit_vector);
        assert((c & 0xFFu32) as u8 == (c % 0x100) as u8) by (bit_vector);
        assert(((c >> 24u32) & 0xFFu32) as u8 == (c / 0x100_0000) as u8) by (bit_vector);
    }
}

/// How pixel values are read from a row: an 8-bit value is its byte, a
/// 16-bit value the two bytes at `2 * x` big-endian, a 32-bit value the
/// four bytes at `4 * x` big-endian.
pub proof fn law_sample_bytes(data: Seq<u8>, row: int, x: int)
    ensures
        sample(8, data, row, x) == data[row + x],
        sample(16, data, row, x) == data[row + 2 * x] as int * 0x100 + data[row + 2 * x + 1] as int,
        sample(32, data, row, x) == data[row + 4 * x] as int * 0x100_0000 + data[row + 4 * x + 1] as int * 0x1_0000
            + data[row + 4 * x + 2] as int * 0x100 + data[row + 4 * x + 3] as int,
{
    let (a, b, c, d) = (data[row + 4 * x], data[row + 4 * x + 1], data[row + 4 * x + 2], data[row + 4 * x + 3]);
    let (e, f) = (data[row + 2 * x], data[row + 2 * x + 1]);
    assert((((e as u32) << 8u32) | (f as u32)) == e as u32 * 0x100 + f as u32) by (bit_vector);
    assert((((a as u32) << 24u32) | ((b as u32) << 16u32) | ((c as u32) << 8u32) | (d as u32))
        == a as u32 * 0x100_0000 + b as u32 * 0x1_0000 + c as u32 * 0x100 + d as u32) by (bit_vector);
}

/// Whether the pixmap's format is one the decoder writes pixels for:
/// indexed, 16-bit `xrgb1555`, or 32-bit with 3 or 4 components.
pub open spec fn pixmap_format_drawn(pm: PixMap) -> bool {
    ||| pm.pixel_type is Indexed
    ||| pm.pixel_size == 16 && pm.component_size == 5
    ||| pm.pixel_size == 32 && pm.component_size == 8 && (pm.component_count == 3 || pm.component_count == 4)
}

/// The pixel for value `color`: a color table entry's high bytes for
/// indexed pixmaps (`None`, leaving the pixel blank, when the table has no
/// such entry), else the direct color.
pub open spec fn color_pixel(pm: PixMap, table: Seq<ColorSpec>, color: u32) -> Option<Rgba8> {
    if pm.pixel_type is Indexed {
        if (color as int) < table.len() {
            let e = table[color as int];
            Some(((e.rgb.red >> 8u16) as u8, (e.rgb.green >> 8u16) as u8, (e.rgb.blue >> 8u16) as u8, 0xFFu8))
        } else {
            None
        }
    } else if pm.pixel_size == 16 && pm.component_size == 5 {
        Some(rgb555(color))
    } else if pm.component_count == 3 {
        Some((((color >> 16u32) & 0xFFu32) as u8, ((color >> 8u32) & 0xFFu32) as u8, (color & 0xFFu32) as u8, 0xFFu8))
    } else {
        Some((((color >> 16u32) & 0xFFu32) as u8, ((color >> 8u32) & 0xFFu32) as u8, (color & 0xFFu32) as u8,
            ((color >> 24u32) & 0xFFu32) as u8))
    }
}

/// Pixel `(x, y)` of a decoded pixmap.
pub open spec fn pixmap_pixel(pm: PixMap, table: Seq<ColorSpec>, data: Seq<u8>, x: int, y: int) -> Rgba8 {
    if !pixmap_format_drawn(pm) {
        (0u8, 0u8, 0u8, 0u8)
    } else {
        match color_pixel(pm, table, sample(pm.pixel_size as int, data, y * pm.spec_bytes_per_row(), x)) {
            Some(p) => p,
            None => (0u8, 0u8, 0u8, 0u8),
        }
    }
}

/// Whether decoding the pixmap stays within what the decoder handles: a
/// known pixel type and size, a supported direct-color layout, a color
/// table for indexed pixels, sizes without overflow and reads inside the
/// data (only the first pixel is read for a direct format it does not draw).
pub open spec fn pixmap_decodable(pm: PixMap, table_len: int, len: int) -> bool {
    let ps = pm.pixel_size as int;
    let w = image_dim(pm.bounds.spec_width()) as int;
    let h = image_dim(pm.bounds.spec_height()) as int;
    let bpr = pm.spec_bytes_per_row();
    &&& !(pm.pixel_type is Unknown)
    &&& pm.pixel_type is Indexed ==> table_len > 0
    &&& pm.pixel_type is DirectColor ==> 3 <= pm.component_count <= 4
    &&& pm.pixel_type is DirectColor && ps == 16 ==> pm.component_size == 5
    &&& pm.pixel_type is DirectColor && ps == 32 ==> pm.component_size == 8
    &&& (ps == 1 || ps == 2 || ps == 4 || ps == 8 || ps == 16 || ps == 32)
    &&& i16::MIN <= pm.bounds.spec_width() <= i16::MAX
    &&& i16::MIN <= pm.bounds.spec_height() <= i16::MAX
    &&& 4 * w * h <= usize::MAX
    &&& w > 0 && h > 0 ==> if pixmap_format_drawn(pm) {
        (h - 1) * bpr + sample_offset(ps, w - 1) < len
    } else {
        sample_offset(ps, 0) < len
    }
}

/// Reads the value of pixel `x` of the row at `row`.
fn read_sample(ps: i16, data: &Vec<u8>, row: usize, x: usize) -> (c: u32)
    requires
        ps == 1 || ps == 2 || ps == 4 || ps == 8 || ps == 16 || ps == 32,
        row + sample_offset(ps as int, x as int) < data@.len(),
    ensures
        c == sample(ps as int, data@, row as int, x as int),
{
    let n = data.len();
    assert(row + sample_offset(ps as int, x as int) < n);
    if ps == 1 {
        ((data[row + x / 8] as u32) >> ((7 - x % 8) as u32)) & 1
    } else if ps == 2 {
        ((data[row + x / 4] as u32) >> ((6 - (x % 4) * 2) as u32)) & 3
    } else if ps == 4 {
        ((data[row + x / 2] as u32) >> ((4 - (x % 2) * 4) as u32)) & 15
    } else if ps == 8 {
        data[row + x] as u32
    } else if ps == 16 {
        ((data[row + 2 * x] as u32) << 8) | (data[row + 2 * x + 1] as u32)
    } else {
        ((data[row + 4 * x] as u32) << 24) | ((data[row + 4 * x + 1] as u32) << 16)
            | ((data[row + 4 * x + 2] as u32) << 8) | (data[row + 4 * x + 3] as u32)
    }
}

/// Computes the pixel for value `color`, as `color_pixel` says.
fn color_to_pixel(pm: &PixMap, table: &Vec<ColorSpec>, color: u32) -> (r: Option<Rgba8>)
    requires
        pixmap_format_drawn(*pm),
    ensures
        r == color_pixel(*pm, table@, color),
{
    if pm.pixel_type.is_indexed() {
        if (color as usize) < table.len() {
            let e = table[color as usize];
            Some(((e.rgb.red >> 8) as u8, (e.rgb.green >> 8) as u8, (e.rgb.blue >> 8) as u8, 0xFF))
        } else {
            None
        }
    } else if pm.pixel_size == 16 && pm.component_size == 5 {
        let r: u8 = ((color >> 7) & 0xF8) as u8 | ((color >> 12) & 0x07) as u8;
        let g: u8 = ((color >> 2) & 0xF8) as u8 | ((color >> 7) & 0x07) as u8;
        let b: u8 = ((color << 3) & 0xF8) as u8 | ((color >> 2) & 0x07) as u8;
        Some((r, g, b, 0xFF))
    } else if pm.component_count == 3 {
        Some((((color >> 16) & 0xFF) as u8, ((color >> 8) & 0xFF) as u8, (color & 0xFF) as u8, 0xFF))
    } else {
        Some((((color >> 16) & 0xFF) as u8, ((color >> 8) & 0xFF) as u8, (color & 0xFF) as u8,
            ((color >> 24) & 0xFF) as u8))
    }
}

/// Decodes a pixmap payload and color table into an RGBA image: indexed
/// pixels take the high bytes of their color table entry (staying blank
/// when the table has no such entry), 16-bit pixels are `xrgb1555`, 32-bit
/// pixels `xrgb8888` (with alpha in the high byte for 4 components); a
/// direct format with fewer bits per pixel leaves the image blank.
pub fn decode_pixmap(pix_map: &PixMap, color_table: &ColorTable, data: &Vec<u8>) -> (img: RgbaImage)
    requires
        pixmap_decodable(*pix_map, color_table.ct_table@.len() as int, data@.len() as int),
    ensures
        image_width(img) == image_dim(pix_map.bounds.spec_width()),
        image_height(img) == image_dim(pix_map.bounds.spec_height()),
        image_wf(img),
        forall|x: u32, y: u32| x < image_width(img) && y < image_height(img) ==>
            #[trigger] pixel_at(img, x, y) == pixmap_pixel(*pix_map, color_table.ct_table@, data@, x as int, y as int),
{
    let width = pix_map.bounds.width() as u32;
    let height = pix_map.bounds.height() as u32;
    let ps = pix_map.pixel_size;
    let bpr = pix_map.bytes_per_row() as usize;
    let len = data.len();
    let mut image = RgbaImage::new(width, height);
    let drawn = pix_map.pixel_type.is_indexed() || (ps == 16 && pix_map.component_size == 5) || (ps == 32
        && pix_map.component_size == 8 && (pix_map.component_count == 3 || pix_map.component_count == 4));
    let mut y: u32 = 0;
    while y < height
        invariant
            len == data@.len(),
            image_width(image) == width,
            image_height(image) == height,
            width == image_dim(pix_map.bounds.spec_width()),
            height == image_dim(pix_map.bounds.spec_height()),
            image_wf(image),
            y <= height,
            ps == pix_map.pixel_size,
            bpr == pix_map.spec_bytes_per_row(),
            drawn == pixmap_format_drawn(*pix_map),
            pixmap_decodable(*pix_map, color_table.ct_table@.len() as int, data@.len() as int),
            forall|px: u32, py: u32| px < width && py < height ==> #[trigger] pixel_at(image, px, py)
                == (if py < y { pixmap_pixel(*pix_map, color_table.ct_table@, data@, px as int, py as int) } else { (0u8, 0u8, 0u8, 0u8) }),
        decreases height - y,
    {
        let mut x: u32 = 0;
        while x < width
            invariant
                len == data@.len(),
                image_width(image) == width,
                image_height(image) == height,
                width == image_dim(pix_map.bounds.spec_width()),
                height == image_dim(pix_map.bounds.spec_height()),
                image_wf(image),
                y < height,
                x <= width,
                ps == pix_map.pixel_size,
                bpr == pix_map.spec_bytes_per_row(),
                drawn == pixmap_format_drawn(*pix_map),
                pixmap_decodable(*pix_map, color_table.ct_table@.len() as int, data@.len() as int),
                forall|px: u32, py: u32| px < width && py < height ==> #[trigger] pixel_at(image, px, py)
                    == (if py < y || (py == y && px < x) { pixmap_pixel(*pix_map, color_table.ct_table@, data@, px as int, py as int) } else { (0u8, 0u8, 0u8, 0u8) }),
            decreases width - x,
        {
            if !drawn {
                proof {
                    assert forall|px: u32, py: u32| px < width && py < height implies #[trigger] pixel_at(image, px, py)
                        == pixmap_pixel(*pix_map, color_table.ct_table@, data@, px as int, py as int) by {
                    }
                }
                return image;
            }
            proof {
                lemma_sample_offset_mono(ps as int, x as int, width as int - 1);
                lemma_row_index(y as int, height as int, bpr as int, sample_offset(ps as int, x as int),
                    sample_offset(ps as int, width as int - 1), len as int);
            }
            let row = y as usize * bpr;
            let color = read_sample(ps, data, row, x as usize);
            let ghost before = image;
            match color_to_pixel(pix_map, &color_table.ct_table, color) {
                Some(p) => {
                    image.put_pixel(x, y, p);
                    proof {
                        lemma_insert_covers(image_pixels(before), width, height, (x, y), p);
                    }
                },
                None => {},
            }
            proof {
                assert forall|px: u32, py: u32| px < width && py < height implies #[trigger] pixel_at(image, px, py)
                    == (if py < y || (py == y && px < x + 1) { pixmap_pixel(*pix_map, color_table.ct_table@, data@, px as int, py as int) } else { (0u8, 0u8, 0u8, 0u8) }) by {
                    if px == x && py == y {
                    } else {
                        assert(pixel_at(image, px, py) == pixel_at(before, px, py));
                    }
                }
            }
            x = x + 1;
        }
        y = y + 1;
    }
    image
}

proof fn lemma_sample_offset_mono(ps: int, x: int, xmax: int)
    requires
        0 <= x <= xmax,
    ensures
        0 <= sample_offset(ps, x) <= sample_offset(ps, xmax),
{
}

/// The image `decode_bitmap` makes, by pixel.
pub open spec fn bitmap_image(bounds: Rect, bpr: int, data: Seq<u8>) -> Map<(u32, u32), Rgba8> {
    Map::new(
        |k: (u32, u32)| k.0 < image_dim(bounds.spec_width()) && k.1 < image_dim(bounds.spec_height()),
        |k: (u32, u32)| if bpr == 0 { (0u8, 0u8, 0u8, 0u8) } else { bitmap_pixel(data, bpr, k.0 as int, k.1 as int) },
    )
}

/// The image `decode_pixmap` makes, by pixel.
pub open spec fn pixmap_image(pm: PixMap, table: Seq<ColorSpec>, data: Seq<u8>) -> Map<(u32, u32), Rgba8> {
    Map::new(
        |k: (u32, u32)| k.0 < image_dim(pm.bounds.spec_width()) && k.1 < image_dim(pm.bounds.spec_height()),
        |k: (u32, u32)| pixmap_pixel(pm, table, data, k.0 as int, k.1 as int),
    )
}

/// An image whose pixels all match `m` has `m` as its pixel map.
pub proof fn lemma_image_is(img: RgbaImage, m: Map<(u32, u32), Rgba8>)
    requires
        image_wf(img),
        covers(m, image_width(img), image_height(img)),
        forall|x: u32, y: u32| x < image_width(img) && y < image_height(img) ==> #[trigger] pixel_at(img, x, y) == m[(x, y)],
    ensures
        image_pixels(img) == m,
{
    assert forall|k: (u32, u32)| image_pixels(img).dom().contains(k) implies image_pixels(img)[k] == m[k] by {
        assert(pixel_at(img, k.0, k.1) == image_pixels(img)[k]);
    }
    assert(image_pixels(img) =~= m);
}

/// Computes `bitmap_decodable`.
pub fn can_decode_bitmap(bounds: &Rect, bytes_per_row: usize, len: usize) -> (b: bool)
    ensures
        b == bitmap_decodable(*bounds, bytes_per_row as int, len as int),
{
    let w32: i32 = bounds.right as i32 - bounds.left as i32;
    let h32: i32 = bounds.bottom as i32 - bounds.top as i32;
    if w32 < -0x8000 || w32 > 0x7fff || h32 < -0x8000 || h32 > 0x7fff {
        return false;
    }
    let w = bounds.width() as u32;
    let h = bounds.height() as u32;
    proof {
        assert(4 * w as int * h as int <= 4 * 0xffff_ffff * 0xffff_ffff) by (nonlinear_arith)
            requires w <= 0xffff_ffff, h <= 0xffff_ffff;
    }
    if 4 * (w as u128) * (h as u128) > usize::MAX as u128 {
        return false;
    }
    if bytes_per_row == 0 || w == 0 || h == 0 {
        return true;
    }
    proof {
        assert((h - 1) as int * bytes_per_row as int <= 0xffff_ffff * 0xffff_ffff_ffff_ffff) by (nonlinear_arith)
            requires h <= 0xffff_ffff, bytes_per_row <= 0xffff_ffff_ffff_ffff;
    }
    ((h - 1) as u128) * (bytes_per_row as u128) + (((w - 1) / 8) as u128) < (len as u128)
}

/// Computes `pixmap_decodable`.
pub fn can_decode_pixmap(pm: &PixMap, table_len: usize, len: usize) -> (b: bool)
    ensures
        b == pixmap_decodable(*pm, table_len as int, len as int),
{
    let ps = pm.pixel_size;
    let cc = pm.component_count;
    let direct = pm.pixel_type.is_direct_color();
    if pm.pixel_type.is_unknown() {
        return false;
    }
    if pm.pixel_type.is_indexed() && table_len == 0 {
        return false;
    }
    if direct && (cc < 3 || cc > 4) {
        return false;
    }
    if direct && ps == 16 && pm.component_size != 5 {
        return false;
    }
    if direct && ps == 32 && pm.component_size != 8 {
        return false;
    }
    if !(ps == 1 || ps == 2 || ps == 4 || ps == 8 || ps == 16 || ps == 32) {
        return false;
    }
    let bounds = pm.bounds;
    let w32: i32 = bounds.right as i32 - bounds.left as i32;
    let h32: i32 = bounds.bottom as i32 - bounds.top as i32;
    if w32 < -0x8000 || w32 > 0x7fff || h32 < -0x8000 || h32 > 0x7fff {
        return false;
    }
    let w = bounds.width() as u32;
    let h = bounds.height() as u32;
    proof {
        assert(4 * w as int * h as int <= 4 * 0xffff_ffff * 0xffff_ffff) by (nonlinear_arith)
            requires w <= 0xffff_ffff, h <= 0xffff_ffff;
    }
    if 4 * (w as u128) * (h as u128) > usize::MAX as u128 {
        return false;
    }
    if w == 0 || h == 0 {
        return true;
    }
    let drawn = pm.pixel_type.is_indexed() || (ps == 16 && pm.component_size == 5) || (ps == 32
        && pm.component_size == 8 && (cc == 3 || cc == 4));
    let bpr = pm.bytes_per_row() as u128;
    let last = if drawn { (w - 1) as u128 } else { 0u128 };
    let off: u128 = if ps == 1 {
        last / 8
    } else if ps == 2 {
        last / 4
    } else if ps == 4 {
        last / 2
    } else if ps == 8 {
        last
    } else if ps == 16 {
        2 * last + 1
    } else {
        4 * last + 3
    };
    if drawn {
        proof {
            assert((h - 1) as int * bpr as int <= 0xffff_ffff * 0xffff) by (nonlinear_arith)
                requires h <= 0xffff_ffff, bpr <= 0xffff;
        }
        ((h - 1) as u128) * bpr + off < (len as u128)
    } else {
        off < (len as u128)
    }
}

} // verus!
