//! Drawing context for rendering PICT operations to an RGBA canvas.

use vstd::prelude::*;
use crate::shared::{Rect, PixMap, ColorTable, ColorSpec, TransferMode};
use crate::copybits::{CopyBits, DirectBits};
use crate::{v1, v2};
use crate::region::{Region, RegionView, region_view, prepared_view, preparable, view_contains, view_query_safe};
use crate::raster::{RgbaImage, Rgba8, image_pixels, image_width, image_height, image_wf, pixel_at, covers,
    lemma_insert_covers};
use crate::render::{decode_bitmap, decode_pixmap, bitmap_decodable, pixmap_decodable, image_dim, bitmap_image,
    pixmap_image, lemma_image_is, can_decode_bitmap, can_decode_pixmap};

verus! {

/// The rendering state: the canvas pixels, the picture bounds (whose
/// top-left corner is canvas pixel `(0, 0)`) and the clipping region.
pub struct Scene {
    pub pixels: Map<(u32, u32), Rgba8>,
    pub bounds: Rect,
    pub clip: RegionView,
}

/// Canvas size along one axis for a picture extent `v`: `v`, or 1 when
/// negative.
pub open spec fn canvas_dim(v: int) -> u32 {
    if v >= 0 { v as u32 } else { 1u32 }
}

/// Canvas width of a scene.
pub open spec fn canvas_w(sc: Scene) -> u32 {
    canvas_dim(sc.bounds.spec_width())
}

/// Canvas height of a scene.
pub open spec fn canvas_h(sc: Scene) -> u32 {
    canvas_dim(sc.bounds.spec_height())
}

/// Whether the scene's bounds have extents that fit an `i16` and its pixels
/// are exactly those of its canvas.
pub open spec fn scene_wf(sc: Scene) -> bool {
    &&& i16::MIN <= sc.bounds.spec_width() <= i16::MAX
    &&& i16::MIN <= sc.bounds.spec_height() <= i16::MAX
    &&& covers(sc.pixels, canvas_w(sc), canvas_h(sc))
}

/// The picture point shown by canvas pixel `(cx, cy)`.
pub open spec fn picture_point(sc: Scene, cx: int, cy: int) -> (int, int) {
    (cx + sc.bounds.left, cy + sc.bounds.top)
}

/// The source point copied to picture point `(ix, iy)`.
pub open spec fn source_point(src: Rect, dst: Rect, ix: int, iy: int) -> (int, int) {
    (ix - dst.left + src.left, iy - dst.top + src.top)
}

/// Whether canvas pixel `(cx, cy)` receives a source pixel: its picture
/// point is in the clipping region and the destination rectangle, its
/// source point in the source rectangle, and the point in the mask.
pub open spec fn blit_copies(sc: Scene, src: Rect, dst: Rect, mask: Option<RegionView>, cx: int, cy: int) -> bool {
    let (ix, iy) = picture_point(sc, cx, cy);
    let (sx, sy) = source_point(src, dst, ix, iy);
    &&& view_contains(sc.clip, ix, iy)
    &&& dst.spec_includes(ix, iy)
    &&& src.spec_includes(sx, sy)
    &&& (mask matches Some(m) ==> view_contains(m, ix, iy))
}

/// Whether the region queries made for canvas pixel `(cx, cy)` read inside
/// their masks.
pub open spec fn point_safe(sc: Scene, src: Rect, dst: Rect, mask: Option<RegionView>, cx: int, cy: int) -> bool {
    let (ix, iy) = picture_point(sc, cx, cy);
    let (sx, sy) = source_point(src, dst, ix, iy);
    &&& view_query_safe(sc.clip, ix, iy)
    &&& (view_contains(sc.clip, ix, iy) && dst.spec_includes(ix, iy) && src.spec_includes(sx, sy)) ==> match mask {
        Some(m) => view_query_safe(m, ix, iy),
        None => true,
    }
}

/// Whether every canvas pixel's region queries read inside their masks.
pub open spec fn blit_safe(sc: Scene, src: Rect, dst: Rect, mask: Option<RegionView>) -> bool {
    forall|cx: u32, cy: u32| cx < canvas_w(sc) && cy < canvas_h(sc) ==> #[trigger] point_safe(sc, src, dst, mask, cx as int, cy as int)
}

/// The canvas after copying `source` (whose pixel `(0, 0)` is point
/// `src_bounds.left, src_bounds.top`) through the clip and mask.
pub open spec fn blit_result(sc: Scene, src: Rect, dst: Rect, mask: Option<RegionView>, src_bounds: Rect,
    source: Map<(u32, u32), Rgba8>) -> Map<(u32, u32), Rgba8> {
    Map::new(
        |k: (u32, u32)| sc.pixels.dom().contains(k),
        |k: (u32, u32)| if blit_copies(sc, src, dst, mask, k.0 as int, k.1 as int) {
            let (ix, iy) = picture_point(sc, k.0 as int, k.1 as int);
            let (sx, sy) = source_point(src, dst, ix, iy);
            source[((sx - src_bounds.left) as u32, (sy - src_bounds.top) as u32)]
        } else {
            sc.pixels[k]
        },
    )
}

/// Whether the source image covers the source rectangle: the rectangle is
/// within the source bounds, has the destination's size, and when it is
/// not empty the image has the bounds' size.
pub open spec fn source_fits(src: Rect, dst: Rect, src_bounds: Rect, sw: u32, sh: u32) -> bool {
    &&& src_bounds.spec_contains(src)
    &&& src.spec_width() == dst.spec_width()
    &&& src.spec_height() == dst.spec_height()
    &&& dst.spec_width() > 0 && dst.spec_height() > 0 ==> sw == src_bounds.spec_width() && sh == src_bounds.spec_height()
}

/// Whether an extent fits an `i16`.
pub open spec fn extent_ok(v: int) -> bool {
    i16::MIN <= v <= i16::MAX
}

/// Whether the extents the copy compares fit an `i16`: both widths, and
/// both heights when the widths agree.
pub open spec fn rects_ok(src: Rect, dst: Rect) -> bool {
    &&& extent_ok(src.spec_width())
    &&& extent_ok(dst.spec_width())
    &&& src.spec_width() == dst.spec_width() ==> extent_ok(src.spec_height()) && extent_ok(dst.spec_height())
}

/// Whether a copy draws anything at all: source and destination have the
/// same size (copies only translate) and the source bounds hold the source
/// rectangle.
pub open spec fn copy_applies(src: Rect, dst: Rect, src_bounds: Rect) -> bool {
    &&& src.spec_width() == dst.spec_width()
    &&& src.spec_height() == dst.spec_height()
    &&& src_bounds.spec_contains(src)
}

/// Whether an optional mask region can be prepared.
pub open spec fn mask_ok(m: Option<Region>) -> bool {
    m matches Some(r) ==> preparable(r)
}

/// The view of an optional mask region once prepared.
pub open spec fn prepared_mask(m: Option<Region>) -> Option<RegionView> {
    match m {
        Some(r) => Some(prepared_view(r)),
        None => None,
    }
}

/// Whether copying a 1-bit bitmap goes through without the decoder aborting.
pub open spec fn bitmap_copy_ok(sc: Scene, src: Rect, dst: Rect, mode: TransferMode, bounds: Rect, bpr: int,
    data: Seq<u8>, mask: Option<Region>) -> bool {
    &&& mask_ok(mask)
    &&& rects_ok(src, dst)
    &&& copy_applies(src, dst, bounds) ==> {
        &&& bitmap_decodable(bounds, bpr, data.len() as int)
        &&& !(mode is Unknown)
        &&& blit_safe(sc, src, dst, prepared_mask(mask))
    }
}

/// The canvas after copying a 1-bit bitmap.
pub open spec fn bitmap_copy_pixels(sc: Scene, src: Rect, dst: Rect, bounds: Rect, bpr: int, data: Seq<u8>,
    mask: Option<Region>) -> Map<(u32, u32), Rgba8> {
    if copy_applies(src, dst, bounds) {
        blit_result(sc, src, dst, prepared_mask(mask), bounds, bitmap_image(bounds, bpr, data))
    } else {
        sc.pixels
    }
}

/// Whether copying a pixmap goes through without the decoder aborting.
pub open spec fn pixmap_copy_ok(sc: Scene, src: Rect, dst: Rect, mode: TransferMode, pm: PixMap,
    table: Seq<ColorSpec>, data: Seq<u8>, mask: Option<Region>) -> bool {
    &&& mask_ok(mask)
    &&& rects_ok(src, dst)
    &&& copy_applies(src, dst, pm.bounds) ==> {
        &&& pixmap_decodable(pm, table.len() as int, data.len() as int)
        &&& !(mode is Unknown)
        &&& blit_safe(sc, src, dst, prepared_mask(mask))
    }
}

/// The canvas after copying a pixmap.
pub open spec fn pixmap_copy_pixels(sc: Scene, src: Rect, dst: Rect, pm: PixMap, table: Seq<ColorSpec>,
    data: Seq<u8>, mask: Option<Region>) -> Map<(u32, u32), Rgba8> {
    if copy_applies(src, dst, pm.bounds) {
        blit_result(sc, src, dst, prepared_mask(mask), pm.bounds, pixmap_image(pm, table, data))
    } else {
        sc.pixels
    }
}

/// Whether a copy-bits operand goes through without the decoder aborting.
pub open spec fn copy_ok(sc: Scene, cb: CopyBits) -> bool {
    match cb {
        CopyBits::Pixmap { pix_map, color_table, src_rect, dst_rect, mode, mask_region, data } =>
            pixmap_copy_ok(sc, src_rect, dst_rect, mode, pix_map, color_table.ct_table@, data@, mask_region),
        CopyBits::Bitmap { bytes_per_row, bounds, mode, src_rect, dst_rect, mask_region, data } =>
            bitmap_copy_ok(sc, src_rect, dst_rect, mode, bounds, bytes_per_row as int, data@, mask_region),
    }
}

/// The canvas after a copy-bits operand.
pub open spec fn copy_pixels(sc: Scene, cb: CopyBits) -> Map<(u32, u32), Rgba8> {
    match cb {
        CopyBits::Pixmap { pix_map, color_table, src_rect, dst_rect, mode, mask_region, data } =>
            pixmap_copy_pixels(sc, src_rect, dst_rect, pix_map, color_table.ct_table@, data@, mask_region),
        CopyBits::Bitmap { bytes_per_row, bounds, mode, src_rect, dst_rect, mask_region, data } =>
            bitmap_copy_pixels(sc, src_rect, dst_rect, bounds, bytes_per_row as int, data@, mask_region),
    }
}

/// Whether the regions a copy-bits operand holds are well formed.
pub open spec fn copy_wf(cb: CopyBits) -> bool {
    match cb {
        CopyBits::Pixmap { mask_region, .. } => mask_region matches Some(m) ==> m.wf(),
        CopyBits::Bitmap { mask_region, .. } => mask_region matches Some(m) ==> m.wf(),
    }
}

/// Whether a direct-bits operand goes through without the decoder aborting.
pub open spec fn direct_ok(sc: Scene, db: DirectBits) -> bool {
    pixmap_copy_ok(sc, db.src_rect, db.dst_rect, TransferMode::SrcCopy, db.pix_map, Seq::empty(), db.data@, db.mask)
}

/// The canvas after a direct-bits operand.
pub open spec fn direct_pixels(sc: Scene, db: DirectBits) -> Map<(u32, u32), Rgba8> {
    pixmap_copy_pixels(sc, db.src_rect, db.dst_rect, db.pix_map, Seq::empty(), db.data@, db.mask)
}

/// The scene after clipping to `r`.
pub open spec fn clipped(sc: Scene, r: Region) -> Scene {
    Scene { clip: prepared_view(r), ..sc }
}

/// The scene with a new canvas.
pub open spec fn painted(sc: Scene, pixels: Map<(u32, u32), Rgba8>) -> Scene {
    Scene { pixels, ..sc }
}

/// Whether the regions a version 1 opcode holds are well formed.
pub open spec fn v1_op_wf(op: v1::Opcode) -> bool {
    match op {
        v1::Opcode::ClipRgn(r) => r.wf(),
        v1::Opcode::BitsRect(cb) => copy_wf(cb),
        v1::Opcode::BitsRgn(cb) => copy_wf(cb),
        v1::Opcode::PackBitsRect(cb) => copy_wf(cb),
        v1::Opcode::PackBitsRgn(cb) => copy_wf(cb),
        _ => true,
    }
}

/// Whether a version 1 opcode goes through without the decoder aborting.
pub open spec fn command_v1_ok(sc: Scene, op: v1::Opcode) -> bool {
    match op {
        v1::Opcode::ClipRgn(r) => preparable(r),
        v1::Opcode::BitsRect(cb) => copy_ok(sc, cb),
        v1::Opcode::BitsRgn(cb) => copy_ok(sc, cb),
        v1::Opcode::PackBitsRect(cb) => copy_ok(sc, cb),
        v1::Opcode::PackBitsRgn(cb) => copy_ok(sc, cb),
        _ => true,
    }
}

/// The scene after a version 1 opcode: a clipping region replaces the clip,
/// copy opcodes draw, everything else leaves the scene as it is.
pub open spec fn command_v1_scene(sc: Scene, op: v1::Opcode) -> Scene {
    match op {
        v1::Opcode::ClipRgn(r) => clipped(sc, r),
        v1::Opcode::BitsRect(cb) => painted(sc, copy_pixels(sc, cb)),
        v1::Opcode::BitsRgn(cb) => painted(sc, copy_pixels(sc, cb)),
        v1::Opcode::PackBitsRect(cb) => painted(sc, copy_pixels(sc, cb)),
        v1::Opcode::PackBitsRgn(cb) => painted(sc, copy_pixels(sc, cb)),
        _ => sc,
    }
}

/// Whether a version 1 opcode is the end-of-picture opcode.
pub open spec fn v1_ends(op: v1::Opcode) -> bool {
    op is EndOfPicture
}

/// Whether the regions a version 2 opcode holds are well formed.
pub open spec fn v2_op_wf(op: v2::Opcode) -> bool {
    match op {
        v2::Opcode::Clip(r) => r.wf(),
        v2::Opcode::BitsRect(cb) => copy_wf(cb),
        v2::Opcode::BitsRgn(cb) => copy_wf(cb),
        v2::Opcode::PackBitsRect(cb) => copy_wf(cb),
        v2::Opcode::PackBitsRgn(cb) => copy_wf(cb),
        v2::Opcode::DirectBitsRect(db) => db.mask matches Some(m) ==> m.wf(),
        v2::Opcode::DirectBitsRgn(db) => db.mask matches Some(m) ==> m.wf(),
        _ => true,
    }
}

/// Whether a version 2 opcode goes through without the decoder aborting.
pub open spec fn command_v2_ok(sc: Scene, op: v2::Opcode) -> bool {
    match op {
        v2::Opcode::Clip(r) => preparable(r),
        v2::Opcode::BitsRect(cb) => copy_ok(sc, cb),
        v2::Opcode::BitsRgn(cb) => copy_ok(sc, cb),
        v2::Opcode::PackBitsRect(cb) => copy_ok(sc, cb),
        v2::Opcode::PackBitsRgn(cb) => copy_ok(sc, cb),
        v2::Opcode::DirectBitsRect(db) => direct_ok(sc, db),
        v2::Opcode::DirectBitsRgn(db) => direct_ok(sc, db),
        _ => true,
    }
}

/// The scene after a version 2 opcode: a clipping region replaces the clip,
/// copy opcodes draw, everything else leaves the scene as it is.
pub open spec fn command_v2_scene(sc: Scene, op: v2::Opcode) -> Scene {
    match op {
        v2::Opcode::Clip(r) => clipped(sc, r),
        v2::Opcode::BitsRect(cb) => painted(sc, copy_pixels(sc, cb)),
        v2::Opcode::BitsRgn(cb) => painted(sc, copy_pixels(sc, cb)),
        v2::Opcode::PackBitsRect(cb) => painted(sc, copy_pixels(sc, cb)),
        v2::Opcode::PackBitsRgn(cb) => painted(sc, copy_pixels(sc, cb)),
        v2::Opcode::DirectBitsRect(db) => painted(sc, direct_pixels(sc, db)),
        v2::Opcode::DirectBitsRgn(db) => painted(sc, direct_pixels(sc, db)),
        _ => sc,
    }
}

/// Whether a version 2 opcode is the end-of-picture opcode.
pub open spec fn v2_ends(op: v2::Opcode) -> bool {
    op is OpEndPic
}

/// Main drawing context that holds the canvas and rendering state.
pub struct DrawingContext {
    /// The RGBA image being drawn to.
    canvas: RgbaImage,
    /// Bounding rectangle of the drawing area.
    bounds: Rect,
    /// Current clipping region.
    clipping_region: Region,
}

/// Whether a region query at `(x, y)` reads inside the mask.
fn query_safe(r: &Region, x: i32, y: i32) -> (b: bool)
    ensures
        b == view_query_safe(region_view(*r), x as int, y as int),
{
    match r.bounding_box.as_ref() {
        Some(bb) => {
            if !bb.includes(x, y) {
                return true;
            }
            match r.decoded_mask.as_ref() {
                Some(m) => {
                    if x < 0 || y < 0 {
                        return false;
                    }
                    proof {
                        assert(0 <= y as int * bb.right as int <= 0x8000 * 0x8000) by (nonlinear_arith)
                            requires 0 <= y < 0x8000, 0 <= bb.right < 0x8000;
                    }
                    let idx: u64 = y as u64 * bb.right as u64 + x as u64;
                    idx < m.len() as u64
                },
                None => true,
            }
        },
        None => true,
    }
}

impl DrawingContext {
    /// The drawing state.
    pub closed spec fn scene(&self) -> Scene {
        Scene { pixels: image_pixels(self.canvas), bounds: self.bounds, clip: region_view(self.clipping_region) }
    }

    /// Whether the canvas has the size of the bounds and the clipping region
    /// is prepared.
    pub closed spec fn wf(&self) -> bool {
        &&& scene_wf(self.scene())
        &&& image_width(self.canvas) == canvas_w(self.scene())
        &&& image_height(self.canvas) == canvas_h(self.scene())
        &&& image_wf(self.canvas)
        &&& self.clipping_region.wf()
        &&& self.clipping_region.spec_is_prepared()
    }

    /// Creates a drawing context for `bounds`, with a blank canvas of the
    /// bounds' size (1 along an axis where the size is negative) and no
    /// clipping.
    pub fn new(bounds: Rect) -> (ctx: Self)
        requires
            i16::MIN <= bounds.spec_width() <= i16::MAX,
            i16::MIN <= bounds.spec_height() <= i16::MAX,
            4 * canvas_dim(bounds.spec_width()) * canvas_dim(bounds.spec_height()) <= usize::MAX,
        ensures
            ctx.wf(),
            ctx.scene().bounds == bounds,
            ctx.scene().clip == (None::<Rect>, None::<Seq<u8>>),
            ctx.scene().pixels == Map::new(
                |k: (u32, u32)| k.0 < canvas_dim(bounds.spec_width()) && k.1 < canvas_dim(bounds.spec_height()),
                |k: (u32, u32)| (0u8, 0u8, 0u8, 0u8),
            ),
    {
        let w = bounds.width();
        let h = bounds.height();
        let width: u32 = if w >= 0 { w as u32 } else { 1 };
        let height: u32 = if h >= 0 { h as u32 } else { 1 };
        let canvas = RgbaImage::new(width, height);
        let ctx = DrawingContext { canvas, bounds, clipping_region: Region::new() };
        assert(image_pixels(canvas) =~= Map::new(
            |k: (u32, u32)| k.0 < width && k.1 < height,
            |k: (u32, u32)| (0u8, 0u8, 0u8, 0u8),
        )) by {
            assert forall|k: (u32, u32)| image_pixels(canvas).dom().contains(k) implies image_pixels(canvas)[k]
                == (0u8, 0u8, 0u8, 0u8) by {
                assert(pixel_at(canvas, k.0, k.1) == image_pixels(canvas)[k]);
            }
        }
        ctx
    }

    /// Draws a copy-bits operand; `false` where the decoder aborts.
    fn apply_copy_bits(&mut self, bits: CopyBits) -> (ok: bool)
        requires
            old(self).wf(),
            copy_wf(bits),
        ensures
            final(self).wf(),
            ok == copy_ok(old(self).scene(), bits),
            ok ==> final(self).scene() == painted(old(self).scene(), copy_pixels(old(self).scene(), bits)),
    {
        match bits {
            CopyBits::Pixmap { pix_map, color_table, src_rect, dst_rect, mode, mask_region, data } => {
                self.apply_pixmap(&pix_map, color_table, src_rect, dst_rect, mode, mask_region, data)
            },
            CopyBits::Bitmap { bytes_per_row, bounds, mode, src_rect, dst_rect, mask_region, data } => {
                self.apply_bitmap(src_rect, dst_rect, mode, bounds, bytes_per_row as usize, data, mask_region)
            },
        }
    }

    /// Processes a version 1 opcode: `None` where the decoder aborts, else
    /// whether the opcode ends the picture.
    pub fn try_command_v1(&mut self, cmd: v1::Opcode) -> (r: Option<bool>)
        requires
            old(self).wf(),
            v1_op_wf(cmd),
        ensures
            final(self).wf(),
            r is Some == command_v1_ok(old(self).scene(), cmd),
            r matches Some(end) ==> end == v1_ends(cmd) && final(self).scene() == command_v1_scene(old(self).scene(), cmd),
    {
        match cmd {
            v1::Opcode::ClipRgn(r) => if self.clip_region(r) { Some(false) } else { None },
            v1::Opcode::BitsRect(bits) => if self.apply_copy_bits(bits) { Some(false) } else { None },
            v1::Opcode::BitsRgn(bits) => if self.apply_copy_bits(bits) { Some(false) } else { None },
            v1::Opcode::PackBitsRect(bits) => if self.apply_copy_bits(bits) { Some(false) } else { None },
            v1::Opcode::PackBitsRgn(bits) => if self.apply_copy_bits(bits) { Some(false) } else { None },
            v1::Opcode::EndOfPicture => Some(true),
            _ => Some(false),
        }
    }

    /// Processes a PICT v1 opcode; returns `true` if this is an
    /// end-of-picture opcode, `false` otherwise.
    pub fn command_v1(&mut self, cmd: v1::Opcode) -> (end: bool)
        requires
            old(self).wf(),
            v1_op_wf(cmd),
            command_v1_ok(old(self).scene(), cmd),
        ensures
            final(self).wf(),
            end == v1_ends(cmd),
            final(self).scene() == command_v1_scene(old(self).scene(), cmd),
    {
        match self.try_command_v1(cmd) {
            Some(end) => end,
            None => false,
        }
    }

    /// Processes a version 2 opcode: `None` where the decoder aborts, else
    /// whether the opcode ends the picture.
    pub fn try_command_v2(&mut self, cmd: v2::Opcode) -> (r: Option<bool>)
        requires
            old(self).wf(),
            v2_op_wf(cmd),
        ensures
            final(self).wf(),
            r is Some == command_v2_ok(old(self).scene(), cmd),
            r matches Some(end) ==> end == v2_ends(cmd) && final(self).scene() == command_v2_scene(old(self).scene(), cmd),
    {
        match cmd {
            v2::Opcode::Clip(r) => if self.clip_region(r) { Some(false) } else { None },
            v2::Opcode::BitsRect(bits) => if self.apply_copy_bits(bits) { Some(false) } else { None },
            v2::Opcode::BitsRgn(bits) => if self.apply_copy_bits(bits) { Some(false) } else { None },
            v2::Opcode::PackBitsRect(bits) => if self.apply_copy_bits(bits) { Some(false) } else { None },
            v2::Opcode::PackBitsRgn(bits) => if self.apply_copy_bits(bits) { Some(false) } else { None },
            v2::Opcode::DirectBitsRect(db) => {
                if self.apply_direct_color_bitmap(db.src_rect, db.dst_rect, &db.pix_map, db.data, db.mask) {
                    Some(false)
                } else {
                    None
                }
            },
            v2::Opcode::DirectBitsRgn(db) => {
                if self.apply_direct_color_bitmap(db.src_rect, db.dst_rect, &db.pix_map, db.data, db.mask) {
                    Some(false)
                } else {
                    None
                }
            },
            v2::Opcode::OpEndPic => Some(true),
            _ => Some(false),
        }
    }

    /// Processes a PICT v2 opcode; returns `true` if this is an
    /// end-of-picture opcode, `false` otherwise.
    pub fn command_v2(&mut self, cmd: v2::Opcode) -> (end: bool)
        requires
            old(self).wf(),
            v2_op_wf(cmd),
            command_v2_ok(old(self).scene(), cmd),
        ensures
            final(self).wf(),
            end == v2_ends(cmd),
            final(self).scene() == command_v2_scene(old(self).scene(), cmd),
    {
        match self.try_command_v2(cmd) {
            Some(end) => end,
            None => false,
        }
    }

    /// Returns a shared reference to the current canvas image.
    pub fn image(&self) -> (img: &RgbaImage)
        requires
            self.wf(),
        ensures
            image_pixels(*img) == self.scene().pixels,
            image_width(*img) == canvas_w(self.scene()),
            image_height(*img) == canvas_h(self.scene()),
            image_wf(*img),
    {
        &self.canvas
    }

    /// Consumes the drawing context and returns the final canvas.
    pub fn into_image(self) -> (img: RgbaImage)
        requires
            self.wf(),
        ensures
            image_pixels(img) == self.scene().pixels,
            image_width(img) == canvas_w(self.scene()),
            image_height(img) == canvas_h(self.scene()),
            image_wf(img),
    {
        self.canvas
    }

    /// Prepares an optional mask region; `None` where preparing aborts.
    fn prepare_mask(mask_region: Option<Region>) -> (r: Option<Option<Region>>)
        requires
            mask_region matches Some(m) ==> m.wf(),
        ensures
            r is Some == mask_ok(mask_region),
            r matches Some(m) ==> mask_option_view(m) == prepared_mask(mask_region)
                && (m matches Some(g) ==> g.wf() && g.spec_is_prepared()),
    {
        match mask_region {
            Some(mut rg) => {
                if rg.try_prepare() {
                    Some(Some(rg))
                } else {
                    None
                }
            },
            None => Some(None),
        }
    }

    /// Checks the extents a copy compares, as `rects_ok` says, and whether
    /// the copy applies, as `copy_applies` says.
    fn check_rects(src_rect: &Rect, dst_rect: &Rect, src_bounds: &Rect) -> (r: Option<bool>)
        ensures
            r is Some == rects_ok(*src_rect, *dst_rect),
            r matches Some(a) ==> a == copy_applies(*src_rect, *dst_rect, *src_bounds),
    {
        let sw: i32 = src_rect.right as i32 - src_rect.left as i32;
        let dw: i32 = dst_rect.right as i32 - dst_rect.left as i32;
        if sw < -0x8000 || sw > 0x7fff || dw < -0x8000 || dw > 0x7fff {
            return None;
        }
        if src_rect.width() != dst_rect.width() {
            return Some(false);
        }
        let sh: i32 = src_rect.bottom as i32 - src_rect.top as i32;
        let dh: i32 = dst_rect.bottom as i32 - dst_rect.top as i32;
        if sh < -0x8000 || sh > 0x7fff || dh < -0x8000 || dh > 0x7fff {
            return None;
        }
        if src_rect.height() != dst_rect.height() {
            return Some(false);
        }
        Some(src_bounds.contains(src_rect))
    }

    /// Copies a 1-bit bitmap onto the canvas; `false` where the decoder
    /// aborts.
    fn apply_bitmap(&mut self, src_rect: Rect, dst_rect: Rect, mode: TransferMode, source_image_bounds: Rect,
        bytes_per_row: usize, data: Vec<u8>, mask_region: Option<Region>) -> (ok: bool)
        requires
            old(self).wf(),
            mask_region matches Some(m) ==> m.wf(),
        ensures
            final(self).wf(),
            final(self).scene().bounds == old(self).scene().bounds,
            final(self).scene().clip == old(self).scene().clip,
            ok == bitmap_copy_ok(old(self).scene(), src_rect, dst_rect, mode, source_image_bounds,
                bytes_per_row as int, data@, mask_region),
            ok ==> final(self).scene().pixels == bitmap_copy_pixels(old(self).scene(), src_rect, dst_rect,
                source_image_bounds, bytes_per_row as int, data@, mask_region),
    {
        let mask = match Self::prepare_mask(mask_region) {
            Some(m) => m,
            None => return false,
        };
        match Self::check_rects(&src_rect, &dst_rect, &source_image_bounds) {
            None => return false,
            Some(false) => return true,
            Some(true) => {},
        }
        if !can_decode_bitmap(&source_image_bounds, bytes_per_row, data.len()) {
            return false;
        }
        let ghost d = data@;
        let source_image = decode_bitmap(&source_image_bounds, bytes_per_row, data);
        proof {
            lemma_image_is(source_image, bitmap_image(source_image_bounds, bytes_per_row as int, d));
        }
        self.blit_masked(src_rect, dst_rect, mask, source_image_bounds, source_image, mode)
    }

    /// Copies a pixmap onto the canvas; `false` where the decoder aborts.
    fn apply_pixmap(&mut self, pix_map: &PixMap, color_table: ColorTable, src_rect: Rect, dst_rect: Rect,
        mode: TransferMode, mask_region: Option<Region>, data: Vec<u8>) -> (ok: bool)
        requires
            old(self).wf(),
            mask_region matches Some(m) ==> m.wf(),
        ensures
            final(self).wf(),
            final(self).scene().bounds == old(self).scene().bounds,
            final(self).scene().clip == old(self).scene().clip,
            ok == pixmap_copy_ok(old(self).scene(), src_rect, dst_rect, mode, *pix_map, color_table.ct_table@,
                data@, mask_region),
            ok ==> final(self).scene().pixels == pixmap_copy_pixels(old(self).scene(), src_rect, dst_rect, *pix_map,
                color_table.ct_table@, data@, mask_region),
    {
        let mask = match Self::prepare_mask(mask_region) {
            Some(m) => m,
            None => return false,
        };
        match Self::check_rects(&src_rect, &dst_rect, &pix_map.bounds) {
            None => return false,
            Some(false) => return true,
            Some(true) => {},
        }
        if !can_decode_pixmap(pix_map, color_table.ct_table.len(), data.len()) {
            return false;
        }
        let src_image_bounds = pix_map.bounds;
        let source_image = decode_pixmap(pix_map, &color_table, &data);
        proof {
            lemma_image_is(source_image, pixmap_image(*pix_map, color_table.ct_table@, data@));
        }
        self.blit_masked(src_rect, dst_rect, mask, src_image_bounds, source_image, mode)
    }

    /// Copies a direct-color pixmap onto the canvas, as a pixmap with an
    /// empty color table in `SrcCopy` mode; `false` where the decoder aborts.
    fn apply_direct_color_bitmap(&mut self, src_rect: Rect, dst_rect: Rect, pix_map: &PixMap,
        pix_map_data: Vec<u8>, mask_region: Option<Region>) -> (ok: bool)
        requires
            old(self).wf(),
            mask_region matches Some(m) ==> m.wf(),
        ensures
            final(self).wf(),
            final(self).scene().bounds == old(self).scene().bounds,
            final(self).scene().clip == old(self).scene().clip,
            ok == pixmap_copy_ok(old(self).scene(), src_rect, dst_rect, TransferMode::SrcCopy, *pix_map,
                Seq::empty(), pix_map_data@, mask_region),
            ok ==> final(self).scene().pixels == pixmap_copy_pixels(old(self).scene(), src_rect, dst_rect, *pix_map,
                Seq::empty(), pix_map_data@, mask_region),
    {
        let table = ColorTable::new();
        assert(table.ct_table@ =~= Seq::<ColorSpec>::empty());
        self.apply_pixmap(pix_map, table, src_rect, dst_rect, TransferMode::default_mode(), mask_region, pix_map_data)
    }

    /// Makes `region`, prepared, the clipping region; `false`, leaving the
    /// context as it was, where preparing it aborts.
    fn clip_region(&mut self, region: Region) -> (ok: bool)
        requires
            old(self).wf(),
            region.wf(),
        ensures
            final(self).wf(),
            ok == preparable(region),
            ok ==> final(self).scene() == (Scene { clip: prepared_view(region), ..old(self).scene() }),
            !ok ==> final(self).scene() == old(self).scene(),
    {
        let mut region = region;
        if !region.try_prepare() {
            return false;
        }
        self.clipping_region = region;
        true
    }

    /// Copies the source image onto the canvas through the clipping region
    /// and the mask; `false`, with the canvas left in an unspecified state,
    /// where the transfer mode is unknown or a region query would read
    /// outside its mask (the decoder aborts there).
    fn blit_masked(&mut self, src_rect: Rect, dst_rect: Rect, mask_region: Option<Region>, src_image_bounds: Rect,
        source_image: RgbaImage, mode: TransferMode) -> (ok: bool)
        requires
            old(self).wf(),
            mask_region matches Some(m) ==> m.wf() && m.spec_is_prepared(),
            image_wf(source_image),
            source_fits(src_rect, dst_rect, src_image_bounds, image_width(source_image), image_height(source_image)),
        ensures
            final(self).wf(),
            final(self).scene().bounds == old(self).scene().bounds,
            final(self).scene().clip == old(self).scene().clip,
            ok == (!(mode is Unknown) && blit_safe(old(self).scene(), src_rect, dst_rect, mask_option_view(mask_region))),
            ok ==> final(self).scene().pixels == blit_result(old(self).scene(), src_rect, dst_rect,
                mask_option_view(mask_region), src_image_bounds, image_pixels(source_image)),
    {
        if mode.is_unknown() {
            return false;
        }
        let ghost sc = self.scene();
        let ghost mv = mask_option_view(mask_region);
        let ghost target = blit_result(sc, src_rect, dst_rect, mv, src_image_bounds, image_pixels(source_image));
        let height = self.canvas.height();
        let width = self.canvas.width();
        let mut cy: u32 = 0;
        while cy < height
            invariant
                self.wf(),
                self.scene().bounds == sc.bounds,
                self.scene().clip == sc.clip,
                sc == old(self).scene(),
                scene_wf(sc),
                width == canvas_w(sc),
                height == canvas_h(sc),
                cy <= height,
                mv == mask_option_view(mask_region),
                mask_region matches Some(m) ==> m.wf() && m.spec_is_prepared(),
                image_wf(source_image),
                source_fits(src_rect, dst_rect, src_image_bounds, image_width(source_image), image_height(source_image)),
                target == blit_result(sc, src_rect, dst_rect, mv, src_image_bounds, image_pixels(source_image)),
                forall|px: u32, py: u32| px < width && py < height ==> #[trigger] pixel_at(self.canvas, px, py)
                    == (if py < cy { target[(px, py)] } else { sc.pixels[(px, py)] }),
                forall|px: u32, py: u32| px < width && py < cy ==> #[trigger] point_safe(sc, src_rect, dst_rect, mv, px as int, py as int),
            decreases height - cy,
        {
            let mut cx: u32 = 0;
            while cx < width
                invariant
                    self.wf(),
                    self.scene().bounds == sc.bounds,
                    self.scene().clip == sc.clip,
                    sc == old(self).scene(),
                    scene_wf(sc),
                    width == canvas_w(sc),
                    height == canvas_h(sc),
                    cy < height,
                    cx <= width,
                    mv == mask_option_view(mask_region),
                    mask_region matches Some(m) ==> m.wf() && m.spec_is_prepared(),
                    image_wf(source_image),
                    source_fits(src_rect, dst_rect, src_image_bounds, image_width(source_image), image_height(source_image)),
                    target == blit_result(sc, src_rect, dst_rect, mv, src_image_bounds, image_pixels(source_image)),
                    forall|px: u32, py: u32| px < width && py < height ==> #[trigger] pixel_at(self.canvas, px, py)
                        == (if py < cy || (py == cy && px < cx) { target[(px, py)] } else { sc.pixels[(px, py)] }),
                    forall|px: u32, py: u32| px < width && (py < cy || (py == cy && px < cx)) ==> #[trigger] point_safe(sc, src_rect, dst_rect, mv, px as int, py as int),
                decreases width - cx,
            {
                let image_x: i32 = cx as i32 + self.bounds.left as i32;
                let image_y: i32 = cy as i32 + self.bounds.top as i32;
                if !query_safe(&self.clipping_region, image_x, image_y) {
                    proof {
                        assert(!point_safe(sc, src_rect, dst_rect, mv, cx as int, cy as int));
                    }
                    return false;
                }
                let mut copy: Option<Rgba8> = None;
                if self.clipping_region.contains(image_x, image_y) && dst_rect.includes(image_x, image_y) {
                    let source_x: i32 = image_x - dst_rect.left as i32 + src_rect.left as i32;
                    let source_y: i32 = image_y - dst_rect.top as i32 + src_rect.top as i32;
                    if src_rect.includes(source_x, source_y) {
                        let mut inside = true;
                        match mask_region.as_ref() {
                            Some(m) => {
                                if !query_safe(m, image_x, image_y) {
                                    proof {
                                        assert(!point_safe(sc, src_rect, dst_rect, mv, cx as int, cy as int));
                                    }
                                    return false;
                                }
                                inside = m.contains(image_x, image_y);
                            },
                            None => {},
                        }
                        if inside {
                            let sx = (source_x - src_image_bounds.left as i32) as u32;
                            let sy = (source_y - src_image_bounds.top as i32) as u32;
                            copy = Some(source_image.get_pixel(sx, sy));
                        }
                    }
                }
                let ghost before = self.canvas;
                match copy {
                    Some(p) => {
                        self.canvas.put_pixel(cx, cy, p);
                        proof {
                            lemma_insert_covers(image_pixels(before), width, height, (cx, cy), p);
                        }
                    },
                    None => {},
                }
                proof {
                    assert(point_safe(sc, src_rect, dst_rect, mv, cx as int, cy as int));
                    assert forall|px: u32, py: u32| px < width && py < height implies #[trigger] pixel_at(self.canvas, px, py)
                        == (if py < cy || (py == cy && px < cx + 1) { target[(px, py)] } else { sc.pixels[(px, py)] }) by {
                        if px == cx && py == cy {
                            assert(sc.pixels.dom().contains((px, py)));
                        } else {
                            assert(pixel_at(self.canvas, px, py) == pixel_at(before, px, py));
                        }
                    }
                }
                cx = cx + 1;
            }
            cy = cy + 1;
        }
        proof {
            assert(image_pixels(self.canvas) =~= target) by {
                assert forall|k: (u32, u32)| image_pixels(self.canvas).dom().contains(k) implies image_pixels(self.canvas)[k]
                    == target[k] by {
                    assert(pixel_at(self.canvas, k.0, k.1) == image_pixels(self.canvas)[k]);
                }
            }
            assert forall|cx: u32, cy: u32| cx < canvas_w(sc) && cy < canvas_h(sc) implies #[trigger] point_safe(sc, src_rect, dst_rect, mv, cx as int, cy as int) by {
            }
        }
        true
    }
}

/// The view of an optional mask region.
pub open spec fn mask_option_view(m: Option<Region>) -> Option<RegionView> {
    match m {
        Some(r) => Some(region_view(r)),
        None => None,
    }
}

/// A copy changes only canvas pixels whose picture point lies in the
/// destination rectangle and in the clipping region; the canvas keeps its
/// pixels' positions.
pub proof fn law_blit_stays_in_destination(sc: Scene, src: Rect, dst: Rect, mask: Option<RegionView>, src_bounds: Rect,
    source: Map<(u32, u32), Rgba8>, k: (u32, u32))
    requires
        sc.pixels.dom().contains(k),
        !dst.spec_includes(k.0 + sc.bounds.left, k.1 + sc.bounds.top)
            || !view_contains(sc.clip, k.0 + sc.bounds.left, k.1 + sc.bounds.top),
    ensures
        blit_result(sc, src, dst, mask, src_bounds, source).dom() == sc.pixels.dom(),
        blit_result(sc, src, dst, mask, src_bounds, source)[k] == sc.pixels[k],
{
    assert(blit_result(sc, src, dst, mask, src_bounds, source).dom() =~= sc.pixels.dom());
}

/// Opcodes keep the picture bounds and the canvas size: only clipping
/// regions change the clip, only copies change pixels, and never the set of
/// pixels.
pub proof fn law_commands_keep_canvas(sc: Scene, op: v1::Opcode, op2: v2::Opcode)
    ensures
        command_v1_scene(sc, op).bounds == sc.bounds,
        command_v1_scene(sc, op).pixels.dom() == sc.pixels.dom(),
        !(op is ClipRgn) ==> command_v1_scene(sc, op).clip == sc.clip,
        !(op is BitsRect || op is BitsRgn || op is PackBitsRect || op is PackBitsRgn)
            ==> command_v1_scene(sc, op).pixels == sc.pixels,
        command_v2_scene(sc, op2).bounds == sc.bounds,
        command_v2_scene(sc, op2).pixels.dom() == sc.pixels.dom(),
        !(op2 is Clip) ==> command_v2_scene(sc, op2).clip == sc.clip,
        !(op2 is BitsRect || op2 is BitsRgn || op2 is PackBitsRect || op2 is PackBitsRgn || op2 is DirectBitsRect
            || op2 is DirectBitsRgn) ==> command_v2_scene(sc, op2).pixels == sc.pixels,
{
    assert forall|src: Rect, dst: Rect, mask: Option<RegionView>, b: Rect, m: Map<(u32, u32), Rgba8>|
        #[trigger] blit_result(sc, src, dst, mask, b, m).dom() == sc.pixels.dom() by {
        assert(blit_result(sc, src, dst, mask, b, m).dom() =~= sc.pixels.dom());
    }
}

/// What a copy does to one canvas pixel `k`, whose picture point is
/// `(k.0 + left, k.1 + top)` of the picture bounds: the pixel keeps its
/// value when that point lies outside the copy's mask, outside the clipping
/// region or outside the destination rectangle, or when the matching source
/// point (shifted by the offset from the destination to the source
/// rectangle) lies outside the source rectangle; otherwise it takes the
/// source image's pixel at that source point.
pub proof fn law_copy_through_mask(sc: Scene, src: Rect, dst: Rect, mask: Option<RegionView>, src_bounds: Rect,
    source: Map<(u32, u32), Rgba8>, k: (u32, u32))
    requires
        sc.pixels.dom().contains(k),
    ensures
        (mask matches Some(m) && !view_contains(m, k.0 + sc.bounds.left, k.1 + sc.bounds.top))
            ==> blit_result(sc, src, dst, mask, src_bounds, source)[k] == sc.pixels[k],
        !view_contains(sc.clip, k.0 + sc.bounds.left, k.1 + sc.bounds.top)
            ==> blit_result(sc, src, dst, mask, src_bounds, source)[k] == sc.pixels[k],
        !dst.spec_includes(k.0 + sc.bounds.left, k.1 + sc.bounds.top)
            ==> blit_result(sc, src, dst, mask, src_bounds, source)[k] == sc.pixels[k],
        !src.spec_includes(k.0 + sc.bounds.left - dst.left + src.left, k.1 + sc.bounds.top - dst.top + src.top)
            ==> blit_result(sc, src, dst, mask, src_bounds, source)[k] == sc.pixels[k],
        ((mask matches Some(m) ==> view_contains(m, k.0 + sc.bounds.left, k.1 + sc.bounds.top))
            && view_contains(sc.clip, k.0 + sc.bounds.left, k.1 + sc.bounds.top)
            && dst.spec_includes(k.0 + sc.bounds.left, k.1 + sc.bounds.top)
            && src.spec_includes(k.0 + sc.bounds.left - dst.left + src.left, k.1 + sc.bounds.top - dst.top + src.top))
            ==> blit_result(sc, src, dst, mask, src_bounds, source)[k] == source[(
                (k.0 + sc.bounds.left - dst.left + src.left - src_bounds.left) as u32,
                (k.1 + sc.bounds.top - dst.top + src.top - src_bounds.top) as u32,
            )],
{
}

} // verus!
