//! RGBA canvases held in `image` crate buffers.

use vstd::prelude::*;
use image::{ImageBuffer, Rgba};

verus! {

/// An RGBA pixel: red, green, blue, alpha.
pub type Rgba8 = (u8, u8, u8, u8);

/// An RGBA image, stored in an `image::ImageBuffer<Rgba<u8>, Vec<u8>>`.
#[verifier::external_body]
pub struct RgbaImage {
    buffer: ImageBuffer<Rgba<u8>, Vec<u8>>,
}

/// The pixels of an image, by `(x, y)`.
pub uninterp spec fn image_pixels(img: RgbaImage) -> Map<(u32, u32), Rgba8>;

/// The width an image was made with.
pub uninterp spec fn image_width(img: RgbaImage) -> u32;

/// The height an image was made with.
pub uninterp spec fn image_height(img: RgbaImage) -> u32;

/// Whether `m` holds exactly the pixels of a `w` x `h` image.
pub open spec fn covers(m: Map<(u32, u32), Rgba8>, w: u32, h: u32) -> bool {
    forall|k: (u32, u32)| #[trigger] m.dom().contains(k) <==> (k.0 < w && k.1 < h)
}

/// Whether the image's pixels are exactly those inside its dimensions.
pub open spec fn image_wf(img: RgbaImage) -> bool {
    covers(image_pixels(img), image_width(img), image_height(img))
}

/// Replacing a pixel inside the image keeps the pixels exactly those inside
/// its dimensions.
pub proof fn lemma_insert_covers(m: Map<(u32, u32), Rgba8>, w: u32, h: u32, k: (u32, u32), p: Rgba8)
    requires
        covers(m, w, h),
        k.0 < w,
        k.1 < h,
    ensures
        covers(m.insert(k, p), w, h),
{
}

/// The pixel at `(x, y)`.
pub open spec fn pixel_at(img: RgbaImage, x: u32, y: u32) -> Rgba8 {
    image_pixels(img)[(x, y)]
}

impl RgbaImage {
    /// `ImageBuffer::new`: a `width` x `height` image whose every sample is
    /// zero. The crate panics when `4 * width * height` overflows `usize`.
    #[verifier::external_body]
    pub(crate) fn new(width: u32, height: u32) -> (img: RgbaImage)
        requires
            4 * width * height <= usize::MAX,
        ensures
            image_width(img) == width,
            image_height(img) == height,
            image_wf(img),
            forall|x: u32, y: u32| x < width && y < height ==> #[trigger] pixel_at(img, x, y) == (0u8, 0u8, 0u8, 0u8),
    {
        RgbaImage { buffer: ImageBuffer::new(width, height) }
    }

    /// `ImageBuffer::width`.
    #[verifier::external_body]
    pub(crate) fn width(&self) -> (w: u32)
        ensures
            w == image_width(*self),
    {
        self.buffer.width()
    }

    /// `ImageBuffer::height`.
    #[verifier::external_body]
    pub(crate) fn height(&self) -> (h: u32)
        ensures
            h == image_height(*self),
    {
        self.buffer.height()
    }

    /// `ImageBuffer::get_pixel`: the pixel at `(x, y)`; the crate panics
    /// outside the image.
    #[verifier::external_body]
    pub(crate) fn get_pixel(&self, x: u32, y: u32) -> (p: Rgba8)
        requires
            x < image_width(*self),
            y < image_height(*self),
        ensures
            p == pixel_at(*self, x, y),
    {
        let px = self.buffer.get_pixel(x, y);
        (px.0[0], px.0[1], px.0[2], px.0[3])
    }

    /// `ImageBuffer::put_pixel`: replaces the pixel at `(x, y)`; the crate
    /// panics outside the image.
    #[verifier::external_body]
    pub(crate) fn put_pixel(&mut self, x: u32, y: u32, p: Rgba8)
        requires
            x < image_width(*old(self)),
            y < image_height(*old(self)),
        ensures
            image_width(*final(self)) == image_width(*old(self)),
            image_height(*final(self)) == image_height(*old(self)),
            image_pixels(*final(self)) == image_pixels(*old(self)).insert((x, y), p),
    {
        self.buffer.put_pixel(x, y, Rgba([p.0, p.1, p.2, p.3]));
    }

    /// `ImageBuffer::into_raw`: the samples row by row, four per pixel.
    #[verifier::external_body]
    pub(crate) fn into_raw(self) -> (v: Vec<u8>)
        ensures
            v.len() == 4 * image_width(self) * image_height(self),
            forall|x: u32, y: u32, c: int| #![trigger pixel_at(self, x, y), v@[4 * (y * image_width(self) + x) + c]]
                x < image_width(self) && y < image_height(self) && 0 <= c < 4 ==>
                v@[4 * (y * image_width(self) + x) + c] == channel(pixel_at(self, x, y), c),
    {
        self.buffer.into_raw()
    }
}

impl RgbaImage {
    /// The image's width and height.
    pub fn dimensions(&self) -> (r: (u32, u32))
        ensures
            r == (image_width(*self), image_height(*self)),
    {
        (self.width(), self.height())
    }

    /// The pixel at `(x, y)`, or `None` outside the image.
    pub fn pixel(&self, x: u32, y: u32) -> (r: Option<Rgba8>)
        ensures
            (x < image_width(*self) && y < image_height(*self)) ==> r == Some(pixel_at(*self, x, y)),
            !(x < image_width(*self) && y < image_height(*self)) ==> r is None,
    {
        if x < self.width() && y < self.height() {
            Some(self.get_pixel(x, y))
        } else {
            None
        }
    }

    /// The samples row by row, four per pixel (red, green, blue, alpha).
    pub fn into_samples(self) -> (v: Vec<u8>)
        ensures
            v.len() == 4 * image_width(self) * image_height(self),
            forall|x: u32, y: u32, c: int| #![trigger pixel_at(self, x, y), v@[4 * (y * image_width(self) + x) + c]]
                x < image_width(self) && y < image_height(self) && 0 <= c < 4 ==>
                v@[4 * (y * image_width(self) + x) + c] == channel(pixel_at(self, x, y), c),
    {
        self.into_raw()
    }
}

/// Channel `c` (0 red, 1 green, 2 blue, 3 alpha) of a pixel.
pub open spec fn channel(p: Rgba8, c: int) -> u8 {
    if c == 0 { p.0 } else if c == 1 { p.1 } else if c == 2 { p.2 } else { p.3 }
}

} // verus!
