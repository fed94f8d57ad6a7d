//! Raw RGBA rasters and the pixel operations the `image` crate performs on
//! them.
//!
//! A raster is held as plain values: its size and its samples, four per
//! pixel, row by row. The operations that only the `image` crate computes
//! stand behind small unverified functions at the end of this file; their
//! contracts are stated over the same plain values.

use vstd::prelude::*;
use vstd::arithmetic::div_mod::lemma_fundamental_div_mod_converse;

use crate::region::Bounds;

verus! {

/// A raster as a mathematical value.
pub struct RasterView {
    pub width: u32,
    pub height: u32,
    pub pixels: Seq<u8>,
}

/// What `image::imageops::overlay` leaves in the bottom buffer: the samples
/// of `bottom` with `top` composited over them at `(x, y)`.
pub uninterp spec fn overlaid_pixels(
    bottom_width: u32,
    bottom_height: u32,
    bottom: Seq<u8>,
    top_width: u32,
    top_height: u32,
    top: Seq<u8>,
    x: i64,
    y: i64,
) -> Seq<u8>;

/// The smaller of two sizes.
pub open spec fn at_most(a: int, b: int) -> int {
    if a <= b {
        a
    } else {
        b
    }
}

impl RasterView {
    /// There are exactly four samples for every pixel.
    pub open spec fn wf(self) -> bool {
        self.pixels.len() == 4 * self.width * self.height
    }

    pub open spec fn bounds(self) -> Bounds {
        Bounds { width: self.width, height: self.height }
    }

    /// Channel `c` of the pixel in column `x` of row `y`.
    pub open spec fn sample(self, x: int, y: int, c: int) -> u8 {
        self.pixels[(y * self.width + x) * 4 + c]
    }

    /// The part of the window `(x, y, width, height)` that lies on the
    /// raster: the origin is held to the raster's size, and the size to what
    /// is left beyond the origin.
    pub open spec fn clip(self, x: u32, y: u32, width: u32, height: u32) -> (int, int, int, int) {
        let x0 = at_most(x as int, self.width as int);
        let y0 = at_most(y as int, self.height as int);
        let h = at_most(height as int, self.height - y0);
        let w = at_most(width as int, self.width - x0);
        (x0, y0, w, h)
    }

    /// The raster cut out by the window `(x, y, width, height)`, clipped to
    /// the raster.
    pub open spec fn window(self, x: u32, y: u32, width: u32, height: u32) -> RasterView {
        let (x0, y0, w, h) = self.clip(x, y, width, height);
        RasterView {
            width: w as u32,
            height: h as u32,
            pixels: Seq::new(
                (4 * w * h) as nat,
                |i: int| self.sample(x0 + (i / 4) % w, y0 + (i / 4) / w, i % 4),
            ),
        }
    }

    /// Whether the raster has a pixel in column `x` of row `y`.
    pub open spec fn has(self, x: int, y: int) -> bool {
        0 <= x < self.width && 0 <= y < self.height
    }

    /// What compositing leaves in each pixel of `out`, this raster being
    /// the bottom and `top` lying with its corner at `(x, y)`: a pixel that
    /// `top` does not reach, or reaches with a fully transparent pixel, is
    /// as it was; one that `top` reaches with a fully opaque pixel is that
    /// pixel. Of a pixel blended with a translucent one nothing is said.
    pub open spec fn composited(self, top: RasterView, x: i64, y: i64, out: RasterView) -> bool {
        forall|px: int, py: int, c: int|
            self.has(px, py) && 0 <= c < 4 ==> #[trigger] out.sample(px, py, c) == (if top.has(
                px - x,
                py - y,
            ) && top.sample(px - x, py - y, 3) == 255 {
                top.sample(px - x, py - y, c)
            } else if top.has(px - x, py - y) && top.sample(px - x, py - y, 3) != 0 {
                out.sample(px, py, c)
            } else {
                self.sample(px, py, c)
            })
    }

    /// A raster of one colour.
    pub open spec fn solid(width: u32, height: u32, rgba: [u8; 4]) -> RasterView {
        RasterView {
            width,
            height,
            pixels: Seq::new((4 * width * height) as nat, |i: int| rgba@[i % 4]),
        }
    }

    /// `top` composited over this raster at `(x, y)`.
    pub open spec fn overlaid(self, top: RasterView, x: i64, y: i64) -> RasterView {
        RasterView {
            width: self.width,
            height: self.height,
            pixels: overlaid_pixels(
                self.width,
                self.height,
                self.pixels,
                top.width,
                top.height,
                top.pixels,
                x,
                y,
            ),
        }
    }

    /// What holds of every resampling of this raster to `width` x `height`:
    /// the size is as asked; an empty source gives a blank raster, and an
    /// unchanged size gives the same samples. The samples in between come
    /// out of a floating-point kernel and may differ from machine to
    /// machine.
    pub open spec fn resampled_to(self, out: RasterView, width: u32, height: u32) -> bool {
        &&& out.width == width
        &&& out.height == height
        &&& out.wf()
        &&& self.width == 0 || self.height == 0 ==> forall|i: int|
            0 <= i < out.pixels.len() ==> out.pixels[i] == 0
        &&& self.width != 0 && self.height != 0 && self.width == width && self.height == height
            ==> out.pixels == self.pixels
    }
}

/// The number of samples of a `width` x `height` raster.
pub open spec fn sample_count(width: u32, height: u32) -> int {
    4 * width * height
}

/// Whether a `width` x `height` raster can be allocated at all.
pub open spec fn allocatable(width: u32, height: u32) -> bool {
    sample_count(width, height) <= isize::MAX
}

/// An RGBA raster with 8 bits per channel.
#[derive(Debug, PartialEq, Eq)]
pub struct Raster {
    width: u32,
    height: u32,
    pixels: Vec<u8>,
}

impl View for Raster {
    type V = RasterView;

    closed spec fn view(&self) -> RasterView {
        RasterView { width: self.width, height: self.height, pixels: self.pixels@ }
    }
}

impl Clone for Raster {
    fn clone(&self) -> (r: Self)
        ensures
            r@ == self@,
    {
        proof {
            use_type_invariant(self);
        }
        Raster { width: self.width, height: self.height, pixels: self.pixels.clone() }
    }
}

fn four_times_area(width: u32, height: u32) -> (n: u128)
    ensures
        n == sample_count(width, height),
{
    let area: u64 = mul_u32(width, height);
    assert(4 * (width * height) == 4 * width * height) by (nonlinear_arith);
    4u128 * (area as u128)
}

fn mul_u32(a: u32, b: u32) -> (p: u64)
    ensures
        p == a * b,
{
    assert(a * b <= 0xffff_ffff * 0xffff_ffff) by (nonlinear_arith)
        requires
            a <= 0xffff_ffff,
            b <= 0xffff_ffff,
    ;
    (a as u64) * (b as u64)
}

impl Raster {
    #[verifier::type_invariant]
    spec fn well_formed(self) -> bool {
        self@.wf()
    }

    /// A raster over `pixels`, which must hold exactly four samples per
    /// pixel.
    pub fn from_raw(width: u32, height: u32, pixels: Vec<u8>) -> (r: Option<Raster>)
        ensures
            r is Some <==> pixels@.len() == sample_count(width, height),
            r matches Some(img) ==> img@ == (RasterView { width, height, pixels: pixels@ }),
    {
        if pixels.len() as u128 == four_times_area(width, height) {
            Some(Raster { width, height, pixels })
        } else {
            None
        }
    }

    pub fn width(&self) -> (w: u32)
        ensures
            w == self@.width,
    {
        self.width
    }

    pub fn height(&self) -> (h: u32)
        ensures
            h == self@.height,
    {
        self.height
    }

    /// The size of the raster; its samples are four per pixel.
    pub fn dimensions(&self) -> (b: Bounds)
        ensures
            b == self@.bounds(),
            self@.wf(),
    {
        proof {
            use_type_invariant(self);
        }
        Bounds { width: self.width, height: self.height }
    }

    /// The samples, row by row, four per pixel.
    pub fn as_raw(&self) -> (p: &Vec<u8>)
        ensures
            p@ == self@.pixels,
            self@.wf(),
    {
        proof {
            use_type_invariant(self);
        }
        &self.pixels
    }

    pub fn into_raw(self) -> (p: Vec<u8>)
        ensures
            p@ == self@.pixels,
            self@.wf(),
    {
        proof {
            use_type_invariant(&self);
        }
        self.pixels
    }

    /// Cuts the window `(x, y, width, height)` out of the raster. A window
    /// that reaches beyond the raster is clipped to it.
    pub fn crop(&self, x: u32, y: u32, width: u32, height: u32) -> (out: Raster)
        ensures
            out@ == self@.window(x, y, width, height),
            out@.wf(),
            x + width <= self@.width && y + height <= self@.height ==> out@.width == width
                && out@.height == height,
    {
        proof {
            use_type_invariant(self);
        }
        let out = cut(self, x, y, width, height);
        proof {
            use_type_invariant(&out);
        }
        out
    }

    /// A raster filled with one colour.
    pub fn filled(width: u32, height: u32, rgba: [u8; 4]) -> (out: Raster)
        requires
            allocatable(width, height),
        ensures
            out@ == RasterView::solid(width, height, rgba),
            out@.wf(),
    {
        let out = fill(width, height, rgba);
        proof {
            use_type_invariant(&out);
        }
        out
    }

    /// Composites `top` over this raster with its corner at `(x, y)`; what
    /// falls outside is dropped. The size of the raster does not change.
    pub fn overlay(self, top: &Raster, x: i64, y: i64) -> (out: Raster)
        ensures
            out@ == self@.overlaid(top@, x, y),
            self@.composited(top@, x, y, out@),
            out@.wf(),
    {
        proof {
            use_type_invariant(&self);
            use_type_invariant(top);
        }
        let out = composite(self, top, x, y);
        proof {
            use_type_invariant(&out);
        }
        out
    }

    /// Whether a resampling to `width` x `height` can hold its intermediate
    /// and final buffers.
    pub open spec fn resizable_to(self, width: u32, height: u32) -> bool {
        &&& sample_count(width, height) <= isize::MAX
        &&& 4 * sample_count(self@.width, height) <= isize::MAX
    }

    /// Resamples the raster to `width` x `height` with a Lanczos filter of
    /// window 3.
    pub fn resize(&self, width: u32, height: u32) -> (out: Raster)
        requires
            self.resizable_to(width, height),
        ensures
            self@.resampled_to(out@, width, height),
    {
        proof {
            use_type_invariant(self);
        }
        resample(self, width, height)
    }
}

/// Inside an unclipped window, each sample is the sample of the source at
/// the same place, moved by the window's origin.
pub proof fn lemma_window_samples(
    src: RasterView,
    x: u32,
    y: u32,
    width: u32,
    height: u32,
    col: int,
    row: int,
    c: int,
)
    requires
        src.wf(),
        x + width <= src.width,
        y + height <= src.height,
        0 <= col < width,
        0 <= row < height,
        0 <= c < 4,
    ensures
        src.window(x, y, width, height).width == width,
        src.window(x, y, width, height).height == height,
        src.window(x, y, width, height).wf(),
        src.window(x, y, width, height).sample(col, row, c) == src.sample(x + col, y + row, c),
{
    let out = src.window(x, y, width, height);
    let p = row * width + col;
    let i = p * 4 + c;
    assert(0 <= p < width * height) by (nonlinear_arith)
        requires
            0 <= col < width,
            0 <= row < height,
            p == row * width + col,
    ;
    assert(0 <= i < 4 * width * height) by (nonlinear_arith)
        requires
            0 <= p < width * height,
            0 <= c < 4,
            i == p * 4 + c,
    ;
    lemma_fundamental_div_mod_converse(i, 4, p, c);
    lemma_fundamental_div_mod_converse(p, width as int, row, col);
    assert(out.pixels[i] == src.sample(x + (i / 4) % (width as int), y + (i / 4) / (width as int), i % 4));
}

/// Every sample of a raster of one colour is that colour's.
pub proof fn lemma_solid_samples(width: u32, height: u32, rgba: [u8; 4], x: int, y: int, c: int)
    requires
        0 <= x < width,
        0 <= y < height,
        0 <= c < 4,
    ensures
        RasterView::solid(width, height, rgba).wf(),
        RasterView::solid(width, height, rgba).sample(x, y, c) == rgba@[c],
{
    let p = y * width + x;
    let i = p * 4 + c;
    assert(0 <= p < width * height) by (nonlinear_arith)
        requires
            0 <= x < width,
            0 <= y < height,
            p == y * width + x,
    ;
    assert(0 <= i < 4 * width * height) by (nonlinear_arith)
        requires
            0 <= p < width * height,
            0 <= c < 4,
            i == p * 4 + c,
    ;
    lemma_fundamental_div_mod_converse(i, 4, p, c);
}

/// `image::imageops::crop_imm` followed by `SubImage::to_image`: the window
/// is clipped to the image as `crop_imm` does, and each pixel of the result
/// is copied from the source at the window's offset.
#[verifier::external_body]
fn cut(src: &Raster, x: u32, y: u32, width: u32, height: u32) -> (out: Raster)
    requires
        src@.wf(),
    ensures
        out@ == src@.window(x, y, width, height),
{
    let img = image::RgbaImage::from_raw(src.width, src.height, src.pixels.clone()).unwrap();
    let part = image::imageops::crop_imm(&img, x, y, width, height).to_image();
    Raster { width: part.width(), height: part.height(), pixels: part.into_raw() }
}

/// `image::RgbaImage::from_pixel`: every pixel of the new buffer is the
/// given one. It panics where the buffer cannot be allocated, which the
/// precondition excludes.
#[verifier::external_body]
fn fill(width: u32, height: u32, rgba: [u8; 4]) -> (out: Raster)
    requires
        allocatable(width, height),
    ensures
        out@ == RasterView::solid(width, height, rgba),
{
    let img = image::RgbaImage::from_pixel(width, height, image::Rgba(rgba));
    Raster { width: img.width(), height: img.height(), pixels: img.into_raw() }
}

/// `image::imageops::overlay`: blends `top` into `bottom` pixel by pixel
/// where the two overlap and leaves the size of `bottom` as it was. A pixel
/// outside the overlap is untouched; the blend keeps the bottom pixel under
/// a top pixel of alpha 0 and takes the top pixel of alpha 255. The samples
/// as a whole are named, not spelled out.
#[verifier::external_body]
fn composite(bottom: Raster, top: &Raster, x: i64, y: i64) -> (out: Raster)
    requires
        bottom@.wf(),
        top@.wf(),
    ensures
        out@.width == bottom@.width,
        out@.height == bottom@.height,
        out@.pixels == overlaid_pixels(
            bottom@.width,
            bottom@.height,
            bottom@.pixels,
            top@.width,
            top@.height,
            top@.pixels,
            x,
            y,
        ),
        bottom@.composited(top@, x, y, out@),
        out@.wf(),
{
    let mut under = image::RgbaImage::from_raw(bottom.width, bottom.height, bottom.pixels).unwrap();
    let over = image::RgbaImage::from_raw(top.width, top.height, top.pixels.clone()).unwrap();
    image::imageops::overlay(&mut under, &over, x, y);
    Raster { width: under.width(), height: under.height(), pixels: under.into_raw() }
}

/// `image::imageops::resize` with `FilterType::Lanczos3`: the result has the
/// size asked for; a source without pixels gives a zeroed buffer, and a
/// source of that very size is copied. Nothing else is claimed of the
/// samples and they are given no name: the kernel is a windowed sinc
/// computed with `f32::sin`, whose precision the standard library leaves to
/// the platform, so the same raster need not give the same samples on every
/// machine.
#[verifier::external_body]
fn resample(src: &Raster, width: u32, height: u32) -> (out: Raster)
    requires
        src@.wf(),
        src.resizable_to(width, height),
    ensures
        src@.resampled_to(out@, width, height),
{
    let img = image::RgbaImage::from_raw(src.width, src.height, src.pixels.clone()).unwrap();
    let scaled = image::imageops::resize(&img, width, height, image::imageops::FilterType::Lanczos3);
    Raster { width: scaled.width(), height: scaled.height(), pixels: scaled.into_raw() }
}

} // verus!
