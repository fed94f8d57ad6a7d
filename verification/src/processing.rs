//! Transforms of a finished capture: cropping, padding with a border or a
//! shadow margin, and resizing.

use vstd::prelude::*;
use vstd::string::StringExecFns;

use crate::capture::{Screenshot, ScreenshotMetadata};
use crate::error::ScreenshotError;
use crate::raster::{allocatable, lemma_solid_samples, Raster, RasterView};
use crate::region::out_of_bounds_text;

verus! {

/// The transforms of a capture. Each returns a new capture and leaves the
/// one it was given as it was.
#[derive(Debug, Clone, Copy)]
pub struct ImageProcessor;

/// The metadata of a capture after a transform that leaves it
/// `width` x `height`.
pub open spec fn resized_metadata(
    metadata: ScreenshotMetadata,
    width: u32,
    height: u32,
) -> ScreenshotMetadata {
    ScreenshotMetadata { width, height, ..metadata }
}

/// One side of a raster after a margin is added at both of its ends.
pub open spec fn padded_side(side: u32, margin: u32) -> int {
    side + 2 * margin
}

/// Whether a `width` x `height` raster can carry a margin on every side:
/// the padded sides fit their type and the padded raster can be allocated.
pub open spec fn paddable(width: u32, height: u32, margin: u32) -> bool {
    &&& padded_side(width, margin) <= u32::MAX
    &&& padded_side(height, margin) <= u32::MAX
    &&& allocatable(padded_side(width, margin) as u32, padded_side(height, margin) as u32)
}

/// A raster of one colour with `data` laid over it, `margin` pixels in from
/// the top-left corner.
pub open spec fn padded(data: RasterView, margin: u32, rgba: [u8; 4]) -> RasterView {
    RasterView::solid(
        padded_side(data.width, margin) as u32,
        padded_side(data.height, margin) as u32,
        rgba,
    ).overlaid(data, margin as i64, margin as i64)
}

/// What padding leaves in each pixel of `out`: within the margin the
/// colour of the padding; further in, the pixel of `data` where that one is
/// fully opaque, and the colour of the padding where it is fully
/// transparent.
pub open spec fn framed(data: RasterView, margin: u32, rgba: [u8; 4], out: RasterView) -> bool {
    forall|px: int, py: int, c: int|
        out.has(px, py) && 0 <= c < 4 ==> #[trigger] out.sample(px, py, c) == (if data.has(
            px - margin,
            py - margin,
        ) && data.sample(px - margin, py - margin, 3) == 255 {
            data.sample(px - margin, py - margin, c)
        } else if data.has(px - margin, py - margin) && data.sample(
            px - margin,
            py - margin,
            3,
        ) != 0 {
            out.sample(px, py, c)
        } else {
            rgba@[c]
        })
}

fn pad(data: &Raster, margin: u32, rgba: [u8; 4]) -> (out: Raster)
    requires
        paddable(data@.width, data@.height, margin),
    ensures
        out@ == padded(data@, margin, rgba),
        out@.width == padded_side(data@.width, margin),
        out@.height == padded_side(data@.height, margin),
        framed(data@, margin, rgba, out@),
        out@.wf(),
{
    let width: u32 = data.width() + 2 * margin;
    let height: u32 = data.height() + 2 * margin;
    let base = Raster::filled(width, height, rgba);
    let ghost under = base@;
    let out = base.overlay(data, margin as i64, margin as i64);
    proof {
        assert forall|px: int, py: int, c: int| out@.has(px, py) && 0 <= c < 4 implies under.sample(
            px,
            py,
            c,
        ) == rgba@[c] by {
            lemma_solid_samples(width, height, rgba, px, py, c);
        }
    }
    out
}

impl ImageProcessor {
    /// Whether `pad` can add `margin` on every side of the capture.
    pub fn can_pad(screenshot: &Screenshot, margin: u32) -> (b: bool)
        ensures
            b == paddable(screenshot.data@.width, screenshot.data@.height, margin),
    {
        let width: u64 = screenshot.data.width() as u64 + 2 * (margin as u64);
        let height: u64 = screenshot.data.height() as u64 + 2 * (margin as u64);
        if width > 0xffff_ffff || height > 0xffff_ffff {
            return false;
        }
        assert(width * height <= 0xffff_ffff * 0xffff_ffff) by (nonlinear_arith)
            requires
                width <= 0xffff_ffff,
                height <= 0xffff_ffff,
        ;
        assert(4 * (width * height) == 4 * width * height) by (nonlinear_arith);
        let samples: u128 = 4u128 * ((width * height) as u128);
        samples <= isize::MAX as u128
    }

    /// Cuts the window `(x, y, width, height)` out of the capture. A window
    /// that leaves the capture is refused as an invalid region; nothing is
    /// clipped.
    pub fn crop(screenshot: &Screenshot, x: u32, y: u32, width: u32, height: u32) -> (r: Result<
        Screenshot,
        ScreenshotError,
    >)
        ensures
            x + width <= screenshot.data@.width && y + height <= screenshot.data@.height ==> (
            r matches Ok(shot) && shot.data@ == screenshot.data@.window(x, y, width, height)
                && shot.data@.width == width && shot.data@.height == height && shot.metadata
                == resized_metadata(screenshot.metadata, width, height)),
            !(x + width <= screenshot.data@.width && y + height <= screenshot.data@.height) ==> (
            r matches Err(e) && e matches ScreenshotError::InvalidRegion(text) && text@
                == out_of_bounds_text()),
    {
        if x as u64 + width as u64 > screenshot.data.width() as u64 || y as u64 + height as u64
            > screenshot.data.height() as u64 {
            return Err(ScreenshotError::InvalidRegion(String::from_str("Region out of bounds")));
        }
        let data = screenshot.data.crop(x, y, width, height);
        Ok(
            Screenshot {
                data,
                metadata: ScreenshotMetadata { width, height, ..screenshot.metadata },
            },
        )
    }

    /// Surrounds the capture with a border of `width` pixels in `color`.
    pub fn add_border(screenshot: &Screenshot, width: u32, color: [u8; 4]) -> (r: Result<
        Screenshot,
        ScreenshotError,
    >)
        requires
            paddable(screenshot.data@.width, screenshot.data@.height, width),
        ensures
            r matches Ok(shot) && shot.data@ == padded(screenshot.data@, width, color) && framed(
                screenshot.data@,
                width,
                color,
                shot.data@,
            ) && shot.metadata == resized_metadata(
                screenshot.metadata,
                padded_side(screenshot.data@.width, width) as u32,
                padded_side(screenshot.data@.height, width) as u32,
            ),
    {
        let data = pad(&screenshot.data, width, color);
        Ok(
            Screenshot {
                metadata: ScreenshotMetadata {
                    width: data.width(),
                    height: data.height(),
                    ..screenshot.metadata
                },
                data,
            },
        )
    }

    /// Surrounds the capture with a transparent margin of `offset` pixels.
    pub fn add_shadow(screenshot: &Screenshot, offset: u32) -> (r: Result<
        Screenshot,
        ScreenshotError,
    >)
        requires
            paddable(screenshot.data@.width, screenshot.data@.height, offset),
        ensures
            r matches Ok(shot) && shot.data@ == padded(screenshot.data@, offset, [0u8, 0, 0, 0])
                && framed(screenshot.data@, offset, [0u8, 0, 0, 0], shot.data@) && shot.metadata
                == resized_metadata(
                screenshot.metadata,
                padded_side(screenshot.data@.width, offset) as u32,
                padded_side(screenshot.data@.height, offset) as u32,
            ),
    {
        let data = pad(&screenshot.data, offset, [0u8, 0, 0, 0]);
        Ok(
            Screenshot {
                metadata: ScreenshotMetadata {
                    width: data.width(),
                    height: data.height(),
                    ..screenshot.metadata
                },
                data,
            },
        )
    }

    /// Whether `resize` can bring the capture to `width` x `height`.
    pub fn can_resize(screenshot: &Screenshot, width: u32, height: u32) -> (b: bool)
        ensures
            b == screenshot.data.resizable_to(width, height),
    {
        let own: u64 = screenshot.data.width() as u64;
        let w: u64 = width as u64;
        let h: u64 = height as u64;
        assert(w * h <= 0xffff_ffff * 0xffff_ffff) by (nonlinear_arith)
            requires
                w <= 0xffff_ffff,
                h <= 0xffff_ffff,
        ;
        assert(own * h <= 0xffff_ffff * 0xffff_ffff) by (nonlinear_arith)
            requires
                own <= 0xffff_ffff,
                h <= 0xffff_ffff,
        ;
        assert(4 * (w * h) == 4 * w * h) by (nonlinear_arith);
        assert(4 * (4 * (own * h)) == 4 * (4 * own * h)) by (nonlinear_arith);
        let out: u128 = 4u128 * ((w * h) as u128);
        let between: u128 = 16u128 * ((own * h) as u128);
        out <= isize::MAX as u128 && between <= isize::MAX as u128
    }

    /// Resamples the capture to `width` x `height`.
    pub fn resize(screenshot: &Screenshot, width: u32, height: u32) -> (r: Result<
        Screenshot,
        ScreenshotError,
    >)
        requires
            screenshot.data.resizable_to(width, height),
        ensures
            r matches Ok(shot) && screenshot.data@.resampled_to(shot.data@, width, height)
                && shot.metadata == resized_metadata(screenshot.metadata, width, height),
    {
        let data = screenshot.data.resize(width, height);
        Ok(
            Screenshot {
                data,
                metadata: ScreenshotMetadata { width, height, ..screenshot.metadata },
            },
        )
    }
}

} // verus!
