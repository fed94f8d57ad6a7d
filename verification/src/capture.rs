//! What a capture is made of: the options it is taken with, the raster it
//! yields with its metadata, and the backend that finishes it.

use vstd::prelude::*;
use vstd::string::StringExecFns;

use crate::error::ScreenshotError;
use crate::mode::{CaptureMode, OutputFormat};
use crate::raster::{Raster, RasterView};
use crate::region::{out_of_bounds_text, Region};

verus! {

/// A moment in time: whole seconds since the Unix epoch and the nanoseconds
/// past them.
#[derive(Debug, Clone, Copy, PartialEq, Eq, Structural)]
pub struct Timestamp {
    pub seconds: i64,
    pub nanoseconds: u32,
}

/// What is recorded about a capture beside its pixels.
#[derive(Debug, Clone, Copy, PartialEq, Eq, Structural)]
pub struct ScreenshotMetadata {
    pub timestamp: Timestamp,
    pub mode: CaptureMode,
    pub width: u32,
    pub height: u32,
    pub format: OutputFormat,
    pub file_size: Option<u64>,
}

/// A capture: its pixels and what is recorded about them.
#[derive(Debug)]
pub struct Screenshot {
    pub data: Raster,
    pub metadata: ScreenshotMetadata,
}

/// How a capture is to be taken. The delay is in seconds; the region is in
/// the coordinates of the raster the capture service returns.
#[derive(Debug, Clone, Copy, PartialEq, Eq, Structural)]
pub struct CaptureOptions {
    pub delay: Option<u64>,
    pub include_cursor: bool,
    pub monitor_index: Option<usize>,
    pub region: Option<Region>,
}

/// A window on the desktop.
#[derive(Debug, Clone)]
pub struct WindowInfo {
    pub title: String,
    pub app_id: String,
    pub x: i32,
    pub y: i32,
    pub width: u32,
    pub height: u32,
}

/// The capture backend of a Wayland session.
#[derive(Debug, Clone, Copy)]
pub struct WaylandBackend;

/// `chrono::Local::now`, read as seconds and nanoseconds since the epoch.
/// Nothing is claimed of the moment it returns.
#[verifier::external_body]
fn now() -> Timestamp {
    let moment = chrono::Local::now();
    Timestamp { seconds: moment.timestamp(), nanoseconds: moment.timestamp_subsec_nanos() }
}

impl Default for CaptureOptions {
    fn default() -> (options: Self)
        ensures
            options == (CaptureOptions {
                delay: None,
                include_cursor: false,
                monitor_index: None,
                region: None,
            }),
    {
        CaptureOptions { delay: None, include_cursor: false, monitor_index: None, region: None }
    }
}

impl Clone for Screenshot {
    fn clone(&self) -> (copy: Self)
        ensures
            copy.data@ == self.data@,
            copy.metadata == self.metadata,
    {
        Screenshot { data: self.data.clone(), metadata: self.metadata }
    }
}

impl Screenshot {
    /// Wraps a raster as a capture taken now: the metadata records the
    /// raster's own size, and no file size yet.
    pub fn new(data: Raster, mode: CaptureMode, format: OutputFormat) -> (shot: Self)
        ensures
            shot.data@ == data@,
            shot.metadata.mode == mode,
            shot.metadata.format == format,
            shot.metadata.width == data@.width,
            shot.metadata.height == data@.height,
            shot.metadata.file_size is None,
    {
        let size = data.dimensions();
        Screenshot {
            data,
            metadata: ScreenshotMetadata {
                timestamp: now(),
                mode,
                width: size.width,
                height: size.height,
                format,
                file_size: None,
            },
        }
    }

    pub fn width(&self) -> (w: u32)
        ensures
            w == self.data@.width,
    {
        self.data.width()
    }

    pub fn height(&self) -> (h: u32)
        ensures
            h == self.data@.height,
    {
        self.data.height()
    }
}

/// What cropping `data` to `region` yields: the raster itself without a
/// region; with one, the window of the normalized region, provided that it
/// lies on the raster. `None` stands for a region that leaves the raster.
pub open spec fn cropped_to(data: RasterView, region: Option<Region>) -> Option<RasterView> {
    match region {
        None => Some(data),
        Some(r) => {
            let n = r.normalized();
            if n.within(data.bounds()) {
                Some(data.window(n.x as u32, n.y as u32, n.width, n.height))
            } else {
                None
            }
        },
    }
}

/// Crops a captured raster to the region that was asked for. The region is
/// normalized and then held against the size of the raster as it came back;
/// one that leaves the raster fails the capture and is never clamped.
pub fn crop_to_region(data: Raster, region: Option<Region>) -> (r: Result<Raster, ScreenshotError>)
    ensures
        match cropped_to(data@, region) {
            Some(view) => r matches Ok(out) && out@ == view && out@.wf(),
            None => r matches Err(e) && e matches ScreenshotError::InvalidRegion(text) && text@
                == out_of_bounds_text(),
        },
        r matches Ok(out) ==> (region matches Some(asked) ==> out@.width == asked.width
            && out@.height == asked.height),
{
    match region {
        None => {
            let _ = data.dimensions();
            Ok(data)
        },
        Some(asked) => {
            let n = asked.normalize();
            match n.validate_within(data.dimensions()) {
                Ok(()) => Ok(data.crop(n.x as u32, n.y as u32, n.width, n.height)),
                Err(e) => Err(e),
            }
        },
    }
}

/// A region of plain sizes that lies on the raster is accepted as it
/// stands, wherever on the raster it lies: the crop is its window and has
/// its size.
pub proof fn lemma_region_on_raster_is_accepted(data: RasterView, region: Region)
    requires
        region.within(data.bounds()),
        region.width <= i32::MAX,
        region.height <= i32::MAX,
    ensures
        cropped_to(data, Some(region)) == Some(
            data.window(region.x as u32, region.y as u32, region.width, region.height),
        ),
        cropped_to(data, Some(region))->0.width == region.width,
        cropped_to(data, Some(region))->0.height == region.height,
{
}

/// A region that does not lie on the raster once normalized is refused,
/// and no region is ever accepted with another size than its own.
pub proof fn lemma_region_off_raster_is_refused(data: RasterView, region: Region)
    ensures
        !region.normalized().within(data.bounds()) ==> cropped_to(data, Some(region)) is None,
        cropped_to(data, Some(region)) matches Some(view) ==> view.width == region.width
            && view.height == region.height,
{
}

impl WaylandBackend {
    pub fn new() -> (r: Result<Self, ScreenshotError>)
        ensures
            r is Ok,
    {
        Ok(WaylandBackend)
    }

    /// Whether the capture service is asked for its own picker in `mode`.
    pub fn interactive_for(&self, mode: CaptureMode) -> (b: bool)
        ensures
            b == mode.interactive(),
    {
        mode.is_interactive()
    }

    /// Finishes a capture once the service has returned its raster: crops it
    /// to the region of the options, if there is one, and records it as a
    /// PNG capture in `mode`.
    pub fn finish(&self, data: Raster, mode: CaptureMode, options: &CaptureOptions) -> (r: Result<
        Screenshot,
        ScreenshotError,
    >)
        ensures
            match cropped_to(data@, options.region) {
                Some(view) => r matches Ok(shot) && shot.data@ == view && shot.metadata.mode
                    == mode && shot.metadata.format == OutputFormat::Png && shot.metadata.width
                    == view.width && shot.metadata.height == view.height
                    && shot.metadata.file_size is None,
                None => r matches Err(e) && e matches ScreenshotError::InvalidRegion(text)
                    && text@ == out_of_bounds_text(),
            },
    {
        match crop_to_region(data, options.region) {
            Ok(cut) => Ok(Screenshot::new(cut, mode, OutputFormat::Png)),
            Err(e) => Err(e),
        }
    }
}

/// Chooses the backend for the session: the Wayland backend where a Wayland
/// display is announced, and none otherwise.
pub fn create_backend(wayland_display_announced: bool) -> (r: Result<
    WaylandBackend,
    ScreenshotError,
>)
    ensures
        r is Ok <==> wayland_display_announced,
        r matches Err(e) ==> e == ScreenshotError::BackendUnavailable,
{
    if wayland_display_announced {
        WaylandBackend::new()
    } else {
        Err(ScreenshotError::BackendUnavailable)
    }
}

} // verus!
