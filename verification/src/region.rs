//! Rectangles on the desktop, the points that span them, and the bounds
//! they are checked against.

use vstd::prelude::*;
use vstd::string::StringExecFns;

use crate::error::ScreenshotError;

verus! {

/// A pointer position in whole pixels.
#[derive(Debug, Clone, Copy, PartialEq, Eq, Structural)]
pub struct Point {
    pub x: i32,
    pub y: i32,
}

/// The size of a raster or of a screen, in pixels.
#[derive(Debug, Clone, Copy, PartialEq, Eq, Structural)]
pub struct Bounds {
    pub width: u32,
    pub height: u32,
}

/// Offset and size of one output within the global desktop space.
#[derive(Debug, Clone, Copy, PartialEq, Eq, Structural)]
pub struct MonitorGeometry {
    pub x: i32,
    pub y: i32,
    pub width: u32,
    pub height: u32,
}

/// An axis-aligned rectangle. Whether it is overlay-local or global is the
/// caller's knowledge; the type does not record it.
#[derive(Debug, Clone, Copy, PartialEq, Eq, Structural)]
pub struct Region {
    pub x: i32,
    pub y: i32,
    pub width: u32,
    pub height: u32,
}

/// The text carried by the error of a region that leaves its bounds.
pub open spec fn out_of_bounds_text() -> Seq<char> {
    "Region out of bounds"@
}

/// A stored extent read as a signed 32-bit value: extents above `i32::MAX`
/// stand for a negative size.
pub open spec fn signed_extent(extent: u32) -> int {
    if extent <= i32::MAX {
        extent as int
    } else {
        extent as int - 0x1_0000_0000
    }
}

/// The canonical origin along one axis. The far edge is the stored origin
/// plus the signed extent, as an integer. Where the extent stands for a
/// negative size and the far edge is a coordinate, the far edge is the
/// origin; in every other case the stored origin is.
pub open spec fn normalized_origin(origin: i32, extent: u32) -> int {
    let far = origin + signed_extent(extent);
    if i32::MIN <= far < origin {
        far
    } else {
        origin as int
    }
}

/// The distance between two coordinates.
pub open spec fn span(a: i32, b: i32) -> int {
    if a <= b {
        b - a
    } else {
        a - b
    }
}

/// The smaller of two coordinates.
pub open spec fn lesser(a: i32, b: i32) -> int {
    if a <= b {
        a as int
    } else {
        b as int
    }
}

fn origin_of(origin: i32, extent: u32) -> (r: i32)
    ensures
        r == normalized_origin(origin, extent),
{
    let signed: i64 = if extent <= 0x7fff_ffff {
        extent as i64
    } else {
        extent as i64 - 0x1_0000_0000
    };
    let far: i64 = origin as i64 + signed;
    if -0x8000_0000 <= far && far < origin as i64 {
        far as i32
    } else {
        origin
    }
}

fn distance(a: i32, b: i32) -> (r: u32)
    ensures
        r == span(a, b),
{
    let d: i64 = if a <= b {
        b as i64 - a as i64
    } else {
        a as i64 - b as i64
    };
    d as u32
}

impl Region {
    pub fn new(x: i32, y: i32, width: u32, height: u32) -> (r: Self)
        ensures
            r == (Region { x, y, width, height }),
    {
        Self { x, y, width, height }
    }

    /// The rectangle spanned by a drag from `a` to `b`.
    pub open spec fn spanning(a: Point, b: Point) -> Region {
        Region {
            x: lesser(a.x, b.x) as i32,
            y: lesser(a.y, b.y) as i32,
            width: span(a.x, b.x) as u32,
            height: span(a.y, b.y) as u32,
        }
    }

    /// The rectangle spanned by a drag from `a` to `b`: its origin is the
    /// smaller coordinate on each axis, its size the distance between the two.
    pub fn from_drag(a: Point, b: Point) -> (r: Self)
        ensures
            r == Region::spanning(a, b),
            r.x == lesser(a.x, b.x),
            r.y == lesser(a.y, b.y),
            r.width == span(a.x, b.x),
            r.height == span(a.y, b.y),
    {
        Region {
            x: if a.x <= b.x { a.x } else { b.x },
            y: if a.y <= b.y { a.y } else { b.y },
            width: distance(a.x, b.x),
            height: distance(a.y, b.y),
        }
    }

    /// What `normalize` returns.
    pub open spec fn normalized(self) -> Region {
        Region {
            x: normalized_origin(self.x, self.width) as i32,
            y: normalized_origin(self.y, self.height) as i32,
            width: self.width,
            height: self.height,
        }
    }

    /// The same rectangle anchored at its top-left corner. Width and height
    /// are kept as stored; only the origin moves, and only to a corner that
    /// is a coordinate: no origin is ever wrapped.
    pub fn normalize(&self) -> (r: Self)
        ensures
            r == self.normalized(),
            r.x == normalized_origin(self.x, self.width),
            r.y == normalized_origin(self.y, self.height),
            r.width == self.width,
            r.height == self.height,
    {
        Self {
            x: origin_of(self.x, self.width),
            y: origin_of(self.y, self.height),
            width: self.width,
            height: self.height,
        }
    }

    /// Whether the rectangle lies wholly inside `bounds`.
    pub open spec fn within(self, bounds: Bounds) -> bool {
        &&& self.x >= 0
        &&& self.y >= 0
        &&& self.x + self.width <= bounds.width
        &&& self.y + self.height <= bounds.height
    }

    /// Accepts the rectangle exactly when it lies inside `bounds`.
    pub fn validate_within(&self, bounds: Bounds) -> (r: Result<(), ScreenshotError>)
        ensures
            r is Ok <==> self.within(bounds),
            r matches Err(e) ==> e matches ScreenshotError::InvalidRegion(text) && text@
                == out_of_bounds_text(),
    {
        if self.x < 0 || self.y < 0 || self.x as u64 + self.width as u64 > bounds.width as u64
            || self.y as u64 + self.height as u64 > bounds.height as u64 {
            Err(ScreenshotError::InvalidRegion(String::from_str("Region out of bounds")))
        } else {
            Ok(())
        }
    }

    /// Whether moving the rectangle by the monitor's offset stays within
    /// the coordinate range.
    pub open spec fn translatable(self, monitor: MonitorGeometry) -> bool {
        &&& i32::MIN <= self.x + monitor.x <= i32::MAX
        &&& i32::MIN <= self.y + monitor.y <= i32::MAX
    }

    /// The rectangle moved by the monitor's offset.
    pub open spec fn translated(self, monitor: MonitorGeometry) -> Region {
        Region {
            x: (self.x + monitor.x) as i32,
            y: (self.y + monitor.y) as i32,
            width: self.width,
            height: self.height,
        }
    }

    /// Moves an overlay-local rectangle into global space by adding the
    /// monitor's offset. `None` when a moved coordinate is not representable.
    pub fn translate_to_global(&self, monitor: &MonitorGeometry) -> (r: Option<Region>)
        ensures
            r is Some <==> self.translatable(*monitor),
            r matches Some(g) ==> g == self.translated(*monitor) && g.x == self.x + monitor.x
                && g.y == self.y + monitor.y && g.width == self.width && g.height
                == self.height,
    {
        let x: i64 = self.x as i64 + monitor.x as i64;
        let y: i64 = self.y as i64 + monitor.y as i64;
        if x < -0x8000_0000 || x > 0x7fff_ffff || y < -0x8000_0000 || y > 0x7fff_ffff {
            None
        } else {
            Some(Region { x: x as i32, y: y as i32, width: self.width, height: self.height })
        }
    }

    /// The size of the rectangle.
    pub fn bounds(&self) -> (b: Bounds)
        ensures
            b.width == self.width,
            b.height == self.height,
    {
        Bounds { width: self.width, height: self.height }
    }
}

/// A drag spans the same normalized rectangle in either direction.
pub proof fn lemma_drag_direction_independent(a: Point, b: Point)
    ensures
        Region::spanning(a, b).normalized() == Region::spanning(b, a).normalized(),
        Region::spanning(a, b) == Region::spanning(b, a),
{
}

/// Normalizing leaves a rectangle unchanged when its extents are plain
/// sizes, wherever it lies.
pub proof fn lemma_normalize_fixes_canonical(r: Region)
    requires
        r.width <= i32::MAX,
        r.height <= i32::MAX,
    ensures
        r.normalized() == r,
{
}

/// The origin of a normalized rectangle is never beyond the stored one, and
/// is the far edge exactly where it moved.
pub proof fn lemma_normalize_never_wraps(r: Region)
    ensures
        r.normalized().x <= r.x,
        r.normalized().y <= r.y,
        r.normalized().x != r.x ==> r.normalized().x == r.x + signed_extent(r.width),
        r.normalized().y != r.y ==> r.normalized().y == r.y + signed_extent(r.height),
{
}

} // verus!
