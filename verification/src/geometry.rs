//! Geometry in whole device units: points, sizes, rectangles, axes and the
//! box constraints that a parent offers a child during layout.
//!
//! Lengths are unsigned and coordinates are signed. Sums that leave the range
//! of their type are clipped to it, so every operation here is total.

use vstd::prelude::*;

verus! {

/// The length that stands for "no upper bound" in a box constraint.
pub const UNBOUNDED: u32 = 0xffff_ffff;

/// The coordinate nearest to `v`.
pub open spec fn clip_coord(v: int) -> i64 {
    if v < i64::MIN {
        i64::MIN
    } else if v > i64::MAX {
        i64::MAX
    } else {
        v as i64
    }
}

/// The length nearest to `v`.
pub open spec fn clip_len(v: int) -> u32 {
    if v < 0 {
        0u32
    } else if v > u32::MAX {
        u32::MAX
    } else {
        v as u32
    }
}

/// `v` brought into the range from `lo` to `hi`; `lo` wins where the range is empty.
pub open spec fn clamp_spec(v: u32, lo: u32, hi: u32) -> u32 {
    if v < lo {
        lo
    } else if v > hi {
        hi
    } else {
        v
    }
}

fn coord_sum(a: i64, b: i64) -> (r: i64)
    ensures
        r == clip_coord(a + b),
{
    let v: i128 = a as i128 + b as i128;
    if v < i64::MIN as i128 {
        i64::MIN
    } else if v > i64::MAX as i128 {
        i64::MAX
    } else {
        v as i64
    }
}

fn coord_diff(a: i64, b: i64) -> (r: i64)
    ensures
        r == clip_coord(a - b),
{
    let v: i128 = a as i128 - b as i128;
    if v < i64::MIN as i128 {
        i64::MIN
    } else if v > i64::MAX as i128 {
        i64::MAX
    } else {
        v as i64
    }
}

/// A position, or a displacement between two positions.
#[derive(Clone, Copy, Debug, PartialEq, Eq, Structural)]
pub struct Point {
    pub x: i64,
    pub y: i64,
}

impl Point {
    /// The point moved by `by`, each coordinate clipped to its range.
    pub open spec fn plus_spec(self, by: Point) -> Point {
        Point { x: clip_coord(self.x + by.x), y: clip_coord(self.y + by.y) }
    }

    /// The displacement from `from` to this point, each coordinate clipped.
    pub open spec fn minus_spec(self, from: Point) -> Point {
        Point { x: clip_coord(self.x - from.x), y: clip_coord(self.y - from.y) }
    }

    pub fn new(x: i64, y: i64) -> (r: Point)
        ensures
            r == (Point { x, y }),
    {
        Point { x, y }
    }

    /// The point `(0, 0)`.
    pub fn origin() -> (r: Point)
        ensures
            r == (Point { x: 0, y: 0 }),
    {
        Point { x: 0, y: 0 }
    }

    /// Moves the point by a displacement.
    pub fn plus(self, by: Point) -> (r: Point)
        ensures
            r == self.plus_spec(by),
    {
        Point { x: coord_sum(self.x, by.x), y: coord_sum(self.y, by.y) }
    }

    /// The same position seen from a frame whose origin is `from`.
    pub fn minus(self, from: Point) -> (r: Point)
        ensures
            r == self.minus_spec(from),
    {
        Point { x: coord_diff(self.x, from.x), y: coord_diff(self.y, from.y) }
    }
}

/// A width and a height.
#[derive(Clone, Copy, Debug, PartialEq, Eq, Structural)]
pub struct Size {
    pub width: u32,
    pub height: u32,
}

impl Size {
    /// Whether this size is no larger than `other` in either dimension.
    pub open spec fn fits_in(self, other: Size) -> bool {
        self.width <= other.width && self.height <= other.height
    }

    pub fn new(width: u32, height: u32) -> (r: Size)
        ensures
            r == (Size { width, height }),
    {
        Size { width, height }
    }

    /// The empty size.
    pub fn zero() -> (r: Size)
        ensures
            r == (Size { width: 0, height: 0 }),
    {
        Size { width: 0, height: 0 }
    }
}

/// An axis-aligned rectangle: the points from `origin` up to, but not
/// including, `origin` moved by `size`.
#[derive(Clone, Copy, Debug, PartialEq, Eq, Structural)]
pub struct Rect {
    pub origin: Point,
    pub size: Size,
}

impl Rect {
    /// Hit test: whether `p` lies inside the rectangle.
    pub open spec fn contains_spec(self, p: Point) -> bool {
        &&& self.origin.x <= p.x < self.origin.x + self.size.width
        &&& self.origin.y <= p.y < self.origin.y + self.size.height
    }

    pub fn from_origin_size(origin: Point, size: Size) -> (r: Rect)
        ensures
            r == (Rect { origin, size }),
    {
        Rect { origin, size }
    }

    pub fn origin(&self) -> (r: Point)
        ensures
            r == self.origin,
    {
        self.origin
    }

    pub fn size(&self) -> (r: Size)
        ensures
            r == self.size,
    {
        self.size
    }

    /// The same rectangle placed at `origin`.
    pub fn with_origin(self, origin: Point) -> (r: Rect)
        ensures
            r == (Rect { origin, size: self.size }),
    {
        Rect { origin, size: self.size }
    }

    /// Hit test: whether `p` lies inside the rectangle.
    pub fn contains(&self, p: Point) -> (r: bool)
        ensures
            r == self.contains_spec(p),
    {
        let dx: i128 = p.x as i128 - self.origin.x as i128;
        let dy: i128 = p.y as i128 - self.origin.y as i128;
        0 <= dx && dx < self.size.width as i128 && 0 <= dy && dy < self.size.height as i128
    }
}

/// The direction along which a linear container lays out its children.
#[derive(Clone, Copy, Debug, PartialEq, Eq, Structural)]
pub enum Axis {
    Horizontal,
    Vertical,
}

impl Axis {
    /// The extent of `size` along this axis.
    pub open spec fn major_spec(self, size: Size) -> u32 {
        match self {
            Axis::Horizontal => size.width,
            Axis::Vertical => size.height,
        }
    }

    /// The extent of `size` across this axis.
    pub open spec fn minor_spec(self, size: Size) -> u32 {
        match self {
            Axis::Horizontal => size.height,
            Axis::Vertical => size.width,
        }
    }

    /// The size with the given extents along and across this axis.
    pub open spec fn pack_spec(self, major: u32, minor: u32) -> Size {
        match self {
            Axis::Horizontal => Size { width: major, height: minor },
            Axis::Vertical => Size { width: minor, height: major },
        }
    }

    /// The point that lies `major` along this axis and `minor` across it.
    pub open spec fn place_spec(self, major: u32, minor: u32) -> Point {
        match self {
            Axis::Horizontal => Point { x: major as i64, y: minor as i64 },
            Axis::Vertical => Point { x: minor as i64, y: major as i64 },
        }
    }

    pub fn major(self, size: Size) -> (r: u32)
        ensures
            r == self.major_spec(size),
    {
        match self {
            Axis::Horizontal => size.width,
            Axis::Vertical => size.height,
        }
    }

    pub fn minor(self, size: Size) -> (r: u32)
        ensures
            r == self.minor_spec(size),
    {
        match self {
            Axis::Horizontal => size.height,
            Axis::Vertical => size.width,
        }
    }

    pub fn pack(self, major: u32, minor: u32) -> (r: Size)
        ensures
            r == self.pack_spec(major, minor),
    {
        match self {
            Axis::Horizontal => Size { width: major, height: minor },
            Axis::Vertical => Size { width: minor, height: major },
        }
    }

    pub fn place(self, major: u32, minor: u32) -> (r: Point)
        ensures
            r == self.place_spec(major, minor),
    {
        match self {
            Axis::Horizontal => Point { x: major as i64, y: minor as i64 },
            Axis::Vertical => Point { x: minor as i64, y: major as i64 },
        }
    }
}

/// The range of sizes that a parent offers a child during layout.
///
/// A constraint is well formed when its minimum fits in its maximum. An
/// inverted constraint is a programming error: nothing in this crate builds
/// one, and layout does not accept one.
#[derive(Clone, Copy, Debug, PartialEq, Eq, Structural)]
pub struct BoxConstraints {
    pub min: Size,
    pub max: Size,
}

impl BoxConstraints {
    /// The minimum fits in the maximum.
    pub open spec fn wf(self) -> bool {
        self.min.fits_in(self.max)
    }

    /// Whether `size` lies within the constraint.
    pub open spec fn contains_spec(self, size: Size) -> bool {
        self.min.fits_in(size) && size.fits_in(self.max)
    }

    /// The size within the constraint that is nearest to `size`.
    pub open spec fn constrain_spec(self, size: Size) -> Size {
        Size {
            width: clamp_spec(size.width, self.min.width, self.max.width),
            height: clamp_spec(size.height, self.min.height, self.max.height),
        }
    }

    /// The constraint that admits the sizes from `min` to `max`.
    pub fn new(min: Size, max: Size) -> (r: BoxConstraints)
        requires
            min.fits_in(max),
        ensures
            r == (BoxConstraints { min, max }),
            r.wf(),
    {
        BoxConstraints { min, max }
    }

    /// The constraint that admits `size` and nothing else.
    pub fn tight(size: Size) -> (r: BoxConstraints)
        ensures
            r == (BoxConstraints { min: size, max: size }),
            r.wf(),
            forall|s: Size| r.contains_spec(s) <==> s == size,
    {
        BoxConstraints { min: size, max: size }
    }

    pub fn min(&self) -> (r: Size)
        ensures
            r == self.min,
    {
        self.min
    }

    pub fn max(&self) -> (r: Size)
        ensures
            r == self.max,
    {
        self.max
    }

    /// Whether `size` lies within the constraint.
    pub fn contains(&self, size: Size) -> (r: bool)
        ensures
            r == self.contains_spec(size),
    {
        self.min.width <= size.width && size.width <= self.max.width && self.min.height
            <= size.height && size.height <= self.max.height
    }

    /// Clips `size` to the constraint. A size that already lies within it is
    /// returned unchanged.
    pub fn constrain(&self, size: Size) -> (r: Size)
        requires
            self.wf(),
        ensures
            r == self.constrain_spec(size),
            self.contains_spec(r),
            self.contains_spec(size) ==> r == size,
    {
        Size {
            width: clamp(size.width, self.min.width, self.max.width),
            height: clamp(size.height, self.min.height, self.max.height),
        }
    }
}

/// `v` brought into the range from `lo` to `hi`.
pub fn clamp(v: u32, lo: u32, hi: u32) -> (r: u32)
    ensures
        r == clamp_spec(v, lo, hi),
{
    if v < lo {
        lo
    } else if v > hi {
        hi
    } else {
        v
    }
}

} // verus!
