//! Points, colours and the rectangle spanned by two points.
use vstd::prelude::*;

verus! {

/// An 8-bit RGB colour.
#[derive(Copy, Clone, Debug, PartialEq, Eq, Structural)]
pub struct RGB {
    pub r: u8,
    pub g: u8,
    pub b: u8,
}

/// The 24-bit pixel value `0xRRGGBB` of a colour.
pub open spec fn pixel_of(c: RGB) -> int {
    c.r as int * 65536 + c.g as int * 256 + c.b as int
}

impl RGB {
    pub fn new(r: u8, g: u8, b: u8) -> (c: Self)
        ensures
            c.r == r,
            c.g == g,
            c.b == b,
    {
        RGB { r, g, b }
    }

    /// The colour as a `0xRRGGBB` pixel value.
    pub fn into_pixel(self) -> (p: u64)
        ensures
            p as int == pixel_of(self),
    {
        (self.r as u64) * 65536 + (self.g as u64) * 256 + (self.b as u64)
    }
}

/// A point in signed screen coordinates.
#[derive(Copy, Clone, Debug, PartialEq, Eq, Structural)]
pub struct Point {
    pub x: i32,
    pub y: i32,
}

pub open spec fn min_i32(a: i32, b: i32) -> i32 {
    if a <= b { a } else { b }
}

pub open spec fn max_i32(a: i32, b: i32) -> i32 {
    if a >= b { a } else { b }
}

/// The component-wise minimum of two points.
pub open spec fn point_min(p: Point, q: Point) -> Point {
    Point { x: min_i32(p.x, q.x), y: min_i32(p.y, q.y) }
}

/// The component-wise maximum of two points.
pub open spec fn point_max(p: Point, q: Point) -> Point {
    Point { x: max_i32(p.x, q.x), y: max_i32(p.y, q.y) }
}

impl Point {
    pub fn new(x: i32, y: i32) -> (p: Self)
        ensures
            p.x == x,
            p.y == y,
    {
        Point { x, y }
    }

    pub fn min(&self, other: &Point) -> (p: Self)
        ensures
            p == point_min(*self, *other),
    {
        Point {
            x: if self.x <= other.x { self.x } else { other.x },
            y: if self.y <= other.y { self.y } else { other.y },
        }
    }

    pub fn max(&self, other: &Point) -> (p: Self)
        ensures
            p == point_max(*self, *other),
    {
        Point {
            x: if self.x >= other.x { self.x } else { other.x },
            y: if self.y >= other.y { self.y } else { other.y },
        }
    }
}

/// An axis-aligned rectangle with a non-negative size.
#[derive(Copy, Clone, Debug, PartialEq, Eq, Structural)]
pub struct Rect {
    pub x: i32,
    pub y: i32,
    pub width: u32,
    pub height: u32,
}

/// The normalised rectangle spanned by two corner points, whichever way
/// they were dragged: its origin is their minimum and its size the distance
/// from their minimum to their maximum.
pub open spec fn rect_of(p: Point, q: Point) -> Rect {
    Rect {
        x: point_min(p, q).x,
        y: point_min(p, q).y,
        width: (point_max(p, q).x - point_min(p, q).x) as u32,
        height: (point_max(p, q).y - point_min(p, q).y) as u32,
    }
}

impl Rect {
    /// The rectangle spanned by two corner points.
    pub fn from_points(p: Point, q: Point) -> (r: Rect)
        ensures
            r == rect_of(p, q),
            r.x == point_min(p, q).x,
            r.y == point_min(p, q).y,
            r.width as int == point_max(p, q).x - point_min(p, q).x,
            r.height as int == point_max(p, q).y - point_min(p, q).y,
    {
        let lo = p.min(&q);
        let hi = p.max(&q);
        Rect {
            x: lo.x,
            y: lo.y,
            width: (hi.x as i64 - lo.x as i64) as u32,
            height: (hi.y as i64 - lo.y as i64) as u32,
        }
    }

    /// The number of pixels the rectangle covers.
    pub fn area(&self) -> (n: u64)
        ensures
            n as int == self.width as int * self.height as int,
    {
        proof {
            vstd::arithmetic::mul::lemma_mul_upper_bound(
                self.width as int, 0xffff_ffff, self.height as int, 0xffff_ffff);
        }
        self.width as u64 * self.height as u64
    }
}

/// The region read back and saved for a capture of `r`. An image cannot be
/// empty, so a side of length zero (a click without a drag) is widened to
/// the one pixel under the click; any other size is kept.
pub open spec fn saved_region_of(r: Rect) -> Rect {
    Rect {
        width: if r.width == 0 { 1 } else { r.width },
        height: if r.height == 0 { 1 } else { r.height },
        ..r
    }
}

impl Rect {
    /// The region saved for a capture of this rectangle.
    pub fn saved_region(&self) -> (r: Rect)
        ensures
            r == saved_region_of(*self),
    {
        Rect {
            x: self.x,
            y: self.y,
            width: if self.width == 0 { 1 } else { self.width },
            height: if self.height == 0 { 1 } else { self.height },
        }
    }
}

/// The rectangle's origin is the component-wise minimum of the two points
/// and its size is their component-wise maximum minus that minimum, so it is
/// never negative.
pub proof fn lemma_rect_origin_and_size(p: Point, q: Point)
    ensures
        rect_of(p, q).x == point_min(p, q).x,
        rect_of(p, q).y == point_min(p, q).y,
        rect_of(p, q).width as int == point_max(p, q).x - point_min(p, q).x,
        rect_of(p, q).height as int == point_max(p, q).y - point_min(p, q).y,
        point_max(p, q).x - point_min(p, q).x >= 0,
        point_max(p, q).y - point_min(p, q).y >= 0,
{
}

/// Normalisation ignores the drag direction: swapping the two points gives
/// the same rectangle.
pub proof fn lemma_rect_symmetric(p: Point, q: Point)
    ensures
        rect_of(p, q) == rect_of(q, p),
{
}

} // verus!
