//! Plain geometry for the drawing surface: points, sizes, areas, colors,
//! and clipping against the matrix bounds.

use vstd::math::{max, min};
use vstd::prelude::*;

verus! {

/// A point on the drawing plane. Coordinates may be negative or lie far
/// beyond the matrix: generic drawing code routinely produces out-of-canvas
/// geometry, which the surface clips away.
#[derive(Clone, Copy, Debug, PartialEq, Eq, Structural)]
pub struct Point {
    pub x: i32,
    pub y: i32,
}

/// The extent of an area.
#[derive(Clone, Copy, Debug, PartialEq, Eq, Structural)]
pub struct Size {
    pub width: u32,
    pub height: u32,
}

/// An axis-aligned rectangular area: its top-left corner and its extent.
#[derive(Clone, Copy, Debug, PartialEq, Eq, Structural)]
pub struct Area {
    pub top_left: Point,
    pub size: Size,
}

/// One color: red, green and blue, one byte each.
#[derive(Clone, Copy, Debug, PartialEq, Eq, Structural)]
pub struct Rgb {
    pub red: u8,
    pub green: u8,
    pub blue: u8,
}

/// The largest area lying inside both `a` and `b`; the zero-sized area at
/// the origin when they do not overlap.
pub open spec fn spec_intersection(a: Area, b: Area) -> Area {
    let x1 = max(a.top_left.x as int, b.top_left.x as int);
    let y1 = max(a.top_left.y as int, b.top_left.y as int);
    let x2 = min(
        a.top_left.x + a.size.width,
        b.top_left.x + b.size.width,
    );
    let y2 = min(
        a.top_left.y + a.size.height,
        b.top_left.y + b.size.height,
    );
    if x1 < x2 && y1 < y2 {
        Area {
            top_left: Point { x: x1 as i32, y: y1 as i32 },
            size: Size { width: (x2 - x1) as u32, height: (y2 - y1) as u32 },
        }
    } else {
        Area { top_left: Point { x: 0, y: 0 }, size: Size { width: 0, height: 0 } }
    }
}

impl Area {
    /// Whether the point at the integer coordinates `(x, y)` lies inside
    /// this area.
    pub open spec fn spec_contains_xy(self, x: int, y: int) -> bool {
        &&& self.top_left.x <= x < self.top_left.x + self.size.width
        &&& self.top_left.y <= y < self.top_left.y + self.size.height
    }

    /// Whether `p` lies inside this area.
    pub open spec fn spec_contains(self, p: Point) -> bool {
        self.spec_contains_xy(p.x as int, p.y as int)
    }

    /// An area containing no point at all.
    pub open spec fn spec_is_empty(self) -> bool {
        self.size.width == 0 || self.size.height == 0
    }

    /// The area of the given placement and extent.
    pub fn new(x: i32, y: i32, width: u32, height: u32) -> (a: Area)
        ensures
            a == (Area { top_left: Point { x, y }, size: Size { width, height } }),
    {
        Area { top_left: Point { x, y }, size: Size { width, height } }
    }

    /// Whether `p` lies inside this area.
    pub fn contains(&self, p: Point) -> (r: bool)
        ensures
            r == self.spec_contains(p),
    {
        (p.x as i64) >= (self.top_left.x as i64) && (p.x as i64) < (self.top_left.x as i64) + (
        self.size.width as i64) && (p.y as i64) >= (self.top_left.y as i64) && (p.y as i64) < (
        self.top_left.y as i64) + (self.size.height as i64)
    }

    /// Whether this area contains no point.
    pub fn is_zero_sized(&self) -> (r: bool)
        ensures
            r == self.spec_is_empty(),
    {
        self.size.width == 0 || self.size.height == 0
    }

    /// Clip this area to another: the largest area inside both, or the
    /// zero-sized area at the origin when the two do not overlap.
    pub fn intersection(&self, other: &Area) -> (r: Area)
        ensures
            r == spec_intersection(*self, *other),
    {
        let x1: i64 = if (self.top_left.x as i64) >= (other.top_left.x as i64) {
            self.top_left.x as i64
        } else {
            other.top_left.x as i64
        };
        let y1: i64 = if (self.top_left.y as i64) >= (other.top_left.y as i64) {
            self.top_left.y as i64
        } else {
            other.top_left.y as i64
        };
        let self_x2: i64 = (self.top_left.x as i64) + (self.size.width as i64);
        let other_x2: i64 = (other.top_left.x as i64) + (other.size.width as i64);
        let x2: i64 = if self_x2 <= other_x2 {
            self_x2
        } else {
            other_x2
        };
        let self_y2: i64 = (self.top_left.y as i64) + (self.size.height as i64);
        let other_y2: i64 = (other.top_left.y as i64) + (other.size.height as i64);
        let y2: i64 = if self_y2 <= other_y2 {
            self_y2
        } else {
            other_y2
        };
        if x1 < x2 && y1 < y2 {
            Area {
                top_left: Point { x: x1 as i32, y: y1 as i32 },
                size: Size { width: (x2 - x1) as u32, height: (y2 - y1) as u32 },
            }
        } else {
            Area { top_left: Point { x: 0, y: 0 }, size: Size { width: 0, height: 0 } }
        }
    }
}

/// Clipping keeps exactly the points common to both areas: a point lies in
/// the intersection precisely when it lies in each.
pub proof fn lemma_intersection_contains(a: Area, b: Area, p: Point)
    ensures
        spec_intersection(a, b).spec_contains(p) <==> a.spec_contains(p) && b.spec_contains(p),
{
}

} // verus!
