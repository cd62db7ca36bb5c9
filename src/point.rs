//! Grid coordinates and the Chebyshev metric used both for movement range and
//! for the distance that a search reveals.

use crate::random::draw_below;
use rand::rngs::StdRng;
use vstd::prelude::*;

verus! {

/// The absolute value of an integer.
pub open spec fn abs_int(v: int) -> int {
    if v >= 0 {
        v
    } else {
        -v
    }
}

/// The Chebyshev distance between two cells: the larger of the two axis gaps.
pub open spec fn chebyshev(a: Point, b: Point) -> int {
    let dx = abs_int(a.x - b.x);
    let dy = abs_int(a.y - b.y);
    if dx >= dy {
        dx
    } else {
        dy
    }
}

/// A cell of the grid: column `x`, row `y`.
#[derive(Debug, Clone, Copy, PartialEq, Eq, Structural)]
pub struct Point {
    pub x: u8,
    pub y: u8,
}

impl Point {
    /// Whether the cell lies on a `width` by `height` grid.
    pub open spec fn within(self, width: int, height: int) -> bool {
        self.x < width && self.y < height
    }

    pub fn new(x: u8, y: u8) -> (r: Point)
        ensures
            r.x == x,
            r.y == y,
    {
        Point { x, y }
    }

    pub fn as_tuple(&self) -> (r: (u8, u8))
        ensures
            r == (self.x, self.y),
    {
        (self.x, self.y)
    }

    /// Moves the point to `p`, given as `(x, y)`.
    pub fn set(&mut self, p: (u8, u8))
        ensures
            final(self).x == p.0,
            final(self).y == p.1,
    {
        self.x = p.0;
        self.y = p.1;
    }

    /// Chebyshev distance to `other`; it always fits in a byte.
    pub fn distance_to(&self, other: Point) -> (r: u8)
        ensures
            r == chebyshev(*self, other),
    {
        let dx = abs(self.x as i32 - other.x as i32) as u8;
        let dy = abs(self.y as i32 - other.y as i32) as u8;
        if dx >= dy {
            dx
        } else {
            dy
        }
    }

    /// Whether the point lies on a `width` by `height` grid.
    pub fn in_bounds(&self, width: u8, height: u8) -> (r: bool)
        ensures
            r == self.within(width as int, height as int),
    {
        self.x < width && self.y < height
    }

    /// A point drawn at random on a `width` by `height` grid.
    pub fn random(rng: &mut StdRng, width: u8, height: u8) -> (r: Point)
        requires
            width > 0,
            height > 0,
        ensures
            r.within(width as int, height as int),
    {
        let x = draw_below(rng, width);
        let y = draw_below(rng, height);
        Point { x, y }
    }
}

/// The absolute value of `x`; `i32::MIN` has none in `i32`.
pub fn abs(x: i32) -> (r: i32)
    requires
        x != i32::MIN,
    ensures
        r == abs_int(x as int),
{
    if x >= 0 {
        x
    } else {
        -x
    }
}

/// The distance between two cells does not depend on the order in which they
/// are given, and a cell is at distance zero from itself.
pub proof fn lemma_distance_symmetric(a: Point, b: Point)
    ensures
        chebyshev(a, b) == chebyshev(b, a),
        chebyshev(a, a) == 0,
{
}

} // verus!
