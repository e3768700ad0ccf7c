//! Hitbox shapes and their intersection tests.
use crate::fixed::{floor_sqrt, isqrt};
use crate::vector::COMPONENT_MAX;
use vstd::prelude::*;

verus! {

/// `|v|`.
pub open spec fn abs(v: int) -> int {
    if v < 0 {
        -v
    } else {
        v
    }
}

/// A centroid and an extent that the hit tests take without overflow.
pub open spec fn shape_in_range(centroid: (i64, i64), extent: i64) -> bool {
    -COMPONENT_MAX <= centroid.0 <= COMPONENT_MAX && -COMPONENT_MAX <= centroid.1 <= COMPONENT_MAX
        && 0 <= extent <= COMPONENT_MAX
}

/// A circular hitbox.
#[derive(Clone, Copy, Debug)]
pub struct Circle {
    pub centroid: (i64, i64),
    pub radius: i64,
}

/// Circles touch when the centroids are no further apart than the sum of the
/// radii along both axes (a box test, not a Euclidean one).
pub open spec fn circles_intersect(a: Circle, b: Circle) -> bool {
    abs(a.centroid.0 - b.centroid.0) <= a.radius + b.radius && abs(a.centroid.1 - b.centroid.1)
        <= a.radius + b.radius
}

/// Euclidean distance between two points, rounded down to a step.
pub open spec fn distance(a: (i64, i64), b: (i64, i64)) -> int {
    floor_sqrt(
        (a.0 - b.0) * (a.0 - b.0) + (a.1 - b.1) * (a.1 - b.1),
    )
}

impl Circle {
    pub open spec fn in_range(self) -> bool {
        shape_in_range(self.centroid, self.radius)
    }

    /// Creates a circle from its centroid and radius.
    pub fn new(centroid: (i64, i64), radius: i64) -> (r: Circle)
        ensures
            r.centroid == centroid,
            r.radius == radius,
    {
        Circle { centroid, radius }
    }

    /// Whether the two circles intersect (see `circles_intersect`).
    pub fn intersects(&self, other: &Circle) -> (r: bool)
        requires
            self.in_range(),
            other.in_range(),
        ensures
            r == circles_intersect(*self, *other),
    {
        let dx = abs_diff(self.centroid.0, other.centroid.0);
        let dy = abs_diff(self.centroid.1, other.centroid.1);
        let r = self.radius + other.radius;
        dx <= r && dy <= r
    }

    /// Length of the overlap between two circles: the sum of the radii less the
    /// distance between the centroids, or 0 when they do not intersect.
    pub fn overlap_length(&self, other: &Circle) -> (r: i64)
        requires
            self.in_range(),
            other.in_range(),
        ensures
            r == if circles_intersect(*self, *other) {
                self.radius + other.radius - distance(self.centroid, other.centroid)
            } else {
                0
            },
    {
        if !self.intersects(other) {
            return 0;
        }
        let dx = self.centroid.0 as i128 - other.centroid.0 as i128;
        let dy = self.centroid.1 as i128 - other.centroid.1 as i128;
        proof {
            assert(0 <= dx * dx <= 0x4_0000_0000_0000_0000) by (nonlinear_arith)
                requires
                    -0x2_0000_0000 <= dx <= 0x2_0000_0000,
            ;
            assert(0 <= dy * dy <= 0x4_0000_0000_0000_0000) by (nonlinear_arith)
                requires
                    -0x2_0000_0000 <= dy <= 0x2_0000_0000,
            ;
        }
        let n: i128 = dx * dx + dy * dy;
        let d = isqrt(n as u128);
        proof {
            if d >= 0x4_0000_0000 {
                assert(d * d >= 0x4_0000_0000u128 * 0x4_0000_0000u128) by (nonlinear_arith)
                    requires
                        d >= 0x4_0000_0000u128,
                ;
            }
        }
        self.radius + other.radius - d as i64
    }
}

/// `|a - b|` of two in-range coordinates.
fn abs_diff(a: i64, b: i64) -> (r: i64)
    requires
        -COMPONENT_MAX <= a <= COMPONENT_MAX,
        -COMPONENT_MAX <= b <= COMPONENT_MAX,
    ensures
        r == abs(a - b),
{
    if a >= b {
        a - b
    } else {
        b - a
    }
}

/// A square (axis-aligned) hitbox.
#[derive(Clone, Copy, Debug)]
pub struct Square {
    /// The point at the geometric center.
    pub centroid: (i64, i64),
    /// The shortest distance from the centroid to a side.
    pub apothem: i64,
}

/// The `(width, height)` of the rectangle where two squares overlap, when both
/// are positive.
pub open spec fn square_overlap(a: Square, b: Square) -> Option<(int, int)> {
    let x_overlap = a.apothem + b.apothem - abs(a.centroid.0 - b.centroid.0);
    let y_overlap = a.apothem + b.apothem - abs(a.centroid.1 - b.centroid.1);
    if x_overlap <= 0 || y_overlap <= 0 {
        None
    } else {
        Some((x_overlap, y_overlap))
    }
}

impl Square {
    pub open spec fn in_range(self) -> bool {
        shape_in_range(self.centroid, self.apothem)
    }

    /// Creates a square from its centroid and apothem.
    pub fn new(centroid: (i64, i64), apothem: i64) -> (r: Square)
        ensures
            r.centroid == centroid,
            r.apothem == apothem,
    {
        Square { centroid, apothem }
    }

    /// Returns the `(width, height)` of the rectangle formed by the overlap
    /// of this square with another, or `None` when they do not overlap.
    pub fn overlap(&self, other: &Square) -> (r: Option<(i64, i64)>)
        requires
            self.in_range(),
            other.in_range(),
        ensures
            r matches Some(o) ==> square_overlap(*self, *other) == Some((o.0 as int, o.1 as int)),
            r is None <==> square_overlap(*self, *other) is None,
    {
        let dx = abs_diff(self.centroid.0, other.centroid.0);
        let dy = abs_diff(self.centroid.1, other.centroid.1);
        let x_overlap = self.apothem + other.apothem - dx;
        let y_overlap = self.apothem + other.apothem - dy;
        if x_overlap <= 0 || y_overlap <= 0 {
            return None;
        }
        Some((x_overlap, y_overlap))
    }

    /// The `(width, height)` of the overlap of two squares, or `(0, 0)` when
    /// they do not overlap.
    pub fn overlap_size(&self, other: &Square) -> (r: (i64, i64))
        requires
            self.in_range(),
            other.in_range(),
        ensures
            square_overlap(*self, *other) matches Some(o) ==> (r.0 as int, r.1 as int) == o,
            square_overlap(*self, *other) is None ==> r == (0i64, 0i64),
    {
        match self.overlap(other) {
            Some(o) => o,
            None => (0, 0),
        }
    }

    /// Whether the two squares overlap with a positive area.
    pub fn intersects(&self, other: &Square) -> (r: bool)
        requires
            self.in_range(),
            other.in_range(),
        ensures
            r == square_overlap(*self, *other) is Some,
    {
        self.overlap(other).is_some()
    }
}

/// A test of whether two shapes of one kind intersect.
pub trait Intersect {
    spec fn intersect_spec(&self, target: &Self) -> bool;

    fn intersect(&self, target: &Self) -> (r: bool)
        ensures
            r == self.intersect_spec(target),
    ;
}

/// Axis-aligned bounding box, given by its lower-left and upper-right corners.
#[derive(Clone, Copy, Debug)]
pub struct Aabb {
    pub min: (i64, i64),
    pub max: (i64, i64),
}

impl Aabb {
    /// Creates a box from its corner coordinates.
    pub fn new(xmin: i64, ymin: i64, xmax: i64, ymax: i64) -> (r: Aabb)
        ensures
            r.min == (xmin, ymin),
            r.max == (xmax, ymax),
    {
        Aabb { min: (xmin, ymin), max: (xmax, ymax) }
    }
}

impl Default for Aabb {
    /// A box of one unit at the origin.
    fn default() -> (r: Aabb)
        ensures
            r.min == (0i64, 0i64),
            r.max == (crate::fixed::SCALE, crate::fixed::SCALE),
    {
        Aabb::new(0, 0, crate::fixed::SCALE, crate::fixed::SCALE)
    }
}

impl Intersect for Aabb {
    /// Boxes intersect unless one lies wholly beyond the other on some axis;
    /// touching edges count as intersecting.
    open spec fn intersect_spec(&self, target: &Aabb) -> bool {
        !(target.min.0 > self.max.0 || target.min.1 > self.max.1 || self.min.0 > target.max.0
            || self.min.1 > target.max.1)
    }

    fn intersect(&self, target: &Aabb) -> (r: bool) {
        let apart = target.min.0 > self.max.0 || target.min.1 > self.max.1 || self.min.0
            > target.max.0 || self.min.1 > target.max.1;
        !apart
    }
}

} // verus!
