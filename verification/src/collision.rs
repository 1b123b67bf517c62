//! Interval tests on one axis, and the results of collision tests and ray casts.
use vstd::prelude::*;
use vstd::math::abs;
use crate::time::{Coord, Fraction, Moment, Time, moment_before};

verus! {

/// The closed interval `[range[0], range[1]]` as a pair of mathematical
/// integers.
pub open spec fn span_of(range: [i64; 2]) -> (int, int) {
    (range[0] as int, range[1] as int)
}

/// `v` lies in the closed interval `span`.
pub open spec fn span_contains(span: (int, int), v: int) -> bool {
    span.0 <= v <= span.1
}

/// The closed intervals `a` and `b` share at least one point.
pub open spec fn spans_intersect(a: (int, int), b: (int, int)) -> bool {
    a.0 <= b.1 && b.0 <= a.1
}

/// How far, and which way, `b` has to be pushed to stop penetrating `a`.
///
/// `b` reaches `a.1 - b.0` past the far edge of `a` and `b.1 - a.0` past its
/// near edge. The shorter of the two is the penetration. It is positive when
/// `b` leaves toward increasing values, negative when it leaves toward
/// decreasing values; when both ways are equally short, `b` is pushed toward
/// increasing values.
pub open spec fn spans_overlap(a: (int, int), b: (int, int)) -> Option<int> {
    if spans_intersect(a, b) {
        let far = a.1 - b.0;
        let near = b.1 - a.0;
        if far <= near {
            Some(far)
        } else {
            Some(-near)
        }
    } else {
        None
    }
}

/// The sign of `x`: -1, 0 or 1.
pub open spec fn signum(x: int) -> int {
    if x > 0 {
        1
    } else if x < 0 {
        -1
    } else {
        0
    }
}

/// Whether `v` lies in `range`, bounds included.
pub fn range_contains(range: [i64; 2], v: i64) -> (inside: bool)
    ensures
        inside == span_contains(span_of(range), v as int),
{
    range[0] <= v && v <= range[1]
}

/// Whether two ranges share a point.
pub fn ranges_intersect(a: [i64; 2], b: [i64; 2]) -> (hit: bool)
    ensures
        hit == spans_intersect(span_of(a), span_of(b)),
        hit == spans_intersect(span_of(b), span_of(a)),
{
    a[0] <= b[1] && b[0] <= a[1]
}

/// The signed penetration of `b` into `a`, or `None` when they are disjoint.
/// The penetration of two 64-bit ranges can take 65 bits, so it is returned
/// in 128.
pub fn ranges_overlap(a: [i64; 2], b: [i64; 2]) -> (push: Option<i128>)
    ensures
        match push {
            Some(p) => spans_overlap(span_of(a), span_of(b)) == Some(p as int),
            None => spans_overlap(span_of(a), span_of(b)).is_none(),
        },
{
    if ranges_intersect(a, b) {
        let far: i128 = (a[1] as i128) - (b[0] as i128);
        let near: i128 = (b[1] as i128) - (a[0] as i128);
        if far <= near {
            Some(far)
        } else {
            Some(-near)
        }
    } else {
        None
    }
}

/// The sign of `x`; zero has sign zero.
pub fn sign(x: i32) -> (s: i32)
    ensures
        s == signum(x as int),
{
    if x > 0 {
        1
    } else if x < 0 {
        -1
    } else {
        0
    }
}

/// A penetration as mathematical values, in half-units.
pub struct Separation {
    pub depth: int,
    pub resolve: (int, int),
}

/// How two shapes penetrate each other along the axis where they do so least.
/// `depth` is the signed penetration on that axis and `resolve` holds its
/// negation on that axis and zero on the other. Both are in half-units.
#[derive(Clone, Copy, Debug, PartialEq, Eq)]
pub struct Overlap {
    pub depth: i64,
    pub resolve: [i64; 2],
}

impl View for Overlap {
    type V = Separation;

    open spec fn view(&self) -> Separation {
        Separation {
            depth: self.depth as int,
            resolve: (self.resolve[0] as int, self.resolve[1] as int),
        }
    }
}

/// The separation along `axis` (0 or 1) for a signed penetration `depth`.
pub open spec fn separation_along(axis: int, depth: int) -> Separation {
    if axis == 0 {
        Separation { depth, resolve: (-depth, 0) }
    } else {
        Separation { depth, resolve: (0, -depth) }
    }
}

/// Of two per-axis penetrations, the axis to resolve along: the one with the
/// smaller magnitude, and the second axis when the magnitudes are equal.
pub open spec fn shallow_axis(depth_x: int, depth_y: int) -> int {
    if abs(depth_x) < abs(depth_y) {
        0
    } else {
        1
    }
}

/// Where a ray crosses the boundary of a shape, as mathematical values.
pub struct Impact {
    pub time: Moment,
    pub point: (Fraction, Fraction),
    pub normal: (int, int),
}

/// Where a ray crosses the boundary of a shape. `point` is
/// `origin + time_of_impact * direction`, in grid units; `normal` is an
/// axis-aligned unit vector that points out of the shape at the crossing (the
/// zero vector for a ray that does not move).
#[derive(Clone, Copy, Debug, PartialEq, Eq)]
pub struct Intersection {
    pub time_of_impact: Time,
    pub point: [Coord; 2],
    pub normal: [i32; 2],
}

impl View for Intersection {
    type V = Impact;

    open spec fn view(&self) -> Impact {
        Impact {
            time: self.time_of_impact@,
            point: (self.point[0]@, self.point[1]@),
            normal: (self.normal[0] as int, self.normal[1] as int),
        }
    }
}

/// The normal of a crossing on `axis` (0 or 1) of a ray that moves by
/// `direction` on that axis. `facing` is -1 where the ray enters the shape and
/// 1 where it leaves, so that the normal always points outward.
pub open spec fn normal_along(axis: int, facing: int, direction: int) -> (int, int) {
    if axis == 0 {
        (facing * signum(direction), 0)
    } else {
        (0, facing * signum(direction))
    }
}

/// Shapes that can be tested for collision with a `T`.
pub trait Collide<T> {
    /// Whether the two shapes share a point.
    spec fn spec_intersects(&self, other: &T) -> bool;

    /// The least penetration of the two shapes, if they share a point.
    spec fn spec_overlap(&self, other: &T) -> Option<Separation>;

    /// Whether the two shapes share a point.
    fn intersects(&self, other: &T) -> (hit: bool)
        ensures
            hit == self.spec_intersects(other),
    ;

    /// The least penetration of the two shapes, or `None` when they are apart.
    fn overlap(&self, other: &T) -> (found: Option<Overlap>)
        ensures
            found.is_some() == self.spec_intersects(other),
            match found {
                Some(o) => self.spec_overlap(other) == Some(o@),
                None => self.spec_overlap(other).is_none(),
            },
    ;
}

/// Shapes that a ray can be cast against.
pub trait RayCast {
    /// The crossings of the ray with the shape's boundary, in order of time.
    spec fn spec_ray_intersections(&self, origin: [i32; 2], direction: [i32; 2]) -> Seq<Impact>;

    /// The crossings of the ray with the shape's boundary: none, or the entry
    /// followed by the exit.
    fn ray_intersections(&self, origin: [i32; 2], direction: [i32; 2]) -> (hits: Vec<
        Intersection,
    >)
        ensures
            hits.len() == 0 || hits.len() == 2,
            hits.len() == 2 ==> !moment_before(hits[1].time_of_impact@, hits[0].time_of_impact@),
            hits.len() == self.spec_ray_intersections(origin, direction).len(),
            forall|i: int|
                0 <= i < hits.len() ==> (#[trigger] hits[i])@ == self.spec_ray_intersections(
                    origin,
                    direction,
                )[i],
    ;
}

} // verus!
