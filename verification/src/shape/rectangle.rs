//! Axis-aligned rectangles.
use vstd::prelude::*;
use vstd::math::abs;
use crate::collision::{
    Collide, Impact, Intersection, Overlap, RayCast, Separation, normal_along, range_contains,
    ranges_intersect, ranges_overlap, separation_along, shallow_axis, sign, span_contains,
    span_of, spans_intersect, spans_overlap,
};
use crate::time::{
    Fraction, Moment, Time, coord_at, lemma_moment_order_transitive, lemma_moment_sign,
    lemma_position_within_slab, moment_before, moment_proper, moment_zero, position_at,
    slab_enter, slab_exit,
};

verus! {

/// An axis-aligned rectangle, given by its center and its full size on each
/// axis, in grid units. On each axis it covers the closed interval from
/// `center - size / 2` to `center + size / 2`.
#[derive(Clone, Copy, Debug, PartialEq, Eq)]
pub struct Rectangle {
    pub center: [i32; 2],
    pub size: [i32; 2],
}

/// Why a rectangle was refused: a size that is negative on some axis.
#[derive(Clone, Copy, Debug, PartialEq, Eq)]
pub struct InvalidShapeError {
    pub size: [i32; 2],
}

impl Rectangle {
    /// A rectangle is well formed when neither size is negative. The queries
    /// accept any rectangle; on one that is not well formed they work on
    /// inverted intervals, which hold no point.
    pub open spec fn well_formed(&self) -> bool {
        self.size[0] >= 0 && self.size[1] >= 0
    }

    /// The interval that the rectangle covers on `axis` (0 or 1), in
    /// half-units.
    pub open spec fn span(&self, axis: int) -> (int, int) {
        (2 * self.center[axis] - self.size[axis], 2 * self.center[axis] + self.size[axis])
    }

    /// The point `p`, given in grid units, lies in the rectangle or on its
    /// boundary.
    pub open spec fn spec_contains(&self, p: [i32; 2]) -> bool {
        span_contains(self.span(0), 2 * p[0]) && span_contains(self.span(1), 2 * p[1])
    }

    /// Creates a rectangle. The sizes are taken as they are: it is the
    /// caller's part to keep them non-negative.
    pub fn new(center: [i32; 2], size: [i32; 2]) -> (rect: Rectangle)
        ensures
            rect.center == center,
            rect.size == size,
            rect.well_formed() == (size[0] >= 0 && size[1] >= 0),
    {
        Rectangle { center, size }
    }

    /// Creates a rectangle if neither size is negative, and refuses the size
    /// otherwise.
    pub fn try_new(center: [i32; 2], size: [i32; 2]) -> (made: Result<Rectangle, InvalidShapeError>)
        ensures
            made.is_ok() == (size[0] >= 0 && size[1] >= 0),
            match made {
                Ok(rect) => rect.center == center && rect.size == size && rect.well_formed(),
                Err(e) => e.size == size,
            },
    {
        if size[0] >= 0 && size[1] >= 0 {
            Ok(Rectangle { center, size })
        } else {
            Err(InvalidShapeError { size })
        }
    }

    /// Whether the rectangle contains `point`, boundary included.
    pub fn contains(&self, point: [i32; 2]) -> (inside: bool)
        ensures
            inside == self.spec_contains(point),
            inside == (2 * self.center[0] - self.size[0] <= 2 * point[0] <= 2 * self.center[0]
                + self.size[0] && 2 * self.center[1] - self.size[1] <= 2 * point[1] <= 2
                * self.center[1] + self.size[1]),
    {
        let (range_x, range_y) = self.get_ranges();
        range_contains(range_x, 2 * (point[0] as i64)) && range_contains(
            range_y,
            2 * (point[1] as i64),
        )
    }

    /// The ranges that the rectangle covers on the two axes, in half-units.
    pub fn get_ranges(&self) -> (ranges: ([i64; 2], [i64; 2]))
        ensures
            span_of(ranges.0) == self.span(0),
            span_of(ranges.1) == self.span(1),
            self.well_formed() ==> ranges.0[0] <= ranges.0[1] && ranges.1[0] <= ranges.1[1],
    {
        let cx: i64 = 2 * (self.center[0] as i64);
        let cy: i64 = 2 * (self.center[1] as i64);
        let sx: i64 = self.size[0] as i64;
        let sy: i64 = self.size[1] as i64;
        ([cx - sx, cx + sx], [cy - sy, cy + sy])
    }

    /// A ray that does not move on some axis and lies outside the
    /// rectangle's interval on that axis can never reach the rectangle.
    pub open spec fn ray_shut_out(&self, origin: [i32; 2], direction: [i32; 2]) -> bool {
        ||| direction[0] == 0 && !span_contains(self.span(0), 2 * origin[0])
        ||| direction[1] == 0 && !span_contains(self.span(1), 2 * origin[1])
    }

    /// The axis whose slab the ray enters last. When both are entered at the
    /// same time, it is the first axis.
    pub open spec fn entry_axis(&self, origin: [i32; 2], direction: [i32; 2]) -> int {
        if moment_before(
            slab_enter(self.span(0), origin[0] as int, direction[0] as int),
            slab_enter(self.span(1), origin[1] as int, direction[1] as int),
        ) {
            1
        } else {
            0
        }
    }

    /// The axis whose slab the ray leaves first. When both are left at the
    /// same time, it is the first axis.
    pub open spec fn exit_axis(&self, origin: [i32; 2], direction: [i32; 2]) -> int {
        if moment_before(
            slab_exit(self.span(1), origin[1] as int, direction[1] as int),
            slab_exit(self.span(0), origin[0] as int, direction[0] as int),
        ) {
            1
        } else {
            0
        }
    }

    /// When the ray is inside both slabs for the first time: the later of the
    /// two entries.
    pub open spec fn entry_time(&self, origin: [i32; 2], direction: [i32; 2]) -> Moment {
        let axis = self.entry_axis(origin, direction);
        slab_enter(self.span(axis), origin[axis] as int, direction[axis] as int)
    }

    /// When the ray is inside both slabs for the last time: the earlier of the
    /// two exits.
    pub open spec fn exit_time(&self, origin: [i32; 2], direction: [i32; 2]) -> Moment {
        let axis = self.exit_axis(origin, direction);
        slab_exit(self.span(axis), origin[axis] as int, direction[axis] as int)
    }

    /// The ray misses when it is shut out on an axis, or leaves one slab
    /// before it has entered the other.
    pub open spec fn ray_misses(&self, origin: [i32; 2], direction: [i32; 2]) -> bool {
        self.ray_shut_out(origin, direction) || moment_before(
            self.exit_time(origin, direction),
            self.entry_time(origin, direction),
        )
    }
}

/// The crossing at time `t` of a ray with the side of a shape that bounds
/// `axis`. `facing` is -1 for an entry and 1 for an exit.
pub open spec fn impact_at(
    origin: [i32; 2],
    direction: [i32; 2],
    t: Moment,
    axis: int,
    facing: int,
) -> Impact {
    Impact {
        time: t,
        point: (
            position_at(origin[0] as int, direction[0] as int, t),
            position_at(origin[1] as int, direction[1] as int, t),
        ),
        normal: normal_along(axis, facing, direction[axis] as int),
    }
}

/// The entry and exit times of a ray on one axis of a rectangle.
fn slab_times(range: [i64; 2], origin: i32, direction: i32) -> (window: (Time, Time))
    requires
        -0x2_0000_0000 <= range[0] <= 0x2_0000_0000,
        -0x2_0000_0000 <= range[1] <= 0x2_0000_0000,
    ensures
        window.0@ == slab_enter(span_of(range), origin as int, direction as int),
        window.1@ == slab_exit(span_of(range), origin as int, direction as int),
{
    let start: i64 = 2 * (origin as i64);
    let rate: i64 = 2 * (direction as i64);
    if direction > 0 {
        (
            Time::At { num: range[0] - start, den: rate },
            Time::At { num: range[1] - start, den: rate },
        )
    } else if direction < 0 {
        (
            Time::At { num: start - range[1], den: -rate },
            Time::At { num: start - range[0], den: -rate },
        )
    } else {
        (Time::NegInfinity, Time::PosInfinity)
    }
}

/// The record of a crossing at time `t` on the side that bounds `axis`.
fn crossing(origin: [i32; 2], direction: [i32; 2], t: Time, axis: usize, facing: i32) -> (hit:
    Intersection)
    requires
        axis < 2,
        facing == -1 || facing == 1,
    ensures
        hit@ == impact_at(origin, direction, t@, axis as int, facing as int),
{
    let toward: i32 = sign(direction[axis]);
    let out: i32 = if facing < 0 {
        -toward
    } else {
        toward
    };
    let normal: [i32; 2] = if axis == 0 {
        [out, 0]
    } else {
        [0, out]
    };
    Intersection {
        time_of_impact: t,
        point: [coord_at(origin[0], direction[0], t), coord_at(origin[1], direction[1], t)],
        normal,
    }
}

impl Collide<Rectangle> for Rectangle {
    /// Two rectangles share a point exactly when their intervals intersect on
    /// both axes.
    open spec fn spec_intersects(&self, other: &Rectangle) -> bool {
        spans_intersect(self.span(0), other.span(0)) && spans_intersect(
            self.span(1),
            other.span(1),
        )
    }

    /// The penetration on the axis where it is smaller in magnitude (on the
    /// second axis when both are equal), with the vector that undoes it.
    open spec fn spec_overlap(&self, other: &Rectangle) -> Option<Separation> {
        match (
            spans_overlap(self.span(0), other.span(0)),
            spans_overlap(self.span(1), other.span(1)),
        ) {
            (Some(x), Some(y)) => Some(
                separation_along(
                    shallow_axis(x, y),
                    if shallow_axis(x, y) == 0 {
                        x
                    } else {
                        y
                    },
                ),
            ),
            _ => None,
        }
    }

    fn intersects(&self, other: &Rectangle) -> (hit: bool) {
        let (self_range_x, self_range_y) = self.get_ranges();
        let (other_range_x, other_range_y) = other.get_ranges();
        ranges_intersect(self_range_x, other_range_x) && ranges_intersect(
            self_range_y,
            other_range_y,
        )
    }

    fn overlap(&self, other: &Rectangle) -> (found: Option<Overlap>) {
        let (self_range_x, self_range_y) = self.get_ranges();
        let (other_range_x, other_range_y) = other.get_ranges();
        let overlap_x = ranges_overlap(self_range_x, other_range_x);
        let overlap_y = ranges_overlap(self_range_y, other_range_y);
        match (overlap_x, overlap_y) {
            (Some(wide_x), Some(wide_y)) => {
                let x: i64 = wide_x as i64;
                let y: i64 = wide_y as i64;
                let size_x: i64 = if x < 0 {
                    -x
                } else {
                    x
                };
                let size_y: i64 = if y < 0 {
                    -y
                } else {
                    y
                };
                if size_x < size_y {
                    Some(Overlap { depth: x, resolve: [-x, 0] })
                } else {
                    Some(Overlap { depth: y, resolve: [0, -y] })
                }
            },
            _ => None,
        }
    }
}

impl RayCast for Rectangle {
    /// No crossing when the ray misses; else the crossing at the entry time
    /// followed by the one at the exit time.
    open spec fn spec_ray_intersections(&self, origin: [i32; 2], direction: [i32; 2]) -> Seq<
        Impact,
    > {
        if self.ray_misses(origin, direction) {
            seq![]
        } else {
            seq![
                impact_at(
                    origin,
                    direction,
                    self.entry_time(origin, direction),
                    self.entry_axis(origin, direction),
                    -1,
                ),
                impact_at(
                    origin,
                    direction,
                    self.exit_time(origin, direction),
                    self.exit_axis(origin, direction),
                    1,
                ),
            ]
        }
    }

    fn ray_intersections(&self, origin: [i32; 2], direction: [i32; 2]) -> (hits: Vec<
        Intersection,
    >) {
        let (range_x, range_y) = self.get_ranges();
        let mut hits: Vec<Intersection> = Vec::new();
        if direction[0] == 0 && !range_contains(range_x, 2 * (origin[0] as i64)) {
            return hits;
        }
        if direction[1] == 0 && !range_contains(range_y, 2 * (origin[1] as i64)) {
            return hits;
        }
        let (enter_x, exit_x) = slab_times(range_x, origin[0], direction[0]);
        let (enter_y, exit_y) = slab_times(range_y, origin[1], direction[1]);
        let (entry_axis, entry): (usize, Time) = if enter_x.before(&enter_y) {
            (1, enter_y)
        } else {
            (0, enter_x)
        };
        let (exit_axis, exit): (usize, Time) = if exit_y.before(&exit_x) {
            (1, exit_y)
        } else {
            (0, exit_x)
        };
        if exit.before(&entry) {
            return hits;
        }
        hits.push(crossing(origin, direction, entry, entry_axis, -1));
        hits.push(crossing(origin, direction, exit, exit_axis, 1));
        hits
    }
}

impl Rectangle {
    /// The axis along which `spec_overlap` resolves a collision with `other`.
    pub open spec fn resolved_axis(&self, other: &Rectangle) -> int
        recommends
            self.spec_intersects(other),
    {
        shallow_axis(
            spans_overlap(self.span(0), other.span(0)).unwrap(),
            spans_overlap(self.span(1), other.span(1)).unwrap(),
        )
    }
}

/// Intersection does not depend on which rectangle is asked.
pub proof fn lemma_intersects_symmetric(a: Rectangle, b: Rectangle)
    ensures
        a.spec_intersects(&b) == b.spec_intersects(&a),
{
}

/// Two rectangles have an overlap exactly when they intersect.
pub proof fn lemma_overlap_iff_intersects(a: Rectangle, b: Rectangle)
    ensures
        a.spec_overlap(&b).is_none() <==> !a.spec_intersects(&b),
        a.spec_overlap(&b).is_some() <==> a.spec_intersects(&b),
{
}

/// The depth of an overlap is at most half the sum of the two sizes on the
/// axis that is resolved. Depth is in half-units and sizes are in grid units,
/// so the bound reads: the depth is at most the sum of the two sizes. The
/// resolve vector is the negated depth on that axis and zero on the other.
pub proof fn lemma_depth_within_half_extents(a: Rectangle, b: Rectangle)
    requires
        a.spec_intersects(&b),
    ensures
        a.spec_overlap(&b).is_some(),
        0 <= a.resolved_axis(&b) <= 1,
        abs(a.spec_overlap(&b).unwrap().depth) <= a.size[a.resolved_axis(&b)] + b.size[a.resolved_axis(
            &b,
        )],
        a.spec_overlap(&b).unwrap() == separation_along(
            a.resolved_axis(&b),
            a.spec_overlap(&b).unwrap().depth,
        ),
{
}

/// Moving the first rectangle by the resolve vector of its overlap with the
/// second leaves the two touching on the resolved axis: a side of the first
/// then lies on the opposite side of the second. The vector and the intervals
/// are both in half-units.
pub proof fn lemma_resolve_brings_to_touch(a: Rectangle, b: Rectangle)
    requires
        a.spec_intersects(&b),
    ensures
        ({
            let axis = a.resolved_axis(&b);
            let resolve = a.spec_overlap(&b).unwrap().resolve;
            let shift = if axis == 0 {
                resolve.0
            } else {
                resolve.1
            };
            ||| a.span(axis).1 + shift == b.span(axis).0
            ||| a.span(axis).0 + shift == b.span(axis).1
        }),
{
}

/// A point lies in a rectangle exactly when the rectangle intersects the
/// rectangle of size zero at that point.
pub proof fn lemma_contains_is_point_intersection(r: Rectangle, p: [i32; 2], dot: Rectangle)
    requires
        dot.center == p,
        dot.size[0] == 0,
        dot.size[1] == 0,
    ensures
        r.spec_contains(p) == r.spec_intersects(&dot),
{
}

/// A ray cast yields no crossing or exactly two, and then the first is not
/// later than the second. Every time and coordinate in them is a fraction
/// with a positive denominator, or the time is infinite and the ray does not
/// move.
pub proof fn lemma_ray_hits_ordered(r: Rectangle, origin: [i32; 2], direction: [i32; 2])
    ensures
        r.spec_ray_intersections(origin, direction).len() == 0 || r.spec_ray_intersections(
            origin,
            direction,
        ).len() == 2,
        r.spec_ray_intersections(origin, direction).len() == 0 <==> r.ray_misses(origin, direction),
        r.spec_ray_intersections(origin, direction).len() == 2 ==> {
            let first = r.spec_ray_intersections(origin, direction)[0];
            let second = r.spec_ray_intersections(origin, direction)[1];
            &&& !moment_before(second.time, first.time)
            &&& moment_proper(first.time)
            &&& moment_proper(second.time)
            &&& first.point.0.den > 0 && first.point.1.den > 0
            &&& second.point.0.den > 0 && second.point.1.den > 0
            &&& first.time is At <==> direction[0] != 0 || direction[1] != 0
            &&& second.time is At <==> direction[0] != 0 || direction[1] != 0
        },
{
}

/// A ray that starts at a point of the rectangle is never taken for a miss:
/// it has entered no later than at time zero and leaves no earlier.
pub proof fn lemma_ray_from_inside_hits(r: Rectangle, origin: [i32; 2], direction: [i32; 2])
    requires
        r.spec_contains(origin),
    ensures
        !r.ray_misses(origin, direction),
        r.spec_ray_intersections(origin, direction).len() == 2,
        !moment_before(moment_zero(), r.entry_time(origin, direction)),
        !moment_before(r.exit_time(origin, direction), moment_zero()),
{
    let ex = slab_enter(r.span(0), origin[0] as int, direction[0] as int);
    let ey = slab_enter(r.span(1), origin[1] as int, direction[1] as int);
    let lx = slab_exit(r.span(0), origin[0] as int, direction[0] as int);
    let ly = slab_exit(r.span(1), origin[1] as int, direction[1] as int);
    let zero = moment_zero();
    lemma_moment_sign(ex);
    lemma_moment_sign(ey);
    lemma_moment_sign(lx);
    lemma_moment_sign(ly);
    assert(!moment_before(zero, ex) && !moment_before(zero, ey));
    assert(!moment_before(lx, zero) && !moment_before(ly, zero));
    let entry = r.entry_time(origin, direction);
    let exit = r.exit_time(origin, direction);
    assert(entry == ex || entry == ey);
    assert(exit == lx || exit == ly);
    lemma_moment_order_transitive(entry, zero, exit);
}

/// A ray that crosses the coordinate `bound / 2` of an axis is exactly there
/// at the time of the crossing, whichever way it moves.
pub proof fn lemma_crossing_position(bound: int, origin: int, direction: int)
    ensures
        2 * position_at(
            origin,
            direction,
            Moment::At(Fraction { num: bound - 2 * origin, den: 2 * direction }),
        ).num == bound * (2 * direction),
        2 * position_at(
            origin,
            direction,
            Moment::At(Fraction { num: 2 * origin - bound, den: -2 * direction }),
        ).num == bound * (-2 * direction),
{
    assert(2 * (origin * (2 * direction) + (bound - 2 * origin) * direction) == bound * (2
        * direction)) by (nonlinear_arith);
    assert(2 * (origin * (-2 * direction) + (2 * origin - bound) * direction) == bound * (-2
        * direction)) by (nonlinear_arith);
}

/// Every crossing of a ray cast lies on the side of the rectangle that its normal
/// faces: on the lower side of an axis where the normal is -1 and on the upper
/// side where it is 1. The normal is zero on at least one axis.
pub proof fn lemma_hit_lies_on_struck_side(
    r: Rectangle,
    origin: [i32; 2],
    direction: [i32; 2],
    i: int,
)
    requires
        0 <= i < r.spec_ray_intersections(origin, direction).len(),
    ensures
        ({
            let hit = r.spec_ray_intersections(origin, direction)[i];
            &&& hit.normal.0 == 0 || hit.normal.1 == 0
            &&& hit.normal.0 == -1 ==> 2 * hit.point.0.num == r.span(0).0 * hit.point.0.den
            &&& hit.normal.0 == 1 ==> 2 * hit.point.0.num == r.span(0).1 * hit.point.0.den
            &&& hit.normal.1 == -1 ==> 2 * hit.point.1.num == r.span(1).0 * hit.point.1.den
            &&& hit.normal.1 == 1 ==> 2 * hit.point.1.num == r.span(1).1 * hit.point.1.den
        }),
{
    lemma_crossing_position(r.span(0).0, origin[0] as int, direction[0] as int);
    lemma_crossing_position(r.span(0).1, origin[0] as int, direction[0] as int);
    lemma_crossing_position(r.span(1).0, origin[1] as int, direction[1] as int);
    lemma_crossing_position(r.span(1).1, origin[1] as int, direction[1] as int);
}

/// Every crossing of a ray cast is a point of the rectangle: on each axis its
/// coordinate lies between the bounds of the rectangle's interval.
pub proof fn lemma_hit_lies_in_rectangle(
    r: Rectangle,
    origin: [i32; 2],
    direction: [i32; 2],
    i: int,
)
    requires
        0 <= i < r.spec_ray_intersections(origin, direction).len(),
    ensures
        ({
            let hit = r.spec_ray_intersections(origin, direction)[i];
            &&& hit.point.0.den > 0 && hit.point.1.den > 0
            &&& r.span(0).0 * hit.point.0.den <= 2 * hit.point.0.num <= r.span(0).1
                * hit.point.0.den
            &&& r.span(1).0 * hit.point.1.den <= 2 * hit.point.1.num <= r.span(1).1
                * hit.point.1.den
        }),
{
    let enter_x = slab_enter(r.span(0), origin[0] as int, direction[0] as int);
    let enter_y = slab_enter(r.span(1), origin[1] as int, direction[1] as int);
    let exit_x = slab_exit(r.span(0), origin[0] as int, direction[0] as int);
    let exit_y = slab_exit(r.span(1), origin[1] as int, direction[1] as int);
    let entry = r.entry_time(origin, direction);
    let exit = r.exit_time(origin, direction);
    let t = r.spec_ray_intersections(origin, direction)[i].time;
    assert(t == entry || t == exit);
    assert(!moment_before(exit, entry));
    // Both slabs are entered by the entry time and left no earlier than the exit time.
    assert(!moment_before(entry, enter_x) && !moment_before(entry, enter_y));
    assert(!moment_before(exit_x, exit) && !moment_before(exit_y, exit));
    lemma_moment_order_transitive(entry, exit, exit_x);
    lemma_moment_order_transitive(entry, exit, exit_y);
    lemma_moment_order_transitive(enter_x, entry, exit);
    lemma_moment_order_transitive(enter_y, entry, exit);
    lemma_position_within_slab(r.span(0), origin[0] as int, direction[0] as int, t);
    lemma_position_within_slab(r.span(1), origin[1] as int, direction[1] as int, t);
}

} // verus!
