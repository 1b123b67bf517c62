use aabb::collision::{Collide, Intersection, Overlap, RayCast};
use aabb::shape::rectangle::{InvalidShapeError, Rectangle};
use aabb::time::{Coord, Time};

fn square() -> Rectangle {
    Rectangle::new([0, 0], [2, 2])
}

fn sample() -> Vec<Rectangle> {
    vec![
        Rectangle::new([0, 0], [2, 2]),
        Rectangle::new([1, 0], [2, 2]),
        Rectangle::new([2, 0], [2, 2]),
        Rectangle::new([3, 0], [2, 2]),
        Rectangle::new([0, 5], [1, 1]),
        Rectangle::new([-1, 1], [3, 5]),
        Rectangle::new([7, 7], [0, 0]),
        Rectangle::new([7, 7], [1, 3]),
        Rectangle::new([0, 0], [20, 20]),
        Rectangle::new([i32::MAX, i32::MIN], [i32::MAX, i32::MAX]),
        Rectangle::new([i32::MIN, i32::MAX], [i32::MAX, i32::MAX]),
    ]
}

#[test]
fn new_keeps_center_and_size() {
    let r = Rectangle::new([3, -4], [5, 6]);
    assert_eq!(r.center, [3, -4]);
    assert_eq!(r.size, [5, 6]);
}

#[test]
fn get_ranges_are_in_half_units() {
    let r = Rectangle::new([1, 1], [3, 1]);
    assert_eq!(r.get_ranges(), ([-1, 5], [1, 3]));
}

#[test]
fn get_ranges_at_the_extremes_do_not_overflow() {
    let r = Rectangle::new([i32::MAX, i32::MIN], [i32::MAX, i32::MAX]);
    let max = i64::from(i32::MAX);
    let min = i64::from(i32::MIN);
    assert_eq!(r.get_ranges(), ([max, 3 * max], [2 * min - max, 2 * min + max]));
}

#[test]
fn contains_with_an_odd_size_uses_exact_halves() {
    // Covers x from -0.5 to 2.5 and y from 0.5 to 1.5.
    let r = Rectangle::new([1, 1], [3, 1]);
    assert!(r.contains([2, 1]));
    assert!(r.contains([0, 1]));
    assert!(!r.contains([3, 1]));
    assert!(!r.contains([-1, 1]));
    assert!(!r.contains([1, 2]));
    assert!(!r.contains([1, 0]));
}

#[test]
fn contains_needs_both_axes() {
    let r = square();
    assert!(r.contains([0, 0]));
    assert!(r.contains([-1, -1]));
    assert!(r.contains([1, -1]));
    assert!(!r.contains([0, 2]));
    assert!(!r.contains([2, 0]));
    assert!(!r.contains([2, 2]));
}

#[test]
fn rectangle_of_negative_size_contains_nothing() {
    let r = Rectangle::new([0, 0], [-2, 2]);
    assert!(!r.contains([0, 0]));
}

#[test]
fn intersects_needs_both_axes() {
    let a = square();
    assert!(a.intersects(&Rectangle::new([1, 1], [2, 2])));
    assert!(a.intersects(&Rectangle::new([2, 2], [2, 2])));
    assert!(!a.intersects(&Rectangle::new([3, 0], [2, 2])));
    assert!(!a.intersects(&Rectangle::new([0, 3], [2, 2])));
    assert!(!a.intersects(&Rectangle::new([3, 3], [2, 2])));
}

#[test]
fn intersects_is_symmetric_on_samples() {
    let all = sample();
    for a in &all {
        for b in &all {
            assert_eq!(a.intersects(b), b.intersects(a));
        }
    }
}

#[test]
fn overlap_is_none_exactly_when_apart_on_samples() {
    let all = sample();
    for a in &all {
        for b in &all {
            assert_eq!(a.overlap(b).is_none(), !a.intersects(b));
        }
    }
}

#[test]
fn overlap_depth_is_bounded_on_samples() {
    let all = sample();
    for a in &all {
        for b in &all {
            if let Some(o) = a.overlap(b) {
                let axis = if o.resolve[0] != 0 { 0 } else { 1 };
                let both = i64::from(a.size[axis]) + i64::from(b.size[axis]);
                assert!(o.depth.abs() <= both);
                assert_eq!(o.resolve[axis], -o.depth);
                assert_eq!(o.resolve[1 - axis], 0);
            }
        }
    }
}

#[test]
fn overlap_resolves_along_the_shallower_axis() {
    let a = Rectangle::new([0, 0], [4, 4]);
    let b = Rectangle::new([1, 3], [4, 4]);
    assert_eq!(a.overlap(&b), Some(Overlap { depth: 2, resolve: [0, -2] }));
    let c = Rectangle::new([3, 1], [4, 4]);
    assert_eq!(a.overlap(&c), Some(Overlap { depth: 2, resolve: [-2, 0] }));
}

#[test]
fn overlap_with_equal_depths_resolves_along_y() {
    let a = Rectangle::new([0, 0], [4, 4]);
    let b = Rectangle::new([3, 3], [4, 4]);
    assert_eq!(a.overlap(&b), Some(Overlap { depth: 2, resolve: [0, -2] }));
}

#[test]
fn overlap_toward_decreasing_values_is_negative() {
    let a = Rectangle::new([0, 0], [2000, 2000]);
    let b = Rectangle::new([-1500, 0], [2000, 2000]);
    assert_eq!(a.overlap(&b), Some(Overlap { depth: -1000, resolve: [1000, 0] }));
}

#[test]
fn overlap_of_touching_rectangles_has_depth_zero() {
    let a = square();
    let b = Rectangle::new([2, 0], [2, 2]);
    assert_eq!(a.overlap(&b), Some(Overlap { depth: 0, resolve: [0, 0] }));
}

#[test]
fn overlap_of_distant_rectangles_is_none() {
    let a = square();
    assert_eq!(a.overlap(&Rectangle::new([3, 0], [2, 2])), None);
    assert_eq!(a.overlap(&Rectangle::new([0, -3], [2, 2])), None);
}

#[test]
fn overlap_at_the_extremes_does_not_overflow() {
    let a = Rectangle::new([i32::MIN, 0], [i32::MAX, i32::MAX]);
    let b = Rectangle::new([i32::MAX, 0], [i32::MAX, i32::MAX]);
    assert_eq!(a.overlap(&b), None);
    let wide = Rectangle::new([0, 0], [i32::MAX, i32::MAX]);
    let max = i64::from(i32::MAX);
    assert_eq!(wide.overlap(&wide), Some(Overlap { depth: 2 * max, resolve: [0, -2 * max] }));
}

#[test]
fn ray_toward_decreasing_x_hits_the_right_side_first() {
    let hits = square().ray_intersections([5, 0], [-1, 0]);
    assert_eq!(
        hits,
        vec![
            Intersection {
                time_of_impact: Time::At { num: 8, den: 2 },
                point: [Coord { num: 2, den: 2 }, Coord { num: 0, den: 2 }],
                normal: [1, 0],
            },
            Intersection {
                time_of_impact: Time::At { num: 12, den: 2 },
                point: [Coord { num: -2, den: 2 }, Coord { num: 0, den: 2 }],
                normal: [-1, 0],
            },
        ]
    );
}

#[test]
fn ray_through_a_corner_names_the_x_side() {
    let hits = square().ray_intersections([-3, -3], [1, 1]);
    assert_eq!(
        hits,
        vec![
            Intersection {
                time_of_impact: Time::At { num: 4, den: 2 },
                point: [Coord { num: -2, den: 2 }, Coord { num: -2, den: 2 }],
                normal: [-1, 0],
            },
            Intersection {
                time_of_impact: Time::At { num: 8, den: 2 },
                point: [Coord { num: 2, den: 2 }, Coord { num: 2, den: 2 }],
                normal: [1, 0],
            },
        ]
    );
}

#[test]
fn ray_from_inside_has_a_negative_entry_time() {
    let hits = square().ray_intersections([0, 0], [0, 1]);
    assert_eq!(
        hits,
        vec![
            Intersection {
                time_of_impact: Time::At { num: -2, den: 2 },
                point: [Coord { num: 0, den: 2 }, Coord { num: -2, den: 2 }],
                normal: [0, -1],
            },
            Intersection {
                time_of_impact: Time::At { num: 2, den: 2 },
                point: [Coord { num: 0, den: 2 }, Coord { num: 2, den: 2 }],
                normal: [0, 1],
            },
        ]
    );
}

#[test]
fn ray_that_leaves_one_slab_before_the_other_misses() {
    assert!(square().ray_intersections([-3, 0], [1, 5]).is_empty());
}

#[test]
fn ray_along_an_axis_beside_the_rectangle_misses() {
    assert!(square().ray_intersections([-5, 2], [1, 0]).is_empty());
    assert!(square().ray_intersections([2, -5], [0, 1]).is_empty());
}

#[test]
fn ray_along_an_edge_hits() {
    let hits = square().ray_intersections([-5, 1], [1, 0]);
    assert_eq!(hits.len(), 2);
    assert_eq!(hits[0].time_of_impact, Time::At { num: 8, den: 2 });
    assert_eq!(hits[1].time_of_impact, Time::At { num: 12, den: 2 });
    assert_eq!(hits[0].normal, [-1, 0]);
    assert_eq!(hits[1].normal, [1, 0]);
}

#[test]
fn ray_that_points_away_hits_at_negative_times() {
    let hits = square().ray_intersections([5, 0], [1, 0]);
    assert_eq!(hits.len(), 2);
    assert_eq!(hits[0].time_of_impact, Time::At { num: -12, den: 2 });
    assert_eq!(hits[1].time_of_impact, Time::At { num: -8, den: 2 });
}

#[test]
fn still_ray_inside_never_enters_nor_leaves() {
    let hits = square().ray_intersections([1, 0], [0, 0]);
    assert_eq!(
        hits,
        vec![
            Intersection {
                time_of_impact: Time::NegInfinity,
                point: [Coord { num: 1, den: 1 }, Coord { num: 0, den: 1 }],
                normal: [0, 0],
            },
            Intersection {
                time_of_impact: Time::PosInfinity,
                point: [Coord { num: 1, den: 1 }, Coord { num: 0, den: 1 }],
                normal: [0, 0],
            },
        ]
    );
}

#[test]
fn still_ray_outside_misses() {
    assert!(square().ray_intersections([2, 0], [0, 0]).is_empty());
}

#[test]
fn ray_against_a_rectangle_of_negative_size_misses() {
    let r = Rectangle::new([0, 0], [-2, 2]);
    assert!(r.ray_intersections([-5, 0], [1, 0]).is_empty());
}

#[test]
fn ray_results_are_empty_or_an_ordered_pair_on_samples() {
    let rays: [([i32; 2], [i32; 2]); 8] = [
        ([0, 0], [1, 0]),
        ([0, 0], [0, 0]),
        ([-9, -9], [1, 1]),
        ([-9, -9], [2, 3]),
        ([9, 4], [-3, -1]),
        ([7, 7], [0, -1]),
        ([i32::MIN, i32::MIN], [i32::MAX, i32::MAX]),
        ([i32::MAX, i32::MIN], [i32::MIN, i32::MAX]),
    ];
    for r in sample() {
        for (origin, direction) in rays {
            let hits = r.ray_intersections(origin, direction);
            assert!(hits.is_empty() || hits.len() == 2);
            if hits.len() == 2 {
                assert!(!hits[1].time_of_impact.before(&hits[0].time_of_impact));
            }
        }
    }
}

#[test]
fn ray_at_the_extremes_does_not_overflow() {
    let r = Rectangle::new([i32::MAX, i32::MAX], [i32::MAX, i32::MAX]);
    let hits = r.ray_intersections([i32::MIN, i32::MIN], [i32::MAX, i32::MAX]);
    assert_eq!(hits.len(), 2);
    let max = i128::from(i32::MAX);
    let min = i128::from(i32::MIN);
    // Enters at (2 * max - max - 2 * min) / (2 * max).
    assert_eq!(
        hits[0].time_of_impact,
        Time::At { num: (max - 2 * min) as i64, den: (2 * max) as i64 }
    );
    assert_eq!(
        hits[0].point[0],
        Coord { num: min * 2 * max + (max - 2 * min) * max, den: (2 * max) as i64 }
    );
}

#[test]
fn try_new_accepts_sizes_that_are_not_negative() {
    assert_eq!(Rectangle::try_new([1, 2], [0, 3]), Ok(Rectangle::new([1, 2], [0, 3])));
}

#[test]
fn try_new_refuses_a_negative_size() {
    assert_eq!(Rectangle::try_new([1, 2], [-1, 3]), Err(InvalidShapeError { size: [-1, 3] }));
    assert_eq!(Rectangle::try_new([1, 2], [4, -3]), Err(InvalidShapeError { size: [4, -3] }));
}

#[test]
fn resolve_moves_the_first_rectangle_to_touch_the_second() {
    let a = Rectangle::new([0, 0], [2000, 2000]);
    let b = Rectangle::new([1500, 0], [2000, 2000]);
    let o = a.overlap(&b).unwrap();
    let (ax, _) = a.get_ranges();
    let (bx, _) = b.get_ranges();
    assert_eq!(ax[1] + o.resolve[0], bx[0]);
}

#[test]
fn crossings_lie_on_the_boundary() {
    let r = Rectangle::new([1, 1], [3, 1]);
    let hits = r.ray_intersections([-4, 0], [3, 1]);
    assert_eq!(hits.len(), 2);
    let (rx, ry) = r.get_ranges();
    for hit in hits {
        for (axis, range) in [rx, ry].into_iter().enumerate() {
            let p = hit.point[axis];
            let twice = 2 * p.num;
            let den = i128::from(p.den);
            assert!(i128::from(range[0]) * den <= twice && twice <= i128::from(range[1]) * den);
            if hit.normal[axis] == -1 {
                assert_eq!(twice, i128::from(range[0]) * den);
            }
            if hit.normal[axis] == 1 {
                assert_eq!(twice, i128::from(range[1]) * den);
            }
        }
    }
}
