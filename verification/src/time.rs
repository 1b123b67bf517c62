//! Exact fractions, and ray parameters that may be infinite.
use vstd::prelude::*;

verus! {

/// The mathematical fraction `num / den`.
pub struct Fraction {
    pub num: int,
    pub den: int,
}

/// A ray parameter as a mathematical value: a fraction, or one of the two
/// infinities that bound an axis on which the ray does not move.
pub enum Moment {
    NegInfinity,
    At(Fraction),
    PosInfinity,
}

/// Strict order on moments. Two fractions with positive denominators are
/// compared by cross-multiplication, which is exact.
pub open spec fn moment_before(a: Moment, b: Moment) -> bool {
    match (a, b) {
        (Moment::NegInfinity, Moment::NegInfinity) => false,
        (Moment::NegInfinity, _) => true,
        (_, Moment::NegInfinity) => false,
        (Moment::PosInfinity, _) => false,
        (_, Moment::PosInfinity) => true,
        (Moment::At(x), Moment::At(y)) => x.num * y.den < y.num * x.den,
    }
}

/// A moment is proper when it is infinite or has a positive denominator.
pub open spec fn moment_proper(m: Moment) -> bool {
    match m {
        Moment::At(x) => x.den > 0,
        _ => true,
    }
}

/// When a ray that starts at `origin` and moves by `direction` per unit of time
/// enters the slab `span` of one axis. `span` is in half-units, `origin` and
/// `direction` in grid units. A ray that does not move on the axis has been
/// inside the slab forever, or never is.
pub open spec fn slab_enter(span: (int, int), origin: int, direction: int) -> Moment {
    if direction > 0 {
        Moment::At(Fraction { num: span.0 - 2 * origin, den: 2 * direction })
    } else if direction < 0 {
        Moment::At(Fraction { num: 2 * origin - span.1, den: -2 * direction })
    } else {
        Moment::NegInfinity
    }
}

/// When the same ray leaves the slab.
pub open spec fn slab_exit(span: (int, int), origin: int, direction: int) -> Moment {
    if direction > 0 {
        Moment::At(Fraction { num: span.1 - 2 * origin, den: 2 * direction })
    } else if direction < 0 {
        Moment::At(Fraction { num: 2 * origin - span.0, den: -2 * direction })
    } else {
        Moment::PosInfinity
    }
}

/// The coordinate `origin + t * direction` on one axis, in grid units. At an
/// infinite `t` the ray is one that does not move, and stays at `origin`.
pub open spec fn position_at(origin: int, direction: int, t: Moment) -> Fraction {
    match t {
        Moment::At(x) => Fraction { num: origin * x.den + x.num * direction, den: x.den },
        _ => Fraction { num: origin, den: 1 },
    }
}

/// A ray parameter: the fraction `num / den` with `den > 0`, or an infinity.
#[derive(Clone, Copy, Debug, PartialEq, Eq)]
pub enum Time {
    NegInfinity,
    At { num: i64, den: i64 },
    PosInfinity,
}

impl View for Time {
    type V = Moment;

    open spec fn view(&self) -> Moment {
        match *self {
            Time::NegInfinity => Moment::NegInfinity,
            Time::At { num, den } => Moment::At(Fraction { num: num as int, den: den as int }),
            Time::PosInfinity => Moment::PosInfinity,
        }
    }
}

/// An exact coordinate: the fraction `num / den` with `den > 0`, in grid units.
#[derive(Clone, Copy, Debug, PartialEq, Eq)]
pub struct Coord {
    pub num: i128,
    pub den: i64,
}

impl View for Coord {
    type V = Fraction;

    open spec fn view(&self) -> Fraction {
        Fraction { num: self.num as int, den: self.den as int }
    }
}

/// The product of two 64-bit integers, which always fits in 128 bits.
pub fn wide_product(a: i64, b: i64) -> (p: i128)
    ensures
        p == a * b,
{
    assert(-0x4000_0000_0000_0000_0000_0000_0000_0000 <= a * b
        <= 0x4000_0000_0000_0000_0000_0000_0000_0000) by (nonlinear_arith)
        requires
            -0x8000_0000_0000_0000 <= a < 0x8000_0000_0000_0000,
            -0x8000_0000_0000_0000 <= b < 0x8000_0000_0000_0000,
    ;
    (a as i128) * (b as i128)
}

impl Time {
    /// Whether `self` is strictly earlier than `other`.
    pub fn before(&self, other: &Time) -> (earlier: bool)
        ensures
            earlier == moment_before(self@, other@),
    {
        match (*self, *other) {
            (Time::NegInfinity, Time::NegInfinity) => false,
            (Time::NegInfinity, _) => true,
            (_, Time::NegInfinity) => false,
            (Time::PosInfinity, _) => false,
            (_, Time::PosInfinity) => true,
            (Time::At { num: an, den: ad }, Time::At { num: bn, den: bd }) => {
                wide_product(an, bd) < wide_product(bn, ad)
            },
        }
    }
}

/// The position on one axis of a ray at time `t`, as an exact fraction.
pub fn coord_at(origin: i32, direction: i32, t: Time) -> (c: Coord)
    ensures
        c@ == position_at(origin as int, direction as int, t@),
{
    match t {
        Time::At { num, den } => {
            let moved: i128 = wide_product(num, direction as i64);
            let start: i128 = wide_product(origin as i64, den);
            assert(-0x4000_0000_0000_0000_0000_0000 <= num * direction
                <= 0x4000_0000_0000_0000_0000_0000) by (nonlinear_arith)
                requires
                    -0x8000_0000_0000_0000 <= num < 0x8000_0000_0000_0000,
                    -0x8000_0000 <= direction < 0x8000_0000,
            ;
            assert(-0x4000_0000_0000_0000_0000_0000 <= origin * den
                <= 0x4000_0000_0000_0000_0000_0000) by (nonlinear_arith)
                requires
                    -0x8000_0000_0000_0000 <= den < 0x8000_0000_0000_0000,
                    -0x8000_0000 <= origin < 0x8000_0000,
            ;
            Coord { num: start + moved, den }
        },
        _ => Coord { num: origin as i128, den: 1 },
    }
}

/// The order on proper moments is transitive: if `a` is not after `b` and `b`
/// is not after `c`, then `a` is not after `c`.
pub proof fn lemma_moment_order_transitive(a: Moment, b: Moment, c: Moment)
    requires
        moment_proper(a),
        moment_proper(b),
        moment_proper(c),
        !moment_before(b, a),
        !moment_before(c, b),
    ensures
        !moment_before(c, a),
{
    match (a, b, c) {
        (Moment::At(x), Moment::At(y), Moment::At(z)) => {
            assert(x.num * z.den <= z.num * x.den) by (nonlinear_arith)
                requires
                    x.num * y.den <= y.num * x.den,
                    y.num * z.den <= z.num * y.den,
                    x.den > 0,
                    y.den > 0,
                    z.den > 0,
            {
                assert((x.num * y.den) * z.den <= (y.num * x.den) * z.den);
                assert((y.num * z.den) * x.den <= (z.num * y.den) * x.den);
                assert((x.num * z.den) * y.den <= (z.num * x.den) * y.den);
            }
        },
        _ => {},
    }
}

/// A ray that is inside a slab at a time `t` is, at that time, at a
/// coordinate of the slab: between the slab's bounds, which are in half-units.
pub proof fn lemma_position_within_slab(span: (int, int), origin: int, direction: int, t: Moment)
    requires
        moment_proper(t),
        direction == 0 ==> span.0 <= 2 * origin <= span.1,
        !moment_before(t, slab_enter(span, origin, direction)),
        !moment_before(slab_exit(span, origin, direction), t),
    ensures
        span.0 * position_at(origin, direction, t).den <= 2 * position_at(origin, direction, t).num,
        2 * position_at(origin, direction, t).num <= span.1 * position_at(origin, direction, t).den,
        position_at(origin, direction, t).den > 0,
{
    match t {
        Moment::At(x) => {
            let n = x.num;
            let m = x.den;
            if direction > 0 {
                assert(span.0 * m <= 2 * (origin * m + n * direction) && 2 * (origin * m + n
                    * direction) <= span.1 * m) by (nonlinear_arith)
                    requires
                        (span.0 - 2 * origin) * m <= n * (2 * direction),
                        n * (2 * direction) <= (span.1 - 2 * origin) * m,
                ;
            } else if direction < 0 {
                assert(span.0 * m <= 2 * (origin * m + n * direction) && 2 * (origin * m + n
                    * direction) <= span.1 * m) by (nonlinear_arith)
                    requires
                        (2 * origin - span.1) * m <= n * (-2 * direction),
                        n * (-2 * direction) <= (2 * origin - span.0) * m,
                ;
            } else {
                assert(span.0 * m <= 2 * (origin * m + n * direction) && 2 * (origin * m + n
                    * direction) <= span.1 * m) by (nonlinear_arith)
                    requires
                        span.0 <= 2 * origin <= span.1,
                        m > 0,
                        direction == 0,
                ;
            }
        },
        _ => {
            assert(span.0 * 1 == span.0 && span.1 * 1 == span.1);
        },
    }
}

/// Time zero: the moment at which a ray is at its origin.
pub open spec fn moment_zero() -> Moment {
    Moment::At(Fraction { num: 0, den: 1 })
}

/// A fraction is after time zero exactly when its numerator is positive, and
/// before it exactly when its numerator is negative.
pub proof fn lemma_moment_sign(m: Moment)
    ensures
        m matches Moment::At(x) ==> {
            &&& moment_before(moment_zero(), m) == (x.num > 0)
            &&& moment_before(m, moment_zero()) == (x.num < 0)
        },
{
    if let Moment::At(x) = m {
        let zero = Fraction { num: 0, den: 1 };
        assert(zero.num * x.den == 0 && x.num * zero.den == x.num) by (nonlinear_arith)
            requires
                zero.num == 0,
                zero.den == 1,
        ;
    }
}

} // verus!
