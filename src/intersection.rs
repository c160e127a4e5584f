use vstd::prelude::*;
use crate::geometry::{Point, Line, fits_i32, abs, trunc_div, round_div, dot, det, lemma_i32_product};
use crate::equation::{
    LineSide, LinearEquation, normal_x, normal_y, origin_distance, equation_fits,
    lemma_endpoints_on_line,
};
use vstd::arithmetic::div_mod::{lemma_fundamental_div_mod, lemma_fundamental_div_mod_converse};

verus! {

/// How two directed lines meet.
#[derive(Clone, Copy, Debug, PartialEq, Eq, Structural)]
pub enum Intersection {
    /// The lines cross at `point`.
    Point {
        point: Point,
        /// The side that holds the joint's reflex angle.
        outer_side: LineSide,
        /// The lines are so close to parallel that `point` is only the average
        /// of the first line's end and the second line's start.
        is_special_case: bool,
    },
    /// The lines are parallel, whether or not they coincide.
    Colinear,
}

/// The determinant of the two line equations' normal vectors.
pub open spec fn denominator(a: Line, b: Line) -> int {
    det(normal_x(a), normal_y(a), normal_x(b), normal_y(b))
}

/// The numerators of Cramer's rule for the two line equations.
pub open spec fn x_numerator(a: Line, b: Line) -> int {
    det(origin_distance(a), origin_distance(b), normal_y(a), normal_y(b))
}

pub open spec fn y_numerator(a: Line, b: Line) -> int {
    det(normal_x(a), normal_x(b), origin_distance(a), origin_distance(b))
}

/// The lines are too close to parallel for the linear system to be solved
/// reliably.
pub open spec fn near_parallel(a: Line, b: Line) -> bool {
    denominator(a, b) * denominator(a, b) < dot(a.dx(), a.dy(), b.dx(), b.dy())
}

pub open spec fn outer_side_of(denominator: int) -> LineSide {
    if denominator > 0 {
        LineSide::Right
    } else {
        LineSide::Left
    }
}

/// The point reported for two lines that are not parallel.
pub open spec fn expected_x(a: Line, b: Line) -> int {
    if near_parallel(a, b) {
        trunc_div(a.end.x + b.start.x, 2)
    } else {
        round_div(x_numerator(a, b), denominator(a, b))
    }
}

pub open spec fn expected_y(a: Line, b: Line) -> int {
    if near_parallel(a, b) {
        trunc_div(a.end.y + b.start.y, 2)
    } else {
        round_div(y_numerator(a, b), denominator(a, b))
    }
}

/// Whether every value that the intersection of `a` and `b` goes through can
/// be held by an `i32`.
pub open spec fn intersection_defined(a: Line, b: Line) -> bool {
    &&& equation_fits(a)
    &&& equation_fits(b)
    &&& fits_i32(denominator(a, b))
    &&& (denominator(a, b) != 0 && !near_parallel(a, b)) ==> {
        &&& fits_i32(round_div(x_numerator(a, b), denominator(a, b)))
        &&& fits_i32(round_div(y_numerator(a, b), denominator(a, b)))
    }
}

proof fn lemma_half_sum_fits(a: int, b: int)
    requires
        fits_i32(a),
        fits_i32(b),
    ensures
        fits_i32(trunc_div(a + b, 2)),
{
    let n = a + b;
    assert(abs(n) <= 0x1_0000_0000);
    assert(abs(n) / 2 <= 0x8000_0000);
    if n >= 0 {
        assert(n <= 0xFFFF_FFFE);
        assert(n / 2 <= 0x7FFF_FFFF);
    }
}

/// What `intersection` returns for `a` and `b`: `Colinear` exactly when the
/// denominator is zero, and otherwise the point, outer side and special-case
/// flag given by the spec functions above.
pub open spec fn is_intersection_of(r: Intersection, a: Line, b: Line) -> bool {
    &&& (r is Colinear) == (denominator(a, b) == 0)
    &&& r is Point ==> {
        &&& r->outer_side == outer_side_of(denominator(a, b))
        &&& r->is_special_case == near_parallel(a, b)
        &&& r->point.x == expected_x(a, b)
        &&& r->point.y == expected_y(a, b)
    }
}

fn div_toward_zero(n: i128, d: i128) -> (q: i128)
    requires
        d != 0,
        -0x1_0000_0000_0000_0000_0000 <= n <= 0x1_0000_0000_0000_0000_0000,
        -0x1_0000_0000_0000_0000_0000 <= d <= 0x1_0000_0000_0000_0000_0000,
    ensures
        q == trunc_div(n as int, d as int),
{
    let na: i128 = if n < 0 { -n } else { n };
    let da: i128 = if d < 0 { -d } else { d };
    let q: i128 = na / da;
    if (n < 0) == (d < 0) {
        q
    } else {
        -q
    }
}

/// The intersection of the infinite lines through two segments, in integer
/// arithmetic only. The point is rounded half away from zero.
pub fn intersection(line: &Line, other: &Line) -> (r: Intersection)
    requires
        intersection_defined(*line, *other),
    ensures
        is_intersection_of(r, *line, *other),
{
    let line1 = LinearEquation::from_line(line);
    let line2 = LinearEquation::from_line(other);
    let denominator = line1.normal_vector.determinant(line2.normal_vector);
    if denominator == 0 {
        return Intersection::Colinear;
    }
    let outer_side = if denominator > 0 {
        LineSide::Right
    } else {
        LineSide::Left
    };
    let d1 = line.delta();
    let d2 = other.delta();
    proof {
        lemma_i32_product(d1.x as int, d2.x as int);
        lemma_i32_product(d1.y as int, d2.y as int);
        lemma_i32_product(denominator as int, denominator as int);
    }
    let den: i128 = denominator as i128;
    let directions: i128 = d1.x as i128 * d2.x as i128 + d1.y as i128 * d2.y as i128;
    if den * den < directions {
        let mx = div_toward_zero(line.end.x as i128 + other.start.x as i128, 2);
        let my = div_toward_zero(line.end.y as i128 + other.start.y as i128, 2);
        proof {
            lemma_half_sum_fits(line.end.x as int, other.start.x as int);
            lemma_half_sum_fits(line.end.y as int, other.start.y as int);
        }
        return Intersection::Point {
            point: Point::new(mx as i32, my as i32),
            outer_side,
            is_special_case: true,
        };
    }
    let n1 = line1.normal_vector;
    let n2 = line2.normal_vector;
    let od1 = line1.origin_distance;
    let od2 = line2.origin_distance;
    proof {
        lemma_i32_product(od1 as int, n2.y as int);
        lemma_i32_product(od2 as int, n1.y as int);
        lemma_i32_product(n1.x as int, od2 as int);
        lemma_i32_product(n2.x as int, od1 as int);
    }
    let offset: i128 = (if den < 0 { -den } else { den }) / 2;
    let xn: i128 = od1 as i128 * n2.y as i128 - od2 as i128 * n1.y as i128;
    let yn: i128 = n1.x as i128 * od2 as i128 - n2.x as i128 * od1 as i128;
    let x_adjusted: i128 = if xn < 0 { xn - offset } else { xn + offset };
    let y_adjusted: i128 = if yn < 0 { yn - offset } else { yn + offset };
    let x = div_toward_zero(x_adjusted, den);
    let y = div_toward_zero(y_adjusted, den);
    Intersection::Point { point: Point::new(x as i32, y as i32), outer_side, is_special_case: false }
}

/// The fields of a line's equation as exact values, or `None` when one of
/// them does not fit in an `i32`.
fn checked_equation(line: &Line) -> (r: Option<(i128, i128, i128)>)
    ensures
        r is Some == equation_fits(*line),
        r matches Some((nx, ny, od)) ==> nx == normal_x(*line) && ny == normal_y(*line) && od
            == origin_distance(*line),
{
    let dx: i128 = line.end.x as i128 - line.start.x as i128;
    let dy: i128 = line.end.y as i128 - line.start.y as i128;
    if dx <= i32::MIN as i128 || dx > i32::MAX as i128 || dy < i32::MIN as i128 || dy
        > i32::MAX as i128 {
        return None;
    }
    proof {
        lemma_i32_product(line.start.x as int, dy as int);
        lemma_i32_product(line.start.y as int, -dx);
    }
    let od: i128 = line.start.x as i128 * dy + line.start.y as i128 * -dx;
    if od < i32::MIN as i128 || od > i32::MAX as i128 {
        return None;
    }
    Some((dy, -dx, od))
}

/// Like `intersection`, but returns `None` exactly when a value that the
/// computation goes through does not fit in an `i32`.
pub fn checked_intersection(line: &Line, other: &Line) -> (r: Option<Intersection>)
    ensures
        r is Some == intersection_defined(*line, *other),
        r matches Some(i) ==> is_intersection_of(i, *line, *other),
{
    let e1 = checked_equation(line);
    let e2 = checked_equation(other);
    let (nax, nay, oa) = match e1 {
        Some(e) => e,
        None => {
            return None;
        },
    };
    let (nbx, nby, ob) = match e2 {
        Some(e) => e,
        None => {
            return None;
        },
    };
    proof {
        lemma_i32_product(nax as int, nby as int);
        lemma_i32_product(nay as int, nbx as int);
    }
    let den: i128 = nax * nby - nay * nbx;
    if den < i32::MIN as i128 || den > i32::MAX as i128 {
        return None;
    }
    if den != 0 {
        proof {
            lemma_i32_product(den as int, den as int);
            lemma_i32_product(-nay as int, -nby as int);
            lemma_i32_product(nax as int, nbx as int);
            lemma_i32_product(oa as int, nby as int);
            lemma_i32_product(ob as int, nay as int);
            lemma_i32_product(nax as int, ob as int);
            lemma_i32_product(nbx as int, oa as int);
        }
        let directions: i128 = (-nay) * (-nby) + nax * nbx;
        assert(directions == dot(line.dx(), line.dy(), other.dx(), other.dy()));
        if !(den * den < directions) {
            let offset: i128 = (if den < 0 { -den } else { den }) / 2;
            let xn: i128 = oa * nby - ob * nay;
            let yn: i128 = nax * ob - nbx * oa;
            let x = div_toward_zero(if xn < 0 { xn - offset } else { xn + offset }, den);
            let y = div_toward_zero(if yn < 0 { yn - offset } else { yn + offset }, den);
            if x < i32::MIN as i128 || x > i32::MAX as i128 || y < i32::MIN as i128 || y
                > i32::MAX as i128 {
                return None;
            }
        }
    }
    Some(intersection(line, other))
}

/// Rounding an exact quotient gives that quotient back.
proof fn lemma_round_div_exact(q: int, d: int)
    requires
        d != 0,
    ensures
        round_div(q * d, d) == q,
{
    let n = q * d;
    let off = abs(d) / 2;
    let m = if n < 0 { n - off } else { n + off };
    assert(abs(n) == abs(q) * abs(d)) by (nonlinear_arith)
        requires
            n == q * d,
    ;
    assert(abs(m) == abs(q) * abs(d) + off);
    lemma_fundamental_div_mod_converse(abs(m), abs(d), abs(q), off);
    if q != 0 {
        assert((n < 0) == ((q < 0) != (d < 0))) by (nonlinear_arith)
            requires
                n == q * d,
                q != 0,
                d != 0,
        ;
    }
}

/// Negating both numerator and divisor does not change a rounded quotient.
proof fn lemma_round_div_negate(n: int, d: int)
    requires
        d != 0,
    ensures
        round_div(-n, -d) == round_div(n, d),
{
    let off = abs(d) / 2;
    if n == 0 {
        lemma_fundamental_div_mod_converse(off, abs(d), 0, off);
    }
}

/// Rounding picks a nearest integer: `q * d` is within half of `|d|` of
/// `n`, so the point is never biased toward zero by a whole unit.
pub proof fn lemma_round_div_nearest(n: int, d: int)
    requires
        d != 0,
    ensures
        abs(2 * (round_div(n, d) * d - n)) <= abs(d),
{
    let ad = abs(d);
    let off = ad / 2;
    let m = if n < 0 { n - off } else { n + off };
    let q = round_div(n, d);
    lemma_fundamental_div_mod(abs(m), ad);
    let t = abs(m) / ad;
    let r = abs(m) % ad;
    assert(t * ad == abs(m) - r) by (nonlinear_arith)
        requires
            abs(m) == ad * t + r,
    ;
    assert(ad - 1 <= 2 * off <= ad);
    assert(q == trunc_div(m, d));
    if (m < 0) == (d < 0) {
        assert(q == t);
    } else {
        assert(q == -t);
    }
    assert(q * d == if m < 0 { -(t * ad) } else { t * ad }) by (nonlinear_arith)
        requires
            ad == abs(d),
            d != 0,
            q == if (m < 0) == (d < 0) { t } else { -t },
    ;
    assert(0 <= r < ad);
    if n < 0 {
        assert(q * d - n == r - off);
    } else {
        assert(q * d - n == off - r);
    }
}

/// The determinant of a vector with itself is zero.
pub proof fn lemma_self_determinant(v: Point)
    ensures
        v.det_spec(v) == 0,
{
    assert(v.x * v.y == v.y * v.x) by (nonlinear_arith);
}

/// Two lines whose directions are parallel, pointing the same way or
/// opposite ways, and whether or not they coincide, meet as `Colinear`.
pub proof fn lemma_parallel_lines_colinear(a: Line, b: Line)
    requires
        det(a.dx(), a.dy(), b.dx(), b.dy()) == 0,
    ensures
        denominator(a, b) == 0,
{
    assert(denominator(a, b) == det(a.dx(), a.dy(), b.dx(), b.dy())) by (nonlinear_arith);
}

/// Two segments that share an endpoint, and are neither parallel nor nearly
/// so, intersect exactly at that endpoint.
pub proof fn lemma_shared_endpoint(a: Line, b: Line, p: Point)
    requires
        p == a.start || p == a.end,
        p == b.start || p == b.end,
        denominator(a, b) != 0,
        !near_parallel(a, b),
    ensures
        expected_x(a, b) == p.x,
        expected_y(a, b) == p.y,
{
    lemma_endpoints_on_line(a);
    lemma_endpoints_on_line(b);
    let px = p.x as int;
    let py = p.y as int;
    let (nax, nay, nbx, nby) = (normal_x(a), normal_y(a), normal_x(b), normal_y(b));
    let (oa, ob) = (origin_distance(a), origin_distance(b));
    assert(oa == px * nax + py * nay);
    assert(ob == px * nbx + py * nby);
    assert(oa * nby - ob * nay == px * (nax * nby - nay * nbx)) by (nonlinear_arith)
        requires
            oa == px * nax + py * nay,
            ob == px * nbx + py * nby,
    ;
    assert(nax * ob - nbx * oa == py * (nax * nby - nay * nbx)) by (nonlinear_arith)
        requires
            oa == px * nax + py * nay,
            ob == px * nbx + py * nby,
    ;
    lemma_round_div_exact(px, denominator(a, b));
    lemma_round_div_exact(py, denominator(a, b));
}

/// Swapping the two lines negates the denominator, and so flips the outer
/// side, keeps the near-parallel test, and, outside that case, keeps the
/// intersection point.
pub proof fn lemma_swap_lines(a: Line, b: Line)
    requires
        denominator(a, b) != 0,
    ensures
        denominator(b, a) == -denominator(a, b),
        outer_side_of(denominator(b, a)) != outer_side_of(denominator(a, b)),
        near_parallel(b, a) == near_parallel(a, b),
        !near_parallel(a, b) ==> {
            &&& expected_x(b, a) == expected_x(a, b)
            &&& expected_y(b, a) == expected_y(a, b)
        },
{
    let (nax, nay, nbx, nby) = (normal_x(a), normal_y(a), normal_x(b), normal_y(b));
    let (oa, ob) = (origin_distance(a), origin_distance(b));
    assert(nbx * nay - nby * nax == -(nax * nby - nay * nbx)) by (nonlinear_arith);
    assert(ob * nay - oa * nby == -(oa * nby - ob * nay)) by (nonlinear_arith);
    assert(nbx * oa - nax * ob == -(nax * ob - nbx * oa)) by (nonlinear_arith);
    assert(denominator(b, a) * denominator(b, a) == denominator(a, b) * denominator(a, b))
        by (nonlinear_arith)
        requires
            denominator(b, a) == -denominator(a, b),
    ;
    assert(dot(b.dx(), b.dy(), a.dx(), a.dy()) == dot(a.dx(), a.dy(), b.dx(), b.dy()))
        by (nonlinear_arith);
    lemma_round_div_negate(x_numerator(a, b), denominator(a, b));
    lemma_round_div_negate(y_numerator(a, b), denominator(a, b));
}

} // verus!
