use vstd::prelude::*;
use crate::geometry::{Point, Line, fits_i32, dot, lemma_i32_product};

verus! {

/// A side of a directed line: standing on `start` and facing `end`, `Left`
/// is to the left and `Right` to the right.
#[derive(Clone, Copy, Debug, PartialEq, Eq, Hash, Structural)]
pub enum LineSide {
    Left,
    Right,
}

/// The implicit equation `dot(p, normal_vector) == origin_distance` of a line.
#[derive(Clone, Copy, Debug, PartialEq, Eq, Structural)]
pub struct LinearEquation {
    /// The line's direction turned by a quarter turn; its length scales all
    /// distances.
    pub normal_vector: Point,
    /// `dot(start, normal_vector)` for any point `start` on the line.
    pub origin_distance: i32,
}

/// The normal vector of a line's equation, as exact integers.
pub open spec fn normal_x(line: Line) -> int {
    line.dy()
}

pub open spec fn normal_y(line: Line) -> int {
    -line.dx()
}

pub open spec fn origin_distance(line: Line) -> int {
    dot(line.start.x as int, line.start.y as int, normal_x(line), normal_y(line))
}

/// The scaled signed distance of `p` from the infinite line through `line`.
pub open spec fn signed_distance(line: Line, p: Point) -> int {
    dot(p.x as int, p.y as int, normal_x(line), normal_y(line)) - origin_distance(line)
}

/// Whether every field of the line's equation fits in an `i32`.
pub open spec fn equation_fits(line: Line) -> bool {
    &&& line.delta_fits()
    &&& line.dx() != i32::MIN
    &&& fits_i32(origin_distance(line))
}

pub open spec fn on_side(distance: int, side: LineSide) -> bool {
    match side {
        LineSide::Right => distance <= 0,
        LineSide::Left => distance >= 0,
    }
}

impl LinearEquation {
    pub open spec fn distance_spec(self, p: Point) -> int {
        p.dot_spec(self.normal_vector) - self.origin_distance
    }

    /// Whether this is the equation of the infinite line through `line`.
    pub open spec fn is_equation_of(self, line: Line) -> bool {
        &&& self.normal_vector.x == normal_x(line)
        &&& self.normal_vector.y == normal_y(line)
        &&& self.origin_distance == origin_distance(line)
    }

    /// The equation of the infinite line through a segment, oriented so that
    /// points to the left of the segment's direction have a positive distance.
    pub fn from_line(line: &Line) -> (r: LinearEquation)
        requires
            equation_fits(*line),
        ensures
            r.is_equation_of(*line),
    {
        let normal_vector = line.delta().rotate_90();
        let origin_distance = line.start.dot_product(normal_vector);
        LinearEquation { normal_vector, origin_distance }
    }

    /// The signed distance of a point from the line, scaled by the length of
    /// the normal vector: positive on the left, negative on the right.
    pub fn distance(&self, point: Point) -> (r: i32)
        requires
            fits_i32(self.distance_spec(point)),
        ensures
            r == self.distance_spec(point),
    {
        proof {
            lemma_i32_product(point.x as int, self.normal_vector.x as int);
            lemma_i32_product(point.y as int, self.normal_vector.y as int);
        }
        let d: i128 = point.x as i128 * self.normal_vector.x as i128
            + point.y as i128 * self.normal_vector.y as i128 - self.origin_distance as i128;
        d as i32
    }

    /// Whether a point lies on the given side of the line; a point on the
    /// line is on both sides.
    pub fn check_side(&self, point: Point, side: LineSide) -> (r: bool)
        requires
            fits_i32(self.distance_spec(point)),
        ensures
            r == on_side(self.distance_spec(point), side),
    {
        let distance = self.distance(point);
        match side {
            LineSide::Right => distance <= 0,
            LineSide::Left => distance >= 0,
        }
    }
}

/// The equation of a line is met by both of the segment's endpoints.
pub proof fn lemma_endpoints_on_line(line: Line)
    ensures
        signed_distance(line, line.start) == 0,
        signed_distance(line, line.end) == 0,
{
    let sx = line.start.x as int;
    let sy = line.start.y as int;
    let ex = line.end.x as int;
    let ey = line.end.y as int;
    assert(ex * (ey - sy) + ey * (-(ex - sx)) - (sx * (ey - sy) + sy * (-(ex - sx))) == 0)
        by (nonlinear_arith);
}

} // verus!
