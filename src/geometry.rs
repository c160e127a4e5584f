use vstd::prelude::*;

verus! {

/// Whether an exact value can be held by an `i32`.
pub open spec fn fits_i32(v: int) -> bool {
    i32::MIN <= v <= i32::MAX
}

pub open spec fn abs(v: int) -> int {
    if v < 0 {
        -v
    } else {
        v
    }
}

/// Division that truncates toward zero, as Rust's `/` on integers does.
pub open spec fn trunc_div(n: int, d: int) -> int {
    if (n < 0) == (d < 0) {
        abs(n) / abs(d)
    } else {
        -(abs(n) / abs(d))
    }
}

/// Division that rounds half away from zero: half the divisor's magnitude is
/// added to (or taken from) the numerator before a truncating division.
pub open spec fn round_div(n: int, d: int) -> int {
    trunc_div(if n < 0 { n - abs(d) / 2 } else { n + abs(d) / 2 }, d)
}

pub open spec fn dot(ax: int, ay: int, bx: int, by: int) -> int {
    ax * bx + ay * by
}

pub open spec fn det(ax: int, ay: int, bx: int, by: int) -> int {
    ax * by - ay * bx
}

/// A point, or a vector, with integer coordinates.
#[derive(Clone, Copy, Debug, PartialEq, Eq, Hash, Structural)]
pub struct Point {
    pub x: i32,
    pub y: i32,
}

/// A directed segment from `start` to `end`.
#[derive(Clone, Copy, Debug, PartialEq, Eq, Hash, Structural)]
pub struct Line {
    pub start: Point,
    pub end: Point,
}

pub proof fn lemma_i32_product(a: int, b: int)
    requires
        fits_i32(a),
        fits_i32(b),
    ensures
        -0x4000_0000_0000_0000 <= a * b <= 0x4000_0000_0000_0000,
{
    assert(-0x8000_0000 <= a <= 0x8000_0000);
    assert(-0x8000_0000 <= b <= 0x8000_0000);
    assert(-0x4000_0000_0000_0000 <= a * b <= 0x4000_0000_0000_0000) by (nonlinear_arith)
        requires
            -0x8000_0000 <= a <= 0x8000_0000,
            -0x8000_0000 <= b <= 0x8000_0000,
    ;
}

impl Point {
    pub open spec fn dot_spec(self, other: Point) -> int {
        dot(self.x as int, self.y as int, other.x as int, other.y as int)
    }

    pub open spec fn det_spec(self, other: Point) -> int {
        det(self.x as int, self.y as int, other.x as int, other.y as int)
    }

    pub open spec fn length_squared_spec(self) -> int {
        self.dot_spec(self)
    }

    pub fn new(x: i32, y: i32) -> (r: Point)
        ensures
            r.x == x,
            r.y == y,
    {
        Point { x, y }
    }

    /// The vector turned by a quarter turn: `(x, y)` becomes `(y, -x)`.
    pub fn rotate_90(self) -> (r: Point)
        requires
            self.x != i32::MIN,
        ensures
            r.x == self.y,
            r.y == -self.x,
    {
        Point { x: self.y, y: -self.x }
    }

    pub fn dot_product(self, other: Point) -> (r: i32)
        requires
            fits_i32(self.dot_spec(other)),
        ensures
            r == self.dot_spec(other),
    {
        proof {
            lemma_i32_product(self.x as int, other.x as int);
            lemma_i32_product(self.y as int, other.y as int);
        }
        let v: i128 = self.x as i128 * other.x as i128 + self.y as i128 * other.y as i128;
        v as i32
    }

    /// The determinant of the 2x2 matrix whose rows are `self` and `other`.
    pub fn determinant(self, other: Point) -> (r: i32)
        requires
            fits_i32(self.det_spec(other)),
        ensures
            r == self.det_spec(other),
    {
        proof {
            lemma_i32_product(self.x as int, other.y as int);
            lemma_i32_product(self.y as int, other.x as int);
        }
        let v: i128 = self.x as i128 * other.y as i128 - self.y as i128 * other.x as i128;
        v as i32
    }

    pub fn length_squared(self) -> (r: i32)
        requires
            fits_i32(self.length_squared_spec()),
        ensures
            r == self.length_squared_spec(),
    {
        self.dot_product(self)
    }
}

impl Line {
    pub open spec fn dx(self) -> int {
        self.end.x - self.start.x
    }

    pub open spec fn dy(self) -> int {
        self.end.y - self.start.y
    }

    /// Whether the direction `end - start` can be held by a `Point`.
    pub open spec fn delta_fits(self) -> bool {
        fits_i32(self.dx()) && fits_i32(self.dy())
    }

    pub fn new(start: Point, end: Point) -> (r: Line)
        ensures
            r.start == start,
            r.end == end,
    {
        Line { start, end }
    }

    /// The direction of the segment, `end - start`.
    pub fn delta(&self) -> (r: Point)
        requires
            self.delta_fits(),
        ensures
            r.x == self.dx(),
            r.y == self.dy(),
    {
        Point {
            x: (self.end.x as i64 - self.start.x as i64) as i32,
            y: (self.end.y as i64 - self.start.y as i64) as i32,
        }
    }
}

} // verus!
