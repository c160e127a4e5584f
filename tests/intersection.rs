use debug_tools::equation::{LineSide, LinearEquation};
use debug_tools::geometry::{Line, Point};
use debug_tools::intersection::{checked_intersection, intersection, Intersection};

fn line(x0: i32, y0: i32, x1: i32, y1: i32) -> Line {
    Line::new(Point::new(x0, y0), Point::new(x1, y1))
}

fn crossing(point: (i32, i32), outer_side: LineSide, is_special_case: bool) -> Intersection {
    Intersection::Point { point: Point::new(point.0, point.1), outer_side, is_special_case }
}

#[test]
fn perpendicular_lines_cross() {
    let r = intersection(&line(0, 0, 10, 0), &line(5, -5, 5, 5));
    assert_eq!(r, crossing((5, 0), LineSide::Right, false));
}

#[test]
fn perpendicular_lines_cross_other_turn() {
    let r = intersection(&line(0, 0, 10, 0), &line(5, 5, 5, -5));
    assert_eq!(r, crossing((5, 0), LineSide::Left, false));
}

#[test]
fn overlapping_lines_are_colinear() {
    assert_eq!(intersection(&line(0, 0, 10, 10), &line(0, 0, 20, 20)), Intersection::Colinear);
}

#[test]
fn offset_parallel_lines_are_colinear() {
    assert_eq!(intersection(&line(0, 0, 10, 0), &line(0, 1, 10, 1)), Intersection::Colinear);
}

#[test]
fn opposite_parallel_lines_are_colinear() {
    assert_eq!(intersection(&line(0, 0, 10, 5), &line(3, 7, -17, -3)), Intersection::Colinear);
}

#[test]
fn shared_endpoint_is_the_intersection() {
    let r = intersection(&line(0, 0, 10, 0), &line(10, 0, 10, 10));
    assert_eq!(r, crossing((10, 0), LineSide::Right, false));
    let r = intersection(&line(3, -7, 11, 2), &line(-4, 9, 3, -7));
    match r {
        Intersection::Point { point, is_special_case, .. } => {
            assert_eq!(point, Point::new(3, -7));
            assert!(!is_special_case);
        }
        Intersection::Colinear => panic!("expected a crossing"),
    }
}

#[test]
fn swapping_lines_keeps_point_and_flips_side() {
    let a = line(1, 2, 40, 17);
    let b = line(-5, 30, 25, -12);
    let (p, q) = (intersection(&a, &b), intersection(&b, &a));
    match (p, q) {
        (
            Intersection::Point { point: p1, outer_side: s1, is_special_case: false },
            Intersection::Point { point: p2, outer_side: s2, is_special_case: false },
        ) => {
            assert_eq!(p1, p2);
            assert_ne!(s1, s2);
        }
        _ => panic!("expected two exact crossings"),
    }
}

#[test]
fn near_parallel_lines_use_the_midpoint() {
    let r = intersection(&line(0, 0, 100, 0), &line(0, 1, 200, 2));
    assert_eq!(r, crossing((50, 0), LineSide::Right, true));
}

#[test]
fn near_parallel_midpoint_truncates_toward_zero() {
    let r = intersection(&line(0, 0, -101, 0), &line(0, -2, -201, -3));
    match r {
        Intersection::Point { point, is_special_case, .. } => {
            assert!(is_special_case);
            assert_eq!(point, Point::new(-50, -1));
        }
        Intersection::Colinear => panic!("expected a crossing"),
    }
}

#[test]
fn point_is_rounded_half_away_from_zero() {
    // The lines cross at x = 3.5 and x = -3.5.
    let r = intersection(&line(0, 0, 10, 0), &line(3, -1, 4, 1));
    assert_eq!(r, crossing((4, 0), LineSide::Right, false));
    let r = intersection(&line(0, 0, 10, 0), &line(-3, -1, -4, 1));
    assert_eq!(r, crossing((-4, 0), LineSide::Right, false));
}

#[test]
fn point_below_half_is_rounded_down() {
    // The lines cross at x = 10 / 3.
    let r = intersection(&line(0, 0, 10, 0), &line(3, -1, 4, 2));
    assert_eq!(r, crossing((3, 0), LineSide::Right, false));
}

#[test]
fn lines_cross_outside_the_segments() {
    let r = intersection(&line(0, 0, 1, 0), &line(20, 5, 20, 6));
    assert_eq!(r, crossing((20, 0), LineSide::Right, false));
}

#[test]
fn equation_of_a_line() {
    let e = LinearEquation::from_line(&line(1, 2, 4, 6));
    assert_eq!(e.normal_vector, Point::new(4, -3));
    assert_eq!(e.origin_distance, -2);
    assert_eq!(e.distance(Point::new(1, 2)), 0);
    assert_eq!(e.distance(Point::new(4, 6)), 0);
    assert_eq!(e.distance(Point::new(0, 5)), -13);
    assert_eq!(e.distance(Point::new(5, 0)), 22);
}

#[test]
fn sides_of_a_line() {
    let e = LinearEquation::from_line(&line(0, 0, 10, 0));
    // Facing along +x with y growing downwards on screen: (5, -3) is to the left.
    assert!(e.check_side(Point::new(5, -3), LineSide::Left));
    assert!(!e.check_side(Point::new(5, -3), LineSide::Right));
    assert!(e.check_side(Point::new(5, 3), LineSide::Right));
    assert!(!e.check_side(Point::new(5, 3), LineSide::Left));
    assert!(e.check_side(Point::new(7, 0), LineSide::Left));
    assert!(e.check_side(Point::new(7, 0), LineSide::Right));
}

#[test]
fn vector_helpers() {
    let a = Point::new(3, -4);
    let b = Point::new(-2, 5);
    assert_eq!(a.rotate_90(), Point::new(-4, -3));
    assert_eq!(a.dot_product(b), -26);
    assert_eq!(a.determinant(b), 7);
    assert_eq!(a.determinant(a), 0);
    assert_eq!(b.determinant(b), 0);
    assert_eq!(a.length_squared(), 25);
    assert_eq!(line(1, 1, -2, 5).delta(), Point::new(-3, 4));
}

#[test]
fn helpers_with_wide_intermediates() {
    let a = Point::new(i32::MIN, i32::MIN);
    let b = Point::new(1, -1);
    assert_eq!(a.dot_product(b), 0);
    let c = Point::new(46340, 46340);
    assert_eq!(c.determinant(c), 0);
}

#[test]
fn checked_intersection_matches_intersection() {
    let a = line(0, 0, 10, 0);
    let b = line(5, -5, 5, 5);
    assert_eq!(checked_intersection(&a, &b), Some(intersection(&a, &b)));
    let c = line(0, 1, 10, 1);
    assert_eq!(checked_intersection(&a, &c), Some(Intersection::Colinear));
    let d = line(0, 1, 200, 2);
    assert_eq!(checked_intersection(&line(0, 0, 100, 0), &d), Some(crossing((50, 0), LineSide::Right, true)));
}

#[test]
fn checked_intersection_rejects_overflow() {
    let a = line(0, 0, 10, 0);
    assert_eq!(checked_intersection(&line(i32::MIN, 0, i32::MAX, 0), &a), None);
    assert_eq!(checked_intersection(&a, &line(0, 0, i32::MIN, 0)), None);
    assert_eq!(checked_intersection(&a, &line(100_000_000, 1, -2_000_000_000, 2)), None);
    assert_eq!(checked_intersection(&line(0, 0, 1, 0), &line(20_000, 1, -1_000_000, 2)), Some(crossing((1_040_000, 0), LineSide::Right, false)));
}
